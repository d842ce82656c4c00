use crate::image::{GrayImage, Rgb, RgbImage};
use crate::image_utils::{
    lemma_round_div_le, map_to_scaled_value, round_div, spec_round_div, spec_scaled_value, Scaled,
};
use crate::settings::ColorMap;
use vstd::prelude::*;

verus! {

// The five lookup palettes, as 8-bit RGB steps. Each table holds 256
// equally spaced steps of the published colormap of the same name,
// with every channel scaled from [0, 1] to 0..=255 and rounded to the
// nearest integer.

#[verifier::opaque]
pub const TURBO_TABLE: [[u8; 3]; 256] = [
    [48, 18, 59], [50, 21, 67], [51, 24, 74], [52, 27, 81], [53, 30, 88], [54, 33, 95], [55, 36, 102], [56, 39, 109],
    [57, 42, 115], [58, 45, 121], [59, 47, 128], [60, 50, 134], [61, 53, 139], [62, 56, 145], [63, 59, 151], [63, 62, 156],
    [64, 64, 162], [65, 67, 167], [65, 70, 172], [66, 73, 177], [66, 75, 181], [67, 78, 186], [68, 81, 191], [68, 84, 195],
    [68, 86, 199], [69, 89, 203], [69, 92, 207], [69, 94, 211], [70, 97, 214], [70, 100, 218], [70, 102, 221], [70, 105, 224],
    [70, 107, 227], [71, 110, 230], [71, 113, 233], [71, 115, 235], [71, 118, 238], [71, 120, 240], [71, 123, 242], [70, 125, 244],
    [70, 128, 246], [70, 130, 248], [70, 133, 250], [70, 135, 251], [69, 138, 252], [69, 140, 253], [68, 143, 254], [67, 145, 254],
    [66, 148, 255], [65, 150, 255], [64, 153, 255], [62, 155, 254], [61, 158, 254], [59, 160, 253], [58, 163, 252], [56, 165, 251],
    [55, 168, 250], [53, 171, 248], [51, 173, 247], [49, 175, 245], [47, 178, 244], [46, 180, 242], [44, 183, 240], [42, 185, 238],
    [40, 188, 235], [39, 190, 233], [37, 192, 231], [35, 195, 228], [34, 197, 226], [32, 199, 223], [31, 201, 221], [30, 203, 218],
    [28, 205, 216], [27, 208, 213], [26, 210, 210], [26, 212, 208], [25, 213, 205], [24, 215, 202], [24, 217, 200], [24, 219, 197],
    [24, 221, 194], [24, 222, 192], [24, 224, 189], [25, 226, 187], [25, 227, 185], [26, 228, 182], [28, 230, 180], [29, 231, 178],
    [31, 233, 175], [32, 234, 172], [34, 235, 170], [37, 236, 167], [39, 238, 164], [42, 239, 161], [44, 240, 158], [47, 241, 155],
    [50, 242, 152], [53, 243, 148], [56, 244, 145], [60, 245, 142], [63, 246, 138], [67, 247, 135], [70, 248, 132], [74, 248, 128],
    [78, 249, 125], [82, 250, 122], [85, 250, 118], [89, 251, 115], [93, 252, 111], [97, 252, 108], [101, 253, 105], [105, 253, 102],
    [109, 254, 98], [113, 254, 95], [117, 254, 92], [121, 254, 89], [125, 255, 86], [128, 255, 83], [132, 255, 81], [136, 255, 78],
    [139, 255, 75], [143, 255, 73], [146, 255, 71], [150, 254, 68], [153, 254, 66], [156, 254, 64], [159, 253, 63], [161, 253, 61],
    [164, 252, 60], [167, 252, 58], [169, 251, 57], [172, 251, 56], [175, 250, 55], [177, 249, 54], [180, 248, 54], [183, 247, 53],
    [185, 246, 53], [188, 245, 52], [190, 244, 52], [193, 243, 52], [195, 241, 52], [198, 240, 52], [200, 239, 52], [203, 237, 52],
    [205, 236, 52], [208, 234, 52], [210, 233, 53], [212, 231, 53], [215, 229, 53], [217, 228, 54], [219, 226, 54], [221, 224, 55],
    [223, 223, 55], [225, 221, 55], [227, 219, 56], [229, 217, 56], [231, 215, 57], [233, 213, 57], [235, 211, 57], [236, 209, 58],
    [238, 207, 58], [239, 205, 58], [241, 203, 58], [242, 201, 58], [244, 199, 58], [245, 197, 58], [246, 195, 58], [247, 193, 58],
    [248, 190, 57], [249, 188, 57], [250, 186, 57], [251, 184, 56], [251, 182, 55], [252, 179, 54], [252, 177, 54], [253, 174, 53],
    [253, 172, 52], [254, 169, 51], [254, 167, 50], [254, 164, 49], [254, 161, 48], [254, 158, 47], [254, 155, 45], [254, 153, 44],
    [254, 150, 43], [254, 147, 42], [254, 144, 41], [253, 141, 39], [253, 138, 38], [252, 135, 37], [252, 132, 35], [251, 129, 34],
    [251, 126, 33], [250, 123, 31], [249, 120, 30], [249, 117, 29], [248, 114, 28], [247, 111, 26], [246, 108, 25], [245, 105, 24],
    [244, 102, 23], [243, 99, 21], [242, 96, 20], [241, 93, 19], [240, 91, 18], [239, 88, 17], [237, 85, 16], [236, 83, 15],
    [235, 80, 14], [234, 78, 13], [232, 75, 12], [231, 73, 12], [229, 71, 11], [228, 69, 10], [226, 67, 10], [225, 65, 9],
    [223, 63, 8], [221, 61, 8], [220, 59, 7], [218, 57, 7], [216, 55, 6], [214, 53, 6], [212, 51, 5], [210, 49, 5],
    [208, 47, 5], [206, 45, 4], [204, 43, 4], [202, 42, 4], [200, 40, 3], [197, 38, 3], [195, 37, 3], [193, 35, 2],
    [190, 33, 2], [188, 32, 2], [185, 30, 2], [183, 29, 2], [180, 27, 1], [178, 26, 1], [175, 24, 1], [172, 23, 1],
    [169, 22, 1], [167, 20, 1], [164, 19, 1], [161, 18, 1], [158, 16, 1], [155, 15, 1], [152, 14, 1], [149, 13, 1],
    [146, 11, 1], [142, 10, 1], [139, 9, 2], [136, 8, 2], [133, 7, 2], [129, 6, 2], [126, 5, 2], [122, 4, 3],
];

#[verifier::opaque]
pub const MAGMA_TABLE: [[u8; 3]; 256] = [
    [0, 0, 4], [1, 0, 5], [1, 1, 6], [1, 1, 8], [2, 1, 9], [2, 2, 11], [2, 2, 13], [3, 3, 15],
    [3, 3, 18], [4, 4, 20], [5, 4, 22], [6, 5, 24], [6, 5, 26], [7, 6, 28], [8, 7, 30], [9, 7, 32],
    [10, 8, 34], [11, 9, 36], [12, 9, 38], [13, 10, 41], [14, 11, 43], [16, 11, 45], [17, 12, 47], [18, 13, 49],
    [19, 13, 52], [20, 14, 54], [21, 14, 56], [22, 15, 59], [24, 15, 61], [25, 16, 63], [26, 16, 66], [28, 16, 68],
    [29, 17, 71], [30, 17, 73], [32, 17, 75], [33, 17, 78], [34, 17, 80], [36, 18, 83], [37, 18, 85], [39, 18, 88],
    [41, 17, 90], [42, 17, 92], [44, 17, 95], [45, 17, 97], [47, 17, 99], [49, 17, 101], [51, 16, 103], [52, 16, 105],
    [54, 16, 107], [56, 16, 108], [57, 15, 110], [59, 15, 112], [61, 15, 113], [63, 15, 114], [64, 15, 116], [66, 15, 117],
    [68, 15, 118], [69, 16, 119], [71, 16, 120], [73, 16, 120], [74, 16, 121], [76, 17, 122], [78, 17, 123], [79, 18, 123],
    [81, 18, 124], [82, 19, 124], [84, 19, 125], [86, 20, 125], [87, 21, 126], [89, 21, 126], [90, 22, 126], [92, 22, 127],
    [93, 23, 127], [95, 24, 127], [96, 24, 128], [98, 25, 128], [100, 26, 128], [101, 26, 128], [103, 27, 128], [104, 28, 129],
    [106, 28, 129], [107, 29, 129], [109, 29, 129], [110, 30, 129], [112, 31, 129], [114, 31, 129], [115, 32, 129], [117, 33, 129],
    [118, 33, 129], [120, 34, 129], [121, 34, 130], [123, 35, 130], [124, 35, 130], [126, 36, 130], [128, 37, 130], [129, 37, 129],
    [131, 38, 129], [132, 38, 129], [134, 39, 129], [136, 39, 129], [137, 40, 129], [139, 41, 129], [140, 41, 129], [142, 42, 129],
    [144, 42, 129], [145, 43, 129], [147, 43, 128], [148, 44, 128], [150, 44, 128], [152, 45, 128], [153, 45, 128], [155, 46, 127],
    [156, 46, 127], [158, 47, 127], [160, 47, 127], [161, 48, 126], [163, 48, 126], [165, 49, 126], [166, 49, 125], [168, 50, 125],
    [170, 51, 125], [171, 51, 124], [173, 52, 124], [174, 52, 123], [176, 53, 123], [178, 53, 123], [179, 54, 122], [181, 54, 122],
    [183, 55, 121], [184, 55, 121], [186, 56, 120], [188, 57, 120], [189, 57, 119], [191, 58, 119], [192, 58, 118], [194, 59, 117],
    [196, 60, 117], [197, 60, 116], [199, 61, 115], [200, 62, 115], [202, 62, 114], [204, 63, 113], [205, 64, 113], [207, 64, 112],
    [208, 65, 111], [210, 66, 111], [211, 67, 110], [213, 68, 109], [214, 69, 108], [216, 69, 108], [217, 70, 107], [219, 71, 106],
    [220, 72, 105], [222, 73, 104], [223, 74, 104], [224, 76, 103], [226, 77, 102], [227, 78, 101], [228, 79, 100], [229, 80, 100],
    [231, 82, 99], [232, 83, 98], [233, 84, 98], [234, 86, 97], [235, 87, 96], [236, 88, 96], [237, 90, 95], [238, 91, 94],
    [239, 93, 94], [240, 95, 94], [241, 96, 93], [242, 98, 93], [242, 100, 92], [243, 101, 92], [244, 103, 92], [244, 105, 92],
    [245, 107, 92], [246, 108, 92], [246, 110, 92], [247, 112, 92], [247, 114, 92], [248, 116, 92], [248, 118, 92], [249, 120, 93],
    [249, 121, 93], [249, 123, 93], [250, 125, 94], [250, 127, 94], [250, 129, 95], [251, 131, 95], [251, 133, 96], [251, 135, 97],
    [252, 137, 97], [252, 138, 98], [252, 140, 99], [252, 142, 100], [252, 144, 101], [253, 146, 102], [253, 148, 103], [253, 150, 104],
    [253, 152, 105], [253, 154, 106], [253, 155, 107], [254, 157, 108], [254, 159, 109], [254, 161, 110], [254, 163, 111], [254, 165, 113],
    [254, 167, 114], [254, 169, 115], [254, 170, 116], [254, 172, 118], [254, 174, 119], [254, 176, 120], [254, 178, 122], [254, 180, 123],
    [254, 182, 124], [254, 183, 126], [254, 185, 127], [254, 187, 129], [254, 189, 130], [254, 191, 132], [254, 193, 133], [254, 194, 135],
    [254, 196, 136], [254, 198, 138], [254, 200, 140], [254, 202, 141], [254, 204, 143], [254, 205, 144], [254, 207, 146], [254, 209, 148],
    [254, 211, 149], [254, 213, 151], [254, 215, 153], [254, 216, 154], [253, 218, 156], [253, 220, 158], [253, 222, 160], [253, 224, 161],
    [253, 226, 163], [253, 227, 165], [253, 229, 167], [253, 231, 169], [253, 233, 170], [253, 235, 172], [252, 236, 174], [252, 238, 176],
    [252, 240, 178], [252, 242, 180], [252, 244, 182], [252, 246, 184], [252, 247, 185], [252, 249, 187], [252, 251, 189], [252, 253, 191],
];

#[verifier::opaque]
pub const BLUERED_TABLE: [[u8; 3]; 256] = [
    [37, 2, 37], [39, 3, 41], [41, 5, 44], [43, 6, 47], [45, 8, 51], [47, 11, 54], [49, 13, 57], [51, 15, 61],
    [53, 17, 64], [54, 19, 68], [56, 21, 71], [58, 23, 74], [59, 25, 78], [61, 27, 81], [62, 29, 85], [64, 31, 88],
    [65, 33, 91], [67, 34, 95], [68, 36, 98], [69, 38, 102], [71, 40, 105], [72, 42, 109], [73, 44, 112], [74, 46, 115],
    [75, 48, 119], [76, 50, 122], [77, 52, 126], [78, 54, 129], [79, 56, 132], [80, 58, 136], [81, 60, 139], [81, 62, 142],
    [82, 64, 145], [82, 67, 148], [83, 69, 151], [83, 71, 154], [84, 73, 158], [84, 75, 160], [84, 78, 163], [84, 80, 166],
    [85, 82, 169], [85, 85, 172], [85, 87, 175], [84, 89, 177], [84, 92, 180], [84, 94, 182], [84, 97, 185], [83, 99, 187],
    [83, 101, 189], [83, 104, 191], [82, 106, 194], [81, 109, 196], [81, 111, 197], [80, 114, 199], [79, 116, 201], [79, 119, 203],
    [78, 122, 204], [77, 124, 206], [76, 127, 207], [75, 129, 209], [74, 132, 210], [74, 134, 211], [73, 137, 212], [72, 139, 214],
    [71, 142, 215], [71, 144, 216], [70, 147, 216], [69, 149, 217], [69, 152, 218], [69, 154, 219], [69, 157, 219], [69, 159, 220],
    [69, 161, 221], [69, 164, 221], [70, 166, 222], [71, 168, 222], [72, 171, 222], [73, 173, 223], [75, 175, 223], [76, 178, 223],
    [78, 180, 223], [80, 182, 223], [83, 184, 223], [85, 186, 224], [88, 188, 224], [91, 190, 224], [94, 192, 224], [97, 194, 224],
    [100, 197, 224], [104, 198, 224], [107, 200, 224], [111, 202, 224], [114, 204, 224], [118, 206, 225], [122, 208, 225], [125, 210, 225],
    [129, 212, 225], [133, 213, 226], [137, 215, 226], [141, 217, 226], [145, 219, 227], [150, 220, 227], [154, 222, 228], [158, 224, 228],
    [162, 225, 229], [167, 227, 230], [171, 228, 230], [175, 230, 231], [179, 231, 232], [184, 233, 233], [188, 234, 233], [192, 236, 234],
    [196, 237, 235], [200, 238, 236], [205, 239, 237], [209, 240, 238], [212, 241, 239], [216, 242, 240], [220, 243, 241], [224, 244, 242],
    [227, 245, 243], [231, 246, 244], [234, 246, 245], [237, 247, 245], [240, 247, 246], [243, 247, 247], [246, 248, 248], [248, 248, 248],
    [249, 248, 247], [249, 247, 245], [248, 246, 243], [247, 245, 239], [246, 244, 236], [245, 243, 232], [245, 242, 228], [244, 241, 224],
    [243, 239, 220], [242, 238, 216], [241, 236, 211], [240, 235, 207], [238, 233, 202], [237, 231, 197], [236, 229, 193], [235, 227, 188],
    [234, 225, 183], [233, 224, 179], [232, 221, 174], [230, 219, 169], [229, 217, 164], [228, 215, 159], [227, 213, 155], [226, 210, 150],
    [226, 208, 145], [225, 206, 140], [224, 203, 135], [224, 201, 131], [223, 198, 126], [223, 196, 121], [222, 193, 117], [222, 191, 112],
    [222, 188, 108], [221, 185, 103], [221, 183, 99], [221, 180, 94], [221, 177, 90], [220, 175, 86], [220, 172, 82], [220, 169, 77],
    [220, 166, 73], [220, 163, 70], [219, 160, 66], [219, 158, 62], [219, 155, 58], [218, 152, 55], [218, 149, 52], [218, 146, 48],
    [217, 143, 45], [217, 140, 42], [216, 137, 40], [216, 134, 37], [215, 132, 35], [214, 129, 32], [213, 126, 30], [213, 123, 29],
    [212, 120, 27], [211, 117, 26], [210, 115, 25], [209, 112, 24], [207, 109, 24], [206, 106, 23], [205, 104, 23], [204, 101, 23],
    [202, 98, 24], [201, 96, 24], [199, 93, 25], [198, 91, 25], [196, 88, 26], [195, 86, 27], [193, 83, 28], [191, 81, 29],
    [189, 78, 30], [187, 76, 31], [185, 74, 32], [183, 72, 33], [181, 69, 34], [179, 67, 35], [177, 65, 36], [175, 63, 37],
    [172, 61, 38], [170, 60, 39], [168, 58, 40], [165, 56, 41], [163, 54, 42], [160, 53, 43], [157, 51, 44], [155, 49, 45],
    [152, 48, 46], [150, 46, 46], [147, 45, 47], [144, 43, 48], [141, 42, 49], [139, 41, 49], [136, 39, 50], [133, 38, 50],
    [130, 37, 51], [127, 36, 51], [124, 35, 52], [121, 33, 52], [118, 32, 52], [115, 31, 52], [112, 30, 52], [109, 29, 53],
    [107, 28, 53], [104, 27, 52], [100, 26, 52], [97, 25, 52], [94, 24, 52], [91, 23, 52], [88, 22, 51], [85, 21, 51],
    [82, 20, 50], [79, 19, 50], [76, 17, 49], [73, 16, 49], [70, 15, 48], [67, 14, 47], [64, 13, 46], [61, 11, 46],
    [58, 10, 45], [55, 9, 44], [52, 7, 43], [49, 6, 42], [46, 5, 41], [43, 4, 40], [40, 3, 38], [37, 2, 37],
];

#[verifier::opaque]
pub const BREEZE_TABLE: [[u8; 3]; 256] = [
    [7, 21, 29], [9, 23, 32], [11, 25, 35], [13, 27, 38], [15, 29, 41], [17, 31, 44], [19, 33, 47], [21, 34, 51],
    [22, 36, 54], [24, 38, 57], [26, 40, 60], [28, 42, 63], [29, 43, 66], [31, 45, 69], [33, 47, 73], [34, 49, 76],
    [36, 50, 79], [37, 52, 82], [39, 54, 86], [40, 56, 89], [42, 58, 92], [43, 59, 96], [44, 61, 99], [45, 63, 102],
    [46, 65, 105], [48, 67, 109], [49, 68, 112], [49, 70, 115], [50, 72, 119], [51, 74, 122], [52, 76, 125], [52, 78, 128],
    [53, 80, 131], [53, 82, 135], [53, 84, 138], [53, 86, 141], [53, 88, 144], [53, 90, 147], [53, 92, 150], [53, 94, 152],
    [53, 97, 155], [52, 99, 158], [52, 101, 161], [51, 103, 163], [50, 105, 166], [50, 107, 168], [49, 110, 171], [48, 112, 173],
    [47, 114, 175], [46, 116, 177], [44, 119, 179], [43, 121, 181], [42, 123, 183], [40, 125, 185], [39, 128, 187], [38, 130, 188],
    [36, 132, 190], [35, 134, 191], [33, 137, 192], [32, 139, 193], [30, 141, 195], [29, 143, 196], [27, 146, 197], [26, 148, 198],
    [24, 150, 198], [23, 152, 199], [22, 154, 200], [20, 156, 200], [19, 159, 201], [18, 161, 202], [17, 163, 202], [16, 165, 203],
    [15, 167, 203], [14, 169, 203], [13, 171, 204], [12, 174, 204], [11, 176, 204], [11, 178, 204], [10, 180, 205], [10, 182, 205],
    [9, 184, 205], [9, 186, 205], [9, 188, 205], [9, 190, 205], [9, 192, 205], [9, 194, 205], [9, 196, 205], [9, 198, 204],
    [9, 200, 204], [9, 202, 204], [10, 204, 204], [10, 206, 203], [11, 208, 203], [12, 210, 202], [12, 212, 202], [13, 214, 201],
    [15, 216, 201], [16, 217, 200], [17, 219, 200], [19, 221, 199], [20, 223, 198], [22, 225, 197], [24, 226, 196], [26, 228, 195],
    [28, 230, 194], [30, 232, 193], [32, 233, 192], [35, 235, 190], [37, 236, 189], [40, 238, 188], [43, 239, 186], [45, 241, 184],
    [48, 242, 182], [51, 244, 180], [54, 245, 178], [57, 246, 176], [60, 247, 174], [63, 248, 171], [66, 249, 168], [69, 250, 165],
    [72, 251, 162], [75, 252, 159], [79, 252, 156], [83, 253, 152], [87, 253, 148], [91, 253, 144], [95, 253, 140], [99, 253, 136],
    [104, 253, 132], [109, 252, 128], [113, 252, 123], [118, 251, 119], [123, 250, 114], [127, 249, 110], [132, 247, 105], [136, 246, 100],
    [141, 244, 96], [145, 243, 92], [149, 241, 87], [153, 239, 83], [157, 237, 79], [160, 235, 75], [164, 233, 71], [167, 231, 68],
    [170, 228, 64], [173, 226, 61], [176, 224, 58], [178, 221, 54], [181, 219, 51], [183, 217, 49], [185, 214, 46], [187, 212, 43],
    [189, 209, 40], [191, 207, 38], [193, 204, 36], [194, 202, 33], [196, 199, 31], [197, 197, 29], [198, 194, 27], [199, 192, 25],
    [200, 189, 23], [201, 186, 21], [202, 184, 19], [202, 181, 17], [203, 179, 16], [204, 176, 14], [204, 174, 13], [204, 171, 12],
    [205, 169, 10], [205, 166, 9], [205, 163, 9], [205, 161, 8], [205, 158, 7], [205, 156, 7], [205, 153, 7], [205, 151, 6],
    [205, 148, 6], [204, 145, 6], [204, 143, 6], [204, 140, 6], [203, 138, 6], [203, 135, 6], [202, 133, 7], [202, 130, 7],
    [201, 127, 7], [200, 125, 7], [200, 122, 7], [199, 120, 8], [198, 117, 8], [197, 115, 9], [196, 112, 9], [195, 110, 10],
    [194, 107, 10], [193, 105, 11], [192, 102, 11], [191, 100, 12], [189, 97, 13], [188, 95, 13], [187, 92, 14], [185, 90, 15],
    [184, 88, 15], [182, 85, 16], [181, 83, 17], [179, 80, 17], [177, 78, 18], [176, 76, 19], [174, 74, 19], [172, 71, 20],
    [170, 69, 21], [168, 67, 21], [166, 65, 22], [164, 63, 22], [162, 60, 23], [160, 58, 23], [158, 56, 24], [156, 54, 24],
    [153, 52, 25], [151, 50, 25], [149, 48, 25], [146, 46, 26], [144, 44, 26], [142, 43, 26], [139, 41, 26], [137, 39, 26],
    [134, 37, 26], [132, 36, 26], [129, 34, 26], [126, 32, 26], [124, 31, 26], [121, 29, 26], [118, 28, 25], [115, 26, 25],
    [112, 25, 25], [110, 24, 24], [107, 23, 24], [104, 21, 23], [101, 20, 23], [98, 19, 22], [95, 18, 21], [92, 17, 21],
    [89, 16, 20], [86, 14, 19], [83, 13, 18], [80, 12, 18], [77, 11, 17], [74, 10, 16], [71, 9, 15], [68, 8, 14],
    [65, 7, 13], [61, 6, 12], [58, 5, 11], [55, 4, 10], [52, 4, 9], [49, 3, 7], [46, 2, 7], [42, 2, 6],
];

#[verifier::opaque]
pub const MIST_TABLE: [[u8; 3]; 256] = [
    [78, 1, 196], [77, 10, 196], [77, 18, 197], [76, 23, 197], [75, 28, 198], [74, 32, 198], [74, 36, 199], [73, 39, 199],
    [72, 42, 200], [71, 45, 200], [70, 48, 201], [69, 51, 201], [68, 53, 202], [67, 56, 202], [66, 58, 202], [65, 61, 203],
    [64, 63, 203], [63, 65, 204], [62, 67, 204], [60, 70, 204], [59, 72, 204], [58, 74, 205], [57, 76, 205], [55, 78, 205],
    [54, 80, 205], [53, 82, 205], [51, 84, 205], [50, 86, 205], [48, 88, 204], [47, 90, 204], [45, 92, 204], [44, 94, 204],
    [43, 96, 203], [41, 98, 203], [40, 99, 202], [38, 101, 202], [37, 103, 201], [35, 105, 201], [34, 106, 201], [33, 108, 200],
    [31, 110, 199], [30, 112, 199], [29, 113, 198], [28, 115, 198], [26, 116, 197], [25, 118, 197], [24, 120, 196], [23, 121, 196],
    [22, 123, 195], [21, 124, 195], [20, 126, 194], [20, 127, 194], [19, 129, 193], [18, 130, 193], [17, 132, 192], [17, 133, 192],
    [16, 135, 192], [16, 136, 191], [15, 138, 191], [15, 139, 191], [14, 141, 190], [14, 142, 190], [14, 144, 189], [14, 145, 189],
    [14, 147, 189], [14, 148, 188], [14, 150, 188], [14, 151, 188], [14, 152, 188], [14, 154, 187], [14, 155, 187], [14, 157, 187],
    [14, 158, 186], [14, 160, 186], [15, 161, 186], [15, 162, 185], [15, 164, 185], [15, 165, 185], [16, 167, 184], [16, 168, 184],
    [16, 170, 184], [16, 171, 183], [16, 172, 183], [17, 174, 183], [17, 175, 182], [17, 177, 182], [17, 178, 181], [17, 180, 181],
    [18, 181, 181], [18, 183, 180], [18, 184, 180], [18, 185, 179], [18, 187, 178], [19, 188, 178], [19, 190, 177], [19, 191, 176],
    [20, 192, 176], [20, 194, 175], [21, 195, 174], [21, 197, 173], [22, 198, 172], [23, 199, 171], [23, 201, 170], [24, 202, 169],
    [25, 203, 168], [26, 205, 166], [28, 206, 165], [29, 207, 164], [30, 209, 162], [32, 210, 161], [34, 211, 159], [35, 212, 157],
    [37, 213, 155], [39, 214, 153], [42, 216, 151], [44, 217, 149], [46, 218, 147], [49, 218, 145], [51, 219, 142], [54, 220, 139],
    [57, 221, 137], [60, 222, 134], [63, 222, 131], [67, 223, 127], [70, 223, 124], [74, 223, 121], [78, 223, 117], [82, 223, 114],
    [86, 223, 110], [90, 222, 106], [95, 222, 102], [99, 221, 98], [103, 220, 94], [107, 219, 90], [111, 218, 86], [115, 216, 82],
    [119, 215, 78], [123, 214, 74], [127, 212, 70], [130, 210, 67], [134, 209, 63], [137, 207, 60], [140, 205, 57], [143, 203, 53],
    [146, 202, 50], [149, 200, 47], [152, 198, 45], [154, 196, 42], [157, 194, 39], [159, 192, 37], [161, 190, 35], [163, 188, 32],
    [165, 186, 30], [167, 184, 28], [169, 182, 26], [170, 180, 24], [172, 178, 22], [173, 176, 20], [174, 174, 19], [176, 172, 17],
    [177, 170, 16], [178, 168, 14], [179, 166, 13], [180, 163, 12], [181, 161, 11], [182, 159, 10], [182, 157, 10], [183, 155, 9],
    [184, 153, 8], [184, 151, 8], [185, 149, 8], [185, 147, 8], [186, 145, 7], [186, 143, 7], [187, 141, 7], [187, 139, 7],
    [187, 137, 7], [188, 135, 7], [188, 133, 8], [188, 131, 8], [188, 129, 8], [189, 127, 8], [189, 125, 8], [189, 123, 8],
    [189, 121, 8], [189, 119, 8], [189, 117, 8], [189, 115, 9], [189, 113, 9], [189, 111, 9], [189, 109, 9], [189, 107, 10],
    [189, 105, 10], [188, 103, 10], [188, 101, 11], [188, 99, 11], [188, 97, 12], [187, 95, 12], [187, 93, 13], [187, 91, 13],
    [186, 90, 14], [186, 88, 15], [186, 86, 15], [185, 84, 16], [185, 82, 17], [184, 80, 17], [184, 78, 18], [183, 76, 19],
    [182, 74, 19], [182, 72, 20], [181, 70, 21], [180, 68, 22], [180, 67, 22], [179, 65, 23], [178, 63, 24], [177, 61, 25],
    [177, 59, 25], [176, 57, 26], [175, 56, 27], [174, 54, 28], [173, 52, 28], [172, 50, 29], [171, 48, 30], [170, 47, 30],
    [169, 45, 31], [168, 43, 32], [167, 41, 32], [166, 40, 33], [165, 38, 34], [163, 37, 35], [162, 35, 35], [161, 33, 36],
    [159, 32, 36], [158, 30, 37], [157, 29, 38], [155, 27, 38], [154, 26, 39], [153, 25, 40], [151, 23, 40], [150, 22, 41],
    [148, 21, 42], [147, 19, 42], [145, 18, 43], [144, 17, 43], [142, 15, 44], [141, 14, 44], [139, 13, 45], [137, 11, 45],
    [136, 10, 46], [134, 8, 46], [133, 7, 47], [131, 6, 47], [130, 4, 48], [128, 3, 48], [127, 2, 49], [125, 1, 49],
];


/// The palette step nearest to the rational position `num / den`.
pub open spec fn spec_scaled_byte(s: Scaled) -> int {
    spec_round_div(255 * s.num, s.den as int)
}

/// The nearest of the 256 palette steps to a scaled position.
pub fn scaled_byte(s: Scaled) -> (b: u8)
    requires
        s.wf(),
    ensures
        b == spec_scaled_byte(s),
{
    proof {
        assert(255 * s.num <= 255 * s.den) by (nonlinear_arith)
            requires
                s.num <= s.den,
        ;
        lemma_round_div_le(255 * s.num, s.den as int, 255);
    }
    let q: u64 = round_div(255 * (s.num as u64), s.den as u64);
    q as u8
}

/// The color at step `i` of a lookup table.
pub open spec fn spec_table_color(table: [[u8; 3]; 256], i: int) -> Rgb {
    Rgb { r: table[i][0], g: table[i][1], b: table[i][2] }
}

/// The scaled position `1 - num/den`.
pub open spec fn spec_one_minus(s: Scaled) -> Scaled {
    Scaled { num: (s.den - s.num) as u32, den: s.den }
}

/// The color a palette assigns to a scaled position. The lookup palettes
/// pick the nearest of their 256 steps; the linear palettes interpolate
/// channel-wise between their two endpoint colors, blue `(0,0,255)` to
/// red `(255,0,0)` and black `(0,0,0)` to white `(255,255,255)`.
pub open spec fn spec_color_at(cmap: ColorMap, s: Scaled) -> Rgb {
    match cmap {
        ColorMap::Turbo => spec_table_color(TURBO_TABLE, spec_scaled_byte(s)),
        ColorMap::Magma => spec_table_color(MAGMA_TABLE, spec_scaled_byte(s)),
        ColorMap::Bluered => spec_table_color(BLUERED_TABLE, spec_scaled_byte(s)),
        ColorMap::Breeze => spec_table_color(BREEZE_TABLE, spec_scaled_byte(s)),
        ColorMap::Mist => spec_table_color(MIST_TABLE, spec_scaled_byte(s)),
        ColorMap::LinearBlueRed => Rgb {
            r: spec_scaled_byte(s) as u8,
            g: 0,
            b: spec_scaled_byte(spec_one_minus(s)) as u8,
        },
        ColorMap::LinearBlackWhite => Rgb {
            r: spec_scaled_byte(s) as u8,
            g: spec_scaled_byte(s) as u8,
            b: spec_scaled_byte(s) as u8,
        },
    }
}

impl ColorMap {
    /// The color this palette assigns to a scaled position.
    pub fn color_at(&self, s: Scaled) -> (c: Rgb)
        requires
            s.wf(),
        ensures
            c == spec_color_at(*self, s),
    {
        let step = scaled_byte(s);
        match self {
            ColorMap::Turbo => {
                let e = TURBO_TABLE[step as usize];
                Rgb { r: e[0], g: e[1], b: e[2] }
            },
            ColorMap::Magma => {
                let e = MAGMA_TABLE[step as usize];
                Rgb { r: e[0], g: e[1], b: e[2] }
            },
            ColorMap::Bluered => {
                let e = BLUERED_TABLE[step as usize];
                Rgb { r: e[0], g: e[1], b: e[2] }
            },
            ColorMap::Breeze => {
                let e = BREEZE_TABLE[step as usize];
                Rgb { r: e[0], g: e[1], b: e[2] }
            },
            ColorMap::Mist => {
                let e = MIST_TABLE[step as usize];
                Rgb { r: e[0], g: e[1], b: e[2] }
            },
            ColorMap::LinearBlueRed => {
                let inv = Scaled { num: s.den - s.num, den: s.den };
                Rgb { r: step, g: 0, b: scaled_byte(inv) }
            },
            ColorMap::LinearBlackWhite => Rgb { r: step, g: step, b: step },
        }
    }
}

/// The pixels of a colorized raster: each sample is scaled over the
/// dynamic range `[min, max]`, compressed by the color range, and looked
/// up in the palette.
pub open spec fn spec_colorize(
    samples: Seq<u16>,
    cmap: ColorMap,
    color_range: u8,
    min: u16,
    max: u16,
) -> Seq<Rgb> {
    Seq::new(
        samples.len(),
        |i: int| spec_color_at(cmap, spec_scaled_value(samples[i], min, max, color_range)),
    )
}

/// Colorize a raster whose dynamic range is `[min, max]`.
pub fn colorize_image(g: &GrayImage, cmap: ColorMap, color_range: u8, min: u16, max: u16) -> (img:
    RgbImage)
    requires
        g.wf(),
        color_range <= 100,
        forall|i: int| 0 <= i < g.data@.len() ==> min <= #[trigger] g.data@[i] <= max,
    ensures
        img.wf(),
        img.width == g.width,
        img.height == g.height,
        img.data@ == spec_colorize(g.data@, cmap, color_range, min, max),
{
    let target = Ghost(spec_colorize(g.data@, cmap, color_range, min, max));
    let n = g.data.len();
    let mut data: Vec<Rgb> = Vec::new();
    let mut i: usize = 0;
    while i < n
        invariant
            i <= n,
            n == g.data@.len(),
            g.wf(),
            color_range <= 100,
            forall|k: int| 0 <= k < g.data@.len() ==> min <= #[trigger] g.data@[k] <= max,
            target@ == spec_colorize(g.data@, cmap, color_range, min, max),
            data@.len() == i,
            forall|k: int| 0 <= k < i ==> data@[k] == target@[k],
        decreases n - i,
    {
        let s = map_to_scaled_value(g.data[i], min, max, color_range);
        let c = cmap.color_at(s);
        data.push(c);
        i = i + 1;
    }
    proof {
        assert(data@ =~= target@);
    }
    RgbImage { width: g.width, height: g.height, data }
}

/// A raster with no dynamic range is mapped to a single color, the
/// palette midpoint, for every color range: colorizing it cannot go
/// wrong and paints every pixel alike.
pub proof fn lemma_uniform_raster_colors(
    samples: Seq<u16>,
    cmap: ColorMap,
    color_range: u8,
    v: u16,
)
    requires
        forall|i: int| 0 <= i < samples.len() ==> samples[i] == v,
    ensures
        forall|i: int|
            0 <= i < samples.len() ==> spec_colorize(samples, cmap, color_range, v, v)[i]
                == spec_color_at(cmap, Scaled { num: 1, den: 2 }),
{
}

/// The legend image of a palette: `height` identical rows that sweep the
/// palette from left to right under the given color range.
pub open spec fn spec_colormap_image(
    width: int,
    height: int,
    cmap: ColorMap,
    color_range: u8,
) -> Seq<Rgb> {
    Seq::new(
        (width * height) as nat,
        |i: int|
            spec_color_at(
                cmap,
                spec_scaled_value((i % width) as u16, 0, (width - 1) as u16, color_range),
            ),
    )
}

/// Render a palette legend, colorizing each column by its position.
pub fn generate_colormap_image(width: usize, height: usize, cmap: ColorMap, color_range: u8) -> (img:
    RgbImage)
    requires
        1 <= width <= 65536,
        width * height <= usize::MAX,
        color_range <= 100,
    ensures
        img.wf(),
        img.width == width,
        img.height == height,
        img.data@ == spec_colormap_image(width as int, height as int, cmap, color_range),
{
    let target = Ghost(spec_colormap_image(width as int, height as int, cmap, color_range));
    let n: usize = width * height;
    let max: u16 = (width - 1) as u16;
    let mut data: Vec<Rgb> = Vec::new();
    let mut i: usize = 0;
    while i < n
        invariant
            i <= n,
            n == width * height,
            1 <= width <= 65536,
            max == width - 1,
            color_range <= 100,
            target@ == spec_colormap_image(width as int, height as int, cmap, color_range),
            data@.len() == i,
            forall|k: int| 0 <= k < i ==> data@[k] == target@[k],
        decreases n - i,
    {
        let x = i % width;
        let s = map_to_scaled_value(x as u16, 0, max, color_range);
        let c = cmap.color_at(s);
        data.push(c);
        i = i + 1;
    }
    proof {
        assert(data@ =~= target@);
    }
    RgbImage { width, height, data }
}

} // verus!
