use tiop01::command::emissivity_command;
use tiop01::filter::filter_image;
use tiop01::image::{decode_raster, min_max, GrayImage, Rgb, RgbImage};
use tiop01::image_utils::{
    flip_image, generate_black_image, map_to_scaled_value, Flip, Scaled,
};
use tiop01::palette::{colorize_image, generate_colormap_image, TURBO_TABLE};
use tiop01::settings::{ColorMap, EdgeStrategy, FilteringMethod, Settings};

fn gray(width: usize, height: usize, data: Vec<u16>) -> GrayImage {
    assert_eq!(data.len(), width * height);
    GrayImage {
        width,
        height,
        data,
    }
}

#[test]
fn decode_little_endian_pairs() {
    let bytes = vec![0x34, 0x12, 0xff, 0x00, 0x00, 0xff, 0x01, 0x01];
    let img = decode_raster(&bytes, 2, 2);
    assert_eq!(img.data, vec![0x1234, 0x00ff, 0xff00, 0x0101]);
    assert_eq!(img.width, 2);
    assert_eq!(img.height, 2);
}

#[test]
fn min_max_of_raster() {
    let img = gray(2, 2, vec![500, 20, 65535, 20]);
    let (lo, hi) = min_max(&img);
    assert_eq!(lo, 20);
    assert_eq!(hi, 65535);
}

#[test]
fn scaled_value_at_min_matches_formula() {
    // at v == min the scaled value is (1 - cr) / 2 exactly
    for cr in [0u8, 50, 100] {
        let s = map_to_scaled_value(100, 100, 900, cr);
        assert_eq!(200 * s.num as u64, (100 - cr as u64) * s.den as u64);
        let expected = (1.0 - cr as f64 / 100.0) / 2.0;
        assert!((s.num as f64 / s.den as f64 - expected).abs() < 1e-12);
    }
}

#[test]
fn scaled_value_at_max_matches_formula() {
    // at v == max the scaled value is (1 - cr) / 2 + cr exactly
    for cr in [0u8, 50, 100] {
        let s = map_to_scaled_value(900, 100, 900, cr);
        assert_eq!(200 * s.num as u64, (100 + cr as u64) * s.den as u64);
        let expected = (1.0 - cr as f64 / 100.0) / 2.0 + cr as f64 / 100.0;
        assert!((s.num as f64 / s.den as f64 - expected).abs() < 1e-12);
    }
}

#[test]
fn scaled_value_degenerate_range_is_mid_scale() {
    for cr in [0u8, 37, 100] {
        let s = map_to_scaled_value(7, 7, 7, cr);
        assert_eq!((s.num, s.den), (1, 2));
    }
}

#[test]
fn emissivity_command_bytes() {
    assert_eq!(emissivity_command(0), vec![0x55, 0x01, 0x00, 0x56]);
    assert_eq!(emissivity_command(95), vec![0x55, 0x01, 0x5f, 0xb5]);
}

#[test]
fn linear_black_white_endpoints() {
    let black = ColorMap::LinearBlackWhite.color_at(Scaled { num: 0, den: 1000 });
    assert_eq!(black, Rgb { r: 0, g: 0, b: 0 });
    let white = ColorMap::LinearBlackWhite.color_at(Scaled { num: 1000, den: 1000 });
    assert_eq!(white, Rgb { r: 255, g: 255, b: 255 });
    let mid = ColorMap::LinearBlackWhite.color_at(Scaled { num: 1, den: 2 });
    assert_eq!(mid, Rgb { r: 128, g: 128, b: 128 });
}

#[test]
fn linear_blue_red_endpoints() {
    let blue = ColorMap::LinearBlueRed.color_at(Scaled { num: 0, den: 200 });
    assert_eq!(blue, Rgb { r: 0, g: 0, b: 255 });
    let red = ColorMap::LinearBlueRed.color_at(Scaled { num: 200, den: 200 });
    assert_eq!(red, Rgb { r: 255, g: 0, b: 0 });
}

#[test]
fn turbo_endpoints_use_table() {
    let lo = ColorMap::Turbo.color_at(Scaled { num: 0, den: 2 });
    assert_eq!([lo.r, lo.g, lo.b], TURBO_TABLE[0]);
    let hi = ColorMap::Turbo.color_at(Scaled { num: 2, den: 2 });
    assert_eq!([hi.r, hi.g, hi.b], TURBO_TABLE[255]);
}

#[test]
fn uniform_raster_colorizes_to_mid_scale() {
    // all samples equal: no dynamic range, every pixel is the palette midpoint
    let img = gray(32, 32, vec![700; 1024]);
    let (lo, hi) = min_max(&img);
    assert_eq!((lo, hi), (700, 700));
    let out = colorize_image(&img, ColorMap::LinearBlackWhite, 100, lo, hi);
    for p in &out.data {
        assert_eq!(*p, Rgb { r: 128, g: 128, b: 128 });
    }
}

#[test]
fn flips_are_involutions() {
    let mut data = Vec::new();
    for i in 0..1024usize {
        data.push(Rgb {
            r: (i % 256) as u8,
            g: (i * 2 % 256) as u8,
            b: (i * 3 % 256) as u8,
        });
    }
    let img = RgbImage {
        width: 32,
        height: 32,
        data,
    };
    let h2 = flip_image(&flip_image(&img, Flip::Horizontal), Flip::Horizontal);
    assert_eq!(h2, img);
    let v2 = flip_image(&flip_image(&img, Flip::Vertical), Flip::Vertical);
    assert_eq!(v2, img);
}

#[test]
fn flip_moves_pixels_across_the_axis() {
    let data = vec![
        Rgb { r: 1, g: 0, b: 0 },
        Rgb { r: 2, g: 0, b: 0 },
        Rgb { r: 3, g: 0, b: 0 },
        Rgb { r: 4, g: 0, b: 0 },
    ];
    let img = RgbImage {
        width: 2,
        height: 2,
        data,
    };
    let h = flip_image(&img, Flip::Horizontal);
    assert_eq!(
        h.data.iter().map(|p| p.r).collect::<Vec<_>>(),
        vec![2, 1, 4, 3]
    );
    let v = flip_image(&img, Flip::Vertical);
    assert_eq!(
        v.data.iter().map(|p| p.r).collect::<Vec<_>>(),
        vec![3, 4, 1, 2]
    );
}

fn box_filtered(raster: &GrayImage, edge: EdgeStrategy) -> Vec<u16> {
    let kernel = FilteringMethod::Box3x3.get_kernel(edge).unwrap();
    filter_image(raster, &Some(kernel)).data
}

#[test]
fn box_filter_means_with_each_edge_strategy() {
    let img = gray(3, 3, vec![10, 20, 30, 40, 50, 60, 70, 80, 90]);
    assert_eq!(
        box_filtered(&img, EdgeStrategy::Constant),
        vec![13, 23, 18, 30, 50, 37, 27, 43, 31]
    );
    assert_eq!(
        box_filtered(&img, EdgeStrategy::Extend),
        vec![23, 30, 37, 43, 50, 57, 63, 70, 77]
    );
    assert_eq!(
        box_filtered(&img, EdgeStrategy::Wrap),
        vec![50, 50, 50, 50, 50, 50, 50, 50, 50]
    );
    assert_eq!(
        box_filtered(&img, EdgeStrategy::Mirror),
        vec![23, 30, 37, 43, 50, 57, 63, 70, 77]
    );
}

#[test]
fn filter_on_single_sample_raster() {
    let img = gray(1, 1, vec![90]);
    assert_eq!(box_filtered(&img, EdgeStrategy::Constant), vec![10]);
    assert_eq!(box_filtered(&img, EdgeStrategy::Extend), vec![90]);
    let img2 = gray(1, 1, vec![80]);
    let gauss = FilteringMethod::Gaussian3x3
        .get_kernel(EdgeStrategy::Constant)
        .unwrap();
    assert_eq!(filter_image(&img2, &Some(gauss)).data, vec![20]);
}

#[test]
fn identity_filter_keeps_the_raster() {
    let img = gray(3, 3, vec![10, 20, 30, 40, 50, 60, 70, 80, 90]);
    let settings = Settings {
        filtering_method: FilteringMethod::Identity,
        ..Settings::default()
    };
    assert!(settings.get_kernel().is_none());
    let out = filter_image(&img, &None);
    assert_eq!(out.data, img.data);
}

#[test]
fn kernels_have_the_documented_weights() {
    let bx = FilteringMethod::Box3x3
        .get_kernel(EdgeStrategy::Extend)
        .unwrap();
    assert_eq!(bx.weights, vec![1; 9]);
    assert_eq!(bx.divisor, 9);
    assert_eq!(bx.edge_strategy, EdgeStrategy::Extend);
    let gs = FilteringMethod::Gaussian3x3
        .get_kernel(EdgeStrategy::Wrap)
        .unwrap();
    assert_eq!(gs.weights, vec![1, 2, 1, 2, 4, 2, 1, 2, 1]);
    assert_eq!(gs.divisor, 16);
}

#[test]
fn black_image_is_black() {
    let img = generate_black_image(32, 32);
    assert_eq!(img.width, 32);
    assert_eq!(img.height, 32);
    assert_eq!(img.data.len(), 1024);
    assert!(img.data.iter().all(|p| *p == Rgb { r: 0, g: 0, b: 0 }));
}

#[test]
fn colormap_legend_sweeps_the_palette() {
    let img = generate_colormap_image(256, 1, ColorMap::LinearBlackWhite, 100);
    assert_eq!(img.data.len(), 256);
    for x in 0..256usize {
        let g = x as u8;
        assert_eq!(img.data[x], Rgb { r: g, g, b: g });
    }
}

#[test]
fn default_settings_match_the_documented_defaults() {
    let s = Settings::default();
    assert_eq!(s.filtering_method, FilteringMethod::Box3x3);
    assert_eq!(s.edge_strategy, EdgeStrategy::Extend);
    assert_eq!(s.colormap, ColorMap::Turbo);
    assert_eq!(s.emissivity, 95);
    assert_eq!(s.color_range, 100);
    assert!(!s.flip_horizontally);
    assert!(!s.flip_vertically);
}

#[test]
fn pickers_see_every_variant_with_a_name() {
    let methods = FilteringMethod::all_variants();
    assert_eq!(methods.len(), 3);
    assert_eq!(methods[1].display_name(), "Box 3x3");
    let edges = EdgeStrategy::all_variants();
    assert_eq!(edges.len(), 4);
    assert_eq!(edges[0].display_name(), "Constant");
    let maps = ColorMap::all_variants();
    assert_eq!(maps.len(), 7);
    assert_eq!(maps[5].display_name(), "Blue Red (linear)");
    assert_eq!(maps[6].display_name(), "Black White (linear)");
}
