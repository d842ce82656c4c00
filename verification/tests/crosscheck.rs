use byteorder::ByteOrder;
use scarlet::color::RGBColor;
use scarlet::colormap::{ColorMap as ScarletColorMap, ListedColorMap};
use tiop01::image::decode_raster;
use tiop01::image_utils::Scaled;
use tiop01::palette::{BLUERED_TABLE, BREEZE_TABLE, MAGMA_TABLE, MIST_TABLE, TURBO_TABLE};
use tiop01::settings::ColorMap;

#[test]
fn decode_matches_byteorder() {
    let mut bytes = Vec::new();
    for i in 0..2048usize {
        bytes.push((i * 7 % 256) as u8);
    }
    let img = decode_raster(&bytes, 32, 32);
    let mut expected = vec![0u16; 1024];
    byteorder::LittleEndian::read_u16_into(&bytes, &mut expected);
    assert_eq!(img.data, expected);
}

#[test]
fn color_at_reads_the_table_steps() {
    for k in 0..=255u32 {
        let c = ColorMap::Turbo.color_at(Scaled { num: k, den: 255 });
        assert_eq!([c.r, c.g, c.b], TURBO_TABLE[k as usize]);
        let m = ColorMap::Mist.color_at(Scaled { num: k, den: 255 });
        assert_eq!([m.r, m.g, m.b], MIST_TABLE[k as usize]);
    }
}

#[test]
fn tables_match_the_published_colormaps() {
    let cases: Vec<(ListedColorMap, &[[u8; 3]; 256])> = vec![
        (ListedColorMap::turbo(), &TURBO_TABLE),
        (ListedColorMap::magma(), &MAGMA_TABLE),
        (ListedColorMap::bluered(), &BLUERED_TABLE),
        (ListedColorMap::breeze(), &BREEZE_TABLE),
        (ListedColorMap::mist(), &MIST_TABLE),
    ];
    for (map, table) in &cases {
        // every step is the reference color, up to the reference's own
        // interpolation at representation boundaries
        for k in 0..256usize {
            let c: RGBColor = map.transform_single(k as f64 / 255.0);
            let ours = table[k];
            assert!((c.int_r() as i32 - ours[0] as i32).abs() <= 1);
            assert!((c.int_g() as i32 - ours[1] as i32).abs() <= 1);
            assert!((c.int_b() as i32 - ours[2] as i32).abs() <= 1);
        }
        // the endpoints are exact
        let lo: RGBColor = map.transform_single(0.0);
        assert_eq!([lo.int_r(), lo.int_g(), lo.int_b()], table[0]);
        let hi: RGBColor = map.transform_single(1.0);
        assert_eq!([hi.int_r(), hi.int_g(), hi.int_b()], table[255]);
    }
}
