use handheld_emu::button::Platform;
use handheld_emu::frame::{convert_frame, expand_channel, PaletteColor};

#[test]
fn expansion_of_known_values() {
    assert_eq!(expand_channel(0), 0);
    assert_eq!(expand_channel(16), 132);
    assert_eq!(expand_channel(31), 255);
    assert_eq!(expand_channel(1), 8);
    assert_eq!(expand_channel(4), 33);
}

#[test]
fn expansion_formula_on_every_five_bit_value() {
    for v in 0u8..32 {
        let e = expand_channel(v) as u32;
        assert_eq!(e, 8 * v as u32 + v as u32 / 4);
    }
}

#[test]
fn expansion_is_monotone_on_five_bit_values() {
    for v in 0u8..31 {
        assert!(expand_channel(v) < expand_channel(v + 1));
    }
}

#[test]
fn convert_keeps_row_major_order() {
    let px = |r: u8, g: u8, b: u8| PaletteColor { red: r, green: g, blue: b };
    let rows = vec![
        vec![px(0, 16, 31), px(31, 0, 16)],
        vec![px(1, 2, 3), px(4, 5, 6)],
    ];
    let out = convert_frame(&rows);
    assert_eq!(
        out,
        vec![0, 132, 255, 255, 0, 132, 8, 16, 24, 33, 41, 49]
    );
}

#[test]
fn convert_empty_grid() {
    let rows: Vec<Vec<PaletteColor>> = Vec::new();
    assert!(convert_frame(&rows).is_empty());
    let rows = vec![Vec::new(), Vec::new()];
    assert!(convert_frame(&rows).is_empty());
}

#[test]
fn full_screen_length_matches_dimensions() {
    for p in [Platform::Handheld8, Platform::Handheld32] {
        let black = PaletteColor { red: 0, green: 0, blue: 0 };
        let rows = vec![vec![black; p.width()]; p.height()];
        let out = convert_frame(&rows);
        assert_eq!(out.len(), p.width() * p.height() * 3);
        assert_eq!(out.len(), p.frame_len());
        let white = PaletteColor { red: 31, green: 31, blue: 31 };
        let rows = vec![vec![white; p.width()]; p.height()];
        let out = convert_frame(&rows);
        assert_eq!(out.len(), p.frame_len());
        assert!(out.iter().all(|&b| b == 255));
    }
}

#[test]
fn platform_dimensions() {
    assert_eq!(Platform::Handheld8.width(), 160);
    assert_eq!(Platform::Handheld8.height(), 144);
    assert_eq!(Platform::Handheld8.frame_len(), 160 * 144 * 3);
    assert_eq!(Platform::Handheld32.width(), 240);
    assert_eq!(Platform::Handheld32.height(), 160);
    assert_eq!(Platform::Handheld32.frame_len(), 240 * 160 * 3);
}
