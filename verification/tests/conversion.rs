use ascii_vision::ascii::{AsciiConverter, CharacterSet, ColoredChar, RgbColor};

#[test]
fn dense_palette_contents() {
    let chars = CharacterSet::Dense.chars();
    assert_eq!(
        chars,
        vec!['@', '#', 'S', '%', '?', '*', '+', ';', ':', ',', '.', ' ']
    );
    assert_eq!(CharacterSet::Simple.chars().len(), 7);
    assert_eq!(CharacterSet::Blocks.chars().len(), 9);
    assert_eq!(CharacterSet::Minimal.chars().len(), 5);
}

#[test]
fn palette_ring_wraps() {
    assert_eq!(CharacterSet::Dense.next(), CharacterSet::Simple);
    assert_eq!(CharacterSet::Simple.next(), CharacterSet::Blocks);
    assert_eq!(CharacterSet::Blocks.next(), CharacterSet::Minimal);
    assert_eq!(CharacterSet::Minimal.next(), CharacterSet::Dense);
    assert_eq!(CharacterSet::Dense.previous(), CharacterSet::Minimal);
    let mut cs = CharacterSet::Blocks;
    for _ in 0..4 {
        cs = cs.next();
    }
    assert_eq!(cs, CharacterSet::Blocks);
    for set in [
        CharacterSet::Dense,
        CharacterSet::Simple,
        CharacterSet::Blocks,
        CharacterSet::Minimal,
    ] {
        assert_eq!(set.next().previous(), set);
        assert_eq!(set.previous().next(), set);
    }
}

#[test]
fn palette_names() {
    assert_eq!(CharacterSet::Dense.name(), "Dense");
    assert_eq!(CharacterSet::Simple.name(), "Simple");
    assert_eq!(CharacterSet::Blocks.name(), "Blocks");
    assert_eq!(CharacterSet::Minimal.name(), "Minimal");
}

#[test]
fn flat_white_and_black_frames() {
    let conv = AsciiConverter::new_dense(2, 1);
    let white = vec![255u8; 6];
    let rows = conv.convert_rgb_frame(&white, 2, 1);
    assert_eq!(rows, vec!["@@".to_string()]);
    let black = vec![0u8; 6];
    let rows = conv.convert_rgb_frame(&black, 2, 1);
    assert_eq!(rows, vec!["  ".to_string()]);
}

#[test]
fn mid_gray_maps_to_middle_glyph() {
    // luminance of (128,128,128) is 128; index (255-128)*11/255 = 5 -> '*'
    let conv = AsciiConverter::new_dense(1, 1);
    let gray = vec![128u8, 128, 128];
    let rows = conv.convert_rgb_frame(&gray, 1, 1);
    assert_eq!(rows, vec!["*".to_string()]);
}

#[test]
fn red_pixel_luminance_and_color() {
    // luminance of (255,0,0) is 77*255/256 = 76; index (255-76)*11/255 = 7 -> ';'
    let mut conv = AsciiConverter::new_dense(1, 1);
    conv.set_color_enabled(true);
    let red = vec![255u8, 0, 0];
    let grid = conv.convert_rgb_frame_direct(&red, 1, 1);
    assert_eq!(grid.len(), 1);
    assert_eq!(grid[0].len(), 1);
    assert_eq!(grid[0][0].ch, ';');
    assert_eq!(grid[0][0].fg, Some(RgbColor { r: 255, g: 0, b: 0 }));
}

#[test]
fn color_disabled_carries_no_style() {
    let conv = AsciiConverter::new_dense(1, 1);
    let red = vec![255u8, 0, 0];
    let grid = conv.convert_rgb_frame_direct(&red, 1, 1);
    assert_eq!(grid[0][0].ch, ';');
    assert_eq!(grid[0][0].fg, None);
}

#[test]
fn area_average_blends_neighbors() {
    // one target cell over a black-and-white 2x1 frame averages to 127
    let mut conv = AsciiConverter::new_dense(1, 1);
    conv.set_color_enabled(true);
    let frame = vec![0u8, 0, 0, 255, 255, 255];
    let grid = conv.convert_rgb_frame_direct(&frame, 2, 1);
    assert_eq!(grid[0][0].fg, Some(RgbColor { r: 127, g: 127, b: 127 }));
    // luminance 127 -> index (255-127)*11/255 = 5 -> '*'
    assert_eq!(grid[0][0].ch, '*');
}

#[test]
fn grid_has_exact_target_dimensions() {
    let conv = AsciiConverter::new_dense(3, 2);
    let frame = vec![10u8; 4 * 2 * 3];
    let grid = conv.convert_rgb_frame_direct(&frame, 4, 2);
    assert_eq!(grid.len(), 2);
    for row in &grid {
        assert_eq!(row.len(), 3);
    }
    let rows = conv.convert_rgb_frame(&frame, 4, 2);
    assert_eq!(rows.len(), 2);
    for row in &rows {
        assert_eq!(row.chars().count(), 3);
    }
}

#[test]
fn scaling_changes_target_dimensions() {
    let mut conv = AsciiConverter::new_dense(10, 4);
    assert_eq!(conv.get_scaled_dimensions(), (10, 4));
    conv.set_scale_tenths(20);
    assert_eq!(conv.get_scaled_dimensions(), (20, 8));
    conv.set_scale_tenths(5);
    assert_eq!(conv.get_scaled_dimensions(), (5, 2));
    conv.set_scale_tenths(1);
    assert_eq!(conv.get_scaled_dimensions(), (1, 1));
}

#[test]
fn scaled_dimensions_clamp_to_one() {
    let conv = AsciiConverter::new_dense(0, 0);
    assert_eq!(conv.get_scaled_dimensions(), (1, 1));
}

#[test]
fn scale_factor_clamps() {
    let mut conv = AsciiConverter::new_dense(8, 8);
    conv.set_scale_tenths(0);
    assert_eq!(conv.scale_tenths(), 1);
    conv.set_scale_tenths(25);
    assert_eq!(conv.scale_tenths(), 20);
    conv.increase_scale();
    assert_eq!(conv.scale_tenths(), 20);
    conv.set_scale_tenths(1);
    conv.decrease_scale();
    assert_eq!(conv.scale_tenths(), 1);
    conv.increase_scale();
    assert_eq!(conv.scale_tenths(), 2);
    conv.decrease_scale();
    assert_eq!(conv.scale_tenths(), 1);
}

#[test]
fn malformed_frame_yields_sentinel() {
    // one byte short of 2*1*3
    let conv = AsciiConverter::new_dense(2, 1);
    let short = vec![255u8; 5];
    let grid = conv.convert_rgb_frame_direct(&short, 2, 1);
    assert_eq!(grid.len(), 1);
    assert_eq!(grid[0].len(), 1);
    assert_eq!(grid[0][0], ColoredChar { ch: 'E', fg: None });
    let rows = conv.convert_rgb_frame(&short, 2, 1);
    assert_eq!(rows, vec!["Invalid frame data".to_string()]);
}

#[test]
fn zero_dimension_frame_yields_sentinel() {
    let conv = AsciiConverter::new_dense(2, 1);
    let empty: Vec<u8> = Vec::new();
    let grid = conv.convert_rgb_frame_direct(&empty, 0, 0);
    assert_eq!(grid.len(), 1);
    assert_eq!(grid[0][0].ch, 'E');
}

#[test]
fn conversion_is_deterministic() {
    let mut conv = AsciiConverter::new_dense(5, 3);
    conv.set_color_enabled(true);
    let frame: Vec<u8> = (0..(7 * 4 * 3)).map(|i| (i * 37 % 256) as u8).collect();
    let a = conv.convert_rgb_frame_direct(&frame, 7, 4);
    let b = conv.convert_rgb_frame_direct(&frame, 7, 4);
    assert_eq!(a, b);
    let ra = conv.convert_rgb_frame(&frame, 7, 4);
    let rb = conv.convert_rgb_frame(&frame, 7, 4);
    assert_eq!(ra, rb);
}

#[test]
fn monotone_brightness_under_dense_palette() {
    // darker pixels never map to a strictly later (lighter) glyph
    let conv = AsciiConverter::new_dense(1, 1);
    let dense = CharacterSet::Dense.chars();
    let mut last_index = dense.len();
    for v in 0..=255u8 {
        let frame = vec![v, v, v];
        let grid = conv.convert_rgb_frame_direct(&frame, 1, 1);
        let idx = dense.iter().position(|&c| c == grid[0][0].ch).unwrap();
        assert!(idx <= last_index, "brightness {} jumped to denser glyph", v);
        last_index = idx;
    }
}

#[test]
fn converter_accessors_round_trip() {
    let mut conv = AsciiConverter::new(CharacterSet::Simple, 11, 7);
    assert_eq!(conv.character_set(), CharacterSet::Simple);
    assert_eq!(conv.width(), 11);
    assert_eq!(conv.height(), 7);
    assert!(!conv.color_enabled());
    assert_eq!(conv.scale_tenths(), 10);
    conv.resize(30, 20);
    assert_eq!(conv.width(), 30);
    assert_eq!(conv.height(), 20);
    conv.set_character_set(CharacterSet::Minimal);
    assert_eq!(conv.character_set(), CharacterSet::Minimal);
    conv.next_character_set();
    assert_eq!(conv.character_set(), CharacterSet::Dense);
    conv.previous_character_set();
    assert_eq!(conv.character_set(), CharacterSet::Minimal);
    conv.toggle_color();
    assert!(conv.color_enabled());
    conv.set_color_enabled(false);
    assert!(!conv.color_enabled());
    let d = AsciiConverter::default();
    assert_eq!(d.width(), 80);
    assert_eq!(d.height(), 24);
    assert_eq!(d.character_set(), CharacterSet::Dense);
    let s = AsciiConverter::new_simple(4, 4);
    assert_eq!(s.character_set(), CharacterSet::Simple);
    let b = AsciiConverter::new_blocks(4, 4);
    assert_eq!(b.character_set(), CharacterSet::Blocks);
}

#[test]
fn color_toggle_keeps_glyphs() {
    let mut conv = AsciiConverter::new_dense(3, 2);
    let frame: Vec<u8> = (0..(3 * 2 * 3)).map(|i| (i * 53 % 256) as u8).collect();
    let plain = conv.convert_rgb_frame_direct(&frame, 3, 2);
    conv.toggle_color();
    let colored = conv.convert_rgb_frame_direct(&frame, 3, 2);
    for (pr, cr) in plain.iter().zip(colored.iter()) {
        for (p, c) in pr.iter().zip(cr.iter()) {
            assert_eq!(p.ch, c.ch);
            assert_eq!(p.fg, None);
            assert!(c.fg.is_some());
        }
    }
}

#[test]
fn blocks_palette_extremes() {
    let conv = AsciiConverter::new_blocks(1, 1);
    let white = vec![255u8, 255, 255];
    let rows = conv.convert_rgb_frame(&white, 1, 1);
    assert_eq!(rows, vec!["\u{2588}".to_string()]);
    let black = vec![0u8, 0, 0];
    let rows = conv.convert_rgb_frame(&black, 1, 1);
    assert_eq!(rows, vec![" ".to_string()]);
}

#[test]
fn minimal_palette_mid_gray() {
    // luminance 128 -> index (255-128)*4/255 = 1 -> second block glyph
    let conv = AsciiConverter::new(CharacterSet::Minimal, 1, 1);
    let gray = vec![128u8, 128, 128];
    let rows = conv.convert_rgb_frame(&gray, 1, 1);
    assert_eq!(rows, vec!["\u{2593}".to_string()]);
}
