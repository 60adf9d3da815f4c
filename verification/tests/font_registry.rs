use panther_tracker::fonts::{
    build_char_map, font_chars, get_font, load_fonts, FontData, FontLoader, GlyphRect,
};

fn sample_font(texture_id: u32) -> FontData {
    let sizes: Vec<(u32, u32)> = (0..67).map(|k| (100 + k, 200 + k)).collect();
    FontData { texture_id, char_map: build_char_map(&sizes) }
}

#[test]
fn atlas_dimensions() {
    let font = FontData { texture_id: 1, char_map: Vec::new() };
    assert_eq!(font.full_width(), 2700);
    assert_eq!(font.full_height(), 2700);
    assert_eq!(font.single_width(), 300);
    assert_eq!(font.single_height(), 300);
}

#[test]
fn atlas_holds_the_expected_characters() {
    let chars = font_chars();
    assert_eq!(chars.len(), 67);
    assert_eq!(chars[0], 'A');
    assert_eq!(chars[25], 'Z');
    assert_eq!(chars[26], 'a');
    assert_eq!(chars[51], 'z');
    assert_eq!(chars[52], '0');
    assert_eq!(chars[61], '9');
    assert_eq!(&chars[62..], &[',', '.', '!', '?', '*']);
}

#[test]
fn char_map_lays_cells_out_column_by_column() {
    let sizes: Vec<(u32, u32)> = (0..67).map(|k| (10 * k, 20 * k)).collect();
    let map = build_char_map(&sizes);
    assert_eq!(map.len(), 67);
    // the first column fills top to bottom
    assert_eq!(map[0], ('A', GlyphRect { x: 0, y: 0, width: 0, height: 0 }));
    assert_eq!(map[8], ('I', GlyphRect { x: 0, y: 2400, width: 80, height: 160 }));
    // the ninth character starts the second column
    assert_eq!(map[9], ('J', GlyphRect { x: 300, y: 0, width: 90, height: 180 }));
    assert_eq!(map[10], ('K', GlyphRect { x: 300, y: 300, width: 100, height: 200 }));
    // the last character sits in the eighth column, fourth row
    assert_eq!(map[66], ('*', GlyphRect { x: 2100, y: 900, width: 660, height: 1320 }));
}

#[test]
fn registry_serves_the_builtin_font() {
    let loader = FontLoader::new(sample_font(7));
    let found = loader.get_font("queensides").expect("the built-in font is registered");
    assert_eq!(found.texture_id, 7);
    assert_eq!(found.char_map.len(), 67);
    assert!(loader.get_font("sparky-stones").is_none());
}

#[test]
fn registry_resolves_to_the_latest_registration() {
    let mut loader = FontLoader::new(sample_font(7));
    loader.register("sparky-stones".to_string(), sample_font(8));
    assert_eq!(loader.get_font("sparky-stones").unwrap().texture_id, 8);
    loader.register("queensides".to_string(), sample_font(9));
    assert_eq!(loader.get_font("queensides").unwrap().texture_id, 9);
}

#[test]
fn free_functions_wrap_the_registry() {
    let loader = load_fonts(sample_font(3));
    assert_eq!(get_font(&loader, "queensides").unwrap().texture_id, 3);
    assert!(get_font(&loader, "missing").is_none());
}

#[test]
fn looked_up_font_is_an_independent_copy() {
    let loader = FontLoader::new(sample_font(4));
    let mut copy = loader.get_font("queensides").unwrap();
    copy.char_map.clear();
    let again = loader.get_font("queensides").unwrap();
    assert_eq!(again.char_map.len(), 67);
}
