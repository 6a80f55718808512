use cosmic_audio_bg::config::VisualizationMode;
use cosmic_audio_bg::menu::{glyph, menu_items, FONT, GLYPH_COUNT, GLYPH_H, GLYPH_W};

#[test]
fn glyphs_ignore_case() {
    for (lower, upper) in ('a'..='z').zip('A'..='Z') {
        assert_eq!(glyph(lower), glyph(upper));
        assert!(glyph(upper).is_some());
    }
}

#[test]
fn characters_outside_the_font_have_no_glyph() {
    for c in ['?', '-', '!', 'é', '\n', '@', '[', '`', '{', '/', ':'] {
        assert_eq!(glyph(c), None, "{c:?}");
    }
}

#[test]
fn known_glyphs() {
    assert_eq!(glyph(' '), Some([".....", ".....", ".....", ".....", ".....", ".....", "....."]));
    assert_eq!(glyph('A'), Some([".###.", "#...#", "#...#", "#####", "#...#", "#...#", "#...#"]));
    assert_eq!(glyph('0'), Some([".###.", "#..##", "#.#.#", "#.#.#", "##..#", "#...#", ".###."]));
    assert_eq!(glyph('9'), Some([".###.", "#...#", "#...#", ".####", "....#", "....#", ".###."]));
    assert_eq!(glyph('z'), Some(["#####", "....#", "...#.", "..#..", ".#...", "#....", "#####"]));
}

#[test]
fn every_glyph_row_is_five_cells() {
    assert_eq!(FONT.len(), GLYPH_COUNT);
    for rows in FONT.iter() {
        assert_eq!(rows.len(), GLYPH_H);
        for row in rows.iter() {
            assert_eq!(row.len(), GLYPH_W);
            assert!(row.bytes().all(|b| b == b'#' || b == b'.'));
        }
    }
}

#[test]
fn menu_lists_each_mode_once() {
    let items = menu_items();
    assert_eq!(items.len(), 2);
    assert_eq!(items[0].mode, VisualizationMode::Stripes);
    assert_eq!(items[0].label, "STRIPES");
    assert_eq!(items[1].mode, VisualizationMode::Composite);
    assert_eq!(items[1].label, "COMPOSITE");
    for label in items.iter().map(|i| i.label) {
        assert!(label.chars().all(|c| glyph(c).is_some()));
    }
}
