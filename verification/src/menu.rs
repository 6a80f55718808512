use vstd::prelude::*;

use crate::config::VisualizationMode;

verus! {

/// Width of a glyph, in cells.
pub const GLYPH_W: usize = 5;

/// Height of a glyph, in cells.
pub const GLYPH_H: usize = 7;

/// Number of glyphs in the font: the space, the letters `A` to `Z`, then the
/// digits `0` to `9`.
pub const GLYPH_COUNT: usize = 37;

/// The 5x7 bitmap font of the mode menu. Row strings are read left to right,
/// `#` for a lit cell and `.` for a blank one.
pub const FONT: [[&'static str; 7]; 37] = [
    // space
    [".....", ".....", ".....", ".....", ".....", ".....", "....."],
    // A
    [".###.", "#...#", "#...#", "#####", "#...#", "#...#", "#...#"],
    // B
    ["####.", "#...#", "#...#", "####.", "#...#", "#...#", "####."],
    // C
    [".###.", "#...#", "#....", "#....", "#....", "#...#", ".###."],
    // D
    ["####.", "#...#", "#...#", "#...#", "#...#", "#...#", "####."],
    // E
    ["#####", "#....", "#....", "####.", "#....", "#....", "#####"],
    // F
    ["#####", "#....", "#....", "####.", "#....", "#....", "#...."],
    // G
    [".###.", "#...#", "#....", "#.###", "#...#", "#...#", ".###."],
    // H
    ["#...#", "#...#", "#...#", "#####", "#...#", "#...#", "#...#"],
    // I
    ["#####", "..#..", "..#..", "..#..", "..#..", "..#..", "#####"],
    // J
    ["..###", "...#.", "...#.", "...#.", "#..#.", "#..#.", ".##.."],
    // K
    ["#...#", "#..#.", "#.#..", "##...", "#.#..", "#..#.", "#...#"],
    // L
    ["#....", "#....", "#....", "#....", "#....", "#....", "#####"],
    // M
    ["#...#", "##.##", "#.#.#", "#.#.#", "#...#", "#...#", "#...#"],
    // N
    ["#...#", "##..#", "#.#.#", "#.#.#", "#..##", "#...#", "#...#"],
    // O
    [".###.", "#...#", "#...#", "#...#", "#...#", "#...#", ".###."],
    // P
    ["####.", "#...#", "#...#", "####.", "#....", "#....", "#...."],
    // Q
    [".###.", "#...#", "#...#", "#...#", "#.#.#", "#..#.", ".##.#"],
    // R
    ["####.", "#...#", "#...#", "####.", "#.#..", "#..#.", "#...#"],
    // S
    [".####", "#....", "#....", ".###.", "....#", "....#", "####."],
    // T
    ["#####", "..#..", "..#..", "..#..", "..#..", "..#..", "..#.."],
    // U
    ["#...#", "#...#", "#...#", "#...#", "#...#", "#...#", ".###."],
    // V
    ["#...#", "#...#", "#...#", "#...#", "#...#", ".#.#.", "..#.."],
    // W
    ["#...#", "#...#", "#...#", "#.#.#", "#.#.#", "##.##", "#...#"],
    // X
    ["#...#", "#...#", ".#.#.", "..#..", ".#.#.", "#...#", "#...#"],
    // Y
    ["#...#", "#...#", ".#.#.", "..#..", "..#..", "..#..", "..#.."],
    // Z
    ["#####", "....#", "...#.", "..#..", ".#...", "#....", "#####"],
    // 0
    [".###.", "#..##", "#.#.#", "#.#.#", "##..#", "#...#", ".###."],
    // 1
    ["..#..", ".##..", "..#..", "..#..", "..#..", "..#..", "#####"],
    // 2
    [".###.", "#...#", "....#", "..##.", ".#...", "#....", "#####"],
    // 3
    ["####.", "....#", "....#", ".###.", "....#", "....#", "####."],
    // 4
    ["#...#", "#...#", "#...#", "#####", "....#", "....#", "....#"],
    // 5
    ["#####", "#....", "####.", "....#", "....#", "#...#", ".###."],
    // 6
    [".###.", "#....", "#....", "####.", "#...#", "#...#", ".###."],
    // 7
    ["#####", "....#", "...#.", "..#..", ".#...", ".#...", ".#..."],
    // 8
    [".###.", "#...#", "#...#", ".###.", "#...#", "#...#", ".###."],
    // 9
    [".###.", "#...#", "#...#", ".####", "....#", "....#", ".###."],
];

/// `c` with an ASCII lowercase letter mapped to its uppercase form, as
/// `char::to_ascii_uppercase` does.
pub open spec fn ascii_uppercase(c: char) -> char {
    if 'a' <= c <= 'z' {
        ((c as u32) - 32) as char
    } else {
        c
    }
}

/// Position in `FONT` of the glyph drawn for `c`, if the font has one:
/// letters of either case share a glyph.
pub open spec fn font_index(c: char) -> Option<int> {
    let u = ascii_uppercase(c);
    if u == ' ' {
        Some(0)
    } else if 'A' <= u <= 'Z' {
        Some(u as int - 'A' as int + 1)
    } else if '0' <= u <= '9' {
        Some(u as int - '0' as int + 27)
    } else {
        None
    }
}

/// The rows of the glyph drawn for `c`, if the font has one.
pub open spec fn glyph_of(c: char) -> Option<[&'static str; 7]> {
    match font_index(c) {
        Some(i) => Some(FONT[i]),
        None => None,
    }
}

/// The 5x7 uppercase bitmap glyph for `c`; lowercase letters use the glyph
/// of their uppercase form, and characters outside the font give `None`.
pub fn glyph(c: char) -> (rows: Option<[&'static str; 7]>)
    ensures
        rows == glyph_of(c),
        'A' <= c <= 'Z' ==> rows == Some(FONT[c as int - 'A' as int + 1]),
        'a' <= c <= 'z' ==> rows == Some(FONT[c as int - 'a' as int + 1]),
        '0' <= c <= '9' ==> rows == Some(FONT[c as int - '0' as int + 27]),
        c == ' ' ==> rows == Some(FONT[0]),
        !('A' <= c <= 'Z' || 'a' <= c <= 'z' || '0' <= c <= '9' || c == ' ') ==> rows is None,
{
    let code = c as u32;
    let index: usize = if code == 32 {
        0
    } else if 65 <= code && code <= 90 {
        (code - 64) as usize
    } else if 97 <= code && code <= 122 {
        (code - 96) as usize
    } else if 48 <= code && code <= 57 {
        (code - 48 + 27) as usize
    } else {
        return None;
    };
    Some(FONT[index])
}

/// A row of a glyph: `GLYPH_W` cells, each lit (`#`) or blank (`.`).
pub open spec fn is_glyph_row(row: Seq<char>) -> bool {
    &&& row.len() == GLYPH_W
    &&& forall|j: int| 0 <= j < row.len() ==> #[trigger] row[j] == '#' || row[j] == '.'
}

/// Every row of every glyph of the font is `GLYPH_W` cells of `#` or `.`.
pub proof fn lemma_font_rows_well_formed(i: int, r: int)
    requires
        0 <= i < GLYPH_COUNT,
        0 <= r < GLYPH_H,
    ensures
        is_glyph_row(FONT[i][r]@),
{
    reveal_strlit("#####");
    reveal_strlit("####.");
    reveal_strlit("##.##");
    reveal_strlit("##..#");
    reveal_strlit("##...");
    reveal_strlit("#.###");
    reveal_strlit("#.#.#");
    reveal_strlit("#.#..");
    reveal_strlit("#..##");
    reveal_strlit("#..#.");
    reveal_strlit("#...#");
    reveal_strlit("#....");
    reveal_strlit(".####");
    reveal_strlit(".###.");
    reveal_strlit(".##.#");
    reveal_strlit(".##..");
    reveal_strlit(".#.#.");
    reveal_strlit(".#...");
    reveal_strlit("..###");
    reveal_strlit("..##.");
    reveal_strlit("..#..");
    reveal_strlit("...#.");
    reveal_strlit("....#");
    reveal_strlit(".....");
}

/// Lowercase and uppercase forms of a character are drawn with the same glyph.
pub proof fn lemma_glyph_ignores_case(c: char)
    ensures
        glyph_of(c) == glyph_of(ascii_uppercase(c)),
{
}

/// One selectable row of the mode menu.
pub struct MenuItem {
    pub mode: VisualizationMode,
    pub label: &'static str,
}

/// The modes that the menu offers, top row first.
pub open spec fn menu_modes() -> Seq<VisualizationMode> {
    seq![VisualizationMode::Stripes, VisualizationMode::Composite]
}

/// The rows of the mode menu, top first: one row per visualization mode,
/// labelled with the mode's name in capitals.
pub fn menu_items() -> (items: Vec<MenuItem>)
    ensures
        items@.len() == menu_modes().len(),
        forall|i: int| 0 <= i < items@.len() ==> #[trigger] items@[i].mode == menu_modes()[i],
        items@[0].label@ == "STRIPES"@,
        items@[1].label@ == "COMPOSITE"@,
{
    let mut items: Vec<MenuItem> = Vec::new();
    items.push(MenuItem { mode: VisualizationMode::Stripes, label: "STRIPES" });
    items.push(MenuItem { mode: VisualizationMode::Composite, label: "COMPOSITE" });
    items
}

/// Every visualization mode is offered by exactly one row of the menu.
pub proof fn lemma_menu_offers_each_mode_once(mode: VisualizationMode)
    ensures
        exists|i: int| 0 <= i < menu_modes().len() && menu_modes()[i] == mode,
        forall|i: int, j: int|
            0 <= i < menu_modes().len() && 0 <= j < menu_modes().len() && menu_modes()[i] == mode
                && menu_modes()[j] == mode ==> i == j,
{
    match mode {
        VisualizationMode::Stripes => assert(menu_modes()[0] == mode),
        VisualizationMode::Composite => assert(menu_modes()[1] == mode),
    }
}

/// Where each character's glyph sits in `FONT`: the space first, then the
/// letters `A` to `Z` (a lowercase letter taking its uppercase form's
/// glyph), then the digits `0` to `9`; no other character has a glyph.
pub proof fn lemma_glyph_positions(c: char)
    ensures
        'A' <= c <= 'Z' ==> glyph_of(c) == Some(FONT[c as int - 'A' as int + 1]),
        'a' <= c <= 'z' ==> glyph_of(c) == Some(FONT[c as int - 'a' as int + 1]),
        '0' <= c <= '9' ==> glyph_of(c) == Some(FONT[c as int - '0' as int + 27]),
        c == ' ' ==> glyph_of(c) == Some(FONT[0]),
        !('A' <= c <= 'Z' || 'a' <= c <= 'z' || '0' <= c <= '9' || c == ' ') ==> glyph_of(c) is None,
{
}

/// Two characters share a font position only when they are the same
/// character up to ASCII case: no letter, digit or the space borrows
/// another's glyph.
pub proof fn lemma_font_index_injective(a: char, b: char)
    requires
        font_index(a) is Some,
        font_index(a) == font_index(b),
    ensures
        ascii_uppercase(a) == ascii_uppercase(b),
{
}

/// No two characters of the font that differ beyond ASCII case are drawn
/// alike: the glyphs in `FONT` are pairwise different.
#[verifier::spinoff_prover]
#[verifier::rlimit(100)]
pub proof fn lemma_font_glyphs_distinct(i: int, j: int)
    requires
        0 <= i < j < GLYPH_COUNT,
    ensures
        exists|r: int| 0 <= r < GLYPH_H && #[trigger] FONT[i][r]@ != FONT[j][r]@,
{
    reveal_strlit("#####");
    reveal_strlit("####.");
    reveal_strlit("##.##");
    reveal_strlit("##..#");
    reveal_strlit("##...");
    reveal_strlit("#.###");
    reveal_strlit("#.#.#");
    reveal_strlit("#.#..");
    reveal_strlit("#..##");
    reveal_strlit("#..#.");
    reveal_strlit("#...#");
    reveal_strlit("#....");
    reveal_strlit(".####");
    reveal_strlit(".###.");
    reveal_strlit(".##.#");
    reveal_strlit(".##..");
    reveal_strlit(".#.#.");
    reveal_strlit(".#...");
    reveal_strlit("..###");
    reveal_strlit("..##.");
    reveal_strlit("..#..");
    reveal_strlit("...#.");
    reveal_strlit("....#");
    reveal_strlit(".....");
    if i == 0 && j == 1 {
        assert(FONT[0][0]@[1] != FONT[1][0]@[1]);
        assert(FONT[i][0]@ != FONT[j][0]@);
    }
    if i == 0 && j == 2 {
        assert(FONT[0][0]@[0] != FONT[2][0]@[0]);
        assert(FONT[i][0]@ != FONT[j][0]@);
    }
    if i == 0 && j == 3 {
        assert(FONT[0][0]@[1] != FONT[3][0]@[1]);
        assert(FONT[i][0]@ != FONT[j][0]@);
    }
    if i == 0 && j == 4 {
        assert(FONT[0][0]@[0] != FONT[4][0]@[0]);
        assert(FONT[i][0]@ != FONT[j][0]@);
    }
    if i == 0 && j == 5 {
        assert(FONT[0][0]@[0] != FONT[5][0]@[0]);
        assert(FONT[i][0]@ != FONT[j][0]@);
    }
    if i == 0 && j == 6 {
        assert(FONT[0][0]@[0] != FONT[6][0]@[0]);
        assert(FONT[i][0]@ != FONT[j][0]@);
    }
    if i == 0 && j == 7 {
        assert(FONT[0][0]@[1] != FONT[7][0]@[1]);
        assert(FONT[i][0]@ != FONT[j][0]@);
    }
    if i == 0 && j == 8 {
        assert(FONT[0][0]@[0] != FONT[8][0]@[0]);
        assert(FONT[i][0]@ != FONT[j][0]@);
    }
    if i == 0 && j == 9 {
        assert(FONT[0][0]@[0] != FONT[9][0]@[0]);
        assert(FONT[i][0]@ != FONT[j][0]@);
    }
    if i == 0 && j == 10 {
        assert(FONT[0][0]@[2] != FONT[10][0]@[2]);
        assert(FONT[i][0]@ != FONT[j][0]@);
    }
    if i == 0 && j == 11 {
        assert(FONT[0][0]@[0] != FONT[11][0]@[0]);
        assert(FONT[i][0]@ != FONT[j][0]@);
    }
    if i == 0 && j == 12 {
        assert(FONT[0][0]@[0] != FONT[12][0]@[0]);
        assert(FONT[i][0]@ != FONT[j][0]@);
    }
    if i == 0 && j == 13 {
        assert(FONT[0][0]@[0] != FONT[13][0]@[0]);
        assert(FONT[i][0]@ != FONT[j][0]@);
    }
    if i == 0 && j == 14 {
        assert(FONT[0][0]@[0] != FONT[14][0]@[0]);
        assert(FONT[i][0]@ != FONT[j][0]@);
    }
    if i == 0 && j == 15 {
        assert(FONT[0][0]@[1] != FONT[15][0]@[1]);
        assert(FONT[i][0]@ != FONT[j][0]@);
    }
    if i == 0 && j == 16 {
        assert(FONT[0][0]@[0] != FONT[16][0]@[0]);
        assert(FONT[i][0]@ != FONT[j][0]@);
    }
    if i == 0 && j == 17 {
        assert(FONT[0][0]@[1] != FONT[17][0]@[1]);
        assert(FONT[i][0]@ != FONT[j][0]@);
    }
    if i == 0 && j == 18 {
        assert(FONT[0][0]@[0] != FONT[18][0]@[0]);
        assert(FONT[i][0]@ != FONT[j][0]@);
    }
    if i == 0 && j == 19 {
        assert(FONT[0][0]@[1] != FONT[19][0]@[1]);
        assert(FONT[i][0]@ != FONT[j][0]@);
    }
    if i == 0 && j == 20 {
        assert(FONT[0][0]@[0] != FONT[20][0]@[0]);
        assert(FONT[i][0]@ != FONT[j][0]@);
    }
    if i == 0 && j == 21 {
        assert(FONT[0][0]@[0] != FONT[21][0]@[0]);
        assert(FONT[i][0]@ != FONT[j][0]@);
    }
    if i == 0 && j == 22 {
        assert(FONT[0][0]@[0] != FONT[22][0]@[0]);
        assert(FONT[i][0]@ != FONT[j][0]@);
    }
    if i == 0 && j == 23 {
        assert(FONT[0][0]@[0] != FONT[23][0]@[0]);
        assert(FONT[i][0]@ != FONT[j][0]@);
    }
    if i == 0 && j == 24 {
        assert(FONT[0][0]@[0] != FONT[24][0]@[0]);
        assert(FONT[i][0]@ != FONT[j][0]@);
    }
    if i == 0 && j == 25 {
        assert(FONT[0][0]@[0] != FONT[25][0]@[0]);
        assert(FONT[i][0]@ != FONT[j][0]@);
    }
    if i == 0 && j == 26 {
        assert(FONT[0][0]@[0] != FONT[26][0]@[0]);
        assert(FONT[i][0]@ != FONT[j][0]@);
    }
    if i == 0 && j == 27 {
        assert(FONT[0][0]@[1] != FONT[27][0]@[1]);
        assert(FONT[i][0]@ != FONT[j][0]@);
    }
    if i == 0 && j == 28 {
        assert(FONT[0][0]@[2] != FONT[28][0]@[2]);
        assert(FONT[i][0]@ != FONT[j][0]@);
    }
    if i == 0 && j == 29 {
        assert(FONT[0][0]@[1] != FONT[29][0]@[1]);
        assert(FONT[i][0]@ != FONT[j][0]@);
    }
    if i == 0 && j == 30 {
        assert(FONT[0][0]@[0] != FONT[30][0]@[0]);
        assert(FONT[i][0]@ != FONT[j][0]@);
    }
    if i == 0 && j == 31 {
        assert(FONT[0][0]@[0] != FONT[31][0]@[0]);
        assert(FONT[i][0]@ != FONT[j][0]@);
    }
    if i == 0 && j == 32 {
        assert(FONT[0][0]@[0] != FONT[32][0]@[0]);
        assert(FONT[i][0]@ != FONT[j][0]@);
    }
    if i == 0 && j == 33 {
        assert(FONT[0][0]@[1] != FONT[33][0]@[1]);
        assert(FONT[i][0]@ != FONT[j][0]@);
    }
    if i == 0 && j == 34 {
        assert(FONT[0][0]@[0] != FONT[34][0]@[0]);
        assert(FONT[i][0]@ != FONT[j][0]@);
    }
    if i == 0 && j == 35 {
        assert(FONT[0][0]@[1] != FONT[35][0]@[1]);
        assert(FONT[i][0]@ != FONT[j][0]@);
    }
    if i == 0 && j == 36 {
        assert(FONT[0][0]@[1] != FONT[36][0]@[1]);
        assert(FONT[i][0]@ != FONT[j][0]@);
    }
    if i == 1 && j == 2 {
        assert(FONT[1][0]@[0] != FONT[2][0]@[0]);
        assert(FONT[i][0]@ != FONT[j][0]@);
    }
    if i == 1 && j == 3 {
        assert(FONT[1][2]@[4] != FONT[3][2]@[4]);
        assert(FONT[i][2]@ != FONT[j][2]@);
    }
    if i == 1 && j == 4 {
        assert(FONT[1][0]@[0] != FONT[4][0]@[0]);
        assert(FONT[i][0]@ != FONT[j][0]@);
    }
    if i == 1 && j == 5 {
        assert(FONT[1][0]@[0] != FONT[5][0]@[0]);
        assert(FONT[i][0]@ != FONT[j][0]@);
    }
    if i == 1 && j == 6 {
        assert(FONT[1][0]@[0] != FONT[6][0]@[0]);
        assert(FONT[i][0]@ != FONT[j][0]@);
    }
    if i == 1 && j == 7 {
        assert(FONT[1][2]@[4] != FONT[7][2]@[4]);
        assert(FONT[i][2]@ != FONT[j][2]@);
    }
    if i == 1 && j == 8 {
        assert(FONT[1][0]@[0] != FONT[8][0]@[0]);
        assert(FONT[i][0]@ != FONT[j][0]@);
    }
    if i == 1 && j == 9 {
        assert(FONT[1][0]@[0] != FONT[9][0]@[0]);
        assert(FONT[i][0]@ != FONT[j][0]@);
    }
    if i == 1 && j == 10 {
        assert(FONT[1][0]@[1] != FONT[10][0]@[1]);
        assert(FONT[i][0]@ != FONT[j][0]@);
    }
    if i == 1 && j == 11 {
        assert(FONT[1][0]@[0] != FONT[11][0]@[0]);
        assert(FONT[i][0]@ != FONT[j][0]@);
    }
    if i == 1 && j == 12 {
        assert(FONT[1][0]@[0] != FONT[12][0]@[0]);
        assert(FONT[i][0]@ != FONT[j][0]@);
    }
    if i == 1 && j == 13 {
        assert(FONT[1][0]@[0] != FONT[13][0]@[0]);
        assert(FONT[i][0]@ != FONT[j][0]@);
    }
    if i == 1 && j == 14 {
        assert(FONT[1][0]@[0] != FONT[14][0]@[0]);
        assert(FONT[i][0]@ != FONT[j][0]@);
    }
    if i == 1 && j == 15 {
        assert(FONT[1][3]@[1] != FONT[15][3]@[1]);
        assert(FONT[i][3]@ != FONT[j][3]@);
    }
    if i == 1 && j == 16 {
        assert(FONT[1][0]@[0] != FONT[16][0]@[0]);
        assert(FONT[i][0]@ != FONT[j][0]@);
    }
    if i == 1 && j == 17 {
        assert(FONT[1][3]@[1] != FONT[17][3]@[1]);
        assert(FONT[i][3]@ != FONT[j][3]@);
    }
    if i == 1 && j == 18 {
        assert(FONT[1][0]@[0] != FONT[18][0]@[0]);
        assert(FONT[i][0]@ != FONT[j][0]@);
    }
    if i == 1 && j == 19 {
        assert(FONT[1][0]@[4] != FONT[19][0]@[4]);
        assert(FONT[i][0]@ != FONT[j][0]@);
    }
    if i == 1 && j == 20 {
        assert(FONT[1][0]@[0] != FONT[20][0]@[0]);
        assert(FONT[i][0]@ != FONT[j][0]@);
    }
    if i == 1 && j == 21 {
        assert(FONT[1][0]@[0] != FONT[21][0]@[0]);
        assert(FONT[i][0]@ != FONT[j][0]@);
    }
    if i == 1 && j == 22 {
        assert(FONT[1][0]@[0] != FONT[22][0]@[0]);
        assert(FONT[i][0]@ != FONT[j][0]@);
    }
    if i == 1 && j == 23 {
        assert(FONT[1][0]@[0] != FONT[23][0]@[0]);
        assert(FONT[i][0]@ != FONT[j][0]@);
    }
    if i == 1 && j == 24 {
        assert(FONT[1][0]@[0] != FONT[24][0]@[0]);
        assert(FONT[i][0]@ != FONT[j][0]@);
    }
    if i == 1 && j == 25 {
        assert(FONT[1][0]@[0] != FONT[25][0]@[0]);
        assert(FONT[i][0]@ != FONT[j][0]@);
    }
    if i == 1 && j == 26 {
        assert(FONT[1][0]@[0] != FONT[26][0]@[0]);
        assert(FONT[i][0]@ != FONT[j][0]@);
    }
    if i == 1 && j == 27 {
        assert(FONT[1][1]@[3] != FONT[27][1]@[3]);
        assert(FONT[i][1]@ != FONT[j][1]@);
    }
    if i == 1 && j == 28 {
        assert(FONT[1][0]@[1] != FONT[28][0]@[1]);
        assert(FONT[i][0]@ != FONT[j][0]@);
    }
    if i == 1 && j == 29 {
        assert(FONT[1][2]@[0] != FONT[29][2]@[0]);
        assert(FONT[i][2]@ != FONT[j][2]@);
    }
    if i == 1 && j == 30 {
        assert(FONT[1][0]@[0] != FONT[30][0]@[0]);
        assert(FONT[i][0]@ != FONT[j][0]@);
    }
    if i == 1 && j == 31 {
        assert(FONT[1][0]@[0] != FONT[31][0]@[0]);
        assert(FONT[i][0]@ != FONT[j][0]@);
    }
    if i == 1 && j == 32 {
        assert(FONT[1][0]@[0] != FONT[32][0]@[0]);
        assert(FONT[i][0]@ != FONT[j][0]@);
    }
    if i == 1 && j == 33 {
        assert(FONT[1][1]@[4] != FONT[33][1]@[4]);
        assert(FONT[i][1]@ != FONT[j][1]@);
    }
    if i == 1 && j == 34 {
        assert(FONT[1][0]@[0] != FONT[34][0]@[0]);
        assert(FONT[i][0]@ != FONT[j][0]@);
    }
    if i == 1 && j == 35 {
        assert(FONT[1][3]@[0] != FONT[35][3]@[0]);
        assert(FONT[i][3]@ != FONT[j][3]@);
    }
    if i == 1 && j == 36 {
        assert(FONT[1][3]@[0] != FONT[36][3]@[0]);
        assert(FONT[i][3]@ != FONT[j][3]@);
    }
    if i == 2 && j == 3 {
        assert(FONT[2][0]@[0] != FONT[3][0]@[0]);
        assert(FONT[i][0]@ != FONT[j][0]@);
    }
    if i == 2 && j == 4 {
        assert(FONT[2][3]@[1] != FONT[4][3]@[1]);
        assert(FONT[i][3]@ != FONT[j][3]@);
    }
    if i == 2 && j == 5 {
        assert(FONT[2][0]@[4] != FONT[5][0]@[4]);
        assert(FONT[i][0]@ != FONT[j][0]@);
    }
    if i == 2 && j == 6 {
        assert(FONT[2][0]@[4] != FONT[6][0]@[4]);
        assert(FONT[i][0]@ != FONT[j][0]@);
    }
    if i == 2 && j == 7 {
        assert(FONT[2][0]@[0] != FONT[7][0]@[0]);
        assert(FONT[i][0]@ != FONT[j][0]@);
    }
    if i == 2 && j == 8 {
        assert(FONT[2][0]@[1] != FONT[8][0]@[1]);
        assert(FONT[i][0]@ != FONT[j][0]@);
    }
    if i == 2 && j == 9 {
        assert(FONT[2][0]@[4] != FONT[9][0]@[4]);
        assert(FONT[i][0]@ != FONT[j][0]@);
    }
    if i == 2 && j == 10 {
        assert(FONT[2][0]@[0] != FONT[10][0]@[0]);
        assert(FONT[i][0]@ != FONT[j][0]@);
    }
    if i == 2 && j == 11 {
        assert(FONT[2][0]@[1] != FONT[11][0]@[1]);
        assert(FONT[i][0]@ != FONT[j][0]@);
    }
    if i == 2 && j == 12 {
        assert(FONT[2][0]@[1] != FONT[12][0]@[1]);
        assert(FONT[i][0]@ != FONT[j][0]@);
    }
    if i == 2 && j == 13 {
        assert(FONT[2][0]@[1] != FONT[13][0]@[1]);
        assert(FONT[i][0]@ != FONT[j][0]@);
    }
    if i == 2 && j == 14 {
        assert(FONT[2][0]@[1] != FONT[14][0]@[1]);
        assert(FONT[i][0]@ != FONT[j][0]@);
    }
    if i == 2 && j == 15 {
        assert(FONT[2][0]@[0] != FONT[15][0]@[0]);
        assert(FONT[i][0]@ != FONT[j][0]@);
    }
    if i == 2 && j == 16 {
        assert(FONT[2][4]@[4] != FONT[16][4]@[4]);
        assert(FONT[i][4]@ != FONT[j][4]@);
    }
    if i == 2 && j == 17 {
        assert(FONT[2][0]@[0] != FONT[17][0]@[0]);
        assert(FONT[i][0]@ != FONT[j][0]@);
    }
    if i == 2 && j == 18 {
        assert(FONT[2][4]@[2] != FONT[18][4]@[2]);
        assert(FONT[i][4]@ != FONT[j][4]@);
    }
    if i == 2 && j == 19 {
        assert(FONT[2][0]@[0] != FONT[19][0]@[0]);
        assert(FONT[i][0]@ != FONT[j][0]@);
    }
    if i == 2 && j == 20 {
        assert(FONT[2][0]@[4] != FONT[20][0]@[4]);
        assert(FONT[i][0]@ != FONT[j][0]@);
    }
    if i == 2 && j == 21 {
        assert(FONT[2][0]@[1] != FONT[21][0]@[1]);
        assert(FONT[i][0]@ != FONT[j][0]@);
    }
    if i == 2 && j == 22 {
        assert(FONT[2][0]@[1] != FONT[22][0]@[1]);
        assert(FONT[i][0]@ != FONT[j][0]@);
    }
    if i == 2 && j == 23 {
        assert(FONT[2][0]@[1] != FONT[23][0]@[1]);
        assert(FONT[i][0]@ != FONT[j][0]@);
    }
    if i == 2 && j == 24 {
        assert(FONT[2][0]@[1] != FONT[24][0]@[1]);
        assert(FONT[i][0]@ != FONT[j][0]@);
    }
    if i == 2 && j == 25 {
        assert(FONT[2][0]@[1] != FONT[25][0]@[1]);
        assert(FONT[i][0]@ != FONT[j][0]@);
    }
    if i == 2 && j == 26 {
        assert(FONT[2][0]@[4] != FONT[26][0]@[4]);
        assert(FONT[i][0]@ != FONT[j][0]@);
    }
    if i == 2 && j == 27 {
        assert(FONT[2][0]@[0] != FONT[27][0]@[0]);
        assert(FONT[i][0]@ != FONT[j][0]@);
    }
    if i == 2 && j == 28 {
        assert(FONT[2][0]@[0] != FONT[28][0]@[0]);
        assert(FONT[i][0]@ != FONT[j][0]@);
    }
    if i == 2 && j == 29 {
        assert(FONT[2][0]@[0] != FONT[29][0]@[0]);
        assert(FONT[i][0]@ != FONT[j][0]@);
    }
    if i == 2 && j == 30 {
        assert(FONT[2][1]@[0] != FONT[30][1]@[0]);
        assert(FONT[i][1]@ != FONT[j][1]@);
    }
    if i == 2 && j == 31 {
        assert(FONT[2][0]@[1] != FONT[31][0]@[1]);
        assert(FONT[i][0]@ != FONT[j][0]@);
    }
    if i == 2 && j == 32 {
        assert(FONT[2][0]@[4] != FONT[32][0]@[4]);
        assert(FONT[i][0]@ != FONT[j][0]@);
    }
    if i == 2 && j == 33 {
        assert(FONT[2][0]@[0] != FONT[33][0]@[0]);
        assert(FONT[i][0]@ != FONT[j][0]@);
    }
    if i == 2 && j == 34 {
        assert(FONT[2][0]@[4] != FONT[34][0]@[4]);
        assert(FONT[i][0]@ != FONT[j][0]@);
    }
    if i == 2 && j == 35 {
        assert(FONT[2][0]@[0] != FONT[35][0]@[0]);
        assert(FONT[i][0]@ != FONT[j][0]@);
    }
    if i == 2 && j == 36 {
        assert(FONT[2][0]@[0] != FONT[36][0]@[0]);
        assert(FONT[i][0]@ != FONT[j][0]@);
    }
    if i == 3 && j == 4 {
        assert(FONT[3][0]@[0] != FONT[4][0]@[0]);
        assert(FONT[i][0]@ != FONT[j][0]@);
    }
    if i == 3 && j == 5 {
        assert(FONT[3][0]@[0] != FONT[5][0]@[0]);
        assert(FONT[i][0]@ != FONT[j][0]@);
    }
    if i == 3 && j == 6 {
        assert(FONT[3][0]@[0] != FONT[6][0]@[0]);
        assert(FONT[i][0]@ != FONT[j][0]@);
    }
    if i == 3 && j == 7 {
        assert(FONT[3][3]@[2] != FONT[7][3]@[2]);
        assert(FONT[i][3]@ != FONT[j][3]@);
    }
    if i == 3 && j == 8 {
        assert(FONT[3][0]@[0] != FONT[8][0]@[0]);
        assert(FONT[i][0]@ != FONT[j][0]@);
    }
    if i == 3 && j == 9 {
        assert(FONT[3][0]@[0] != FONT[9][0]@[0]);
        assert(FONT[i][0]@ != FONT[j][0]@);
    }
    if i == 3 && j == 10 {
        assert(FONT[3][0]@[1] != FONT[10][0]@[1]);
        assert(FONT[i][0]@ != FONT[j][0]@);
    }
    if i == 3 && j == 11 {
        assert(FONT[3][0]@[0] != FONT[11][0]@[0]);
        assert(FONT[i][0]@ != FONT[j][0]@);
    }
    if i == 3 && j == 12 {
        assert(FONT[3][0]@[0] != FONT[12][0]@[0]);
        assert(FONT[i][0]@ != FONT[j][0]@);
    }
    if i == 3 && j == 13 {
        assert(FONT[3][0]@[0] != FONT[13][0]@[0]);
        assert(FONT[i][0]@ != FONT[j][0]@);
    }
    if i == 3 && j == 14 {
        assert(FONT[3][0]@[0] != FONT[14][0]@[0]);
        assert(FONT[i][0]@ != FONT[j][0]@);
    }
    if i == 3 && j == 15 {
        assert(FONT[3][2]@[4] != FONT[15][2]@[4]);
        assert(FONT[i][2]@ != FONT[j][2]@);
    }
    if i == 3 && j == 16 {
        assert(FONT[3][0]@[0] != FONT[16][0]@[0]);
        assert(FONT[i][0]@ != FONT[j][0]@);
    }
    if i == 3 && j == 17 {
        assert(FONT[3][2]@[4] != FONT[17][2]@[4]);
        assert(FONT[i][2]@ != FONT[j][2]@);
    }
    if i == 3 && j == 18 {
        assert(FONT[3][0]@[0] != FONT[18][0]@[0]);
        assert(FONT[i][0]@ != FONT[j][0]@);
    }
    if i == 3 && j == 19 {
        assert(FONT[3][0]@[4] != FONT[19][0]@[4]);
        assert(FONT[i][0]@ != FONT[j][0]@);
    }
    if i == 3 && j == 20 {
        assert(FONT[3][0]@[0] != FONT[20][0]@[0]);
        assert(FONT[i][0]@ != FONT[j][0]@);
    }
    if i == 3 && j == 21 {
        assert(FONT[3][0]@[0] != FONT[21][0]@[0]);
        assert(FONT[i][0]@ != FONT[j][0]@);
    }
    if i == 3 && j == 22 {
        assert(FONT[3][0]@[0] != FONT[22][0]@[0]);
        assert(FONT[i][0]@ != FONT[j][0]@);
    }
    if i == 3 && j == 23 {
        assert(FONT[3][0]@[0] != FONT[23][0]@[0]);
        assert(FONT[i][0]@ != FONT[j][0]@);
    }
    if i == 3 && j == 24 {
        assert(FONT[3][0]@[0] != FONT[24][0]@[0]);
        assert(FONT[i][0]@ != FONT[j][0]@);
    }
    if i == 3 && j == 25 {
        assert(FONT[3][0]@[0] != FONT[25][0]@[0]);
        assert(FONT[i][0]@ != FONT[j][0]@);
    }
    if i == 3 && j == 26 {
        assert(FONT[3][0]@[0] != FONT[26][0]@[0]);
        assert(FONT[i][0]@ != FONT[j][0]@);
    }
    if i == 3 && j == 27 {
        assert(FONT[3][1]@[3] != FONT[27][1]@[3]);
        assert(FONT[i][1]@ != FONT[j][1]@);
    }
    if i == 3 && j == 28 {
        assert(FONT[3][0]@[1] != FONT[28][0]@[1]);
        assert(FONT[i][0]@ != FONT[j][0]@);
    }
    if i == 3 && j == 29 {
        assert(FONT[3][2]@[0] != FONT[29][2]@[0]);
        assert(FONT[i][2]@ != FONT[j][2]@);
    }
    if i == 3 && j == 30 {
        assert(FONT[3][0]@[0] != FONT[30][0]@[0]);
        assert(FONT[i][0]@ != FONT[j][0]@);
    }
    if i == 3 && j == 31 {
        assert(FONT[3][0]@[0] != FONT[31][0]@[0]);
        assert(FONT[i][0]@ != FONT[j][0]@);
    }
    if i == 3 && j == 32 {
        assert(FONT[3][0]@[0] != FONT[32][0]@[0]);
        assert(FONT[i][0]@ != FONT[j][0]@);
    }
    if i == 3 && j == 33 {
        assert(FONT[3][1]@[4] != FONT[33][1]@[4]);
        assert(FONT[i][1]@ != FONT[j][1]@);
    }
    if i == 3 && j == 34 {
        assert(FONT[3][0]@[0] != FONT[34][0]@[0]);
        assert(FONT[i][0]@ != FONT[j][0]@);
    }
    if i == 3 && j == 35 {
        assert(FONT[3][2]@[4] != FONT[35][2]@[4]);
        assert(FONT[i][2]@ != FONT[j][2]@);
    }
    if i == 3 && j == 36 {
        assert(FONT[3][2]@[4] != FONT[36][2]@[4]);
        assert(FONT[i][2]@ != FONT[j][2]@);
    }
    if i == 4 && j == 5 {
        assert(FONT[4][0]@[4] != FONT[5][0]@[4]);
        assert(FONT[i][0]@ != FONT[j][0]@);
    }
    if i == 4 && j == 6 {
        assert(FONT[4][0]@[4] != FONT[6][0]@[4]);
        assert(FONT[i][0]@ != FONT[j][0]@);
    }
    if i == 4 && j == 7 {
        assert(FONT[4][0]@[0] != FONT[7][0]@[0]);
        assert(FONT[i][0]@ != FONT[j][0]@);
    }
    if i == 4 && j == 8 {
        assert(FONT[4][0]@[1] != FONT[8][0]@[1]);
        assert(FONT[i][0]@ != FONT[j][0]@);
    }
    if i == 4 && j == 9 {
        assert(FONT[4][0]@[4] != FONT[9][0]@[4]);
        assert(FONT[i][0]@ != FONT[j][0]@);
    }
    if i == 4 && j == 10 {
        assert(FONT[4][0]@[0] != FONT[10][0]@[0]);
        assert(FONT[i][0]@ != FONT[j][0]@);
    }
    if i == 4 && j == 11 {
        assert(FONT[4][0]@[1] != FONT[11][0]@[1]);
        assert(FONT[i][0]@ != FONT[j][0]@);
    }
    if i == 4 && j == 12 {
        assert(FONT[4][0]@[1] != FONT[12][0]@[1]);
        assert(FONT[i][0]@ != FONT[j][0]@);
    }
    if i == 4 && j == 13 {
        assert(FONT[4][0]@[1] != FONT[13][0]@[1]);
        assert(FONT[i][0]@ != FONT[j][0]@);
    }
    if i == 4 && j == 14 {
        assert(FONT[4][0]@[1] != FONT[14][0]@[1]);
        assert(FONT[i][0]@ != FONT[j][0]@);
    }
    if i == 4 && j == 15 {
        assert(FONT[4][0]@[0] != FONT[15][0]@[0]);
        assert(FONT[i][0]@ != FONT[j][0]@);
    }
    if i == 4 && j == 16 {
        assert(FONT[4][3]@[1] != FONT[16][3]@[1]);
        assert(FONT[i][3]@ != FONT[j][3]@);
    }
    if i == 4 && j == 17 {
        assert(FONT[4][0]@[0] != FONT[17][0]@[0]);
        assert(FONT[i][0]@ != FONT[j][0]@);
    }
    if i == 4 && j == 18 {
        assert(FONT[4][3]@[1] != FONT[18][3]@[1]);
        assert(FONT[i][3]@ != FONT[j][3]@);
    }
    if i == 4 && j == 19 {
        assert(FONT[4][0]@[0] != FONT[19][0]@[0]);
        assert(FONT[i][0]@ != FONT[j][0]@);
    }
    if i == 4 && j == 20 {
        assert(FONT[4][0]@[4] != FONT[20][0]@[4]);
        assert(FONT[i][0]@ != FONT[j][0]@);
    }
    if i == 4 && j == 21 {
        assert(FONT[4][0]@[1] != FONT[21][0]@[1]);
        assert(FONT[i][0]@ != FONT[j][0]@);
    }
    if i == 4 && j == 22 {
        assert(FONT[4][0]@[1] != FONT[22][0]@[1]);
        assert(FONT[i][0]@ != FONT[j][0]@);
    }
    if i == 4 && j == 23 {
        assert(FONT[4][0]@[1] != FONT[23][0]@[1]);
        assert(FONT[i][0]@ != FONT[j][0]@);
    }
    if i == 4 && j == 24 {
        assert(FONT[4][0]@[1] != FONT[24][0]@[1]);
        assert(FONT[i][0]@ != FONT[j][0]@);
    }
    if i == 4 && j == 25 {
        assert(FONT[4][0]@[1] != FONT[25][0]@[1]);
        assert(FONT[i][0]@ != FONT[j][0]@);
    }
    if i == 4 && j == 26 {
        assert(FONT[4][0]@[4] != FONT[26][0]@[4]);
        assert(FONT[i][0]@ != FONT[j][0]@);
    }
    if i == 4 && j == 27 {
        assert(FONT[4][0]@[0] != FONT[27][0]@[0]);
        assert(FONT[i][0]@ != FONT[j][0]@);
    }
    if i == 4 && j == 28 {
        assert(FONT[4][0]@[0] != FONT[28][0]@[0]);
        assert(FONT[i][0]@ != FONT[j][0]@);
    }
    if i == 4 && j == 29 {
        assert(FONT[4][0]@[0] != FONT[29][0]@[0]);
        assert(FONT[i][0]@ != FONT[j][0]@);
    }
    if i == 4 && j == 30 {
        assert(FONT[4][1]@[0] != FONT[30][1]@[0]);
        assert(FONT[i][1]@ != FONT[j][1]@);
    }
    if i == 4 && j == 31 {
        assert(FONT[4][0]@[1] != FONT[31][0]@[1]);
        assert(FONT[i][0]@ != FONT[j][0]@);
    }
    if i == 4 && j == 32 {
        assert(FONT[4][0]@[4] != FONT[32][0]@[4]);
        assert(FONT[i][0]@ != FONT[j][0]@);
    }
    if i == 4 && j == 33 {
        assert(FONT[4][0]@[0] != FONT[33][0]@[0]);
        assert(FONT[i][0]@ != FONT[j][0]@);
    }
    if i == 4 && j == 34 {
        assert(FONT[4][0]@[4] != FONT[34][0]@[4]);
        assert(FONT[i][0]@ != FONT[j][0]@);
    }
    if i == 4 && j == 35 {
        assert(FONT[4][0]@[0] != FONT[35][0]@[0]);
        assert(FONT[i][0]@ != FONT[j][0]@);
    }
    if i == 4 && j == 36 {
        assert(FONT[4][0]@[0] != FONT[36][0]@[0]);
        assert(FONT[i][0]@ != FONT[j][0]@);
    }
    if i == 5 && j == 6 {
        assert(FONT[5][6]@[1] != FONT[6][6]@[1]);
        assert(FONT[i][6]@ != FONT[j][6]@);
    }
    if i == 5 && j == 7 {
        assert(FONT[5][0]@[0] != FONT[7][0]@[0]);
        assert(FONT[i][0]@ != FONT[j][0]@);
    }
    if i == 5 && j == 8 {
        assert(FONT[5][0]@[1] != FONT[8][0]@[1]);
        assert(FONT[i][0]@ != FONT[j][0]@);
    }
    if i == 5 && j == 9 {
        assert(FONT[5][1]@[0] != FONT[9][1]@[0]);
        assert(FONT[i][1]@ != FONT[j][1]@);
    }
    if i == 5 && j == 10 {
        assert(FONT[5][0]@[0] != FONT[10][0]@[0]);
        assert(FONT[i][0]@ != FONT[j][0]@);
    }
    if i == 5 && j == 11 {
        assert(FONT[5][0]@[1] != FONT[11][0]@[1]);
        assert(FONT[i][0]@ != FONT[j][0]@);
    }
    if i == 5 && j == 12 {
        assert(FONT[5][0]@[1] != FONT[12][0]@[1]);
        assert(FONT[i][0]@ != FONT[j][0]@);
    }
    if i == 5 && j == 13 {
        assert(FONT[5][0]@[1] != FONT[13][0]@[1]);
        assert(FONT[i][0]@ != FONT[j][0]@);
    }
    if i == 5 && j == 14 {
        assert(FONT[5][0]@[1] != FONT[14][0]@[1]);
        assert(FONT[i][0]@ != FONT[j][0]@);
    }
    if i == 5 && j == 15 {
        assert(FONT[5][0]@[0] != FONT[15][0]@[0]);
        assert(FONT[i][0]@ != FONT[j][0]@);
    }
    if i == 5 && j == 16 {
        assert(FONT[5][0]@[4] != FONT[16][0]@[4]);
        assert(FONT[i][0]@ != FONT[j][0]@);
    }
    if i == 5 && j == 17 {
        assert(FONT[5][0]@[0] != FONT[17][0]@[0]);
        assert(FONT[i][0]@ != FONT[j][0]@);
    }
    if i == 5 && j == 18 {
        assert(FONT[5][0]@[4] != FONT[18][0]@[4]);
        assert(FONT[i][0]@ != FONT[j][0]@);
    }
    if i == 5 && j == 19 {
        assert(FONT[5][0]@[0] != FONT[19][0]@[0]);
        assert(FONT[i][0]@ != FONT[j][0]@);
    }
    if i == 5 && j == 20 {
        assert(FONT[5][1]@[0] != FONT[20][1]@[0]);
        assert(FONT[i][1]@ != FONT[j][1]@);
    }
    if i == 5 && j == 21 {
        assert(FONT[5][0]@[1] != FONT[21][0]@[1]);
        assert(FONT[i][0]@ != FONT[j][0]@);
    }
    if i == 5 && j == 22 {
        assert(FONT[5][0]@[1] != FONT[22][0]@[1]);
        assert(FONT[i][0]@ != FONT[j][0]@);
    }
    if i == 5 && j == 23 {
        assert(FONT[5][0]@[1] != FONT[23][0]@[1]);
        assert(FONT[i][0]@ != FONT[j][0]@);
    }
    if i == 5 && j == 24 {
        assert(FONT[5][0]@[1] != FONT[24][0]@[1]);
        assert(FONT[i][0]@ != FONT[j][0]@);
    }
    if i == 5 && j == 25 {
        assert(FONT[5][0]@[1] != FONT[25][0]@[1]);
        assert(FONT[i][0]@ != FONT[j][0]@);
    }
    if i == 5 && j == 26 {
        assert(FONT[5][1]@[0] != FONT[26][1]@[0]);
        assert(FONT[i][1]@ != FONT[j][1]@);
    }
    if i == 5 && j == 27 {
        assert(FONT[5][0]@[0] != FONT[27][0]@[0]);
        assert(FONT[i][0]@ != FONT[j][0]@);
    }
    if i == 5 && j == 28 {
        assert(FONT[5][0]@[0] != FONT[28][0]@[0]);
        assert(FONT[i][0]@ != FONT[j][0]@);
    }
    if i == 5 && j == 29 {
        assert(FONT[5][0]@[0] != FONT[29][0]@[0]);
        assert(FONT[i][0]@ != FONT[j][0]@);
    }
    if i == 5 && j == 30 {
        assert(FONT[5][0]@[4] != FONT[30][0]@[4]);
        assert(FONT[i][0]@ != FONT[j][0]@);
    }
    if i == 5 && j == 31 {
        assert(FONT[5][0]@[1] != FONT[31][0]@[1]);
        assert(FONT[i][0]@ != FONT[j][0]@);
    }
    if i == 5 && j == 32 {
        assert(FONT[5][2]@[1] != FONT[32][2]@[1]);
        assert(FONT[i][2]@ != FONT[j][2]@);
    }
    if i == 5 && j == 33 {
        assert(FONT[5][0]@[0] != FONT[33][0]@[0]);
        assert(FONT[i][0]@ != FONT[j][0]@);
    }
    if i == 5 && j == 34 {
        assert(FONT[5][1]@[0] != FONT[34][1]@[0]);
        assert(FONT[i][1]@ != FONT[j][1]@);
    }
    if i == 5 && j == 35 {
        assert(FONT[5][0]@[0] != FONT[35][0]@[0]);
        assert(FONT[i][0]@ != FONT[j][0]@);
    }
    if i == 5 && j == 36 {
        assert(FONT[5][0]@[0] != FONT[36][0]@[0]);
        assert(FONT[i][0]@ != FONT[j][0]@);
    }
    if i == 6 && j == 7 {
        assert(FONT[6][0]@[0] != FONT[7][0]@[0]);
        assert(FONT[i][0]@ != FONT[j][0]@);
    }
    if i == 6 && j == 8 {
        assert(FONT[6][0]@[1] != FONT[8][0]@[1]);
        assert(FONT[i][0]@ != FONT[j][0]@);
    }
    if i == 6 && j == 9 {
        assert(FONT[6][1]@[0] != FONT[9][1]@[0]);
        assert(FONT[i][1]@ != FONT[j][1]@);
    }
    if i == 6 && j == 10 {
        assert(FONT[6][0]@[0] != FONT[10][0]@[0]);
        assert(FONT[i][0]@ != FONT[j][0]@);
    }
    if i == 6 && j == 11 {
        assert(FONT[6][0]@[1] != FONT[11][0]@[1]);
        assert(FONT[i][0]@ != FONT[j][0]@);
    }
    if i == 6 && j == 12 {
        assert(FONT[6][0]@[1] != FONT[12][0]@[1]);
        assert(FONT[i][0]@ != FONT[j][0]@);
    }
    if i == 6 && j == 13 {
        assert(FONT[6][0]@[1] != FONT[13][0]@[1]);
        assert(FONT[i][0]@ != FONT[j][0]@);
    }
    if i == 6 && j == 14 {
        assert(FONT[6][0]@[1] != FONT[14][0]@[1]);
        assert(FONT[i][0]@ != FONT[j][0]@);
    }
    if i == 6 && j == 15 {
        assert(FONT[6][0]@[0] != FONT[15][0]@[0]);
        assert(FONT[i][0]@ != FONT[j][0]@);
    }
    if i == 6 && j == 16 {
        assert(FONT[6][0]@[4] != FONT[16][0]@[4]);
        assert(FONT[i][0]@ != FONT[j][0]@);
    }
    if i == 6 && j == 17 {
        assert(FONT[6][0]@[0] != FONT[17][0]@[0]);
        assert(FONT[i][0]@ != FONT[j][0]@);
    }
    if i == 6 && j == 18 {
        assert(FONT[6][0]@[4] != FONT[18][0]@[4]);
        assert(FONT[i][0]@ != FONT[j][0]@);
    }
    if i == 6 && j == 19 {
        assert(FONT[6][0]@[0] != FONT[19][0]@[0]);
        assert(FONT[i][0]@ != FONT[j][0]@);
    }
    if i == 6 && j == 20 {
        assert(FONT[6][1]@[0] != FONT[20][1]@[0]);
        assert(FONT[i][1]@ != FONT[j][1]@);
    }
    if i == 6 && j == 21 {
        assert(FONT[6][0]@[1] != FONT[21][0]@[1]);
        assert(FONT[i][0]@ != FONT[j][0]@);
    }
    if i == 6 && j == 22 {
        assert(FONT[6][0]@[1] != FONT[22][0]@[1]);
        assert(FONT[i][0]@ != FONT[j][0]@);
    }
    if i == 6 && j == 23 {
        assert(FONT[6][0]@[1] != FONT[23][0]@[1]);
        assert(FONT[i][0]@ != FONT[j][0]@);
    }
    if i == 6 && j == 24 {
        assert(FONT[6][0]@[1] != FONT[24][0]@[1]);
        assert(FONT[i][0]@ != FONT[j][0]@);
    }
    if i == 6 && j == 25 {
        assert(FONT[6][0]@[1] != FONT[25][0]@[1]);
        assert(FONT[i][0]@ != FONT[j][0]@);
    }
    if i == 6 && j == 26 {
        assert(FONT[6][1]@[0] != FONT[26][1]@[0]);
        assert(FONT[i][1]@ != FONT[j][1]@);
    }
    if i == 6 && j == 27 {
        assert(FONT[6][0]@[0] != FONT[27][0]@[0]);
        assert(FONT[i][0]@ != FONT[j][0]@);
    }
    if i == 6 && j == 28 {
        assert(FONT[6][0]@[0] != FONT[28][0]@[0]);
        assert(FONT[i][0]@ != FONT[j][0]@);
    }
    if i == 6 && j == 29 {
        assert(FONT[6][0]@[0] != FONT[29][0]@[0]);
        assert(FONT[i][0]@ != FONT[j][0]@);
    }
    if i == 6 && j == 30 {
        assert(FONT[6][0]@[4] != FONT[30][0]@[4]);
        assert(FONT[i][0]@ != FONT[j][0]@);
    }
    if i == 6 && j == 31 {
        assert(FONT[6][0]@[1] != FONT[31][0]@[1]);
        assert(FONT[i][0]@ != FONT[j][0]@);
    }
    if i == 6 && j == 32 {
        assert(FONT[6][2]@[1] != FONT[32][2]@[1]);
        assert(FONT[i][2]@ != FONT[j][2]@);
    }
    if i == 6 && j == 33 {
        assert(FONT[6][0]@[0] != FONT[33][0]@[0]);
        assert(FONT[i][0]@ != FONT[j][0]@);
    }
    if i == 6 && j == 34 {
        assert(FONT[6][1]@[0] != FONT[34][1]@[0]);
        assert(FONT[i][1]@ != FONT[j][1]@);
    }
    if i == 6 && j == 35 {
        assert(FONT[6][0]@[0] != FONT[35][0]@[0]);
        assert(FONT[i][0]@ != FONT[j][0]@);
    }
    if i == 6 && j == 36 {
        assert(FONT[6][0]@[0] != FONT[36][0]@[0]);
        assert(FONT[i][0]@ != FONT[j][0]@);
    }
    if i == 7 && j == 8 {
        assert(FONT[7][0]@[0] != FONT[8][0]@[0]);
        assert(FONT[i][0]@ != FONT[j][0]@);
    }
    if i == 7 && j == 9 {
        assert(FONT[7][0]@[0] != FONT[9][0]@[0]);
        assert(FONT[i][0]@ != FONT[j][0]@);
    }
    if i == 7 && j == 10 {
        assert(FONT[7][0]@[1] != FONT[10][0]@[1]);
        assert(FONT[i][0]@ != FONT[j][0]@);
    }
    if i == 7 && j == 11 {
        assert(FONT[7][0]@[0] != FONT[11][0]@[0]);
        assert(FONT[i][0]@ != FONT[j][0]@);
    }
    if i == 7 && j == 12 {
        assert(FONT[7][0]@[0] != FONT[12][0]@[0]);
        assert(FONT[i][0]@ != FONT[j][0]@);
    }
    if i == 7 && j == 13 {
        assert(FONT[7][0]@[0] != FONT[13][0]@[0]);
        assert(FONT[i][0]@ != FONT[j][0]@);
    }
    if i == 7 && j == 14 {
        assert(FONT[7][0]@[0] != FONT[14][0]@[0]);
        assert(FONT[i][0]@ != FONT[j][0]@);
    }
    if i == 7 && j == 15 {
        assert(FONT[7][2]@[4] != FONT[15][2]@[4]);
        assert(FONT[i][2]@ != FONT[j][2]@);
    }
    if i == 7 && j == 16 {
        assert(FONT[7][0]@[0] != FONT[16][0]@[0]);
        assert(FONT[i][0]@ != FONT[j][0]@);
    }
    if i == 7 && j == 17 {
        assert(FONT[7][2]@[4] != FONT[17][2]@[4]);
        assert(FONT[i][2]@ != FONT[j][2]@);
    }
    if i == 7 && j == 18 {
        assert(FONT[7][0]@[0] != FONT[18][0]@[0]);
        assert(FONT[i][0]@ != FONT[j][0]@);
    }
    if i == 7 && j == 19 {
        assert(FONT[7][0]@[4] != FONT[19][0]@[4]);
        assert(FONT[i][0]@ != FONT[j][0]@);
    }
    if i == 7 && j == 20 {
        assert(FONT[7][0]@[0] != FONT[20][0]@[0]);
        assert(FONT[i][0]@ != FONT[j][0]@);
    }
    if i == 7 && j == 21 {
        assert(FONT[7][0]@[0] != FONT[21][0]@[0]);
        assert(FONT[i][0]@ != FONT[j][0]@);
    }
    if i == 7 && j == 22 {
        assert(FONT[7][0]@[0] != FONT[22][0]@[0]);
        assert(FONT[i][0]@ != FONT[j][0]@);
    }
    if i == 7 && j == 23 {
        assert(FONT[7][0]@[0] != FONT[23][0]@[0]);
        assert(FONT[i][0]@ != FONT[j][0]@);
    }
    if i == 7 && j == 24 {
        assert(FONT[7][0]@[0] != FONT[24][0]@[0]);
        assert(FONT[i][0]@ != FONT[j][0]@);
    }
    if i == 7 && j == 25 {
        assert(FONT[7][0]@[0] != FONT[25][0]@[0]);
        assert(FONT[i][0]@ != FONT[j][0]@);
    }
    if i == 7 && j == 26 {
        assert(FONT[7][0]@[0] != FONT[26][0]@[0]);
        assert(FONT[i][0]@ != FONT[j][0]@);
    }
    if i == 7 && j == 27 {
        assert(FONT[7][1]@[3] != FONT[27][1]@[3]);
        assert(FONT[i][1]@ != FONT[j][1]@);
    }
    if i == 7 && j == 28 {
        assert(FONT[7][0]@[1] != FONT[28][0]@[1]);
        assert(FONT[i][0]@ != FONT[j][0]@);
    }
    if i == 7 && j == 29 {
        assert(FONT[7][2]@[0] != FONT[29][2]@[0]);
        assert(FONT[i][2]@ != FONT[j][2]@);
    }
    if i == 7 && j == 30 {
        assert(FONT[7][0]@[0] != FONT[30][0]@[0]);
        assert(FONT[i][0]@ != FONT[j][0]@);
    }
    if i == 7 && j == 31 {
        assert(FONT[7][0]@[0] != FONT[31][0]@[0]);
        assert(FONT[i][0]@ != FONT[j][0]@);
    }
    if i == 7 && j == 32 {
        assert(FONT[7][0]@[0] != FONT[32][0]@[0]);
        assert(FONT[i][0]@ != FONT[j][0]@);
    }
    if i == 7 && j == 33 {
        assert(FONT[7][1]@[4] != FONT[33][1]@[4]);
        assert(FONT[i][1]@ != FONT[j][1]@);
    }
    if i == 7 && j == 34 {
        assert(FONT[7][0]@[0] != FONT[34][0]@[0]);
        assert(FONT[i][0]@ != FONT[j][0]@);
    }
    if i == 7 && j == 35 {
        assert(FONT[7][2]@[4] != FONT[35][2]@[4]);
        assert(FONT[i][2]@ != FONT[j][2]@);
    }
    if i == 7 && j == 36 {
        assert(FONT[7][2]@[4] != FONT[36][2]@[4]);
        assert(FONT[i][2]@ != FONT[j][2]@);
    }
    if i == 8 && j == 9 {
        assert(FONT[8][0]@[1] != FONT[9][0]@[1]);
        assert(FONT[i][0]@ != FONT[j][0]@);
    }
    if i == 8 && j == 10 {
        assert(FONT[8][0]@[0] != FONT[10][0]@[0]);
        assert(FONT[i][0]@ != FONT[j][0]@);
    }
    if i == 8 && j == 11 {
        assert(FONT[8][1]@[3] != FONT[11][1]@[3]);
        assert(FONT[i][1]@ != FONT[j][1]@);
    }
    if i == 8 && j == 12 {
        assert(FONT[8][0]@[4] != FONT[12][0]@[4]);
        assert(FONT[i][0]@ != FONT[j][0]@);
    }
    if i == 8 && j == 13 {
        assert(FONT[8][1]@[1] != FONT[13][1]@[1]);
        assert(FONT[i][1]@ != FONT[j][1]@);
    }
    if i == 8 && j == 14 {
        assert(FONT[8][1]@[1] != FONT[14][1]@[1]);
        assert(FONT[i][1]@ != FONT[j][1]@);
    }
    if i == 8 && j == 15 {
        assert(FONT[8][0]@[0] != FONT[15][0]@[0]);
        assert(FONT[i][0]@ != FONT[j][0]@);
    }
    if i == 8 && j == 16 {
        assert(FONT[8][0]@[1] != FONT[16][0]@[1]);
        assert(FONT[i][0]@ != FONT[j][0]@);
    }
    if i == 8 && j == 17 {
        assert(FONT[8][0]@[0] != FONT[17][0]@[0]);
        assert(FONT[i][0]@ != FONT[j][0]@);
    }
    if i == 8 && j == 18 {
        assert(FONT[8][0]@[1] != FONT[18][0]@[1]);
        assert(FONT[i][0]@ != FONT[j][0]@);
    }
    if i == 8 && j == 19 {
        assert(FONT[8][0]@[0] != FONT[19][0]@[0]);
        assert(FONT[i][0]@ != FONT[j][0]@);
    }
    if i == 8 && j == 20 {
        assert(FONT[8][0]@[1] != FONT[20][0]@[1]);
        assert(FONT[i][0]@ != FONT[j][0]@);
    }
    if i == 8 && j == 21 {
        assert(FONT[8][3]@[1] != FONT[21][3]@[1]);
        assert(FONT[i][3]@ != FONT[j][3]@);
    }
    if i == 8 && j == 22 {
        assert(FONT[8][3]@[1] != FONT[22][3]@[1]);
        assert(FONT[i][3]@ != FONT[j][3]@);
    }
    if i == 8 && j == 23 {
        assert(FONT[8][3]@[1] != FONT[23][3]@[1]);
        assert(FONT[i][3]@ != FONT[j][3]@);
    }
    if i == 8 && j == 24 {
        assert(FONT[8][2]@[0] != FONT[24][2]@[0]);
        assert(FONT[i][2]@ != FONT[j][2]@);
    }
    if i == 8 && j == 25 {
        assert(FONT[8][2]@[0] != FONT[25][2]@[0]);
        assert(FONT[i][2]@ != FONT[j][2]@);
    }
    if i == 8 && j == 26 {
        assert(FONT[8][0]@[1] != FONT[26][0]@[1]);
        assert(FONT[i][0]@ != FONT[j][0]@);
    }
    if i == 8 && j == 27 {
        assert(FONT[8][0]@[0] != FONT[27][0]@[0]);
        assert(FONT[i][0]@ != FONT[j][0]@);
    }
    if i == 8 && j == 28 {
        assert(FONT[8][0]@[0] != FONT[28][0]@[0]);
        assert(FONT[i][0]@ != FONT[j][0]@);
    }
    if i == 8 && j == 29 {
        assert(FONT[8][0]@[0] != FONT[29][0]@[0]);
        assert(FONT[i][0]@ != FONT[j][0]@);
    }
    if i == 8 && j == 30 {
        assert(FONT[8][0]@[1] != FONT[30][0]@[1]);
        assert(FONT[i][0]@ != FONT[j][0]@);
    }
    if i == 8 && j == 31 {
        assert(FONT[8][4]@[0] != FONT[31][4]@[0]);
        assert(FONT[i][4]@ != FONT[j][4]@);
    }
    if i == 8 && j == 32 {
        assert(FONT[8][0]@[1] != FONT[32][0]@[1]);
        assert(FONT[i][0]@ != FONT[j][0]@);
    }
    if i == 8 && j == 33 {
        assert(FONT[8][0]@[0] != FONT[33][0]@[0]);
        assert(FONT[i][0]@ != FONT[j][0]@);
    }
    if i == 8 && j == 34 {
        assert(FONT[8][0]@[1] != FONT[34][0]@[1]);
        assert(FONT[i][0]@ != FONT[j][0]@);
    }
    if i == 8 && j == 35 {
        assert(FONT[8][0]@[0] != FONT[35][0]@[0]);
        assert(FONT[i][0]@ != FONT[j][0]@);
    }
    if i == 8 && j == 36 {
        assert(FONT[8][0]@[0] != FONT[36][0]@[0]);
        assert(FONT[i][0]@ != FONT[j][0]@);
    }
    if i == 9 && j == 10 {
        assert(FONT[9][0]@[0] != FONT[10][0]@[0]);
        assert(FONT[i][0]@ != FONT[j][0]@);
    }
    if i == 9 && j == 11 {
        assert(FONT[9][0]@[1] != FONT[11][0]@[1]);
        assert(FONT[i][0]@ != FONT[j][0]@);
    }
    if i == 9 && j == 12 {
        assert(FONT[9][0]@[1] != FONT[12][0]@[1]);
        assert(FONT[i][0]@ != FONT[j][0]@);
    }
    if i == 9 && j == 13 {
        assert(FONT[9][0]@[1] != FONT[13][0]@[1]);
        assert(FONT[i][0]@ != FONT[j][0]@);
    }
    if i == 9 && j == 14 {
        assert(FONT[9][0]@[1] != FONT[14][0]@[1]);
        assert(FONT[i][0]@ != FONT[j][0]@);
    }
    if i == 9 && j == 15 {
        assert(FONT[9][0]@[0] != FONT[15][0]@[0]);
        assert(FONT[i][0]@ != FONT[j][0]@);
    }
    if i == 9 && j == 16 {
        assert(FONT[9][0]@[4] != FONT[16][0]@[4]);
        assert(FONT[i][0]@ != FONT[j][0]@);
    }
    if i == 9 && j == 17 {
        assert(FONT[9][0]@[0] != FONT[17][0]@[0]);
        assert(FONT[i][0]@ != FONT[j][0]@);
    }
    if i == 9 && j == 18 {
        assert(FONT[9][0]@[4] != FONT[18][0]@[4]);
        assert(FONT[i][0]@ != FONT[j][0]@);
    }
    if i == 9 && j == 19 {
        assert(FONT[9][0]@[0] != FONT[19][0]@[0]);
        assert(FONT[i][0]@ != FONT[j][0]@);
    }
    if i == 9 && j == 20 {
        assert(FONT[9][6]@[0] != FONT[20][6]@[0]);
        assert(FONT[i][6]@ != FONT[j][6]@);
    }
    if i == 9 && j == 21 {
        assert(FONT[9][0]@[1] != FONT[21][0]@[1]);
        assert(FONT[i][0]@ != FONT[j][0]@);
    }
    if i == 9 && j == 22 {
        assert(FONT[9][0]@[1] != FONT[22][0]@[1]);
        assert(FONT[i][0]@ != FONT[j][0]@);
    }
    if i == 9 && j == 23 {
        assert(FONT[9][0]@[1] != FONT[23][0]@[1]);
        assert(FONT[i][0]@ != FONT[j][0]@);
    }
    if i == 9 && j == 24 {
        assert(FONT[9][0]@[1] != FONT[24][0]@[1]);
        assert(FONT[i][0]@ != FONT[j][0]@);
    }
    if i == 9 && j == 25 {
        assert(FONT[9][0]@[1] != FONT[25][0]@[1]);
        assert(FONT[i][0]@ != FONT[j][0]@);
    }
    if i == 9 && j == 26 {
        assert(FONT[9][1]@[2] != FONT[26][1]@[2]);
        assert(FONT[i][1]@ != FONT[j][1]@);
    }
    if i == 9 && j == 27 {
        assert(FONT[9][0]@[0] != FONT[27][0]@[0]);
        assert(FONT[i][0]@ != FONT[j][0]@);
    }
    if i == 9 && j == 28 {
        assert(FONT[9][0]@[0] != FONT[28][0]@[0]);
        assert(FONT[i][0]@ != FONT[j][0]@);
    }
    if i == 9 && j == 29 {
        assert(FONT[9][0]@[0] != FONT[29][0]@[0]);
        assert(FONT[i][0]@ != FONT[j][0]@);
    }
    if i == 9 && j == 30 {
        assert(FONT[9][0]@[4] != FONT[30][0]@[4]);
        assert(FONT[i][0]@ != FONT[j][0]@);
    }
    if i == 9 && j == 31 {
        assert(FONT[9][0]@[1] != FONT[31][0]@[1]);
        assert(FONT[i][0]@ != FONT[j][0]@);
    }
    if i == 9 && j == 32 {
        assert(FONT[9][1]@[0] != FONT[32][1]@[0]);
        assert(FONT[i][1]@ != FONT[j][1]@);
    }
    if i == 9 && j == 33 {
        assert(FONT[9][0]@[0] != FONT[33][0]@[0]);
        assert(FONT[i][0]@ != FONT[j][0]@);
    }
    if i == 9 && j == 34 {
        assert(FONT[9][1]@[2] != FONT[34][1]@[2]);
        assert(FONT[i][1]@ != FONT[j][1]@);
    }
    if i == 9 && j == 35 {
        assert(FONT[9][0]@[0] != FONT[35][0]@[0]);
        assert(FONT[i][0]@ != FONT[j][0]@);
    }
    if i == 9 && j == 36 {
        assert(FONT[9][0]@[0] != FONT[36][0]@[0]);
        assert(FONT[i][0]@ != FONT[j][0]@);
    }
    if i == 10 && j == 11 {
        assert(FONT[10][0]@[0] != FONT[11][0]@[0]);
        assert(FONT[i][0]@ != FONT[j][0]@);
    }
    if i == 10 && j == 12 {
        assert(FONT[10][0]@[0] != FONT[12][0]@[0]);
        assert(FONT[i][0]@ != FONT[j][0]@);
    }
    if i == 10 && j == 13 {
        assert(FONT[10][0]@[0] != FONT[13][0]@[0]);
        assert(FONT[i][0]@ != FONT[j][0]@);
    }
    if i == 10 && j == 14 {
        assert(FONT[10][0]@[0] != FONT[14][0]@[0]);
        assert(FONT[i][0]@ != FONT[j][0]@);
    }
    if i == 10 && j == 15 {
        assert(FONT[10][0]@[1] != FONT[15][0]@[1]);
        assert(FONT[i][0]@ != FONT[j][0]@);
    }
    if i == 10 && j == 16 {
        assert(FONT[10][0]@[0] != FONT[16][0]@[0]);
        assert(FONT[i][0]@ != FONT[j][0]@);
    }
    if i == 10 && j == 17 {
        assert(FONT[10][0]@[1] != FONT[17][0]@[1]);
        assert(FONT[i][0]@ != FONT[j][0]@);
    }
    if i == 10 && j == 18 {
        assert(FONT[10][0]@[0] != FONT[18][0]@[0]);
        assert(FONT[i][0]@ != FONT[j][0]@);
    }
    if i == 10 && j == 19 {
        assert(FONT[10][0]@[1] != FONT[19][0]@[1]);
        assert(FONT[i][0]@ != FONT[j][0]@);
    }
    if i == 10 && j == 20 {
        assert(FONT[10][0]@[0] != FONT[20][0]@[0]);
        assert(FONT[i][0]@ != FONT[j][0]@);
    }
    if i == 10 && j == 21 {
        assert(FONT[10][0]@[0] != FONT[21][0]@[0]);
        assert(FONT[i][0]@ != FONT[j][0]@);
    }
    if i == 10 && j == 22 {
        assert(FONT[10][0]@[0] != FONT[22][0]@[0]);
        assert(FONT[i][0]@ != FONT[j][0]@);
    }
    if i == 10 && j == 23 {
        assert(FONT[10][0]@[0] != FONT[23][0]@[0]);
        assert(FONT[i][0]@ != FONT[j][0]@);
    }
    if i == 10 && j == 24 {
        assert(FONT[10][0]@[0] != FONT[24][0]@[0]);
        assert(FONT[i][0]@ != FONT[j][0]@);
    }
    if i == 10 && j == 25 {
        assert(FONT[10][0]@[0] != FONT[25][0]@[0]);
        assert(FONT[i][0]@ != FONT[j][0]@);
    }
    if i == 10 && j == 26 {
        assert(FONT[10][0]@[0] != FONT[26][0]@[0]);
        assert(FONT[i][0]@ != FONT[j][0]@);
    }
    if i == 10 && j == 27 {
        assert(FONT[10][0]@[1] != FONT[27][0]@[1]);
        assert(FONT[i][0]@ != FONT[j][0]@);
    }
    if i == 10 && j == 28 {
        assert(FONT[10][0]@[3] != FONT[28][0]@[3]);
        assert(FONT[i][0]@ != FONT[j][0]@);
    }
    if i == 10 && j == 29 {
        assert(FONT[10][0]@[1] != FONT[29][0]@[1]);
        assert(FONT[i][0]@ != FONT[j][0]@);
    }
    if i == 10 && j == 30 {
        assert(FONT[10][0]@[0] != FONT[30][0]@[0]);
        assert(FONT[i][0]@ != FONT[j][0]@);
    }
    if i == 10 && j == 31 {
        assert(FONT[10][0]@[0] != FONT[31][0]@[0]);
        assert(FONT[i][0]@ != FONT[j][0]@);
    }
    if i == 10 && j == 32 {
        assert(FONT[10][0]@[0] != FONT[32][0]@[0]);
        assert(FONT[i][0]@ != FONT[j][0]@);
    }
    if i == 10 && j == 33 {
        assert(FONT[10][0]@[1] != FONT[33][0]@[1]);
        assert(FONT[i][0]@ != FONT[j][0]@);
    }
    if i == 10 && j == 34 {
        assert(FONT[10][0]@[0] != FONT[34][0]@[0]);
        assert(FONT[i][0]@ != FONT[j][0]@);
    }
    if i == 10 && j == 35 {
        assert(FONT[10][0]@[1] != FONT[35][0]@[1]);
        assert(FONT[i][0]@ != FONT[j][0]@);
    }
    if i == 10 && j == 36 {
        assert(FONT[10][0]@[1] != FONT[36][0]@[1]);
        assert(FONT[i][0]@ != FONT[j][0]@);
    }
    if i == 11 && j == 12 {
        assert(FONT[11][0]@[4] != FONT[12][0]@[4]);
        assert(FONT[i][0]@ != FONT[j][0]@);
    }
    if i == 11 && j == 13 {
        assert(FONT[11][1]@[1] != FONT[13][1]@[1]);
        assert(FONT[i][1]@ != FONT[j][1]@);
    }
    if i == 11 && j == 14 {
        assert(FONT[11][1]@[1] != FONT[14][1]@[1]);
        assert(FONT[i][1]@ != FONT[j][1]@);
    }
    if i == 11 && j == 15 {
        assert(FONT[11][0]@[0] != FONT[15][0]@[0]);
        assert(FONT[i][0]@ != FONT[j][0]@);
    }
    if i == 11 && j == 16 {
        assert(FONT[11][0]@[1] != FONT[16][0]@[1]);
        assert(FONT[i][0]@ != FONT[j][0]@);
    }
    if i == 11 && j == 17 {
        assert(FONT[11][0]@[0] != FONT[17][0]@[0]);
        assert(FONT[i][0]@ != FONT[j][0]@);
    }
    if i == 11 && j == 18 {
        assert(FONT[11][0]@[1] != FONT[18][0]@[1]);
        assert(FONT[i][0]@ != FONT[j][0]@);
    }
    if i == 11 && j == 19 {
        assert(FONT[11][0]@[0] != FONT[19][0]@[0]);
        assert(FONT[i][0]@ != FONT[j][0]@);
    }
    if i == 11 && j == 20 {
        assert(FONT[11][0]@[1] != FONT[20][0]@[1]);
        assert(FONT[i][0]@ != FONT[j][0]@);
    }
    if i == 11 && j == 21 {
        assert(FONT[11][1]@[3] != FONT[21][1]@[3]);
        assert(FONT[i][1]@ != FONT[j][1]@);
    }
    if i == 11 && j == 22 {
        assert(FONT[11][1]@[3] != FONT[22][1]@[3]);
        assert(FONT[i][1]@ != FONT[j][1]@);
    }
    if i == 11 && j == 23 {
        assert(FONT[11][1]@[3] != FONT[23][1]@[3]);
        assert(FONT[i][1]@ != FONT[j][1]@);
    }
    if i == 11 && j == 24 {
        assert(FONT[11][1]@[3] != FONT[24][1]@[3]);
        assert(FONT[i][1]@ != FONT[j][1]@);
    }
    if i == 11 && j == 25 {
        assert(FONT[11][1]@[3] != FONT[25][1]@[3]);
        assert(FONT[i][1]@ != FONT[j][1]@);
    }
    if i == 11 && j == 26 {
        assert(FONT[11][0]@[1] != FONT[26][0]@[1]);
        assert(FONT[i][0]@ != FONT[j][0]@);
    }
    if i == 11 && j == 27 {
        assert(FONT[11][0]@[0] != FONT[27][0]@[0]);
        assert(FONT[i][0]@ != FONT[j][0]@);
    }
    if i == 11 && j == 28 {
        assert(FONT[11][0]@[0] != FONT[28][0]@[0]);
        assert(FONT[i][0]@ != FONT[j][0]@);
    }
    if i == 11 && j == 29 {
        assert(FONT[11][0]@[0] != FONT[29][0]@[0]);
        assert(FONT[i][0]@ != FONT[j][0]@);
    }
    if i == 11 && j == 30 {
        assert(FONT[11][0]@[1] != FONT[30][0]@[1]);
        assert(FONT[i][0]@ != FONT[j][0]@);
    }
    if i == 11 && j == 31 {
        assert(FONT[11][1]@[3] != FONT[31][1]@[3]);
        assert(FONT[i][1]@ != FONT[j][1]@);
    }
    if i == 11 && j == 32 {
        assert(FONT[11][0]@[1] != FONT[32][0]@[1]);
        assert(FONT[i][0]@ != FONT[j][0]@);
    }
    if i == 11 && j == 33 {
        assert(FONT[11][0]@[0] != FONT[33][0]@[0]);
        assert(FONT[i][0]@ != FONT[j][0]@);
    }
    if i == 11 && j == 34 {
        assert(FONT[11][0]@[1] != FONT[34][0]@[1]);
        assert(FONT[i][0]@ != FONT[j][0]@);
    }
    if i == 11 && j == 35 {
        assert(FONT[11][0]@[0] != FONT[35][0]@[0]);
        assert(FONT[i][0]@ != FONT[j][0]@);
    }
    if i == 11 && j == 36 {
        assert(FONT[11][0]@[0] != FONT[36][0]@[0]);
        assert(FONT[i][0]@ != FONT[j][0]@);
    }
    if i == 12 && j == 13 {
        assert(FONT[12][0]@[4] != FONT[13][0]@[4]);
        assert(FONT[i][0]@ != FONT[j][0]@);
    }
    if i == 12 && j == 14 {
        assert(FONT[12][0]@[4] != FONT[14][0]@[4]);
        assert(FONT[i][0]@ != FONT[j][0]@);
    }
    if i == 12 && j == 15 {
        assert(FONT[12][0]@[0] != FONT[15][0]@[0]);
        assert(FONT[i][0]@ != FONT[j][0]@);
    }
    if i == 12 && j == 16 {
        assert(FONT[12][0]@[1] != FONT[16][0]@[1]);
        assert(FONT[i][0]@ != FONT[j][0]@);
    }
    if i == 12 && j == 17 {
        assert(FONT[12][0]@[0] != FONT[17][0]@[0]);
        assert(FONT[i][0]@ != FONT[j][0]@);
    }
    if i == 12 && j == 18 {
        assert(FONT[12][0]@[1] != FONT[18][0]@[1]);
        assert(FONT[i][0]@ != FONT[j][0]@);
    }
    if i == 12 && j == 19 {
        assert(FONT[12][0]@[0] != FONT[19][0]@[0]);
        assert(FONT[i][0]@ != FONT[j][0]@);
    }
    if i == 12 && j == 20 {
        assert(FONT[12][0]@[1] != FONT[20][0]@[1]);
        assert(FONT[i][0]@ != FONT[j][0]@);
    }
    if i == 12 && j == 21 {
        assert(FONT[12][0]@[4] != FONT[21][0]@[4]);
        assert(FONT[i][0]@ != FONT[j][0]@);
    }
    if i == 12 && j == 22 {
        assert(FONT[12][0]@[4] != FONT[22][0]@[4]);
        assert(FONT[i][0]@ != FONT[j][0]@);
    }
    if i == 12 && j == 23 {
        assert(FONT[12][0]@[4] != FONT[23][0]@[4]);
        assert(FONT[i][0]@ != FONT[j][0]@);
    }
    if i == 12 && j == 24 {
        assert(FONT[12][0]@[4] != FONT[24][0]@[4]);
        assert(FONT[i][0]@ != FONT[j][0]@);
    }
    if i == 12 && j == 25 {
        assert(FONT[12][0]@[4] != FONT[25][0]@[4]);
        assert(FONT[i][0]@ != FONT[j][0]@);
    }
    if i == 12 && j == 26 {
        assert(FONT[12][0]@[1] != FONT[26][0]@[1]);
        assert(FONT[i][0]@ != FONT[j][0]@);
    }
    if i == 12 && j == 27 {
        assert(FONT[12][0]@[0] != FONT[27][0]@[0]);
        assert(FONT[i][0]@ != FONT[j][0]@);
    }
    if i == 12 && j == 28 {
        assert(FONT[12][0]@[0] != FONT[28][0]@[0]);
        assert(FONT[i][0]@ != FONT[j][0]@);
    }
    if i == 12 && j == 29 {
        assert(FONT[12][0]@[0] != FONT[29][0]@[0]);
        assert(FONT[i][0]@ != FONT[j][0]@);
    }
    if i == 12 && j == 30 {
        assert(FONT[12][0]@[1] != FONT[30][0]@[1]);
        assert(FONT[i][0]@ != FONT[j][0]@);
    }
    if i == 12 && j == 31 {
        assert(FONT[12][0]@[4] != FONT[31][0]@[4]);
        assert(FONT[i][0]@ != FONT[j][0]@);
    }
    if i == 12 && j == 32 {
        assert(FONT[12][0]@[1] != FONT[32][0]@[1]);
        assert(FONT[i][0]@ != FONT[j][0]@);
    }
    if i == 12 && j == 33 {
        assert(FONT[12][0]@[0] != FONT[33][0]@[0]);
        assert(FONT[i][0]@ != FONT[j][0]@);
    }
    if i == 12 && j == 34 {
        assert(FONT[12][0]@[1] != FONT[34][0]@[1]);
        assert(FONT[i][0]@ != FONT[j][0]@);
    }
    if i == 12 && j == 35 {
        assert(FONT[12][0]@[0] != FONT[35][0]@[0]);
        assert(FONT[i][0]@ != FONT[j][0]@);
    }
    if i == 12 && j == 36 {
        assert(FONT[12][0]@[0] != FONT[36][0]@[0]);
        assert(FONT[i][0]@ != FONT[j][0]@);
    }
    if i == 13 && j == 14 {
        assert(FONT[13][1]@[3] != FONT[14][1]@[3]);
        assert(FONT[i][1]@ != FONT[j][1]@);
    }
    if i == 13 && j == 15 {
        assert(FONT[13][0]@[0] != FONT[15][0]@[0]);
        assert(FONT[i][0]@ != FONT[j][0]@);
    }
    if i == 13 && j == 16 {
        assert(FONT[13][0]@[1] != FONT[16][0]@[1]);
        assert(FONT[i][0]@ != FONT[j][0]@);
    }
    if i == 13 && j == 17 {
        assert(FONT[13][0]@[0] != FONT[17][0]@[0]);
        assert(FONT[i][0]@ != FONT[j][0]@);
    }
    if i == 13 && j == 18 {
        assert(FONT[13][0]@[1] != FONT[18][0]@[1]);
        assert(FONT[i][0]@ != FONT[j][0]@);
    }
    if i == 13 && j == 19 {
        assert(FONT[13][0]@[0] != FONT[19][0]@[0]);
        assert(FONT[i][0]@ != FONT[j][0]@);
    }
    if i == 13 && j == 20 {
        assert(FONT[13][0]@[1] != FONT[20][0]@[1]);
        assert(FONT[i][0]@ != FONT[j][0]@);
    }
    if i == 13 && j == 21 {
        assert(FONT[13][1]@[1] != FONT[21][1]@[1]);
        assert(FONT[i][1]@ != FONT[j][1]@);
    }
    if i == 13 && j == 22 {
        assert(FONT[13][1]@[1] != FONT[22][1]@[1]);
        assert(FONT[i][1]@ != FONT[j][1]@);
    }
    if i == 13 && j == 23 {
        assert(FONT[13][1]@[1] != FONT[23][1]@[1]);
        assert(FONT[i][1]@ != FONT[j][1]@);
    }
    if i == 13 && j == 24 {
        assert(FONT[13][1]@[1] != FONT[24][1]@[1]);
        assert(FONT[i][1]@ != FONT[j][1]@);
    }
    if i == 13 && j == 25 {
        assert(FONT[13][1]@[1] != FONT[25][1]@[1]);
        assert(FONT[i][1]@ != FONT[j][1]@);
    }
    if i == 13 && j == 26 {
        assert(FONT[13][0]@[1] != FONT[26][0]@[1]);
        assert(FONT[i][0]@ != FONT[j][0]@);
    }
    if i == 13 && j == 27 {
        assert(FONT[13][0]@[0] != FONT[27][0]@[0]);
        assert(FONT[i][0]@ != FONT[j][0]@);
    }
    if i == 13 && j == 28 {
        assert(FONT[13][0]@[0] != FONT[28][0]@[0]);
        assert(FONT[i][0]@ != FONT[j][0]@);
    }
    if i == 13 && j == 29 {
        assert(FONT[13][0]@[0] != FONT[29][0]@[0]);
        assert(FONT[i][0]@ != FONT[j][0]@);
    }
    if i == 13 && j == 30 {
        assert(FONT[13][0]@[1] != FONT[30][0]@[1]);
        assert(FONT[i][0]@ != FONT[j][0]@);
    }
    if i == 13 && j == 31 {
        assert(FONT[13][1]@[1] != FONT[31][1]@[1]);
        assert(FONT[i][1]@ != FONT[j][1]@);
    }
    if i == 13 && j == 32 {
        assert(FONT[13][0]@[1] != FONT[32][0]@[1]);
        assert(FONT[i][0]@ != FONT[j][0]@);
    }
    if i == 13 && j == 33 {
        assert(FONT[13][0]@[0] != FONT[33][0]@[0]);
        assert(FONT[i][0]@ != FONT[j][0]@);
    }
    if i == 13 && j == 34 {
        assert(FONT[13][0]@[1] != FONT[34][0]@[1]);
        assert(FONT[i][0]@ != FONT[j][0]@);
    }
    if i == 13 && j == 35 {
        assert(FONT[13][0]@[0] != FONT[35][0]@[0]);
        assert(FONT[i][0]@ != FONT[j][0]@);
    }
    if i == 13 && j == 36 {
        assert(FONT[13][0]@[0] != FONT[36][0]@[0]);
        assert(FONT[i][0]@ != FONT[j][0]@);
    }
    if i == 14 && j == 15 {
        assert(FONT[14][0]@[0] != FONT[15][0]@[0]);
        assert(FONT[i][0]@ != FONT[j][0]@);
    }
    if i == 14 && j == 16 {
        assert(FONT[14][0]@[1] != FONT[16][0]@[1]);
        assert(FONT[i][0]@ != FONT[j][0]@);
    }
    if i == 14 && j == 17 {
        assert(FONT[14][0]@[0] != FONT[17][0]@[0]);
        assert(FONT[i][0]@ != FONT[j][0]@);
    }
    if i == 14 && j == 18 {
        assert(FONT[14][0]@[1] != FONT[18][0]@[1]);
        assert(FONT[i][0]@ != FONT[j][0]@);
    }
    if i == 14 && j == 19 {
        assert(FONT[14][0]@[0] != FONT[19][0]@[0]);
        assert(FONT[i][0]@ != FONT[j][0]@);
    }
    if i == 14 && j == 20 {
        assert(FONT[14][0]@[1] != FONT[20][0]@[1]);
        assert(FONT[i][0]@ != FONT[j][0]@);
    }
    if i == 14 && j == 21 {
        assert(FONT[14][1]@[1] != FONT[21][1]@[1]);
        assert(FONT[i][1]@ != FONT[j][1]@);
    }
    if i == 14 && j == 22 {
        assert(FONT[14][1]@[1] != FONT[22][1]@[1]);
        assert(FONT[i][1]@ != FONT[j][1]@);
    }
    if i == 14 && j == 23 {
        assert(FONT[14][1]@[1] != FONT[23][1]@[1]);
        assert(FONT[i][1]@ != FONT[j][1]@);
    }
    if i == 14 && j == 24 {
        assert(FONT[14][1]@[1] != FONT[24][1]@[1]);
        assert(FONT[i][1]@ != FONT[j][1]@);
    }
    if i == 14 && j == 25 {
        assert(FONT[14][1]@[1] != FONT[25][1]@[1]);
        assert(FONT[i][1]@ != FONT[j][1]@);
    }
    if i == 14 && j == 26 {
        assert(FONT[14][0]@[1] != FONT[26][0]@[1]);
        assert(FONT[i][0]@ != FONT[j][0]@);
    }
    if i == 14 && j == 27 {
        assert(FONT[14][0]@[0] != FONT[27][0]@[0]);
        assert(FONT[i][0]@ != FONT[j][0]@);
    }
    if i == 14 && j == 28 {
        assert(FONT[14][0]@[0] != FONT[28][0]@[0]);
        assert(FONT[i][0]@ != FONT[j][0]@);
    }
    if i == 14 && j == 29 {
        assert(FONT[14][0]@[0] != FONT[29][0]@[0]);
        assert(FONT[i][0]@ != FONT[j][0]@);
    }
    if i == 14 && j == 30 {
        assert(FONT[14][0]@[1] != FONT[30][0]@[1]);
        assert(FONT[i][0]@ != FONT[j][0]@);
    }
    if i == 14 && j == 31 {
        assert(FONT[14][1]@[1] != FONT[31][1]@[1]);
        assert(FONT[i][1]@ != FONT[j][1]@);
    }
    if i == 14 && j == 32 {
        assert(FONT[14][0]@[1] != FONT[32][0]@[1]);
        assert(FONT[i][0]@ != FONT[j][0]@);
    }
    if i == 14 && j == 33 {
        assert(FONT[14][0]@[0] != FONT[33][0]@[0]);
        assert(FONT[i][0]@ != FONT[j][0]@);
    }
    if i == 14 && j == 34 {
        assert(FONT[14][0]@[1] != FONT[34][0]@[1]);
        assert(FONT[i][0]@ != FONT[j][0]@);
    }
    if i == 14 && j == 35 {
        assert(FONT[14][0]@[0] != FONT[35][0]@[0]);
        assert(FONT[i][0]@ != FONT[j][0]@);
    }
    if i == 14 && j == 36 {
        assert(FONT[14][0]@[0] != FONT[36][0]@[0]);
        assert(FONT[i][0]@ != FONT[j][0]@);
    }
    if i == 15 && j == 16 {
        assert(FONT[15][0]@[0] != FONT[16][0]@[0]);
        assert(FONT[i][0]@ != FONT[j][0]@);
    }
    if i == 15 && j == 17 {
        assert(FONT[15][4]@[2] != FONT[17][4]@[2]);
        assert(FONT[i][4]@ != FONT[j][4]@);
    }
    if i == 15 && j == 18 {
        assert(FONT[15][0]@[0] != FONT[18][0]@[0]);
        assert(FONT[i][0]@ != FONT[j][0]@);
    }
    if i == 15 && j == 19 {
        assert(FONT[15][0]@[4] != FONT[19][0]@[4]);
        assert(FONT[i][0]@ != FONT[j][0]@);
    }
    if i == 15 && j == 20 {
        assert(FONT[15][0]@[0] != FONT[20][0]@[0]);
        assert(FONT[i][0]@ != FONT[j][0]@);
    }
    if i == 15 && j == 21 {
        assert(FONT[15][0]@[0] != FONT[21][0]@[0]);
        assert(FONT[i][0]@ != FONT[j][0]@);
    }
    if i == 15 && j == 22 {
        assert(FONT[15][0]@[0] != FONT[22][0]@[0]);
        assert(FONT[i][0]@ != FONT[j][0]@);
    }
    if i == 15 && j == 23 {
        assert(FONT[15][0]@[0] != FONT[23][0]@[0]);
        assert(FONT[i][0]@ != FONT[j][0]@);
    }
    if i == 15 && j == 24 {
        assert(FONT[15][0]@[0] != FONT[24][0]@[0]);
        assert(FONT[i][0]@ != FONT[j][0]@);
    }
    if i == 15 && j == 25 {
        assert(FONT[15][0]@[0] != FONT[25][0]@[0]);
        assert(FONT[i][0]@ != FONT[j][0]@);
    }
    if i == 15 && j == 26 {
        assert(FONT[15][0]@[0] != FONT[26][0]@[0]);
        assert(FONT[i][0]@ != FONT[j][0]@);
    }
    if i == 15 && j == 27 {
        assert(FONT[15][1]@[3] != FONT[27][1]@[3]);
        assert(FONT[i][1]@ != FONT[j][1]@);
    }
    if i == 15 && j == 28 {
        assert(FONT[15][0]@[1] != FONT[28][0]@[1]);
        assert(FONT[i][0]@ != FONT[j][0]@);
    }
    if i == 15 && j == 29 {
        assert(FONT[15][2]@[0] != FONT[29][2]@[0]);
        assert(FONT[i][2]@ != FONT[j][2]@);
    }
    if i == 15 && j == 30 {
        assert(FONT[15][0]@[0] != FONT[30][0]@[0]);
        assert(FONT[i][0]@ != FONT[j][0]@);
    }
    if i == 15 && j == 31 {
        assert(FONT[15][0]@[0] != FONT[31][0]@[0]);
        assert(FONT[i][0]@ != FONT[j][0]@);
    }
    if i == 15 && j == 32 {
        assert(FONT[15][0]@[0] != FONT[32][0]@[0]);
        assert(FONT[i][0]@ != FONT[j][0]@);
    }
    if i == 15 && j == 33 {
        assert(FONT[15][1]@[4] != FONT[33][1]@[4]);
        assert(FONT[i][1]@ != FONT[j][1]@);
    }
    if i == 15 && j == 34 {
        assert(FONT[15][0]@[0] != FONT[34][0]@[0]);
        assert(FONT[i][0]@ != FONT[j][0]@);
    }
    if i == 15 && j == 35 {
        assert(FONT[15][3]@[0] != FONT[35][3]@[0]);
        assert(FONT[i][3]@ != FONT[j][3]@);
    }
    if i == 15 && j == 36 {
        assert(FONT[15][3]@[0] != FONT[36][3]@[0]);
        assert(FONT[i][3]@ != FONT[j][3]@);
    }
    if i == 16 && j == 17 {
        assert(FONT[16][0]@[0] != FONT[17][0]@[0]);
        assert(FONT[i][0]@ != FONT[j][0]@);
    }
    if i == 16 && j == 18 {
        assert(FONT[16][4]@[2] != FONT[18][4]@[2]);
        assert(FONT[i][4]@ != FONT[j][4]@);
    }
    if i == 16 && j == 19 {
        assert(FONT[16][0]@[0] != FONT[19][0]@[0]);
        assert(FONT[i][0]@ != FONT[j][0]@);
    }
    if i == 16 && j == 20 {
        assert(FONT[16][0]@[4] != FONT[20][0]@[4]);
        assert(FONT[i][0]@ != FONT[j][0]@);
    }
    if i == 16 && j == 21 {
        assert(FONT[16][0]@[1] != FONT[21][0]@[1]);
        assert(FONT[i][0]@ != FONT[j][0]@);
    }
    if i == 16 && j == 22 {
        assert(FONT[16][0]@[1] != FONT[22][0]@[1]);
        assert(FONT[i][0]@ != FONT[j][0]@);
    }
    if i == 16 && j == 23 {
        assert(FONT[16][0]@[1] != FONT[23][0]@[1]);
        assert(FONT[i][0]@ != FONT[j][0]@);
    }
    if i == 16 && j == 24 {
        assert(FONT[16][0]@[1] != FONT[24][0]@[1]);
        assert(FONT[i][0]@ != FONT[j][0]@);
    }
    if i == 16 && j == 25 {
        assert(FONT[16][0]@[1] != FONT[25][0]@[1]);
        assert(FONT[i][0]@ != FONT[j][0]@);
    }
    if i == 16 && j == 26 {
        assert(FONT[16][0]@[4] != FONT[26][0]@[4]);
        assert(FONT[i][0]@ != FONT[j][0]@);
    }
    if i == 16 && j == 27 {
        assert(FONT[16][0]@[0] != FONT[27][0]@[0]);
        assert(FONT[i][0]@ != FONT[j][0]@);
    }
    if i == 16 && j == 28 {
        assert(FONT[16][0]@[0] != FONT[28][0]@[0]);
        assert(FONT[i][0]@ != FONT[j][0]@);
    }
    if i == 16 && j == 29 {
        assert(FONT[16][0]@[0] != FONT[29][0]@[0]);
        assert(FONT[i][0]@ != FONT[j][0]@);
    }
    if i == 16 && j == 30 {
        assert(FONT[16][1]@[0] != FONT[30][1]@[0]);
        assert(FONT[i][1]@ != FONT[j][1]@);
    }
    if i == 16 && j == 31 {
        assert(FONT[16][0]@[1] != FONT[31][0]@[1]);
        assert(FONT[i][0]@ != FONT[j][0]@);
    }
    if i == 16 && j == 32 {
        assert(FONT[16][0]@[4] != FONT[32][0]@[4]);
        assert(FONT[i][0]@ != FONT[j][0]@);
    }
    if i == 16 && j == 33 {
        assert(FONT[16][0]@[0] != FONT[33][0]@[0]);
        assert(FONT[i][0]@ != FONT[j][0]@);
    }
    if i == 16 && j == 34 {
        assert(FONT[16][0]@[4] != FONT[34][0]@[4]);
        assert(FONT[i][0]@ != FONT[j][0]@);
    }
    if i == 16 && j == 35 {
        assert(FONT[16][0]@[0] != FONT[35][0]@[0]);
        assert(FONT[i][0]@ != FONT[j][0]@);
    }
    if i == 16 && j == 36 {
        assert(FONT[16][0]@[0] != FONT[36][0]@[0]);
        assert(FONT[i][0]@ != FONT[j][0]@);
    }
    if i == 17 && j == 18 {
        assert(FONT[17][0]@[0] != FONT[18][0]@[0]);
        assert(FONT[i][0]@ != FONT[j][0]@);
    }
    if i == 17 && j == 19 {
        assert(FONT[17][0]@[4] != FONT[19][0]@[4]);
        assert(FONT[i][0]@ != FONT[j][0]@);
    }
    if i == 17 && j == 20 {
        assert(FONT[17][0]@[0] != FONT[20][0]@[0]);
        assert(FONT[i][0]@ != FONT[j][0]@);
    }
    if i == 17 && j == 21 {
        assert(FONT[17][0]@[0] != FONT[21][0]@[0]);
        assert(FONT[i][0]@ != FONT[j][0]@);
    }
    if i == 17 && j == 22 {
        assert(FONT[17][0]@[0] != FONT[22][0]@[0]);
        assert(FONT[i][0]@ != FONT[j][0]@);
    }
    if i == 17 && j == 23 {
        assert(FONT[17][0]@[0] != FONT[23][0]@[0]);
        assert(FONT[i][0]@ != FONT[j][0]@);
    }
    if i == 17 && j == 24 {
        assert(FONT[17][0]@[0] != FONT[24][0]@[0]);
        assert(FONT[i][0]@ != FONT[j][0]@);
    }
    if i == 17 && j == 25 {
        assert(FONT[17][0]@[0] != FONT[25][0]@[0]);
        assert(FONT[i][0]@ != FONT[j][0]@);
    }
    if i == 17 && j == 26 {
        assert(FONT[17][0]@[0] != FONT[26][0]@[0]);
        assert(FONT[i][0]@ != FONT[j][0]@);
    }
    if i == 17 && j == 27 {
        assert(FONT[17][1]@[3] != FONT[27][1]@[3]);
        assert(FONT[i][1]@ != FONT[j][1]@);
    }
    if i == 17 && j == 28 {
        assert(FONT[17][0]@[1] != FONT[28][0]@[1]);
        assert(FONT[i][0]@ != FONT[j][0]@);
    }
    if i == 17 && j == 29 {
        assert(FONT[17][2]@[0] != FONT[29][2]@[0]);
        assert(FONT[i][2]@ != FONT[j][2]@);
    }
    if i == 17 && j == 30 {
        assert(FONT[17][0]@[0] != FONT[30][0]@[0]);
        assert(FONT[i][0]@ != FONT[j][0]@);
    }
    if i == 17 && j == 31 {
        assert(FONT[17][0]@[0] != FONT[31][0]@[0]);
        assert(FONT[i][0]@ != FONT[j][0]@);
    }
    if i == 17 && j == 32 {
        assert(FONT[17][0]@[0] != FONT[32][0]@[0]);
        assert(FONT[i][0]@ != FONT[j][0]@);
    }
    if i == 17 && j == 33 {
        assert(FONT[17][1]@[4] != FONT[33][1]@[4]);
        assert(FONT[i][1]@ != FONT[j][1]@);
    }
    if i == 17 && j == 34 {
        assert(FONT[17][0]@[0] != FONT[34][0]@[0]);
        assert(FONT[i][0]@ != FONT[j][0]@);
    }
    if i == 17 && j == 35 {
        assert(FONT[17][3]@[0] != FONT[35][3]@[0]);
        assert(FONT[i][3]@ != FONT[j][3]@);
    }
    if i == 17 && j == 36 {
        assert(FONT[17][3]@[0] != FONT[36][3]@[0]);
        assert(FONT[i][3]@ != FONT[j][3]@);
    }
    if i == 18 && j == 19 {
        assert(FONT[18][0]@[0] != FONT[19][0]@[0]);
        assert(FONT[i][0]@ != FONT[j][0]@);
    }
    if i == 18 && j == 20 {
        assert(FONT[18][0]@[4] != FONT[20][0]@[4]);
        assert(FONT[i][0]@ != FONT[j][0]@);
    }
    if i == 18 && j == 21 {
        assert(FONT[18][0]@[1] != FONT[21][0]@[1]);
        assert(FONT[i][0]@ != FONT[j][0]@);
    }
    if i == 18 && j == 22 {
        assert(FONT[18][0]@[1] != FONT[22][0]@[1]);
        assert(FONT[i][0]@ != FONT[j][0]@);
    }
    if i == 18 && j == 23 {
        assert(FONT[18][0]@[1] != FONT[23][0]@[1]);
        assert(FONT[i][0]@ != FONT[j][0]@);
    }
    if i == 18 && j == 24 {
        assert(FONT[18][0]@[1] != FONT[24][0]@[1]);
        assert(FONT[i][0]@ != FONT[j][0]@);
    }
    if i == 18 && j == 25 {
        assert(FONT[18][0]@[1] != FONT[25][0]@[1]);
        assert(FONT[i][0]@ != FONT[j][0]@);
    }
    if i == 18 && j == 26 {
        assert(FONT[18][0]@[4] != FONT[26][0]@[4]);
        assert(FONT[i][0]@ != FONT[j][0]@);
    }
    if i == 18 && j == 27 {
        assert(FONT[18][0]@[0] != FONT[27][0]@[0]);
        assert(FONT[i][0]@ != FONT[j][0]@);
    }
    if i == 18 && j == 28 {
        assert(FONT[18][0]@[0] != FONT[28][0]@[0]);
        assert(FONT[i][0]@ != FONT[j][0]@);
    }
    if i == 18 && j == 29 {
        assert(FONT[18][0]@[0] != FONT[29][0]@[0]);
        assert(FONT[i][0]@ != FONT[j][0]@);
    }
    if i == 18 && j == 30 {
        assert(FONT[18][1]@[0] != FONT[30][1]@[0]);
        assert(FONT[i][1]@ != FONT[j][1]@);
    }
    if i == 18 && j == 31 {
        assert(FONT[18][0]@[1] != FONT[31][0]@[1]);
        assert(FONT[i][0]@ != FONT[j][0]@);
    }
    if i == 18 && j == 32 {
        assert(FONT[18][0]@[4] != FONT[32][0]@[4]);
        assert(FONT[i][0]@ != FONT[j][0]@);
    }
    if i == 18 && j == 33 {
        assert(FONT[18][0]@[0] != FONT[33][0]@[0]);
        assert(FONT[i][0]@ != FONT[j][0]@);
    }
    if i == 18 && j == 34 {
        assert(FONT[18][0]@[4] != FONT[34][0]@[4]);
        assert(FONT[i][0]@ != FONT[j][0]@);
    }
    if i == 18 && j == 35 {
        assert(FONT[18][0]@[0] != FONT[35][0]@[0]);
        assert(FONT[i][0]@ != FONT[j][0]@);
    }
    if i == 18 && j == 36 {
        assert(FONT[18][0]@[0] != FONT[36][0]@[0]);
        assert(FONT[i][0]@ != FONT[j][0]@);
    }
    if i == 19 && j == 20 {
        assert(FONT[19][0]@[0] != FONT[20][0]@[0]);
        assert(FONT[i][0]@ != FONT[j][0]@);
    }
    if i == 19 && j == 21 {
        assert(FONT[19][0]@[0] != FONT[21][0]@[0]);
        assert(FONT[i][0]@ != FONT[j][0]@);
    }
    if i == 19 && j == 22 {
        assert(FONT[19][0]@[0] != FONT[22][0]@[0]);
        assert(FONT[i][0]@ != FONT[j][0]@);
    }
    if i == 19 && j == 23 {
        assert(FONT[19][0]@[0] != FONT[23][0]@[0]);
        assert(FONT[i][0]@ != FONT[j][0]@);
    }
    if i == 19 && j == 24 {
        assert(FONT[19][0]@[0] != FONT[24][0]@[0]);
        assert(FONT[i][0]@ != FONT[j][0]@);
    }
    if i == 19 && j == 25 {
        assert(FONT[19][0]@[0] != FONT[25][0]@[0]);
        assert(FONT[i][0]@ != FONT[j][0]@);
    }
    if i == 19 && j == 26 {
        assert(FONT[19][0]@[0] != FONT[26][0]@[0]);
        assert(FONT[i][0]@ != FONT[j][0]@);
    }
    if i == 19 && j == 27 {
        assert(FONT[19][0]@[4] != FONT[27][0]@[4]);
        assert(FONT[i][0]@ != FONT[j][0]@);
    }
    if i == 19 && j == 28 {
        assert(FONT[19][0]@[1] != FONT[28][0]@[1]);
        assert(FONT[i][0]@ != FONT[j][0]@);
    }
    if i == 19 && j == 29 {
        assert(FONT[19][0]@[4] != FONT[29][0]@[4]);
        assert(FONT[i][0]@ != FONT[j][0]@);
    }
    if i == 19 && j == 30 {
        assert(FONT[19][0]@[0] != FONT[30][0]@[0]);
        assert(FONT[i][0]@ != FONT[j][0]@);
    }
    if i == 19 && j == 31 {
        assert(FONT[19][0]@[0] != FONT[31][0]@[0]);
        assert(FONT[i][0]@ != FONT[j][0]@);
    }
    if i == 19 && j == 32 {
        assert(FONT[19][0]@[0] != FONT[32][0]@[0]);
        assert(FONT[i][0]@ != FONT[j][0]@);
    }
    if i == 19 && j == 33 {
        assert(FONT[19][0]@[4] != FONT[33][0]@[4]);
        assert(FONT[i][0]@ != FONT[j][0]@);
    }
    if i == 19 && j == 34 {
        assert(FONT[19][0]@[0] != FONT[34][0]@[0]);
        assert(FONT[i][0]@ != FONT[j][0]@);
    }
    if i == 19 && j == 35 {
        assert(FONT[19][0]@[4] != FONT[35][0]@[4]);
        assert(FONT[i][0]@ != FONT[j][0]@);
    }
    if i == 19 && j == 36 {
        assert(FONT[19][0]@[4] != FONT[36][0]@[4]);
        assert(FONT[i][0]@ != FONT[j][0]@);
    }
    if i == 20 && j == 21 {
        assert(FONT[20][0]@[1] != FONT[21][0]@[1]);
        assert(FONT[i][0]@ != FONT[j][0]@);
    }
    if i == 20 && j == 22 {
        assert(FONT[20][0]@[1] != FONT[22][0]@[1]);
        assert(FONT[i][0]@ != FONT[j][0]@);
    }
    if i == 20 && j == 23 {
        assert(FONT[20][0]@[1] != FONT[23][0]@[1]);
        assert(FONT[i][0]@ != FONT[j][0]@);
    }
    if i == 20 && j == 24 {
        assert(FONT[20][0]@[1] != FONT[24][0]@[1]);
        assert(FONT[i][0]@ != FONT[j][0]@);
    }
    if i == 20 && j == 25 {
        assert(FONT[20][0]@[1] != FONT[25][0]@[1]);
        assert(FONT[i][0]@ != FONT[j][0]@);
    }
    if i == 20 && j == 26 {
        assert(FONT[20][1]@[2] != FONT[26][1]@[2]);
        assert(FONT[i][1]@ != FONT[j][1]@);
    }
    if i == 20 && j == 27 {
        assert(FONT[20][0]@[0] != FONT[27][0]@[0]);
        assert(FONT[i][0]@ != FONT[j][0]@);
    }
    if i == 20 && j == 28 {
        assert(FONT[20][0]@[0] != FONT[28][0]@[0]);
        assert(FONT[i][0]@ != FONT[j][0]@);
    }
    if i == 20 && j == 29 {
        assert(FONT[20][0]@[0] != FONT[29][0]@[0]);
        assert(FONT[i][0]@ != FONT[j][0]@);
    }
    if i == 20 && j == 30 {
        assert(FONT[20][0]@[4] != FONT[30][0]@[4]);
        assert(FONT[i][0]@ != FONT[j][0]@);
    }
    if i == 20 && j == 31 {
        assert(FONT[20][0]@[1] != FONT[31][0]@[1]);
        assert(FONT[i][0]@ != FONT[j][0]@);
    }
    if i == 20 && j == 32 {
        assert(FONT[20][1]@[0] != FONT[32][1]@[0]);
        assert(FONT[i][1]@ != FONT[j][1]@);
    }
    if i == 20 && j == 33 {
        assert(FONT[20][0]@[0] != FONT[33][0]@[0]);
        assert(FONT[i][0]@ != FONT[j][0]@);
    }
    if i == 20 && j == 34 {
        assert(FONT[20][1]@[2] != FONT[34][1]@[2]);
        assert(FONT[i][1]@ != FONT[j][1]@);
    }
    if i == 20 && j == 35 {
        assert(FONT[20][0]@[0] != FONT[35][0]@[0]);
        assert(FONT[i][0]@ != FONT[j][0]@);
    }
    if i == 20 && j == 36 {
        assert(FONT[20][0]@[0] != FONT[36][0]@[0]);
        assert(FONT[i][0]@ != FONT[j][0]@);
    }
    if i == 21 && j == 22 {
        assert(FONT[21][5]@[0] != FONT[22][5]@[0]);
        assert(FONT[i][5]@ != FONT[j][5]@);
    }
    if i == 21 && j == 23 {
        assert(FONT[21][3]@[2] != FONT[23][3]@[2]);
        assert(FONT[i][3]@ != FONT[j][3]@);
    }
    if i == 21 && j == 24 {
        assert(FONT[21][2]@[0] != FONT[24][2]@[0]);
        assert(FONT[i][2]@ != FONT[j][2]@);
    }
    if i == 21 && j == 25 {
        assert(FONT[21][2]@[0] != FONT[25][2]@[0]);
        assert(FONT[i][2]@ != FONT[j][2]@);
    }
    if i == 21 && j == 26 {
        assert(FONT[21][0]@[1] != FONT[26][0]@[1]);
        assert(FONT[i][0]@ != FONT[j][0]@);
    }
    if i == 21 && j == 27 {
        assert(FONT[21][0]@[0] != FONT[27][0]@[0]);
        assert(FONT[i][0]@ != FONT[j][0]@);
    }
    if i == 21 && j == 28 {
        assert(FONT[21][0]@[0] != FONT[28][0]@[0]);
        assert(FONT[i][0]@ != FONT[j][0]@);
    }
    if i == 21 && j == 29 {
        assert(FONT[21][0]@[0] != FONT[29][0]@[0]);
        assert(FONT[i][0]@ != FONT[j][0]@);
    }
    if i == 21 && j == 30 {
        assert(FONT[21][0]@[1] != FONT[30][0]@[1]);
        assert(FONT[i][0]@ != FONT[j][0]@);
    }
    if i == 21 && j == 31 {
        assert(FONT[21][3]@[1] != FONT[31][3]@[1]);
        assert(FONT[i][3]@ != FONT[j][3]@);
    }
    if i == 21 && j == 32 {
        assert(FONT[21][0]@[1] != FONT[32][0]@[1]);
        assert(FONT[i][0]@ != FONT[j][0]@);
    }
    if i == 21 && j == 33 {
        assert(FONT[21][0]@[0] != FONT[33][0]@[0]);
        assert(FONT[i][0]@ != FONT[j][0]@);
    }
    if i == 21 && j == 34 {
        assert(FONT[21][0]@[1] != FONT[34][0]@[1]);
        assert(FONT[i][0]@ != FONT[j][0]@);
    }
    if i == 21 && j == 35 {
        assert(FONT[21][0]@[0] != FONT[35][0]@[0]);
        assert(FONT[i][0]@ != FONT[j][0]@);
    }
    if i == 21 && j == 36 {
        assert(FONT[21][0]@[0] != FONT[36][0]@[0]);
        assert(FONT[i][0]@ != FONT[j][0]@);
    }
    if i == 22 && j == 23 {
        assert(FONT[22][3]@[2] != FONT[23][3]@[2]);
        assert(FONT[i][3]@ != FONT[j][3]@);
    }
    if i == 22 && j == 24 {
        assert(FONT[22][2]@[0] != FONT[24][2]@[0]);
        assert(FONT[i][2]@ != FONT[j][2]@);
    }
    if i == 22 && j == 25 {
        assert(FONT[22][2]@[0] != FONT[25][2]@[0]);
        assert(FONT[i][2]@ != FONT[j][2]@);
    }
    if i == 22 && j == 26 {
        assert(FONT[22][0]@[1] != FONT[26][0]@[1]);
        assert(FONT[i][0]@ != FONT[j][0]@);
    }
    if i == 22 && j == 27 {
        assert(FONT[22][0]@[0] != FONT[27][0]@[0]);
        assert(FONT[i][0]@ != FONT[j][0]@);
    }
    if i == 22 && j == 28 {
        assert(FONT[22][0]@[0] != FONT[28][0]@[0]);
        assert(FONT[i][0]@ != FONT[j][0]@);
    }
    if i == 22 && j == 29 {
        assert(FONT[22][0]@[0] != FONT[29][0]@[0]);
        assert(FONT[i][0]@ != FONT[j][0]@);
    }
    if i == 22 && j == 30 {
        assert(FONT[22][0]@[1] != FONT[30][0]@[1]);
        assert(FONT[i][0]@ != FONT[j][0]@);
    }
    if i == 22 && j == 31 {
        assert(FONT[22][3]@[1] != FONT[31][3]@[1]);
        assert(FONT[i][3]@ != FONT[j][3]@);
    }
    if i == 22 && j == 32 {
        assert(FONT[22][0]@[1] != FONT[32][0]@[1]);
        assert(FONT[i][0]@ != FONT[j][0]@);
    }
    if i == 22 && j == 33 {
        assert(FONT[22][0]@[0] != FONT[33][0]@[0]);
        assert(FONT[i][0]@ != FONT[j][0]@);
    }
    if i == 22 && j == 34 {
        assert(FONT[22][0]@[1] != FONT[34][0]@[1]);
        assert(FONT[i][0]@ != FONT[j][0]@);
    }
    if i == 22 && j == 35 {
        assert(FONT[22][0]@[0] != FONT[35][0]@[0]);
        assert(FONT[i][0]@ != FONT[j][0]@);
    }
    if i == 22 && j == 36 {
        assert(FONT[22][0]@[0] != FONT[36][0]@[0]);
        assert(FONT[i][0]@ != FONT[j][0]@);
    }
    if i == 23 && j == 24 {
        assert(FONT[23][2]@[0] != FONT[24][2]@[0]);
        assert(FONT[i][2]@ != FONT[j][2]@);
    }
    if i == 23 && j == 25 {
        assert(FONT[23][2]@[0] != FONT[25][2]@[0]);
        assert(FONT[i][2]@ != FONT[j][2]@);
    }
    if i == 23 && j == 26 {
        assert(FONT[23][0]@[1] != FONT[26][0]@[1]);
        assert(FONT[i][0]@ != FONT[j][0]@);
    }
    if i == 23 && j == 27 {
        assert(FONT[23][0]@[0] != FONT[27][0]@[0]);
        assert(FONT[i][0]@ != FONT[j][0]@);
    }
    if i == 23 && j == 28 {
        assert(FONT[23][0]@[0] != FONT[28][0]@[0]);
        assert(FONT[i][0]@ != FONT[j][0]@);
    }
    if i == 23 && j == 29 {
        assert(FONT[23][0]@[0] != FONT[29][0]@[0]);
        assert(FONT[i][0]@ != FONT[j][0]@);
    }
    if i == 23 && j == 30 {
        assert(FONT[23][0]@[1] != FONT[30][0]@[1]);
        assert(FONT[i][0]@ != FONT[j][0]@);
    }
    if i == 23 && j == 31 {
        assert(FONT[23][3]@[1] != FONT[31][3]@[1]);
        assert(FONT[i][3]@ != FONT[j][3]@);
    }
    if i == 23 && j == 32 {
        assert(FONT[23][0]@[1] != FONT[32][0]@[1]);
        assert(FONT[i][0]@ != FONT[j][0]@);
    }
    if i == 23 && j == 33 {
        assert(FONT[23][0]@[0] != FONT[33][0]@[0]);
        assert(FONT[i][0]@ != FONT[j][0]@);
    }
    if i == 23 && j == 34 {
        assert(FONT[23][0]@[1] != FONT[34][0]@[1]);
        assert(FONT[i][0]@ != FONT[j][0]@);
    }
    if i == 23 && j == 35 {
        assert(FONT[23][0]@[0] != FONT[35][0]@[0]);
        assert(FONT[i][0]@ != FONT[j][0]@);
    }
    if i == 23 && j == 36 {
        assert(FONT[23][0]@[0] != FONT[36][0]@[0]);
        assert(FONT[i][0]@ != FONT[j][0]@);
    }
    if i == 24 && j == 25 {
        assert(FONT[24][4]@[1] != FONT[25][4]@[1]);
        assert(FONT[i][4]@ != FONT[j][4]@);
    }
    if i == 24 && j == 26 {
        assert(FONT[24][0]@[1] != FONT[26][0]@[1]);
        assert(FONT[i][0]@ != FONT[j][0]@);
    }
    if i == 24 && j == 27 {
        assert(FONT[24][0]@[0] != FONT[27][0]@[0]);
        assert(FONT[i][0]@ != FONT[j][0]@);
    }
    if i == 24 && j == 28 {
        assert(FONT[24][0]@[0] != FONT[28][0]@[0]);
        assert(FONT[i][0]@ != FONT[j][0]@);
    }
    if i == 24 && j == 29 {
        assert(FONT[24][0]@[0] != FONT[29][0]@[0]);
        assert(FONT[i][0]@ != FONT[j][0]@);
    }
    if i == 24 && j == 30 {
        assert(FONT[24][0]@[1] != FONT[30][0]@[1]);
        assert(FONT[i][0]@ != FONT[j][0]@);
    }
    if i == 24 && j == 31 {
        assert(FONT[24][2]@[0] != FONT[31][2]@[0]);
        assert(FONT[i][2]@ != FONT[j][2]@);
    }
    if i == 24 && j == 32 {
        assert(FONT[24][0]@[1] != FONT[32][0]@[1]);
        assert(FONT[i][0]@ != FONT[j][0]@);
    }
    if i == 24 && j == 33 {
        assert(FONT[24][0]@[0] != FONT[33][0]@[0]);
        assert(FONT[i][0]@ != FONT[j][0]@);
    }
    if i == 24 && j == 34 {
        assert(FONT[24][0]@[1] != FONT[34][0]@[1]);
        assert(FONT[i][0]@ != FONT[j][0]@);
    }
    if i == 24 && j == 35 {
        assert(FONT[24][0]@[0] != FONT[35][0]@[0]);
        assert(FONT[i][0]@ != FONT[j][0]@);
    }
    if i == 24 && j == 36 {
        assert(FONT[24][0]@[0] != FONT[36][0]@[0]);
        assert(FONT[i][0]@ != FONT[j][0]@);
    }
    if i == 25 && j == 26 {
        assert(FONT[25][0]@[1] != FONT[26][0]@[1]);
        assert(FONT[i][0]@ != FONT[j][0]@);
    }
    if i == 25 && j == 27 {
        assert(FONT[25][0]@[0] != FONT[27][0]@[0]);
        assert(FONT[i][0]@ != FONT[j][0]@);
    }
    if i == 25 && j == 28 {
        assert(FONT[25][0]@[0] != FONT[28][0]@[0]);
        assert(FONT[i][0]@ != FONT[j][0]@);
    }
    if i == 25 && j == 29 {
        assert(FONT[25][0]@[0] != FONT[29][0]@[0]);
        assert(FONT[i][0]@ != FONT[j][0]@);
    }
    if i == 25 && j == 30 {
        assert(FONT[25][0]@[1] != FONT[30][0]@[1]);
        assert(FONT[i][0]@ != FONT[j][0]@);
    }
    if i == 25 && j == 31 {
        assert(FONT[25][2]@[0] != FONT[31][2]@[0]);
        assert(FONT[i][2]@ != FONT[j][2]@);
    }
    if i == 25 && j == 32 {
        assert(FONT[25][0]@[1] != FONT[32][0]@[1]);
        assert(FONT[i][0]@ != FONT[j][0]@);
    }
    if i == 25 && j == 33 {
        assert(FONT[25][0]@[0] != FONT[33][0]@[0]);
        assert(FONT[i][0]@ != FONT[j][0]@);
    }
    if i == 25 && j == 34 {
        assert(FONT[25][0]@[1] != FONT[34][0]@[1]);
        assert(FONT[i][0]@ != FONT[j][0]@);
    }
    if i == 25 && j == 35 {
        assert(FONT[25][0]@[0] != FONT[35][0]@[0]);
        assert(FONT[i][0]@ != FONT[j][0]@);
    }
    if i == 25 && j == 36 {
        assert(FONT[25][0]@[0] != FONT[36][0]@[0]);
        assert(FONT[i][0]@ != FONT[j][0]@);
    }
    if i == 26 && j == 27 {
        assert(FONT[26][0]@[0] != FONT[27][0]@[0]);
        assert(FONT[i][0]@ != FONT[j][0]@);
    }
    if i == 26 && j == 28 {
        assert(FONT[26][0]@[0] != FONT[28][0]@[0]);
        assert(FONT[i][0]@ != FONT[j][0]@);
    }
    if i == 26 && j == 29 {
        assert(FONT[26][0]@[0] != FONT[29][0]@[0]);
        assert(FONT[i][0]@ != FONT[j][0]@);
    }
    if i == 26 && j == 30 {
        assert(FONT[26][0]@[4] != FONT[30][0]@[4]);
        assert(FONT[i][0]@ != FONT[j][0]@);
    }
    if i == 26 && j == 31 {
        assert(FONT[26][0]@[1] != FONT[31][0]@[1]);
        assert(FONT[i][0]@ != FONT[j][0]@);
    }
    if i == 26 && j == 32 {
        assert(FONT[26][1]@[0] != FONT[32][1]@[0]);
        assert(FONT[i][1]@ != FONT[j][1]@);
    }
    if i == 26 && j == 33 {
        assert(FONT[26][0]@[0] != FONT[33][0]@[0]);
        assert(FONT[i][0]@ != FONT[j][0]@);
    }
    if i == 26 && j == 34 {
        assert(FONT[26][5]@[0] != FONT[34][5]@[0]);
        assert(FONT[i][5]@ != FONT[j][5]@);
    }
    if i == 26 && j == 35 {
        assert(FONT[26][0]@[0] != FONT[35][0]@[0]);
        assert(FONT[i][0]@ != FONT[j][0]@);
    }
    if i == 26 && j == 36 {
        assert(FONT[26][0]@[0] != FONT[36][0]@[0]);
        assert(FONT[i][0]@ != FONT[j][0]@);
    }
    if i == 27 && j == 28 {
        assert(FONT[27][0]@[1] != FONT[28][0]@[1]);
        assert(FONT[i][0]@ != FONT[j][0]@);
    }
    if i == 27 && j == 29 {
        assert(FONT[27][1]@[3] != FONT[29][1]@[3]);
        assert(FONT[i][1]@ != FONT[j][1]@);
    }
    if i == 27 && j == 30 {
        assert(FONT[27][0]@[0] != FONT[30][0]@[0]);
        assert(FONT[i][0]@ != FONT[j][0]@);
    }
    if i == 27 && j == 31 {
        assert(FONT[27][0]@[0] != FONT[31][0]@[0]);
        assert(FONT[i][0]@ != FONT[j][0]@);
    }
    if i == 27 && j == 32 {
        assert(FONT[27][0]@[0] != FONT[32][0]@[0]);
        assert(FONT[i][0]@ != FONT[j][0]@);
    }
    if i == 27 && j == 33 {
        assert(FONT[27][1]@[3] != FONT[33][1]@[3]);
        assert(FONT[i][1]@ != FONT[j][1]@);
    }
    if i == 27 && j == 34 {
        assert(FONT[27][0]@[0] != FONT[34][0]@[0]);
        assert(FONT[i][0]@ != FONT[j][0]@);
    }
    if i == 27 && j == 35 {
        assert(FONT[27][1]@[3] != FONT[35][1]@[3]);
        assert(FONT[i][1]@ != FONT[j][1]@);
    }
    if i == 27 && j == 36 {
        assert(FONT[27][1]@[3] != FONT[36][1]@[3]);
        assert(FONT[i][1]@ != FONT[j][1]@);
    }
    if i == 28 && j == 29 {
        assert(FONT[28][0]@[1] != FONT[29][0]@[1]);
        assert(FONT[i][0]@ != FONT[j][0]@);
    }
    if i == 28 && j == 30 {
        assert(FONT[28][0]@[0] != FONT[30][0]@[0]);
        assert(FONT[i][0]@ != FONT[j][0]@);
    }
    if i == 28 && j == 31 {
        assert(FONT[28][0]@[0] != FONT[31][0]@[0]);
        assert(FONT[i][0]@ != FONT[j][0]@);
    }
    if i == 28 && j == 32 {
        assert(FONT[28][0]@[0] != FONT[32][0]@[0]);
        assert(FONT[i][0]@ != FONT[j][0]@);
    }
    if i == 28 && j == 33 {
        assert(FONT[28][0]@[1] != FONT[33][0]@[1]);
        assert(FONT[i][0]@ != FONT[j][0]@);
    }
    if i == 28 && j == 34 {
        assert(FONT[28][0]@[0] != FONT[34][0]@[0]);
        assert(FONT[i][0]@ != FONT[j][0]@);
    }
    if i == 28 && j == 35 {
        assert(FONT[28][0]@[1] != FONT[35][0]@[1]);
        assert(FONT[i][0]@ != FONT[j][0]@);
    }
    if i == 28 && j == 36 {
        assert(FONT[28][0]@[1] != FONT[36][0]@[1]);
        assert(FONT[i][0]@ != FONT[j][0]@);
    }
    if i == 29 && j == 30 {
        assert(FONT[29][0]@[0] != FONT[30][0]@[0]);
        assert(FONT[i][0]@ != FONT[j][0]@);
    }
    if i == 29 && j == 31 {
        assert(FONT[29][0]@[0] != FONT[31][0]@[0]);
        assert(FONT[i][0]@ != FONT[j][0]@);
    }
    if i == 29 && j == 32 {
        assert(FONT[29][0]@[0] != FONT[32][0]@[0]);
        assert(FONT[i][0]@ != FONT[j][0]@);
    }
    if i == 29 && j == 33 {
        assert(FONT[29][1]@[4] != FONT[33][1]@[4]);
        assert(FONT[i][1]@ != FONT[j][1]@);
    }
    if i == 29 && j == 34 {
        assert(FONT[29][0]@[0] != FONT[34][0]@[0]);
        assert(FONT[i][0]@ != FONT[j][0]@);
    }
    if i == 29 && j == 35 {
        assert(FONT[29][2]@[0] != FONT[35][2]@[0]);
        assert(FONT[i][2]@ != FONT[j][2]@);
    }
    if i == 29 && j == 36 {
        assert(FONT[29][2]@[0] != FONT[36][2]@[0]);
        assert(FONT[i][2]@ != FONT[j][2]@);
    }
    if i == 30 && j == 31 {
        assert(FONT[30][0]@[1] != FONT[31][0]@[1]);
        assert(FONT[i][0]@ != FONT[j][0]@);
    }
    if i == 30 && j == 32 {
        assert(FONT[30][0]@[4] != FONT[32][0]@[4]);
        assert(FONT[i][0]@ != FONT[j][0]@);
    }
    if i == 30 && j == 33 {
        assert(FONT[30][0]@[0] != FONT[33][0]@[0]);
        assert(FONT[i][0]@ != FONT[j][0]@);
    }
    if i == 30 && j == 34 {
        assert(FONT[30][0]@[4] != FONT[34][0]@[4]);
        assert(FONT[i][0]@ != FONT[j][0]@);
    }
    if i == 30 && j == 35 {
        assert(FONT[30][0]@[0] != FONT[35][0]@[0]);
        assert(FONT[i][0]@ != FONT[j][0]@);
    }
    if i == 30 && j == 36 {
        assert(FONT[30][0]@[0] != FONT[36][0]@[0]);
        assert(FONT[i][0]@ != FONT[j][0]@);
    }
    if i == 31 && j == 32 {
        assert(FONT[31][0]@[1] != FONT[32][0]@[1]);
        assert(FONT[i][0]@ != FONT[j][0]@);
    }
    if i == 31 && j == 33 {
        assert(FONT[31][0]@[0] != FONT[33][0]@[0]);
        assert(FONT[i][0]@ != FONT[j][0]@);
    }
    if i == 31 && j == 34 {
        assert(FONT[31][0]@[1] != FONT[34][0]@[1]);
        assert(FONT[i][0]@ != FONT[j][0]@);
    }
    if i == 31 && j == 35 {
        assert(FONT[31][0]@[0] != FONT[35][0]@[0]);
        assert(FONT[i][0]@ != FONT[j][0]@);
    }
    if i == 31 && j == 36 {
        assert(FONT[31][0]@[0] != FONT[36][0]@[0]);
        assert(FONT[i][0]@ != FONT[j][0]@);
    }
    if i == 32 && j == 33 {
        assert(FONT[32][0]@[0] != FONT[33][0]@[0]);
        assert(FONT[i][0]@ != FONT[j][0]@);
    }
    if i == 32 && j == 34 {
        assert(FONT[32][1]@[0] != FONT[34][1]@[0]);
        assert(FONT[i][1]@ != FONT[j][1]@);
    }
    if i == 32 && j == 35 {
        assert(FONT[32][0]@[0] != FONT[35][0]@[0]);
        assert(FONT[i][0]@ != FONT[j][0]@);
    }
    if i == 32 && j == 36 {
        assert(FONT[32][0]@[0] != FONT[36][0]@[0]);
        assert(FONT[i][0]@ != FONT[j][0]@);
    }
    if i == 33 && j == 34 {
        assert(FONT[33][0]@[0] != FONT[34][0]@[0]);
        assert(FONT[i][0]@ != FONT[j][0]@);
    }
    if i == 33 && j == 35 {
        assert(FONT[33][1]@[4] != FONT[35][1]@[4]);
        assert(FONT[i][1]@ != FONT[j][1]@);
    }
    if i == 33 && j == 36 {
        assert(FONT[33][1]@[4] != FONT[36][1]@[4]);
        assert(FONT[i][1]@ != FONT[j][1]@);
    }
    if i == 34 && j == 35 {
        assert(FONT[34][0]@[0] != FONT[35][0]@[0]);
        assert(FONT[i][0]@ != FONT[j][0]@);
    }
    if i == 34 && j == 36 {
        assert(FONT[34][0]@[0] != FONT[36][0]@[0]);
        assert(FONT[i][0]@ != FONT[j][0]@);
    }
    if i == 35 && j == 36 {
        assert(FONT[35][3]@[4] != FONT[36][3]@[4]);
        assert(FONT[i][3]@ != FONT[j][3]@);
    }
}

} // verus!
