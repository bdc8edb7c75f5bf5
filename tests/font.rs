use tiny_text::{CubePos, TinyFont};

#[test]
fn space_has_an_empty_glyph() {
    let font = TinyFont::new();
    let g = font.get_glyph(' ').expect("space is in range");
    assert!(g.is_empty());
}

#[test]
fn every_printable_character_but_space_draws_cells() {
    let font = TinyFont::new();
    for code in 33u8..=126 {
        let c = code as char;
        let g = font.get_glyph(c).expect("printable characters have glyphs");
        assert!(!g.is_empty(), "glyph of {:?} is empty", c);
    }
}

#[test]
fn characters_outside_the_range_have_no_glyph() {
    let font = TinyFont::new();
    for c in ['\0', '\n', '\t', '\u{1f}', '\u{7f}', '\u{80}', 'é', 'Ω', '\u{1F600}'] {
        assert!(font.get_glyph(c).is_none(), "{:?} should have no glyph", c);
    }
}

#[test]
fn exclamation_mark_cells_in_order() {
    let font = TinyFont::new();
    let g = font.get_glyph('!').unwrap();
    let expected: Vec<CubePos> = [(2, 0), (2, 1), (2, 2), (2, 3), (2, 5), (2, 6), (2, 7)]
        .iter()
        .map(|&(x, y)| CubePos { x, y })
        .collect();
    assert_eq!(g, &expected);
}

#[test]
fn tilde_is_the_last_glyph() {
    let font = TinyFont::new();
    let g = font.get_glyph('~').unwrap();
    let expected: Vec<CubePos> = [(0, 3), (1, 4), (2, 4), (3, 3), (4, 2), (5, 2), (6, 3)]
        .iter()
        .map(|&(x, y)| CubePos { x, y })
        .collect();
    assert_eq!(g, &expected);
}

#[test]
fn descenders_reach_below_the_baseline() {
    let font = TinyFont::new();
    for c in ['g', 'j', 'p', 'q', 'y'] {
        let g = font.get_glyph(c).unwrap();
        assert!(g.iter().any(|p| p.y < 0), "{:?} has no descender", c);
    }
}
