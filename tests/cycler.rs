use tiny_text::cycler::CharacterCycler;

fn at(code: u8) -> CharacterCycler {
    let mut c = CharacterCycler::new();
    for _ in 32..code {
        c.advance();
    }
    c
}

#[test]
fn cycler_starts_at_space() {
    let c = CharacterCycler::new();
    assert_eq!(c.get_current_char(), ' ');
    assert_eq!(c.get_display_string(), "Char: '·' ASCII: 32 (1/95)");
}

#[test]
fn cycler_shows_letter_with_its_code() {
    let c = at(65);
    assert_eq!(c.get_current_char(), 'A');
    assert_eq!(c.get_display_string(), "Char: 'A' ASCII: 65 (34/95)");
}

#[test]
fn cycler_shows_three_digit_codes() {
    let c = at(100);
    assert_eq!(c.get_display_string(), "Char: 'd' ASCII: 100 (69/95)");
    let c = at(126);
    assert_eq!(c.get_display_string(), "Char: '~' ASCII: 126 (95/95)");
}

#[test]
fn cycler_wraps_after_tilde() {
    let mut c = at(126);
    assert_eq!(c.get_current_char(), '~');
    c.advance();
    assert_eq!(c.get_current_char(), ' ');
}

#[test]
fn cycler_visits_every_printable_character_once_per_round() {
    let mut c = CharacterCycler::new();
    let mut seen: Vec<char> = Vec::new();
    for _ in 0..95 {
        seen.push(c.get_current_char());
        c.advance();
    }
    let expected: Vec<char> = (32u8..=126).map(|b| b as char).collect();
    assert_eq!(seen, expected);
    assert_eq!(c.get_current_char(), ' ');
}

#[test]
fn preview_shows_the_next_five() {
    assert_eq!(CharacterCycler::new().preview_text(), "!\"#$%");
    assert_eq!(at(124).preview_text(), "}~·!\"");
    assert_eq!(at(126).preview_text(), "·!\"#$");
    assert_eq!(at(27 + 32).preview_text(), "<=>?@");
}
