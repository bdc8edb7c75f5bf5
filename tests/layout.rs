use tiny_text::{CubePos, CubeSize, IVec3, Orientation, Placement, PlannedCell, Scale3, TinyFont, TinyText};

fn unit_layout(font: &TinyFont, text: &str) -> Vec<Placement<u32>> {
    TinyText::lay_out(
        font,
        text,
        IVec3::new(0, 0, 0),
        Scale3::new(1, 1, 1),
        Orientation::identity(),
        IVec3::new(1, 0, 0),
        7u32,
    )
    .expect("small coordinates fit")
}

fn positions(ps: &[Placement<u32>]) -> Vec<(i64, i64, i64)> {
    ps.iter().map(|p| (p.position.x, p.position.y, p.position.z)).collect()
}

fn cells(font: &TinyFont, c: char) -> Vec<CubePos> {
    font.get_glyph(c).unwrap().clone()
}

#[test]
fn a_then_bang_steps_one_offset() {
    let font = TinyFont::new();
    let ps = unit_layout(&font, "A!");
    let mut expected: Vec<(i64, i64, i64)> = Vec::new();
    for p in cells(&font, 'A') {
        expected.push((p.x as i64, p.y as i64, 0));
    }
    for p in cells(&font, '!') {
        expected.push((p.x as i64 + 1, p.y as i64, 0));
    }
    assert_eq!(ps.len(), 18 + 7);
    assert_eq!(positions(&ps), expected);
    for p in &ps {
        assert_eq!(p.orientation, Orientation::identity());
        assert_eq!(p.color, 7);
        assert_eq!(p.size, CubeSize { x_fifths: 4, y_fifths: 4, z_fifths: 4 });
    }
}

#[test]
fn unsupported_character_still_takes_a_step() {
    let font = TinyFont::new();
    let ps = unit_layout(&font, "A\u{1F600}B");
    let mut expected: Vec<(i64, i64, i64)> = Vec::new();
    for p in cells(&font, 'A') {
        expected.push((p.x as i64, p.y as i64, 0));
    }
    for p in cells(&font, 'B') {
        expected.push((p.x as i64 + 2, p.y as i64, 0));
    }
    assert_eq!(positions(&ps), expected);
}

#[test]
fn spaces_take_a_step_and_draw_nothing() {
    let font = TinyFont::new();
    let ps = unit_layout(&font, "  !");
    let expected: Vec<(i64, i64, i64)> =
        cells(&font, '!').iter().map(|p| (p.x as i64 + 2, p.y as i64, 0)).collect();
    assert_eq!(positions(&ps), expected);
}

#[test]
fn scale_applies_before_rotation() {
    let font = TinyFont::new();
    let turn = Orientation::about_z(1);
    let ps = TinyText::lay_out(
        &font,
        "B",
        IVec3::new(0, 0, 0),
        Scale3::new(2, 1, 1),
        turn,
        IVec3::new(1, 0, 0),
        0u8,
    )
    .unwrap();
    let glyph = cells(&font, 'B');
    assert_eq!(ps.len(), glyph.len());
    for (p, c) in ps.iter().zip(glyph.iter()) {
        // (2x, y, 0) turned a quarter about z is (-y, 2x, 0)
        assert_eq!((p.position.x, p.position.y, p.position.z), (-(c.y as i64), 2 * c.x as i64, 0));
        assert_eq!(p.orientation, turn);
    }
    let k = glyph.iter().position(|c| *c == CubePos { x: 1, y: 0 }).unwrap();
    assert_eq!((ps[k].position.x, ps[k].position.y, ps[k].position.z), (0, 2, 0));
}

#[test]
fn rotation_turns_the_advance_too() {
    let font = TinyFont::new();
    let ps = TinyText::lay_out(
        &font,
        "..",
        IVec3::new(10, 20, 30),
        Scale3::new(1, 1, 1),
        Orientation::about_z(1),
        IVec3::new(3, 0, 0),
        0u8,
    )
    .unwrap();
    let dot = cells(&font, '.');
    assert_eq!(ps.len(), 2 * dot.len());
    for (k, c) in dot.iter().enumerate() {
        let first = &ps[k].position;
        let second = &ps[dot.len() + k].position;
        assert_eq!((first.x, first.y, first.z), (10 - c.y as i64, 20 + c.x as i64, 30));
        // the second character moved by (3, 0, 0) turned, which is (0, 3, 0)
        assert_eq!((second.x, second.y, second.z), (first.x, first.y + 3, first.z));
    }
}

#[test]
fn laying_out_twice_gives_the_same_result() {
    let font = TinyFont::new();
    let a = TinyText::lay_out(
        &font,
        "Hello, World!",
        IVec3::new(-5, 2, 9),
        Scale3::new(3, 4, 5),
        Orientation::about_y(3),
        IVec3::new(6, 1, 0),
        (1u8, 2u8, 3u8),
    );
    let b = TinyText::lay_out(
        &font,
        "Hello, World!",
        IVec3::new(-5, 2, 9),
        Scale3::new(3, 4, 5),
        Orientation::about_y(3),
        IVec3::new(6, 1, 0),
        (1u8, 2u8, 3u8),
    );
    assert!(a.is_some());
    assert_eq!(a, b);
}

#[test]
fn empty_text_lays_out_nothing() {
    let font = TinyFont::new();
    let ps = TinyText::lay_out(
        &font,
        "",
        IVec3::new(i64::MAX, i64::MIN, 0),
        Scale3::new(1, 1, 1),
        Orientation::identity(),
        IVec3::new(i64::MAX, 0, 0),
        0u8,
    );
    assert_eq!(ps, Some(Vec::new()));
    assert!(TinyText::plan(&font, "").is_empty());
}

#[test]
fn cubes_fill_four_fifths_of_a_cell() {
    let font = TinyFont::new();
    let ps = TinyText::lay_out(
        &font,
        "I",
        IVec3::new(0, 0, 0),
        Scale3::new(10, 7, 1),
        Orientation::identity(),
        IVec3::new(50, 0, 0),
        0u8,
    )
    .unwrap();
    assert!(!ps.is_empty());
    // 8, 5.6 and 0.8 units, in fifths of a unit
    for p in &ps {
        assert_eq!(p.size, CubeSize { x_fifths: 40, y_fifths: 28, z_fifths: 4 });
    }
}

#[test]
fn walk_past_the_coordinate_range_gives_none() {
    let font = TinyFont::new();
    // the cursor after the last character leaves the range
    let ps = TinyText::lay_out(
        &font,
        "ab",
        IVec3::new(i64::MAX - 15, 0, 0),
        Scale3::new(1, 1, 1),
        Orientation::identity(),
        IVec3::new(8, 0, 0),
        0u8,
    );
    assert_eq!(ps, None);
    // a cell leaves the range although the cursor stays inside it
    let ps = TinyText::lay_out(
        &font,
        "a",
        IVec3::new(i64::MAX - 1, 0, 0),
        Scale3::new(1, 1, 1),
        Orientation::identity(),
        IVec3::new(0, 0, 0),
        0u8,
    );
    assert_eq!(ps, None);
    // the same text one step further from the edge fits
    let ps = TinyText::lay_out(
        &font,
        "ab",
        IVec3::new(i64::MAX - 16, 0, 0),
        Scale3::new(1, 1, 1),
        Orientation::identity(),
        IVec3::new(8, 0, 0),
        0u8,
    );
    assert!(ps.is_some());
}

#[test]
fn plan_tags_cells_with_their_character() {
    let font = TinyFont::new();
    let plan = TinyText::plan(&font, "i\u{7f} j");
    let mut expected: Vec<PlannedCell> = Vec::new();
    for c in cells(&font, 'i') {
        expected.push(PlannedCell { step: 0, cell: c });
    }
    for c in cells(&font, 'j') {
        expected.push(PlannedCell { step: 3, cell: c });
    }
    assert_eq!(plan, expected);
}

#[test]
fn quarter_turns_about_each_axis() {
    let font = TinyFont::new();
    let at = |o: Orientation| {
        let ps = TinyText::lay_out(
            &font,
            "-",
            IVec3::new(0, 0, 0),
            Scale3::new(1, 1, 1),
            o,
            IVec3::new(0, 0, 0),
            0u8,
        )
        .unwrap();
        let glyph = cells(&font, '-');
        let c = glyph[0];
        (c, (ps[0].position.x, ps[0].position.y, ps[0].position.z))
    };
    let (c, p) = at(Orientation::about_x(1));
    assert_eq!(p, (c.x as i64, 0, c.y as i64));
    let (c, p) = at(Orientation::about_y(1));
    assert_eq!(p, (0, c.y as i64, -(c.x as i64)));
    let (c, p) = at(Orientation::about_z(2));
    assert_eq!(p, (-(c.x as i64), -(c.y as i64), 0));
    assert_eq!(Orientation::about_z(4), Orientation::identity());
    assert_eq!(Orientation::about_x(5), Orientation::about_x(1));
}

fn layout_from(font: &TinyFont, text: &str, origin: IVec3) -> Vec<Placement<u8>> {
    TinyText::lay_out(
        font,
        text,
        origin,
        Scale3::new(2, 3, 1),
        Orientation::about_x(1),
        IVec3::new(7, -1, 2),
        9u8,
    )
    .unwrap()
}

#[test]
fn joined_texts_lay_out_one_after_the_other() {
    let font = TinyFont::new();
    let origin = IVec3::new(4, 5, 6);
    // "Hi \u{1}" is four characters; the offset (7, -1, 2) turned a quarter about x is
    // (7, -2, -1), so after four steps the cursor stands at (32, -3, 2)
    let whole = layout_from(&font, "Hi \u{1}yo", origin);
    let mut parts = layout_from(&font, "Hi \u{1}", origin);
    parts.extend(layout_from(&font, "yo", IVec3::new(32, -3, 2)));
    assert_eq!(whole, parts);
}

#[test]
fn blank_in_place_of_a_character_removes_only_its_cubes() {
    let font = TinyFont::new();
    let origin = IVec3::new(0, 0, 0);
    let with_m = layout_from(&font, "amz", origin);
    let m_cells = cells(&font, 'm').len();
    let a_cells = cells(&font, 'a').len();
    let mut expected: Vec<Placement<u8>> = Vec::new();
    expected.extend(with_m[..a_cells].iter().map(|p| Placement { ..*p }));
    expected.extend(with_m[a_cells + m_cells..].iter().map(|p| Placement { ..*p }));
    assert_eq!(layout_from(&font, "a z", origin), expected);
    assert_eq!(layout_from(&font, "a\u{e9}z", origin), expected);
}
