use crate::font::{glyph_of, CubePos, TinyFont};
use crate::geometry::{
    add3, fits3, fits_i64, times3, z_turned, Coords, IVec3, Orientation, Scale3,
};
use vstd::prelude::*;

verus! {

broadcast use vstd::string::axiom_spec_iter;

/// The characters of `text`, in order.
pub(crate) fn chars_of(text: &str) -> (r: Vec<char>)
    ensures
        r@ == text@,
{
    let mut r: Vec<char> = Vec::new();
    for c in it: text.chars()
        invariant
            it.seq() == text@,
            r@ == it.seq().take(it.index() as int),
    {
        r.push(c);
    }
    assert(r@ =~= text@);
    r
}

/// Share of a cell that its drawn cube fills along each axis, as a fraction: four fifths,
/// which leaves a visible gap between neighbouring cubes. This is its numerator.
pub const CELL_FILL_NUM: u64 = 4;

/// Denominator of the fill share.
pub const CELL_FILL_DEN: u64 = 5;

/// A cell that a text draws, with the index of the character that draws it.
#[derive(Clone, Copy, Debug, PartialEq, Eq, Structural)]
pub struct PlannedCell {
    pub step: usize,
    pub cell: CubePos,
}

/// The cells that the character `c` at index `step` draws, each tagged with `step`.
pub open spec fn cells_of_char(step: int, c: char) -> Seq<(int, CubePos)> {
    match glyph_of(c) {
        Some(g) => g.map_values(|p: CubePos| (step, p)),
        None => Seq::empty(),
    }
}

/// The cells that `text` draws: character by character, and within a character in the
/// order of its glyph. A character without a glyph draws nothing.
pub open spec fn planned_cells(text: Seq<char>) -> Seq<(int, CubePos)>
    decreases text.len(),
{
    if text.len() == 0 {
        Seq::empty()
    } else {
        planned_cells(text.drop_last()) + cells_of_char(text.len() - 1, text.last())
    }
}

/// Where the cursor stands before the character at index `k`: it starts at `origin` and
/// moves by the rotated `offset` once per character.
pub open spec fn cursor_at(origin: Coords, orientation: Orientation, offset: Coords, k: nat) -> Coords
    decreases k,
{
    if k == 0 {
        origin
    } else {
        add3(cursor_at(origin, orientation, offset, (k - 1) as nat), orientation.apply(offset))
    }
}

/// The offset of cell `p` from its character's cursor before rotation: scaled per axis,
/// in the plane z = 0.
pub open spec fn local_offset(p: CubePos, scale: Scale3) -> Coords {
    (p.x * scale.x, p.y * scale.y, 0)
}

/// Where cell `p` of the character at index `step` stands: the cursor, plus the scaled
/// cell rotated by `orientation`.
pub open spec fn cell_position(
    origin: Coords,
    scale: Scale3,
    orientation: Orientation,
    offset: Coords,
    step: int,
    p: CubePos,
) -> Coords {
    add3(
        cursor_at(origin, orientation, offset, step as nat),
        orientation.apply(local_offset(p, scale)),
    )
}

/// The size of a drawn cube, held exactly in fifths of a unit (`CELL_FILL_DEN` parts):
/// a cube of `x_fifths` is `x_fifths / 5` units wide.
#[derive(Clone, Copy, Debug, PartialEq, Eq, Structural)]
pub struct CubeSize {
    pub x_fifths: u64,
    pub y_fifths: u64,
    pub z_fifths: u64,
}

/// The size of the cube drawn in a cell of size `s`: the fill share of `s` along each
/// axis, four fifths of the scale, with nothing rounded away.
pub open spec fn cube_size(s: Scale3) -> CubeSize {
    CubeSize {
        x_fifths: (CELL_FILL_NUM * s.x) as u64,
        y_fifths: (CELL_FILL_NUM * s.y) as u64,
        z_fifths: (CELL_FILL_NUM * s.z) as u64,
    }
}

/// Every point that the walk over `text` reaches fits into `i64`: the cursor before and
/// after each character, and the position of each cell.
pub open spec fn layout_fits(
    text: Seq<char>,
    origin: Coords,
    scale: Scale3,
    orientation: Orientation,
    offset: Coords,
) -> bool {
    &&& forall|k: int|
        0 <= k <= text.len() ==> fits3(#[trigger] cursor_at(origin, orientation, offset, k as nat))
    &&& forall|j: int|
        0 <= j < planned_cells(text).len() ==> fits3(
            cell_position(
                origin,
                scale,
                orientation,
                offset,
                (#[trigger] planned_cells(text)[j]).0,
                planned_cells(text)[j].1,
            ),
        )
}

/// One cube to draw: where it stands, how it is turned, its size and its color.
#[derive(Debug, PartialEq, Eq)]
pub struct Placement<C> {
    pub position: IVec3,
    pub orientation: Orientation,
    pub size: CubeSize,
    pub color: C,
}

/// `p` is the cube drawn for the planned cell `pc` of a layout with these parameters.
pub open spec fn is_placement_of<C>(
    p: Placement<C>,
    pc: (int, CubePos),
    origin: Coords,
    scale: Scale3,
    orientation: Orientation,
    offset: Coords,
    color: C,
) -> bool {
    &&& p.position@ == cell_position(origin, scale, orientation, offset, pc.0, pc.1)
    &&& p.orientation == orientation
    &&& p.size == cube_size(scale)
    &&& p.color == color
}

/// `ps` is the layout of `text` with these parameters: one placement for each planned cell,
/// in the same order.
pub open spec fn is_layout<C>(
    ps: Seq<Placement<C>>,
    text: Seq<char>,
    origin: Coords,
    scale: Scale3,
    orientation: Orientation,
    offset: Coords,
    color: C,
) -> bool {
    &&& ps.len() == planned_cells(text).len()
    &&& forall|j: int|
        0 <= j < ps.len() ==> is_placement_of(
            #[trigger] ps[j],
            planned_cells(text)[j],
            origin,
            scale,
            orientation,
            offset,
            color,
        )
}

proof fn lemma_planned_step(text: Seq<char>, i: int)
    requires
        0 <= i < text.len(),
    ensures
        planned_cells(text.take(i + 1)) == planned_cells(text.take(i)) + cells_of_char(i, text[i]),
{
    assert(text.take(i + 1).drop_last() =~= text.take(i));
}

/// The cells planned for a prefix of a text begin the cells planned for the whole text.
proof fn lemma_planned_prefix(text: Seq<char>, m: int)
    requires
        0 <= m <= text.len(),
    ensures
        planned_cells(text.take(m)).len() <= planned_cells(text).len(),
        forall|j: int|
            0 <= j < planned_cells(text.take(m)).len() ==> planned_cells(text.take(m))[j]
                == planned_cells(text)[j],
    decreases text.len() - m,
{
    if m < text.len() {
        lemma_planned_step(text, m);
        lemma_planned_prefix(text, m + 1);
    } else {
        assert(text.take(m) =~= text);
    }
}

/// The size of the cube drawn in a cell of size `s`.
fn fill(s: Scale3) -> (r: CubeSize)
    ensures
        r == cube_size(s),
{
    CubeSize {
        x_fifths: CELL_FILL_NUM * (s.x as u64),
        y_fifths: CELL_FILL_NUM * (s.y as u64),
        z_fifths: CELL_FILL_NUM * (s.z as u64),
    }
}

/// A cell coordinate times a scale, exactly.
fn scaled(a: i32, s: u32) -> (r: i128)
    ensures
        r == a * s,
        -0x1_0000_0000_0000_0000 < r < 0x1_0000_0000_0000_0000,
{
    proof {
        assert(-0x1_0000_0000_0000_0000 < a * s < 0x1_0000_0000_0000_0000) by (nonlinear_arith)
            requires
                i32::MIN <= a <= i32::MAX,
                0 <= s <= u32::MAX,
        ;
    }
    (a as i128) * (s as i128)
}

/// `v` as an `i64`, where it fits.
fn narrow(v: i128) -> (r: Option<i64>)
    ensures
        r is Some <==> fits_i64(v as int),
        r matches Some(n) ==> n == v,
{
    if i64::MIN as i128 <= v && v <= i64::MAX as i128 {
        Some(v as i64)
    } else {
        None
    }
}

/// `a + b` as a point, where each coordinate fits into an `i64`.
fn add_narrow(a: IVec3, b: (i128, i128, i128)) -> (r: Option<IVec3>)
    requires
        -0x1_0000_0000_0000_0000_0000 < b.0 < 0x1_0000_0000_0000_0000_0000,
        -0x1_0000_0000_0000_0000_0000 < b.1 < 0x1_0000_0000_0000_0000_0000,
        -0x1_0000_0000_0000_0000_0000 < b.2 < 0x1_0000_0000_0000_0000_0000,
    ensures
        r is Some <==> fits3(add3(a@, (b.0 as int, b.1 as int, b.2 as int))),
        r matches Some(v) ==> v@ == add3(a@, (b.0 as int, b.1 as int, b.2 as int)),
{
    let x = narrow(a.x as i128 + b.0);
    let y = narrow(a.y as i128 + b.1);
    let z = narrow(a.z as i128 + b.2);
    match (x, y, z) {
        (Some(x), Some(y), Some(z)) => Some(IVec3 { x, y, z }),
        _ => None,
    }
}

/// After `n` characters the cursor has moved from `origin` by exactly `n` rotated offsets,
/// whatever the characters were; and each cell stands at its character's cursor plus its
/// scaled and rotated coordinates.
pub proof fn lemma_cursor_advance(
    origin: Coords,
    scale: Scale3,
    orientation: Orientation,
    offset: Coords,
    n: nat,
    p: CubePos,
)
    ensures
        cursor_at(origin, orientation, offset, n) == add3(
            origin,
            times3(n as int, orientation.apply(offset)),
        ),
        cell_position(origin, scale, orientation, offset, n as int, p) == add3(
            add3(origin, times3(n as int, orientation.apply(offset))),
            orientation.apply(local_offset(p, scale)),
        ),
    decreases n,
{
    let d = orientation.apply(offset);
    if n > 0 {
        lemma_cursor_advance(origin, scale, orientation, offset, (n - 1) as nat, p);
        assert(n * d.0 == (n - 1) * d.0 + d.0) by (nonlinear_arith);
        assert(n * d.1 == (n - 1) * d.1 + d.1) by (nonlinear_arith);
        assert(n * d.2 == (n - 1) * d.2 + d.2) by (nonlinear_arith);
    } else {
        assert(times3(0, d) == (0int, 0int, 0int));
    }
}

/// Laying out the same text with the same parameters twice gives the same placements.
pub proof fn lemma_layout_deterministic<C>(
    a: Seq<Placement<C>>,
    b: Seq<Placement<C>>,
    text: Seq<char>,
    origin: Coords,
    scale: Scale3,
    orientation: Orientation,
    offset: Coords,
    color: C,
)
    requires
        is_layout(a, text, origin, scale, orientation, offset, color),
        is_layout(b, text, origin, scale, orientation, offset, color),
    ensures
        a == b,
{
    assert forall|j: int| 0 <= j < a.len() implies a[j] == b[j] by {
        assert(is_placement_of(a[j], planned_cells(text)[j], origin, scale, orientation, offset, color));
        assert(is_placement_of(b[j], planned_cells(text)[j], origin, scale, orientation, offset, color));
    }
    assert(a =~= b);
}

/// The empty text draws nothing and leaves the cursor at the origin; its layout always fits.
pub proof fn lemma_empty_text<C>(
    origin: IVec3,
    scale: Scale3,
    orientation: Orientation,
    offset: IVec3,
    color: C,
    ps: Seq<Placement<C>>,
)
    ensures
        planned_cells(Seq::empty()) == Seq::<(int, CubePos)>::empty(),
        cursor_at(origin@, orientation, offset@, 0) == origin@,
        layout_fits(Seq::empty(), origin@, scale, orientation, offset@),
        is_layout(ps, Seq::empty(), origin@, scale, orientation, offset@, color) <==> ps.len()
            == 0,
{
}

/// Scaling comes before rotating: under a quarter turn about z, cell `(x, y)` of the
/// character at index `step` lands at its cursor plus `(-y * sy, x * sx, 0)`; so the cell
/// one column right of the cursor lands one x-scale above it, whatever the y-scale.
pub proof fn lemma_scale_then_rotate(
    origin: Coords,
    scale: Scale3,
    orientation: Orientation,
    offset: Coords,
    step: nat,
    p: CubePos,
)
    requires
        forall|v: Coords| #[trigger] orientation.apply(v) == z_turned(v, 1),
    ensures
        cell_position(origin, scale, orientation, offset, step as int, p) == add3(
            cursor_at(origin, orientation, offset, step),
            (-(p.y * scale.y), p.x * scale.x, 0),
        ),
        cell_position(origin, scale, orientation, offset, 0, CubePos { x: 1, y: 0 }) == add3(
            origin,
            (0, scale.x as int, 0),
        ),
{
    assert(orientation.apply(local_offset(p, scale)) == z_turned(local_offset(p, scale), 1));
    assert(orientation.apply(local_offset(CubePos { x: 1, y: 0 }, scale)) == z_turned(
        local_offset(CubePos { x: 1, y: 0 }, scale),
        1,
    ));
}

/// Planned cells moved `n` characters further along the text.
pub open spec fn shifted(cells: Seq<(int, CubePos)>, n: int) -> Seq<(int, CubePos)> {
    cells.map_values(|e: (int, CubePos)| (e.0 + n, e.1))
}

/// Walking `m + k` characters from `origin` ends where walking `k` characters from the
/// cursor after `m` ends.
pub proof fn lemma_cursor_split(
    origin: Coords,
    orientation: Orientation,
    offset: Coords,
    m: nat,
    k: nat,
)
    ensures
        cursor_at(origin, orientation, offset, m + k) == cursor_at(
            cursor_at(origin, orientation, offset, m),
            orientation,
            offset,
            k,
        ),
    decreases k,
{
    if k > 0 {
        lemma_cursor_split(origin, orientation, offset, m, (k - 1) as nat);
        assert((m + k - 1) as nat == (m + (k - 1)) as nat);
    }
}

/// The cells of two texts one after the other are the cells of the first, then those of
/// the second with their character indices moved past the first.
pub proof fn lemma_planned_concat(t1: Seq<char>, t2: Seq<char>)
    ensures
        planned_cells(t1 + t2) == planned_cells(t1) + shifted(planned_cells(t2), t1.len() as int),
    decreases t2.len(),
{
    let n = t1.len() as int;
    if t2.len() == 0 {
        assert(t1 + t2 =~= t1);
        assert(shifted(planned_cells(t2), n) =~= Seq::<(int, CubePos)>::empty());
        assert(planned_cells(t1) + Seq::<(int, CubePos)>::empty() =~= planned_cells(t1));
    } else {
        let t = t1 + t2;
        let front = t2.drop_last();
        let c = t2.last();
        assert(t.drop_last() =~= t1 + front);
        assert(t.last() == c);
        lemma_planned_concat(t1, front);
        let own = cells_of_char(t2.len() - 1, c);
        assert(shifted(own, n) =~= cells_of_char(t.len() - 1, c));
        assert(shifted(planned_cells(t2), n) =~= shifted(planned_cells(front), n) + shifted(
            own,
            n,
        ));
        assert(planned_cells(t) =~= planned_cells(t1) + shifted(planned_cells(t2), n));
    }
}

/// Laying out two texts one after the other, the second from where the cursor stands after
/// the first, lays out the joined text: after `t1` the cursor has moved exactly
/// `t1.len()` steps, whatever characters `t1` holds.
pub proof fn lemma_layout_concat<C>(
    a: Seq<Placement<C>>,
    b: Seq<Placement<C>>,
    t1: Seq<char>,
    t2: Seq<char>,
    origin: Coords,
    scale: Scale3,
    orientation: Orientation,
    offset: Coords,
    color: C,
)
    requires
        is_layout(a, t1, origin, scale, orientation, offset, color),
        is_layout(
            b,
            t2,
            cursor_at(origin, orientation, offset, t1.len()),
            scale,
            orientation,
            offset,
            color,
        ),
    ensures
        is_layout(a + b, t1 + t2, origin, scale, orientation, offset, color),
{
    let n = t1.len();
    let mid = cursor_at(origin, orientation, offset, n);
    lemma_planned_concat(t1, t2);
    let all = planned_cells(t1 + t2);
    let ab = a + b;
    assert forall|j: int| 0 <= j < ab.len() implies is_placement_of(
        #[trigger] ab[j],
        all[j],
        origin,
        scale,
        orientation,
        offset,
        color,
    ) by {
        if j < a.len() {
            assert(is_placement_of(a[j], planned_cells(t1)[j], origin, scale, orientation, offset, color));
        } else {
            let k = j - a.len();
            let e = planned_cells(t2)[k];
            assert(is_placement_of(b[k], e, mid, scale, orientation, offset, color));
            assert(all[j] == (e.0 + n, e.1));
            lemma_planned_nonnegative_steps(t2, k);
            lemma_cursor_split(origin, orientation, offset, n, e.0 as nat);
            assert((n + e.0) as nat == n + (e.0 as nat));
        }
    }
}

/// Every planned cell carries the index of a character of the text.
proof fn lemma_planned_nonnegative_steps(text: Seq<char>, j: int)
    requires
        0 <= j < planned_cells(text).len(),
    ensures
        0 <= planned_cells(text)[j].0 < text.len(),
    decreases text.len(),
{
    let front = text.drop_last();
    if j < planned_cells(front).len() {
        lemma_planned_nonnegative_steps(front, j);
    }
}

/// A space, or a character without a glyph, draws nothing.
pub proof fn lemma_blank_draws_nothing(c: char)
    requires
        glyph_of(c) is None || c == ' ',
    ensures
        planned_cells(seq![c]) == Seq::<(int, CubePos)>::empty(),
{
    let empty = Seq::<(int, CubePos)>::empty();
    assert(seq![c].drop_last() =~= Seq::<char>::empty());
    assert(seq![c].last() == c);
    assert(planned_cells(Seq::<char>::empty()) == empty);
    if c == ' ' {
        crate::font::lemma_printable_glyphs(c);
    }
    assert(cells_of_char(0, c) =~= empty);
    assert(planned_cells(seq![c]) == planned_cells(Seq::<char>::empty()) + cells_of_char(0, c));
    assert(empty + empty =~= empty);
}

/// Putting a space or an unknown character in place of one character of a text removes
/// that character's placements and leaves every other placement as it was: the blank still
/// takes its step.
pub proof fn lemma_blank_in_place<C>(
    a: Seq<Placement<C>>,
    g: Seq<Placement<C>>,
    b: Seq<Placement<C>>,
    t1: Seq<char>,
    c: char,
    blank: char,
    t2: Seq<char>,
    origin: Coords,
    scale: Scale3,
    orientation: Orientation,
    offset: Coords,
    color: C,
)
    requires
        glyph_of(blank) is None || blank == ' ',
        is_layout(a, t1, origin, scale, orientation, offset, color),
        is_layout(
            g,
            seq![c],
            cursor_at(origin, orientation, offset, t1.len()),
            scale,
            orientation,
            offset,
            color,
        ),
        is_layout(
            b,
            t2,
            cursor_at(origin, orientation, offset, t1.len() + 1),
            scale,
            orientation,
            offset,
            color,
        ),
    ensures
        is_layout(a + g + b, t1 + seq![c] + t2, origin, scale, orientation, offset, color),
        is_layout(a + b, t1 + seq![blank] + t2, origin, scale, orientation, offset, color),
{
    let n1 = (t1.len() + 1) as nat;
    lemma_layout_concat(a, g, t1, seq![c], origin, scale, orientation, offset, color);
    assert((t1 + seq![c]).len() == n1);
    lemma_layout_concat(a + g, b, t1 + seq![c], t2, origin, scale, orientation, offset, color);
    lemma_blank_draws_nothing(blank);
    let none = Seq::<Placement<C>>::empty();
    assert(is_layout(
        none,
        seq![blank],
        cursor_at(origin, orientation, offset, t1.len()),
        scale,
        orientation,
        offset,
        color,
    ));
    lemma_layout_concat(a, none, t1, seq![blank], origin, scale, orientation, offset, color);
    assert(a + none =~= a);
    assert((t1 + seq![blank]).len() == n1);
    lemma_layout_concat(a, b, t1 + seq![blank], t2, origin, scale, orientation, offset, color);
}

/// A character without a glyph between two others draws nothing and still takes a step:
/// the cells of the third character stand two rotated offsets from the origin.
pub proof fn lemma_unknown_between(
    first: char,
    unknown: char,
    last: char,
    origin: Coords,
    orientation: Orientation,
    offset: Coords,
)
    requires
        glyph_of(unknown) is None,
    ensures
        planned_cells(seq![first, unknown, last]) == cells_of_char(0, first) + cells_of_char(
            2,
            last,
        ),
        cursor_at(origin, orientation, offset, 2) == add3(
            origin,
            times3(2, orientation.apply(offset)),
        ),
{
    lemma_cursor_advance(
        origin,
        Scale3 { x: 0, y: 0, z: 0 },
        orientation,
        offset,
        2,
        CubePos { x: 0, y: 0 },
    );
    let empty = Seq::<(int, CubePos)>::empty();
    let t = seq![first, unknown, last];
    let t2 = seq![first, unknown];
    let t1 = seq![first];
    assert(t.drop_last() =~= t2);
    assert(t2.drop_last() =~= t1);
    assert(t1.drop_last() =~= Seq::<char>::empty());
    assert(t.last() == last);
    assert(t2.last() == unknown);
    assert(t1.last() == first);
    assert(planned_cells(Seq::<char>::empty()) == empty);
    assert(planned_cells(t1) == empty + cells_of_char(0, first));
    assert(empty + cells_of_char(0, first) =~= cells_of_char(0, first));
    assert(cells_of_char(1, unknown) =~= empty);
    assert(planned_cells(t2) == planned_cells(t1) + cells_of_char(1, unknown));
    assert(cells_of_char(0, first) + empty =~= cells_of_char(0, first));
    assert(planned_cells(t) == planned_cells(t2) + cells_of_char(2, last));
}

/// The text layout: turns a string into the cubes that draw it.
pub struct TinyText;

impl TinyText {
    /// The cells that `text` draws, in order, each with the index of its character.
    pub fn plan(font: &TinyFont, text: &str) -> (r: Vec<PlannedCell>)
        ensures
            r@.len() == planned_cells(text@).len(),
            forall|j: int|
                0 <= j < r@.len() ==> (r@[j].step as int, r@[j].cell) == #[trigger] planned_cells(
                    text@,
                )[j],
    {
        let chars = chars_of(text);
        let ghost plan = planned_cells(text@);
        let mut out: Vec<PlannedCell> = Vec::new();
        let mut i: usize = 0;
        while i < chars.len()
            invariant
                chars@ == text@,
                plan == planned_cells(text@),
                i <= chars@.len(),
                out@.len() == planned_cells(text@.take(i as int)).len(),
                forall|j: int|
                    0 <= j < out@.len() ==> (out@[j].step as int, out@[j].cell) == plan[j],
            decreases chars@.len() - i,
        {
            let c = chars[i];
            proof {
                lemma_planned_step(text@, i as int);
                lemma_planned_prefix(text@, i + 1);
            }
            if let Some(g) = font.get_glyph(c) {
                let mut ci: usize = 0;
                while ci < g.len()
                    invariant
                        chars@ == text@,
                        plan == planned_cells(text@),
                        i < chars@.len(),
                        c == text@[i as int],
                        glyph_of(c) == Some(g@),
                        ci <= g@.len(),
                        out@.len() == planned_cells(text@.take(i as int)).len() + ci,
                        planned_cells(text@.take(i + 1)) == planned_cells(text@.take(i as int))
                            + cells_of_char(i as int, c),
                        planned_cells(text@.take(i + 1)).len() <= plan.len(),
                        forall|j: int|
                            0 <= j < planned_cells(text@.take(i + 1)).len() ==> planned_cells(
                                text@.take(i + 1),
                            )[j] == plan[j],
                        forall|j: int|
                            0 <= j < out@.len() ==> (out@[j].step as int, out@[j].cell) == plan[j],
                    decreases g@.len() - ci,
                {
                    proof {
                        let j = out@.len() as int;
                        assert(planned_cells(text@.take(i + 1))[j] == (i as int, g@[ci as int]));
                    }
                    out.push(PlannedCell { step: i, cell: g[ci] });
                    ci = ci + 1;
                }
            }
            i = i + 1;
        }
        assert(text@.take(chars@.len() as int) =~= text@);
        out
    }

    /// Lays `text` out: one placement per cell that it draws, in order. The cursor starts
    /// at `origin` and, after each character, moves by `offset` rotated by `orientation`,
    /// whether or not the character drew anything. A cell stands at the cursor plus its
    /// coordinates scaled per axis and then rotated. Each cube keeps the orientation and
    /// color asked for, and its size is four fifths of the scale, held exactly in fifths.
    /// Gives `None` exactly where a point of the walk does not fit into `i64`.
    pub fn lay_out<C: Copy>(
        font: &TinyFont,
        text: &str,
        origin: IVec3,
        scale: Scale3,
        orientation: Orientation,
        offset: IVec3,
        color: C,
    ) -> (r: Option<Vec<Placement<C>>>)
        ensures
            r is Some <==> layout_fits(text@, origin@, scale, orientation, offset@),
            r matches Some(ps) ==> is_layout(ps@, text@, origin@, scale, orientation, offset@, color),
    {
        let chars = chars_of(text);
        let ghost plan = planned_cells(text@);
        let size = fill(scale);
        let step = orientation.rotate_wide(offset.x as i128, offset.y as i128, offset.z as i128);
        let mut out: Vec<Placement<C>> = Vec::new();
        let mut cursor = origin;
        let mut i: usize = 0;
        while i < chars.len()
            invariant
                chars@ == text@,
                plan == planned_cells(text@),
                size == cube_size(scale),
                (step.0 as int, step.1 as int, step.2 as int) == orientation.apply(offset@),
                i64::MIN <= step.0 <= -(i64::MIN as int),
                i64::MIN <= step.1 <= -(i64::MIN as int),
                i64::MIN <= step.2 <= -(i64::MIN as int),
                i <= chars@.len(),
                out@.len() <= plan.len(),
                cursor@ == cursor_at(origin@, orientation, offset@, i as nat),
                forall|k: int|
                    0 <= k <= i ==> fits3(#[trigger] cursor_at(origin@, orientation, offset@, k as nat)),
                out@.len() == planned_cells(text@.take(i as int)).len(),
                forall|j: int|
                    0 <= j < out@.len() ==> is_placement_of(
                        #[trigger] out@[j],
                        plan[j],
                        origin@,
                        scale,
                        orientation,
                        offset@,
                        color,
                    ),
            decreases chars@.len() - i,
        {
            let c = chars[i];
            proof {
                lemma_planned_step(text@, i as int);
                lemma_planned_prefix(text@, i + 1);
            }
            if let Some(g) = font.get_glyph(c) {
                let mut ci: usize = 0;
                while ci < g.len()
                    invariant
                        chars@ == text@,
                        plan == planned_cells(text@),
                        size == cube_size(scale),
                        i < chars@.len(),
                        c == text@[i as int],
                        glyph_of(c) == Some(g@),
                        cursor@ == cursor_at(origin@, orientation, offset@, i as nat),
                        ci <= g@.len(),
                        out@.len() == planned_cells(text@.take(i as int)).len() + ci,
                        planned_cells(text@.take(i + 1)) == planned_cells(text@.take(i as int))
                            + cells_of_char(i as int, c),
                        planned_cells(text@.take(i + 1)).len() <= plan.len(),
                        forall|j: int|
                            0 <= j < planned_cells(text@.take(i + 1)).len() ==> planned_cells(
                                text@.take(i + 1),
                            )[j] == plan[j],
                        forall|j: int|
                            0 <= j < out@.len() ==> is_placement_of(
                                #[trigger] out@[j],
                                plan[j],
                                origin@,
                                scale,
                                orientation,
                                offset@,
                                color,
                            ),
                    decreases g@.len() - ci,
                {
                    let ghost j = out@.len() as int;
                    proof {
                        assert(planned_cells(text@.take(i + 1))[j] == (i as int, g@[ci as int]));
                    }
                    let p = g[ci];
                    let turned = orientation.rotate_wide(scaled(p.x, scale.x), scaled(p.y, scale.y), 0);
                    match add_narrow(cursor, turned) {
                        Some(position) => {
                            out.push(Placement { position, orientation, size, color });
                        },
                        None => {
                            assert(!fits3(
                                cell_position(origin@, scale, orientation, offset@, plan[j].0, plan[j].1),
                            ));
                            return None;
                        },
                    }
                    ci = ci + 1;
                }
            }
            match add_narrow(cursor, step) {
                Some(next) => {
                    cursor = next;
                },
                None => {
                    assert(!fits3(cursor_at(origin@, orientation, offset@, (i + 1) as nat)));
                    return None;
                },
            }
            i = i + 1;
        }
        assert(text@.take(chars@.len() as int) =~= text@);
        assert(is_layout(out@, text@, origin@, scale, orientation, offset@, color));
        assert forall|j: int| 0 <= j < plan.len() implies fits3(
            cell_position(origin@, scale, orientation, offset@, plan[j].0, plan[j].1),
        ) by {
            assert(is_placement_of(out@[j], plan[j], origin@, scale, orientation, offset@, color));
        }
        Some(out)
    }
}

} // verus!
