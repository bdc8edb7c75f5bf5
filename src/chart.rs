use vstd::prelude::*;

verus! {

/// Vertex numbering of a pie slice mesh with `n` segments: vertex 0 is the centre of the
/// top face and 1 the centre of the bottom face; then for each of the `n + 1` points on
/// the arc, `2 + 2 * i` lies on the top rim and `3 + 2 * i` below it on the bottom rim.
pub open spec fn top_rim(i: int) -> int {
    2 + 2 * i
}

pub open spec fn bottom_rim(i: int) -> int {
    3 + 2 * i
}

/// The triangles of the top face, fanned out from its centre, facing up.
pub open spec fn top_fan(n: nat) -> Seq<int>
    decreases n,
{
    if n == 0 {
        Seq::empty()
    } else {
        let i = n - 1;
        top_fan((n - 1) as nat) + seq![0, top_rim(i), top_rim(i + 1)]
    }
}

/// The triangles of the bottom face, fanned out from its centre, facing down.
pub open spec fn bottom_fan(n: nat) -> Seq<int>
    decreases n,
{
    if n == 0 {
        Seq::empty()
    } else {
        let i = n - 1;
        bottom_fan((n - 1) as nat) + seq![1, bottom_rim(i + 1), bottom_rim(i)]
    }
}

/// The two triangles of each segment of the curved side.
pub open spec fn side_band(n: nat) -> Seq<int>
    decreases n,
{
    if n == 0 {
        Seq::empty()
    } else {
        let i = n - 1;
        side_band((n - 1) as nat) + seq![
            top_rim(i),
            bottom_rim(i),
            top_rim(i + 1),
            bottom_rim(i),
            bottom_rim(i + 1),
            top_rim(i + 1),
        ]
    }
}

/// The index list of a pie slice mesh with `n` segments: top face, bottom face, then side.
pub open spec fn slice_indices(n: nat) -> Seq<int> {
    top_fan(n) + bottom_fan(n) + side_band(n)
}

/// Largest segment count whose vertex numbers fit into `u32`.
pub const MAX_SEGMENTS: u32 = 0x7fff_fffe;

/// The triangle index list of a pie slice mesh with `segments` segments, in the vertex
/// numbering that `top_rim` and `bottom_rim` describe.
pub fn pie_slice_indices(segments: u32) -> (r: Vec<u32>)
    requires
        segments <= MAX_SEGMENTS,
    ensures
        r@.len() == slice_indices(segments as nat).len(),
        forall|k: int| 0 <= k < r@.len() ==> r@[k] as int == #[trigger] slice_indices(segments as nat)[k],
{
    let mut top: Vec<u32> = Vec::new();
    let mut bottom: Vec<u32> = Vec::new();
    let mut side: Vec<u32> = Vec::new();
    let mut i: u32 = 0;
    while i < segments
        invariant
            i <= segments <= MAX_SEGMENTS,
            top@.map_values(|v: u32| v as int) == top_fan(i as nat),
            bottom@.map_values(|v: u32| v as int) == bottom_fan(i as nat),
            side@.map_values(|v: u32| v as int) == side_band(i as nat),
        decreases segments - i,
    {
        let top1 = 2 + i * 2;
        let bottom1 = 3 + i * 2;
        let top2 = 2 + (i + 1) * 2;
        let bottom2 = 3 + (i + 1) * 2;
        let ghost old_top = top@;
        let ghost old_bottom = bottom@;
        let ghost old_side = side@;
        top.push(0);
        top.push(top1);
        top.push(top2);
        bottom.push(1);
        bottom.push(bottom2);
        bottom.push(bottom1);
        side.push(top1);
        side.push(bottom1);
        side.push(top2);
        side.push(bottom1);
        side.push(bottom2);
        side.push(top2);
        assert(top@ == old_top + seq![0u32, top1, top2]);
        assert(top@.map_values(|v: u32| v as int) =~= top_fan((i + 1) as nat));
        assert(bottom@ == old_bottom + seq![1u32, bottom2, bottom1]);
        assert(bottom@.map_values(|v: u32| v as int) =~= bottom_fan((i + 1) as nat));
        assert(side@ == old_side + seq![top1, bottom1, top2, bottom1, bottom2, top2]);
        assert(side@.map_values(|v: u32| v as int) =~= side_band((i + 1) as nat));
        i = i + 1;
    }
    let ghost t = top@;
    let ghost b = bottom@;
    let ghost s = side@;
    top.append(&mut bottom);
    top.append(&mut side);
    assert(top@ == t + b + s);
    assert(top@.map_values(|v: u32| v as int) =~= slice_indices(segments as nat));
    top
}

/// The category before `selected` among `count`, going round from the first to the last.
pub fn previous_category(selected: usize, count: usize) -> (r: usize)
    requires
        selected < count,
    ensures
        r == (if selected == 0 {
            count - 1
        } else {
            selected - 1
        }),
{
    if selected == 0 {
        count - 1
    } else {
        selected - 1
    }
}

/// The category after `selected` among `count`, going round from the last to the first.
pub fn next_category(selected: usize, count: usize) -> (r: usize)
    requires
        selected < count,
    ensures
        r == (selected + 1) % (count as int),
{
    (selected + 1) % count
}

} // verus!
