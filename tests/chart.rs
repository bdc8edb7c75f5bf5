use tiny_text::chart::{next_category, pie_slice_indices, previous_category};

#[test]
fn one_segment_slice_indices() {
    assert_eq!(pie_slice_indices(1), vec![0, 2, 4, 1, 5, 3, 2, 3, 4, 3, 5, 4]);
}

#[test]
fn no_segments_no_triangles() {
    assert!(pie_slice_indices(0).is_empty());
}

#[test]
fn thirty_two_segment_slice_indices() {
    let n = 32u32;
    let idx = pie_slice_indices(n);
    assert_eq!(idx.len(), 12 * n as usize);
    let top = &idx[..3 * n as usize];
    let bottom = &idx[3 * n as usize..6 * n as usize];
    let side = &idx[6 * n as usize..];
    for i in 0..n {
        let k = 3 * i as usize;
        assert_eq!(&top[k..k + 3], &[0, 2 + 2 * i, 4 + 2 * i]);
        assert_eq!(&bottom[k..k + 3], &[1, 5 + 2 * i, 3 + 2 * i]);
        let s = 6 * i as usize;
        assert_eq!(
            &side[s..s + 6],
            &[2 + 2 * i, 3 + 2 * i, 4 + 2 * i, 3 + 2 * i, 5 + 2 * i, 4 + 2 * i]
        );
    }
    let vertices = 2 + 2 * (n + 1);
    assert!(idx.iter().all(|&v| v < vertices));
}

#[test]
fn categories_go_round() {
    assert_eq!(previous_category(0, 7), 6);
    assert_eq!(previous_category(3, 7), 2);
    assert_eq!(next_category(6, 7), 0);
    assert_eq!(next_category(2, 7), 3);
    assert_eq!(next_category(0, 1), 0);
    assert_eq!(previous_category(0, 1), 0);
}
