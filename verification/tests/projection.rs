use index_camera_passthrough::projection::{
    eye_viewport, source_extent, ChangeTracked, EyeViewport, NotSquare,
};

#[test]
fn side_by_side_source_is_accepted() {
    assert_eq!(source_extent([1920, 960, 1]), Ok([1920, 960]));
    assert_eq!(source_extent([0, 0, 1]), Ok([0, 0]));
}

#[test]
fn source_that_is_not_two_squares_is_refused() {
    assert_eq!(
        source_extent([960, 960, 1]),
        Err(NotSquare { width: 960, height: 960 })
    );
    assert_eq!(
        source_extent([1921, 960, 1]),
        Err(NotSquare { width: 1921, height: 960 })
    );
    // Twice the height does not fit in 32 bits: never equal to the width.
    assert_eq!(
        source_extent([0, 0x8000_0000, 1]),
        Err(NotSquare { width: 0, height: 0x8000_0000 })
    );
}

#[test]
fn eyes_are_drawn_side_by_side() {
    let left = eye_viewport([1920, 960], 0);
    let right = eye_viewport([1920, 960], 1);
    assert_eq!(left, EyeViewport { offset_x: 0, width: 960, height: 960 });
    assert_eq!(right, EyeViewport { offset_x: 960, width: 960, height: 960 });
    assert_eq!(left.offset_x + left.width, right.offset_x);
}

#[test]
fn odd_width_leaves_the_last_column() {
    let right = eye_viewport([5, 2], 1);
    assert_eq!(right, EyeViewport { offset_x: 2, width: 2, height: 2 });
}

#[test]
fn new_value_is_pending() {
    let t = ChangeTracked::new([1.0f32, 2.0]);
    assert_eq!(t.pending(), Some(&[1.0, 2.0]));
    assert_eq!(t.value(), &[1.0, 2.0]);
}

#[test]
fn written_value_is_not_pending_until_it_changes() {
    let mut t = ChangeTracked::new([1.0f32, 2.0]);
    t.mark_written();
    assert_eq!(t.pending(), None);
    // Setting the same value changes nothing.
    t.set([1.0, 2.0]);
    assert_eq!(t.pending(), None);
    t.set([1.0, 3.0]);
    assert_eq!(t.pending(), Some(&[1.0, 3.0]));
    t.mark_written();
    assert_eq!(t.pending(), None);
    assert_eq!(t.value(), &[1.0, 3.0]);
}

#[test]
fn unequal_nan_is_set_again() {
    let mut t = ChangeTracked::new(f32::NAN);
    t.mark_written();
    t.set(f32::NAN);
    assert!(t.pending().is_some());
}
