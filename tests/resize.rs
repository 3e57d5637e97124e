use webseal::resize::{check_bounds, CursorShape, HitTestResult, ResizeEdge};

#[test]
fn classifies_samples_of_an_800_by_600_window() {
    assert_eq!(check_bounds(800, 600, 0, 0), HitTestResult::TopLeft);
    assert_eq!(check_bounds(800, 600, 400, 0), HitTestResult::Top);
    assert_eq!(check_bounds(800, 600, 799, 0), HitTestResult::TopRight);
    assert_eq!(check_bounds(800, 600, 400, 300), HitTestResult::Client);
    assert_eq!(check_bounds(800, 600, 0, 300), HitTestResult::Left);
    assert_eq!(check_bounds(800, 600, 799, 599), HitTestResult::BottomRight);
    assert_eq!(check_bounds(800, 600, -1, 300), HitTestResult::Left);
    assert_eq!(check_bounds(800, 600, 400, 599), HitTestResult::Bottom);
}

#[test]
fn remaining_regions_and_band_limits() {
    assert_eq!(check_bounds(800, 600, 799, 300), HitTestResult::Right);
    assert_eq!(check_bounds(800, 600, 0, 599), HitTestResult::BottomLeft);
    assert_eq!(check_bounds(800, 600, 4, 300), HitTestResult::Left);
    assert_eq!(check_bounds(800, 600, 5, 300), HitTestResult::Client);
    assert_eq!(check_bounds(800, 600, 794, 300), HitTestResult::Client);
    assert_eq!(check_bounds(800, 600, 795, 300), HitTestResult::Right);
    assert_eq!(check_bounds(800, 600, 400, 4), HitTestResult::Top);
    assert_eq!(check_bounds(800, 600, 400, 595), HitTestResult::Bottom);
}

#[test]
fn repeated_classification_gives_the_same_region() {
    let samples = [(800, 600, 3, 3), (800, 600, 400, 300), (6, 6, 2, 2), (1920, 1080, 1919, 540)];
    for (w, h, x, y) in samples {
        let first = check_bounds(w, h, x, y);
        for _ in 0..5 {
            assert_eq!(check_bounds(w, h, x, y), first);
        }
    }
}

#[test]
fn degenerate_window_falls_to_nowhere() {
    // A window narrower than twice the inset: a sample can sit in both the
    // left and the right band.
    assert_eq!(check_bounds(6, 600, 2, 300), HitTestResult::NoWhere);
    assert_eq!(check_bounds(600, 6, 300, 2), HitTestResult::NoWhere);
    assert_eq!(check_bounds(0, 0, 100, 100), HitTestResult::BottomRight);
}

#[test]
fn extreme_coordinates_do_not_overflow() {
    assert_eq!(check_bounds(i32::MIN, i32::MIN, i32::MAX, i32::MAX), HitTestResult::BottomRight);
    assert_eq!(check_bounds(i32::MAX, i32::MAX, i32::MIN, i32::MIN), HitTestResult::TopLeft);
}

#[test]
fn frame_regions_map_to_directions_and_cursors() {
    assert_eq!(HitTestResult::Left.resize_edge(), Some(ResizeEdge::West));
    assert_eq!(HitTestResult::Right.resize_edge(), Some(ResizeEdge::East));
    assert_eq!(HitTestResult::Top.resize_edge(), Some(ResizeEdge::North));
    assert_eq!(HitTestResult::Bottom.resize_edge(), Some(ResizeEdge::South));
    assert_eq!(HitTestResult::TopLeft.resize_edge(), Some(ResizeEdge::NorthWest));
    assert_eq!(HitTestResult::TopRight.resize_edge(), Some(ResizeEdge::NorthEast));
    assert_eq!(HitTestResult::BottomLeft.resize_edge(), Some(ResizeEdge::SouthWest));
    assert_eq!(HitTestResult::BottomRight.resize_edge(), Some(ResizeEdge::SouthEast));
    assert_eq!(HitTestResult::Client.resize_edge(), None);
    assert_eq!(HitTestResult::NoWhere.resize_edge(), None);

    assert_eq!(HitTestResult::Left.cursor_shape(), CursorShape::WResize);
    assert_eq!(HitTestResult::Right.cursor_shape(), CursorShape::EResize);
    assert_eq!(HitTestResult::Top.cursor_shape(), CursorShape::NResize);
    assert_eq!(HitTestResult::Bottom.cursor_shape(), CursorShape::SResize);
    assert_eq!(HitTestResult::TopLeft.cursor_shape(), CursorShape::NwResize);
    assert_eq!(HitTestResult::TopRight.cursor_shape(), CursorShape::NeResize);
    assert_eq!(HitTestResult::BottomLeft.cursor_shape(), CursorShape::SwResize);
    assert_eq!(HitTestResult::BottomRight.cursor_shape(), CursorShape::SeResize);
    assert_eq!(HitTestResult::Client.cursor_shape(), CursorShape::Default);
    assert_eq!(HitTestResult::NoWhere.cursor_shape(), CursorShape::Default);
}
