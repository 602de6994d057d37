use share_mouse::screen::{
    ranges_overlap, Edge, EntryPoint, Fraction, ScreenInfo, ScreenLayout, ScreenRect,
};

fn screen(id: &str, x: i32, y: i32, width: u32, height: u32) -> ScreenInfo {
    ScreenInfo {
        id: id.to_string(),
        name: id.to_string(),
        rect: ScreenRect { x, y, width, height },
        peer_id: None,
        width,
        height,
        dpi: 96,
    }
}

fn layout(screens: Vec<ScreenInfo>) -> ScreenLayout {
    ScreenLayout { screens }
}

fn name(found: Option<&ScreenInfo>) -> Option<String> {
    found.map(|s| s.id.clone())
}

#[test]
fn edges_of_a_rectangle() {
    let rect = ScreenRect { x: -100, y: 50, width: 1920, height: 1080 };
    assert_eq!(rect.right(), 1820);
    assert_eq!(rect.bottom(), 1130);
}

#[test]
fn a_length_above_the_signed_range_counts_as_negative() {
    let rect = ScreenRect { x: 0, y: 0, width: 0xffff_ffff, height: 0x8000_0000 };
    assert_eq!(rect.right(), -1);
    assert_eq!(rect.bottom(), i32::MIN);
}

#[test]
fn overlap_needs_a_common_pixel() {
    assert!(ranges_overlap(0, 10, 9, 10));
    assert!(!ranges_overlap(0, 10, 10, 10));
    assert!(ranges_overlap(5, 10, 0, 6));
    assert!(!ranges_overlap(5, 10, 0, 5));
}

#[test]
fn neighbors_on_all_four_sides() {
    let l = layout(vec![
        screen("mid", 0, 0, 100, 100),
        screen("right", 100, 0, 100, 100),
        screen("left", -100, 0, 100, 100),
        screen("below", 0, 100, 100, 100),
        screen("above", 0, -100, 100, 100),
    ]);
    assert_eq!(name(l.find_neighbor("mid", Edge::Right)), Some("right".to_string()));
    assert_eq!(name(l.find_neighbor("mid", Edge::Left)), Some("left".to_string()));
    assert_eq!(name(l.find_neighbor("mid", Edge::Bottom)), Some("below".to_string()));
    assert_eq!(name(l.find_neighbor("mid", Edge::Top)), Some("above".to_string()));
    assert_eq!(name(l.find_neighbor("right", Edge::Left)), Some("mid".to_string()));
    assert_eq!(name(l.find_neighbor("right", Edge::Right)), None);
    assert_eq!(name(l.find_neighbor("unknown", Edge::Right)), None);
}

#[test]
fn small_gaps_are_allowed() {
    for gap in -4..5 {
        let l = layout(vec![screen("a", 0, 0, 100, 100), screen("b", 100 + gap, 0, 100, 100)]);
        assert_eq!(name(l.find_neighbor("a", Edge::Right)), Some("b".to_string()));
    }
    for gap in [-5, 5] {
        let l = layout(vec![screen("a", 0, 0, 100, 100), screen("b", 100 + gap, 0, 100, 100)]);
        assert_eq!(name(l.find_neighbor("a", Edge::Right)), None);
    }
}

#[test]
fn neighbor_must_overlap_along_the_edge() {
    let l = layout(vec![screen("a", 0, 0, 100, 100), screen("b", 100, 100, 100, 100)]);
    assert_eq!(name(l.find_neighbor("a", Edge::Right)), None);
    let l = layout(vec![screen("a", 0, 0, 100, 100), screen("b", 100, 99, 100, 100)]);
    assert_eq!(name(l.find_neighbor("a", Edge::Right)), Some("b".to_string()));
}

#[test]
fn the_first_neighbor_wins() {
    let l = layout(vec![
        screen("a", 0, 0, 100, 100),
        screen("b", 100, 0, 100, 50),
        screen("c", 100, 50, 100, 50),
    ]);
    assert_eq!(name(l.find_neighbor("a", Edge::Right)), Some("b".to_string()));
}

#[test]
fn edge_zone_is_three_pixels() {
    let l = layout(vec![screen("a", 0, 0, 100, 100), screen("b", 100, 0, 100, 100)]);
    assert!(l.detect_edge("a", 96, 50).is_none());
    let (edge, neighbor) = l.detect_edge("a", 97, 50).unwrap();
    assert_eq!(edge, Edge::Right);
    assert_eq!(neighbor.id, "b");
    let (edge, neighbor) = l.detect_edge("b", 103, 50).unwrap();
    assert_eq!(edge, Edge::Left);
    assert_eq!(neighbor.id, "a");
    assert!(l.detect_edge("b", 104, 50).is_none());
    assert!(l.detect_edge("c", 103, 50).is_none());
}

#[test]
fn an_edge_without_neighbor_is_no_crossing() {
    let l = layout(vec![screen("a", 0, 0, 100, 100), screen("b", 0, 100, 100, 100)]);
    assert!(l.detect_edge("a", 99, 50).is_none());
    let (edge, _) = l.detect_edge("a", 99, 99).unwrap();
    assert_eq!(edge, Edge::Bottom);
    let (edge, _) = l.detect_edge("b", 50, 101).unwrap();
    assert_eq!(edge, Edge::Top);
}

#[test]
fn right_is_tried_before_bottom() {
    let l = layout(vec![
        screen("a", 0, 0, 100, 100),
        screen("below", 0, 100, 100, 100),
        screen("right", 100, 0, 100, 100),
    ]);
    let (edge, neighbor) = l.detect_edge("a", 99, 99).unwrap();
    assert_eq!(edge, Edge::Right);
    assert_eq!(neighbor.id, "right");
}

#[test]
fn entry_is_at_the_opposite_side() {
    let l = ScreenLayout::new();
    let target = screen("b", 0, 0, 200, 400);
    let start = Fraction { pos: 0, len: 1 };
    let end = Fraction { pos: 1, len: 1 };
    assert_eq!(
        l.map_cursor_to_neighbor("a", Edge::Right, 99, 100, &target),
        EntryPoint { x: start, y: Fraction { pos: 100, len: 400 } }
    );
    assert_eq!(
        l.map_cursor_to_neighbor("a", Edge::Left, 0, 100, &target),
        EntryPoint { x: end, y: Fraction { pos: 100, len: 400 } }
    );
    assert_eq!(
        l.map_cursor_to_neighbor("a", Edge::Bottom, 50, 99, &target),
        EntryPoint { x: Fraction { pos: 50, len: 200 }, y: start }
    );
    assert_eq!(
        l.map_cursor_to_neighbor("a", Edge::Top, 50, 0, &target),
        EntryPoint { x: Fraction { pos: 50, len: 200 }, y: end }
    );
}

#[test]
fn entry_is_seen_from_the_corner_of_the_neighbor() {
    let l = layout(vec![screen("s", 0, 200, 1920, 1080), screen("n", 1920, 200, 1920, 1080)]);
    let start = Fraction { pos: 0, len: 1 };
    assert_eq!(
        l.map_cursor_to_neighbor("s", Edge::Right, 1919, 200, &l.screens[1]),
        EntryPoint { x: start, y: Fraction { pos: 0, len: 1080 } }
    );
    assert_eq!(
        l.map_cursor_to_neighbor("s", Edge::Right, 1919, 740, &l.screens[1]),
        EntryPoint { x: start, y: Fraction { pos: 540, len: 1080 } }
    );
    let below = screen("b", -100, 1280, 400, 300);
    assert_eq!(
        l.map_cursor_to_neighbor("s", Edge::Bottom, 50, 1279, &below),
        EntryPoint { x: Fraction { pos: 150, len: 400 }, y: start }
    );
}

#[test]
fn entry_to_an_empty_screen_is_an_end() {
    let l = ScreenLayout::new();
    let target = screen("b", 0, 10, 0, 0);
    let at = |y| l.map_cursor_to_neighbor("a", Edge::Right, 0, y, &target).y;
    assert_eq!(at(10), Fraction { pos: 0, len: 1 });
    assert_eq!(at(9), Fraction { pos: 0, len: 1 });
    assert_eq!(at(11), Fraction { pos: 1, len: 1 });
}

#[test]
fn entry_is_clamped_to_the_screen() {
    let l = ScreenLayout::new();
    let target = screen("b", 0, 0, 200, 400);
    let low = l.map_cursor_to_neighbor("a", Edge::Right, 99, -7, &target);
    assert_eq!(low.y, Fraction { pos: 0, len: 400 });
    let high = l.map_cursor_to_neighbor("a", Edge::Right, 99, 1000, &target);
    assert_eq!(high.y, Fraction { pos: 400, len: 400 });
}

#[test]
fn layouts_at_the_limits_are_told_apart() {
    let far = layout(vec![screen("a", i32::MAX - 10, 0, 100, 100)]);
    assert!(!far.can_detect_edge("a", 0, 0));
    assert!(far.can_detect_edge("other", 0, 0));
    let near = layout(vec![screen("a", 0, 0, 100, 100), screen("b", 100, 0, 100, 100)]);
    assert!(near.can_detect_edge("a", 99, 50));
    assert!(near.can_find_neighbor("a", Edge::Right));
}

#[test]
fn clone_keeps_the_layout() {
    let l = layout(vec![screen("a", 0, 0, 100, 100), screen("b", 100, 0, 100, 100)]);
    let copy = l.clone();
    assert_eq!(copy.screens.len(), 2);
    assert_eq!(format!("{:?}", copy.screens[1]), format!("{:?}", l.screens[1]));
}
