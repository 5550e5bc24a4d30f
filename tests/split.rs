use iced_aw::split::{
    divider_position, Axis, DividerStatus, PointerEvent, ResizeDirection, Split, SplitPlan,
    SplitState,
};

#[test]
fn axis_defaults_to_vertical() {
    assert_eq!(Axis::default(), Axis::Vertical);
}

#[test]
fn axis_picks_coordinate() {
    assert_eq!(Axis::Horizontal.along(3, 8), 8);
    assert_eq!(Axis::Vertical.along(3, 8), 3);
}

#[test]
fn divider_defaults_to_middle_less_half_spacing() {
    assert_eq!(divider_position(100, 5, 5, 5, None), Some(48));
}

#[test]
fn divider_request_is_kept_inside_range() {
    assert_eq!(divider_position(100, 5, 5, 5, Some(40)), Some(38));
    assert_eq!(divider_position(100, 5, 5, 5, Some(99)), Some(90));
    assert_eq!(divider_position(100, 5, 5, 5, Some(3)), Some(5));
    assert_eq!(divider_position(100, 5, 5, 5, Some(1)), Some(5));
    assert_eq!(divider_position(100, 5, 0, 0, Some(1)), Some(0));
}

#[test]
fn divider_in_container_of_exact_size() {
    assert_eq!(divider_position(15, 5, 5, 5, None), Some(5));
    assert_eq!(divider_position(15, 5, 5, 5, Some(14)), Some(5));
}

#[test]
fn divider_none_when_container_too_small() {
    assert_eq!(divider_position(14, 5, 5, 5, None), None);
    assert_eq!(divider_position(0, 5, 5, 5, Some(3)), None);
    assert_eq!(divider_position(65535, 65535, 65535, 65535, None), None);
}

#[test]
fn divider_within_bounds_for_every_fitting_size() {
    let (spacing, min_first, min_second) = (7u16, 11u16, 13u16);
    for total in 0u16..400 {
        for requested in [None, Some(0u16), Some(2), Some(17), Some(200), Some(u16::MAX)] {
            let r = divider_position(total, spacing, min_first, min_second, requested);
            if total < spacing + min_first + min_second {
                assert_eq!(r, None);
            } else {
                let p = r.unwrap();
                assert!(min_first <= p && p <= total - min_second - spacing);
            }
        }
    }
}

#[test]
fn divider_at_largest_size() {
    assert_eq!(divider_position(u16::MAX, 0, 0, 0, None), Some(32767));
    assert_eq!(divider_position(u16::MAX, 10, 0, 0, Some(u16::MAX)), Some(65525));
}

#[test]
fn split_new_has_defaults() {
    let s = Split::new(Some(30), Axis::Horizontal);
    assert_eq!(s.divider_position, Some(30));
    assert_eq!(s.axis, Axis::Horizontal);
    assert_eq!(s.padding, 0);
    assert_eq!(s.spacing, 5);
    assert_eq!(s.min_size_first, 5);
    assert_eq!(s.min_size_second, 5);
}

#[test]
fn split_builders_set_one_field() {
    let s = Split::new(None, Axis::Vertical)
        .padding(3)
        .spacing(8)
        .min_size_first(20)
        .min_size_second(30);
    assert_eq!(s.padding, 3);
    assert_eq!(s.spacing, 8);
    assert_eq!(s.min_size_first, 20);
    assert_eq!(s.min_size_second, 30);
    assert_eq!(s.divider_position, None);
    assert_eq!(s.axis, Axis::Vertical);
}

#[test]
fn horizontal_plan_uses_height() {
    let s = Split::new(Some(30), Axis::Horizontal).padding(2);
    assert_eq!(
        s.plan(200, 50),
        SplitPlan::Divided { divider: 28, first_shrink: 22, second_shrink: 33, second_start: 35 }
    );
}

#[test]
fn vertical_plan_uses_width() {
    let s = Split::new(None, Axis::Vertical);
    assert_eq!(
        s.plan(200, 50),
        SplitPlan::Divided { divider: 98, first_shrink: 102, second_shrink: 103, second_start: 103 }
    );
}

#[test]
fn plan_stacks_in_small_container() {
    let s = Split::new(None, Axis::Vertical);
    assert_eq!(s.plan(14, 500), SplitPlan::Stacked);
    let h = Split::new(None, Axis::Horizontal);
    assert_eq!(h.plan(500, 14), SplitPlan::Stacked);
    assert_ne!(h.plan(14, 500), SplitPlan::Stacked);
}

#[test]
fn divider_interaction_follows_axis() {
    let h = Split::new(None, Axis::Horizontal);
    let v = Split::new(None, Axis::Vertical);
    assert_eq!(h.divider_interaction(true), Some(ResizeDirection::Vertically));
    assert_eq!(v.divider_interaction(true), Some(ResizeDirection::Horizontally));
    assert_eq!(v.divider_interaction(false), None);
}

#[test]
fn state_starts_idle() {
    assert!(!SplitState::new().dragging);
    assert!(!SplitState::default().dragging);
}

#[test]
fn press_off_divider_does_not_drag() {
    let mut s = SplitState::new();
    assert_eq!(s.on_pointer(Axis::Vertical, PointerEvent::Pressed, false), None);
    assert!(!s.dragging);
    assert_eq!(s.on_pointer(Axis::Vertical, PointerEvent::Moved { x: 40, y: 9 }, false), None);
}

#[test]
fn drag_emits_one_resize_per_move() {
    let mut s = SplitState::new();
    assert_eq!(s.on_pointer(Axis::Vertical, PointerEvent::Pressed, true), None);
    assert!(s.dragging);
    let mut emitted = Vec::new();
    for x in [10u16, 20, 35] {
        if let Some(m) = s.on_pointer(Axis::Vertical, PointerEvent::Moved { x, y: 99 }, false) {
            emitted.push(m);
        }
    }
    assert_eq!(emitted, vec![10, 20, 35]);
    assert_eq!(s.on_pointer(Axis::Vertical, PointerEvent::Other, false), None);
    assert!(s.dragging);
    assert_eq!(s.on_pointer(Axis::Vertical, PointerEvent::Released, true), None);
    assert!(!s.dragging);
    assert_eq!(s.on_pointer(Axis::Vertical, PointerEvent::Moved { x: 50, y: 1 }, false), None);
}

#[test]
fn horizontal_drag_reports_y() {
    let mut s = SplitState::new();
    s.on_pointer(Axis::Horizontal, PointerEvent::Pressed, true);
    assert_eq!(s.on_pointer(Axis::Horizontal, PointerEvent::Moved { x: 4, y: 77 }, true), Some(77));
}

#[test]
fn press_while_dragging_keeps_dragging() {
    let mut s = SplitState { dragging: true };
    s.on_pointer(Axis::Vertical, PointerEvent::Pressed, false);
    assert!(s.dragging);
}

#[test]
fn divider_status_prefers_dragging() {
    let idle = SplitState::new();
    let dragging = SplitState { dragging: true };
    assert_eq!(idle.divider_status(false), DividerStatus::Active);
    assert_eq!(idle.divider_status(true), DividerStatus::Hovered);
    assert_eq!(dragging.divider_status(false), DividerStatus::Dragged);
    assert_eq!(dragging.divider_status(true), DividerStatus::Dragged);
}
