use servo_ui::range_input::{
    cancel_drag_result, handle_keydown_event, keydown_event_result, mouse_event_result,
    plan_thumb_measurement, CaptureChange, DragState, KeyAction, MouseEventPlan, RangeKey,
    RangeMouseEvent, RangeMouseEventKind, ThumbMeasurement, UserEventResult,
    DEFAULT_RANGE_THUMB_SIZE_AU,
};

fn event(kind: RangeMouseEventKind) -> RangeMouseEvent {
    RangeMouseEvent { kind, button: 0, ctrl_key: false, meta_key: false }
}

fn nothing() -> MouseEventPlan<f64> {
    MouseEventPlan { capture: CaptureChange::Keep, move_thumb: false, change_reference: None }
}

#[test]
fn press_starts_drag_and_captures() {
    let mut state: DragState<f64> = DragState::default();
    let plan = state.handle_mouse_event(event(RangeMouseEventKind::MouseDown), false, 25.0);
    assert_eq!(state, DragState::Dragging { start_value: 25.0, focused_value: 25.0 });
    assert_eq!(plan, MouseEventPlan { capture: CaptureChange::Capture, move_thumb: true, change_reference: None });
}

#[test]
fn secondary_button_or_modifiers_are_ignored() {
    for e in [
        RangeMouseEvent { kind: RangeMouseEventKind::MouseDown, button: 2, ctrl_key: false, meta_key: false },
        RangeMouseEvent { kind: RangeMouseEventKind::MouseDown, button: 0, ctrl_key: true, meta_key: false },
        RangeMouseEvent { kind: RangeMouseEventKind::MouseDown, button: 0, ctrl_key: false, meta_key: true },
    ] {
        let mut state: DragState<f64> = DragState::Idle;
        assert_eq!(state.handle_mouse_event(e, false, 1.0), nothing());
        assert_eq!(state, DragState::Idle);
    }
}

#[test]
fn disabled_element_does_not_drag() {
    let mut state: DragState<f64> = DragState::Idle;
    assert_eq!(state.handle_mouse_event(event(RangeMouseEventKind::MouseDown), true, 1.0), nothing());
    assert_eq!(state, DragState::Idle);
}

#[test]
fn move_only_while_dragging() {
    let mut state: DragState<f64> = DragState::Idle;
    assert_eq!(state.handle_mouse_event(event(RangeMouseEventKind::MouseMove), false, 1.0), nothing());
    state.handle_mouse_event(event(RangeMouseEventKind::MouseDown), false, 3.0);
    let plan = state.handle_mouse_event(event(RangeMouseEventKind::MouseMove), false, 9.0);
    assert_eq!(plan, MouseEventPlan { capture: CaptureChange::Keep, move_thumb: true, change_reference: None });
    assert_eq!(state, DragState::Dragging { start_value: 3.0, focused_value: 3.0 });
}

#[test]
fn release_ends_drag_and_compares_with_focused_value() {
    let mut state: DragState<f64> = DragState::Idle;
    state.handle_mouse_event(event(RangeMouseEventKind::MouseDown), false, 40.0);
    let plan = state.handle_mouse_event(event(RangeMouseEventKind::MouseUp), false, 60.0);
    assert_eq!(state, DragState::Idle);
    assert_eq!(plan, MouseEventPlan { capture: CaptureChange::Release, move_thumb: true, change_reference: Some(40.0) });
    let result = mouse_event_result(&plan, true, true);
    assert_eq!(result, UserEventResult { handled: true, fire_input: true, fire_change: true });
    let result = mouse_event_result(&plan, false, false);
    assert_eq!(result, UserEventResult { handled: true, fire_input: false, fire_change: false });
}

#[test]
fn release_without_drag_does_nothing() {
    let mut state: DragState<f64> = DragState::Idle;
    let plan = state.handle_mouse_event(event(RangeMouseEventKind::MouseUp), false, 1.0);
    assert_eq!(plan, nothing());
    assert_eq!(mouse_event_result(&plan, true, true), UserEventResult::handled());
}

#[test]
fn other_mouse_events_do_nothing() {
    let mut state: DragState<f64> = DragState::Dragging { start_value: 1.0, focused_value: 1.0 };
    assert_eq!(state.handle_mouse_event(event(RangeMouseEventKind::Other), false, 5.0), nothing());
    assert_eq!(state, DragState::Dragging { start_value: 1.0, focused_value: 1.0 });
}

#[test]
fn cancel_restores_start_value() {
    let mut state: DragState<f64> = DragState::Idle;
    state.handle_mouse_event(event(RangeMouseEventKind::MouseDown), false, 12.5);
    state.handle_mouse_event(event(RangeMouseEventKind::MouseMove), false, 80.0);
    let restored = state.cancel_range_drag();
    assert_eq!(restored, Some(12.5));
    assert_eq!(state, DragState::Idle);
    assert_eq!(
        cancel_drag_result(&restored, true),
        UserEventResult { handled: true, fire_input: true, fire_change: false }
    );
    assert_eq!(cancel_drag_result(&restored, false), UserEventResult::handled());
}

#[test]
fn cancel_without_drag_is_unhandled() {
    let mut state: DragState<f64> = DragState::Idle;
    let restored = state.cancel_range_drag();
    assert_eq!(restored, None);
    assert_eq!(cancel_drag_result(&restored, true), UserEventResult::unhandled());
}

#[test]
fn key_bindings() {
    assert_eq!(handle_keydown_event(RangeKey::ArrowDown, false), Some(KeyAction::StepDown(1)));
    assert_eq!(handle_keydown_event(RangeKey::ArrowLeft, false), Some(KeyAction::StepDown(1)));
    assert_eq!(handle_keydown_event(RangeKey::ArrowUp, false), Some(KeyAction::StepUp(1)));
    assert_eq!(handle_keydown_event(RangeKey::ArrowRight, false), Some(KeyAction::StepUp(1)));
    assert_eq!(handle_keydown_event(RangeKey::PageDown, false), Some(KeyAction::StepDown(10)));
    assert_eq!(handle_keydown_event(RangeKey::PageUp, false), Some(KeyAction::StepUp(10)));
    assert_eq!(handle_keydown_event(RangeKey::Home, false), Some(KeyAction::SetToMinimum));
    assert_eq!(handle_keydown_event(RangeKey::End, false), Some(KeyAction::SetToMaximum));
    assert_eq!(handle_keydown_event(RangeKey::Other, false), None);
}

#[test]
fn disabled_ignores_keys() {
    assert_eq!(handle_keydown_event(RangeKey::ArrowUp, true), None);
    assert_eq!(handle_keydown_event(RangeKey::End, true), None);
}

#[test]
fn keydown_outcomes() {
    assert_eq!(keydown_event_result(false, true), UserEventResult::unhandled());
    assert_eq!(keydown_event_result(true, false), UserEventResult::handled());
    assert_eq!(
        keydown_event_result(true, true),
        UserEventResult { handled: true, fire_input: true, fire_change: true }
    );
}

#[test]
fn measured_thumb_of_default_size_keeps_styles() {
    let mut queued = false;
    let d = DEFAULT_RANGE_THUMB_SIZE_AU;
    assert_eq!(d, 18 * 60);
    assert_eq!(plan_thumb_measurement(Some((d, d)), false, &mut queued), ThumbMeasurement::Nothing);
    assert!(!queued);
}

#[test]
fn measured_thumb_of_other_size_restyles() {
    let mut queued = true;
    assert_eq!(
        plan_thumb_measurement(Some((1200, 1080)), false, &mut queued),
        ThumbMeasurement::Restyle { width: 1200, height: 1080 }
    );
    assert!(queued);
}

#[test]
fn unusable_size_queues_once() {
    let mut queued = false;
    assert_eq!(plan_thumb_measurement(None, false, &mut queued), ThumbMeasurement::QueueMeasurement);
    assert!(queued);
    assert_eq!(plan_thumb_measurement(Some((0, 1080)), false, &mut queued), ThumbMeasurement::Nothing);
    assert!(queued);
}

#[test]
fn no_queue_inside_reflow() {
    let mut queued = false;
    assert_eq!(plan_thumb_measurement(Some((1080, -1)), true, &mut queued), ThumbMeasurement::Nothing);
    assert!(!queued);
}

#[test]
fn whole_drag_gesture_compares_with_press_value() {
    let mut state: DragState<f64> = DragState::Idle;
    state.handle_mouse_event(event(RangeMouseEventKind::MouseDown), false, 30.0);
    for v in [31.0, 45.0, 70.0] {
        let plan = state.handle_mouse_event(event(RangeMouseEventKind::MouseMove), false, v);
        assert!(plan.move_thumb);
    }
    let plan = state.handle_mouse_event(event(RangeMouseEventKind::MouseUp), false, 70.0);
    assert_eq!(plan.change_reference, Some(30.0));
    assert_eq!(plan.capture, CaptureChange::Release);
    assert_eq!(state, DragState::Idle);
}
