//! The decisions of `<input type=range>`: pointer dragging of the thumb,
//! keyboard stepping, and when the thumb is measured.
//!
//! Each decision is a function from the slider's state and an event to the
//! next state and what is to be done. The caller performs the work (reads
//! and writes the element's value, captures the pointer, positions the
//! thumb) and reports back what happened, from which the event's outcome is
//! computed. Values of the element are carried through as `V` and never
//! inspected here.
use vstd::prelude::*;

verus! {

/// Whether a pointer drag of the thumb is in progress. While dragging, it
/// remembers the value the drag started from (restored when the drag is
/// cancelled) and the value the element had when it got focus for the drag
/// (compared against on release to decide on `change`).
#[derive(Clone, Copy, Debug, PartialEq)]
pub enum DragState<V> {
    Idle,
    Dragging { start_value: V, focused_value: V },
}

impl<V> Default for DragState<V> {
    fn default() -> (r: Self)
        ensures
            r is Idle,
    {
        DragState::Idle
    }
}

/// The outcome of a user event on the element: whether it was handled, and
/// which events the caller is to fire after it has finished.
#[derive(Clone, Copy, Debug, PartialEq, Eq, Structural)]
pub struct UserEventResult {
    pub handled: bool,
    pub fire_input: bool,
    pub fire_change: bool,
}

impl UserEventResult {
    /// Handled, firing nothing (yet).
    pub fn handled() -> (r: UserEventResult)
        ensures
            r == (UserEventResult { handled: true, fire_input: false, fire_change: false }),
    {
        UserEventResult { handled: true, fire_input: false, fire_change: false }
    }

    /// Not handled, firing nothing.
    pub fn unhandled() -> (r: UserEventResult)
        ensures
            r == (UserEventResult { handled: false, fire_input: false, fire_change: false }),
    {
        UserEventResult { handled: false, fire_input: false, fire_change: false }
    }
}

/// The type of a mouse event delivered to the element.
#[derive(Clone, Copy, Debug, PartialEq, Eq, Structural)]
pub enum RangeMouseEventKind {
    MouseDown,
    MouseMove,
    MouseUp,
    Other,
}

/// What the drag logic reads of a mouse event.
#[derive(Clone, Copy, Debug, PartialEq, Eq, Structural)]
pub struct RangeMouseEvent {
    pub kind: RangeMouseEventKind,
    /// The DOM `button` of the event; 0 is the primary button.
    pub button: i16,
    pub ctrl_key: bool,
    pub meta_key: bool,
}

/// What becomes of the element's pointer capture.
#[derive(Clone, Copy, Debug, PartialEq, Eq, Structural)]
pub enum CaptureChange {
    Keep,
    Capture,
    Release,
}

/// What the caller is to do for a mouse event, in this order: change the
/// pointer capture if it is `Capture`; if `move_thumb`, set the value to the
/// one at the event's position; change the capture if it is `Release`; if
/// `change_reference` holds a value, fire `change` when the element's value
/// now differs from it.
#[derive(Clone, Copy, Debug, PartialEq)]
pub struct MouseEventPlan<V> {
    pub capture: CaptureChange,
    pub move_thumb: bool,
    pub change_reference: Option<V>,
}

/// A primary-button press with neither Ctrl nor Meta held (the Gecko
/// convention), on an element that is not disabled: this starts a drag.
pub open spec fn starts_drag(event: RangeMouseEvent, disabled: bool) -> bool {
    &&& event.kind == RangeMouseEventKind::MouseDown
    &&& event.button == 0
    &&& !event.ctrl_key
    &&& !event.meta_key
    &&& !disabled
}

/// The drag state after a mouse event: an accepted press starts a drag from
/// the element's current value, a release ends any drag, and nothing else
/// changes the state.
pub open spec fn mouse_next_state<V>(
    state: DragState<V>,
    event: RangeMouseEvent,
    disabled: bool,
    current_value: V,
) -> DragState<V> {
    if starts_drag(event, disabled) {
        DragState::Dragging { start_value: current_value, focused_value: current_value }
    } else if event.kind == RangeMouseEventKind::MouseUp {
        DragState::Idle
    } else {
        state
    }
}

/// The work to do for a mouse event: an accepted press captures the pointer
/// and moves the thumb; a move during a drag moves the thumb; a release
/// during a drag moves the thumb, releases the capture and fires `change`
/// when the value differs from the focused value; anything else does
/// nothing.
pub open spec fn mouse_plan<V>(
    state: DragState<V>,
    event: RangeMouseEvent,
    disabled: bool,
) -> MouseEventPlan<V> {
    if starts_drag(event, disabled) {
        MouseEventPlan { capture: CaptureChange::Capture, move_thumb: true, change_reference: None }
    } else if event.kind == RangeMouseEventKind::MouseMove && state is Dragging {
        MouseEventPlan { capture: CaptureChange::Keep, move_thumb: true, change_reference: None }
    } else if event.kind == RangeMouseEventKind::MouseUp && state is Dragging {
        MouseEventPlan {
            capture: CaptureChange::Release,
            move_thumb: true,
            change_reference: Some(state->focused_value),
        }
    } else {
        MouseEventPlan { capture: CaptureChange::Keep, move_thumb: false, change_reference: None }
    }
}

/// What a cancelled drag restores: the value the drag started from, if a
/// drag is in progress.
pub open spec fn cancel_restores<V>(state: DragState<V>) -> Option<V> {
    match state {
        DragState::Dragging { start_value, .. } => Some(start_value),
        DragState::Idle => None,
    }
}

impl<V: Copy> DragState<V> {
    /// Handles a mouse event on the element. `disabled` is the element's
    /// disabled state and `current_value` its value as a number; events are
    /// not fired from here, the caller fires them from the outcome.
    pub fn handle_mouse_event(
        &mut self,
        event: RangeMouseEvent,
        disabled: bool,
        current_value: V,
    ) -> (r: MouseEventPlan<V>)
        ensures
            *final(self) == mouse_next_state(*old(self), event, disabled, current_value),
            r == mouse_plan(*old(self), event, disabled),
            event.kind == RangeMouseEventKind::MouseDown && (event.button != 0 || event.ctrl_key
                || event.meta_key || disabled) ==> {
                &&& *final(self) == *old(self)
                &&& r == (MouseEventPlan::<V> {
                    capture: CaptureChange::Keep,
                    move_thumb: false,
                    change_reference: None,
                })
            },
            event.kind == RangeMouseEventKind::MouseDown && event.button == 0 && !event.ctrl_key
                && !event.meta_key && !disabled ==> {
                &&& *final(self) == (DragState::Dragging {
                    start_value: current_value,
                    focused_value: current_value,
                })
                &&& r == (MouseEventPlan::<V> {
                    capture: CaptureChange::Capture,
                    move_thumb: true,
                    change_reference: None,
                })
            },
    {
        let keep = MouseEventPlan {
            capture: CaptureChange::Keep,
            move_thumb: false,
            change_reference: None,
        };
        match event.kind {
            RangeMouseEventKind::MouseDown => {
                // Primary button only, no Cmd/Ctrl modifier.
                if event.button != 0 || event.ctrl_key || event.meta_key {
                    return keep;
                }
                if disabled {
                    return keep;
                }
                *self = DragState::Dragging {
                    start_value: current_value,
                    focused_value: current_value,
                };
                MouseEventPlan {
                    capture: CaptureChange::Capture,
                    move_thumb: true,
                    change_reference: None,
                }
            },
            RangeMouseEventKind::MouseMove => {
                match *self {
                    DragState::Dragging { .. } => MouseEventPlan {
                        capture: CaptureChange::Keep,
                        move_thumb: true,
                        change_reference: None,
                    },
                    DragState::Idle => keep,
                }
            },
            RangeMouseEventKind::MouseUp => {
                match *self {
                    DragState::Dragging { focused_value, .. } => {
                        *self = DragState::Idle;
                        MouseEventPlan {
                            capture: CaptureChange::Release,
                            move_thumb: true,
                            change_reference: Some(focused_value),
                        }
                    },
                    DragState::Idle => keep,
                }
            },
            RangeMouseEventKind::Other => keep,
        }
    }

    /// Cancels a drag in progress: the state becomes idle, and the value the
    /// drag started from is returned for the caller to restore. `None` when
    /// no drag was in progress.
    pub fn cancel_range_drag(&mut self) -> (r: Option<V>)
        ensures
            *final(self) is Idle,
            r == cancel_restores(*old(self)),
    {
        match *self {
            DragState::Dragging { start_value, .. } => {
                *self = DragState::Idle;
                Some(start_value)
            },
            DragState::Idle => None,
        }
    }
}

/// The outcome of a mouse event, given its plan, whether moving the thumb
/// changed the element's value, and whether the value differs from the
/// plan's change reference after the event. Mouse events are always
/// handled.
pub fn mouse_event_result<V>(
    plan: &MouseEventPlan<V>,
    value_changed: bool,
    differs_from_reference: bool,
) -> (r: UserEventResult)
    ensures
        r.handled,
        r.fire_input == (plan.move_thumb && value_changed),
        r.fire_change == (plan.change_reference is Some && differs_from_reference),
{
    let mut result = UserEventResult::handled();
    if plan.move_thumb && value_changed {
        result.fire_input = true;
    }
    if plan.change_reference.is_some() && differs_from_reference {
        result.fire_change = true;
    }
    result
}

/// The outcome of cancelling a drag, given what the cancel restores and
/// whether restoring changed the element's value. Without a drag in
/// progress the cancel is not handled.
pub fn cancel_drag_result<V>(restored: &Option<V>, value_changed: bool) -> (r: UserEventResult)
    ensures
        r.handled == restored.is_some(),
        r.fire_input == (restored.is_some() && value_changed),
        !r.fire_change,
{
    match restored {
        Some(_) => {
            let mut result = UserEventResult::handled();
            if value_changed {
                result.fire_input = true;
            }
            result
        },
        None => UserEventResult::unhandled(),
    }
}

/// Whether the element holds the pointer capture after `change` is applied
/// to a capture state of `captured`.
pub open spec fn captured_after(captured: bool, change: CaptureChange) -> bool {
    match change {
        CaptureChange::Keep => captured,
        CaptureChange::Capture => true,
        CaptureChange::Release => false,
    }
}

/// Cancelling a drag that a press started restores the value the element
/// had at the press.
pub proof fn lemma_cancel_restores_press_value<V>(
    state: DragState<V>,
    press: RangeMouseEvent,
    disabled: bool,
    value: V,
)
    requires
        starts_drag(press, disabled),
    ensures
        cancel_restores(mouse_next_state(state, press, disabled, value)) == Some(value),
{
}

/// A release always ends the drag, whatever the state before it.
pub proof fn lemma_release_ends_drag<V>(
    state: DragState<V>,
    release: RangeMouseEvent,
    disabled: bool,
    value: V,
)
    requires
        release.kind == RangeMouseEventKind::MouseUp,
    ensures
        mouse_next_state(state, release, disabled, value) is Idle,
{
}

/// Without a drag in progress, every mouse event but an accepted press is
/// ignored: the state stays idle and nothing is to be done.
pub proof fn lemma_idle_ignores_all_but_press<V>(event: RangeMouseEvent, disabled: bool, value: V)
    requires
        !starts_drag(event, disabled),
    ensures
        mouse_next_state(DragState::<V>::Idle, event, disabled, value) is Idle,
        mouse_plan(DragState::<V>::Idle, event, disabled) == (MouseEventPlan::<V> {
            capture: CaptureChange::Keep,
            move_thumb: false,
            change_reference: None,
        }),
{
}

/// The element holds the pointer capture exactly while a drag is in
/// progress: applying a mouse event's capture change to "captured while
/// dragging" gives "captured while dragging" again.
pub proof fn lemma_capture_tracks_drag<V>(
    state: DragState<V>,
    event: RangeMouseEvent,
    disabled: bool,
    value: V,
)
    ensures
        captured_after(state is Dragging, mouse_plan(state, event, disabled).capture)
            == mouse_next_state(state, event, disabled, value) is Dragging,
{
}

/// `change` is only ever considered on the release that ends a drag, and
/// against the value the element had when the drag began.
pub proof fn lemma_change_only_on_release<V>(
    state: DragState<V>,
    event: RangeMouseEvent,
    disabled: bool,
    value: V,
)
    ensures
        mouse_plan(state, event, disabled).change_reference is Some ==> {
            &&& event.kind == RangeMouseEventKind::MouseUp
            &&& state is Dragging
            &&& mouse_plan(state, event, disabled).change_reference == Some(state->focused_value)
            &&& mouse_next_state(state, event, disabled, value) is Idle
        },
{
}

/// The drag state after a sequence of mouse events, delivered in order, on
/// an element whose disabled state and value stay as given.
pub open spec fn mouse_events_state<V>(
    state: DragState<V>,
    events: Seq<RangeMouseEvent>,
    disabled: bool,
    current_value: V,
) -> DragState<V>
    decreases events.len(),
{
    if events.len() == 0 {
        state
    } else {
        mouse_events_state(
            mouse_next_state(state, events[0], disabled, current_value),
            events.drop_first(),
            disabled,
            current_value,
        )
    }
}

/// Moves of the pointer leave the drag state as it is, however many.
pub proof fn lemma_moves_keep_state<V>(
    state: DragState<V>,
    moves: Seq<RangeMouseEvent>,
    disabled: bool,
    value: V,
)
    requires
        forall|i: int| 0 <= i < moves.len() ==> #[trigger] moves[i].kind == RangeMouseEventKind::MouseMove,
    ensures
        mouse_events_state(state, moves, disabled, value) == state,
    decreases moves.len(),
{
    if moves.len() > 0 {
        assert(moves[0].kind == RangeMouseEventKind::MouseMove);
        let rest = moves.drop_first();
        assert forall|i: int| 0 <= i < rest.len() implies #[trigger] rest[i].kind
            == RangeMouseEventKind::MouseMove by {
            assert(rest[i] == moves[i + 1]);
        }
        lemma_moves_keep_state(state, rest, disabled, value);
    }
}

/// A whole drag: an accepted press, any number of moves, then a release or
/// a cancel. The release ends the drag, moving the thumb, releasing the
/// capture and comparing for `change` against the value at the press; a
/// cancel instead restores the value at the press. Every move during the
/// drag moves the thumb.
pub proof fn lemma_drag_gesture<V>(
    state: DragState<V>,
    press: RangeMouseEvent,
    moves: Seq<RangeMouseEvent>,
    release: RangeMouseEvent,
    disabled: bool,
    press_value: V,
    move_disabled: bool,
    move_value: V,
    release_disabled: bool,
    release_value: V,
)
    requires
        starts_drag(press, disabled),
        forall|i: int| 0 <= i < moves.len() ==> #[trigger] moves[i].kind == RangeMouseEventKind::MouseMove,
        release.kind == RangeMouseEventKind::MouseUp,
    ensures
        ({
            let dragging = mouse_next_state(state, press, disabled, press_value);
            let before_release = mouse_events_state(dragging, moves, move_disabled, move_value);
            &&& before_release == (DragState::Dragging {
                start_value: press_value,
                focused_value: press_value,
            })
            &&& forall|i: int|
                0 <= i < moves.len() ==> #[trigger] mouse_plan(before_release, moves[i], move_disabled).move_thumb
            &&& mouse_plan(before_release, release, release_disabled) == (MouseEventPlan {
                capture: CaptureChange::Release,
                move_thumb: true,
                change_reference: Some(press_value),
            })
            &&& mouse_next_state(before_release, release, release_disabled, release_value) is Idle
            &&& cancel_restores(before_release) == Some(press_value)
        }),
{
    let dragging = mouse_next_state(state, press, disabled, press_value);
    lemma_moves_keep_state(dragging, moves, move_disabled, move_value);
}

/// Only a press of the primary button with neither Ctrl nor Meta, on an
/// element that is not disabled, starts a drag; any other press leaves the
/// state as it is and asks for nothing.
pub proof fn lemma_only_primary_press_starts_drag<V>(
    state: DragState<V>,
    press: RangeMouseEvent,
    disabled: bool,
    value: V,
)
    requires
        press.kind == RangeMouseEventKind::MouseDown,
    ensures
        mouse_next_state(state, press, disabled, value) != state ==> press.button == 0
            && !press.ctrl_key && !press.meta_key && !disabled,
        (press.button != 0 || press.ctrl_key || press.meta_key || disabled) ==> {
            &&& mouse_next_state(state, press, disabled, value) == state
            &&& mouse_plan(state, press, disabled) == (MouseEventPlan::<V> {
                capture: CaptureChange::Keep,
                move_thumb: false,
                change_reference: None,
            })
        },
        (press.button == 0 && !press.ctrl_key && !press.meta_key && !disabled) ==> {
            &&& mouse_next_state(state, press, disabled, value) == (DragState::Dragging {
                start_value: value,
                focused_value: value,
            })
            &&& mouse_plan(state, press, disabled).capture == CaptureChange::Capture
            &&& mouse_plan(state, press, disabled).move_thumb
        },
{
}

/// The keys the element reacts to; every other key is `Other`.
#[derive(Clone, Copy, Debug, PartialEq, Eq, Structural)]
pub enum RangeKey {
    ArrowDown,
    ArrowLeft,
    ArrowUp,
    ArrowRight,
    PageDown,
    PageUp,
    Home,
    End,
    Other,
}

/// What a key does to the element's value.
#[derive(Clone, Copy, Debug, PartialEq, Eq, Structural)]
pub enum KeyAction {
    /// `stepDown(n)`.
    StepDown(i32),
    /// `stepUp(n)`.
    StepUp(i32),
    /// Set the value to the minimum, if the element has one.
    SetToMinimum,
    /// Set the value to the maximum, if the element has one.
    SetToMaximum,
}

/// The key bindings of the slider: arrows down and left step down once,
/// arrows up and right step up once, Page Down and Page Up step ten times,
/// Home and End go to the minimum and maximum.
pub open spec fn key_binding(key: RangeKey) -> Option<KeyAction> {
    match key {
        RangeKey::ArrowDown => Some(KeyAction::StepDown(1)),
        RangeKey::ArrowLeft => Some(KeyAction::StepDown(1)),
        RangeKey::ArrowUp => Some(KeyAction::StepUp(1)),
        RangeKey::ArrowRight => Some(KeyAction::StepUp(1)),
        RangeKey::PageDown => Some(KeyAction::StepDown(10)),
        RangeKey::PageUp => Some(KeyAction::StepUp(10)),
        RangeKey::Home => Some(KeyAction::SetToMinimum),
        RangeKey::End => Some(KeyAction::SetToMaximum),
        RangeKey::Other => None,
    }
}

/// What a key press does on the element: nothing when it is disabled,
/// else its binding. `None` means the event is not handled.
pub fn handle_keydown_event(key: RangeKey, disabled: bool) -> (r: Option<KeyAction>)
    ensures
        r == (if disabled { None } else { key_binding(key) }),
{
    if disabled {
        return None;
    }
    match key {
        RangeKey::ArrowDown | RangeKey::ArrowLeft => Some(KeyAction::StepDown(1)),
        RangeKey::ArrowUp | RangeKey::ArrowRight => Some(KeyAction::StepUp(1)),
        RangeKey::PageDown => Some(KeyAction::StepDown(10)),
        RangeKey::PageUp => Some(KeyAction::StepUp(10)),
        RangeKey::Home => Some(KeyAction::SetToMinimum),
        RangeKey::End => Some(KeyAction::SetToMaximum),
        RangeKey::Other => None,
    }
}

/// The reverse of a key action: stepping the other way by as many steps,
/// or going to the other end.
pub open spec fn reverse_action(a: KeyAction) -> KeyAction {
    match a {
        KeyAction::StepDown(n) => KeyAction::StepUp(n),
        KeyAction::StepUp(n) => KeyAction::StepDown(n),
        KeyAction::SetToMinimum => KeyAction::SetToMaximum,
        KeyAction::SetToMaximum => KeyAction::SetToMinimum,
    }
}

/// The bound keys come in opposite pairs: Arrow Down and Arrow Up, Arrow
/// Left and Arrow Right, Page Down and Page Up, Home and End each do the
/// reverse of the other.
pub proof fn lemma_key_bindings_pair_up()
    ensures
        key_binding(RangeKey::ArrowUp) == Some(reverse_action(key_binding(RangeKey::ArrowDown).unwrap())),
        key_binding(RangeKey::ArrowRight) == Some(reverse_action(key_binding(RangeKey::ArrowLeft).unwrap())),
        key_binding(RangeKey::PageUp) == Some(reverse_action(key_binding(RangeKey::PageDown).unwrap())),
        key_binding(RangeKey::End) == Some(reverse_action(key_binding(RangeKey::Home).unwrap())),
{
}

/// The outcome of a key press, given whether its action was performed
/// successfully and whether the element's value changed: handled only on
/// success, and then `input` and `change` fire together, exactly when the
/// value changed.
pub fn keydown_event_result(performed: bool, value_changed: bool) -> (r: UserEventResult)
    ensures
        r.handled == performed,
        r.fire_input == (performed && value_changed),
        r.fire_change == (performed && value_changed),
{
    if !performed {
        return UserEventResult::unhandled();
    }
    let mut result = UserEventResult::handled();
    if value_changed {
        result.fire_input = true;
        result.fire_change = true;
    }
    result
}

/// The size, in app units, of the thumb before it has been measured: 18 CSS
/// pixels each way.
pub const DEFAULT_RANGE_THUMB_SIZE_AU: i32 = 1080;

/// What to do about the thumb's measured size after the default styles have
/// been written.
#[derive(Clone, Copy, Debug, PartialEq, Eq, Structural)]
pub enum ThumbMeasurement {
    /// Rewrite the thumb and fill styles with this measured size, in app
    /// units.
    Restyle { width: i32, height: i32 },
    /// Queue a task that measures the thumb once the DOM is stable.
    QueueMeasurement,
    /// The default styles stand.
    Nothing,
}

/// Whether a measured thumb size is usable: both sides positive.
pub open spec fn usable_size(size: Option<(i32, i32)>) -> bool {
    size matches Some((w, h)) && w > 0 && h > 0
}

/// Decides about the thumb's size. `measured` is its border-box size when
/// layout has one; `allow_reflow` says whether the measurement could force
/// a reflow (it can inside the queued task); `task_queued` says whether a
/// measurement task is pending. A usable size other than the default
/// restyles the thumb; without a usable size, a task is queued only outside
/// a reflow and only when none is pending, so at most one is pending at any
/// time.
pub fn plan_thumb_measurement(
    measured: Option<(i32, i32)>,
    allow_reflow: bool,
    task_queued: &mut bool,
) -> (r: ThumbMeasurement)
    ensures
        usable_size(measured) ==> {
            let (w, h) = measured.unwrap();
            &&& r == (if w != DEFAULT_RANGE_THUMB_SIZE_AU || h != DEFAULT_RANGE_THUMB_SIZE_AU {
                ThumbMeasurement::Restyle { width: w, height: h }
            } else {
                ThumbMeasurement::Nothing
            })
            &&& *final(task_queued) == *old(task_queued)
        },
        !usable_size(measured) ==> {
            &&& r == (if !allow_reflow && !*old(task_queued) {
                ThumbMeasurement::QueueMeasurement
            } else {
                ThumbMeasurement::Nothing
            })
            &&& *final(task_queued) == (*old(task_queued) || r == ThumbMeasurement::QueueMeasurement)
        },
        forall|w: i32, h: i32|
            measured == Some((w, h)) && w > 0 && h > 0 ==> {
                &&& *final(task_queued) == *old(task_queued)
                &&& r == (if w == DEFAULT_RANGE_THUMB_SIZE_AU && h == DEFAULT_RANGE_THUMB_SIZE_AU {
                    ThumbMeasurement::Nothing
                } else {
                    ThumbMeasurement::Restyle { width: w, height: h }
                })
            },
        forall|w: i32, h: i32|
            measured == Some((w, h)) && (w <= 0 || h <= 0) && !allow_reflow && !*old(task_queued)
                ==> r == ThumbMeasurement::QueueMeasurement && *final(task_queued),
        measured is None && !allow_reflow && !*old(task_queued) ==> r
            == ThumbMeasurement::QueueMeasurement && *final(task_queued),
        r == ThumbMeasurement::QueueMeasurement ==> !allow_reflow && !*old(task_queued),
{
    let usable = match measured {
        Some((w, h)) => w > 0 && h > 0,
        None => false,
    };
    if usable {
        let (w, h) = measured.unwrap();
        if w != DEFAULT_RANGE_THUMB_SIZE_AU || h != DEFAULT_RANGE_THUMB_SIZE_AU {
            ThumbMeasurement::Restyle { width: w, height: h }
        } else {
            ThumbMeasurement::Nothing
        }
    } else if !allow_reflow && !*task_queued {
        *task_queued = true;
        ThumbMeasurement::QueueMeasurement
    } else {
        ThumbMeasurement::Nothing
    }
}

/// A measured size is usable exactly when both its sides are positive.
pub proof fn lemma_usable_size_is_positive(w: i32, h: i32)
    ensures
        usable_size(Some((w, h))) <==> (w > 0 && h > 0),
        !usable_size(None),
{
}

} // verus!
