//! Laws of the adapter's state machine, stated over the same spec
//! functions the method contracts use.

use vstd::prelude::*;

verus! {

use crate::imgui_wrapper::AdapterView;
use crate::keymap::spec_ui_key_of;

/// The state after a whole sequence of button events, applied in order.
pub open spec fn apply_button_events(v: AdapterView, events: Seq<(bool, bool, bool)>)
    -> AdapterView
    decreases events.len(),
{
    if events.len() == 0 {
        v
    } else {
        apply_button_events(v, events.drop_last()).with_buttons(
            events.last().0,
            events.last().1,
            events.last().2,
        )
    }
}

/// Law: after any non-empty sequence of button events, the reported
/// button state is exactly the last event's three arguments — earlier
/// events leave no stale state behind.
pub proof fn lemma_buttons_last_event_wins(v: AdapterView, events: Seq<(bool, bool, bool)>)
    requires
        events.len() > 0,
    ensures
        apply_button_events(v, events).pressed == events.last(),
{
}

/// Law: scroll deltas are additive within a frame — two scroll events
/// accumulate to the sum of their deltas on each axis, whatever was
/// already accumulated.
pub proof fn lemma_scroll_additive(v: AdapterView, x1: int, y1: int, x2: int, y2: int)
    ensures
        v.with_scroll(x1, y1).with_scroll(x2, y2).wheel == v.wheel + y1 + y2,
        v.with_scroll(x1, y1).with_scroll(x2, y2).wheel_h == v.wheel_h + x1 + x2,
{
}

/// Law: a render tick consumes the accumulated scroll exactly once —
/// the frame reads the whole accumulated delta and the state left
/// behind holds zero, so a second tick with no scroll event in between
/// reads zero on both axes.
pub proof fn lemma_scroll_drained_once(v: AdapterView, t1: int, t2: int, width: int, height: int,
    hidpi_milli: int)
    ensures
        v.frame_output(t1, width, height, hidpi_milli).wheel == v.wheel,
        v.after_frame(t1).wheel == 0,
        v.after_frame(t1).wheel_h == 0,
        v.after_frame(t1).frame_output(t2, width, height, hidpi_milli).wheel == 0,
        v.after_frame(t1).frame_output(t2, width, height, hidpi_milli).wheel_h == 0,
{
}

/// Law: a popup request alone leaves the flag set — it survives render
/// ticks and every button event without a primary press — and the first
/// primary press clears it.
pub proof fn lemma_popup_flag(v: AdapterView, now: int, secondary: bool, tertiary: bool)
    ensures
        v.with_popup_requested().popup == true,
        v.with_popup_requested().after_frame(now).popup == true,
        v.with_popup_requested().with_buttons(false, secondary, tertiary).popup == true,
        v.with_popup_requested().with_buttons(true, secondary, tertiary).popup == false,
{
}

/// Law: a key event whose code has no UI-library equivalent never
/// mutates the key-state table, pressed or released.
pub proof fn lemma_unmapped_key_leaves_key_state(v: AdapterView, code: u32, pressed: bool,
    shift: bool, ctrl: bool, alt: bool)
    requires
        spec_ui_key_of(code) is None,
    ensures
        v.with_key_event(code, pressed, shift, ctrl, alt).keys == v.keys,
{
}

} // verus!
