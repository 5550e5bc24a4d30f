//! A context menu shows a floating overlay where the user last right-clicked.
//!
//! The state is generic over the position type, which the menu records and
//! hands back but never reads.
use vstd::prelude::*;

verus! {

/// The state of a context menu.
#[derive(Debug)]
pub struct State<P> {
    /// Whether the overlay is shown.
    pub show: bool,
    /// Where the last right click that toggled the menu was made.
    pub cursor_position: P,
}

/// Which content the menu's calls go to.
#[derive(Clone, Copy, Debug, PartialEq, Eq, Structural)]
pub enum Target {
    /// The element that the menu wraps.
    Underlay,
    /// The content of the menu's overlay.
    Overlay,
}

/// The overlay receives the calls while it is shown, the wrapped element
/// otherwise.
pub open spec fn target_of(show: bool) -> Target {
    if show {
        Target::Overlay
    } else {
        Target::Underlay
    }
}

/// The state after an event: a right press over the menu's bounds toggles
/// the overlay and records `position`; any other event leaves it as it was.
pub open spec fn next_state<P>(s: State<P>, right_press: bool, over_bounds: bool, position: P) -> State<P> {
    if right_press && over_bounds {
        State { show: !s.show, cursor_position: position }
    } else {
        s
    }
}

impl<P> State<P> {
    /// A state with the overlay hidden, recording `origin` as the position.
    pub fn new(origin: P) -> (r: Self)
        ensures
            !r.show,
            r.cursor_position == origin,
    {
        State { show: false, cursor_position: origin }
    }

    /// Handles an event: `right_press` tells whether it is a press of the
    /// right mouse button, `over_bounds` whether the cursor is over the menu,
    /// and `position` is the cursor's position. Returns whether the menu
    /// captured the event; one it does not capture goes on to the wrapped
    /// element.
    pub fn on_event(&mut self, right_press: bool, over_bounds: bool, position: P) -> (captured: bool)
        ensures
            captured == (right_press && over_bounds),
            *final(self) == next_state(*old(self), right_press, over_bounds, position),
            captured ==> final(self).show == !old(self).show,
    {
        if right_press && over_bounds {
            self.cursor_position = position;
            self.show = !self.show;
            true
        } else {
            false
        }
    }

    /// Where layout, drawing and operations go: to the overlay's content
    /// while it is shown, to the wrapped element otherwise.
    pub fn target(&self) -> (r: Target)
        ensures
            r == target_of(self.show),
    {
        if self.show {
            Target::Overlay
        } else {
            Target::Underlay
        }
    }
}

/// The state after a run of events, each given as whether it is a right
/// press, whether the cursor is over the menu, and the cursor's position.
pub open spec fn state_after<P>(s: State<P>, events: Seq<(bool, bool, P)>) -> State<P>
    decreases events.len(),
{
    if events.len() == 0 {
        s
    } else {
        let (right_press, over, position) = events[0];
        state_after(next_state(s, right_press, over, position), events.drop_first())
    }
}

/// Whether an event is a right press over the menu.
pub open spec fn is_toggle<P>(event: (bool, bool, P)) -> bool {
    event.0 && event.1
}

/// Until a right press over the menu toggles it, the state stays as it is:
/// an open menu keeps sending every call to its overlay, a closed one to the
/// wrapped element.
pub proof fn lemma_target_kept_until_toggle<P>(s: State<P>, events: Seq<(bool, bool, P)>)
    requires
        forall|i: int| 0 <= i < events.len() ==> !is_toggle(#[trigger] events[i]),
    ensures
        state_after(s, events) == s,
        target_of(state_after(s, events).show) == target_of(s.show),
    decreases events.len(),
{
    if events.len() > 0 {
        let rest = events.drop_first();
        assert(!is_toggle(events[0]));
        assert forall|i: int| 0 <= i < rest.len() implies !is_toggle(#[trigger] rest[i]) by {
            assert(rest[i] == events[i + 1]);
        }
        lemma_target_kept_until_toggle(s, rest);
    }
}

/// Each right press over the menu flips whether the overlay is shown, once,
/// whatever the state before it; other events flip nothing.
pub proof fn lemma_toggle_flips_once<P>(s: State<P>, events: Seq<(bool, bool, P)>)
    ensures
        state_after(s, events).show == (s.show != (toggle_count(events) % 2 == 1)),
    decreases events.len(),
{
    if events.len() > 0 {
        let (right_press, over, position) = events[0];
        let rest = events.drop_first();
        lemma_toggle_flips_once(next_state(s, right_press, over, position), rest);
    }
}

/// How many of `events` are right presses over the menu.
pub open spec fn toggle_count<P>(events: Seq<(bool, bool, P)>) -> nat
    decreases events.len(),
{
    if events.len() == 0 {
        0
    } else {
        (if is_toggle(events[0]) {
            1nat
        } else {
            0nat
        }) + toggle_count(events.drop_first())
    }
}

} // verus!
