//! A split divides the available space in two panes separated by a divider
//! that the user can drag along one axis.
use vstd::prelude::*;

verus! {

/// The axis to split at.
#[derive(Clone, Copy, Debug, PartialEq, Eq, Structural)]
pub enum Axis {
    /// Split horizontally: the panes are stacked, the divider moves along y.
    Horizontal,
    /// Split vertically: the panes stand side by side, the divider moves along x.
    Vertical,
}

impl Default for Axis {
    fn default() -> (r: Self)
        ensures
            r == Axis::Vertical,
    {
        Axis::Vertical
    }
}

/// The coordinate that the divider of a split along `axis` moves on.
pub open spec fn along(axis: Axis, x: int, y: int) -> int {
    match axis {
        Axis::Horizontal => y,
        Axis::Vertical => x,
    }
}

impl Axis {
    /// Picks, of a pair of coordinates or of a width and a height, the one
    /// that the divider moves along.
    pub fn along(self, x: u16, y: u16) -> (r: u16)
        ensures
            r == along(self, x as int, y as int),
    {
        match self {
            Axis::Horizontal => y,
            Axis::Vertical => x,
        }
    }
}

/// `v` brought into `[lo, hi]`.
pub open spec fn clamp(v: int, lo: int, hi: int) -> int {
    if v < lo {
        lo
    } else if v > hi {
        hi
    } else {
        v
    }
}

/// Whether a container of `total` pixels along the axis leaves room for the
/// divider and both minimum pane sizes.
pub open spec fn fits(total: int, spacing: int, min_first: int, min_second: int) -> bool {
    total >= spacing + min_first + min_second
}

/// Where the divider starts along the axis: the requested position (the
/// middle of the container if none) less half the divider's width, not
/// below zero, then kept between the first pane's minimum and the place that
/// still leaves the second pane its minimum.
pub open spec fn divider_spec(
    total: int,
    spacing: int,
    min_first: int,
    min_second: int,
    requested: Option<u16>,
) -> int {
    let half = spacing / 2;
    let wanted = match requested {
        Some(p) => p as int,
        None => total / 2,
    };
    let centred = if wanted > half {
        wanted - half
    } else {
        0
    };
    clamp(centred, min_first, total - min_second - spacing)
}

/// The position of the divider in a container of `total` pixels along the
/// axis, or `None` where the container is too small to honour the minimum
/// sizes, in which case both panes are laid out over the whole space.
pub fn divider_position(
    total: u16,
    spacing: u16,
    min_first: u16,
    min_second: u16,
    requested: Option<u16>,
) -> (r: Option<u16>)
    ensures
        r is None <==> !fits(total as int, spacing as int, min_first as int, min_second as int),
        r matches Some(p) ==> p == divider_spec(
            total as int,
            spacing as int,
            min_first as int,
            min_second as int,
            requested,
        ),
        r matches Some(p) ==> min_first <= p <= total - min_second - spacing,
{
    let needed: u32 = spacing as u32 + min_first as u32 + min_second as u32;
    if (total as u32) < needed {
        return None;
    }
    let half: u16 = spacing / 2;
    let wanted: u16 = match requested {
        Some(p) => p,
        None => total / 2,
    };
    let centred: u16 = if wanted > half {
        wanted - half
    } else {
        0
    };
    let hi: u16 = total - min_second - spacing;
    let p: u16 = if centred < min_first {
        min_first
    } else if centred > hi {
        hi
    } else {
        centred
    };
    Some(p)
}


/// The configuration of a split: where the divider was asked to stand, the
/// axis, and the sizes in whole pixels.
#[derive(Clone, Copy, Debug, PartialEq, Eq, Structural)]
pub struct Split {
    /// The requested position of the divider; the middle when `None`.
    pub divider_position: Option<u16>,
    /// The axis to split at.
    pub axis: Axis,
    /// The padding around each pane.
    pub padding: u16,
    /// The spacing between the panes, which is also the divider's width.
    pub spacing: u16,
    /// The minimum size of the first pane along the axis.
    pub min_size_first: u16,
    /// The minimum size of the second pane along the axis.
    pub min_size_second: u16,
}

/// How the panes of a split are placed along its axis, in pixels from the
/// container's origin.
#[derive(Clone, Copy, Debug, PartialEq, Eq, Structural)]
pub enum SplitPlan {
    /// The container is too small for the divider and both minimum sizes:
    /// both panes are laid out over the whole space.
    Stacked,
    /// The divider stands at `divider`; the first pane gives up
    /// `first_shrink` pixels of the space and the second `second_shrink`,
    /// before padding; the second pane starts at `second_start`.
    Divided { divider: u16, first_shrink: u16, second_shrink: u16, second_start: u32 },
}

impl Split {
    /// A split with the given divider request and axis, no padding, a
    /// divider five pixels wide and minimum pane sizes of five pixels.
    pub fn new(divider_position: Option<u16>, axis: Axis) -> (r: Self)
        ensures
            r.divider_position == divider_position,
            r.axis == axis,
            r.padding == 0,
            r.spacing == 5,
            r.min_size_first == 5,
            r.min_size_second == 5,
    {
        Split {
            divider_position,
            axis,
            padding: 0,
            spacing: 5,
            min_size_first: 5,
            min_size_second: 5,
        }
    }

    /// Sets the padding around the panes.
    pub fn padding(self, padding: u16) -> (r: Self)
        ensures
            r == (Split { padding, ..self }),
    {
        Split { padding, ..self }
    }

    /// Sets the spacing between the panes, which is also the divider's width.
    pub fn spacing(self, spacing: u16) -> (r: Self)
        ensures
            r == (Split { spacing, ..self }),
    {
        Split { spacing, ..self }
    }

    /// Sets the minimum size of the first pane.
    pub fn min_size_first(self, size: u16) -> (r: Self)
        ensures
            r == (Split { min_size_first: size, ..self }),
    {
        Split { min_size_first: size, ..self }
    }

    /// Sets the minimum size of the second pane.
    pub fn min_size_second(self, size: u16) -> (r: Self)
        ensures
            r == (Split { min_size_second: size, ..self }),
    {
        Split { min_size_second: size, ..self }
    }

    /// The size of a `width` by `height` container along the split's axis.
    pub open spec fn total(self, width: int, height: int) -> int {
        along(self.axis, width, height)
    }

    /// Lays the panes out in a `width` by `height` container.
    pub fn plan(&self, width: u16, height: u16) -> (r: SplitPlan)
        ensures
            r is Stacked <==> !fits(
                self.total(width as int, height as int),
                self.spacing as int,
                self.min_size_first as int,
                self.min_size_second as int,
            ),
            r matches SplitPlan::Divided { divider, first_shrink, second_shrink, second_start } ==> {
                let total = self.total(width as int, height as int);
                &&& divider == divider_spec(
                    total,
                    self.spacing as int,
                    self.min_size_first as int,
                    self.min_size_second as int,
                    self.divider_position,
                )
                &&& first_shrink == total - divider
                &&& second_shrink == divider + self.spacing
                &&& second_start == divider + self.spacing + self.padding
            },
    {
        let total = self.axis.along(width, height);
        match divider_position(
            total,
            self.spacing,
            self.min_size_first,
            self.min_size_second,
            self.divider_position,
        ) {
            None => SplitPlan::Stacked,
            Some(divider) => SplitPlan::Divided {
                divider,
                first_shrink: total - divider,
                second_shrink: divider + self.spacing,
                second_start: divider as u32 + self.spacing as u32 + self.padding as u32,
            },
        }
    }

    /// The cursor to show over the split: a resize cursor across the axis
    /// while the pointer is over the divider, none of the split's own
    /// otherwise.
    pub fn divider_interaction(&self, over_divider: bool) -> (r: Option<ResizeDirection>)
        ensures
            r == (if over_divider {
                Some(resize_direction(self.axis))
            } else {
                None
            }),
    {
        if over_divider {
            match self.axis {
                Axis::Horizontal => Some(ResizeDirection::Vertically),
                Axis::Vertical => Some(ResizeDirection::Horizontally),
            }
        } else {
            None
        }
    }
}

/// The direction a resize cursor points in.
#[derive(Clone, Copy, Debug, PartialEq, Eq, Structural)]
pub enum ResizeDirection {
    /// Up and down.
    Vertically,
    /// Left and right.
    Horizontally,
}

/// The divider of a horizontal split moves up and down, that of a vertical
/// split left and right.
pub open spec fn resize_direction(axis: Axis) -> ResizeDirection {
    match axis {
        Axis::Horizontal => ResizeDirection::Vertically,
        Axis::Vertical => ResizeDirection::Horizontally,
    }
}


/// The state of a split that lives across frames.
#[derive(Clone, Copy, Debug, PartialEq, Eq, Structural)]
pub struct SplitState {
    /// Whether the user is dragging the divider.
    pub dragging: bool,
}

/// A pointer event, as far as the divider is concerned. Mouse buttons and
/// touch fingers alike press, move and lift.
#[derive(Clone, Copy, Debug, PartialEq, Eq, Structural)]
pub enum PointerEvent {
    /// The primary button was pressed, or a finger touched down.
    Pressed,
    /// The primary button was released, or a finger lifted.
    Released,
    /// The pointer or a finger moved to `(x, y)`, in whole pixels.
    Moved { x: u16, y: u16 },
    /// Anything else.
    Other,
}

/// Whether the divider is dragged after `event`: a press over the divider
/// starts a drag, a release ends it, nothing else changes it.
pub open spec fn next_dragging(dragging: bool, event: PointerEvent, over_divider: bool) -> bool {
    match event {
        PointerEvent::Pressed => dragging || over_divider,
        PointerEvent::Released => false,
        _ => dragging,
    }
}

/// The resize request that `event` makes: the new coordinate along the axis
/// for a move during a drag, none otherwise.
pub open spec fn resize_message(dragging: bool, axis: Axis, event: PointerEvent) -> Option<u16> {
    match event {
        PointerEvent::Moved { x, y } => if dragging {
            Some(along(axis, x as int, y as int) as u16)
        } else {
            None
        },
        _ => None,
    }
}

/// The look of the divider.
#[derive(Clone, Copy, Debug, PartialEq, Eq, Structural)]
pub enum DividerStatus {
    /// At rest.
    Active,
    /// Under the pointer.
    Hovered,
    /// Being dragged.
    Dragged,
}

impl Default for SplitState {
    fn default() -> (r: Self)
        ensures
            !r.dragging,
    {
        SplitState::new()
    }
}

impl SplitState {
    /// A state in which nothing is dragged.
    pub fn new() -> (r: Self)
        ensures
            !r.dragging,
    {
        SplitState { dragging: false }
    }

    /// Handles a pointer event on a split along `axis`, `over_divider`
    /// telling whether the pointer is over the divider. Returns the position
    /// to resize to, if the event asks for one; it is not clamped here, as
    /// the next layout clamps it.
    pub fn on_pointer(
        &mut self,
        axis: Axis,
        event: PointerEvent,
        over_divider: bool,
    ) -> (r: Option<u16>)
        ensures
            final(self).dragging == next_dragging(old(self).dragging, event, over_divider),
            r == resize_message(old(self).dragging, axis, event),
            !old(self).dragging && final(self).dragging ==> event is Pressed && over_divider,
    {
        match event {
            PointerEvent::Pressed => {
                if over_divider {
                    self.dragging = true;
                }
                None
            },
            PointerEvent::Released => {
                self.dragging = false;
                None
            },
            PointerEvent::Moved { x, y } => {
                if self.dragging {
                    Some(axis.along(x, y))
                } else {
                    None
                }
            },
            PointerEvent::Other => None,
        }
    }

    /// How to draw the divider: dragged during a drag, else hovered while
    /// the pointer is over it, else at rest.
    pub fn divider_status(&self, hovered: bool) -> (r: DividerStatus)
        ensures
            r == (if self.dragging {
                DividerStatus::Dragged
            } else if hovered {
                DividerStatus::Hovered
            } else {
                DividerStatus::Active
            }),
    {
        if self.dragging {
            DividerStatus::Dragged
        } else if hovered {
            DividerStatus::Hovered
        } else {
            DividerStatus::Active
        }
    }
}

/// The resize requests that a run of events makes, each event paired with
/// whether the pointer was over the divider, starting from `dragging`.
pub open spec fn resize_messages(
    dragging: bool,
    axis: Axis,
    events: Seq<(PointerEvent, bool)>,
) -> Seq<u16>
    decreases events.len(),
{
    if events.len() == 0 {
        seq![]
    } else {
        let (event, over) = events[0];
        let emitted = match resize_message(dragging, axis, event) {
            Some(m) => seq![m],
            None => seq![],
        };
        emitted + resize_messages(next_dragging(dragging, event, over), axis, events.drop_first())
    }
}

/// The coordinate along `axis` that a move goes to.
pub open spec fn move_target(axis: Axis, event: PointerEvent) -> u16 {
    match event {
        PointerEvent::Moved { x, y } => along(axis, x as int, y as int) as u16,
        _ => 0,
    }
}

/// During a drag, each move requests exactly one resize, to the move's
/// coordinate along the axis.
pub proof fn lemma_moves_while_dragging(axis: Axis, events: Seq<(PointerEvent, bool)>)
    requires
        forall|i: int| 0 <= i < events.len() ==> events[i].0 is Moved,
    ensures
        resize_messages(true, axis, events) == events.map_values(
            |e: (PointerEvent, bool)| move_target(axis, e.0),
        ),
    decreases events.len(),
{
    let f = |e: (PointerEvent, bool)| move_target(axis, e.0);
    if events.len() == 0 {
        assert(events.map_values(f) =~= seq![]);
    } else {
        let rest = events.drop_first();
        assert forall|i: int| 0 <= i < rest.len() implies rest[i].0 is Moved by {
            assert(rest[i] == events[i + 1]);
        }
        lemma_moves_while_dragging(axis, rest);
        assert(events.map_values(f) =~= seq![f(events[0])] + rest.map_values(f));
    }
}

/// A press over the divider starts a drag, whatever came before, and each
/// move after it requests exactly one resize, to the move's coordinate
/// along the axis.
pub proof fn lemma_drag_resizes_once_per_move(
    dragging: bool,
    axis: Axis,
    events: Seq<(PointerEvent, bool)>,
)
    requires
        events.len() >= 1,
        events[0] == (PointerEvent::Pressed, true),
        forall|i: int| 1 <= i < events.len() ==> events[i].0 is Moved,
    ensures
        resize_messages(dragging, axis, events) == events.drop_first().map_values(
            |e: (PointerEvent, bool)| move_target(axis, e.0),
        ),
        resize_messages(dragging, axis, events).len() == events.len() - 1,
{
    let rest = events.drop_first();
    assert forall|i: int| 0 <= i < rest.len() implies rest[i].0 is Moved by {
        assert(rest[i] == events[i + 1]);
    }
    lemma_moves_while_dragging(axis, rest);
    assert(resize_messages(dragging, axis, events) =~= resize_messages(true, axis, rest));
}

} // verus!
