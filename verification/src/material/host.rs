//! The plain values that pass between a control and its host.
//!
//! The host owns the pointer, the clock, the timers and the drawing surface.
//! It tells a control what happened and what it knows about the control, and
//! the control answers with what it wants done.

use vstd::prelude::*;
use crate::env::color::Color;
use crate::material::geometry::Circle;
use crate::material::geometry::Point;
use crate::material::geometry::Size;

verus! {

/// Names one timer that the host has started.
#[derive(Clone, Copy, Debug, PartialEq, Eq, Structural)]
pub struct TimerToken(pub u64);

impl TimerToken {
    /// The token with the given number.
    pub fn from_raw(id: u64) -> (token: TimerToken)
        ensures
            token == TimerToken(id),
    {
        TimerToken(id)
    }

    /// The number of the token.
    pub fn into_raw(self) -> (id: u64)
        ensures
            id == self.0,
    {
        self.0
    }
}

/// Something that happened, as the host delivers it to one control.
#[derive(Clone, Copy, Debug, PartialEq, Eq, Structural)]
pub enum Event {
    /// A pointer button went down on the control.
    MouseDown,
    /// A pointer button came up, on the control or while it held the pointer.
    MouseUp,
    /// A new animation frame begins, so many microseconds after the last.
    AnimFrame(u64),
    /// The timer with this token fired.
    Timer(TimerToken),
    /// Anything else.
    Other,
}

/// What the host knows of a control when it delivers an event.
#[derive(Clone, Copy, Debug, PartialEq, Eq, Structural)]
pub struct EventCtx {
    /// The control has claimed the pointer and gets its events wherever it is.
    pub is_active: bool,
    /// The pointer is over the control.
    pub is_hot: bool,
}

/// What a control asks of the host in answer to an event.
#[derive(Clone, Copy, Debug, PartialEq, Eq, Structural)]
pub struct Requests {
    /// Claim the pointer (`Some(true)`), release it (`Some(false)`), or leave
    /// the claim as it is.
    pub set_active: Option<bool>,
    /// Paint the control again.
    pub paint: bool,
    /// Deliver the next animation frame.
    pub anim_frame: bool,
    /// Start a timer that fires once, after this many milliseconds, and hand
    /// its token back through `Radio::timer_started`.
    pub timer: Option<u64>,
}

impl Requests {
    /// Nothing is asked.
    pub open spec fn nothing() -> Requests {
        Requests { set_active: None, paint: false, anim_frame: false, timer: None }
    }
}

impl EventCtx {
    /// What the host knows once it has granted `requests`, the pointer being
    /// over the control or not as `is_hot` says.
    pub open spec fn after(self, requests: Requests, is_hot: bool) -> EventCtx {
        EventCtx {
            is_active: match requests.set_active {
                Some(active) => active,
                None => self.is_active,
            },
            is_hot,
        }
    }
}

/// A change in what the host knows of a control.
#[derive(Clone, Copy, Debug, PartialEq, Eq, Structural)]
pub enum LifeCycle {
    /// The pointer came over the control (`true`) or left it (`false`).
    HotChanged(bool),
    /// Anything else.
    Other,
}

/// What the host knows of a control when it asks it to paint.
#[derive(Clone, Copy, Debug, PartialEq, Eq, Structural)]
pub struct PaintCtx {
    /// The control has the keyboard focus.
    pub is_focused: bool,
    /// The pointer is over the control.
    pub is_hot: bool,
}

/// One step of painting a control.
#[derive(Clone, Copy, Debug, PartialEq, Eq, Structural)]
pub enum PaintOp {
    /// Fill a circle with a colour. Where an opacity is given, in percent,
    /// it takes the place of the colour's own.
    Fill { circle: Circle, color: Color, opacity: Option<u8> },
    /// Draw the outline of a circle with a colour, in a line of some width.
    Stroke { circle: Circle, color: Color, width: i64 },
    /// Draw the label's text with its top left corner at `origin`.
    Label { origin: Point },
}

/// The size a widget takes, and how far its first line of text sits above
/// its bottom edge.
#[derive(Clone, Copy, Debug, PartialEq, Eq, Structural)]
pub struct Layout {
    pub size: Size,
    pub baseline_offset: i64,
}

} // verus!
