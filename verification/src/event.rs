use vstd::prelude::*;
use crate::key::KeyEvent;

verus! {

/// One value of the merged terminal-event stream: user input, a resize,
/// a tick-timer pulse, a frame-timer pulse, or an input-side failure.
#[derive(Clone, Debug, PartialEq, Eq)]
pub enum Event {
    Key(KeyEvent),
    Mouse(u16, u16),
    Resize(u16, u16),
    Tick,
    Render,
    Error(Vec<char>),
}

/// The mathematical value of an [`Event`].
pub ghost enum EventV {
    Key(KeyEvent),
    Mouse(u16, u16),
    Resize(u16, u16),
    Tick,
    Render,
    Error(Seq<char>),
}

impl View for Event {
    type V = EventV;

    open spec fn view(&self) -> EventV {
        match self {
            Event::Key(k) => EventV::Key(*k),
            Event::Mouse(c, r) => EventV::Mouse(*c, *r),
            Event::Resize(w, h) => EventV::Resize(*w, *h),
            Event::Tick => EventV::Tick,
            Event::Render => EventV::Render,
            Event::Error(s) => EventV::Error(s@),
        }
    }
}

} // verus!
