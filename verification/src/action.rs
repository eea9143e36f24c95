use vstd::prelude::*;
use crate::text::clone_chars;

verus! {

/// A control message carried on the action queue: the only way state is
/// mutated or a side effect is requested inside the event loop.
///
/// Variants a receiver does not recognize are legal no-ops, never errors.
#[derive(Clone, Debug, PartialEq, Eq)]
pub enum Action {
    Tick,
    Render,
    Resize(u16, u16),
    Quit,
    ClearScreen,
    Error(Vec<char>),
    Update,
    EnterNormal,
    EnterInsert,
    EnterProcessing,
    ExitProcessing,
    SendQuery(Vec<char>),
}

/// The mathematical value of an [`Action`]: text payloads become sequences.
pub ghost enum ActionV {
    Tick,
    Render,
    Resize(u16, u16),
    Quit,
    ClearScreen,
    Error(Seq<char>),
    Update,
    EnterNormal,
    EnterInsert,
    EnterProcessing,
    ExitProcessing,
    SendQuery(Seq<char>),
}

impl View for Action {
    type V = ActionV;

    open spec fn view(&self) -> ActionV {
        match self {
            Action::Tick => ActionV::Tick,
            Action::Render => ActionV::Render,
            Action::Resize(w, h) => ActionV::Resize(*w, *h),
            Action::Quit => ActionV::Quit,
            Action::ClearScreen => ActionV::ClearScreen,
            Action::Error(s) => ActionV::Error(s@),
            Action::Update => ActionV::Update,
            Action::EnterNormal => ActionV::EnterNormal,
            Action::EnterInsert => ActionV::EnterInsert,
            Action::EnterProcessing => ActionV::EnterProcessing,
            Action::ExitProcessing => ActionV::ExitProcessing,
            Action::SendQuery(s) => ActionV::SendQuery(s@),
        }
    }
}

impl Action {
    /// An owned copy with the same value; actions are cheap to duplicate.
    pub fn dup(&self) -> (r: Action)
        ensures
            r@ == self@,
    {
        match self {
            Action::Tick => Action::Tick,
            Action::Render => Action::Render,
            Action::Resize(w, h) => Action::Resize(*w, *h),
            Action::Quit => Action::Quit,
            Action::ClearScreen => Action::ClearScreen,
            Action::Error(s) => Action::Error(clone_chars(s)),
            Action::Update => Action::Update,
            Action::EnterNormal => Action::EnterNormal,
            Action::EnterInsert => Action::EnterInsert,
            Action::EnterProcessing => Action::EnterProcessing,
            Action::ExitProcessing => Action::ExitProcessing,
            Action::SendQuery(s) => Action::SendQuery(clone_chars(s)),
        }
    }
}

} // verus!
