use vstd::prelude::*;
use crate::text::{clone_chars, text_of};

verus! {

/// The error kinds of the runtime.
///
/// `Startup` is fatal before the terminal is touched (missing credential,
/// malformed key-binding configuration). `Terminal` is a fatal device
/// failure. `ChannelClosed` marks the bug of a producer outliving the
/// consumer; with the in-process action queue of this crate it cannot arise,
/// but callers that bridge to a concurrent channel report it here. `Remote`
/// is a recoverable failure of the remote chat service.
#[derive(Clone, Debug, PartialEq, Eq)]
pub enum AppError {
    Startup(Vec<char>),
    Terminal(Vec<char>),
    ChannelClosed,
    Remote(Vec<char>),
}

/// The mathematical value of an [`AppError`].
pub ghost enum AppErrorV {
    Startup(Seq<char>),
    Terminal(Seq<char>),
    ChannelClosed,
    Remote(Seq<char>),
}

impl View for AppError {
    type V = AppErrorV;

    open spec fn view(&self) -> AppErrorV {
        match self {
            AppError::Startup(s) => AppErrorV::Startup(s@),
            AppError::Terminal(s) => AppErrorV::Terminal(s@),
            AppError::ChannelClosed => AppErrorV::ChannelClosed,
            AppError::Remote(s) => AppErrorV::Remote(s@),
        }
    }
}

/// The text an [`AppError`] carries to the user.
pub open spec fn message_spec(e: AppErrorV) -> Seq<char> {
    match e {
        AppErrorV::Startup(s) => s,
        AppErrorV::Terminal(s) => s,
        AppErrorV::ChannelClosed => "action channel closed"@,
        AppErrorV::Remote(s) => s,
    }
}

impl AppError {
    pub fn message(&self) -> (r: Vec<char>)
        ensures
            r@ == message_spec(self@),
    {
        match self {
            AppError::Startup(s) => clone_chars(s),
            AppError::Terminal(s) => clone_chars(s),
            AppError::ChannelClosed => text_of("action channel closed"),
            AppError::Remote(s) => clone_chars(s),
        }
    }
}

} // verus!
