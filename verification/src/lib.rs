//! Core runtime of a terminal chat application: the action values that flow
//! through the event loop, the per-component mode state machine that turns raw
//! key events into actions, the line-editing input buffer, the append-only
//! conversation log, the single-consumer action queue, the orchestrator state
//! machine that drives them, and the terminal-lifecycle state machine whose
//! exit sequence provably restores the terminal to its prior state.
//!
//! All input/output (reading terminal events, timers, drawing, the remote chat
//! service) lives outside this crate; the crate computes, for every incoming
//! event, the next state and the side effects the caller must perform.

pub mod action;
pub mod app;
pub mod bus;
pub mod conversation;
pub mod error;
pub mod event;
pub mod home;
pub mod input;
pub mod key;
pub mod keymap;
pub mod mode;
pub mod render;
pub mod text;
pub mod tui;
