//! In-memory core of a multi-channel chat relay: a presence registry of the
//! users that are currently connected, a queue of pending fan-out events, a
//! typing-status table, and the connection-lifecycle and action-dispatch rules
//! that drive them.
#![allow(unused_imports)]

pub mod actions;
pub mod dispatch;
pub mod events;
pub mod iset;
pub mod models;
pub mod seqs;
pub mod session;
pub mod state;
pub mod util;

