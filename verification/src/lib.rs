//! Decision logic for attached clients: accepting and rejecting their
//! connections, waking the server loop when one is pending, and moving a client
//! from one session to another.
//!
//! Every system call, lock, thread and await lives with the caller. The caller
//! performs the action that a function here asks for, and hands its result back
//! as the next event.

pub mod client_accept;
pub mod client_accept_waker;
pub mod error_kind;
pub mod session_commit;
pub mod session_switch;
pub mod text;
pub mod waker_protocol;
pub mod waker_setup;
