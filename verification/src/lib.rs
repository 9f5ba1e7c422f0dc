//! Device-side logic of a USB vendor function that answers a small set of
//! control requests and echoes bulk packets back to the host.
//!
//! * [`control`] decides, for one interface, which control requests are
//!   accepted, rejected or left to others.
//! * [`session`] is the connect, echo, disconnect cycle of the bulk
//!   endpoints as a state machine: it takes what the transport reports and
//!   says what to do next.
//! * [`trace`] states what the session does over whole sequences of events.
//!
//! Nothing here touches hardware or allocates. The firmware that owns the
//! endpoints performs the actions and reports the outcomes.

pub mod control;
pub mod session;
pub mod trace;
