//! The session event bridge of a remote-desktop client and the capability
//! builder of a remote-desktop server.
//!
//! The bridge stands between a window and a protocol engine. What the window
//! reports is turned into input operations (`input`, on numbers from
//! `number`), handed to the input state tracker (`tracker`), and what the
//! tracker answers is sent on; what the engine reports is turned into steps
//! to take on the window (`event`). One state machine ties the two together
//! and decides when the loop ends (`session`).
//!
//! The builder assembles a server from its parts (`server`) state by state,
//! each state offering only the transitions that are valid from it
//! (`builder`).

pub mod builder;
pub mod event;
pub mod input;
pub mod number;
pub mod server;
pub mod session;
pub mod tracker;
