//! Core of a terminal RSVP reader: the word store, the dwell-time policy and
//! the reading state machine that decides which word is shown and when the
//! next one replaces it.

pub mod display;
pub mod event;
pub mod reader;
pub mod timing;
