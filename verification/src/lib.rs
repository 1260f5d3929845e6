//! Core of a terminal Wikipedia browser: building API request URLs,
//! extracting titles, a table of contents and body text out of raw API
//! responses, and the navigation state machine that sequences the fetches.
//!
//! Network transfer, keyboard capture and terminal rendering are external
//! collaborators and live outside this library.

pub mod app;
pub mod chars;
pub mod extract;
pub mod event;
pub mod find;
pub mod key;
pub mod request;
pub mod state;
pub mod url;
