//! Verified core of a terminal server-launcher front-end.
//!
//! The library holds the logic of the interactive runtime: the application
//! state and its key/message transitions, the event-loop tick, the pure
//! render model, the combination of remote API responses, and the small
//! decision functions of the login and initialization flows. Terminal
//! drawing, HTTP, and file I/O live outside the library and hand it plain
//! values.

pub mod api;
pub mod config;
pub mod eula;
pub mod logging;
pub mod login;
pub mod state;
pub mod ui;
