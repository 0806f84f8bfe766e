//! A browsing runtime for recorded game-session ("demo") files.
//!
//! The crate holds the state and logic of a demo-file viewer: a filterable,
//! stably-indexed list navigator, an event-dispatch and focus-routing
//! mediator, a session controller over a set of tool panels, and a
//! background-task coordinator.  Rendering, file dialogs and the demo-file
//! decoder live outside; they hand plain values in and take plain values out.

pub mod data_tables;
pub mod events;
pub mod frames;
pub mod game_events;
pub mod mediator;
pub mod messages;
pub mod navigator;
pub mod packet;
pub mod seq_util;
pub mod session;
pub mod simple_views;
pub mod tasks;
pub mod timefmt;
pub mod user_messages;
