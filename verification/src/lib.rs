//! A platform-neutral windowing and event shell.
//!
//! The crate normalizes raw backend input events (virtual key codes,
//! logical keys, modifier state, mouse buttons, timers) into a single
//! stable event model and routes them through a single-threaded run-loop
//! dispatcher. Window creation and the native event queue live outside;
//! this library holds the translation tables, the modifier and button
//! bitsets, the token scheme, the timer queue and the dispatch rules.

pub mod modifiers;
pub mod tokens;
pub mod keys;
pub mod codes;
pub mod keyboard;
pub mod vk;
pub mod geometry;
pub mod mouse;
pub mod timer_queue;
pub mod event;
pub mod window;
pub mod config;
pub mod app;
pub mod dispatch;
