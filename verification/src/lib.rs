//! Decision logic of an input-automation engine.
//!
//! The crate holds everything that can be decided from plain values: how a
//! symbolic key name maps to the codes used for polling and for injection,
//! whether a hotkey is held and whether it was just pressed, how long a
//! synthetic click is held and how long the pause after it lasts, and which
//! sequence of input events a click or a scripted macro consists of. Polling
//! the devices and injecting the events is left to the caller, which feeds the
//! polled state in and performs the steps that come back.
//!
//! - [`keys`]: key names and the detection and injection tables
//! - [`detect`]: held keys and buttons, and presses
//! - [`timing`]: hold and gap of a click, steady and humanized
//! - [`input`]: events, steps and the scripts of the basic gestures
//! - [`macro_runner`]: the two scripted macros
//! - [`engine`]: one iteration of the autoclick engine
//! - [`coordinator`]: one tick of the hotkey loop
//! - [`capture`]: capturing a screen position
//! - [`config`]: the shared settings and the requests on them
//! - [`text`]: comparison of string slices

pub mod capture;
pub mod config;
pub mod coordinator;
pub mod detect;
pub mod engine;
pub mod input;
pub mod keys;
pub mod macro_runner;
pub mod text;
pub mod timing;
