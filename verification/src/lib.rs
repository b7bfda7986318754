//! A headless model of the sequence that takes a desktop application from
//! process start to an interactive window: a deferred-release region, the
//! application object, its activation policy, a menu bar, a window, activation
//! and the event loop.
//!
//! Every step is a function on plain values, so the order of the steps and the
//! state they leave behind can be stated and proved without a windowing system.

pub mod application;
pub mod bootstrap;
pub mod event_loop;
pub mod geometry;
pub mod menu;
pub mod region;
pub mod window;
