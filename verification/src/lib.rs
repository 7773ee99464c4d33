//! The focus-order tracking and control-plane core of a window switcher for
//! a tiling window manager.
//!
//! The pieces: a most-recently-used window priority queue with an ordered
//! snapshot ([`sway::queue`]), a pure classifier from raw window-manager
//! notifications to domain events under the urgent-window policy
//! ([`sway::subscribe`]), the read path of a live event subscription
//! ([`sway::subscribe::WindowSubscription`]), the control socket's command
//! vocabulary with its exact wire codec ([`ipc`]), the effector commands
//! issued back to the window manager ([`sway::commands`]), and the
//! configuration defaults and validation rules ([`config`]).
//!
//! Everything that does I/O — opening the window-manager connection, the
//! listener and receiver threads, the socket itself, reading the
//! environment and the config file, and the graphical overlay — lives in
//! the binary around this library and hands plain values in and out.

pub mod cli;
pub mod config;
pub mod ipc;
pub mod sway;
pub mod theme;
