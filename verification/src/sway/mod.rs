//! The window-manager-facing core: focus-event classification, the MRU
//! window queue, the subscription read path, and the effector commands.

pub mod commands;
pub mod icon;
pub mod queue;
pub mod session;
pub mod subscribe;
