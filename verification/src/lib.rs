//! Core of a virtual-display streaming driver: the per-monitor encoding and
//! distribution state machine, the latest-value side channels for codec
//! parameters and cursor state, the content-addressed cursor cache, and the
//! length-prefixed wire protocol that carries samples to viewers.

pub mod adb;
pub mod cell;
pub mod cursor;
pub mod framer;
pub mod hub;
pub mod monitor;
pub mod settings;
pub mod utils;
pub mod win32;
pub mod wire;
