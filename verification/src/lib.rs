//! Raw-mode management for a character terminal, without the system calls.
//!
//! The crate holds every decision of a raw-mode session: which attribute bits
//! raw mode clears, what a failed device call becomes, when a guard hands its
//! snapshot back, what a key byte means, and what resets the screen. Reading
//! and writing the device is left to the caller, who passes plain values in
//! and gets plain values back.
//!
//! A session runs like this. The caller captures the terminal's attributes
//! and hands them to [`enable_raw_mode`], applies what comes back, and builds
//! a [`RawModeGuard`] around the captured snapshot. Each byte read goes
//! through [`editor_process_key`], which gives the line to write and says
//! whether to go on. At the end the caller writes [`editor_refresh_screen`]
//! and applies what [`disable_raw_mode`] hands back. The status of every
//! device call goes through [`wrap_with_result`].

pub mod attributes;
pub mod device;
pub mod guard;
pub mod keys;
pub mod raw_mode;
pub mod screen;

pub use attributes::{AttributesView, TerminalAttributes};
pub use device::{classify_status, wrap_with_result, DeviceError};
pub use guard::{disable_raw_mode, RawModeGuard};
pub use keys::{classify, editor_process_key, KeyClass, KeyReport, Signal};
pub use raw_mode::{enable_raw_mode, platform_layout, raw_attributes, FlagLayout, SLOT_BOUND};
pub use screen::editor_refresh_screen;
