//! Core logic of a desktop character-picker utility.
//!
//! The picker intercepts global keyboard input through a low-level system
//! hook, suppresses normal key delivery while it is open, and re-injects
//! synthesized Unicode text into the focused window. This crate holds the
//! decision core of that machinery — the interception policy, the synthetic
//! input builder, the hook-handle lifecycle, and caret-relative popup
//! placement — as verified functions over plain values. The thin layer that
//! actually talks to the operating system lives outside the library and
//! hands these functions the raw numbers it read, then performs whatever
//! they decided.

pub mod caret;
pub mod gridview;
pub mod hook;
pub mod kblock;
pub mod keyboard;
pub mod ui;
