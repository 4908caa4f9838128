//! A launcher for script files: the part that decides.
//!
//! The crate holds a small registry of runnable scripts, the cursor that
//! highlights one of them, and the rules by which a key press changes both.
//! Reading the keyboard, drawing the screen, touching the registry file and
//! starting the interpreter are left to the program built around this
//! library; it hands in what it read and carries out what comes back.

pub mod app;
pub mod cursor;
pub mod env_file;
pub mod event;
pub mod outside;
pub mod record;
pub mod registry;
