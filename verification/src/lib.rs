//! The decisions of a one-shot chooser window.
//!
//! A chooser is started with one input text, shows it to its front end, and
//! reports one result line: the front end's submission, or a fixed "no
//! selection" line when the main window is closed first. This crate holds
//! what is decided along the way; the surrounding program owns the window,
//! the command line and the output streams.

pub mod debug_log;
pub mod history;
pub mod input;
pub mod submission;
