//! The decision core of the QA Manager desktop shell.
//!
//! The shell shows a launcher in which servers are added and chosen, and one
//! web view that is taken to the chosen server. Everything that the shell
//! decides or computes stands here, as functions from plain values to plain
//! values; windows, dialogs, files and the network belong to the application
//! around it, which performs what these functions return and hands back what
//! came of it.

pub mod json_text;
pub mod laws;
pub mod navigation;
pub mod notifications;
pub mod permission;
pub mod registration;
pub mod servers;
pub mod shell;
pub mod text;
pub mod updates;
pub mod web_url;
