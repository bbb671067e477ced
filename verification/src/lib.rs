//! Verified core of a small desktop shell that shows a web page in a native
//! window. The shell itself is thin: it resolves an application manifest into
//! window parameters, locates an icon by a fixed candidate order, translates
//! page messages into native window actions, rewrites download destinations,
//! and drives a small event-loop state machine. All of those decisions live
//! here with contracts; the native window, the webview and the operating
//! system calls live outside, behind a handful of trusted wrappers.

pub mod strutil;
pub mod config;
pub mod platform;
pub mod icon;
pub mod ipc;
pub mod download;
pub mod events;
pub mod bootstrap;
