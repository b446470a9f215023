//! Core logic of an unofficial catbox.moe command-line client.
//!
//! The crate classifies a batch of raw command-line items into existing
//! file paths, syntactically valid remote URLs, and everything else;
//! plans the per-item upload operations; tracks a bounded concurrent
//! fan-out of those operations so that each item yields exactly one
//! outcome line; builds the request forms for the catbox.moe and
//! litterbox APIs; and maps copy-pasted catbox URLs back to bare file
//! and album identifiers.
//!
//! Sending the requests over HTTP, reading files, and parsing the
//! command line are left to the surrounding binary; everything here is
//! plain data in, plain data out.

pub mod album;
pub mod args;
pub mod classify;
pub mod commands;
pub mod dispatch;
pub mod extract;
pub mod file;
pub mod form;
pub mod helper;
pub mod litter;
pub mod strutil;
