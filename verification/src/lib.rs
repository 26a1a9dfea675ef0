//! The core of a desktop front end for the `yt-dlp` downloader, verified with
//! Verus.
//!
//! The library decides and the application around it acts. The orchestrator
//! ([`manager`]) takes one message at a time and answers with the effects to
//! carry out; a supervisor ([`supervisor`]) takes what happened to its worker
//! and answers with what to do next; the progress parser ([`parser`]) turns a
//! line of worker output into a report. Spawning, reading, writing and showing
//! are left to the caller.
//!
//! A percentage is held in hundredths of a percent and a speed in whole bytes
//! per second, so that every figure is an integer. A job is identified by the
//! 128 bits of its UUID.
//!
//! Three outside crates are called, each behind a few functions that are
//! believed and not proved: `regex` in [`pattern`], `serde_json` in [`json`],
//! and `uuid` in [`commands`].

pub mod text;
pub mod pattern;
pub mod json;
pub mod models;
pub mod error;
pub mod progress;
pub mod parser;
pub mod launch;
pub mod supervisor;
pub mod manager;
pub mod invariants;
pub mod slots;
pub mod playlist;
pub mod commands;
pub mod system;
pub mod deps;
pub mod config;
pub mod repair;
pub mod native;
