//! Core of an interactive disk-usage explorer: folder statistics with an
//! additive merge, file filters, ancestor rollup of file sizes up to a
//! configurable depth, and the event-driven application state machine that
//! keeps scroll, sort and aggregate state consistent while a scan runs.
//!
//! All terminal drawing, device input decoding, argument parsing and the
//! directory walk itself live outside this library; they communicate with it
//! through plain values and the event vocabulary defined here.

pub mod app;
pub mod args;
pub mod event;
pub mod filter;
pub mod paths;
pub mod rows;
pub mod stats;
pub mod update;
