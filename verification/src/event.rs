//! The event vocabulary of the application state machine.
//!
//! Scan workers, the progress ticker and the input adapter all feed one
//! ordered multi-producer channel (owned by the surrounding program); the
//! state machine consumes these events one at a time.

use crate::stats::StatMap;
use vstd::prelude::*;

verus! {

/// One user intention, decoded from a key press or mouse wheel by the input
/// adapter outside the core.
#[derive(Debug, Copy, Clone, PartialEq, Eq, Structural)]
pub enum Input {
    /// Close the help overlay when it is open, else leave the program.
    Quit,
    /// Sort rows by total file size.
    SortBySize,
    /// Sort rows by total file count.
    SortByCount,
    /// Scroll one row up.
    ScrollUp,
    /// Scroll one row down.
    ScrollDown,
    /// Scroll a full page up.
    PageUp,
    /// Scroll a full page down.
    PageDown,
    /// Jump to the top.
    Home,
    /// Jump to the bottom.
    End,
    /// Select a new scan depth.
    Depth(u8),
    /// Toggle ignore-file handling and rescan.
    ToggleIgnores,
    /// Toggle hidden-file visibility and rescan.
    ToggleHidden,
    /// Toggle the help overlay.
    ToggleHelp,
}

/// Events consumed by the application state machine.
#[derive(Debug)]
pub enum Event {
    /// Periodic timer tick.
    Tick,
    /// Decoded user input.
    Input(Input),
    /// Terminal resize: width and height.
    Resize(u16, u16),
    /// Walker scan progress: the folder being scanned.
    Progress(String),
    /// Walker scan completed, with the elapsed milliseconds.
    ScanComplete(u64),
    /// Initial rendered content frame height.
    ContentFrameSize(u16),
    /// One walker worker's folder statistics fragment.
    FolderEvent(StatMap),
}

/// Whether an event's payload is well formed: a statistics fragment never
/// repeats a key.
pub open spec fn event_wf(event: Event) -> bool {
    match event {
        Event::FolderEvent(m) => m.wf(),
        _ => true,
    }
}

} // verus!
