//! Application state.
//!
//! The state machine owns the scan configuration, the running aggregate map,
//! the sorted result rows and the view state (scroll position, sort key, help
//! overlay). The scroll offset is kept within `[0, max_scroll]` by every
//! mutation.

use crate::filter::Filter;
use crate::rows::{sort_rows, sorted_desc};
use crate::stats::{FolderStat, StatMap};
use vstd::prelude::*;

verus! {

/// Sorting options for folders.
#[derive(Debug, Copy, Clone, PartialEq, Eq, Structural)]
pub enum SortBy {
    /// By total file sizes.
    FileSize,
    /// By total file counts.
    FileCount,
}

/// Application configuration sourced from command line argument options.
#[derive(Debug, Clone)]
pub struct Config {
    /// Canonical path to scan.
    pub root_path: String,
    /// Filters for scan.
    pub filters: Vec<Filter>,
    /// Disable ignores support.
    pub no_ignores: bool,
    /// Initial depth to render on first scan.
    pub depth: u8,
    /// Disable hidden file filtering.
    pub show_hidden: bool,
}

/// Height of a rendered item, in terminal rows.
pub const FOLDER_ITEM_HEIGHT: u16 = 4;

/// The maximum scroll index for a result list of `rows` rows in a viewport
/// `content_height` cells tall: the rows that do not fit on one page. A
/// viewport too small for even one item leaves every row above the fold.
pub open spec fn spec_max_scroll(rows: int, content_height: u16) -> int {
    let page = content_height as int / (FOLDER_ITEM_HEIGHT as int);
    if page > rows {
        0
    } else {
        rows - page
    }
}

/// A viewport of height zero cannot show any row, so the maximum scroll index
/// is the full row count, without underflow.
pub proof fn lemma_zero_height_max_scroll(rows: int)
    requires
        rows >= 0,
    ensures
        spec_max_scroll(rows, 0) == rows,
{
}

/// Application state.
#[derive(Debug)]
pub struct App {
    /// Name of the folder being scanned.
    pub folder_name: String,
    /// Result of scanned folders with folder stats.
    pub scan_result: Vec<(String, FolderStat)>,
    /// Flag to terminate program.
    pub should_quit: bool,
    /// Index for where scrolling is set.
    pub scroll_state: usize,
    /// Maximum scroll index.
    pub max_scroll: usize,
    /// True if we are scanning folders.
    pub scanning: bool,
    /// Depth to report on.
    pub depth: u8,
    /// Sorting of folders.
    pub sort: SortBy,
    /// Content height.
    pub content_height: u16,
    /// Folder statistics accumulated from walker fragments.
    pub folder_events: StatMap,
    /// Initial configuration from program launch.
    pub config: Config,
    /// Show help popup.
    pub show_help: bool,
    /// Time taken to scan, in milliseconds.
    pub scan_time: u64,
}

impl App {
    /// The state invariant: the scroll offset lies within bounds and the
    /// aggregate map is well formed.
    pub open spec fn wf(self) -> bool {
        self.scroll_state <= self.max_scroll && self.folder_events.wf()
    }

    /// Create a new [`App`] in the scanning state.
    pub fn new(config: Config) -> (app: App)
        ensures
            app.wf(),
            app == (App {
                folder_name: app.folder_name,
                scan_result: app.scan_result,
                should_quit: false,
                scroll_state: 0,
                max_scroll: 0,
                scanning: true,
                depth: config.depth,
                sort: SortBy::FileSize,
                content_height: 0,
                folder_events: app.folder_events,
                config: config,
                show_help: false,
                scan_time: 0,
            }),
            app.folder_name@ == Seq::<char>::empty(),
            app.scan_result@ == Seq::<(String, FolderStat)>::empty(),
            app.folder_events.as_map() == Map::<Seq<char>, FolderStat>::empty(),
            app.folder_events.rows() == Seq::<(String, FolderStat)>::empty(),
    {
        let depth = config.depth;
        App {
            scanning: true,
            depth,
            config,
            folder_name: String::new(),
            scan_result: Vec::new(),
            should_quit: false,
            scroll_state: 0,
            max_scroll: 0,
            sort: SortBy::FileSize,
            content_height: 0,
            folder_events: StatMap::new(),
            show_help: false,
            scan_time: 0,
        }
    }

    /// Update scan progress with the folder being scanned.
    pub fn update_progress(&mut self, folder_name: String)
        ensures
            *final(self) == (App { folder_name: folder_name, ..*old(self) }),
    {
        self.folder_name = folder_name;
    }

    /// Update state with scan results: sort them by size, largest first, and
    /// scroll back to the top.
    pub fn update_scan_result(&mut self, result: StatMap)
        ensures
            sorted_desc(final(self).scan_result@, SortBy::FileSize),
            final(self).scan_result@.to_multiset() == result.rows().to_multiset(),
            *final(self) == (App {
                scan_result: final(self).scan_result,
                sort: SortBy::FileSize,
                scroll_state: 0,
                max_scroll: final(self).max_scroll,
                ..*old(self)
            }),
            final(self).max_scroll == spec_max_scroll(
                final(self).scan_result@.len() as int,
                old(self).content_height,
            ),
            old(self).folder_events.wf() ==> final(self).wf(),
    {
        let mut file_rows = result.into_rows();
        sort_rows(&mut file_rows, SortBy::FileSize);
        self.sort = SortBy::FileSize;
        self.scan_result = file_rows;
        self.scroll_state = 0;
        self.compute_max_scroll();
    }

    /// Signal program termination.
    pub fn quit(&mut self)
        ensures
            *final(self) == (App { should_quit: true, ..*old(self) }),
    {
        self.should_quit = true;
    }

    /// Scroll up by `val` rows, stopping at the top.
    pub fn scroll_up(&mut self, val: usize)
        ensures
            final(self).scroll_state == if old(self).scroll_state >= val {
                (old(self).scroll_state - val) as usize
            } else {
                0usize
            },
            *final(self) == (App { scroll_state: final(self).scroll_state, ..*old(self) }),
            old(self).wf() ==> final(self).wf(),
    {
        let up = if self.scroll_state >= val {
            self.scroll_state - val
        } else {
            0
        };
        self.scroll_state = up;
    }

    /// Scroll down by `val` rows, clamped to the maximum scroll index.
    pub fn scroll_down(&mut self, val: usize)
        ensures
            final(self).scroll_state == if old(self).scroll_state + val <= old(self).max_scroll {
                (old(self).scroll_state + val) as usize
            } else {
                old(self).max_scroll
            },
            final(self).scroll_state <= old(self).max_scroll,
            *final(self) == (App { scroll_state: final(self).scroll_state, ..*old(self) }),
            old(self).folder_events.wf() ==> final(self).wf(),
    {
        if self.scroll_state >= self.max_scroll {
            self.scroll_state = self.max_scroll;
        } else if val <= self.max_scroll - self.scroll_state {
            self.scroll_state = self.scroll_state + val;
        } else {
            self.scroll_state = self.max_scroll;
        }
    }

    /// Compute what the maximum scroll index should be based on the content
    /// height and the total number of results.
    pub fn compute_max_scroll(&mut self)
        ensures
            final(self).max_scroll == spec_max_scroll(
                old(self).scan_result@.len() as int,
                old(self).content_height,
            ),
            *final(self) == (App { max_scroll: final(self).max_scroll, ..*old(self) }),
    {
        let page = (self.content_height / FOLDER_ITEM_HEIGHT) as usize;
        if page > self.scan_result.len() {
            self.max_scroll = 0;
        } else {
            self.max_scroll = self.scan_result.len() - page;
        }
    }

    /// The number of whole items one page shows.
    pub open spec fn spec_scroll_page(self) -> int {
        self.content_height as int / (FOLDER_ITEM_HEIGHT as int)
    }

    /// Compute the number of scroll state units for a full page.
    pub fn compute_scroll_page(&self) -> (r: usize)
        ensures
            r == self.spec_scroll_page(),
    {
        (self.content_height / FOLDER_ITEM_HEIGHT) as usize
    }

    /// The folder the scan is rooted at.
    pub fn root_folder(&self) -> (r: &str)
        ensures
            r@ == self.config.root_path@,
    {
        self.config.root_path.as_str()
    }
}

} // verus!
