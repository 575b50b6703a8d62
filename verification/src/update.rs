//! The event-driven state machine.
//!
//! [`handle_event`] consumes one event and applies exactly one transition to
//! the application state. It returns `true` when a configuration change asks
//! for a fresh scan; the surrounding program then restarts the walker with the
//! updated configuration. Configuration changes arriving while a scan is in
//! flight are dropped, so no two scans ever run at once.

use crate::app::{spec_max_scroll, App, Config, SortBy};
use crate::event::{event_wf, Event, Input};
use crate::rows::{sort_rows, sorted_desc};
use crate::stats::{merge_maps, FolderStat, StatMap};
use vstd::prelude::*;

verus! {

/// A terminal height shrunk by the rows that the surrounding chrome takes,
/// kept whole when too small to shrink.
pub open spec fn shrunk_height(h: u16, chrome: u16) -> u16 {
    if h >= chrome {
        (h - chrome) as u16
    } else {
        h
    }
}

/// A scroll offset clamped from above by the maximum scroll index.
pub open spec fn clamped(scroll: int, max_scroll: int) -> int {
    if scroll <= max_scroll {
        scroll
    } else {
        max_scroll
    }
}

/// Rows re-sorted under key `k`: same rows, largest first, unchanged when
/// already in order.
pub open spec fn spec_sorted_rows(
    pre: Seq<(String, FolderStat)>,
    k: SortBy,
    post: Seq<(String, FolderStat)>,
) -> bool {
    &&& sorted_desc(post, k)
    &&& post.to_multiset() == pre.to_multiset()
    &&& post.len() == pre.len()
    &&& (sorted_desc(pre, k) ==> post == pre)
}

/// The sort-key transition: rows re-sorted, scroll back at the top, nothing
/// else touched.
pub open spec fn spec_sort_transition(pre: App, k: SortBy, post: App) -> bool {
    &&& post == (App { sort: k, scan_result: post.scan_result, scroll_state: 0, ..pre })
    &&& spec_sorted_rows(pre.scan_result@, k, post.scan_result@)
}

/// The state right after a configuration change restarts the scan: scanning
/// again under the new configuration, with rows, aggregates and scroll state
/// cleared.
pub open spec fn spec_rescan_state(pre: App, post: App) -> bool {
    &&& post == (App {
        scanning: true,
        config: post.config,
        scan_result: post.scan_result,
        folder_events: post.folder_events,
        scroll_state: 0,
        max_scroll: 0,
        ..pre
    })
    &&& post.scan_result@.len() == 0
    &&& post.folder_events.as_map() == Map::<Seq<char>, FolderStat>::empty()
    &&& post.folder_events.wf()
}

/// The transition for one decoded user input. `rescan` is true exactly when
/// the input changed the configuration while idle.
pub open spec fn spec_handle_input(pre: App, input: Input, post: App, rescan: bool) -> bool {
    match input {
        Input::Quit => !rescan && if pre.show_help {
            post == (App { show_help: false, ..pre })
        } else {
            post == (App { should_quit: true, ..pre })
        },
        Input::SortBySize => !rescan && spec_sort_transition(pre, SortBy::FileSize, post),
        Input::SortByCount => !rescan && spec_sort_transition(pre, SortBy::FileCount, post),
        Input::ScrollUp => !rescan && post == (App { scroll_state: post.scroll_state, ..pre })
            && post.scroll_state == (if pre.scroll_state >= 1 {
            pre.scroll_state - 1
        } else {
            0
        }),
        Input::ScrollDown => !rescan && post == (App { scroll_state: post.scroll_state, ..pre })
            && post.scroll_state == clamped(pre.scroll_state + 1, pre.max_scroll as int),
        Input::PageUp => !rescan && post == (App { scroll_state: post.scroll_state, ..pre })
            && post.scroll_state == (if pre.scroll_state >= pre.spec_scroll_page() {
            pre.scroll_state - pre.spec_scroll_page()
        } else {
            0
        }),
        Input::PageDown => !rescan && post == (App { scroll_state: post.scroll_state, ..pre })
            && post.scroll_state == clamped(
            pre.scroll_state + pre.spec_scroll_page(),
            pre.max_scroll as int,
        ),
        Input::Home => !rescan && post == (App { scroll_state: 0, ..pre }),
        Input::End => !rescan && post == (App { scroll_state: pre.max_scroll, ..pre }),
        Input::Depth(d) => if pre.scanning {
            !rescan && post == pre
        } else {
            rescan && spec_rescan_state(pre, post) && post.config == (Config {
                depth: d,
                ..pre.config
            })
        },
        Input::ToggleIgnores => if pre.scanning {
            !rescan && post == pre
        } else {
            rescan && spec_rescan_state(pre, post) && post.config == (Config {
                no_ignores: !pre.config.no_ignores,
                ..pre.config
            })
        },
        Input::ToggleHidden => if pre.scanning {
            !rescan && post == pre
        } else {
            rescan && spec_rescan_state(pre, post) && post.config == (Config {
                show_hidden: !pre.config.show_hidden,
                ..pre.config
            })
        },
        Input::ToggleHelp => !rescan && post == (App { show_help: !pre.show_help, ..pre }),
    }
}

/// The transition for one event, whatever its producer.
pub open spec fn spec_transition(pre: App, event: Event, post: App, rescan: bool) -> bool {
    match event {
        Event::Tick => !rescan && post == pre,
        Event::Input(input) => spec_handle_input(pre, input, post, rescan),
        Event::Resize(_w, h) => !rescan && spec_viewport_change(pre, shrunk_height(h, 5), post),
        Event::Progress(folder) => !rescan && post == (App { folder_name: folder, ..pre }),
        Event::ScanComplete(elapsed) => {
            &&& !rescan
            &&& spec_sorted_rows(pre.folder_events.rows(), pre.sort, post.scan_result@)
            &&& post.folder_events.as_map() == Map::<Seq<char>, FolderStat>::empty()
            &&& post.folder_events.wf()
            &&& post.max_scroll == spec_max_scroll(
                post.scan_result@.len() as int,
                pre.content_height,
            )
            &&& post.scroll_state == clamped(pre.scroll_state as int, post.max_scroll as int)
            &&& post == (App {
                scanning: false,
                scan_time: elapsed,
                scan_result: post.scan_result,
                folder_events: post.folder_events,
                max_scroll: post.max_scroll,
                scroll_state: post.scroll_state,
                ..pre
            })
        },
        Event::ContentFrameSize(h) => !rescan && spec_viewport_change(
            pre,
            shrunk_height(h, 2),
            post,
        ),
        Event::FolderEvent(fragment) => {
            &&& !rescan
            &&& post == (App { folder_events: post.folder_events, ..pre })
            &&& post.folder_events.as_map() == merge_maps(
                pre.folder_events.as_map(),
                fragment.as_map(),
            )
            &&& post.folder_events.wf()
        },
    }
}

/// A new content height: the maximum scroll index is recomputed and the
/// scroll offset clamped back into range.
pub open spec fn spec_viewport_change(pre: App, h: u16, post: App) -> bool {
    &&& post.max_scroll == spec_max_scroll(pre.scan_result@.len() as int, h)
    &&& post.scroll_state == clamped(pre.scroll_state as int, post.max_scroll as int)
    &&& post == (App {
        content_height: h,
        max_scroll: post.max_scroll,
        scroll_state: post.scroll_state,
        ..pre
    })
}

/// Sort the result rows by the given key, largest first, and scroll back to
/// the top.
pub fn handle_sort(app: &mut App, sort_by: SortBy)
    ensures
        spec_sort_transition(*old(app), sort_by, *final(app)),
        old(app).wf() ==> final(app).wf(),
{
    app.sort = sort_by;
    sort_rows(&mut app.scan_result, sort_by);
    app.scroll_state = 0;
}

fn restart_scan_state(app: &mut App)
    ensures
        *final(app) == (App {
            scan_result: final(app).scan_result,
            folder_events: final(app).folder_events,
            scroll_state: 0,
            max_scroll: 0,
            ..*old(app)
        }),
        final(app).scan_result@.len() == 0,
        final(app).folder_events.as_map() == Map::<Seq<char>, FolderStat>::empty(),
        final(app).folder_events.wf(),
{
    app.scan_result = Vec::new();
    app.folder_events = StatMap::new();
    app.scroll_state = 0;
    app.max_scroll = 0;
}

fn handle_depth_change(app: &mut App, depth: u8) -> (rescan: bool)
    ensures
        spec_handle_input(*old(app), Input::Depth(depth), *final(app), rescan),
        old(app).wf() ==> final(app).wf(),
{
    if app.scanning {
        return false;
    }
    app.scanning = true;
    app.config.depth = depth;
    restart_scan_state(app);
    true
}

fn toggle_ignores(app: &mut App) -> (rescan: bool)
    ensures
        spec_handle_input(*old(app), Input::ToggleIgnores, *final(app), rescan),
        old(app).wf() ==> final(app).wf(),
{
    if app.scanning {
        return false;
    }
    app.config.no_ignores = !app.config.no_ignores;
    app.scanning = true;
    restart_scan_state(app);
    true
}

fn toggle_hidden(app: &mut App) -> (rescan: bool)
    ensures
        spec_handle_input(*old(app), Input::ToggleHidden, *final(app), rescan),
        old(app).wf() ==> final(app).wf(),
{
    if app.scanning {
        return false;
    }
    app.scanning = true;
    app.config.show_hidden = !app.config.show_hidden;
    restart_scan_state(app);
    true
}

fn handle_input(app: &mut App, input: Input) -> (rescan: bool)
    requires
        old(app).wf(),
    ensures
        final(app).wf(),
        spec_handle_input(*old(app), input, *final(app), rescan),
{
    match input {
        Input::Quit => {
            if app.show_help {
                app.show_help = false;
            } else {
                app.quit();
            }
            false
        },
        Input::SortBySize => {
            handle_sort(app, SortBy::FileSize);
            false
        },
        Input::SortByCount => {
            handle_sort(app, SortBy::FileCount);
            false
        },
        Input::ScrollUp => {
            app.scroll_up(1);
            false
        },
        Input::ScrollDown => {
            app.scroll_down(1);
            false
        },
        Input::PageUp => {
            let page = app.compute_scroll_page();
            app.scroll_up(page);
            false
        },
        Input::PageDown => {
            let page = app.compute_scroll_page();
            app.scroll_down(page);
            false
        },
        Input::Home => {
            app.scroll_state = 0;
            false
        },
        Input::End => {
            app.scroll_state = app.max_scroll;
            false
        },
        Input::Depth(d) => handle_depth_change(app, d),
        Input::ToggleIgnores => toggle_ignores(app),
        Input::ToggleHidden => toggle_hidden(app),
        Input::ToggleHelp => {
            app.show_help = !app.show_help;
            false
        },
    }
}

/// Main event handler: apply one state-machine transition. Returns true when
/// the configuration changed and a fresh scan must be started.
pub fn handle_event(app: &mut App, event: Event) -> (rescan: bool)
    requires
        old(app).wf(),
        event_wf(event),
    ensures
        final(app).wf(),
        spec_transition(*old(app), event, *final(app), rescan),
{
    match event {
        Event::Tick => false,
        Event::Input(input) => handle_input(app, input),
        Event::Progress(folder) => {
            app.update_progress(folder);
            false
        },
        Event::ScanComplete(elapsed) => {
            let mut events = StatMap::new();
            core::mem::swap(&mut app.folder_events, &mut events);
            let sort_key = app.sort;
            app.scan_result = events.into_rows();
            sort_rows(&mut app.scan_result, sort_key);
            app.compute_max_scroll();
            if app.scroll_state > app.max_scroll {
                app.scroll_state = app.max_scroll;
            }
            app.scanning = false;
            app.scan_time = elapsed;
            false
        },
        Event::Resize(_w, h) => {
            app.content_height = if h >= 5 {
                h - 5
            } else {
                h
            };
            app.compute_max_scroll();
            if app.scroll_state > app.max_scroll {
                app.scroll_state = app.max_scroll;
            }
            false
        },
        Event::ContentFrameSize(h) => {
            app.content_height = if h >= 2 {
                h - 2
            } else {
                h
            };
            app.compute_max_scroll();
            if app.scroll_state > app.max_scroll {
                app.scroll_state = app.max_scroll;
            }
            false
        },
        Event::FolderEvent(fragment) => {
            app.folder_events.merge_from(&fragment);
            false
        },
    }
}

} // verus!
