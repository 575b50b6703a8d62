use fstats::app::{App, Config, SortBy};
use fstats::event::{Event, Input};
use fstats::stats::{FolderStat, StatMap};
use fstats::update::handle_event;

fn test_config() -> Config {
    Config {
        root_path: String::from("/root"),
        filters: Vec::new(),
        no_ignores: false,
        depth: 1,
        show_hidden: false,
    }
}

fn fragment(entries: &[(&str, u64, usize)]) -> StatMap {
    let mut m = StatMap::new();
    for (key, size, files) in entries {
        m.add_stat(
            key,
            FolderStat {
                size: *size,
                files: *files,
            },
        );
    }
    m
}

#[test]
fn tick_changes_nothing() {
    let mut app = App::new(test_config());
    let rescan = handle_event(&mut app, Event::Tick);
    assert!(!rescan);
    assert!(app.scanning);
    assert!(!app.should_quit);
}

#[test]
fn quit_input_quits() {
    let mut app = App::new(test_config());
    let rescan = handle_event(&mut app, Event::Input(Input::Quit));
    assert!(!rescan);
    assert!(app.should_quit);
}

#[test]
fn quit_input_first_closes_help() {
    let mut app = App::new(test_config());
    handle_event(&mut app, Event::Input(Input::ToggleHelp));
    assert!(app.show_help);
    handle_event(&mut app, Event::Input(Input::Quit));
    assert!(!app.show_help);
    assert!(!app.should_quit);
    handle_event(&mut app, Event::Input(Input::Quit));
    assert!(app.should_quit);
}

#[test]
fn progress_event_updates_folder_name() {
    let mut app = App::new(test_config());
    handle_event(&mut app, Event::Progress(String::from("/root/sub")));
    assert_eq!(app.folder_name, "/root/sub");
}

#[test]
fn folder_events_accumulate() {
    let mut app = App::new(test_config());
    handle_event(
        &mut app,
        Event::FolderEvent(fragment(&[("", 10, 1), ("/a", 10, 1)])),
    );
    handle_event(
        &mut app,
        Event::FolderEvent(fragment(&[("", 20, 1), ("/b", 20, 1)])),
    );
    assert_eq!(
        app.folder_events.get(""),
        Some(FolderStat { size: 30, files: 2 })
    );
    assert_eq!(
        app.folder_events.get("/a"),
        Some(FolderStat { size: 10, files: 1 })
    );
    assert_eq!(
        app.folder_events.get("/b"),
        Some(FolderStat { size: 20, files: 1 })
    );
}

#[test]
fn scan_complete_freezes_sorted_rows() {
    let mut app = App::new(test_config());
    handle_event(
        &mut app,
        Event::FolderEvent(fragment(&[("/small", 5, 1), ("", 55, 3), ("/big", 50, 2)])),
    );
    let rescan = handle_event(&mut app, Event::ScanComplete(1234));
    assert!(!rescan);
    assert!(!app.scanning);
    assert_eq!(app.scan_time, 1234);
    let names: Vec<&str> = app.scan_result.iter().map(|(n, _)| n.as_str()).collect();
    assert_eq!(names, vec!["", "/big", "/small"]);
    assert_eq!(app.folder_events.len(), 0);
}

#[test]
fn scan_complete_sorts_by_the_current_key() {
    let mut app = App::new(test_config());
    handle_event(&mut app, Event::Input(Input::SortByCount));
    handle_event(
        &mut app,
        Event::FolderEvent(fragment(&[("/big", 50, 2), ("/many", 5, 9)])),
    );
    handle_event(&mut app, Event::ScanComplete(1));
    let names: Vec<&str> = app.scan_result.iter().map(|(n, _)| n.as_str()).collect();
    assert_eq!(names, vec!["/many", "/big"]);
}

#[test]
fn resize_recomputes_viewport_and_clamps_scroll() {
    let mut app = App::new(test_config());
    app.scan_result = vec![
        (String::from("/a"), FolderStat { size: 9, files: 1 }),
        (String::from("/b"), FolderStat { size: 8, files: 1 }),
        (String::from("/c"), FolderStat { size: 7, files: 1 }),
    ];
    app.max_scroll = 3;
    app.scroll_state = 3;
    handle_event(&mut app, Event::Resize(80, 13)); // content height 8: two items
    assert_eq!(app.content_height, 8);
    assert_eq!(app.max_scroll, 1);
    assert_eq!(app.scroll_state, 1);
}

#[test]
fn tiny_resize_keeps_the_height_whole() {
    let mut app = App::new(test_config());
    handle_event(&mut app, Event::Resize(80, 3));
    assert_eq!(app.content_height, 3);
}

#[test]
fn content_frame_size_sets_the_height() {
    let mut app = App::new(test_config());
    handle_event(&mut app, Event::ContentFrameSize(10));
    assert_eq!(app.content_height, 8);
    handle_event(&mut app, Event::ContentFrameSize(1));
    assert_eq!(app.content_height, 1);
}

#[test]
fn scroll_inputs_move_within_bounds() {
    let mut app = App::new(test_config());
    app.max_scroll = 5;
    app.content_height = 8; // page of two
    handle_event(&mut app, Event::Input(Input::ScrollDown));
    assert_eq!(app.scroll_state, 1);
    handle_event(&mut app, Event::Input(Input::PageDown));
    assert_eq!(app.scroll_state, 3);
    handle_event(&mut app, Event::Input(Input::End));
    assert_eq!(app.scroll_state, 5);
    handle_event(&mut app, Event::Input(Input::ScrollDown));
    assert_eq!(app.scroll_state, 5);
    handle_event(&mut app, Event::Input(Input::ScrollUp));
    assert_eq!(app.scroll_state, 4);
    handle_event(&mut app, Event::Input(Input::PageUp));
    assert_eq!(app.scroll_state, 2);
    handle_event(&mut app, Event::Input(Input::Home));
    assert_eq!(app.scroll_state, 0);
    handle_event(&mut app, Event::Input(Input::ScrollUp));
    assert_eq!(app.scroll_state, 0);
}

#[test]
fn reconfiguration_while_idle_rescans() {
    let mut app = App::new(test_config());
    // a depth-1 scan completes
    handle_event(
        &mut app,
        Event::FolderEvent(fragment(&[("", 30, 2), ("/a", 30, 2)])),
    );
    handle_event(&mut app, Event::ScanComplete(7));
    assert!(!app.scanning);
    assert_eq!(app.scan_result.len(), 2);

    // changing the depth clears the rows and starts scanning again
    let rescan = handle_event(&mut app, Event::Input(Input::Depth(2)));
    assert!(rescan);
    assert!(app.scanning);
    assert_eq!(app.config.depth, 2);
    assert!(app.scan_result.is_empty());
    assert_eq!(app.folder_events.len(), 0);

    // the next scan completes with two-level rows
    handle_event(
        &mut app,
        Event::FolderEvent(fragment(&[("", 30, 2), ("/a", 30, 2), ("/a/b", 20, 1)])),
    );
    handle_event(&mut app, Event::ScanComplete(9));
    assert!(!app.scanning);
    assert_eq!(app.scan_result.len(), 3);
    assert_eq!(app.scan_time, 9);
}

#[test]
fn reconfiguration_while_scanning_is_dropped() {
    let mut app = App::new(test_config());
    assert!(app.scanning);
    let rescan = handle_event(&mut app, Event::Input(Input::Depth(2)));
    assert!(!rescan);
    assert!(app.scanning);
    assert_eq!(app.config.depth, 1);

    let rescan = handle_event(&mut app, Event::Input(Input::ToggleIgnores));
    assert!(!rescan);
    assert!(!app.config.no_ignores);

    let rescan = handle_event(&mut app, Event::Input(Input::ToggleHidden));
    assert!(!rescan);
    assert!(!app.config.show_hidden);
}

#[test]
fn toggles_while_idle_flip_config_and_rescan() {
    let mut app = App::new(test_config());
    handle_event(&mut app, Event::ScanComplete(1));
    assert!(!app.scanning);

    let rescan = handle_event(&mut app, Event::Input(Input::ToggleIgnores));
    assert!(rescan);
    assert!(app.config.no_ignores);
    assert!(app.scanning);

    handle_event(&mut app, Event::ScanComplete(2));
    let rescan = handle_event(&mut app, Event::Input(Input::ToggleHidden));
    assert!(rescan);
    assert!(app.config.show_hidden);
    assert!(app.scanning);
}

#[test]
fn sort_inputs_resort_rows() {
    let mut app = App::new(test_config());
    app.scan_result = vec![
        (String::from("/many"), FolderStat { size: 5, files: 9 }),
        (String::from("/big"), FolderStat { size: 50, files: 1 }),
    ];
    handle_event(&mut app, Event::Input(Input::SortBySize));
    let names: Vec<&str> = app.scan_result.iter().map(|(n, _)| n.as_str()).collect();
    assert_eq!(names, vec!["/big", "/many"]);
    assert!(matches!(app.sort, SortBy::FileSize));

    handle_event(&mut app, Event::Input(Input::SortByCount));
    let names: Vec<&str> = app.scan_result.iter().map(|(n, _)| n.as_str()).collect();
    assert_eq!(names, vec!["/many", "/big"]);
    assert!(matches!(app.sort, SortBy::FileCount));
}
