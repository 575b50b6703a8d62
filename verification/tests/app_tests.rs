use fstats::app::{App, Config, SortBy};
use fstats::rows::percent;
use fstats::stats::{FolderStat, StatMap};
use fstats::update::handle_sort;

fn test_config() -> Config {
    Config {
        root_path: String::from("/root"),
        filters: Vec::new(),
        no_ignores: false,
        depth: 1,
        show_hidden: false,
    }
}

#[test]
fn new_app_starts_scanning() {
    let app = App::new(test_config());
    assert!(app.scanning);
    assert!(!app.should_quit);
    assert_eq!(app.depth, 1);
    assert_eq!(app.scroll_state, 0);
    assert_eq!(app.max_scroll, 0);
    assert!(app.scan_result.is_empty());
    assert!(!app.show_help);
    assert_eq!(app.scan_time, 0);
}

#[test]
fn update_progress_sets_folder_name() {
    let mut app = App::new(test_config());
    app.update_progress(String::from("/root/src"));
    assert_eq!(app.folder_name, "/root/src");
}

#[test]
fn quit_sets_the_flag() {
    let mut app = App::new(test_config());
    app.quit();
    assert!(app.should_quit);
}

#[test]
fn scroll_up_stops_at_zero() {
    let mut app = App::new(test_config());
    app.scroll_state = 3;
    app.max_scroll = 10;
    app.scroll_up(1);
    assert_eq!(app.scroll_state, 2);
    app.scroll_up(5);
    assert_eq!(app.scroll_state, 0);
}

#[test]
fn scroll_down_clamps_to_max() {
    let mut app = App::new(test_config());
    app.max_scroll = 4;
    app.scroll_down(3);
    assert_eq!(app.scroll_state, 3);
    app.scroll_down(3);
    assert_eq!(app.scroll_state, 4);
    assert!(app.scroll_state <= app.max_scroll);
}

#[test]
fn max_scroll_counts_rows_below_the_fold() {
    let mut app = App::new(test_config());
    app.content_height = 12; // three items of height four fit
    app.scan_result = vec![
        (String::from("/a"), FolderStat { size: 5, files: 1 }),
        (String::from("/b"), FolderStat { size: 4, files: 1 }),
        (String::from("/c"), FolderStat { size: 3, files: 1 }),
        (String::from("/d"), FolderStat { size: 2, files: 1 }),
        (String::from("/e"), FolderStat { size: 1, files: 1 }),
    ];
    app.compute_max_scroll();
    assert_eq!(app.max_scroll, 2);
}

#[test]
fn max_scroll_is_zero_when_everything_fits() {
    let mut app = App::new(test_config());
    app.content_height = 40;
    app.scan_result = vec![(String::from("/a"), FolderStat { size: 5, files: 1 })];
    app.compute_max_scroll();
    assert_eq!(app.max_scroll, 0);
}

#[test]
fn zero_viewport_yields_row_count_without_underflow() {
    let mut app = App::new(test_config());
    app.content_height = 0;
    app.scan_result = vec![
        (String::from("/a"), FolderStat { size: 5, files: 1 }),
        (String::from("/b"), FolderStat { size: 4, files: 1 }),
    ];
    app.compute_max_scroll();
    assert_eq!(app.max_scroll, app.scan_result.len());
}

#[test]
fn scroll_page_is_whole_items_per_viewport() {
    let mut app = App::new(test_config());
    app.content_height = 11;
    assert_eq!(app.compute_scroll_page(), 2);
    app.content_height = 0;
    assert_eq!(app.compute_scroll_page(), 0);
}

#[test]
fn percent_guards_the_zero_total() {
    assert_eq!(percent(0, 0), 0);
    assert_eq!(percent(20, 30), 66);
    assert_eq!(percent(30, 30), 100);
    assert_eq!(percent(0, 7), 0);
}

#[test]
fn root_folder_names_the_configured_root() {
    let app = App::new(test_config());
    assert_eq!(app.root_folder(), "/root");
}

#[test]
fn update_scan_result_sorts_by_size_descending() {
    let mut app = App::new(test_config());
    app.scroll_state = 0;
    let mut result = StatMap::new();
    result.add_stat("/small", FolderStat { size: 5, files: 9 });
    result.add_stat("/big", FolderStat { size: 50, files: 1 });
    result.add_stat("/mid", FolderStat { size: 20, files: 4 });
    app.update_scan_result(result);
    let names: Vec<&str> = app.scan_result.iter().map(|(n, _)| n.as_str()).collect();
    assert_eq!(names, vec!["/big", "/mid", "/small"]);
    assert!(matches!(app.sort, SortBy::FileSize));
    assert_eq!(app.scroll_state, 0);
}

#[test]
fn resorting_sorted_rows_is_identity() {
    let mut app = App::new(test_config());
    app.scan_result = vec![
        (String::from("/big"), FolderStat { size: 50, files: 1 }),
        (String::from("/mid"), FolderStat { size: 20, files: 4 }),
        (String::from("/tie-a"), FolderStat { size: 5, files: 9 }),
        (String::from("/tie-b"), FolderStat { size: 5, files: 2 }),
    ];
    let before = app.scan_result.clone();
    handle_sort(&mut app, SortBy::FileSize);
    assert_eq!(app.scan_result, before);
    handle_sort(&mut app, SortBy::FileSize);
    assert_eq!(app.scan_result, before);
}

#[test]
fn sort_by_count_reorders_and_keeps_ties_stable() {
    let mut app = App::new(test_config());
    app.scan_result = vec![
        (String::from("/big"), FolderStat { size: 50, files: 1 }),
        (String::from("/tie-a"), FolderStat { size: 30, files: 4 }),
        (String::from("/tie-b"), FolderStat { size: 20, files: 4 }),
        (String::from("/many"), FolderStat { size: 5, files: 9 }),
    ];
    handle_sort(&mut app, SortBy::FileCount);
    let names: Vec<&str> = app.scan_result.iter().map(|(n, _)| n.as_str()).collect();
    assert_eq!(names, vec!["/many", "/tie-a", "/tie-b", "/big"]);
    assert_eq!(app.scroll_state, 0);
}
