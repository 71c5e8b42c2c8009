use myrient_downloader::app::{DownloadAction, MyrientApp};
use myrient_downloader::data::{AppUpdate, Rom};
use myrient_downloader::navigation::{report_directories, report_roms};
use myrient_downloader::panels::{folder_label, toggle_label, version_label, Panel};
use myrient_downloader::patterns::predefined_patterns;
use myrient_downloader::removal::remove_positions;
use myrient_downloader::search::rows_containing;
use myrient_downloader::text::{decimal, enclose, join_with_slashes};

fn rom(name: &str) -> Rom {
    Rom {
        filename: name.to_string(),
        url: format!("https://host/{}", name),
    }
}

fn listed(names: &[&str]) -> MyrientApp {
    let mut app = MyrientApp::default();
    app.roms = names.iter().map(|name| rom(name)).collect();
    app
}

fn strings(items: &[&str]) -> Vec<String> {
    items.iter().map(|item| item.to_string()).collect()
}

#[test]
fn ticks_are_set_and_taken_away() {
    let mut app = listed(&["a", "b"]);
    app.set_selected("a", true);
    assert!(app.is_selected("a"));
    assert!(!app.is_selected("b"));
    app.set_selected("a", false);
    assert!(!app.is_selected("a"));
    assert!(app.selected_roms.is_empty());
}

#[test]
fn select_all_then_none() {
    let mut app = listed(&["a", "b", "a"]);
    app.set_selected("gone", true);
    app.select_all();
    assert!(app.is_selected("a"));
    assert!(app.is_selected("b"));
    assert!(!app.is_selected("gone"));
    app.deselect_all();
    assert!(app.download_selected().is_empty());
    assert_eq!(app.active_downloads, 0);
}

#[test]
fn selected_files_start_in_list_order() {
    let mut app = listed(&["a", "b", "c", "d"]);
    app.max_concurrent_downloads = 2;
    app.download_path = "/roms".to_string();
    for name in ["d", "a", "c"] {
        app.set_selected(name, true);
    }
    let actions = app.download_selected();
    assert_eq!(actions.len(), 3);
    match &actions[0] {
        DownloadAction::Start(request) => {
            assert_eq!(request.rom, rom("a"));
            assert_eq!(request.download_path, "/roms");
        }
        other => panic!("{:?}", other),
    }
    match &actions[1] {
        DownloadAction::Start(request) => assert_eq!(request.rom, rom("c")),
        other => panic!("{:?}", other),
    }
    assert_eq!(
        actions[2],
        DownloadAction::Queued(AppUpdate::SetStatus("Queued d for download".to_string()))
    );
    assert_eq!(app.active_downloads, 2);
    assert_eq!(app.download_queue, vec![rom("d")]);
}

#[test]
fn two_requests_are_one() {
    let mut once = listed(&["a", "b", "c"]);
    once.max_concurrent_downloads = 2;
    once.select_all();
    let all = once.download_selected();
    let mut twice = listed(&["a", "b", "c"]);
    twice.max_concurrent_downloads = 2;
    twice.set_selected("a", true);
    let mut parts = twice.download_selected();
    twice.set_selected("a", false);
    twice.set_selected("b", true);
    twice.set_selected("c", true);
    parts.extend(twice.download_selected());
    assert_eq!(all, parts);
    assert_eq!(once.download_queue, twice.download_queue);
    assert_eq!(once.active_downloads, twice.active_downloads);
}

#[test]
fn nothing_starts_while_loading() {
    let mut app = listed(&["a"]);
    app.select_all();
    app.loading = true;
    assert!(app.download_selected().is_empty());
    assert!(app.download_one(&rom("a")).is_none());
    assert_eq!(app.active_downloads, 0);
    assert!(app.download_queue.is_empty());
}

#[test]
fn file_under_way_is_not_started_again() {
    let mut app = listed(&["a"]);
    assert!(app.download_one(&rom("a")).is_some());
    assert!(app.download_one(&rom("a")).is_none());
    assert_eq!(app.active_downloads, 1);
    app.select_all();
    assert_eq!(app.download_selected().len(), 1);
    assert_eq!(app.active_downloads, 2);
}

#[test]
fn search_ignores_case() {
    let mut app = listed(&["Super MARIO (USA).zip", "Zelda.zip", "mario kart.zip"]);
    app.search_term = "mArIo".to_string();
    assert_eq!(app.visible_rows(), vec![0, 2]);
    assert_eq!(app.rom_list(), (vec![0, 2], Some("Showing 2/3 ROMs".to_string())));
    assert_eq!(app.search_summary(2), Some("Showing 2/3 ROMs".to_string()));
    app.search_term = "ÉTÉ".to_string();
    app.roms.push(rom("Un été.zip"));
    assert_eq!(app.visible_rows(), vec![3]);
    app.search_term = "nowhere".to_string();
    assert!(app.visible_rows().is_empty());
    assert_eq!(app.search_summary(0), Some("Showing 0/4 ROMs".to_string()));
}

#[test]
fn empty_search_shows_all() {
    let app = listed(&["a", "b", "c"]);
    assert_eq!(app.visible_rows(), vec![0, 1, 2]);
    assert_eq!(app.search_summary(3), None);
    assert_eq!(app.rom_list(), (vec![0, 1, 2], None));
}

#[test]
fn rows_compare_as_given() {
    let names = strings(&["abc", "ABC", "xabcx", "ab"]);
    assert_eq!(rows_containing(&names, "abc"), vec![0, 2]);
    assert_eq!(rows_containing(&names, ""), vec![0, 1, 2, 3]);
}

#[test]
fn queue_positions_are_cancelled() {
    let mut app = MyrientApp::default();
    app.download_queue = vec![rom("a"), rom("b"), rom("c"), rom("d")];
    app.cancel_queued(&vec![]);
    assert_eq!(app.download_queue.len(), 4);
    app.cancel_queued(&vec![1, 3]);
    assert_eq!(app.download_queue, vec![rom("a"), rom("c")]);
    assert_eq!(app.queue_heading(), "Queued Downloads (2)");
    app.cancel_queued(&vec![0, 1]);
    assert!(app.download_queue.is_empty());
}

#[test]
fn queue_is_cleared() {
    let mut app = MyrientApp::default();
    app.download_queue = vec![rom("a"), rom("b")];
    assert_eq!(
        app.clear_queue(),
        AppUpdate::SetStatus("Cleared download queue".to_string())
    );
    assert!(app.download_queue.is_empty());
    assert_eq!(app.active_summary(), "Active Downloads: 0/8");
}

#[test]
fn positions_are_removed() {
    let mut list = vec![10, 11, 12, 13, 14];
    remove_positions(&mut list, &vec![0, 2, 4]);
    assert_eq!(list, vec![11, 13]);
}

#[test]
fn patterns_are_added_and_removed() {
    let mut app = MyrientApp::default();
    assert_eq!(
        predefined_patterns(),
        strings(&[
            "Pirate",
            "Beta",
            "Proto",
            "Enhancement Chip",
            "Tech Demo",
            "Competition Cart",
            "Sample",
            "Aftermarket",
            "Demo",
            "Unl",
        ])
    );
    app.add_pattern("Beta");
    app.add_custom_pattern();
    app.add_pattern("Demo");
    assert_eq!(app.filter_options.exclude_patterns, strings(&["Beta", "", "Demo"]));
    app.remove_patterns(&vec![0, 1]);
    assert_eq!(app.filter_options.exclude_patterns, strings(&["Demo"]));
}

#[test]
fn entering_asks_for_files() {
    let mut app = listed(&["a"]);
    app.available_systems = strings(&["No-Intro"]);
    let request = app.enter_system("No-Intro".to_string());
    assert_eq!(request.announcement, AppUpdate::SetLoading(true));
    assert_eq!(request.system, "No-Intro");
    assert_eq!(request.subdir, "");
    assert_eq!(request.filter_options, app.filter_options);
    let request = app.enter_system("Game Boy".to_string());
    assert_eq!(request.subdir, "No-Intro");
    let request = app.enter_system("Extra".to_string());
    assert_eq!(request.subdir, "No-Intro/Game Boy");
    assert_eq!(app.current_path, strings(&["No-Intro", "Game Boy", "Extra"]));
    assert_eq!(app.selected_system, "Extra");
    assert!(app.available_systems.is_empty());
    assert!(app.needs_directory_load);
    assert!(!app.loading);
    assert_eq!(app.roms.len(), 1);
}

#[test]
fn way_back_leads_back() {
    let mut app = listed(&["a"]);
    app.enter_system("x".to_string());
    app.enter_system("y".to_string());
    app.go_to_breadcrumb(0);
    assert_eq!(app.current_path, strings(&["x"]));
    assert_eq!(app.selected_system, "y");
    assert!(app.roms.is_empty());
    app.go_to_breadcrumb(5);
    assert_eq!(app.current_path, strings(&["x"]));
    app.go_to_root();
    assert!(app.current_path.is_empty());
    assert_eq!(app.selected_system, "");
    assert!(app.needs_directory_load);
}

#[test]
fn directories_are_asked_for_once() {
    let mut app = MyrientApp::default();
    assert!(app.take_directory_request().is_none());
    app.toggle(Panel::SystemSelection);
    app.enter_system("x".to_string());
    app.enter_system("y".to_string());
    app.loading = true;
    assert!(app.take_directory_request().is_none());
    app.loading = false;
    let request = app.take_directory_request().unwrap();
    assert_eq!(request.path, "x/y");
    assert_eq!(request.announcement, AppUpdate::SetLoading(true));
    assert!(app.take_directory_request().is_none());
}

#[test]
fn listing_reports_settle() {
    let mut app = MyrientApp::default();
    app.loading = true;
    for update in report_directories(Ok(strings(&["x"]))) {
        app.handle_update(update);
    }
    assert_eq!(app.available_systems, strings(&["x"]));
    assert_eq!(app.status_message, "Directories loaded successfully");
    assert!(!app.loading);
    app.loading = true;
    for update in report_directories(Err("no net".to_string())) {
        app.handle_update(update);
    }
    assert_eq!(app.available_systems, strings(&["x"]));
    assert_eq!(app.status_message, "Error loading directories: no net");
    assert!(!app.loading);
    app.loading = true;
    for update in report_roms(Ok(vec![rom("a")])) {
        app.handle_update(update);
    }
    assert_eq!(app.roms, vec![rom("a")]);
    assert_eq!(app.status_message, "ROMs loaded successfully");
    for update in report_roms(Err("no net".to_string())) {
        app.handle_update(update);
    }
    assert_eq!(app.roms, vec![rom("a")]);
    assert_eq!(app.status_message, "Error loading ROMs: no net");
    assert!(!app.loading);
}

#[test]
fn panels_toggle() {
    let mut app = MyrientApp::default();
    for panel in [Panel::FilterOptions, Panel::DownloadSettings, Panel::Queue] {
        app.toggle(panel);
    }
    assert!(app.show_filter_options && app.show_download_settings && app.show_queue_window);
    assert!(!app.show_system_selection);
    app.toggle(Panel::Queue);
    assert!(!app.show_queue_window);
    assert_eq!(toggle_label(true), "v");
    assert_eq!(toggle_label(false), ">");
}

#[test]
fn labels_read_as_expected() {
    assert_eq!(folder_label("Game Boy"), "📁 Game Boy");
    assert_eq!(
        version_label("1.2.3", "0.1.0"),
        "Myrient ROM Downloader 1.2.3 | myrient-filter 0.1.0"
    );
}

#[test]
fn numbers_and_paths_are_written_out() {
    assert_eq!(decimal(0), "0");
    assert_eq!(decimal(9), "9");
    assert_eq!(decimal(1234567890), "1234567890");
    assert_eq!(decimal(usize::MAX), usize::MAX.to_string());
    assert_eq!(enclose("a", "b", "c"), "abc");
    let parts = strings(&["a", "b", "c"]);
    assert_eq!(join_with_slashes(&parts, 0), "");
    assert_eq!(join_with_slashes(&parts, 1), "a");
    assert_eq!(join_with_slashes(&parts, 3), "a/b/c");
}
