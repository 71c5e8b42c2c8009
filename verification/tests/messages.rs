use myrient_downloader::app::{DownloadAction, DownloadRequest, MyrientApp};
use myrient_downloader::data::{AppUpdate, Rom};
use myrient_downloader::progress::{Fraction, Progress};

fn rom(name: &str) -> Rom {
    Rom {
        filename: name.to_string(),
        url: format!("https://host/{}", name),
    }
}

fn finished(name: &str) -> AppUpdate {
    AppUpdate::DownloadProgress(name.to_string(), Progress::Finished)
}

fn running(name: &str, downloaded: u64, total: u64) -> AppUpdate {
    AppUpdate::DownloadProgress(
        name.to_string(),
        Progress::Running(Fraction { downloaded, total }),
    )
}

fn names(roms: &[Rom]) -> Vec<&str> {
    roms.iter().map(|rom| rom.filename.as_str()).collect()
}

fn started(action: Option<DownloadAction>) -> String {
    match action {
        Some(DownloadAction::Start(request)) => request.rom.filename,
        other => panic!("not started: {:?}", other),
    }
}

#[test]
fn window_starts_with_defaults() {
    let app = MyrientApp::default();
    assert!(app.filter_options.region_limit);
    assert_eq!(app.filter_options.region, "USA");
    assert!(app.filter_options.smart_filters);
    assert!(app.filter_options.latest_revision);
    assert!(app.filter_options.exclude_patterns.is_empty());
    assert_eq!(app.download_path, "downloads");
    assert_eq!(app.max_concurrent_downloads, 8);
    assert_eq!(app.active_downloads, 0);
    assert!(app.needs_directory_load);
    assert!(!app.loading);
    assert!(!app.has_active_downloads);
    assert!(app.download_progress.is_empty());
    assert!(app.selected_roms.is_empty());
    assert!(!app.show_queue_window);
}

#[test]
fn messages_replace_what_they_bring() {
    let mut app = MyrientApp::default();
    assert!(app
        .handle_update(AppUpdate::SystemsLoaded(vec!["Nintendo".to_string()]))
        .is_none());
    assert!(app.handle_update(AppUpdate::RomsLoaded(vec![rom("a.zip")])).is_none());
    assert!(app.handle_update(AppUpdate::SetStatus("hello".to_string())).is_none());
    assert!(app.handle_update(AppUpdate::SetLoading(true)).is_none());
    assert_eq!(app.available_systems, vec!["Nintendo".to_string()]);
    assert_eq!(names(&app.roms), vec!["a.zip"]);
    assert_eq!(app.status_message, "hello");
    assert!(app.loading);
}

#[test]
fn progress_is_recorded_and_replaced() {
    let mut app = MyrientApp::default();
    assert!(app.handle_update(running("a", 1, 4)).is_none());
    assert!(app.has_active_downloads);
    assert!(app.handle_update(running("a", 3, 4)).is_none());
    let a = "a".to_string();
    assert_eq!(
        app.download_progress.get(&a),
        Some(Fraction { downloaded: 3, total: 4 })
    );
    assert_eq!(app.download_progress.entries().len(), 1);
    assert_eq!(app.download_progress.get(&"b".to_string()), None);
}

#[test]
fn last_finish_ends_activity() {
    let mut app = MyrientApp::default();
    app.handle_update(running("a", 1, 4));
    app.handle_update(running("b", 1, 4));
    assert!(app.handle_update(finished("a")).is_none());
    assert!(app.has_active_downloads);
    assert!(app.handle_update(finished("b")).is_none());
    assert!(!app.has_active_downloads);
    assert!(app.download_progress.is_empty());
    assert_eq!(app.active_downloads, 0);
}

#[test]
fn finish_starts_first_of_queue() {
    let mut app = MyrientApp::default();
    app.max_concurrent_downloads = 1;
    assert_eq!(started(app.download_one(&rom("a"))), "a");
    assert_eq!(
        app.download_one(&rom("b")),
        Some(DownloadAction::Queued(AppUpdate::SetStatus(
            "Queued b for download".to_string()
        )))
    );
    app.download_one(&rom("c"));
    assert_eq!(names(&app.download_queue), vec!["b", "c"]);
    assert_eq!(
        app.handle_update(finished("a")),
        Some(DownloadRequest {
            rom: rom("b"),
            download_path: "downloads".to_string(),
        })
    );
    assert_eq!(names(&app.download_queue), vec!["c"]);
    assert_eq!(
        app.download_progress.get(&"b".to_string()),
        Some(Fraction { downloaded: 0, total: 1 })
    );
    assert_eq!(app.download_progress.get(&"a".to_string()), None);
}

#[test]
fn finish_while_loading_leaves_queue() {
    let mut app = MyrientApp::default();
    app.max_concurrent_downloads = 1;
    app.download_one(&rom("a"));
    app.download_one(&rom("b"));
    app.handle_update(AppUpdate::SetLoading(true));
    assert!(app.handle_update(finished("a")).is_none());
    assert_eq!(names(&app.download_queue), vec!["b"]);
    assert_eq!(app.active_downloads, 0);
}

#[test]
fn queue_is_served_in_order() {
    let mut app = MyrientApp::default();
    app.max_concurrent_downloads = 2;
    app.roms = vec![rom("a"), rom("b"), rom("c"), rom("d"), rom("e")];
    app.select_all();
    let actions = app.download_selected();
    assert_eq!(actions.len(), 5);
    let mut order = Vec::new();
    for name in ["a", "b", "c"] {
        order.push(app.handle_update(finished(name)).unwrap().rom.filename);
    }
    assert_eq!(order, vec!["c", "d", "e"]);
    assert!(app.download_queue.is_empty());
    assert!(app.handle_update(finished("d")).is_none());
}

#[test]
fn start_from_queue_is_not_counted() {
    let mut app = MyrientApp::default();
    app.max_concurrent_downloads = 1;
    app.download_one(&rom("a"));
    app.download_one(&rom("b"));
    assert!(app.handle_update(finished("a")).is_some());
    assert_eq!(app.active_downloads, 0);
    assert_eq!(started(app.download_one(&rom("c"))), "c");
}

#[test]
fn limit_is_kept_without_queue() {
    let mut app = MyrientApp::default();
    let mut count = 0;
    for i in 0..12 {
        match app.download_one(&rom(&format!("r{}", i))) {
            Some(DownloadAction::Start(_)) => count += 1,
            Some(DownloadAction::Queued(_)) => {}
            None => panic!("refused"),
        }
    }
    assert_eq!(count, 8);
    assert_eq!(app.active_downloads, 8);
    assert_eq!(app.download_queue.len(), 4);
}
