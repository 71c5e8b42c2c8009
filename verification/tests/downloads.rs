use myrient_downloader::app::MyrientApp;
use myrient_downloader::data::{AppUpdate, Rom};
use myrient_downloader::download::{
    announces_text, begin_download, download_rom, report_result, start_download, Command, Download, Event, Outcome,
};
use myrient_downloader::filename::{extension, stem};
use myrient_downloader::progress::{Fraction, Progress};

fn begin(name: &str) -> Download {
    let rom = Rom {
        filename: name.to_string(),
        url: "https://host/file".to_string(),
    };
    let (download, outcome) = download_rom(rom);
    assert_eq!(outcome.updates, vec![status(&format!("Starting download of {}", name))]);
    assert_eq!(outcome.command, Command::Fetch("https://host/file".to_string()));
    assert_eq!(outcome.console, None);
    download
}

fn status(text: &str) -> AppUpdate {
    AppUpdate::SetStatus(text.to_string())
}

fn finished(name: &str) -> AppUpdate {
    AppUpdate::DownloadProgress(name.to_string(), Progress::Finished)
}

fn take(download: &mut Download, event: Event) -> Outcome {
    assert!(download.is_expected(&event));
    download.step(event)
}

fn response(content_type: Option<&[u8]>, content_length: Option<u64>) -> Event {
    Event::Response {
        content_type: content_type.map(|bytes| bytes.to_vec()),
        content_length,
    }
}

fn silent(command: Command) -> Outcome {
    Outcome {
        updates: vec![],
        console: None,
        command,
    }
}

fn receive(download: &mut Download) {
    assert_eq!(
        take(download, response(Some(b"application/zip"), Some(10))),
        silent(Command::OpenFile(download.rom.filename.clone()))
    );
    assert_eq!(take(download, Event::FileOpened), silent(Command::NextChunk));
    for (len, so_far) in [(4, 4), (6, 10)] {
        let outcome = take(download, Event::ChunkWritten(len));
        assert_eq!(outcome.command, Command::NextChunk);
        assert_eq!(
            outcome.updates,
            vec![AppUpdate::DownloadProgress(
                download.rom.filename.clone(),
                Progress::Running(Fraction { downloaded: so_far, total: 10 }),
            )]
        );
    }
}

fn success(name: &str) -> Outcome {
    Outcome {
        updates: vec![
            finished(name),
            status(&format!("Successfully downloaded and processed {}", name)),
        ],
        console: None,
        command: Command::Return(Ok(())),
    }
}

#[test]
fn plain_file_is_kept_as_it_is() {
    let mut download = begin("game.bin");
    receive(&mut download);
    assert_eq!(take(&mut download, Event::StreamEnded), success("game.bin"));
    assert!(!download.is_expected(&Event::StreamEnded));
    assert!(!download.is_expected(&Event::Failed("late".to_string())));
}

#[test]
fn archive_is_unpacked_and_moved() {
    let mut download = begin("My Game (USA).zip");
    receive(&mut download);
    let outcome = take(&mut download, Event::StreamEnded);
    assert_eq!(outcome.updates, vec![status("Extracting My Game (USA).zip")]);
    assert_eq!(
        outcome.command,
        Command::Unzip {
            archive: "My Game (USA).zip".to_string(),
            folder: "My Game (USA)".to_string(),
        }
    );
    assert_eq!(
        take(&mut download, Event::Unzipped(true)),
        silent(Command::RemoveArchive("My Game (USA).zip".to_string()))
    );
    assert_eq!(
        take(&mut download, Event::ArchiveRemoved),
        silent(Command::LookForFolder("My Game (USA)".to_string()))
    );
    assert_eq!(
        take(&mut download, Event::FolderExists(true)),
        silent(Command::OpenFolder("My Game (USA)".to_string()))
    );
    assert_eq!(take(&mut download, Event::FolderOpened), silent(Command::NextEntry));
    let outcome = take(&mut download, Event::Entry("game.gb".to_string()));
    assert_eq!(outcome.updates, vec![status("Moving extracted file: game.gb")]);
    assert_eq!(outcome.command, Command::CopyEntry("game.gb".to_string()));
    assert_eq!(take(&mut download, Event::EntryCopied), silent(Command::NextEntry));
    assert_eq!(
        take(&mut download, Event::EntriesEnded),
        silent(Command::RemoveFolder("My Game (USA)".to_string()))
    );
    assert_eq!(take(&mut download, Event::FolderRemoved), success("My Game (USA).zip"));
}

#[test]
fn archive_without_folder_is_done() {
    let mut download = begin("a.zip");
    receive(&mut download);
    take(&mut download, Event::StreamEnded);
    take(&mut download, Event::Unzipped(true));
    take(&mut download, Event::ArchiveRemoved);
    assert_eq!(take(&mut download, Event::FolderExists(false)), success("a.zip"));
}

#[test]
fn failed_unpacking_keeps_the_archive() {
    let mut download = begin("a.zip");
    receive(&mut download);
    take(&mut download, Event::StreamEnded);
    let outcome = take(&mut download, Event::Unzipped(false));
    assert_eq!(outcome.updates, vec![status("Failed to extract a.zip")]);
    assert_eq!(outcome.command, Command::Return(Err("Failed to unzip file".to_string())));
}

#[test]
fn text_answer_is_an_error() {
    let mut download = begin("a.zip");
    assert_eq!(
        take(&mut download, response(Some(b"text/html; charset=utf-8"), Some(10))),
        silent(Command::ReadText)
    );
    assert_eq!(
        take(&mut download, Event::Text("not found".to_string())),
        Outcome {
            updates: vec![status("Error: Received text response for a.zip, check console")],
            console: Some("not found".to_string()),
            command: Command::Return(Err("Received text response instead of file".to_string())),
        }
    );
}

#[test]
fn unknown_size_is_an_error() {
    for length in [None, Some(0)] {
        let mut download = begin("a.zip");
        assert_eq!(
            take(&mut download, response(None, length)),
            silent(Command::Return(Err("Unknown file size".to_string())))
        );
    }
}

#[test]
fn failure_is_returned_as_it_is() {
    let mut download = begin("a.zip");
    assert_eq!(
        take(&mut download, Event::Failed("refused".to_string())),
        silent(Command::Return(Err("refused".to_string())))
    );
}

#[test]
fn content_type_is_read_as_visible_text() {
    assert!(announces_text(&Some(b"text/plain".to_vec())));
    assert!(announces_text(&Some(b"application/text+x".to_vec())));
    assert!(announces_text(&Some(b"\ttext ".to_vec())));
    assert!(!announces_text(&Some(b"TEXT/PLAIN".to_vec())));
    assert!(!announces_text(&Some(b"application/zip".to_vec())));
    assert!(!announces_text(&Some(vec![])));
    assert!(!announces_text(&None));
    assert!(!announces_text(&Some(b"text/\xe9".to_vec())));
    assert!(!announces_text(&Some(b"text/\x7f".to_vec())));
    assert!(!announces_text(&Some(b"text\n".to_vec())));
}

#[test]
fn results_are_reported() {
    assert!(report_result(&"a".to_string(), Ok(())).is_empty());
    assert_eq!(
        report_result(&"a".to_string(), Err("refused".to_string())),
        vec![status("Failed to download a: refused"), finished("a")]
    );
}

#[test]
fn announcement_starts_at_nothing() {
    let rom = Rom {
        filename: "a".to_string(),
        url: "u".to_string(),
    };
    assert_eq!(
        start_download(&rom),
        AppUpdate::DownloadProgress(
            "a".to_string(),
            Progress::Running(Fraction { downloaded: 0, total: 1 })
        )
    );
}

#[test]
fn unexpected_events_are_told_apart() {
    let mut download = begin("a.zip");
    assert!(!download.is_expected(&Event::FileOpened));
    assert!(!download.is_expected(&Event::Unzipped(true)));
    take(&mut download, response(None, Some(10)));
    take(&mut download, Event::FileOpened);
    take(&mut download, Event::ChunkWritten(u64::MAX - 1));
    assert!(download.is_expected(&Event::ChunkWritten(1)));
    assert!(!download.is_expected(&Event::ChunkWritten(2)));
}

#[test]
fn window_follows_one_download() {
    let mut app = MyrientApp::default();
    let rom = Rom {
        filename: "a.bin".to_string(),
        url: "https://host/file".to_string(),
    };
    assert!(app.download_one(&rom).is_some());
    app.handle_update(start_download(&rom));
    let (mut download, first) = download_rom(rom);
    let mut outcomes = vec![first];
    for event in [
        response(None, Some(3)),
        Event::FileOpened,
        Event::ChunkWritten(3),
        Event::Failed("disk full".to_string()),
    ] {
        outcomes.push(take(&mut download, event));
    }
    let mut finishes = 0;
    for outcome in outcomes {
        let mut updates = outcome.updates;
        if let Command::Return(result) = outcome.command {
            updates.extend(report_result(&"a.bin".to_string(), result));
        }
        for update in updates {
            if update == finished("a.bin") {
                finishes += 1;
            }
            assert!(app.handle_update(update).is_none());
        }
    }
    assert_eq!(finishes, 1);
    assert_eq!(app.active_downloads, 0);
    assert!(app.download_progress.is_empty());
    assert!(!app.has_active_downloads);
    assert_eq!(app.status_message, "Failed to download a.bin: disk full");
}

#[test]
fn names_are_taken_apart() {
    assert_eq!(extension("a.zip"), Some("zip".to_string()));
    assert_eq!(stem("a.zip"), "a");
    assert_eq!(extension("a.b.zip"), Some("zip".to_string()));
    assert_eq!(stem("a.b.zip"), "a.b");
    assert_eq!(extension("a"), None);
    assert_eq!(stem("a"), "a");
    assert_eq!(extension(".zip"), None);
    assert_eq!(stem(".zip"), ".zip");
    assert_eq!(extension("a."), Some(String::new()));
    assert_eq!(stem("a."), "a");
    assert_eq!(extension(""), None);
    assert_eq!(extension("é.zip"), Some("zip".to_string()));
    assert_eq!(stem("é.zip"), "é");
}

#[test]
fn other_extensions_are_not_unpacked() {
    for name in ["a.ZIP", "zip", ".zip", "a.zip.bin"] {
        let mut download = begin(name);
        receive(&mut download);
        assert_eq!(take(&mut download, Event::StreamEnded), success(name));
    }
    let rom = Rom {
        filename: "a.zip".to_string(),
        url: "u".to_string(),
    };
    let (mut download, _) = begin_download(rom, None);
    receive(&mut download);
    assert_eq!(take(&mut download, Event::StreamEnded), success("a.zip"));
}

#[test]
fn destination_is_named_by_the_file() {
    for (filename, expected) in [
        ("My Game (USA).zip", Some("My Game (USA).zip")),
        ("..", None),
        ("sub/a.zip", Some("a.zip")),
    ] {
        let rom = Rom {
            filename: filename.to_string(),
            url: "u".to_string(),
        };
        let (download, _) = download_rom(rom);
        assert_eq!(download.dest_name.as_deref(), expected);
    }
}

#[test]
fn failed_download_says_so_in_its_report() {
    let mut download = begin("a.zip");
    receive(&mut download);
    let outcome = take(&mut download, Event::Failed("gone".to_string()));
    assert!(outcome.updates.is_empty());
    assert_eq!(
        report_result(&"a.zip".to_string(), Err("gone".to_string())).last(),
        Some(&finished("a.zip"))
    );
}
