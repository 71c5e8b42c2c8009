//! One download, from the request to the unpacked files.
//!
//! A worker carries out a [`Command`], hands what came of it to [`Download::step`] as
//! an [`Event`], and goes on with the command that it gets back.

use crate::data::{update_views, AppUpdate, AppUpdateView, Rom, RomView};
use crate::filename::{extension, extension_of, is_plain, path_file_name, stem, stem_of};
use crate::progress::{nothing_yet, Fraction, Progress};
use crate::text::{contains_text, enclose, str_contains};
use vstd::prelude::*;
use vstd::string::*;

verus! {

/// A byte that a header may hold where its value is read as text: a visible ASCII
/// character, a space or a tab.
pub open spec fn is_readable(byte: u8) -> bool {
    32 <= byte < 127 || byte == 9
}

/// A header value as text. A value with a byte that is not readable counts as empty,
/// as does a missing header.
pub open spec fn header_text(value: Option<Seq<u8>>) -> Seq<char> {
    match value {
        Some(bytes) if forall|i: int| 0 <= i < bytes.len() ==> is_readable(#[trigger] bytes[i]) =>
            Seq::new(bytes.len(), |i: int| bytes[i] as char),
        _ => Seq::empty(),
    }
}

/// Calls `reqwest::header::HeaderValue::to_str` on the header value that
/// `reqwest::header::HeaderValue::from_bytes` makes of the bytes. Taken on trust: the
/// bytes come back as text, each as the character of the same number, exactly when
/// every one of them is a visible ASCII character, a space or a tab.
#[verifier::external_body]
fn header_value_to_str(bytes: &Vec<u8>) -> (text: Option<String>)
    ensures
        text is Some <==> forall|i: int|
            0 <= i < bytes@.len() ==> is_readable(#[trigger] bytes@[i]),
        text matches Some(text) ==> text@ == Seq::new(bytes@.len(), |i: int| bytes@[i] as char),
{
    match reqwest::header::HeaderValue::from_bytes(bytes) {
        Ok(value) => match value.to_str() {
            Ok(text) => Some(text.to_string()),
            Err(_) => None,
        },
        Err(_) => None,
    }
}

/// Whether the content type announces text.
pub fn announces_text(content_type: &Option<Vec<u8>>) -> (text: bool)
    ensures
        text == contains_text(header_text(opt_view(*content_type)), "text"@),
{
    let value = match content_type {
        Some(bytes) => match header_value_to_str(bytes) {
            Some(text) => text,
            None => String::new(),
        },
        None => String::new(),
    };
    assert(value@ =~= header_text(opt_view(*content_type)));
    str_contains(value.as_str(), "text")
}

/// The bytes of a header that may be missing.
pub open spec fn opt_view(value: Option<Vec<u8>>) -> Option<Seq<u8>> {
    match value {
        Some(bytes) => Some(bytes@),
        None => None,
    }
}

/// Where a download stands.
#[derive(Clone, Copy, Debug, PartialEq, Eq, Structural)]
pub enum Stage {
    /// The server has been asked for the file.
    Requested,
    /// The server answered with text, which is being read.
    ReadingText,
    /// The directory and the file on disk are being made, for `total` bytes.
    OpeningFile { total: u64 },
    /// The content comes in: `downloaded` bytes out of `total` are on disk.
    Receiving { downloaded: u64, total: u64 },
    /// The archive is being unpacked.
    Unpacking,
    /// The archive is being deleted.
    RemovingArchive,
    /// The folder of unpacked files is being looked for.
    LookingForFolder,
    /// The folder of unpacked files is being opened.
    OpeningFolder,
    /// The next file of the folder is being looked up.
    ListingFolder,
    /// A file is being copied out of the folder.
    CopyingEntry,
    /// The folder is being deleted.
    RemovingFolder,
    /// The download is over.
    Over,
}

/// What came of a command.
#[derive(Debug, PartialEq, Eq)]
pub enum Event {
    /// The server answered, with these headers.
    Response { content_type: Option<Vec<u8>>, content_length: Option<u64> },
    /// The text of the answer has been read.
    Text(String),
    /// The file on disk is open.
    FileOpened,
    /// So many bytes more have been written.
    ChunkWritten(u64),
    /// The content has come to its end.
    StreamEnded,
    /// The unpacking program ended, and said whether it succeeded.
    Unzipped(bool),
    /// The archive is gone.
    ArchiveRemoved,
    /// Whether the folder of unpacked files exists.
    FolderExists(bool),
    /// The folder is open.
    FolderOpened,
    /// The folder holds a file of this name.
    Entry(String),
    /// The folder holds no more files.
    EntriesEnded,
    /// The file has been copied.
    EntryCopied,
    /// The folder is gone.
    FolderRemoved,
    /// The command failed, for this reason.
    Failed(String),
}

/// What the worker is to do next.
#[derive(Debug, PartialEq, Eq)]
pub enum Command {
    /// Ask for the file at this address.
    Fetch(String),
    /// Read the answer as text.
    ReadText,
    /// Make the download directory, and the file of this name in it.
    OpenFile(String),
    /// Wait for more content, and write it to the file.
    NextChunk,
    /// Unpack the file `archive` of the download directory into the folder `folder` beside
    /// it.
    Unzip { archive: String, folder: String },
    /// Delete this file of the download directory.
    RemoveArchive(String),
    /// Look in the download directory for the folder of this name.
    LookForFolder(String),
    /// Open the folder of this name in the download directory.
    OpenFolder(String),
    /// Look up the next file of the folder.
    NextEntry,
    /// Copy this file of the folder to the download directory.
    CopyEntry(String),
    /// Delete the folder of this name beside the downloaded file, with all it holds.
    RemoveFolder(String),
    /// Return: the download has succeeded, or failed for this reason.
    Return(Result<(), String>),
}

/// What follows an event: messages to the window, a text for the console, and the
/// next command.
#[derive(Debug, PartialEq, Eq)]
pub struct Outcome {
    pub updates: Vec<AppUpdate>,
    pub console: Option<String>,
    pub command: Command,
}

/// A download under way.
#[derive(Debug, PartialEq, Eq)]
pub struct Download {
    pub rom: Rom,
    /// The last component of the path of the file on disk, where it has one.
    pub dest_name: Option<String>,
    pub stage: Stage,
}

/// An [`Event`] in contracts.
pub enum EventView {
    Response { content_type: Option<Seq<u8>>, content_length: Option<u64> },
    Text(Seq<char>),
    FileOpened,
    ChunkWritten(u64),
    StreamEnded,
    Unzipped(bool),
    ArchiveRemoved,
    FolderExists(bool),
    FolderOpened,
    Entry(Seq<char>),
    EntriesEnded,
    EntryCopied,
    FolderRemoved,
    Failed(Seq<char>),
}

impl View for Event {
    type V = EventView;

    open spec fn view(&self) -> EventView {
        match self {
            Event::Response { content_type, content_length } => EventView::Response {
                content_type: opt_view(*content_type),
                content_length: *content_length,
            },
            Event::Text(text) => EventView::Text(text@),
            Event::FileOpened => EventView::FileOpened,
            Event::ChunkWritten(len) => EventView::ChunkWritten(*len),
            Event::StreamEnded => EventView::StreamEnded,
            Event::Unzipped(success) => EventView::Unzipped(*success),
            Event::ArchiveRemoved => EventView::ArchiveRemoved,
            Event::FolderExists(exists_there) => EventView::FolderExists(*exists_there),
            Event::FolderOpened => EventView::FolderOpened,
            Event::Entry(name) => EventView::Entry(name@),
            Event::EntriesEnded => EventView::EntriesEnded,
            Event::EntryCopied => EventView::EntryCopied,
            Event::FolderRemoved => EventView::FolderRemoved,
            Event::Failed(reason) => EventView::Failed(reason@),
        }
    }
}

/// A [`Command`] in contracts.
pub enum CommandView {
    Fetch(Seq<char>),
    ReadText,
    OpenFile(Seq<char>),
    NextChunk,
    Unzip { archive: Seq<char>, folder: Seq<char> },
    RemoveArchive(Seq<char>),
    LookForFolder(Seq<char>),
    OpenFolder(Seq<char>),
    NextEntry,
    CopyEntry(Seq<char>),
    RemoveFolder(Seq<char>),
    Return(Result<(), Seq<char>>),
}

/// A result whose reason for failure is a text, in contracts.
pub open spec fn result_view(result: Result<(), String>) -> Result<(), Seq<char>> {
    match result {
        Ok(_) => Ok(()),
        Err(reason) => Err(reason@),
    }
}

impl View for Command {
    type V = CommandView;

    open spec fn view(&self) -> CommandView {
        match self {
            Command::Fetch(url) => CommandView::Fetch(url@),
            Command::ReadText => CommandView::ReadText,
            Command::OpenFile(name) => CommandView::OpenFile(name@),
            Command::NextChunk => CommandView::NextChunk,
            Command::Unzip { archive, folder } => CommandView::Unzip {
                archive: archive@,
                folder: folder@,
            },
            Command::RemoveArchive(name) => CommandView::RemoveArchive(name@),
            Command::LookForFolder(name) => CommandView::LookForFolder(name@),
            Command::OpenFolder(name) => CommandView::OpenFolder(name@),
            Command::NextEntry => CommandView::NextEntry,
            Command::CopyEntry(name) => CommandView::CopyEntry(name@),
            Command::RemoveFolder(name) => CommandView::RemoveFolder(name@),
            Command::Return(result) => CommandView::Return(result_view(*result)),
        }
    }
}

/// An [`Outcome`] in contracts.
#[verifier::ext_equal]
pub struct OutcomeView {
    pub updates: Seq<AppUpdateView>,
    pub console: Option<Seq<char>>,
    pub command: CommandView,
}

/// A text that may be missing, in contracts.
pub open spec fn opt_text(text: Option<String>) -> Option<Seq<char>> {
    match text {
        Some(text) => Some(text@),
        None => None,
    }
}

impl View for Outcome {
    type V = OutcomeView;

    open spec fn view(&self) -> OutcomeView {
        OutcomeView {
            updates: update_views(self.updates@),
            console: opt_text(self.console),
            command: self.command@,
        }
    }
}

/// A [`Download`] in contracts.
pub struct DownloadView {
    pub rom: RomView,
    pub dest_name: Option<Seq<char>>,
    pub stage: Stage,
}

impl View for Download {
    type V = DownloadView;

    open spec fn view(&self) -> DownloadView {
        DownloadView { rom: self.rom@, dest_name: opt_text(self.dest_name), stage: self.stage }
    }
}

/// A status message in contracts.
pub open spec fn status(text: Seq<char>) -> AppUpdateView {
    AppUpdateView::SetStatus(text)
}

/// The message with which the download of `filename` begins.
pub open spec fn starting(filename: Seq<char>) -> AppUpdateView {
    status("Starting download of "@ + filename)
}

/// The message that the download of `filename` is over.
pub open spec fn finished(filename: Seq<char>) -> AppUpdateView {
    AppUpdateView::DownloadProgress(filename, Progress::Finished)
}

/// Just a command.
pub open spec fn only(command: CommandView) -> OutcomeView {
    OutcomeView { updates: Seq::empty(), console: None, command }
}

/// A command after one message.
pub open spec fn tell(update: AppUpdateView, command: CommandView) -> OutcomeView {
    OutcomeView { updates: seq![update], console: None, command }
}

impl DownloadView {
    /// Whether the file on disk is an archive that is to be unpacked.
    pub open spec fn is_archive(self) -> bool {
        self.dest_name matches Some(name) && extension_of(name) == Some("zip"@)
    }

    /// The name of the folder that an archive is unpacked into.
    pub open spec fn folder(self) -> Seq<char>
        recommends
            self.is_archive(),
    {
        stem_of(self.dest_name->0)
    }

    /// Whether the content is on disk and is being unpacked.
    pub open spec fn is_unpacking(self) -> bool {
        match self.stage {
            Stage::Unpacking
            | Stage::RemovingArchive
            | Stage::LookingForFolder
            | Stage::OpeningFolder
            | Stage::ListingFolder
            | Stage::CopyingEntry
            | Stage::RemovingFolder => true,
            _ => false,
        }
    }

    /// Only an archive is unpacked.
    pub open spec fn valid(self) -> bool {
        self.is_unpacking() ==> self.is_archive()
    }

    /// Whether the event can follow what the worker is doing. The bytes that have come
    /// in are counted in 64 bits.
    pub open spec fn expects(self, event: EventView) -> bool {
        match (self.stage, event) {
            (Stage::Over, _) => false,
            (_, EventView::Failed(_)) => true,
            (Stage::Requested, EventView::Response { .. }) => true,
            (Stage::ReadingText, EventView::Text(_)) => true,
            (Stage::OpeningFile { .. }, EventView::FileOpened) => true,
            (Stage::Receiving { downloaded, .. }, EventView::ChunkWritten(len)) => downloaded + len
                <= u64::MAX,
            (Stage::Receiving { .. }, EventView::StreamEnded) => true,
            (Stage::Unpacking, EventView::Unzipped(_)) => true,
            (Stage::RemovingArchive, EventView::ArchiveRemoved) => true,
            (Stage::LookingForFolder, EventView::FolderExists(_)) => true,
            (Stage::OpeningFolder, EventView::FolderOpened) => true,
            (Stage::ListingFolder, EventView::Entry(_)) => true,
            (Stage::ListingFolder, EventView::EntriesEnded) => true,
            (Stage::CopyingEntry, EventView::EntryCopied) => true,
            (Stage::RemovingFolder, EventView::FolderRemoved) => true,
            _ => false,
        }
    }

    /// What follows when all is done.
    pub open spec fn success(self) -> OutcomeView {
        OutcomeView {
            updates: seq![
                finished(self.rom.filename),
                status("Successfully downloaded and processed "@ + self.rom.filename),
            ],
            console: None,
            command: CommandView::Return(Ok(())),
        }
    }

    /// What follows an event that is expected.
    pub open spec fn outcome(self, event: EventView) -> OutcomeView {
        let filename = self.rom.filename;
        match event {
            EventView::Failed(reason) => only(CommandView::Return(Err(reason))),
            EventView::Response { content_type, content_length } => if contains_text(
                header_text(content_type),
                "text"@,
            ) {
                only(CommandView::ReadText)
            } else if content_length is None || content_length == Some(0u64) {
                only(CommandView::Return(Err("Unknown file size"@)))
            } else {
                only(CommandView::OpenFile(filename))
            },
            EventView::Text(text) => OutcomeView {
                updates: seq![
                    status(
                        "Error: Received text response for "@ + filename + ", check console"@,
                    ),
                ],
                console: Some(text),
                command: CommandView::Return(Err("Received text response instead of file"@)),
            },
            EventView::FileOpened => only(CommandView::NextChunk),
            EventView::ChunkWritten(len) => match self.stage {
                Stage::Receiving { downloaded, total } => tell(
                    AppUpdateView::DownloadProgress(
                        filename,
                        Progress::Running(
                            Fraction { downloaded: (downloaded + len) as u64, total },
                        ),
                    ),
                    CommandView::NextChunk,
                ),
                _ => only(CommandView::NextChunk),
            },
            EventView::StreamEnded => if self.is_archive() {
                tell(
                    status("Extracting "@ + filename),
                    CommandView::Unzip { archive: filename, folder: self.folder() },
                )
            } else {
                self.success()
            },
            EventView::Unzipped(success) => if success {
                only(CommandView::RemoveArchive(filename))
            } else {
                tell(
                    status("Failed to extract "@ + filename),
                    CommandView::Return(Err("Failed to unzip file"@)),
                )
            },
            EventView::ArchiveRemoved => only(CommandView::LookForFolder(self.folder())),
            EventView::FolderExists(there) => if there {
                only(CommandView::OpenFolder(self.folder()))
            } else {
                self.success()
            },
            EventView::FolderOpened => only(CommandView::NextEntry),
            EventView::Entry(name) => tell(
                status("Moving extracted file: "@ + name),
                CommandView::CopyEntry(name),
            ),
            EventView::EntriesEnded => only(CommandView::RemoveFolder(self.folder())),
            EventView::EntryCopied => only(CommandView::NextEntry),
            EventView::FolderRemoved => self.success(),
        }
    }

    /// The stage in which the worker carries out a command that follows an event.
    pub open spec fn stage_after(self, event: EventView) -> Stage {
        match self.outcome(event).command {
            CommandView::Fetch(_) => Stage::Requested,
            CommandView::ReadText => Stage::ReadingText,
            CommandView::OpenFile(_) => match event {
                EventView::Response { content_length: Some(total), .. } => Stage::OpeningFile {
                    total,
                },
                _ => self.stage,
            },
            CommandView::NextChunk => match (self.stage, event) {
                (Stage::OpeningFile { total }, _) => Stage::Receiving { downloaded: 0, total },
                (Stage::Receiving { downloaded, total }, EventView::ChunkWritten(len)) =>
                    Stage::Receiving { downloaded: (downloaded + len) as u64, total },
                _ => self.stage,
            },
            CommandView::Unzip { .. } => Stage::Unpacking,
            CommandView::RemoveArchive(_) => Stage::RemovingArchive,
            CommandView::LookForFolder(_) => Stage::LookingForFolder,
            CommandView::OpenFolder(_) => Stage::OpeningFolder,
            CommandView::NextEntry => Stage::ListingFolder,
            CommandView::CopyEntry(_) => Stage::CopyingEntry,
            CommandView::RemoveFolder(_) => Stage::RemovingFolder,
            CommandView::Return(_) => Stage::Over,
        }
    }

    /// The download after an event.
    pub open spec fn after(self, event: EventView) -> DownloadView {
        DownloadView { stage: self.stage_after(event), ..self }
    }
}

/// Begins the download of `rom`. It is written under its name in the download directory,
/// so that the last component of its path is the last component of its name.
pub fn download_rom(rom: Rom) -> (begun: (Download, Outcome))
    ensures
        begun.0@.rom == rom@,
        begun.0@.stage == Stage::Requested,
        is_plain(rom@.filename) ==> begun.0@.dest_name == Some(rom@.filename),
        begun.0@.valid(),
        begun.1@ == tell(starting(rom@.filename), CommandView::Fetch(rom@.url)),
{
    let dest_name = path_file_name(rom.filename.as_str());
    begin_download(rom, dest_name)
}

/// Begins the download of `rom` to a path whose last component, where it has one, is
/// `dest_name`.
pub fn begin_download(rom: Rom, dest_name: Option<String>) -> (begun: (Download, Outcome))
    ensures
        begun.0@ == (DownloadView {
            rom: rom@,
            dest_name: opt_text(dest_name),
            stage: Stage::Requested,
        }),
        begun.0@.valid(),
        begun.1@ == tell(starting(rom@.filename), CommandView::Fetch(rom@.url)),
{
    let outcome = Outcome {
        updates: vec![AppUpdate::SetStatus(
            prefixed("Starting download of ", rom.filename.as_str()),
        )],
        console: None,
        command: Command::Fetch(rom.url.clone()),
    };
    proof {
        assert(update_views(outcome.updates@) =~= seq![starting(rom@.filename)]);
    }
    (Download { rom, dest_name, stage: Stage::Requested }, outcome)
}

/// The message that announces the download of `filename`.
pub open spec fn announcement(filename: Seq<char>) -> AppUpdateView {
    AppUpdateView::DownloadProgress(filename, Progress::Running(nothing_yet()))
}

/// The message that announces a download before its worker starts.
pub fn start_download(rom: &Rom) -> (update: AppUpdate)
    ensures
        update@ == announcement(rom@.filename),
{
    AppUpdate::DownloadProgress(
        rom.filename.clone(),
        Progress::Running(Fraction { downloaded: 0, total: 1 }),
    )
}

/// What a worker tells the window about the result that its download returned.
pub open spec fn report_of(filename: Seq<char>, result: Result<(), Seq<char>>) -> Seq<
    AppUpdateView,
> {
    match result {
        Ok(_) => Seq::empty(),
        Err(reason) => seq![
            status("Failed to download "@ + filename + ": "@ + reason),
            finished(filename),
        ],
    }
}

/// Reports the result that a download returned.
pub fn report_result(filename: &String, result: Result<(), String>) -> (updates: Vec<AppUpdate>)
    ensures
        update_views(updates@) == report_of(filename@, result_view(result)),
{
    match result {
        Ok(_) => {
            let updates: Vec<AppUpdate> = Vec::new();
            assert(update_views(updates@) =~= Seq::empty());
            updates
        },
        Err(reason) => {
            let updates = vec![
                AppUpdate::SetStatus(
                    enclose("Failed to download ", filename.as_str(), ": ").concat(
                        reason.as_str(),
                    ),
                ),
                AppUpdate::DownloadProgress(filename.clone(), Progress::Finished),
            ];
            assert(update_views(updates@) =~= report_of(filename@, Err(reason@)));
            updates
        },
    }
}

/// A text after another.
fn prefixed(prefix: &str, text: &str) -> (whole: String)
    ensures
        whole@ == prefix@ + text@,
{
    prefix.to_owned().concat(text)
}

/// Just a command.
fn command_only(command: Command) -> (outcome: Outcome)
    ensures
        outcome@ == only(command@),
{
    let outcome = Outcome { updates: Vec::new(), console: None, command };
    assert(outcome@ =~= only(command@));
    outcome
}

/// A command after one message.
fn message_and_command(update: AppUpdate, command: Command) -> (outcome: Outcome)
    ensures
        outcome@ == tell(update@, command@),
{
    let outcome = Outcome { updates: vec![update], console: None, command };
    assert(outcome@ =~= tell(update@, command@));
    outcome
}

impl Download {
    /// Whether the file on disk is an archive that is to be unpacked.
    fn is_archive(&self) -> (archive: bool)
        ensures
            archive == self@.is_archive(),
    {
        match &self.dest_name {
            Some(name) => match extension(name.as_str()) {
                Some(text) => text == "zip".to_owned(),
                None => false,
            },
            None => false,
        }
    }

    /// The name of the folder that the archive is unpacked into.
    fn folder(&self) -> (name: String)
        requires
            self@.is_archive(),
        ensures
            name@ == self@.folder(),
    {
        match &self.dest_name {
            Some(name) => stem(name.as_str()),
            None => String::new(),
        }
    }

    /// Whether [`Download::step`] can take the event.
    pub fn is_expected(&self, event: &Event) -> (expected: bool)
        ensures
            expected == (self@.valid() && self@.expects(event@)),
    {
        let valid = match self.stage {
            Stage::Unpacking
            | Stage::RemovingArchive
            | Stage::LookingForFolder
            | Stage::OpeningFolder
            | Stage::ListingFolder
            | Stage::CopyingEntry
            | Stage::RemovingFolder => self.is_archive(),
            _ => true,
        };
        valid && match (self.stage, event) {
            (Stage::Over, _) => false,
            (_, Event::Failed(_)) => true,
            (Stage::Requested, Event::Response { .. }) => true,
            (Stage::ReadingText, Event::Text(_)) => true,
            (Stage::OpeningFile { .. }, Event::FileOpened) => true,
            (Stage::Receiving { downloaded, .. }, Event::ChunkWritten(len)) => *len <= u64::MAX
                - downloaded,
            (Stage::Receiving { .. }, Event::StreamEnded) => true,
            (Stage::Unpacking, Event::Unzipped(_)) => true,
            (Stage::RemovingArchive, Event::ArchiveRemoved) => true,
            (Stage::LookingForFolder, Event::FolderExists(_)) => true,
            (Stage::OpeningFolder, Event::FolderOpened) => true,
            (Stage::ListingFolder, Event::Entry(_)) => true,
            (Stage::ListingFolder, Event::EntriesEnded) => true,
            (Stage::CopyingEntry, Event::EntryCopied) => true,
            (Stage::RemovingFolder, Event::FolderRemoved) => true,
            _ => false,
        }
    }

    /// What follows when all is done.
    fn success(&self) -> (outcome: Outcome)
        ensures
            outcome@ == self@.success(),
    {
        let outcome = Outcome {
            updates: vec![
                AppUpdate::DownloadProgress(self.rom.filename.clone(), Progress::Finished),
                AppUpdate::SetStatus(
                    prefixed(
                        "Successfully downloaded and processed ",
                        self.rom.filename.as_str(),
                    ),
                ),
            ],
            console: None,
            command: Command::Return(Ok(())),
        };
        assert(outcome@ =~= self@.success());
        outcome
    }

    /// What follows the answer of the server.
    fn on_response(
        &mut self,
        content_type: Option<Vec<u8>>,
        content_length: Option<u64>,
    ) -> (outcome: Outcome)
        ensures
            ({
                let event = EventView::Response {
                    content_type: opt_view(content_type),
                    content_length,
                };
                outcome@ == old(self)@.outcome(event) && final(self)@ == old(self)@.after(event)
            }),
    {
        if announces_text(&content_type) {
            self.stage = Stage::ReadingText;
            return command_only(Command::ReadText);
        }
        let total: u64 = match content_length {
            Some(len) => len,
            None => 0,
        };
        if total == 0 {
            self.stage = Stage::Over;
            return command_only(Command::Return(Err("Unknown file size".to_owned())));
        }
        self.stage = Stage::OpeningFile { total };
        command_only(Command::OpenFile(self.rom.filename.clone()))
    }

    /// What follows an event. The worker goes on with the command of the outcome, and
    /// it is done once that is to return.
    pub fn step(&mut self, event: Event) -> (outcome: Outcome)
        requires
            old(self)@.valid(),
            old(self)@.expects(event@),
        ensures
            outcome@ == old(self)@.outcome(event@),
            final(self)@ == old(self)@.after(event@),
            final(self)@.valid(),
            event matches Event::Entry(name) ==> (outcome.command matches Command::CopyEntry(
                copied,
            ) && copied@ == name@),
    {
        match event {
            Event::Failed(reason) => {
                self.stage = Stage::Over;
                command_only(Command::Return(Err(reason)))
            },
            Event::Response { content_type, content_length } => self.on_response(
                content_type,
                content_length,
            ),
            Event::Text(text) => {
                self.stage = Stage::Over;
                let outcome = Outcome {
                    updates: vec![AppUpdate::SetStatus(
                        enclose(
                            "Error: Received text response for ",
                            self.rom.filename.as_str(),
                            ", check console",
                        ),
                    )],
                    console: Some(text),
                    command: Command::Return(
                        Err("Received text response instead of file".to_owned()),
                    ),
                };
                assert(outcome@ =~= old(self)@.outcome(event@));
                outcome
            },
            Event::FileOpened => {
                if let Stage::OpeningFile { total } = self.stage {
                    self.stage = Stage::Receiving { downloaded: 0, total };
                }
                command_only(Command::NextChunk)
            },
            Event::ChunkWritten(len) => {
                if let Stage::Receiving { downloaded, total } = self.stage {
                    let so_far: u64 = downloaded + len;
                    self.stage = Stage::Receiving { downloaded: so_far, total };
                    message_and_command(
                        AppUpdate::DownloadProgress(
                            self.rom.filename.clone(),
                            Progress::Running(Fraction { downloaded: so_far, total }),
                        ),
                        Command::NextChunk,
                    )
                } else {
                    command_only(Command::NextChunk)
                }
            },
            Event::StreamEnded => {
                if self.is_archive() {
                    self.stage = Stage::Unpacking;
                    message_and_command(
                        AppUpdate::SetStatus(
                            prefixed("Extracting ", self.rom.filename.as_str()),
                        ),
                        Command::Unzip {
                            archive: self.rom.filename.clone(),
                            folder: self.folder(),
                        },
                    )
                } else {
                    self.stage = Stage::Over;
                    self.success()
                }
            },
            Event::Unzipped(success) => {
                if success {
                    self.stage = Stage::RemovingArchive;
                    command_only(Command::RemoveArchive(self.rom.filename.clone()))
                } else {
                    self.stage = Stage::Over;
                    message_and_command(
                        AppUpdate::SetStatus(
                            prefixed("Failed to extract ", self.rom.filename.as_str()),
                        ),
                        Command::Return(Err("Failed to unzip file".to_owned())),
                    )
                }
            },
            Event::ArchiveRemoved => {
                self.stage = Stage::LookingForFolder;
                command_only(Command::LookForFolder(self.folder()))
            },
            Event::FolderExists(there) => {
                if there {
                    self.stage = Stage::OpeningFolder;
                    command_only(Command::OpenFolder(self.folder()))
                } else {
                    self.stage = Stage::Over;
                    self.success()
                }
            },
            Event::FolderOpened => {
                self.stage = Stage::ListingFolder;
                command_only(Command::NextEntry)
            },
            Event::Entry(name) => {
                self.stage = Stage::CopyingEntry;
                message_and_command(
                    AppUpdate::SetStatus(prefixed("Moving extracted file: ", name.as_str())),
                    Command::CopyEntry(name),
                )
            },
            Event::EntriesEnded => {
                self.stage = Stage::RemovingFolder;
                command_only(Command::RemoveFolder(self.folder()))
            },
            Event::EntryCopied => {
                self.stage = Stage::ListingFolder;
                command_only(Command::NextEntry)
            },
            Event::FolderRemoved => {
                self.stage = Stage::Over;
                self.success()
            },
        }
    }
}

} // verus!
