//! What a download does on each event, in terms of what came in and what goes out.

use crate::data::AppUpdateView;
use crate::download::{
    announcement, header_text, report_of, starting, CommandView, DownloadView, EventView, Stage,
};
use crate::filename::{extension_of, last_dot, lemma_last_dot, stem_of};
use crate::progress::{Fraction, Progress};
use crate::text::contains_text;
use vstd::prelude::*;

verus! {

/// What can come of a command: an answer to it, or its failure.
pub open spec fn answers(command: CommandView, event: EventView) -> bool {
    match (command, event) {
        (CommandView::Return(_), _) => false,
        (_, EventView::Failed(_)) => true,
        (CommandView::Fetch(_), EventView::Response { .. }) => true,
        (CommandView::ReadText, EventView::Text(_)) => true,
        (CommandView::OpenFile(_), EventView::FileOpened) => true,
        (CommandView::NextChunk, EventView::ChunkWritten(_)) => true,
        (CommandView::NextChunk, EventView::StreamEnded) => true,
        (CommandView::Unzip { .. }, EventView::Unzipped(_)) => true,
        (CommandView::RemoveArchive(_), EventView::ArchiveRemoved) => true,
        (CommandView::LookForFolder(_), EventView::FolderExists(_)) => true,
        (CommandView::OpenFolder(_), EventView::FolderOpened) => true,
        (CommandView::NextEntry, EventView::Entry(_)) => true,
        (CommandView::NextEntry, EventView::EntriesEnded) => true,
        (CommandView::CopyEntry(_), EventView::EntryCopied) => true,
        (CommandView::RemoveFolder(_), EventView::FolderRemoved) => true,
        _ => false,
    }
}

/// The events that a download takes next are exactly what can come of the command that
/// it has just given, as long as the bytes that have come in can be counted.
pub proof fn law_answers_are_expected(download: DownloadView, event: EventView, next: EventView)
    requires
        download.expects(event),
    ensures
        download.after(event).expects(next) <==> answers(download.outcome(event).command, next) && (
        next matches EventView::ChunkWritten(len) ==> (download.after(
            event,
        ).stage matches Stage::Receiving { downloaded, .. } && downloaded + len <= u64::MAX)),
{
}

/// A download that has begun takes the answer of the server, or the failure to get one.
pub proof fn law_answer_of_server_is_expected(download: DownloadView, next: EventView)
    requires
        download.stage is Requested,
    ensures
        download.expects(next) <==> answers(CommandView::Fetch(download.rom.url), next),
{
}

/// The content type names text: the header is there, each of its bytes is a space, a tab
/// or a visible ASCII character, and the four letters stand in it one after the other.
pub open spec fn says_text(content_type: Option<Seq<u8>>) -> bool {
    content_type matches Some(bytes) && {
        &&& forall|i: int|
            0 <= i < bytes.len() ==> (32 <= #[trigger] bytes[i] <= 126 || bytes[i] == 9)
        &&& exists|at: int|
            0 <= at <= bytes.len() - 4 && #[trigger] bytes.subrange(at, at + 4) == seq![
                116u8,
                101u8,
                120u8,
                116u8,
            ]
    }
}

/// Text is recognised by the bytes of the header.
pub proof fn law_text_is_recognised(content_type: Option<Seq<u8>>)
    ensures
        contains_text(header_text(content_type), "text"@) <==> says_text(content_type),
{
    reveal_strlit("text");
    let word = "text"@;
    let letters = seq![116u8, 101u8, 120u8, 116u8];
    let text = header_text(content_type);
    if contains_text(text, word) {
        let bytes = content_type->0;
        let at = choose|start: int|
            0 <= start <= text.len() - word.len() && #[trigger] text.subrange(
                start,
                start + word.len(),
            ) == word;
        let found = text.subrange(at, at + 4);
        assert forall|k: int| 0 <= k < 4 implies #[trigger] bytes.subrange(at, at + 4)[k]
            == letters[k] by {
            assert(found[k] == word[k]);
            assert(text[at + k] == bytes[at + k] as char);
        }
        assert(bytes.subrange(at, at + 4) =~= letters);
    }
    if says_text(content_type) {
        let bytes = content_type->0;
        let at = choose|at: int|
            0 <= at <= bytes.len() - 4 && #[trigger] bytes.subrange(at, at + 4) == letters;
        let found = bytes.subrange(at, at + 4);
        assert(forall|i: int|
            0 <= i < bytes.len() ==> crate::download::is_readable(#[trigger] bytes[i]));
        assert forall|k: int| 0 <= k < 4 implies #[trigger] text.subrange(at, at + 4)[k]
            == word[k] by {
            assert(found[k] == letters[k]);
            assert(text[at + k] == bytes[at + k] as char);
        }
        assert(text.subrange(at, at + 4) =~= word);
    }
}

/// A text answer is read; an answer that is no text is written to a file of the ROM's
/// name if it says how long it is, and refused if it does not. Nobody is told anything.
pub proof fn law_response(
    download: DownloadView,
    content_type: Option<Seq<u8>>,
    content_length: Option<u64>,
)
    requires
        download.stage is Requested,
    ensures
        ({
            let event = EventView::Response { content_type, content_length };
            let outcome = download.outcome(event);
            let then = download.after(event);
            let sized = content_length matches Some(total) && total > 0;
            &&& outcome.updates.len() == 0 && outcome.console is None
            &&& says_text(content_type) <==> outcome.command == CommandView::ReadText
            &&& !says_text(content_type) && sized <==> outcome.command == CommandView::OpenFile(
                download.rom.filename,
            )
            &&& !says_text(content_type) && !sized <==> outcome.command == CommandView::Return(
                Err("Unknown file size"@),
            )
            &&& !says_text(content_type) && sized ==> then.stage == Stage::OpeningFile {
                total: content_length->0,
            }
        }),
{
    law_text_is_recognised(content_type);
}

/// The text of an answer goes to the console, the user is pointed to it, and the
/// download fails.
pub proof fn law_text_answer(download: DownloadView, text: Seq<char>)
    requires
        download.stage is ReadingText,
    ensures
        ({
            let outcome = download.outcome(EventView::Text(text));
            &&& outcome.console == Some(text)
            &&& outcome.updates.len() == 1
            &&& outcome.updates[0] == AppUpdateView::SetStatus(
                "Error: Received text response for "@ + download.rom.filename + ", check console"@,
            )
            &&& outcome.command == CommandView::Return(
                Err("Received text response instead of file"@),
            )
        }),
{
}

/// Content is asked for from the moment the file is open, and counted from nothing.
pub proof fn law_file_opened(download: DownloadView, total: u64)
    requires
        download.stage == (Stage::OpeningFile { total }),
    ensures
        ({
            let outcome = download.outcome(EventView::FileOpened);
            &&& outcome.updates.len() == 0 && outcome.console is None
            &&& outcome.command == CommandView::NextChunk
            &&& download.after(EventView::FileOpened).stage == Stage::Receiving {
                downloaded: 0,
                total,
            }
        }),
{
}

/// Each piece of content moves the count on by its length; the new share is reported
/// under the name of the file, and more content is asked for.
pub proof fn law_chunk(download: DownloadView, downloaded: u64, total: u64, len: u64)
    requires
        download.stage == (Stage::Receiving { downloaded, total }),
        downloaded + len <= u64::MAX,
    ensures
        ({
            let event = EventView::ChunkWritten(len);
            let outcome = download.outcome(event);
            &&& outcome.console is None
            &&& outcome.command == CommandView::NextChunk
            &&& outcome.updates.len() == 1
            &&& outcome.updates[0] matches AppUpdateView::DownloadProgress(
                name,
                Progress::Running(fraction),
            ) && name == download.rom.filename && fraction.downloaded == downloaded + len
                && fraction.total == total
            &&& download.after(event).stage matches Stage::Receiving {
                downloaded: so_far,
                total: size,
            } && so_far == downloaded + len && size == total
        }),
{
}

/// The file on disk ends in ".zip", and something stands before that.
pub open spec fn ends_in_zip(name: Seq<char>) -> bool {
    name.len() > 4 && name.skip(name.len() - 4) == ".zip"@
}

/// A name has the extension of an archive exactly when it ends in ".zip" after at least
/// one other character, and its stem is what stands before.
pub proof fn law_zip_names(name: Seq<char>)
    ensures
        extension_of(name) == Some("zip"@) <==> ends_in_zip(name),
        ends_in_zip(name) ==> stem_of(name) + ".zip"@ == name,
{
    reveal_strlit("zip");
    reveal_strlit(".zip");
    lemma_last_dot(name);
    if extension_of(name) == Some("zip"@) {
        let dot = last_dot(name);
        assert(name.skip(dot + 1).len() == 3);
        assert(name.skip(name.len() - 4) =~= ".zip"@) by {
            let tail = name.skip(dot + 1);
            assert(tail[0] == name[dot + 1] && tail[1] == name[dot + 2]);
            assert(tail[2] == name[dot + 3]);
        }
    }
    if ends_in_zip(name) {
        let start = name.len() - 4;
        let tail = name.skip(start);
        assert(tail[0] == name[start] && tail[1] == name[start + 1]);
        assert(tail[2] == name[start + 2] && tail[3] == name[start + 3]);
        assert(last_dot(name) == start);
        assert(name.skip(start + 1) =~= "zip"@);
        assert(name.take(start) + ".zip"@ =~= name);
    }
}

/// A file is an archive exactly when its name ends in ".zip" after at least one other
/// character, and the folder is named by what stands before.
pub proof fn law_archive_is_zip(download: DownloadView)
    ensures
        download.is_archive() <==> download.dest_name is Some && ends_in_zip(
            download.dest_name->0,
        ),
        download.is_archive() ==> download.folder() + ".zip"@ == download.dest_name->0,
{
    if download.dest_name is Some {
        law_zip_names(download.dest_name->0);
    }
}

/// The outcome with which a download succeeds: its end is reported, then the user is
/// told, and it returns.
pub open spec fn is_success(download: DownloadView, event: EventView) -> bool {
    let outcome = download.outcome(event);
    &&& outcome.console is None
    &&& outcome.command == CommandView::Return(Ok(()))
    &&& outcome.updates.len() == 2
    &&& outcome.updates[0] == AppUpdateView::DownloadProgress(
        download.rom.filename,
        Progress::Finished,
    )
    &&& outcome.updates[1] == AppUpdateView::SetStatus(
        "Successfully downloaded and processed "@ + download.rom.filename,
    )
}

/// When the content has come to its end, an archive is unpacked into the folder that is
/// named like it, and any other file is done.
pub proof fn law_end_of_content(download: DownloadView)
    requires
        download.stage is Receiving,
    ensures
        ({
            let outcome = download.outcome(EventView::StreamEnded);
            if download.dest_name is Some && ends_in_zip(download.dest_name->0) {
                &&& outcome.console is None
                &&& outcome.updates.len() == 1
                &&& outcome.updates[0] == AppUpdateView::SetStatus(
                    "Extracting "@ + download.rom.filename,
                )
                &&& outcome.command matches CommandView::Unzip { archive, folder } && archive
                    == download.rom.filename && folder + ".zip"@ == download.dest_name->0
            } else {
                is_success(download, EventView::StreamEnded)
            }
        }),
{
    law_archive_is_zip(download);
}

/// An archive that has been unpacked is deleted; one that could not be unpacked stays, the
/// user is told, and the download fails.
pub proof fn law_unpacked(download: DownloadView)
    requires
        download.stage is Unpacking,
    ensures
        ({
            let done = download.outcome(EventView::Unzipped(true));
            &&& done.updates.len() == 0 && done.console is None
            &&& done.command == CommandView::RemoveArchive(download.rom.filename)
        }),
        ({
            let failed = download.outcome(EventView::Unzipped(false));
            &&& failed.console is None
            &&& failed.updates.len() == 1
            &&& failed.updates[0] == AppUpdateView::SetStatus(
                "Failed to extract "@ + download.rom.filename,
            )
            &&& failed.command == CommandView::Return(Err("Failed to unzip file"@))
        }),
{
}

/// Once the archive is gone, the folder is looked for that is named like it.
pub proof fn law_archive_removed(download: DownloadView)
    requires
        download.valid(),
        download.stage is RemovingArchive,
    ensures
        ({
            let outcome = download.outcome(EventView::ArchiveRemoved);
            &&& outcome.updates.len() == 0 && outcome.console is None
            &&& outcome.command matches CommandView::LookForFolder(name) && name + ".zip"@
                == download.dest_name->0
        }),
{
    law_archive_is_zip(download);
}

/// A folder that is there is opened; where there is none, the download is done.
pub proof fn law_folder_found(download: DownloadView)
    requires
        download.valid(),
        download.stage is LookingForFolder,
    ensures
        ({
            let found = download.outcome(EventView::FolderExists(true));
            &&& found.updates.len() == 0 && found.console is None
            &&& found.command matches CommandView::OpenFolder(name) && name + ".zip"@
                == download.dest_name->0
        }),
        is_success(download, EventView::FolderExists(false)),
{
    law_archive_is_zip(download);
}

/// A folder that is open is listed.
pub proof fn law_folder_opened(download: DownloadView)
    requires
        download.stage is OpeningFolder,
    ensures
        ({
            let outcome = download.outcome(EventView::FolderOpened);
            &&& outcome.updates.len() == 0 && outcome.console is None
            &&& outcome.command == CommandView::NextEntry
        }),
{
}

/// When nothing is left to list, the folder is deleted.
pub proof fn law_folder_listed(download: DownloadView)
    requires
        download.valid(),
        download.stage is ListingFolder,
    ensures
        ({
            let outcome = download.outcome(EventView::EntriesEnded);
            &&& outcome.updates.len() == 0 && outcome.console is None
            &&& outcome.command matches CommandView::RemoveFolder(name) && name + ".zip"@
                == download.dest_name->0
        }),
{
    law_archive_is_zip(download);
}

/// Once the folder is gone, the download is done.
pub proof fn law_folder_removed(download: DownloadView)
    requires
        download.stage is RemovingFolder,
    ensures
        is_success(download, EventView::FolderRemoved),
{
}

/// Every file of the folder, whatever its name, is copied under that name, and the user
/// is told of it; then the next one is looked up.
pub proof fn law_entry_is_copied(download: DownloadView, name: Seq<char>)
    ensures
        download.stage is ListingFolder ==> {
            let outcome = download.outcome(EventView::Entry(name));
            &&& outcome.console is None
            &&& outcome.updates.len() == 1
            &&& outcome.updates[0] == AppUpdateView::SetStatus("Moving extracted file: "@ + name)
            &&& outcome.command == CommandView::CopyEntry(name)
        },
        download.stage is CopyingEntry ==> {
            let outcome = download.outcome(EventView::EntryCopied);
            &&& outcome.updates.len() == 0 && outcome.console is None
            &&& outcome.command == CommandView::NextEntry
        },
{
}

/// Whatever fails, and whenever, its reason is what the download returns.
pub proof fn law_failure_is_returned(download: DownloadView, reason: Seq<char>)
    ensures
        ({
            let outcome = download.outcome(EventView::Failed(reason));
            &&& outcome.updates.len() == 0 && outcome.console is None
            &&& outcome.command == CommandView::Return(Err(reason))
        }),
        download.expects(EventView::Failed(reason)) <==> !(download.stage is Over),
{
}

/// An event changes nothing of a download but its stage.
pub proof fn law_event_keeps_file(download: DownloadView, event: EventView)
    ensures
        download.after(event).rom == download.rom,
        download.after(event).dest_name == download.dest_name,
{
}

/// A download is announced with nothing of it there yet and then says that it starts;
/// of a failure the user is told the file and the reason before its end is reported, and
/// of a success nothing is added.
pub proof fn law_opening_and_report(filename: Seq<char>, reason: Seq<char>)
    ensures
        announcement(filename) == AppUpdateView::DownloadProgress(
            filename,
            Progress::Running(Fraction { downloaded: 0, total: 1 }),
        ),
        starting(filename) == AppUpdateView::SetStatus("Starting download of "@ + filename),
        report_of(filename, Ok(())).len() == 0,
        report_of(filename, Err(reason)).len() == 2,
        report_of(filename, Err(reason))[0] == AppUpdateView::SetStatus(
            "Failed to download "@ + filename + ": "@ + reason,
        ),
        report_of(filename, Err(reason))[1] == AppUpdateView::DownloadProgress(
            filename,
            Progress::Finished,
        ),
{
}

/// The names of the files that a folder turns out to hold, in the order of the events.
pub open spec fn entries_of(events: Seq<EventView>) -> Seq<Seq<char>>
    decreases events.len(),
{
    if events.len() == 0 {
        Seq::empty()
    } else {
        match events.last() {
            EventView::Entry(name) => entries_of(events.drop_last()).push(name),
            _ => entries_of(events.drop_last()),
        }
    }
}

/// How many copies the events say are done.
pub open spec fn copies_done(events: Seq<EventView>) -> nat
    decreases events.len(),
{
    if events.len() == 0 {
        0
    } else {
        copies_done(events.drop_last()) + if events.last() is EntryCopied {
            1nat
        } else {
            0nat
        }
    }
}

/// The names of the files that a download orders to be copied, in the order of the events.
pub open spec fn copies_ordered(download: DownloadView, events: Seq<EventView>) -> Seq<Seq<char>>
    decreases events.len(),
{
    if events.len() == 0 {
        Seq::empty()
    } else {
        let earlier = copies_ordered(download, events.drop_last());
        match download.after_events(events.drop_last()).outcome(events.last()).command {
            CommandView::CopyEntry(name) => earlier.push(name),
            _ => earlier,
        }
    }
}

/// In every run, the files ordered to be copied are, in order, exactly those that the
/// folder turned out to hold.
pub proof fn law_every_entry_is_copied(download: DownloadView, events: Seq<EventView>)
    requires
        download.expects_all(events),
    ensures
        copies_ordered(download, events) == entries_of(events),
    decreases events.len(),
{
    if events.len() > 0 {
        law_every_entry_is_copied(download, events.drop_last());
    }
}

/// What has been listed and copied, at each stage.
proof fn lemma_copies_keep_up(download: DownloadView, events: Seq<EventView>)
    requires
        download.stage is Requested,
        download.expects_all(events),
    ensures
        match download.after_events(events).stage {
            Stage::ListingFolder => copies_done(events) == entries_of(events).len(),
            Stage::CopyingEntry => copies_done(events) + 1 == entries_of(events).len(),
            Stage::RemovingFolder | Stage::Over => true,
            _ => copies_done(events) == 0 && entries_of(events).len() == 0,
        },
    decreases events.len(),
{
    if events.len() > 0 {
        lemma_copies_keep_up(download, events.drop_last());
    }
}

/// The folder is only deleted once it holds nothing more, and every file that it held
/// has been ordered to be copied and has been copied.
pub proof fn law_folder_deleted_after_copies(
    download: DownloadView,
    events: Seq<EventView>,
    last: EventView,
)
    requires
        download.stage is Requested,
        download.expects_all(events.push(last)),
        download.after_events(events).outcome(last).command is RemoveFolder,
    ensures
        last is EntriesEnded,
        copies_ordered(download, events.push(last)) == entries_of(events.push(last)),
        copies_done(events.push(last)) == entries_of(events.push(last)).len(),
{
    assert(events.push(last).drop_last() =~= events);
    law_every_entry_is_copied(download, events.push(last));
    lemma_copies_keep_up(download, events);
}

} // verus!
