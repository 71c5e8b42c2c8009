//! What holds of every download, whatever the network and the disk answer.

use crate::data::AppUpdateView;
use crate::download::{
    announcement, finished, header_text, report_of, starting, CommandView, DownloadView,
    EventView, Stage,
};
use crate::model::AppView;
use crate::progress::{nothing_yet, Fraction, Progress};
use crate::text::contains_text;
use vstd::prelude::*;

verus! {

impl DownloadView {
    /// The download after events, in this order.
    pub open spec fn after_events(self, events: Seq<EventView>) -> DownloadView
        decreases events.len(),
    {
        if events.len() == 0 {
            self
        } else {
            self.after_events(events.drop_last()).after(events.last())
        }
    }

    /// Each of the events is expected when it comes.
    pub open spec fn expects_all(self, events: Seq<EventView>) -> bool
        decreases events.len(),
    {
        events.len() == 0 || {
            &&& self.expects_all(events.drop_last())
            &&& self.after_events(events.drop_last()).expects(events.last())
        }
    }

    /// What the worker tells the window on an event: the messages of the outcome and,
    /// if the download returns, the report of its result.
    pub open spec fn messages_on(self, event: EventView) -> Seq<AppUpdateView> {
        let outcome = self.outcome(event);
        match outcome.command {
            CommandView::Return(result) => outcome.updates + report_of(self.rom.filename, result),
            _ => outcome.updates,
        }
    }

    /// What the download itself tells the window on events, in this order, without the
    /// report of its result.
    pub open spec fn own_messages(self, events: Seq<EventView>) -> Seq<AppUpdateView>
        decreases events.len(),
    {
        if events.len() == 0 {
            Seq::empty()
        } else {
            self.own_messages(events.drop_last()) + self.after_events(
                events.drop_last(),
            ).outcome(events.last()).updates
        }
    }

    /// The last of the events makes the download return with success.
    pub open spec fn succeeds_on(self, events: Seq<EventView>) -> bool {
        events.len() > 0 && self.after_events(events.drop_last()).outcome(events.last()).command
            == CommandView::Return(Ok(()))
    }

    /// What the worker tells the window on events, in this order.
    pub open spec fn messages(self, events: Seq<EventView>) -> Seq<AppUpdateView>
        decreases events.len(),
    {
        if events.len() == 0 {
            Seq::empty()
        } else {
            self.messages(events.drop_last()) + self.after_events(
                events.drop_last(),
            ).messages_on(events.last())
        }
    }
}

/// The message says that a download is over.
pub open spec fn is_finish(update: AppUpdateView) -> bool {
    update matches AppUpdateView::DownloadProgress(_, Progress::Finished)
}

/// How many of the messages say that a download is over.
pub open spec fn finishes(updates: Seq<AppUpdateView>) -> nat
    decreases updates.len(),
{
    if updates.len() == 0 {
        0
    } else {
        finishes(updates.drop_last()) + if is_finish(updates.last()) {
            1nat
        } else {
            0nat
        }
    }
}

proof fn lemma_finishes_add(left: Seq<AppUpdateView>, right: Seq<AppUpdateView>)
    ensures
        finishes(left + right) == finishes(left) + finishes(right),
    decreases right.len(),
{
    if right.len() == 0 {
        assert(left + right =~= left);
    } else {
        lemma_finishes_add(left, right.drop_last());
        assert((left + right).drop_last() =~= left + right.drop_last());
    }
}

/// One event brings the end of the download exactly when it brings the message of it.
proof fn lemma_finishes_on(download: DownloadView, event: EventView)
    requires
        download.expects(event),
    ensures
        finishes(download.messages_on(event)) == if download.after(event).stage is Over {
            1nat
        } else {
            0nat
        },
        !(download.stage is Over),
{
    reveal_with_fuel(finishes, 4);
    let messages = download.messages_on(event);
    if messages.len() > 0 {
        assert(messages.drop_last().len() == messages.len() - 1);
    }
}

/// The file, its place on disk and the validity of a download outlast every event.
pub proof fn law_download_stays_valid(download: DownloadView, events: Seq<EventView>)
    requires
        download.valid(),
        download.expects_all(events),
    ensures
        download.after_events(events).valid(),
        download.after_events(events).rom == download.rom,
        download.after_events(events).dest_name == download.dest_name,
    decreases events.len(),
{
    if events.len() > 0 {
        law_download_stays_valid(download, events.drop_last());
    }
}

/// Whatever happens, a download tells the window exactly once that it is over, and it
/// does so when it returns, with success or without.
pub proof fn law_one_finish(download: DownloadView, events: Seq<EventView>)
    requires
        download.stage is Requested,
        download.expects_all(events),
    ensures
        finishes(download.messages(events)) == if download.after_events(events).stage is Over {
            1nat
        } else {
            0nat
        },
    decreases events.len(),
{
    if events.len() > 0 {
        let front = events.drop_last();
        law_one_finish(download, front);
        lemma_finishes_on(download.after_events(front), events.last());
        lemma_finishes_add(
            download.messages(front),
            download.after_events(front).messages_on(events.last()),
        );
    }
}

/// Where no download is said to be over, no message says so.
proof fn lemma_no_finishes(updates: Seq<AppUpdateView>)
    requires
        finishes(updates) == 0,
    ensures
        forall|i: int| 0 <= i < updates.len() ==> !is_finish(#[trigger] updates[i]),
    decreases updates.len(),
{
    if updates.len() > 0 {
        let front = updates.drop_last();
        lemma_no_finishes(front);
        assert forall|i: int| 0 <= i < updates.len() implies !is_finish(
            #[trigger] updates[i],
        ) by {
            if i < front.len() {
                assert(front[i] == updates[i]);
            }
        }
    }
}

/// After a message that a download is over, no message reports progress.
pub open spec fn nothing_after_finish(updates: Seq<AppUpdateView>) -> bool {
    forall|i: int, j: int|
        0 <= i < j < updates.len() && is_finish(#[trigger] updates[i])
            ==> !(#[trigger] updates[j] is DownloadProgress)
}

/// Once a worker has said that its download is over, it reports no more progress.
pub proof fn law_nothing_after_finish(download: DownloadView, events: Seq<EventView>)
    requires
        download.stage is Requested,
        download.expects_all(events),
    ensures
        nothing_after_finish(download.messages(events)),
{
    if events.len() > 0 {
        let front = events.drop_last();
        let before = download.after_events(front);
        let earlier = download.messages(front);
        let new = before.messages_on(events.last());
        law_one_finish(download, front);
        lemma_no_finishes(earlier);
        let messages = download.messages(events);
        assert forall|i: int, j: int|
            0 <= i < j < messages.len() && is_finish(#[trigger] messages[i]) implies !(
        #[trigger] messages[j] is DownloadProgress) by {
            if i < earlier.len() {
                assert(messages[i] == earlier[i]);
            } else {
                assert(messages[i] == new[i - earlier.len()]);
                assert(messages[j] == new[j - earlier.len()]);
            }
        }
    }
}

/// A download itself says that it is over exactly when it returns with success; of one
/// that fails, the report of its result says so.
pub proof fn law_own_finish_means_success(download: DownloadView, events: Seq<EventView>)
    requires
        download.stage is Requested,
        download.expects_all(events),
    ensures
        finishes(download.own_messages(events)) == if download.succeeds_on(events) {
            1nat
        } else {
            0nat
        },
    decreases events.len(),
{
    if events.len() > 0 {
        let front = events.drop_last();
        let before = download.after_events(front);
        let updates = before.outcome(events.last()).updates;
        law_own_finish_means_success(download, front);
        assert(!download.succeeds_on(front));
        lemma_finishes_add(download.own_messages(front), updates);
        reveal_with_fuel(finishes, 3);
        if updates.len() > 0 {
            assert(updates.drop_last().len() == updates.len() - 1);
        }
    }
}

/// A message that a worker may send about the file `filename`.
pub open spec fn is_about(update: AppUpdateView, filename: Seq<char>) -> bool {
    match update {
        AppUpdateView::SetStatus(_) => true,
        AppUpdateView::DownloadProgress(name, _) => name == filename,
        _ => false,
    }
}

/// A worker only sets the status line and reports on its own file.
pub proof fn law_messages_are_about_the_file(download: DownloadView, events: Seq<EventView>)
    requires
        download.valid(),
        download.expects_all(events),
    ensures
        forall|i: int|
            0 <= i < download.messages(events).len() ==> is_about(
                #[trigger] download.messages(events)[i],
                download.rom.filename,
            ),
    decreases events.len(),
{
    if events.len() > 0 {
        let front = events.drop_last();
        law_messages_are_about_the_file(download, front);
        law_download_stays_valid(download, front);
        let earlier = download.messages(front);
        let new = download.after_events(front).messages_on(events.last());
        let messages = download.messages(events);
        assert forall|i: int| 0 <= i < messages.len() implies is_about(
            #[trigger] messages[i],
            download.rom.filename,
        ) by {
            if i < earlier.len() {
                assert(messages[i] == earlier[i]);
            } else {
                assert(messages[i] == new[i - earlier.len()]);
            }
        }
    }
}

/// The bytes that the events say have been written.
pub open spec fn bytes_written(events: Seq<EventView>) -> nat
    decreases events.len(),
{
    if events.len() == 0 {
        0
    } else {
        bytes_written(events.drop_last()) + match events.last() {
            EventView::ChunkWritten(len) => len as nat,
            _ => 0,
        }
    }
}

/// While the content comes in, the count of bytes is the sum of what has been written,
/// and the size is the one that the server announced, which is not zero.
pub proof fn law_bytes_are_counted(download: DownloadView, events: Seq<EventView>)
    requires
        download.stage is Requested,
        download.expects_all(events),
    ensures
        match download.after_events(events).stage {
            Stage::Requested => events.len() == 0,
            Stage::OpeningFile { total } => total > 0 && announced(events) == Some(total)
                && bytes_written(events) == 0,
            Stage::Receiving { downloaded, total } => total > 0 && announced(events) == Some(total)
                && bytes_written(events) == downloaded,
            _ => true,
        },
    decreases events.len(),
{
    if events.len() > 0 {
        let front = events.drop_last();
        law_bytes_are_counted(download, front);
        if front.len() == 0 {
            assert(bytes_written(front) == 0);
        }
    }
}

/// The size in the answer of the server, with which every run of events begins.
pub open spec fn announced(events: Seq<EventView>) -> Option<u64> {
    match events.first() {
        EventView::Response { content_length, .. } => content_length,
        _ => None,
    }
}

/// The share of the file that a message reports.
pub open spec fn reported(update: AppUpdateView) -> Option<Fraction> {
    match update {
        AppUpdateView::DownloadProgress(_, Progress::Running(fraction)) => Some(fraction),
        _ => None,
    }
}

/// Reported progress never goes back, and the size that it is measured against stays.
pub proof fn law_progress_never_goes_back(download: DownloadView, events: Seq<EventView>)
    requires
        download.stage is Requested,
        download.expects_all(events),
    ensures
        forall|i: int, j: int|
            0 <= i <= j < download.messages(events).len() && reported(
                #[trigger] download.messages(events)[i],
            ) is Some && reported(#[trigger] download.messages(events)[j]) is Some ==> reported(
                download.messages(events)[i],
            )->0.downloaded <= reported(download.messages(events)[j])->0.downloaded && reported(
                download.messages(events)[i],
            )->0.total == reported(download.messages(events)[j])->0.total,
{
    lemma_reports_bounded(download, events);
}

/// Reports so far are ordered, and none is ahead of what has been written.
proof fn lemma_reports_bounded(download: DownloadView, events: Seq<EventView>)
    requires
        download.stage is Requested,
        download.expects_all(events),
    ensures
        ({
            let messages = download.messages(events);
            &&& forall|i: int, j: int|
                0 <= i <= j < messages.len() && reported(#[trigger] messages[i]) is Some
                    && reported(#[trigger] messages[j]) is Some ==> reported(
                    messages[i],
                )->0.downloaded <= reported(messages[j])->0.downloaded && reported(
                    messages[i],
                )->0.total == reported(messages[j])->0.total
            &&& match download.after_events(events).stage {
                Stage::Receiving { downloaded, total } => forall|i: int|
                    0 <= i < messages.len() && reported(#[trigger] messages[i]) is Some
                        ==> reported(messages[i])->0.downloaded <= downloaded && reported(
                        messages[i],
                    )->0.total == total,
                Stage::Requested | Stage::ReadingText | Stage::OpeningFile { .. } => forall|i: int|
                    0 <= i < messages.len() ==> reported(#[trigger] messages[i]) is None,
                _ => true,
            }
        }),
    decreases events.len(),
{
    if events.len() > 0 {
        let front = events.drop_last();
        lemma_reports_bounded(download, front);
        let before = download.after_events(front);
        let earlier = download.messages(front);
        let new = before.messages_on(events.last());
        let messages = download.messages(events);
        assert(messages == earlier + new);
        assert forall|j: int| earlier.len() <= j < messages.len() && reported(
            #[trigger] messages[j],
        ) is Some implies new.len() == 1 && before.stage is Receiving by {
            assert(messages[j] == new[j - earlier.len()]);
        }
    }
}

/// A file is only made for an answer that is not text and says how long it is.
pub proof fn law_file_opened_for_content(download: DownloadView, event: EventView)
    requires
        download.expects(event),
        download.outcome(event).command is OpenFile,
    ensures
        event matches EventView::Response { content_type, content_length: Some(total) }
            && !contains_text(header_text(content_type), "text"@) && total > 0,
{
}

/// An archive is only deleted after it has been unpacked with success.
pub proof fn law_archive_outlives_failure(download: DownloadView, event: EventView)
    requires
        download.valid(),
        download.expects(event),
        download.outcome(event).command is RemoveArchive,
    ensures
        download.is_archive(),
        event == EventView::Unzipped(true),
{
}

/// The content has come to its end among the events.
pub open spec fn stream_ended(events: Seq<EventView>) -> bool {
    exists|i: int| 0 <= i < events.len() && #[trigger] events[i] is StreamEnded
}

/// A download that returns with success has received the whole content.
pub proof fn law_success_needs_whole_content(
    download: DownloadView,
    events: Seq<EventView>,
    last: EventView,
)
    requires
        download.stage is Requested,
        download.expects_all(events.push(last)),
        download.after_events(events).outcome(last).command == CommandView::Return(Ok(())),
    ensures
        stream_ended(events.push(last)),
{
    assert(events.push(last).drop_last() =~= events);
    lemma_unpacking_needs_whole_content(download, events);
    let all = events.push(last);
    if last is StreamEnded {
        assert(all[events.len() as int] is StreamEnded);
    } else {
        let i = choose|i: int| 0 <= i < events.len() && events[i] is StreamEnded;
        assert(all[i] is StreamEnded);
    }
}

proof fn lemma_unpacking_needs_whole_content(download: DownloadView, events: Seq<EventView>)
    requires
        download.stage is Requested,
        download.expects_all(events),
    ensures
        match download.after_events(events).stage {
            Stage::Requested
            | Stage::ReadingText
            | Stage::OpeningFile { .. }
            | Stage::Receiving { .. }
            | Stage::Over => true,
            _ => stream_ended(events),
        },
    decreases events.len(),
{
    if events.len() > 0 {
        let front = events.drop_last();
        lemma_unpacking_needs_whole_content(download, front);
        if stream_ended(front) {
            let i = choose|i: int| 0 <= i < front.len() && front[i] is StreamEnded;
            assert(events[i] is StreamEnded);
        }
        if events.last() is StreamEnded {
            assert(events[events.len() - 1] is StreamEnded);
        }
    }
}

proof fn lemma_updates_add(app: AppView, left: Seq<AppUpdateView>, right: Seq<AppUpdateView>)
    ensures
        app.after_updates(left + right) == app.after_updates(left).after_updates(right),
    decreases right.len(),
{
    if right.len() == 0 {
        assert(left + right =~= left);
    } else {
        lemma_updates_add(app, left, right.drop_last());
        assert((left + right).drop_last() =~= left + right.drop_last());
    }
}

/// What a worker's messages leave of the window's account of downloads: while the
/// download goes on, nothing but the line of its file has changed; once it is over, one
/// active download less is counted, the first file of the queue has moved up if it
/// could, and no line of the file is left unless that file is the same one.
pub open spec fn accounts_for(app: AppView, then: AppView, filename: Seq<char>, over: bool) -> bool {
    &&& then.loading == app.loading
    &&& then.max_concurrent_downloads == app.max_concurrent_downloads
    &&& if over {
        &&& then.active_downloads == app.after_finish(filename).active_downloads
        &&& then.download_queue == app.after_finish(filename).download_queue
        &&& then.download_progress == app.after_finish(filename).download_progress
    } else {
        &&& then.active_downloads == app.active_downloads
        &&& then.download_queue == app.download_queue
        &&& then.download_progress.remove(filename) == app.download_progress.remove(filename)
    }
}

/// Up to three messages, one after the other.
proof fn lemma_few_updates(app: AppView, updates: Seq<AppUpdateView>)
    ensures
        updates.len() == 0 ==> app.after_updates(updates) == app,
        updates.len() == 1 ==> app.after_updates(updates) == app.after_update(updates[0]),
        updates.len() == 2 ==> app.after_updates(updates) == app.after_update(
            updates[0],
        ).after_update(updates[1]),
        updates.len() == 3 ==> app.after_updates(updates) == app.after_update(
            updates[0],
        ).after_update(updates[1]).after_update(updates[2]),
    decreases updates.len(),
{
    if 0 < updates.len() <= 3 {
        lemma_few_updates(app, updates.drop_last());
    }
}

/// A status message has no bearing on downloads.
proof fn lemma_status_changes_nothing(
    app: AppView,
    then: AppView,
    filename: Seq<char>,
    over: bool,
    update: AppUpdateView,
)
    requires
        update is SetStatus,
        accounts_for(app, then, filename, over),
    ensures
        accounts_for(app, then.after_update(update), filename, over),
{
}

/// Progress changes the line of its own file.
proof fn lemma_progress_changes_line(
    app: AppView,
    then: AppView,
    filename: Seq<char>,
    fraction: Fraction,
)
    requires
        accounts_for(app, then, filename, false),
    ensures
        accounts_for(
            app,
            then.after_update(
                AppUpdateView::DownloadProgress(filename, Progress::Running(fraction)),
            ),
            filename,
            false,
        ),
{
    assert(then.download_progress.insert(filename, fraction).remove(filename)
        =~= then.download_progress.remove(filename));
}

/// The message of the end is accounted for.
proof fn lemma_finish_is_accounted_for(app: AppView, then: AppView, filename: Seq<char>)
    requires
        accounts_for(app, then, filename, false),
    ensures
        accounts_for(app, then.after_update(finished(filename)), filename, true),
{
}

/// One event of a download that goes on.
proof fn lemma_window_follows_event(
    app: AppView,
    then: AppView,
    download: DownloadView,
    event: EventView,
)
    requires
        download.expects(event),
        accounts_for(app, then, download.rom.filename, false),
    ensures
        accounts_for(
            app,
            then.after_updates(download.messages_on(event)),
            download.rom.filename,
            download.after(event).stage is Over,
        ),
{
    let filename = download.rom.filename;
    let outcome = download.outcome(event);
    let messages = download.messages_on(event);
    lemma_few_updates(then, messages);
    match outcome.command {
        CommandView::Return(Ok(_)) => {
            assert(messages =~= download.success().updates);
            lemma_finish_is_accounted_for(app, then, filename);
            lemma_status_changes_nothing(
                app,
                then.after_update(messages[0]),
                filename,
                true,
                messages[1],
            );
        },
        CommandView::Return(Err(reason)) => {
            let report = report_of(filename, Err(reason));
            if outcome.updates.len() == 0 {
                assert(messages =~= report);
                lemma_status_changes_nothing(app, then, filename, false, messages[0]);
                lemma_finish_is_accounted_for(app, then.after_update(messages[0]), filename);
            } else {
                assert(messages =~= seq![outcome.updates[0], report[0], report[1]]);
                let first = then.after_update(messages[0]);
                lemma_status_changes_nothing(app, then, filename, false, messages[0]);
                lemma_status_changes_nothing(app, first, filename, false, messages[1]);
                lemma_finish_is_accounted_for(app, first.after_update(messages[1]), filename);
            }
        },
        _ => {
            if messages.len() == 1 {
                match messages[0] {
                    AppUpdateView::DownloadProgress(_, Progress::Running(fraction)) => {
                        lemma_progress_changes_line(app, then, filename, fraction);
                    },
                    _ => {
                        lemma_status_changes_nothing(app, then, filename, false, messages[0]);
                    },
                }
            }
        },
    }
}

proof fn lemma_window_follows_events(
    app: AppView,
    start: AppView,
    download: DownloadView,
    events: Seq<EventView>,
)
    requires
        download.stage is Requested,
        download.valid(),
        download.expects_all(events),
        accounts_for(app, start, download.rom.filename, false),
    ensures
        accounts_for(
            app,
            start.after_updates(download.messages(events)),
            download.rom.filename,
            download.after_events(events).stage is Over,
        ),
    decreases events.len(),
{
    if events.len() > 0 {
        let front = events.drop_last();
        lemma_window_follows_events(app, start, download, front);
        law_download_stays_valid(download, front);
        let before = download.after_events(front);
        let new = before.messages_on(events.last());
        lemma_updates_add(start, download.messages(front), new);
        lemma_window_follows_event(
            app,
            start.after_updates(download.messages(front)),
            before,
            events.last(),
        );
    }
}

/// Fed with everything that is said of one download, from the announcement and the
/// message with which it begins on, the window accounts for it.
pub proof fn law_window_follows_download(
    app: AppView,
    download: DownloadView,
    events: Seq<EventView>,
)
    requires
        download.stage is Requested,
        download.valid(),
        download.expects_all(events),
    ensures
        accounts_for(
            app,
            app.after_updates(
                seq![announcement(download.rom.filename), starting(download.rom.filename)]
                    + download.messages(events),
            ),
            download.rom.filename,
            download.after_events(events).stage is Over,
        ),
{
    let filename = download.rom.filename;
    let opening = seq![announcement(filename), starting(filename)];
    let announced = app.after_update(announcement(filename));
    lemma_progress_changes_line(app, app, filename, nothing_yet());
    lemma_status_changes_nothing(app, announced, filename, false, starting(filename));
    lemma_few_updates(app, opening);
    lemma_window_follows_events(app, app.after_updates(opening), download, events);
    lemma_updates_add(app, opening, download.messages(events));
}

/// Every command on the disk names what belongs to the download: the file is made and
/// deleted under its own name, and the folder that is unpacked into is the one that is
/// looked for, opened and deleted.
pub proof fn law_commands_name_own_files(download: DownloadView, event: EventView)
    requires
        download.valid(),
        download.expects(event),
    ensures
        match download.outcome(event).command {
            CommandView::OpenFile(name) => name == download.rom.filename,
            CommandView::Unzip { archive, folder } => archive == download.rom.filename && folder
                == download.folder() && download.is_archive(),
            CommandView::RemoveArchive(name) => name == download.rom.filename,
            CommandView::LookForFolder(name) => name == download.folder(),
            CommandView::OpenFolder(name) => name == download.folder(),
            CommandView::RemoveFolder(name) => name == download.folder(),
            _ => true,
        },
        download.after(event).folder() == download.folder(),
{
}

} // verus!
