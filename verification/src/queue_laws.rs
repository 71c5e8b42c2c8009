//! What asking for files and the end of a download do, in terms of what the window held.

use crate::data::{AppUpdateView, RomView};
use crate::model::{is_named, mark_started, AppView, DownloadActionView};
use crate::progress::{Fraction, Progress};
use vstd::prelude::*;

verus! {

/// Whatever number of downloads is active, the end of one sets the first file of the
/// queue going, to the directory that the window names, and the other files move up; its
/// line in the table says that nothing has arrived. Only an empty queue, or a listing
/// that is under way, keeps the queue as it is.
pub proof fn law_end_starts_first_in_line(app: AppView, filename: Seq<char>)
    ensures
        ({
            let update = AppUpdateView::DownloadProgress(filename, Progress::Finished);
            let then = app.after_update(update);
            if app.download_queue.len() > 0 && !app.loading {
                let first = app.download_queue[0];
                &&& app.started_by_update(update) matches Some(request) && request.rom == first
                    && request.download_path == app.download_path
                &&& seq![first] + then.download_queue == app.download_queue
                &&& then.download_progress.contains_key(first.filename)
                &&& then.download_progress[first.filename].downloaded == 0
                &&& then.download_progress[first.filename].total == 1
            } else {
                &&& app.started_by_update(update) is None
                &&& then.download_queue == app.download_queue
            }
        }),
{
    let update = AppUpdateView::DownloadProgress(filename, Progress::Finished);
    let then = app.after_update(update);
    if app.download_queue.len() > 0 && !app.loading {
        assert(seq![app.download_queue[0]] + then.download_queue =~= app.download_queue);
    }
}

/// The end of a download takes its line out of the table, unless the file that starts
/// has the same name, and leaves the lines of all others alone; one download less is
/// active; downloads count as active as long as they did and a line is left; and nothing
/// else changes.
pub proof fn law_end_of_download(app: AppView, filename: Seq<char>, other: Seq<char>)
    requires
        other != filename,
    ensures
        ({
            let update = AppUpdateView::DownloadProgress(filename, Progress::Finished);
            let then = app.after_update(update);
            let first = app.started_by_update(update);
            &&& then.download_progress.contains_key(filename) <==> first is Some
                && first->0.rom.filename == filename
            &&& !(first is Some && first->0.rom.filename == other) ==> {
                &&& then.download_progress.contains_key(other)
                    == app.download_progress.contains_key(other)
                &&& then.download_progress[other] == app.download_progress[other]
            }
            &&& app.active_downloads > 0 ==> then.active_downloads + 1 == app.active_downloads
            &&& app.active_downloads == 0 ==> then.active_downloads == 0
            &&& then.has_active_downloads <==> app.has_active_downloads && exists|name: Seq<char>|
                then.download_progress.contains_key(name)
            &&& then == AppView {
                download_progress: then.download_progress,
                active_downloads: then.active_downloads,
                has_active_downloads: then.has_active_downloads,
                download_queue: then.download_queue,
                ..app
            }
        }),
{
    let update = AppUpdateView::DownloadProgress(filename, Progress::Finished);
    let then = app.after_update(update);
    let none = Map::<Seq<char>, Fraction>::empty();
    if forall|name: Seq<char>| !then.download_progress.contains_key(name) {
        assert(then.download_progress =~= none);
    }
}

/// A message other than the end of a download sets nothing going and changes just what
/// it speaks of.
pub proof fn law_message_changes_its_subject(app: AppView, update: AppUpdateView)
    requires
        !(update matches AppUpdateView::DownloadProgress(_, Progress::Finished)),
    ensures
        app.started_by_update(update) is None,
        ({
            let then = app.after_update(update);
            match update {
                AppUpdateView::SystemsLoaded(systems) => then.available_systems == systems && then
                    == (AppView { available_systems: then.available_systems, ..app }),
                AppUpdateView::RomsLoaded(roms) => then.roms == roms && then == (AppView {
                    roms: then.roms,
                    ..app
                }),
                AppUpdateView::SetStatus(message) => then.status_message == message && then == (
                AppView { status_message: then.status_message, ..app }),
                AppUpdateView::SetLoading(loading) => then.loading == loading && then == (AppView {
                    loading: then.loading,
                    ..app
                }),
                AppUpdateView::DownloadProgress(filename, progress) => {
                    &&& then.has_active_downloads
                    &&& then.download_progress.contains_key(filename)
                    &&& progress == Progress::Running(then.download_progress[filename])
                    &&& then.download_progress.remove(filename) == app.download_progress.remove(
                        filename,
                    )
                    &&& then == AppView {
                        download_progress: then.download_progress,
                        has_active_downloads: then.has_active_downloads,
                        ..app
                    }
                },
            }
        }),
{
    let then = app.after_update(update);
    match update {
        AppUpdateView::DownloadProgress(filename, _) => {
            assert(then.download_progress.remove(filename) =~= app.download_progress.remove(
                filename,
            ));
        },
        _ => {},
    }
}

/// Messages are taken in one after the other.
pub proof fn law_messages_come_in_order(
    app: AppView,
    updates: Seq<AppUpdateView>,
    update: AppUpdateView,
)
    ensures
        app.after_updates(Seq::empty()) == app,
        app.after_updates(updates.push(update)) == app.after_updates(updates).after_update(update),
{
    assert(updates.push(update).drop_last() =~= updates);
}

/// Of the files asked for, each starts that comes while fewer downloads are active than
/// may be, counting those before it; its request names the file itself and the directory
/// that the window names, whatever else the window holds. Every other file waits, and the
/// user is told so by its name.
pub proof fn law_each_file_asked_for(app: AppView, roms: Seq<RomView>, i: int)
    requires
        0 <= i < roms.len(),
    ensures
        app.actions(roms).len() == roms.len(),
        if app.active_downloads + i < app.max_concurrent_downloads {
            app.actions(roms)[i] matches DownloadActionView::Start(request) && request.rom
                == roms[i] && request.download_path == app.download_path
        } else {
            app.actions(roms)[i] matches DownloadActionView::Queued(update) && update
                == AppUpdateView::SetStatus("Queued "@ + roms[i].filename + " for download"@)
        },
{
}

/// Every request that the window hands out, whether a click or the end of a download
/// brought it about, is for the directory that the window names.
pub proof fn law_requests_name_download_path(
    app: AppView,
    roms: Seq<RomView>,
    update: AppUpdateView,
)
    ensures
        forall|i: int|
            0 <= i < roms.len() ==> (#[trigger] app.actions(
                roms,
            )[i] matches DownloadActionView::Start(request) ==> request.download_path
                == app.download_path && request.rom == roms[i]),
        app.started_by_update(update) matches Some(request) ==> request.download_path
            == app.download_path && app.download_queue.len() > 0 && request.rom
            == app.download_queue[0],
{
}

/// Asking for files loses none: those that did not start wait, in their order, behind the
/// files that waited before. The limit is used up before a file has to wait, and nothing
/// starts beyond it.
pub proof fn law_asked_start_or_wait(app: AppView, roms: Seq<RomView>)
    ensures
        ({
            let then = app.after_requests(roms);
            let started = then.active_downloads - app.active_downloads;
            &&& 0 <= started <= roms.len()
            &&& then.download_queue == app.download_queue + roms.skip(started)
            &&& started < roms.len() ==> then.active_downloads >= app.max_concurrent_downloads
            &&& started > 0 ==> then.active_downloads <= app.max_concurrent_downloads
            &&& then == AppView {
                active_downloads: then.active_downloads,
                download_progress: then.download_progress,
                download_queue: then.download_queue,
                ..app
            }
        }),
{
}

/// Each file that starts has a line that says that nothing has arrived; the lines of all
/// other names are as they were, and a name that had none and does not start has none.
pub proof fn law_lines_after_asking(app: AppView, roms: Seq<RomView>, name: Seq<char>)
    ensures
        ({
            let then = app.after_requests(roms);
            let started = then.active_downloads - app.active_downloads;
            if exists|i: int| 0 <= i < started && (#[trigger] roms[i]).filename == name {
                &&& then.download_progress.contains_key(name)
                &&& then.download_progress[name].downloaded == 0
                &&& then.download_progress[name].total == 1
            } else {
                &&& then.download_progress.contains_key(name)
                    == app.download_progress.contains_key(name)
                &&& app.download_progress.contains_key(name) ==> then.download_progress[name]
                    == app.download_progress[name]
            }
        }),
{
    let then = app.after_requests(roms);
    let started = then.active_downloads - app.active_downloads;
    let beginning = roms.take(started);
    if exists|i: int| 0 <= i < started && (#[trigger] roms[i]).filename == name {
        let i = choose|i: int| 0 <= i < started && (#[trigger] roms[i]).filename == name;
        assert(beginning[i].filename == name);
        assert(is_named(beginning, name));
    } else {
        assert forall|i: int| 0 <= i < beginning.len() implies (#[trigger] beginning[i]).filename
            != name by {
            assert(roms[i].filename != name);
        }
        assert(!is_named(beginning, name));
    }
    assert(then.download_progress == mark_started(app.download_progress, beginning));
}

/// A file at the end of the list is asked for with the ticked ones exactly when its name
/// is ticked, and then as the last; in an empty list nothing is.
pub proof fn law_ticked_files(app: AppView, rom: RomView)
    ensures
        ({
            let longer = AppView { roms: app.roms.push(rom), ..app };
            longer.ticked() == if app.selected_roms.contains(rom.filename) {
                app.ticked().push(rom)
            } else {
                app.ticked()
            }
        }),
        app.roms.len() == 0 ==> app.ticked().len() == 0,
{
    reveal(Seq::filter);
    let longer = AppView { roms: app.roms.push(rom), ..app };
    let is_ticked = |rom: RomView| app.selected_roms.contains(rom.filename);
    assert(is_ticked =~= |rom: RomView| longer.selected_roms.contains(rom.filename));
    assert(longer.roms.drop_last() =~= app.roms);
    assert(longer.roms.last() == rom);
}

/// The count of active downloads keeps to the limit, and downloads that are said to be
/// active have a line; nothing more is asked of the window.
pub proof fn law_valid_window(app: AppView)
    ensures
        app.valid() <==> {
            &&& app.active_downloads <= app.max_concurrent_downloads
            &&& app.has_active_downloads ==> exists|name: Seq<char>|
                app.download_progress.contains_key(name)
        },
{
    let none = Map::<Seq<char>, Fraction>::empty();
    if forall|name: Seq<char>| !app.download_progress.contains_key(name) {
        assert(app.download_progress =~= none);
    }
}

} // verus!
