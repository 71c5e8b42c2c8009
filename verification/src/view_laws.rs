//! Contracts speak of views; these say that a view is what the value holds.

use crate::app::{action_views, DownloadAction, DownloadRequest, MyrientApp};
use crate::data::{rom_views, update_views, AppUpdate, AppUpdateView, FilterOptions, Rom};
use crate::download::{result_view, Command, CommandView, Download, Event, EventView, Outcome};
use crate::model::DownloadActionView;
use crate::text::texts;
use vstd::prelude::*;

verus! {

/// The view of a list has the views of its items, in their order.
pub proof fn law_list_views(
    texts_held: Seq<String>,
    roms: Seq<Rom>,
    updates: Seq<AppUpdate>,
    actions: Seq<DownloadAction>,
    i: int,
)
    ensures
        texts(texts_held).len() == texts_held.len(),
        0 <= i < texts_held.len() ==> texts(texts_held)[i] == texts_held[i]@,
        rom_views(roms).len() == roms.len(),
        0 <= i < roms.len() ==> rom_views(roms)[i].filename == roms[i].filename@ && rom_views(
            roms,
        )[i].url == roms[i].url@,
        update_views(updates).len() == updates.len(),
        0 <= i < updates.len() ==> update_views(updates)[i] == updates[i]@,
        action_views(actions).len() == actions.len(),
        0 <= i < actions.len() ==> action_views(actions)[i] == actions[i]@,
{
}

/// The view of a file, of a request and of filter options has their parts.
pub proof fn law_part_views(rom: Rom, request: DownloadRequest, options: FilterOptions)
    ensures
        rom@.filename == rom.filename@ && rom@.url == rom.url@,
        request@.rom == request.rom@ && request@.download_path == request.download_path@,
        options@.region_limit == options.region_limit,
        options@.region == options.region@,
        options@.smart_filters == options.smart_filters,
        options@.exclude_patterns == options.exclude_patterns@.map_values(|text: String| text@),
        options@.latest_revision == options.latest_revision,
{
    assert(options@.exclude_patterns =~= options.exclude_patterns@.map_values(
        |text: String| text@,
    ));
}

/// The view of the window has each of its parts.
pub proof fn law_window_view(app: MyrientApp)
    ensures
        app@.filter_options == app.filter_options@,
        app@.selected_system == app.selected_system@,
        app@.available_systems == app.available_systems@.map_values(|text: String| text@),
        app@.download_path == app.download_path@,
        app@.status_message == app.status_message@,
        app@.roms == app.roms@.map_values(|rom: Rom| rom@),
        app@.loading == app.loading,
        app@.download_progress == app.download_progress@,
        app@.has_active_downloads == app.has_active_downloads,
        app@.show_filter_options == app.show_filter_options,
        app@.show_system_selection == app.show_system_selection,
        app@.show_download_settings == app.show_download_settings,
        app@.current_path == app.current_path@.map_values(|text: String| text@),
        app@.needs_directory_load == app.needs_directory_load,
        app@.selected_roms == app.selected_roms@,
        app@.search_term == app.search_term@,
        app@.max_concurrent_downloads == app.max_concurrent_downloads,
        app@.download_queue == app.download_queue@.map_values(|rom: Rom| rom@),
        app@.active_downloads == app.active_downloads,
        app@.show_queue_window == app.show_queue_window,
{
    assert(app@.available_systems =~= app.available_systems@.map_values(|text: String| text@));
    assert(app@.current_path =~= app.current_path@.map_values(|text: String| text@));
    assert(app@.roms =~= app.roms@.map_values(|rom: Rom| rom@));
    assert(app@.download_queue =~= app.download_queue@.map_values(|rom: Rom| rom@));
}

/// The view of a message, and of what becomes of a file, tells what kind it is and what
/// it carries.
pub proof fn law_message_views(update: AppUpdate, action: DownloadAction)
    ensures
        match update@ {
            AppUpdateView::SystemsLoaded(systems) => update matches AppUpdate::SystemsLoaded(held)
                && systems == held@.map_values(|text: String| text@),
            AppUpdateView::RomsLoaded(roms) => update matches AppUpdate::RomsLoaded(held) && roms
                == held@.map_values(|rom: Rom| rom@),
            AppUpdateView::SetStatus(message) => update matches AppUpdate::SetStatus(held)
                && message == held@,
            AppUpdateView::SetLoading(loading) => update matches AppUpdate::SetLoading(held)
                && loading == held,
            AppUpdateView::DownloadProgress(name, progress) => update matches
                AppUpdate::DownloadProgress(held, share) && name == held@ && progress == share,
        },
        match action@ {
            DownloadActionView::Start(request) => action matches DownloadAction::Start(held)
                && request == held@,
            DownloadActionView::Queued(told) => action matches DownloadAction::Queued(held)
                && told == held@,
        },
{
    match update {
        AppUpdate::SystemsLoaded(held) => {
            assert(texts(held@) =~= held@.map_values(|text: String| text@));
        },
        AppUpdate::RomsLoaded(held) => {
            assert(rom_views(held@) =~= held@.map_values(|rom: Rom| rom@));
        },
        _ => {},
    }
}

/// The view of an event tells what kind it is and what it carries.
pub proof fn law_event_view(event: Event)
    ensures
        match event@ {
            EventView::Response { content_type, content_length } => event matches Event::Response {
                content_type: held,
                content_length: length,
            } && content_length == length && (content_type is Some <==> held is Some) && (
            held is Some ==> content_type->0 == held->0@),
            EventView::Text(text) => event matches Event::Text(held) && text == held@,
            EventView::FileOpened => event is FileOpened,
            EventView::ChunkWritten(len) => event == Event::ChunkWritten(len),
            EventView::StreamEnded => event is StreamEnded,
            EventView::Unzipped(success) => event == Event::Unzipped(success),
            EventView::ArchiveRemoved => event is ArchiveRemoved,
            EventView::FolderExists(there) => event == Event::FolderExists(there),
            EventView::FolderOpened => event is FolderOpened,
            EventView::Entry(name) => event matches Event::Entry(held) && name == held@,
            EventView::EntriesEnded => event is EntriesEnded,
            EventView::EntryCopied => event is EntryCopied,
            EventView::FolderRemoved => event is FolderRemoved,
            EventView::Failed(reason) => event matches Event::Failed(held) && reason == held@,
        },
{
}

/// The view of a command tells what kind it is and what it names.
pub proof fn law_command_view(command: Command)
    ensures
        match command@ {
            CommandView::Fetch(url) => command matches Command::Fetch(held) && url == held@,
            CommandView::ReadText => command is ReadText,
            CommandView::OpenFile(name) => command matches Command::OpenFile(held) && name == held@,
            CommandView::NextChunk => command is NextChunk,
            CommandView::Unzip { archive, folder } => command matches Command::Unzip {
                archive: from,
                folder: to,
            } && archive == from@ && folder == to@,
            CommandView::RemoveArchive(name) => command matches Command::RemoveArchive(held)
                && name == held@,
            CommandView::LookForFolder(name) => command matches Command::LookForFolder(held)
                && name == held@,
            CommandView::OpenFolder(name) => command matches Command::OpenFolder(held) && name
                == held@,
            CommandView::NextEntry => command is NextEntry,
            CommandView::CopyEntry(name) => command matches Command::CopyEntry(held) && name
                == held@,
            CommandView::RemoveFolder(name) => command matches Command::RemoveFolder(held) && name
                == held@,
            CommandView::Return(result) => command matches Command::Return(held) && (
            result is Ok <==> held is Ok) && (held is Err ==> result->Err_0 == held->Err_0@),
        },
{
}

/// The view of an outcome, of a download and of a result has their parts.
pub proof fn law_download_views(outcome: Outcome, download: Download, result: Result<(), String>)
    ensures
        outcome@.updates == outcome.updates@.map_values(|update: AppUpdate| update@),
        outcome@.console is Some <==> outcome.console is Some,
        outcome.console is Some ==> outcome@.console->0 == outcome.console->0@,
        outcome@.command == outcome.command@,
        download@.rom == download.rom@,
        download@.dest_name is Some <==> download.dest_name is Some,
        download.dest_name is Some ==> download@.dest_name->0 == download.dest_name->0@,
        download@.stage == download.stage,
        result_view(result) is Ok <==> result is Ok,
        result is Err ==> result_view(result)->Err_0 == result->Err_0@,
{
    assert(outcome@.updates =~= outcome.updates@.map_values(|update: AppUpdate| update@));
}

} // verus!
