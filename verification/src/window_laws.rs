//! What holds between the things that the user can do in the window.

use crate::data::{AppUpdateView, RomView};
use crate::model::{is_named, lemma_no_requests, lemma_one_more_request, AppView};
use crate::navigation::{directory_report, rom_report};
use crate::panels::Panel;
use crate::progress::Fraction;
use crate::text::{slash_joined, slash_terminated};
use vstd::prelude::*;

verus! {

/// Messages keep the window's state valid.
pub proof fn law_updates_keep_valid(app: AppView, updates: Seq<AppUpdateView>)
    requires
        app.valid(),
    ensures
        app.after_updates(updates).valid(),
    decreases updates.len(),
{
    if updates.len() > 0 {
        law_updates_keep_valid(app, updates.drop_last());
        let before = app.after_updates(updates.drop_last());
        match updates.last() {
            AppUpdateView::DownloadProgress(filename, _) => {
                assert(forall|fraction: Fraction|
                    (#[trigger] before.download_progress.insert(filename, fraction)).contains_key(
                        filename,
                    ));
            },
            _ => {},
        }
    }
}

/// Asking for files in two goes is asking for them in one.
pub proof fn law_requests_add_up(app: AppView, first: Seq<RomView>, second: Seq<RomView>)
    ensures
        app.after_requests(first).after_requests(second) == app.after_requests(first + second),
        app.actions(first) + app.after_requests(first).actions(second) == app.actions(
            first + second,
        ),
    decreases second.len(),
{
    let then = app.after_requests(first);
    if second.len() == 0 {
        lemma_no_requests(then);
        assert(second =~= Seq::empty());
        assert(first + second =~= first);
        assert(app.actions(first) + then.actions(second) =~= app.actions(first));
    } else {
        let front = second.drop_last();
        law_requests_add_up(app, first, front);
        lemma_one_more_request(then, front, second.last());
        lemma_one_more_request(app, first + front, second.last());
        assert(front.push(second.last()) =~= second);
        assert((first + front).push(second.last()) =~= first + second);
        let last = then.after_requests(front).actions(seq![second.last()]);
        assert(app.actions(first) + (then.actions(front) + last) =~= app.actions(first)
            + then.actions(front) + last);
    }
}

/// With every file ticked, all files are asked for; with none ticked, none is.
pub proof fn law_tick_all_or_none(app: AppView)
    ensures
        app.all_ticked().ticked() == app.roms,
        app.none_ticked().ticked() == Seq::<RomView>::empty(),
{
    let all = app.all_ticked();
    let none = app.none_ticked();
    assert forall|i: int| 0 <= i < app.roms.len() implies #[trigger] all.selected_roms.contains(
        app.roms[i].filename,
    ) by {
        assert(is_named(app.roms, app.roms[i].filename));
    }
    lemma_filter_all(app.roms, |rom: RomView| all.selected_roms.contains(rom.filename));
    lemma_filter_none(app.roms, |rom: RomView| none.selected_roms.contains(rom.filename));
}

proof fn lemma_filter_all(roms: Seq<RomView>, keep: spec_fn(RomView) -> bool)
    requires
        forall|i: int| 0 <= i < roms.len() ==> keep(#[trigger] roms[i]),
    ensures
        roms.filter(keep) == roms,
    decreases roms.len(),
{
    reveal(Seq::filter);
    if roms.len() > 0 {
        let front = roms.drop_last();
        assert forall|i: int| 0 <= i < front.len() implies keep(#[trigger] front[i]) by {
            assert(front[i] == roms[i]);
        }
        lemma_filter_all(front, keep);
        assert(keep(roms[roms.len() - 1]));
        assert(front.push(roms.last()) =~= roms);
    } else {
        assert(roms.filter(keep) =~= roms);
    }
}

proof fn lemma_filter_none(roms: Seq<RomView>, keep: spec_fn(RomView) -> bool)
    requires
        forall|i: int| 0 <= i < roms.len() ==> !keep(#[trigger] roms[i]),
    ensures
        roms.filter(keep) == Seq::<RomView>::empty(),
    decreases roms.len(),
{
    reveal(Seq::filter);
    if roms.len() > 0 {
        let front = roms.drop_last();
        assert forall|i: int| 0 <= i < front.len() implies !keep(#[trigger] front[i]) by {
            assert(front[i] == roms[i]);
        }
        lemma_filter_none(front, keep);
        assert(!keep(roms[roms.len() - 1]));
    } else {
        assert(roms.filter(keep) =~= Seq::empty());
    }
}

/// A tick given and taken away again leaves no trace, and neither does one taken away
/// and given back.
pub proof fn law_ticking_is_undone(app: AppView, filename: Seq<char>)
    ensures
        ({
            let ticked = app.selected_roms.contains(filename);
            app.with_tick(filename, !ticked).with_tick(filename, ticked) == app
        }),
{
    let ticked = app.selected_roms.contains(filename);
    assert(app.with_tick(filename, !ticked).with_tick(filename, ticked).selected_roms
        =~= app.selected_roms);
}

/// A panel that is toggled twice is as it was.
pub proof fn law_toggling_is_undone(app: AppView, panel: Panel)
    ensures
        app.toggled(panel).toggled(panel) == app,
{
}

/// After entering a directory, the breadcrumb of the place it was entered from leads
/// back there; at the root, the way back is the root itself.
pub proof fn law_way_back(app: AppView, system: Seq<char>)
    ensures
        ({
            let inside = app.after_enter(system);
            if app.current_path.len() > 0 {
                inside.after_breadcrumb(app.current_path.len() - 1).current_path
                    == app.current_path
            } else {
                inside.after_root().current_path == app.current_path
            }
        }),
{
    let inside = app.after_enter(system);
    assert(inside.current_path.take(app.current_path.len() as int) =~= app.current_path);
    if app.current_path.len() == 0 {
        assert(app.current_path =~= Seq::empty());
    }
}

/// The path of a directory is the path of the one around it, a slash and its name; at
/// the root it is the name alone.
pub proof fn law_path_of_entered(path: Seq<Seq<char>>, system: Seq<char>)
    ensures
        slash_joined(path.push(system)) == if path.len() == 0 {
            system
        } else {
            slash_joined(path) + "/"@ + system
        },
{
    assert(path.push(system).drop_last() =~= path);
    if path.len() == 0 {
        assert(slash_terminated(path) + system =~= system);
    }
}

/// Moving to another place makes a listing due as soon as none is under way and the
/// panel is open, and asking for it makes it no longer due.
pub proof fn law_listing_follows_move(app: AppView, system: Seq<char>, index: int)
    ensures
        ({
            let can_list = app.show_system_selection && !app.loading;
            &&& app.after_root().listing_due() == can_list
            &&& app.after_breadcrumb(index).listing_due() == can_list
            &&& app.after_enter(system).listing_due() == can_list
        }),
        !(AppView { needs_directory_load: false, ..app }).listing_due(),
{
}

/// Whatever came of a listing of directories, it is no longer under way once it has
/// been reported, and only a listing that succeeded changes what is on offer.
pub proof fn law_directory_listing_settles(app: AppView, outcome: Result<Seq<Seq<char>>, Seq<char>>)
    ensures
        app.after_updates(directory_report(outcome)) == match outcome {
            Ok(directories) => AppView {
                available_systems: directories,
                status_message: "Directories loaded successfully"@,
                loading: false,
                ..app
            },
            Err(reason) => AppView {
                status_message: "Error loading directories: "@ + reason,
                loading: false,
                ..app
            },
        },
{
    reveal_with_fuel(AppView::after_updates, 4);
    let report = directory_report(outcome);
    assert(report.drop_last().last() == report[report.len() - 2]);
    assert(report.drop_last().drop_last().len() == report.len() - 2);
}

/// The same of a listing of files.
pub proof fn law_rom_listing_settles(app: AppView, outcome: Result<Seq<RomView>, Seq<char>>)
    ensures
        app.after_updates(rom_report(outcome)) == match outcome {
            Ok(roms) => AppView {
                roms,
                status_message: "ROMs loaded successfully"@,
                loading: false,
                ..app
            },
            Err(reason) => AppView {
                status_message: "Error loading ROMs: "@ + reason,
                loading: false,
                ..app
            },
        },
{
    reveal_with_fuel(AppView::after_updates, 4);
    let report = rom_report(outcome);
    assert(report.drop_last().last() == report[report.len() - 2]);
    assert(report.drop_last().drop_last().len() == report.len() - 2);
}

/// The window after the user enters directories, one in the other.
pub open spec fn after_enters(app: AppView, systems: Seq<Seq<char>>) -> AppView
    decreases systems.len(),
{
    if systems.len() == 0 {
        app
    } else {
        after_enters(app, systems.drop_last()).after_enter(systems.last())
    }
}

/// A breadcrumb leads to the directory that it names, however many levels up that is:
/// the path up to it stays and the rest goes. What was on offer there is to be looked up
/// anew; the chosen directory and all else stay as they were. A breadcrumb beyond the
/// path leads nowhere else.
pub proof fn law_breadcrumb(app: AppView, index: int)
    requires
        0 <= index,
    ensures
        ({
            let then = app.after_breadcrumb(index);
            &&& index < app.current_path.len() ==> {
                &&& then.current_path.len() == index + 1
                &&& then.current_path.is_prefix_of(app.current_path)
                &&& then.current_path.last() == app.current_path[index]
            }
            &&& index >= app.current_path.len() ==> then.current_path == app.current_path
            &&& then.available_systems.len() == 0 && then.roms.len() == 0
            &&& then.needs_directory_load
            &&& then == AppView {
                current_path: then.current_path,
                available_systems: then.available_systems,
                needs_directory_load: then.needs_directory_load,
                roms: then.roms,
                ..app
            }
        }),
{
    assert(app.after_breadcrumb(index).current_path.is_prefix_of(app.current_path));
}

/// Entering directories makes the path longer by their names, in their order.
pub proof fn law_entering_adds_up(app: AppView, systems: Seq<Seq<char>>)
    ensures
        after_enters(app, systems).current_path == app.current_path + systems,
    decreases systems.len(),
{
    if systems.len() > 0 {
        law_entering_adds_up(app, systems.drop_last());
        assert(app.current_path + systems =~= (app.current_path + systems.drop_last()).push(
            systems.last(),
        ));
    } else {
        assert(app.current_path + systems =~= app.current_path);
    }
}

/// However many directories have been entered, one in the other, from a place below the
/// root, the breadcrumb of that place leads back to it; and the root is reached from
/// anywhere.
pub proof fn law_way_back_from_any_depth(app: AppView, systems: Seq<Seq<char>>)
    ensures
        app.current_path.len() > 0 ==> after_enters(app, systems).after_breadcrumb(
            app.current_path.len() - 1,
        ).current_path == app.current_path,
        after_enters(app, systems).after_root().current_path.len() == 0,
{
    law_entering_adds_up(app, systems);
    if app.current_path.len() > 0 {
        assert((app.current_path + systems).take(app.current_path.len() as int)
            =~= app.current_path);
    }
}

/// A breadcrumb after another is the one that leads further up.
pub proof fn law_breadcrumbs_compose(app: AppView, first: int, second: int)
    requires
        0 <= first,
        0 <= second,
    ensures
        app.after_breadcrumb(first).after_breadcrumb(second).current_path == app.after_breadcrumb(
            if first <= second {
                first
            } else {
                second
            },
        ).current_path,
{
    assert(app.after_breadcrumb(first).after_breadcrumb(second).current_path
        =~= app.after_breadcrumb(
        if first <= second {
            first
        } else {
            second
        },
    ).current_path);
}

/// At the root no directory is chosen, nothing is on offer, and what is there is to be
/// looked up. Nothing else changes.
pub proof fn law_root(app: AppView)
    ensures
        ({
            let then = app.after_root();
            &&& then.current_path.len() == 0 && then.selected_system.len() == 0
            &&& then.available_systems.len() == 0 && then.roms.len() == 0
            &&& then.needs_directory_load
            &&& then == AppView {
                current_path: then.current_path,
                selected_system: then.selected_system,
                available_systems: then.available_systems,
                needs_directory_load: then.needs_directory_load,
                roms: then.roms,
                ..app
            }
        }),
{
}

/// A directory that is entered is the chosen one and the last of the path; the
/// directories in it are to be looked up. The files on show stay until others come, and
/// nothing else changes.
pub proof fn law_enter(app: AppView, system: Seq<char>)
    ensures
        ({
            let then = app.after_enter(system);
            &&& then.current_path.len() == app.current_path.len() + 1
            &&& app.current_path.is_prefix_of(then.current_path)
            &&& then.current_path.last() == system && then.selected_system == system
            &&& then.available_systems.len() == 0
            &&& then.needs_directory_load
            &&& then == AppView {
                current_path: then.current_path,
                selected_system: then.selected_system,
                available_systems: then.available_systems,
                needs_directory_load: then.needs_directory_load,
                ..app
            }
        }),
{
    assert(app.current_path.is_prefix_of(app.after_enter(system).current_path));
}

/// A listing is due exactly when it is wanted, the panel is open and none is under way;
/// nothing else in the window bears on that.
pub proof fn law_when_listing_is_due(app: AppView)
    ensures
        app.listing_due() <==> app.needs_directory_load && app.show_system_selection
            && !app.loading,
{
}

/// The path of the root is empty.
pub proof fn law_path_of_root(path: Seq<Seq<char>>)
    ensures
        path.len() == 0 ==> slash_joined(path).len() == 0,
{
}

/// A listing that succeeded hands over what it found, says so and ends; one that failed
/// says why and ends. No other message comes.
pub proof fn law_listing_reports(
    directories: Seq<Seq<char>>,
    roms: Seq<RomView>,
    reason: Seq<char>,
)
    ensures
        ({
            let found = directory_report(Ok(directories));
            &&& found.len() == 3
            &&& found[0] == AppUpdateView::SystemsLoaded(directories)
            &&& found[1] == AppUpdateView::SetStatus("Directories loaded successfully"@)
            &&& found[2] == AppUpdateView::SetLoading(false)
        }),
        ({
            let failed = directory_report(Err(reason));
            &&& failed.len() == 2
            &&& failed[0] == AppUpdateView::SetStatus("Error loading directories: "@ + reason)
            &&& failed[1] == AppUpdateView::SetLoading(false)
        }),
        ({
            let found = rom_report(Ok(roms));
            &&& found.len() == 3
            &&& found[0] == AppUpdateView::RomsLoaded(roms)
            &&& found[1] == AppUpdateView::SetStatus("ROMs loaded successfully"@)
            &&& found[2] == AppUpdateView::SetLoading(false)
        }),
        ({
            let failed = rom_report(Err(reason));
            &&& failed.len() == 2
            &&& failed[0] == AppUpdateView::SetStatus("Error loading ROMs: "@ + reason)
            &&& failed[1] == AppUpdateView::SetLoading(false)
        }),
{
}

/// A tick concerns the file it is given to and no other; ticking all ticks the names of
/// the list, whether the search shows them or not, and only those; taking all ticks away
/// leaves none. Nothing but the ticks changes.
pub proof fn law_ticks(app: AppView, filename: Seq<char>, ticked: bool, other: Seq<char>)
    ensures
        ({
            let then = app.with_tick(filename, ticked);
            &&& then.selected_roms.contains(filename) == ticked
            &&& other != filename ==> then.selected_roms.contains(other)
                == app.selected_roms.contains(other)
            &&& then == AppView { selected_roms: then.selected_roms, ..app }
        }),
        ({
            let then = app.all_ticked();
            &&& then.selected_roms.contains(other) <==> exists|i: int|
                0 <= i < app.roms.len() && (#[trigger] app.roms[i]).filename == other
            &&& then == AppView { selected_roms: then.selected_roms, ..app }
        }),
        ({
            let then = app.none_ticked();
            &&& !then.selected_roms.contains(other)
            &&& then == AppView { selected_roms: then.selected_roms, ..app }
        }),
{
}

/// Toggling a panel turns its own state over and touches nothing else.
pub proof fn law_toggle(app: AppView, panel: Panel)
    ensures
        ({
            let then = app.toggled(panel);
            &&& then.show_filter_options == (app.show_filter_options != (panel
                == Panel::FilterOptions))
            &&& then.show_system_selection == (app.show_system_selection != (panel
                == Panel::SystemSelection))
            &&& then.show_download_settings == (app.show_download_settings != (panel
                == Panel::DownloadSettings))
            &&& then.show_queue_window == (app.show_queue_window != (panel == Panel::Queue))
            &&& then == AppView {
                show_filter_options: then.show_filter_options,
                show_system_selection: then.show_system_selection,
                show_download_settings: then.show_download_settings,
                show_queue_window: then.show_queue_window,
                ..app
            }
        }),
{
}

/// Changing the patterns changes nothing but the patterns.
pub proof fn law_patterns(app: AppView, patterns: Seq<Seq<char>>)
    ensures
        ({
            let then = app.with_patterns(patterns);
            &&& then.filter_options.exclude_patterns == patterns
            &&& then.filter_options.region_limit == app.filter_options.region_limit
            &&& then.filter_options.region == app.filter_options.region
            &&& then.filter_options.smart_filters == app.filter_options.smart_filters
            &&& then.filter_options.latest_revision == app.filter_options.latest_revision
            &&& then == AppView { filter_options: then.filter_options, ..app }
        }),
{
}

/// When the program starts, nothing is listed, ticked, asked for or under way, every
/// panel is closed, the directories at the root are to be looked up, and the settings
/// are the ones that the program comes with.
pub proof fn law_beginning()
    ensures
        ({
            let app = AppView::initial();
            &&& app.available_systems.len() == 0 && app.roms.len() == 0
            &&& app.current_path.len() == 0 && app.selected_system.len() == 0
            &&& app.status_message.len() == 0 && app.search_term.len() == 0
            &&& app.download_queue.len() == 0 && app.active_downloads == 0
            &&& forall|name: Seq<char>| !(#[trigger] app.download_progress.contains_key(name))
            &&& forall|name: Seq<char>| !(#[trigger] app.selected_roms.contains(name))
            &&& !app.loading && !app.has_active_downloads && app.needs_directory_load
            &&& !app.show_filter_options && !app.show_system_selection
            &&& !app.show_download_settings && !app.show_queue_window
            &&& app.download_path == "downloads"@ && app.max_concurrent_downloads == 8
            &&& app.filter_options.region_limit && app.filter_options.region == "USA"@
            &&& app.filter_options.smart_filters && app.filter_options.latest_revision
            &&& app.filter_options.exclude_patterns.len() == 0
        }),
{
}

} // verus!
