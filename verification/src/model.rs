//! The state of the window, and what each occurrence makes of it, in contracts.

use crate::data::{AppUpdateView, FilterOptionsView, RomView};
use crate::progress::{nothing_yet, Fraction, Progress};
use vstd::prelude::*;

verus! {

/// What the window knows.
#[verifier::ext_equal]
pub struct AppView {
    pub filter_options: FilterOptionsView,
    pub selected_system: Seq<char>,
    pub available_systems: Seq<Seq<char>>,
    pub download_path: Seq<char>,
    pub status_message: Seq<char>,
    pub roms: Seq<RomView>,
    pub loading: bool,
    pub download_progress: Map<Seq<char>, Fraction>,
    pub has_active_downloads: bool,
    pub show_filter_options: bool,
    pub show_system_selection: bool,
    pub show_download_settings: bool,
    pub current_path: Seq<Seq<char>>,
    pub needs_directory_load: bool,
    pub selected_roms: Set<Seq<char>>,
    pub search_term: Seq<char>,
    pub max_concurrent_downloads: nat,
    pub download_queue: Seq<RomView>,
    pub active_downloads: nat,
    pub show_queue_window: bool,
}

/// A download to set going: the file, and the directory that it is to go to.
pub struct DownloadRequestView {
    pub rom: RomView,
    pub download_path: Seq<char>,
}

/// What becomes of a file that the user asks for.
pub enum DownloadActionView {
    /// It is downloaded at once.
    Start(DownloadRequestView),
    /// It waits in the queue; the user is told so.
    Queued(AppUpdateView),
}

/// What the user is told of a file that has to wait.
pub open spec fn queued_text(filename: Seq<char>) -> Seq<char> {
    "Queued "@ + filename + " for download"@
}

impl AppView {
    /// The window when the program starts.
    pub open spec fn initial() -> AppView {
        AppView {
            filter_options: FilterOptionsView {
                region_limit: true,
                region: "USA"@,
                smart_filters: true,
                exclude_patterns: Seq::empty(),
                latest_revision: true,
            },
            selected_system: Seq::empty(),
            available_systems: Seq::empty(),
            download_path: "downloads"@,
            status_message: Seq::empty(),
            roms: Seq::empty(),
            loading: false,
            download_progress: Map::empty(),
            has_active_downloads: false,
            show_filter_options: false,
            show_system_selection: false,
            show_download_settings: false,
            current_path: Seq::empty(),
            needs_directory_load: true,
            selected_roms: Set::empty(),
            search_term: Seq::empty(),
            max_concurrent_downloads: 8,
            download_queue: Seq::empty(),
            active_downloads: 0,
            show_queue_window: false,
        }
    }

    /// The count of active downloads keeps to the limit, and where downloads are
    /// said to be active, at least one has a line in the table of progress.
    pub open spec fn valid(self) -> bool {
        &&& self.active_downloads <= self.max_concurrent_downloads
        &&& self.has_active_downloads ==> self.download_progress != Map::<
            Seq<char>,
            Fraction,
        >::empty()
    }

    /// The request to download `rom` to where the window says.
    pub open spec fn request(self, rom: RomView) -> DownloadRequestView {
        DownloadRequestView { rom, download_path: self.download_path }
    }

    /// Whether the end of a download lets the first file of the queue start.
    pub open spec fn queue_moves(self) -> bool {
        self.download_queue.len() > 0 && !self.loading
    }

    /// The table of progress once the download of `filename` is over.
    pub open spec fn progress_after_finish(self, filename: Seq<char>) -> Map<Seq<char>, Fraction> {
        let others = self.download_progress.remove(filename);
        if self.queue_moves() {
            others.insert(self.download_queue[0].filename, nothing_yet())
        } else {
            others
        }
    }

    /// The download of `filename` is over.
    pub open spec fn after_finish(self, filename: Seq<char>) -> AppView {
        let progress = self.progress_after_finish(filename);
        AppView {
            download_progress: progress,
            active_downloads: if self.active_downloads > 0 {
                (self.active_downloads - 1) as nat
            } else {
                0
            },
            download_queue: if self.queue_moves() {
                self.download_queue.skip(1)
            } else {
                self.download_queue
            },
            has_active_downloads: self.has_active_downloads && progress != Map::<
                Seq<char>,
                Fraction,
            >::empty(),
            ..self
        }
    }

    /// A message has come in.
    pub open spec fn after_update(self, update: AppUpdateView) -> AppView {
        match update {
            AppUpdateView::SystemsLoaded(systems) => AppView { available_systems: systems, ..self },
            AppUpdateView::RomsLoaded(roms) => AppView { roms, ..self },
            AppUpdateView::SetStatus(message) => AppView { status_message: message, ..self },
            AppUpdateView::SetLoading(loading) => AppView { loading, ..self },
            AppUpdateView::DownloadProgress(filename, Progress::Running(fraction)) => AppView {
                download_progress: self.download_progress.insert(filename, fraction),
                has_active_downloads: true,
                ..self
            },
            AppUpdateView::DownloadProgress(filename, Progress::Finished) => self.after_finish(
                filename,
            ),
        }
    }

    /// Messages have come in, in this order.
    pub open spec fn after_updates(self, updates: Seq<AppUpdateView>) -> AppView
        decreases updates.len(),
    {
        if updates.len() == 0 {
            self
        } else {
            self.after_updates(updates.drop_last()).after_update(updates.last())
        }
    }

    /// The download that a message sets going.
    pub open spec fn started_by_update(self, update: AppUpdateView) -> Option<DownloadRequestView> {
        match update {
            AppUpdateView::DownloadProgress(_, Progress::Finished) if self.queue_moves() => Some(
                self.request(self.download_queue[0]),
            ),
            _ => None,
        }
    }

    /// How many more files can start at once.
    pub open spec fn room(self) -> nat {
        if self.active_downloads < self.max_concurrent_downloads {
            (self.max_concurrent_downloads - self.active_downloads) as nat
        } else {
            0
        }
    }

    /// How many of `count` files start at once; they are the first ones.
    pub open spec fn starting(self, count: nat) -> nat {
        if count <= self.room() {
            count
        } else {
            self.room()
        }
    }

    /// The user asks for files, in this order: as many as there is room for start,
    /// and the others join the queue.
    pub open spec fn after_requests(self, roms: Seq<RomView>) -> AppView {
        let count = self.starting(roms.len()) as int;
        AppView {
            active_downloads: self.active_downloads + count as nat,
            download_progress: mark_started(self.download_progress, roms.take(count)),
            download_queue: self.download_queue + roms.skip(count),
            ..self
        }
    }

    /// What becomes of each of the files that the user asks for.
    pub open spec fn actions(self, roms: Seq<RomView>) -> Seq<DownloadActionView> {
        Seq::new(
            roms.len(),
            |i: int|
                if i < self.starting(roms.len()) {
                    DownloadActionView::Start(self.request(roms[i]))
                } else {
                    DownloadActionView::Queued(
                        AppUpdateView::SetStatus(queued_text(roms[i].filename)),
                    )
                },
        )
    }

    /// The files that are ticked, in the order of the list.
    pub open spec fn ticked(self) -> Seq<RomView> {
        self.roms.filter(|rom: RomView| self.selected_roms.contains(rom.filename))
    }
}

/// `filename` is the name of one of `roms`.
pub open spec fn is_named(roms: Seq<RomView>, filename: Seq<char>) -> bool {
    exists|i: int| 0 <= i < roms.len() && (#[trigger] roms[i]).filename == filename
}

/// The table of progress with a fresh line for each of `roms`.
pub open spec fn mark_started(
    progress: Map<Seq<char>, Fraction>,
    roms: Seq<RomView>,
) -> Map<Seq<char>, Fraction> {
    Map::new(
        |filename: Seq<char>| progress.contains_key(filename) || is_named(roms, filename),
        |filename: Seq<char>|
            if is_named(roms, filename) {
                nothing_yet()
            } else {
                progress[filename]
            },
    )
}

/// Asking for files keeps the window's state valid.
pub proof fn law_requests_keep_valid(app: AppView, roms: Seq<RomView>)
    requires
        app.valid(),
    ensures
        app.after_requests(roms).valid(),
{
    let none = Map::<Seq<char>, Fraction>::empty();
    if app.download_progress != none {
        assert(exists|filename: Seq<char>| app.download_progress.contains_key(filename)) by {
            if forall|filename: Seq<char>| !app.download_progress.contains_key(filename) {
                assert(app.download_progress =~= none);
            }
        }
        let filename = choose|filename: Seq<char>| app.download_progress.contains_key(filename);
        assert(app.after_requests(roms).download_progress.contains_key(filename));
    }
}

/// Asking for nothing changes nothing.
pub(crate) proof fn lemma_no_requests(app: AppView)
    ensures
        app.after_requests(Seq::empty()) == app,
{
    let none = Seq::<RomView>::empty();
    assert(mark_started(app.download_progress, none.take(0)) =~= app.download_progress);
    assert(app.download_queue + none.skip(0) =~= app.download_queue);
}

/// Asking for one file more is asking for the others and then for that one.
pub(crate) proof fn lemma_one_more_request(app: AppView, roms: Seq<RomView>, rom: RomView)
    ensures
        app.after_requests(roms).after_requests(seq![rom]) == app.after_requests(roms.push(rom)),
        app.actions(roms) + app.after_requests(roms).actions(seq![rom]) == app.actions(
            roms.push(rom),
        ),
{
    let more = roms.push(rom);
    let then = app.after_requests(roms);
    let count = app.starting(roms.len()) as int;
    let extra = then.starting(1) as int;
    let total = app.starting(more.len()) as int;
    assert(total == count + extra);
    assert(seq![rom].take(extra).len() == extra);
    assert(more.take(total) =~= roms.take(count) + seq![rom].take(extra)) by {
        if extra == 1 {
            assert(count == roms.len());
        }
    }
    assert(more.skip(total) =~= roms.skip(count) + seq![rom].skip(extra));
    let both = roms.take(count) + seq![rom].take(extra);
    assert forall|filename: Seq<char>| #[trigger] is_named(both, filename) == (is_named(
        roms.take(count),
        filename,
    ) || is_named(seq![rom].take(extra), filename)) by {
        if is_named(roms.take(count), filename) {
            let i = choose|i: int|
                0 <= i < count && (#[trigger] roms.take(count)[i]).filename == filename;
            assert(both[i].filename == filename);
        }
        if is_named(seq![rom].take(extra), filename) {
            assert(both[count].filename == filename);
        }
        if is_named(both, filename) {
            let i = choose|i: int| 0 <= i < both.len() && (#[trigger] both[i]).filename == filename;
            if i < count {
                assert(roms.take(count)[i].filename == filename);
            } else {
                assert(seq![rom].take(extra)[0].filename == filename);
            }
        }
    }
    assert(mark_started(
        mark_started(app.download_progress, roms.take(count)),
        seq![rom].take(extra),
    ) =~= mark_started(app.download_progress, more.take(total)));
    assert(then.after_requests(seq![rom]).download_queue =~= app.after_requests(
        more,
    ).download_queue);
    assert(app.actions(roms) + then.actions(seq![rom]) =~= app.actions(more));
}

} // verus!
