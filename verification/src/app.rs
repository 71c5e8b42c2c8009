//! The window's state and the handlers of messages and clicks.

use crate::data::{rom_views, AppUpdate, FilterOptions, Rom, RomView};
use crate::model::{
    lemma_no_requests, lemma_one_more_request, mark_started, AppView, DownloadActionView,
    DownloadRequestView,
};
use crate::progress::{Fraction, Progress, ProgressTable};
use crate::text::{enclose, texts};
use vstd::hash_set::StringHashSet;
use vstd::prelude::*;

verus! {

/// A download to set going: the file, and the directory that it is to go to.
#[derive(Debug, PartialEq, Eq)]
pub struct DownloadRequest {
    pub rom: Rom,
    pub download_path: String,
}

impl View for DownloadRequest {
    type V = DownloadRequestView;

    open spec fn view(&self) -> DownloadRequestView {
        DownloadRequestView { rom: self.rom@, download_path: self.download_path@ }
    }
}

/// What becomes of a file that the user asks for.
#[derive(Debug, PartialEq, Eq)]
pub enum DownloadAction {
    /// It is downloaded at once.
    Start(DownloadRequest),
    /// It waits in the queue; this message tells the user so.
    Queued(AppUpdate),
}

impl View for DownloadAction {
    type V = DownloadActionView;

    open spec fn view(&self) -> DownloadActionView {
        match self {
            DownloadAction::Start(request) => DownloadActionView::Start(request@),
            DownloadAction::Queued(update) => DownloadActionView::Queued(update@),
        }
    }
}

/// The actions of a list, in contracts.
pub open spec fn action_views(actions: Seq<DownloadAction>) -> Seq<DownloadActionView> {
    Seq::new(actions.len(), |i: int| actions[i]@)
}

/// The state of the window.
pub struct MyrientApp {
    pub filter_options: FilterOptions,
    pub selected_system: String,
    pub available_systems: Vec<String>,
    pub download_path: String,
    pub status_message: String,
    pub roms: Vec<Rom>,
    pub loading: bool,
    pub download_progress: ProgressTable,
    pub has_active_downloads: bool,
    pub show_filter_options: bool,
    pub show_system_selection: bool,
    pub show_download_settings: bool,
    pub current_path: Vec<String>,
    pub needs_directory_load: bool,
    pub selected_roms: StringHashSet,
    pub search_term: String,
    pub max_concurrent_downloads: usize,
    pub download_queue: Vec<Rom>,
    pub active_downloads: usize,
    pub show_queue_window: bool,
}

impl View for MyrientApp {
    type V = AppView;

    open spec fn view(&self) -> AppView {
        AppView {
            filter_options: self.filter_options@,
            selected_system: self.selected_system@,
            available_systems: texts(self.available_systems@),
            download_path: self.download_path@,
            status_message: self.status_message@,
            roms: rom_views(self.roms@),
            loading: self.loading,
            download_progress: self.download_progress@,
            has_active_downloads: self.has_active_downloads,
            show_filter_options: self.show_filter_options,
            show_system_selection: self.show_system_selection,
            show_download_settings: self.show_download_settings,
            current_path: texts(self.current_path@),
            needs_directory_load: self.needs_directory_load,
            selected_roms: self.selected_roms@,
            search_term: self.search_term@,
            max_concurrent_downloads: self.max_concurrent_downloads as nat,
            download_queue: rom_views(self.download_queue@),
            active_downloads: self.active_downloads as nat,
            show_queue_window: self.show_queue_window,
        }
    }
}

impl Default for MyrientApp {
    /// The window when the program starts.
    fn default() -> (app: Self)
        ensures
            app@ == AppView::initial(),
            app@.valid(),
    {
        let app = MyrientApp {
            filter_options: FilterOptions {
                region_limit: true,
                region: "USA".to_owned(),
                smart_filters: true,
                exclude_patterns: Vec::new(),
                latest_revision: true,
            },
            selected_system: String::new(),
            available_systems: Vec::new(),
            download_path: "downloads".to_owned(),
            status_message: String::new(),
            roms: Vec::new(),
            loading: false,
            download_progress: ProgressTable::new(),
            has_active_downloads: false,
            show_filter_options: false,
            show_system_selection: false,
            show_download_settings: false,
            current_path: Vec::new(),
            needs_directory_load: true,
            selected_roms: StringHashSet::new(),
            search_term: String::new(),
            max_concurrent_downloads: 8,
            download_queue: Vec::new(),
            active_downloads: 0,
            show_queue_window: false,
        };
        assert(app@ =~= AppView::initial());
        app
    }
}

impl MyrientApp {
    /// Takes in a message. The result is the download that it sets going, if any.
    pub fn handle_update(&mut self, update: AppUpdate) -> (started: Option<DownloadRequest>)
        ensures
            final(self)@ == old(self)@.after_update(update@),
            match started {
                Some(request) => old(self)@.started_by_update(update@) == Some(request@),
                None => old(self)@.started_by_update(update@) is None,
            },
            started is Some <==> old(self).download_queue@.len() > 0 && !old(self).loading && (
            update matches AppUpdate::DownloadProgress(_, Progress::Finished)),
            started matches Some(request) ==> request.download_path@ == old(self).download_path@
                && request.rom@ == old(self).download_queue@[0]@
                && final(self).download_queue@.len() == old(self).download_queue@.len() - 1,
            old(self)@.valid() ==> final(self)@.valid(),
    {
        match update {
            AppUpdate::SystemsLoaded(systems) => {
                self.available_systems = systems;
                None
            },
            AppUpdate::RomsLoaded(roms) => {
                self.roms = roms;
                None
            },
            AppUpdate::SetStatus(message) => {
                self.status_message = message;
                None
            },
            AppUpdate::SetLoading(loading) => {
                self.loading = loading;
                None
            },
            AppUpdate::DownloadProgress(filename, progress) => {
                match progress {
                    Progress::Running(fraction) => {
                        self.download_progress.insert(filename, fraction);
                        self.has_active_downloads = true;
                        assert(self.download_progress@.contains_key(filename@));
                        None
                    },
                    Progress::Finished => {
                        let started = self.finish_download(&filename);
                        assert(self@.download_queue.len() == self.download_queue@.len());
                        assert(old(self)@.download_queue.len() == old(self).download_queue@.len());
                        started
                    },
                }
            },
        }
    }

    /// Takes note that the download of `filename` is over, and lets the first file of
    /// the queue start, unless a listing is under way.
    fn finish_download(&mut self, filename: &String) -> (started: Option<DownloadRequest>)
        ensures
            final(self)@ == old(self)@.after_finish(filename@),
            started is Some <==> old(self)@.queue_moves(),
            started matches Some(request) ==> request@ == old(self)@.request(
                old(self)@.download_queue[0],
            ),
    {
        self.download_progress.remove(filename);
        if self.active_downloads > 0 {
            self.active_downloads = self.active_downloads - 1;
        }
        let mut started: Option<DownloadRequest> = None;
        if !self.download_queue.is_empty() && !self.loading {
            let rom = self.download_queue.remove(0);
            assert(rom_views(self.download_queue@) =~= old(self)@.download_queue.skip(1));
            self.download_progress.insert(
                rom.filename.clone(),
                Fraction { downloaded: 0, total: 1 },
            );
            started = Some(DownloadRequest { rom, download_path: self.download_path.clone() });
        }
        if self.download_progress.is_empty() {
            self.has_active_downloads = false;
        }
        started
    }

    /// Starts the download of `rom` if the limit allows one more, and queues it if not.
    pub(crate) fn start_or_queue(&mut self, rom: Rom) -> (action: DownloadAction)
        ensures
            final(self)@ == old(self)@.after_requests(seq![rom@]),
            seq![action@] == old(self)@.actions(seq![rom@]),
            action is Start <==> old(self).active_downloads < old(self).max_concurrent_downloads,
            action matches DownloadAction::Start(request) ==> request.download_path@ == old(
                self,
            ).download_path@ && request.rom@ == rom@,
    {
        if self.active_downloads < self.max_concurrent_downloads {
            self.active_downloads = self.active_downloads + 1;
            self.download_progress.insert(
                rom.filename.clone(),
                Fraction { downloaded: 0, total: 1 },
            );
            proof {
                assert(seq![rom@].take(1)[0] == rom@);
                assert(self.download_progress@ =~= mark_started(
                    old(self)@.download_progress,
                    seq![rom@].take(1),
                ));
                assert(self@.download_queue =~= old(self)@.download_queue + seq![rom@].skip(1));
            }
            let action = DownloadAction::Start(
                DownloadRequest { rom, download_path: self.download_path.clone() },
            );
            assert(seq![action@] =~= old(self)@.actions(seq![rom@]));
            action
        } else {
            let message = enclose("Queued ", rom.filename.as_str(), " for download");
            let ghost asked = rom@;
            self.download_queue.push(rom);
            proof {
                assert(self@.download_progress =~= mark_started(
                    old(self)@.download_progress,
                    seq![asked].take(0),
                ));
                assert(self@.download_queue =~= old(self)@.download_queue + seq![asked].skip(0));
            }
            let action = DownloadAction::Queued(AppUpdate::SetStatus(message));
            assert(seq![action@] =~= old(self)@.actions(seq![asked]));
            action
        }
    }

    /// Starts or queues the files of a list, in their order.
    pub(crate) fn start_or_queue_all(&mut self, roms: Vec<Rom>) -> (actions: Vec<DownloadAction>)
        ensures
            final(self)@ == old(self)@.after_requests(rom_views(roms@)),
            action_views(actions@) == old(self)@.actions(rom_views(roms@)),
    {
        let ghost asked = rom_views(roms@);
        let mut actions: Vec<DownloadAction> = Vec::new();
        let mut i: usize = 0;
        proof {
            lemma_no_requests(self@);
            assert(asked.take(0) =~= Seq::<RomView>::empty());
            assert(action_views(actions@) =~= self@.actions(asked.take(0)));
        }
        while i < roms.len()
            invariant
                i <= roms@.len(),
                asked == rom_views(roms@),
                self@ == old(self)@.after_requests(asked.take(i as int)),
                action_views(actions@) == old(self)@.actions(asked.take(i as int)),
            decreases roms@.len() - i,
        {
            let ghost earlier = actions@;
            let rom = roms[i].clone();
            let action = self.start_or_queue(rom);
            proof {
                lemma_one_more_request(old(self)@, asked.take(i as int), rom@);
                assert(asked.take(i as int).push(rom@) =~= asked.take(i + 1));
            }
            actions.push(action);
            proof {
                assert(action_views(actions@) =~= action_views(earlier) + seq![action@]);
            }
            i = i + 1;
        }
        assert(asked.take(roms@.len() as int) =~= asked);
        actions
    }
}

} // verus!
