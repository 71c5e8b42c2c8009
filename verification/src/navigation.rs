//! Moving through the directories, and the listings that this asks for.

use crate::app::MyrientApp;
use crate::data::{rom_views, update_views, AppUpdate, AppUpdateView, FilterOptions, Rom, RomView};
use crate::model::AppView;
use crate::text::{join_with_slashes, slash_joined, texts};
use vstd::prelude::*;
use vstd::string::*;

verus! {

/// A listing of directories to ask for: first `announcement` goes to the window, then
/// the directories at `path` are looked up.
#[derive(Debug, PartialEq, Eq)]
pub struct DirectoryRequest {
    pub announcement: AppUpdate,
    pub filter_options: FilterOptions,
    pub path: String,
}

/// A listing of files to ask for: first `announcement` goes to the window, then the
/// files of `system`, a directory at `subdir`, are looked up.
#[derive(Debug, PartialEq, Eq)]
pub struct RomRequest {
    pub announcement: AppUpdate,
    pub filter_options: FilterOptions,
    pub system: String,
    pub subdir: String,
}

impl AppView {
    /// The user goes back to the root.
    pub open spec fn after_root(self) -> AppView {
        AppView {
            current_path: Seq::empty(),
            available_systems: Seq::empty(),
            selected_system: Seq::empty(),
            needs_directory_load: true,
            roms: Seq::empty(),
            ..self
        }
    }

    /// The user goes back to a directory on the way to the current one.
    pub open spec fn after_breadcrumb(self, index: int) -> AppView {
        AppView {
            current_path: if index + 1 <= self.current_path.len() {
                self.current_path.take(index + 1)
            } else {
                self.current_path
            },
            available_systems: Seq::empty(),
            needs_directory_load: true,
            roms: Seq::empty(),
            ..self
        }
    }

    /// The user enters a directory.
    pub open spec fn after_enter(self, system: Seq<char>) -> AppView {
        AppView {
            current_path: self.current_path.push(system),
            available_systems: Seq::empty(),
            selected_system: system,
            needs_directory_load: true,
            ..self
        }
    }

    /// Whether the directories at the current place are to be looked up now.
    pub open spec fn listing_due(self) -> bool {
        self.show_system_selection && self.needs_directory_load && !self.loading
    }
}

impl MyrientApp {
    /// Goes back to the root.
    pub fn go_to_root(&mut self)
        ensures
            final(self)@ == old(self)@.after_root(),
    {
        self.current_path.clear();
        self.available_systems.clear();
        self.selected_system = String::new();
        self.needs_directory_load = true;
        self.roms.clear();
        assert(self@ =~= old(self)@.after_root());
    }

    /// Goes back to the directory that stands at `index` in the current path.
    pub fn go_to_breadcrumb(&mut self, index: usize)
        requires
            index < usize::MAX,
        ensures
            final(self)@ == old(self)@.after_breadcrumb(index as int),
            index < old(self).current_path@.len() ==> final(self).current_path@ == old(
                self,
            ).current_path@.take(index + 1),
    {
        self.current_path.truncate(index + 1);
        self.available_systems.clear();
        self.needs_directory_load = true;
        self.roms.clear();
        assert(self@ =~= old(self)@.after_breadcrumb(index as int));
    }

    /// Enters a directory. The files in it are to be looked up.
    pub fn enter_system(&mut self, system: String) -> (request: RomRequest)
        ensures
            final(self)@ == old(self)@.after_enter(system@),
            request.announcement@ == AppUpdateView::SetLoading(true),
            request.filter_options@ == old(self)@.filter_options,
            request.system@ == system@,
            request.subdir@ == slash_joined(old(self)@.current_path),
    {
        self.current_path.push(system.clone());
        self.available_systems.clear();
        self.selected_system = system.clone();
        self.needs_directory_load = true;
        let depth = self.current_path.len() - 1;
        let subdir = join_with_slashes(&self.current_path, depth);
        proof {
            assert(texts(self.current_path@) =~= old(self)@.current_path.push(system@));
            assert(texts(self.current_path@).take(depth as int) =~= old(self)@.current_path);
            assert(self@ =~= old(self)@.after_enter(system@));
        }
        RomRequest {
            announcement: AppUpdate::SetLoading(true),
            filter_options: self.filter_options.clone(),
            system,
            subdir,
        }
    }

    /// The listing of directories that is due, if one is. It is asked for once.
    pub fn take_directory_request(&mut self) -> (request: Option<DirectoryRequest>)
        ensures
            request is Some <==> old(self)@.listing_due(),
            match request {
                Some(request) => final(self)@ == (AppView {
                    needs_directory_load: false,
                    ..old(self)@
                }) && request.announcement@ == AppUpdateView::SetLoading(true)
                    && request.filter_options@ == old(self)@.filter_options && request.path@
                    == slash_joined(old(self)@.current_path),
                None => final(self)@ == old(self)@,
            },
    {
        if self.show_system_selection && self.needs_directory_load && !self.loading {
            self.needs_directory_load = false;
            let depth = self.current_path.len();
            let path = join_with_slashes(&self.current_path, depth);
            assert(texts(self.current_path@).take(depth as int) =~= texts(self.current_path@));
            Some(
                DirectoryRequest {
                    announcement: AppUpdate::SetLoading(true),
                    filter_options: self.filter_options.clone(),
                    path,
                },
            )
        } else {
            None
        }
    }
}

/// What the window is told of a listing of directories.
pub open spec fn directory_report(outcome: Result<Seq<Seq<char>>, Seq<char>>) -> Seq<
    AppUpdateView,
> {
    match outcome {
        Ok(directories) => seq![
            AppUpdateView::SystemsLoaded(directories),
            AppUpdateView::SetStatus("Directories loaded successfully"@),
            AppUpdateView::SetLoading(false),
        ],
        Err(reason) => seq![
            AppUpdateView::SetStatus("Error loading directories: "@ + reason),
            AppUpdateView::SetLoading(false),
        ],
    }
}

/// What the window is told of a listing of files.
pub open spec fn rom_report(outcome: Result<Seq<RomView>, Seq<char>>) -> Seq<AppUpdateView> {
    match outcome {
        Ok(roms) => seq![
            AppUpdateView::RomsLoaded(roms),
            AppUpdateView::SetStatus("ROMs loaded successfully"@),
            AppUpdateView::SetLoading(false),
        ],
        Err(reason) => seq![
            AppUpdateView::SetStatus("Error loading ROMs: "@ + reason),
            AppUpdateView::SetLoading(false),
        ],
    }
}

/// Reports what came of a listing of directories.
pub fn report_directories(outcome: Result<Vec<String>, String>) -> (updates: Vec<AppUpdate>)
    ensures
        update_views(updates@) == directory_report(
            match outcome {
                Ok(directories) => Ok(texts(directories@)),
                Err(reason) => Err(reason@),
            },
        ),
{
    match outcome {
        Ok(directories) => {
            let updates = vec![
                AppUpdate::SystemsLoaded(directories),
                AppUpdate::SetStatus("Directories loaded successfully".to_owned()),
                AppUpdate::SetLoading(false),
            ];
            assert(update_views(updates@) =~= directory_report(Ok(texts(directories@))));
            updates
        },
        Err(reason) => {
            let updates = vec![
                AppUpdate::SetStatus(
                    "Error loading directories: ".to_owned().concat(reason.as_str()),
                ),
                AppUpdate::SetLoading(false),
            ];
            assert(update_views(updates@) =~= directory_report(Err(reason@)));
            updates
        },
    }
}

/// Reports what came of a listing of files.
pub fn report_roms(outcome: Result<Vec<Rom>, String>) -> (updates: Vec<AppUpdate>)
    ensures
        update_views(updates@) == rom_report(
            match outcome {
                Ok(roms) => Ok(rom_views(roms@)),
                Err(reason) => Err(reason@),
            },
        ),
{
    match outcome {
        Ok(roms) => {
            let updates = vec![
                AppUpdate::RomsLoaded(roms),
                AppUpdate::SetStatus("ROMs loaded successfully".to_owned()),
                AppUpdate::SetLoading(false),
            ];
            assert(update_views(updates@) =~= rom_report(Ok(rom_views(roms@))));
            updates
        },
        Err(reason) => {
            let updates = vec![
                AppUpdate::SetStatus("Error loading ROMs: ".to_owned().concat(reason.as_str())),
                AppUpdate::SetLoading(false),
            ];
            assert(update_views(updates@) =~= rom_report(Err(reason@)));
            updates
        },
    }
}

} // verus!
