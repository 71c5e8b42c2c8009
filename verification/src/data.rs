//! The values that the parts of the program hand to one another.

use crate::progress::Progress;
use crate::text::texts;
use vstd::prelude::*;

verus! {

/// A file that can be downloaded.
#[derive(Debug, PartialEq, Eq)]
pub struct Rom {
    pub filename: String,
    pub url: String,
}

/// A [`Rom`] in contracts.
pub struct RomView {
    pub filename: Seq<char>,
    pub url: Seq<char>,
}

impl View for Rom {
    type V = RomView;

    open spec fn view(&self) -> RomView {
        RomView { filename: self.filename@, url: self.url@ }
    }
}

impl Clone for Rom {
    fn clone(&self) -> (copy: Self)
        ensures
            copy == *self,
    {
        Rom { filename: self.filename.clone(), url: self.url.clone() }
    }
}

/// The files of a list, in contracts.
pub open spec fn rom_views(roms: Seq<Rom>) -> Seq<RomView> {
    Seq::new(roms.len(), |i: int| roms[i]@)
}

/// Which files a listing offers.
#[derive(Debug, PartialEq, Eq)]
pub struct FilterOptions {
    pub region_limit: bool,
    pub region: String,
    pub smart_filters: bool,
    pub exclude_patterns: Vec<String>,
    pub latest_revision: bool,
}

/// [`FilterOptions`] in contracts.
#[verifier::ext_equal]
pub struct FilterOptionsView {
    pub region_limit: bool,
    pub region: Seq<char>,
    pub smart_filters: bool,
    pub exclude_patterns: Seq<Seq<char>>,
    pub latest_revision: bool,
}

impl View for FilterOptions {
    type V = FilterOptionsView;

    open spec fn view(&self) -> FilterOptionsView {
        FilterOptionsView {
            region_limit: self.region_limit,
            region: self.region@,
            smart_filters: self.smart_filters,
            exclude_patterns: texts(self.exclude_patterns@),
            latest_revision: self.latest_revision,
        }
    }
}

impl Clone for FilterOptions {
    fn clone(&self) -> (copy: Self)
        ensures
            copy@ == self@,
    {
        let copy = FilterOptions {
            region_limit: self.region_limit,
            region: self.region.clone(),
            smart_filters: self.smart_filters,
            exclude_patterns: self.exclude_patterns.clone(),
            latest_revision: self.latest_revision,
        };
        assert(texts(copy.exclude_patterns@) =~= texts(self.exclude_patterns@));
        copy
    }
}

/// A message to the window.
#[derive(Debug, PartialEq, Eq)]
pub enum AppUpdate {
    /// The directories at the current place are known.
    SystemsLoaded(Vec<String>),
    /// The files of the chosen directory are known.
    RomsLoaded(Vec<Rom>),
    /// There is something to tell the user.
    SetStatus(String),
    /// A listing has begun or ended.
    SetLoading(bool),
    /// The download of the named file has come this far.
    DownloadProgress(String, Progress),
}

/// An [`AppUpdate`] in contracts.
pub enum AppUpdateView {
    SystemsLoaded(Seq<Seq<char>>),
    RomsLoaded(Seq<RomView>),
    SetStatus(Seq<char>),
    SetLoading(bool),
    DownloadProgress(Seq<char>, Progress),
}

impl View for AppUpdate {
    type V = AppUpdateView;

    open spec fn view(&self) -> AppUpdateView {
        match self {
            AppUpdate::SystemsLoaded(systems) => AppUpdateView::SystemsLoaded(texts(systems@)),
            AppUpdate::RomsLoaded(roms) => AppUpdateView::RomsLoaded(rom_views(roms@)),
            AppUpdate::SetStatus(message) => AppUpdateView::SetStatus(message@),
            AppUpdate::SetLoading(loading) => AppUpdateView::SetLoading(*loading),
            AppUpdate::DownloadProgress(filename, progress) => AppUpdateView::DownloadProgress(
                filename@,
                *progress,
            ),
        }
    }
}

/// The messages of a list, in contracts.
pub open spec fn update_views(updates: Seq<AppUpdate>) -> Seq<AppUpdateView> {
    Seq::new(updates.len(), |i: int| updates[i]@)
}

} // verus!
