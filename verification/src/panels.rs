//! The parts of the window that open and close, and the labels on them.

use crate::app::MyrientApp;
use crate::model::AppView;
use crate::text::enclose;
use vstd::prelude::*;
use vstd::string::*;

verus! {

/// A part of the window that the user can open and close.
#[derive(Clone, Copy, Debug, PartialEq, Eq, Structural)]
pub enum Panel {
    FilterOptions,
    SystemSelection,
    DownloadSettings,
    Queue,
}

impl AppView {
    /// The window with the panel open if it was closed, and closed if it was open.
    pub open spec fn toggled(self, panel: Panel) -> AppView {
        match panel {
            Panel::FilterOptions => AppView {
                show_filter_options: !self.show_filter_options,
                ..self
            },
            Panel::SystemSelection => AppView {
                show_system_selection: !self.show_system_selection,
                ..self
            },
            Panel::DownloadSettings => AppView {
                show_download_settings: !self.show_download_settings,
                ..self
            },
            Panel::Queue => AppView { show_queue_window: !self.show_queue_window, ..self },
        }
    }
}

impl MyrientApp {
    /// Opens the panel if it is closed, and closes it if it is open.
    pub fn toggle(&mut self, panel: Panel)
        ensures
            final(self)@ == old(self)@.toggled(panel),
    {
        match panel {
            Panel::FilterOptions => {
                self.show_filter_options = !self.show_filter_options;
            },
            Panel::SystemSelection => {
                self.show_system_selection = !self.show_system_selection;
            },
            Panel::DownloadSettings => {
                self.show_download_settings = !self.show_download_settings;
            },
            Panel::Queue => {
                self.show_queue_window = !self.show_queue_window;
            },
        }
    }
}

/// The label of the button that opens or closes a panel.
pub fn toggle_label(open: bool) -> (label: &'static str)
    ensures
        label@ == if open {
            "v"@
        } else {
            ">"@
        },
{
    if open {
        "v"
    } else {
        ">"
    }
}

/// The label of the button that enters a directory.
pub fn folder_label(system: &str) -> (label: String)
    ensures
        label@ == "📁 "@ + system@,
{
    "📁 ".to_owned().concat(system)
}

/// The versions that the status bar names.
pub fn version_label(version: &str, filter_version: &str) -> (label: String)
    ensures
        label@ == "Myrient ROM Downloader "@ + version@ + " | myrient-filter "@ + filter_version@,
{
    enclose("Myrient ROM Downloader ", version, " | myrient-filter ").concat(filter_version)
}

} // verus!
