//! The files that wait to be downloaded.

use crate::app::MyrientApp;
use crate::data::{rom_views, AppUpdate, AppUpdateView, Rom, RomView};
use crate::model::AppView;
use crate::removal::{are_positions, law_without_maps, remove_positions, without};
use crate::text::{decimal, decimal_text, enclose};
use vstd::prelude::*;
use vstd::string::*;

verus! {

impl MyrientApp {
    /// Takes the files at these positions out of the queue.
    pub fn cancel_queued(&mut self, positions: &Vec<usize>)
        requires
            are_positions(positions@, old(self)@.download_queue.len()),
        ensures
            final(self)@ == (AppView {
                download_queue: without(old(self)@.download_queue, positions@),
                ..old(self)@
            }),
    {
        remove_positions(&mut self.download_queue, positions);
        proof {
            let before = old(self).download_queue@;
            law_without_maps(before, positions@, |rom: Rom| rom@);
            assert(rom_views(before) =~= before.map_values(|rom: Rom| rom@));
            assert(rom_views(self.download_queue@) =~= self.download_queue@.map_values(
                |rom: Rom| rom@,
            ));
        }
    }

    /// Empties the queue. The message tells the user so.
    pub fn clear_queue(&mut self) -> (update: AppUpdate)
        ensures
            final(self)@ == (AppView { download_queue: Seq::empty(), ..old(self)@ }),
            update@ == AppUpdateView::SetStatus("Cleared download queue"@),
    {
        self.download_queue.clear();
        assert(rom_views(self.download_queue@) =~= Seq::<RomView>::empty());
        AppUpdate::SetStatus("Cleared download queue".to_owned())
    }

    /// The heading above the queue.
    pub fn queue_heading(&self) -> (heading: String)
        ensures
            heading@ == "Queued Downloads ("@ + decimal_text(self@.download_queue.len()) + ")"@,
    {
        enclose("Queued Downloads (", decimal(self.download_queue.len()).as_str(), ")")
    }

    /// The count of active downloads and their limit.
    pub fn active_summary(&self) -> (summary: String)
        ensures
            summary@ == "Active Downloads: "@ + decimal_text(self@.active_downloads) + "/"@
                + decimal_text(self@.max_concurrent_downloads),
    {
        enclose("Active Downloads: ", decimal(self.active_downloads).as_str(), "/").concat(
            decimal(self.max_concurrent_downloads).as_str(),
        )
    }
}

} // verus!
