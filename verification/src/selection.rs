//! Ticking files, and asking for the ones that are ticked.

use crate::app::{action_views, DownloadAction, MyrientApp};
use crate::data::{rom_views, Rom, RomView};
use crate::model::{is_named, law_requests_keep_valid, AppView, DownloadActionView};
use vstd::hash_set::StringHashSet;
use vstd::prelude::*;

verus! {

impl AppView {
    /// The window with the file ticked, or not.
    pub open spec fn with_tick(self, filename: Seq<char>, ticked: bool) -> AppView {
        AppView {
            selected_roms: if ticked {
                self.selected_roms.insert(filename)
            } else {
                self.selected_roms.remove(filename)
            },
            ..self
        }
    }

    /// The window with every file of the list ticked, and no other.
    pub open spec fn all_ticked(self) -> AppView {
        AppView {
            selected_roms: Set::new(|filename: Seq<char>| is_named(self.roms, filename)),
            ..self
        }
    }

    /// The window with no file ticked.
    pub open spec fn none_ticked(self) -> AppView {
        AppView { selected_roms: Set::empty(), ..self }
    }
}

impl MyrientApp {
    /// Whether the file is ticked.
    pub fn is_selected(&self, filename: &str) -> (ticked: bool)
        ensures
            ticked == self@.selected_roms.contains(filename@),
    {
        self.selected_roms.contains(filename)
    }

    /// Ticks the file, or takes its tick away.
    pub fn set_selected(&mut self, filename: &str, ticked: bool)
        ensures
            final(self)@ == old(self)@.with_tick(filename@, ticked),
    {
        if ticked {
            self.selected_roms.insert(filename.to_owned());
        } else {
            self.selected_roms.remove(filename);
        }
    }

    /// Ticks every file of the list, and no other.
    pub fn select_all(&mut self)
        ensures
            final(self)@ == old(self)@.all_ticked(),
    {
        let mut ticked = StringHashSet::new();
        let ghost roms = rom_views(self.roms@);
        let mut i: usize = 0;
        while i < self.roms.len()
            invariant
                i <= self.roms@.len(),
                roms == rom_views(self.roms@),
                self@ == old(self)@,
                forall|filename: Seq<char>|
                    #[trigger] ticked@.contains(filename) <==> is_named(
                        roms.take(i as int),
                        filename,
                    ),
            decreases self.roms@.len() - i,
        {
            let ghost before = ticked@;
            ticked.insert(self.roms[i].filename.clone());
            proof {
                assert forall|filename: Seq<char>| #[trigger] ticked@.contains(filename) <==> is_named(
                    roms.take(i + 1),
                    filename,
                ) by {
                    assert(roms.take(i + 1)[i as int] == roms[i as int]);
                    if before.contains(filename) {
                        let j = choose|j: int|
                            0 <= j < i && (#[trigger] roms.take(i as int)[j]).filename == filename;
                        assert(roms.take(i + 1)[j].filename == filename);
                    }
                    if is_named(roms.take(i + 1), filename) {
                        let j = choose|j: int|
                            0 <= j < i + 1 && (#[trigger] roms.take(i + 1)[j]).filename == filename;
                        if j < i {
                            assert(roms.take(i as int)[j].filename == filename);
                        }
                    }
                }
            }
            i = i + 1;
        }
        assert(roms.take(i as int) =~= roms);
        assert(ticked@ =~= Set::new(|filename: Seq<char>| is_named(roms, filename)));
        self.selected_roms = ticked;
    }

    /// Takes every tick away.
    pub fn deselect_all(&mut self)
        ensures
            final(self)@ == old(self)@.none_ticked(),
    {
        self.selected_roms.clear();
    }

    /// The files that are ticked, in the order of the list.
    fn ticked_roms(&self) -> (ticked: Vec<Rom>)
        ensures
            rom_views(ticked@) == self@.ticked(),
    {
        let ghost roms = rom_views(self.roms@);
        let ghost is_ticked = |rom: RomView| self@.selected_roms.contains(rom.filename);
        let mut ticked: Vec<Rom> = Vec::new();
        let mut i: usize = 0;
        proof {
            reveal(Seq::filter);
            assert(rom_views(ticked@) =~= roms.take(0).filter(is_ticked));
        }
        while i < self.roms.len()
            invariant
                i <= self.roms@.len(),
                roms == rom_views(self.roms@),
                is_ticked == |rom: RomView| self@.selected_roms.contains(rom.filename),
                rom_views(ticked@) == roms.take(i as int).filter(is_ticked),
            decreases self.roms@.len() - i,
        {
            let ghost earlier = ticked@;
            proof {
                reveal(Seq::filter);
                assert(roms.take(i + 1).drop_last() =~= roms.take(i as int));
                assert(roms.take(i + 1).last() == roms[i as int]);
            }
            if self.selected_roms.contains(self.roms[i].filename.as_str()) {
                ticked.push(self.roms[i].clone());
                assert(rom_views(ticked@) =~= rom_views(earlier).push(roms[i as int]));
            }
            i = i + 1;
        }
        assert(roms.take(i as int) =~= roms);
        ticked
    }

    /// The user asks for the ticked files. While a listing is under way nothing happens.
    pub fn download_selected(&mut self) -> (actions: Vec<DownloadAction>)
        ensures
            old(self)@.loading ==> final(self)@ == old(self)@ && actions@.len() == 0,
            !old(self)@.loading ==> final(self)@ == old(self)@.after_requests(old(self)@.ticked())
                && action_views(actions@) == old(self)@.actions(old(self)@.ticked()),
            forall|i: int|
                0 <= i < actions@.len() ==> (#[trigger] actions@[i] matches DownloadAction::Start(
                    request,
                ) ==> request.download_path@ == old(self).download_path@),
            old(self)@.valid() ==> final(self)@.valid(),
    {
        if self.loading {
            return Vec::new();
        }
        let ticked = self.ticked_roms();
        proof {
            if self@.valid() {
                law_requests_keep_valid(self@, rom_views(ticked@));
            }
        }
        let actions = self.start_or_queue_all(ticked);
        proof {
            assert forall|i: int| 0 <= i < actions@.len() implies (
            #[trigger] actions@[i] matches DownloadAction::Start(request)
                ==> request.download_path@ == old(self).download_path@) by {
                let asked = old(self)@.ticked();
                assert(action_views(actions@).len() == actions@.len());
                assert(action_views(actions@)[i] == actions@[i]@);
                assert(old(self)@.actions(asked).len() == asked.len());
                assert(old(self)@.actions(asked)[i] == actions@[i]@);
                if let DownloadAction::Start(request) = actions@[i] {
                    assert(actions@[i]@ == DownloadActionView::Start(request@));
                    assert(request@ == old(self)@.request(asked[i]));
                }
            }
        }
        actions
    }

    /// The user asks for one file. While a listing is under way, or where the file is
    /// being downloaded already, nothing happens.
    pub fn download_one(&mut self, rom: &Rom) -> (action: Option<DownloadAction>)
        ensures
            action is Some <==> !old(self)@.loading && !old(self)@.download_progress.contains_key(
                rom@.filename,
            ),
            match action {
                Some(action) => final(self)@ == old(self)@.after_requests(seq![rom@])
                    && seq![action@] == old(self)@.actions(seq![rom@]),
                None => final(self)@ == old(self)@,
            },
            action matches Some(DownloadAction::Start(request)) ==> request.download_path@ == old(
                self,
            ).download_path@ && request.rom@ == rom@,
            old(self)@.valid() ==> final(self)@.valid(),
    {
        if self.loading || self.download_progress.get(&rom.filename).is_some() {
            None
        } else {
            proof {
                if self@.valid() {
                    law_requests_keep_valid(self@, seq![rom@]);
                }
            }
            Some(self.start_or_queue(rom.clone()))
        }
    }
}

} // verus!
