//! How far each download has come.

use vstd::prelude::*;

verus! {

/// The share of a file that has arrived: `downloaded` bytes out of `total`.
#[derive(Clone, Copy, Debug, PartialEq, Eq, Structural)]
pub struct Fraction {
    pub downloaded: u64,
    pub total: u64,
}

/// The share of a download of which nothing has arrived and whose size is not known.
pub open spec fn nothing_yet() -> Fraction {
    Fraction { downloaded: 0, total: 1 }
}

/// What a worker reports of its download.
#[derive(Clone, Copy, Debug, PartialEq, Eq, Structural)]
pub enum Progress {
    /// The download goes on.
    Running(Fraction),
    /// The download is over, whether it succeeded or not.
    Finished,
}

/// One line of the table.
#[derive(Debug)]
pub struct ProgressEntry {
    pub filename: String,
    pub fraction: Fraction,
}

/// `filename` has a line at position `i`.
pub open spec fn names_at(entries: Seq<ProgressEntry>, i: int, filename: Seq<char>) -> bool {
    0 <= i < entries.len() && entries[i].filename@ == filename
}

/// Each file has at most one line.
pub open spec fn names_distinct(entries: Seq<ProgressEntry>) -> bool {
    forall|i: int, j: int|
        0 <= i < j < entries.len() ==> (#[trigger] entries[i]).filename@ != (
        #[trigger] entries[j]).filename@
}

/// The table as a map from file names.
pub open spec fn table_map(entries: Seq<ProgressEntry>) -> Map<Seq<char>, Fraction> {
    Map::new(
        |filename: Seq<char>| exists|i: int| names_at(entries, i, filename),
        |filename: Seq<char>| entries[choose|i: int| names_at(entries, i, filename)].fraction,
    )
}

/// The map gives back what the lines hold.
proof fn lemma_table_map(entries: Seq<ProgressEntry>)
    requires
        names_distinct(entries),
    ensures
        forall|i: int|
            0 <= i < entries.len() ==> table_map(entries).contains_key(
                (#[trigger] entries[i]).filename@,
            ) && table_map(entries)[entries[i].filename@] == entries[i].fraction,
{
    assert forall|i: int| 0 <= i < entries.len() implies table_map(entries).contains_key(
        (#[trigger] entries[i]).filename@,
    ) && table_map(entries)[entries[i].filename@] == entries[i].fraction by {
        assert(names_at(entries, i, entries[i].filename@));
    }
}

/// Lines that agree outside `filename` give maps that agree outside `filename`.
proof fn lemma_same_elsewhere(
    before: Seq<ProgressEntry>,
    after: Seq<ProgressEntry>,
    filename: Seq<char>,
)
    requires
        names_distinct(before),
        names_distinct(after),
        forall|i: int|
            0 <= i < before.len() && (#[trigger] before[i]).filename@ != filename
                ==> after.contains(before[i]),
        forall|i: int|
            0 <= i < after.len() && (#[trigger] after[i]).filename@ != filename
                ==> before.contains(after[i]),
    ensures
        table_map(after).remove(filename) == table_map(before).remove(filename),
{
    lemma_table_map(before);
    lemma_table_map(after);
    let left = table_map(after).remove(filename);
    let right = table_map(before).remove(filename);
    assert forall|other: Seq<char>| left.contains_key(other) implies #[trigger] right.contains_key(
        other,
    ) && left[other] == right[other] by {
        let i = choose|i: int| names_at(after, i, other);
        let j = choose|j: int| 0 <= j < before.len() && before[j] == after[i];
        assert(before[j].filename@ == other);
    }
    assert forall|other: Seq<char>| right.contains_key(other) implies #[trigger] left.contains_key(
        other,
    ) by {
        let i = choose|i: int| names_at(before, i, other);
        let j = choose|j: int| 0 <= j < after.len() && after[j] == before[i];
        assert(after[j].filename@ == other);
    }
    assert(left =~= right);
}

/// The progress of every download that is under way, by file name.
pub struct ProgressTable {
    entries: Vec<ProgressEntry>,
}

impl View for ProgressTable {
    type V = Map<Seq<char>, Fraction>;

    closed spec fn view(&self) -> Map<Seq<char>, Fraction> {
        table_map(self.entries@)
    }
}

impl ProgressTable {
    #[verifier::type_invariant]
    spec fn valid(self) -> bool {
        names_distinct(self.entries@)
    }

    /// An empty table.
    pub fn new() -> (table: Self)
        ensures
            table@ == Map::<Seq<char>, Fraction>::empty(),
    {
        let table = ProgressTable { entries: Vec::new() };
        assert(table@ =~= Map::<Seq<char>, Fraction>::empty());
        table
    }

    /// The position of the line for `filename`.
    fn position(entries: &Vec<ProgressEntry>, filename: &String) -> (found: Option<usize>)
        requires
            names_distinct(entries@),
        ensures
            match found {
                Some(i) => names_at(entries@, i as int, filename@) && table_map(
                    entries@,
                ).contains_key(filename@) && table_map(entries@)[filename@]
                    == entries@[i as int].fraction,
                None => !table_map(entries@).contains_key(filename@),
            },
    {
        let mut i: usize = 0;
        while i < entries.len()
            invariant
                i <= entries@.len(),
                names_distinct(entries@),
                forall|j: int| 0 <= j < i ==> !names_at(entries@, j, filename@),
            decreases entries@.len() - i,
        {
            if entries[i].filename == *filename {
                assert(names_at(entries@, i as int, filename@));
                return Some(i);
            }
            i = i + 1;
        }
        None
    }

    /// Records `fraction` as the progress of `filename`, in place of an earlier one.
    pub fn insert(&mut self, filename: String, fraction: Fraction)
        ensures
            final(self)@ == old(self)@.insert(filename@, fraction),
    {
        proof {
            use_type_invariant(&*self);
        }
        let ghost before = self.entries@;
        let mut entries: Vec<ProgressEntry> = Vec::new();
        std::mem::swap(&mut entries, &mut self.entries);
        let ghost name = filename@;
        match Self::position(&entries, &filename) {
            Some(i) => {
                entries.set(i, ProgressEntry { filename, fraction });
                proof {
                    assert forall|j: int|
                        0 <= j < before.len() && (#[trigger] before[j]).filename@
                            != name implies entries@.contains(before[j]) by {
                        assert(entries@[j] == before[j]);
                    }
                    assert(entries@[i as int].fraction == fraction);
                }
            },
            None => {
                assert(forall|j: int| !names_at(before, j, name));
                entries.push(ProgressEntry { filename, fraction });
                proof {
                    assert forall|j: int, k: int| 0 <= j < k < entries@.len() implies (
                    #[trigger] entries@[j]).filename@ != (#[trigger] entries@[k]).filename@ by {
                        assert(!names_at(before, j, name));
                    }
                    assert forall|j: int|
                        0 <= j < before.len() && (#[trigger] before[j]).filename@
                            != name implies entries@.contains(before[j]) by {
                        assert(entries@[j] == before[j]);
                    }
                    assert(entries@[before.len() as int].fraction == fraction);
                }
            },
        }
        proof {
            lemma_table_map(entries@);
            lemma_same_elsewhere(before, entries@, name);
            let after = table_map(entries@);
            assert(after.remove(name).insert(name, fraction) =~= after);
            assert(table_map(before).remove(name).insert(name, fraction) =~= table_map(
                before,
            ).insert(name, fraction));
        }
        self.entries = entries;
    }

    /// Takes the line of `filename` out of the table, if there is one.
    pub fn remove(&mut self, filename: &String)
        ensures
            final(self)@ == old(self)@.remove(filename@),
    {
        proof {
            use_type_invariant(&*self);
        }
        let ghost before = self.entries@;
        let mut entries: Vec<ProgressEntry> = Vec::new();
        std::mem::swap(&mut entries, &mut self.entries);
        match Self::position(&entries, filename) {
            Some(i) => {
                entries.remove(i);
                proof {
                    assert forall|j: int|
                        0 <= j < before.len() && (#[trigger] before[j]).filename@
                            != filename@ implies entries@.contains(before[j]) by {
                        assert(entries@[if j < i {
                            j
                        } else {
                            j - 1
                        }] == before[j]);
                    }
                    assert forall|j: int| #[trigger] names_at(entries@, j, filename@) implies false by {
                        assert(entries@[j] == before[if j < i {
                            j
                        } else {
                            j + 1
                        }]);
                    }
                }
            },
            None => {},
        }
        proof {
            lemma_same_elsewhere(before, entries@, filename@);
            assert(table_map(entries@).remove(filename@) =~= table_map(entries@));
        }
        self.entries = entries;
    }

    /// The progress of `filename`, if it is under way.
    pub fn get(&self, filename: &String) -> (fraction: Option<Fraction>)
        ensures
            fraction == self@.get(filename@),
    {
        proof {
            use_type_invariant(self);
        }
        match Self::position(&self.entries, filename) {
            Some(i) => Some(self.entries[i].fraction),
            None => None,
        }
    }

    /// Whether nothing is under way.
    pub fn is_empty(&self) -> (empty: bool)
        ensures
            empty == (self@ == Map::<Seq<char>, Fraction>::empty()),
    {
        let empty = self.entries.len() == 0;
        proof {
            if empty {
                assert(self@ =~= Map::<Seq<char>, Fraction>::empty());
            } else {
                assert(names_at(self.entries@, 0, self.entries@[0].filename@));
                assert(self@.contains_key(self.entries@[0].filename@));
            }
        }
        empty
    }

    /// The lines of the table, one for each file.
    pub fn entries(&self) -> (entries: &Vec<ProgressEntry>)
        ensures
            names_distinct(entries@),
            self@ == table_map(entries@),
    {
        proof {
            use_type_invariant(self);
        }
        &self.entries
    }
}

/// The lines of the table and the map tell the same: a name is in the map exactly when it
/// has a line, with the share that the line gives, and it has no second line.
pub proof fn law_table(entries: Seq<ProgressEntry>, i: int, j: int, filename: Seq<char>)
    requires
        names_distinct(entries),
    ensures
        table_map(entries).contains_key(filename) <==> exists|k: int|
            0 <= k < entries.len() && (#[trigger] entries[k]).filename@ == filename,
        0 <= i < entries.len() ==> table_map(entries)[entries[i].filename@] == entries[i].fraction,
        0 <= i < entries.len() && 0 <= j < entries.len() && entries[i].filename@
            == entries[j].filename@ ==> i == j,
{
    lemma_table_map(entries);
    if exists|k: int| 0 <= k < entries.len() && (#[trigger] entries[k]).filename@ == filename {
        let k = choose|k: int|
            0 <= k < entries.len() && (#[trigger] entries[k]).filename@ == filename;
        assert(names_at(entries, k, filename));
    }
    if table_map(entries).contains_key(filename) {
        let k = choose|k: int| names_at(entries, k, filename);
        assert(entries[k].filename@ == filename);
    }
}

} // verus!
