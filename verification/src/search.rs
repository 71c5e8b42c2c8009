//! The search field above the list of files.

use crate::app::MyrientApp;
use crate::data::Rom;
use crate::text::{
    contains_text, decimal, decimal_text, enclose, is_decimal_of, law_contains, law_decimal,
    lowercase, str_contains, str_to_lowercase, texts,
};
use vstd::prelude::*;
use vstd::string::*;

verus! {

/// Whether a file name matches the search term, whatever the case of the letters. An
/// empty term matches every name.
pub open spec fn matches_term(filename: Seq<char>, term: Seq<char>) -> bool {
    term.len() == 0 || contains_text(lowercase(filename), lowercase(term))
}

/// What is said below the list of how many files it shows, out of how many.
pub open spec fn summary_text(shown: nat, total: nat) -> Seq<char> {
    "Showing "@ + decimal_text(shown) + "/"@ + decimal_text(total) + " ROMs"@
}

/// The positions below `len` that `shown` holds of, in increasing order.
pub open spec fn rows_where(len: nat, shown: spec_fn(int) -> bool) -> Seq<usize>
    decreases len,
{
    if len == 0 {
        Seq::empty()
    } else {
        let earlier = rows_where((len - 1) as nat, shown);
        if shown(len - 1) {
            earlier.push((len - 1) as usize)
        } else {
            earlier
        }
    }
}

/// Two conditions that agree on every position pick the same rows.
proof fn lemma_same_rows(len: nat, left: spec_fn(int) -> bool, right: spec_fn(int) -> bool)
    requires
        forall|i: int| 0 <= i < len ==> #[trigger] left(i) == right(i),
    ensures
        rows_where(len, left) == rows_where(len, right),
    decreases len,
{
    if len > 0 {
        lemma_same_rows((len - 1) as nat, left, right);
        assert(left(len - 1) == right(len - 1));
    }
}

/// The rows that a list shows are in increasing order, each is one that is to be shown,
/// and none of those is missing. So there are at most as many as the list is long, and
/// all of them where everything is to be shown.
pub proof fn law_rows(len: nat, shown: spec_fn(int) -> bool)
    requires
        len <= usize::MAX,
    ensures
        ({
            let rows = rows_where(len, shown);
            &&& forall|j: int| 0 <= j < rows.len() ==> #[trigger] rows[j] < len
            &&& forall|j: int| 0 <= j < rows.len() ==> shown((#[trigger] rows[j]) as int)
            &&& forall|j: int, k: int|
                0 <= j < k < rows.len() ==> #[trigger] rows[j] < #[trigger] rows[k]
            &&& forall|i: int| 0 <= i < len && #[trigger] shown(i) ==> rows.contains(i as usize)
            &&& rows.len() <= len
            &&& (forall|i: int| 0 <= i < len ==> #[trigger] shown(i)) ==> rows == Seq::new(
                len,
                |i: int| i as usize,
            )
        }),
    decreases len,
{
    if len > 0 {
        law_rows((len - 1) as nat, shown);
        let earlier = rows_where((len - 1) as nat, shown);
        let rows = rows_where(len, shown);
        assert forall|i: int| 0 <= i < len && #[trigger] shown(i) implies rows.contains(
            i as usize,
        ) by {
            if i < len - 1 {
                let j = choose|j: int| 0 <= j < earlier.len() && earlier[j] == i as usize;
                assert(rows[j] == i as usize);
            } else {
                assert(rows[earlier.len() as int] == i as usize);
            }
        }
    }
    if forall|i: int| 0 <= i < len ==> #[trigger] shown(i) {
        if len > 0 {
            assert(shown(len - 1));
        }
        assert(rows_where(len, shown) =~= Seq::new(len, |i: int| i as usize));
    }
}

/// A search shows a file exactly when the term, however short or long, stands in its
/// name, both taken in lower case: some text before it and some text after it make up the
/// name. Without a term every file is shown.
pub proof fn law_search(names: Seq<Seq<char>>, term: Seq<char>, i: int)
    requires
        names.len() <= usize::MAX,
        0 <= i < names.len(),
    ensures
        ({
            let rows = rows_where(names.len(), |i: int| matches_term(names[i], term));
            rows.contains(i as usize) <==> term.len() == 0 || exists|before: Seq<char>, after: Seq<
                char,
            >| lowercase(names[i]) == #[trigger] (before + lowercase(term) + after)
        }),
{
    let shown = |i: int| matches_term(names[i], term);
    let rows = rows_where(names.len(), shown);
    law_rows(names.len(), shown);
    law_contains(lowercase(names[i]), lowercase(term));
    if rows.contains(i as usize) {
        let j = choose|j: int| 0 <= j < rows.len() && rows[j] == i as usize;
        assert(shown(rows[j] as int));
    } else {
        assert(!shown(i));
    }
}

/// What is said of the number of files has the two numbers in it, each of which can be
/// read back.
pub proof fn law_summary(shown: nat, total: nat)
    ensures
        exists|first: Seq<char>, second: Seq<char>|
            summary_text(shown, total) == #[trigger] ("Showing "@ + first + "/"@ + second
                + " ROMs"@) && is_decimal_of(first, shown) && is_decimal_of(second, total),
{
    law_decimal(shown);
    law_decimal(total);
    assert(summary_text(shown, total) == "Showing "@ + decimal_text(shown) + "/"@ + decimal_text(
        total,
    ) + " ROMs"@);
}

/// The positions of the names in which the term stands. Names and term are compared
/// as they are given.
pub fn rows_containing(names: &Vec<String>, term: &str) -> (rows: Vec<usize>)
    ensures
        rows@ == rows_where(names@.len(), |i: int| contains_text(names@[i]@, term@)),
{
    let ghost shown = |i: int| contains_text(names@[i]@, term@);
    let mut rows: Vec<usize> = Vec::new();
    let mut i: usize = 0;
    while i < names.len()
        invariant
            i <= names@.len(),
            shown == |i: int| contains_text(names@[i]@, term@),
            rows@ == rows_where(i as nat, shown),
        decreases names@.len() - i,
    {
        if str_contains(names[i].as_str(), term) {
            rows.push(i);
        }
        i = i + 1;
    }
    rows
}

impl MyrientApp {
    /// The positions of the files that the list shows.
    pub fn visible_rows(&self) -> (rows: Vec<usize>)
        ensures
            rows@ == rows_where(
                self@.roms.len(),
                |i: int| matches_term(self@.roms[i].filename, self@.search_term),
            ),
            forall|i: int|
                0 <= i < self.roms@.len() ==> (#[trigger] rows@.contains(i as usize)
                    <==> self.search_term@.len() == 0 || contains_text(
                    lowercase(self.roms@[i].filename@),
                    lowercase(self.search_term@),
                )),
    {
        let ghost shown = |i: int| matches_term(self@.roms[i].filename, self@.search_term);
        if self.search_term.as_str().is_empty() {
            let mut rows: Vec<usize> = Vec::new();
            let mut i: usize = 0;
            while i < self.roms.len()
                invariant
                    i <= self.roms@.len(),
                    self@.search_term.len() == 0,
                    shown == |i: int| matches_term(self@.roms[i].filename, self@.search_term),
                    rows@ == rows_where(i as nat, shown),
                decreases self.roms@.len() - i,
            {
                rows.push(i);
                i = i + 1;
            }
            proof {
                law_rows(self@.roms.len(), shown);
                assert forall|i: int| 0 <= i < self.roms@.len() implies #[trigger] rows@.contains(
                    i as usize,
                ) by {
                    assert(shown(i));
                }
            }
            rows
        } else {
            let names = lowered_names(&self.roms);
            let term = str_to_lowercase(self.search_term.as_str());
            let rows = rows_containing(&names, term.as_str());
            proof {
                let found = |i: int| contains_text(names@[i]@, term@);
                assert(texts(names@).len() == self@.roms.len());
                assert forall|i: int| 0 <= i < names@.len() implies #[trigger] found(i) == shown(
                    i,
                ) by {
                    assert(texts(names@)[i] == lowercase(self@.roms[i].filename));
                }
                lemma_same_rows(names@.len(), found, shown);
                assert(self.roms@.len() == self.roms.len());
                law_rows(self@.roms.len(), shown);
                assert forall|i: int| 0 <= i < self.roms@.len() implies (
                #[trigger] rows@.contains(i as usize) <==> contains_text(
                    lowercase(self.roms@[i].filename@),
                    lowercase(self.search_term@),
                )) by {
                    assert(shown(i) == contains_text(
                        lowercase(self.roms@[i].filename@),
                        lowercase(self.search_term@),
                    ));
                    if rows@.contains(i as usize) {
                        let j = choose|j: int| 0 <= j < rows@.len() && rows@[j] == i as usize;
                        assert(shown(rows@[j] as int));
                    }
                }
            }
            rows
        }
    }

    /// The positions of the files that the list shows, and what is said of their number.
    pub fn rom_list(&self) -> (list: (Vec<usize>, Option<String>))
        ensures
            list.0@ == rows_where(
                self@.roms.len(),
                |i: int| matches_term(self@.roms[i].filename, self@.search_term),
            ),
            match list.1 {
                Some(text) => self@.search_term.len() != 0 && text@ == summary_text(
                    list.0@.len(),
                    self@.roms.len(),
                ),
                None => self@.search_term.len() == 0,
            },
    {
        let rows = self.visible_rows();
        let summary = self.search_summary(rows.len());
        (rows, summary)
    }

    /// How many files the list shows, out of how many; not said without a search term.
    pub fn search_summary(&self, shown: usize) -> (summary: Option<String>)
        ensures
            match summary {
                Some(text) => self@.search_term.len() != 0 && text@ == summary_text(
                    shown as nat,
                    self@.roms.len(),
                ),
                None => self@.search_term.len() == 0,
            },
    {
        if self.search_term.as_str().is_empty() {
            None
        } else {
            Some(
                enclose("Showing ", decimal(shown).as_str(), "/").concat(
                    decimal(self.roms.len()).as_str(),
                ).concat(" ROMs"),
            )
        }
    }
}

/// The file names of a list in lower case.
fn lowered_names(roms: &Vec<Rom>) -> (names: Vec<String>)
    ensures
        texts(names@) == Seq::new(roms@.len(), |i: int| lowercase(roms@[i]@.filename)),
{
    let mut names: Vec<String> = Vec::new();
    let mut i: usize = 0;
    while i < roms.len()
        invariant
            i <= roms@.len(),
            names@.len() == i,
            forall|j: int| 0 <= j < i ==> (#[trigger] names@[j])@ == lowercase(roms@[j]@.filename),
        decreases roms@.len() - i,
    {
        names.push(str_to_lowercase(roms[i].filename.as_str()));
        i = i + 1;
    }
    assert(texts(names@) =~= Seq::new(roms@.len(), |i: int| lowercase(roms@[i]@.filename)));
    names
}

} // verus!
