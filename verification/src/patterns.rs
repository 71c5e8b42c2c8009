//! The patterns that keep files out of a listing.

use crate::app::MyrientApp;
use crate::data::FilterOptionsView;
use crate::model::AppView;
use crate::removal::{are_positions, law_without_maps, remove_positions, without};
use crate::text::texts;
use vstd::prelude::*;

verus! {

/// The patterns that the user can pick from a menu.
pub open spec fn predefined() -> Seq<Seq<char>> {
    seq![
        "Pirate"@,
        "Beta"@,
        "Proto"@,
        "Enhancement Chip"@,
        "Tech Demo"@,
        "Competition Cart"@,
        "Sample"@,
        "Aftermarket"@,
        "Demo"@,
        "Unl"@,
    ]
}

/// The patterns that the user can pick from a menu.
pub fn predefined_patterns() -> (patterns: Vec<String>)
    ensures
        texts(patterns@) == predefined(),
{
    let patterns = vec![
        "Pirate".to_owned(),
        "Beta".to_owned(),
        "Proto".to_owned(),
        "Enhancement Chip".to_owned(),
        "Tech Demo".to_owned(),
        "Competition Cart".to_owned(),
        "Sample".to_owned(),
        "Aftermarket".to_owned(),
        "Demo".to_owned(),
        "Unl".to_owned(),
    ];
    assert(texts(patterns@) =~= predefined());
    patterns
}

impl AppView {
    /// The window with other patterns.
    pub open spec fn with_patterns(self, patterns: Seq<Seq<char>>) -> AppView {
        AppView {
            filter_options: FilterOptionsView { exclude_patterns: patterns, ..self.filter_options },
            ..self
        }
    }
}

impl MyrientApp {
    /// Adds a pattern after the others.
    pub fn add_pattern(&mut self, pattern: &str)
        ensures
            final(self)@ == old(self)@.with_patterns(
                old(self)@.filter_options.exclude_patterns.push(pattern@),
            ),
    {
        self.filter_options.exclude_patterns.push(pattern.to_owned());
        assert(texts(self.filter_options.exclude_patterns@) =~= old(
            self,
        )@.filter_options.exclude_patterns.push(pattern@));
    }

    /// Adds an empty pattern, for the user to fill in.
    pub fn add_custom_pattern(&mut self)
        ensures
            final(self)@ == old(self)@.with_patterns(
                old(self)@.filter_options.exclude_patterns.push(Seq::empty()),
            ),
    {
        self.filter_options.exclude_patterns.push(String::new());
        assert(texts(self.filter_options.exclude_patterns@) =~= old(
            self,
        )@.filter_options.exclude_patterns.push(Seq::empty()));
    }

    /// Takes the patterns at these positions away.
    pub fn remove_patterns(&mut self, positions: &Vec<usize>)
        requires
            are_positions(positions@, old(self)@.filter_options.exclude_patterns.len()),
        ensures
            final(self)@ == old(self)@.with_patterns(
                without(old(self)@.filter_options.exclude_patterns, positions@),
            ),
    {
        remove_positions(&mut self.filter_options.exclude_patterns, positions);
        proof {
            let before = old(self).filter_options.exclude_patterns@;
            let after = self.filter_options.exclude_patterns@;
            law_without_maps(before, positions@, |pattern: String| pattern@);
            assert(texts(before) =~= before.map_values(|pattern: String| pattern@));
            assert(texts(after) =~= after.map_values(|pattern: String| pattern@));
        }
    }
}

} // verus!
