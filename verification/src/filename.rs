//! The parts of a file name.

use vstd::prelude::*;
use vstd::string::*;

verus! {

/// A name that stands for itself on every platform: it is no sign for a directory, and
/// no character in it separates the parts of a path.
pub open spec fn is_plain(name: Seq<char>) -> bool {
    &&& name.len() > 0
    &&& name != "."@
    &&& name != ".."@
    &&& !name.contains('/')
    &&& !name.contains('\\')
    &&& !name.contains(':')
}

/// Calls `std::path::Path::file_name`. Taken on trust: the last component of a path that
/// is a plain name is that name. What it is of any other path is left unsaid: it depends
/// on how the platform writes paths.
#[verifier::external_body]
pub(crate) fn path_file_name(path: &str) -> (name: Option<String>)
    ensures
        is_plain(path@) ==> name is Some && name->0@ == path@,
{
    match std::path::Path::new(path).file_name() {
        Some(name) => Some(name.to_string_lossy().into_owned()),
        None => None,
    }
}

/// The position of the last dot, or -1 where there is none.
pub open spec fn last_dot(name: Seq<char>) -> int
    decreases name.len(),
{
    if name.len() == 0 {
        -1
    } else if name.last() == '.' {
        name.len() - 1
    } else {
        last_dot(name.drop_last())
    }
}

/// What follows the last dot of a file name, unless that dot is its first character.
pub open spec fn extension_of(name: Seq<char>) -> Option<Seq<char>> {
    if last_dot(name) > 0 {
        Some(name.skip(last_dot(name) + 1))
    } else {
        None
    }
}

/// A file name without its extension and the dot before it.
pub open spec fn stem_of(name: Seq<char>) -> Seq<char> {
    if last_dot(name) > 0 {
        name.take(last_dot(name))
    } else {
        name
    }
}

/// The last dot lies within the name, and no dot comes after it.
pub(crate) proof fn lemma_last_dot(name: Seq<char>)
    ensures
        -1 <= last_dot(name) < name.len(),
        last_dot(name) >= 0 ==> name[last_dot(name)] == '.',
        forall|i: int| last_dot(name) < i < name.len() ==> name[i] != '.',
    decreases name.len(),
{
    if name.len() > 0 {
        let front = name.drop_last();
        lemma_last_dot(front);
        assert forall|i: int| last_dot(name) < i < name.len() implies name[i] != '.' by {
            if i < front.len() {
                assert(front[i] == name[i]);
            }
        }
    }
}

/// The position of the last dot, if it comes after the first character.
fn extension_dot(name: &str) -> (found: Option<usize>)
    ensures
        match found {
            Some(dot) => dot > 0 && dot == last_dot(name@) && dot < name@.len(),
            None => last_dot(name@) <= 0,
        },
{
    let len = name.unicode_len();
    let mut found: Option<usize> = None;
    let mut count: usize = 0;
    assert(name@.take(0) =~= Seq::<char>::empty());
    for c in iter: name.chars()
        invariant
            iter.seq() == name@,
            len == name@.len(),
            count == iter.index(),
            match found {
                Some(dot) => dot > 0 && dot == last_dot(name@.take(count as int)) && dot < count,
                None => last_dot(name@.take(count as int)) <= 0,
            },
    {
        proof {
            assert(name@.take(count + 1).drop_last() =~= name@.take(count as int));
            assert(name@.take(count + 1).last() == c);
        }
        if c == '.' {
            if count > 0 {
                found = Some(count);
            } else {
                found = None;
            }
        }
        count = count + 1;
    }
    assert(name@.take(count as int) =~= name@);
    found
}

/// The extension of a file name.
pub fn extension(name: &str) -> (extension: Option<String>)
    ensures
        match extension {
            Some(text) => extension_of(name@) == Some(text@),
            None => extension_of(name@) is None,
        },
{
    match extension_dot(name) {
        Some(dot) => {
            let len = name.unicode_len();
            let text = name.substring_char(dot + 1, len).to_owned();
            assert(text@ =~= name@.skip(dot + 1));
            Some(text)
        },
        None => None,
    }
}

/// The stem of a file name.
pub fn stem(name: &str) -> (stem: String)
    ensures
        stem@ == stem_of(name@),
{
    match extension_dot(name) {
        Some(dot) => {
            let text = name.substring_char(0, dot).to_owned();
            assert(text@ =~= name@.take(dot as int));
            text
        },
        None => name.to_owned(),
    }
}

/// A file name with an extension is its stem, a dot and the extension, in which no
/// dot occurs; one without an extension is all stem.
pub proof fn law_stem_and_extension(name: Seq<char>)
    ensures
        match extension_of(name) {
            Some(extension) => name == stem_of(name).push('.') + extension
                && !extension.contains('.'),
            None => name == stem_of(name),
        },
{
    lemma_last_dot(name);
    if last_dot(name) > 0 {
        assert(name =~= stem_of(name).push('.') + name.skip(last_dot(name) + 1));
    }
}

/// Where a stem and an extension without a dot are put together, they come apart again
/// in the same way, whatever dots the stem has. A name has no extension exactly when no
/// dot comes after its first character.
pub proof fn law_parts_come_apart(stem: Seq<char>, extension: Seq<char>, name: Seq<char>)
    requires
        stem.len() > 0,
        !extension.contains('.'),
    ensures
        extension_of(stem + seq!['.'] + extension) == Some(extension),
        stem_of(stem + seq!['.'] + extension) == stem,
        extension_of(name) is None <==> forall|i: int| 0 < i < name.len() ==> name[i] != '.',
        extension_of(name) is None ==> stem_of(name) == name,
{
    let whole = stem + seq!['.'] + extension;
    lemma_last_dot(whole);
    lemma_last_dot(name);
    assert(whole[stem.len() as int] == '.');
    if last_dot(whole) > stem.len() {
        let i = last_dot(whole) - stem.len() - 1;
        assert(extension[i] == whole[last_dot(whole)]);
    }
    assert(last_dot(whole) == stem.len());
    assert(whole.skip(last_dot(whole) + 1) =~= extension);
    assert(whole.take(stem.len() as int) =~= stem);
}

/// A plain name is one that is not empty, is neither of the signs for a directory and
/// has none of the three characters that separate.
pub proof fn law_plain_names(name: Seq<char>)
    ensures
        is_plain(name) <==> {
            &&& name.len() > 0 && name != seq!['.'] && name != seq!['.', '.']
            &&& forall|i: int|
                0 <= i < name.len() ==> #[trigger] name[i] != '/' && name[i] != '\\' && name[i]
                    != ':'
        },
{
    reveal_strlit(".");
    reveal_strlit("..");
    assert("."@ =~= seq!['.']);
    assert(".."@ =~= seq!['.', '.']);
}

} // verus!
