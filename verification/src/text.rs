//! Pieces of text: search, joining and numbers.

use vstd::prelude::*;
use vstd::string::*;

verus! {

/// The characters of each string of a list.
pub open spec fn texts(list: Seq<String>) -> Seq<Seq<char>> {
    Seq::new(list.len(), |i: int| list[i]@)
}

/// `needle` stands somewhere in `haystack`, as a run of consecutive characters.
pub open spec fn contains_text(haystack: Seq<char>, needle: Seq<char>) -> bool {
    exists|start: int|
        0 <= start <= haystack.len() - needle.len() && #[trigger] haystack.subrange(
            start,
            start + needle.len(),
        ) == needle
}

/// A text stands in another exactly when the other is some text, it, and some text.
pub proof fn law_contains(haystack: Seq<char>, needle: Seq<char>)
    ensures
        contains_text(haystack, needle) <==> exists|before: Seq<char>, after: Seq<char>|
            haystack == #[trigger] (before + needle + after),
{
    if contains_text(haystack, needle) {
        let start = choose|start: int|
            0 <= start <= haystack.len() - needle.len() && #[trigger] haystack.subrange(
                start,
                start + needle.len(),
            ) == needle;
        let before = haystack.take(start);
        let after = haystack.skip(start + needle.len());
        assert(haystack =~= before + needle + after);
    }
    if exists|before: Seq<char>, after: Seq<char>|
        haystack == #[trigger] (before + needle + after) {
        let (before, after) = choose|before: Seq<char>, after: Seq<char>|
            haystack == #[trigger] (before + needle + after);
        let start = before.len() as int;
        assert(haystack.subrange(start, start + needle.len()) =~= needle);
    }
}

/// The lower-case form of a text, as the standard library's Unicode tables give it.
pub uninterp spec fn lowercase(text: Seq<char>) -> Seq<char>;

/// Calls `str::contains` with a string as the pattern. Taken on trust: the answer
/// is `true` exactly when the pattern is a run of consecutive characters of the text.
#[verifier::external_body]
pub(crate) fn str_contains(haystack: &str, needle: &str) -> (found: bool)
    ensures
        found == contains_text(haystack@, needle@),
{
    haystack.contains(needle)
}

/// Calls `str::to_lowercase`. Taken on trust: the result depends on the characters
/// of the text alone. Which lower-case characters come out is left unsaid.
#[verifier::external_body]
pub(crate) fn str_to_lowercase(text: &str) -> (lowered: String)
    ensures
        lowered@ == lowercase(text@),
{
    text.to_lowercase()
}

/// `before`, `middle` and `after` in one string.
pub fn enclose(before: &str, middle: &str, after: &str) -> (whole: String)
    ensures
        whole@ == before@ + middle@ + after@,
{
    before.to_owned().concat(middle).concat(after)
}

/// Each part, followed by a slash.
pub open spec fn slash_terminated(parts: Seq<Seq<char>>) -> Seq<char>
    decreases parts.len(),
{
    if parts.len() == 0 {
        Seq::empty()
    } else {
        slash_terminated(parts.drop_last()) + parts.last() + "/"@
    }
}

/// The parts in order, with one slash between each two neighbours.
pub open spec fn slash_joined(parts: Seq<Seq<char>>) -> Seq<char> {
    if parts.len() == 0 {
        Seq::empty()
    } else {
        slash_terminated(parts.drop_last()) + parts.last()
    }
}

/// Joins the first `count` parts with slashes.
pub fn join_with_slashes(parts: &Vec<String>, count: usize) -> (path: String)
    requires
        count <= parts@.len(),
    ensures
        path@ == slash_joined(texts(parts@).take(count as int)),
{
    let mut path = String::new();
    if count == 0 {
        return path;
    }
    let ghost all = texts(parts@);
    let mut i: usize = 0;
    while i < count - 1
        invariant
            i <= count - 1,
            0 < count <= parts@.len(),
            all == texts(parts@),
            path@ == slash_terminated(all.take(i as int)),
        decreases count - i,
    {
        path.append(parts[i].as_str());
        path.append("/");
        proof {
            assert(all.take(i + 1).drop_last() =~= all.take(i as int));
            assert(all.take(i + 1).last() == parts@[i as int]@);
        }
        i = i + 1;
    }
    path.append(parts[count - 1].as_str());
    proof {
        assert(all.take(count as int).drop_last() =~= all.take(count - 1));
        assert(all.take(count as int).last() == parts@[count - 1]@);
    }
    path
}

/// The character of a decimal digit.
pub open spec fn digit_char(digit: nat) -> char {
    if digit == 0 {
        '0'
    } else if digit == 1 {
        '1'
    } else if digit == 2 {
        '2'
    } else if digit == 3 {
        '3'
    } else if digit == 4 {
        '4'
    } else if digit == 5 {
        '5'
    } else if digit == 6 {
        '6'
    } else if digit == 7 {
        '7'
    } else if digit == 8 {
        '8'
    } else {
        '9'
    }
}

/// A number in decimal notation, without leading zeros.
pub open spec fn decimal_text(number: nat) -> Seq<char>
    decreases number,
{
    if number < 10 {
        seq![digit_char(number)]
    } else {
        decimal_text(number / 10).push(digit_char(number % 10))
    }
}

/// The number that a text of digits stands for.
pub open spec fn value_of(text: Seq<char>) -> int
    decreases text.len(),
{
    if text.len() == 0 {
        0
    } else {
        10 * value_of(text.drop_last()) + (text.last() as int - '0' as int)
    }
}

/// `text` is the usual way to write `number`: digits only, at least one, that stand for
/// it, and no zero before the others.
pub open spec fn is_decimal_of(text: Seq<char>, number: nat) -> bool {
    &&& text.len() > 0
    &&& forall|i: int|
        0 <= i < text.len() ==> '0' as int <= (#[trigger] text[i]) as int <= '9' as int
    &&& text.len() > 1 ==> text[0] != '0'
    &&& value_of(text) == number
}

/// A number is written the usual way, so that it can be read back.
pub proof fn law_decimal(number: nat)
    ensures
        is_decimal_of(decimal_text(number), number),
    decreases number,
{
    let text = decimal_text(number);
    reveal_with_fuel(value_of, 2);
    if number < 10 {
        assert(text.drop_last().len() == 0);
        assert(text.last() == digit_char(number));
        assert(text.last() as int - '0' as int == number);
    } else {
        law_decimal(number / 10);
        let front = decimal_text(number / 10);
        assert(text.drop_last() =~= front);
        assert(text[0] == front[0]);
        assert(text.last() as int - '0' as int == number % 10);
        if front.len() == 1 {
            assert(front.drop_last().len() == 0);
            assert(front.last() == front[0]);
        }
    }
}

fn digit_text(digit: usize) -> (text: &'static str)
    requires
        digit < 10,
    ensures
        text@ == seq![digit_char(digit as nat)],
{
    proof {
        reveal_strlit("0");
        reveal_strlit("1");
        reveal_strlit("2");
        reveal_strlit("3");
        reveal_strlit("4");
        reveal_strlit("5");
        reveal_strlit("6");
        reveal_strlit("7");
        reveal_strlit("8");
        reveal_strlit("9");
    }
    if digit == 0 {
        "0"
    } else if digit == 1 {
        "1"
    } else if digit == 2 {
        "2"
    } else if digit == 3 {
        "3"
    } else if digit == 4 {
        "4"
    } else if digit == 5 {
        "5"
    } else if digit == 6 {
        "6"
    } else if digit == 7 {
        "7"
    } else if digit == 8 {
        "8"
    } else {
        "9"
    }
}

/// Writes a number in decimal notation.
pub fn decimal(number: usize) -> (text: String)
    ensures
        text@ == decimal_text(number as nat),
    decreases number,
{
    if number < 10 {
        digit_text(number).to_owned()
    } else {
        let text = decimal(number / 10).concat(digit_text(number % 10));
        assert(text@ =~= decimal_text(number as nat));
        text
    }
}

} // verus!
