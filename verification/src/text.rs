//! Helpers for text: comparison, substring search, joining and lists of
//! lines, each with its meaning over sequences of characters.
//!
//! Three items of the standard library are used on trust, because nothing
//! here can look inside them: equality of string slices, `str::trim` and
//! `Path::file_name`. Each stands with what is assumed of it: of the first
//! two what they give, of the last only that it gives the same for the same
//! path.

use std::path::Path;
use vstd::prelude::*;
use vstd::string::*;

verus! {

/// Equality of string slices, as the standard library's `PartialEq` for
/// `str` decides it: two slices are equal exactly when they hold the same
/// characters in the same order. Assumed, not proved.
pub assume_specification[ <str as PartialEq>::eq ](a: &str, b: &str) -> (r: bool)
    ensures
        r == (a@ == b@),
;

/// Whether a character is white space: whether Unicode counts it under
/// `White_Space`. These are the tab and the four characters after it, the
/// space, the next-line control, and the spaces and separators beyond
/// ASCII.
pub open spec fn is_white_space(c: char) -> bool {
    let code = c as u32;
    ||| 0x09 <= code <= 0x0D
    ||| code == 0x20
    ||| code == 0x85
    ||| code == 0xA0
    ||| code == 0x1680
    ||| 0x2000 <= code <= 0x200A
    ||| code == 0x2028
    ||| code == 0x2029
    ||| code == 0x202F
    ||| code == 0x205F
    ||| code == 0x3000
}

/// A text without the white space at its start.
pub open spec fn without_leading_white_space(text: Seq<char>) -> Seq<char>
    decreases text.len(),
{
    if text.len() > 0 && is_white_space(text.first()) {
        without_leading_white_space(text.drop_first())
    } else {
        text
    }
}

/// A text without the white space at its end.
pub open spec fn without_trailing_white_space(text: Seq<char>) -> Seq<char>
    decreases text.len(),
{
    if text.len() > 0 && is_white_space(text.last()) {
        without_trailing_white_space(text.drop_last())
    } else {
        text
    }
}

/// A text without the white space at its start and at its end.
pub open spec fn trimmed(text: Seq<char>) -> Seq<char> {
    without_trailing_white_space(without_leading_white_space(text))
}

/// Calls `str::trim`, which gives the text without the white space at its
/// start and at its end, where white space is what Unicode calls so.
#[verifier::external_body]
pub(crate) fn trim(text: &str) -> (inner: &str)
    ensures
        inner@ == trimmed(text@),
{
    text.trim()
}

/// Whether a character is white space.
pub fn white_space(c: char) -> (white: bool)
    ensures
        white == is_white_space(c),
{
    let code: u32 = c as u32;
    (0x09 <= code && code <= 0x0D) || code == 0x20 || code == 0x85 || code == 0xA0 || code
        == 0x1680 || (0x2000 <= code && code <= 0x200A) || code == 0x2028 || code == 0x2029
        || code == 0x202F || code == 0x205F || code == 0x3000
}

/// Whether every character of a text is white space.
pub open spec fn all_white_space(text: Seq<char>) -> bool {
    forall|i: int| 0 <= i < text.len() ==> is_white_space(#[trigger] text[i])
}

/// Trimming takes the white space around a text away and leaves the text:
/// a text that neither begins nor ends with white space is what is left of
/// it with white space before and after.
pub proof fn lemma_trimmed_of_padded(before: Seq<char>, inner: Seq<char>, after: Seq<char>)
    requires
        all_white_space(before),
        all_white_space(after),
        inner.len() > 0,
        !is_white_space(inner.first()),
        !is_white_space(inner.last()),
    ensures
        trimmed(before + inner + after) == inner,
{
    lemma_leading_white_space_goes(before, inner + after);
    assert(before + (inner + after) =~= before + inner + after);
    lemma_trailing_white_space_goes(inner, after);
}

/// Nothing is left of a text that is all white space.
pub proof fn lemma_trimmed_of_blank(text: Seq<char>)
    requires
        all_white_space(text),
    ensures
        trimmed(text) == Seq::<char>::empty(),
    decreases text.len(),
{
    if text.len() > 0 {
        assert forall|i: int| 0 <= i < text.drop_first().len() implies is_white_space(
            #[trigger] text.drop_first()[i],
        ) by {
            assert(text.drop_first()[i] == text[i + 1]);
        }
        lemma_trimmed_of_blank(text.drop_first());
        assert(is_white_space(text[0]));
    } else {
        assert(text =~= Seq::<char>::empty());
    }
}

/// White space before a text that does not begin with any goes.
proof fn lemma_leading_white_space_goes(before: Seq<char>, rest: Seq<char>)
    requires
        all_white_space(before),
        rest.len() > 0,
        !is_white_space(rest.first()),
    ensures
        without_leading_white_space(before + rest) == rest,
    decreases before.len(),
{
    let whole = before + rest;
    if before.len() == 0 {
        assert(whole =~= rest);
    } else {
        assert(whole.first() == before[0]);
        assert(whole.drop_first() =~= before.drop_first() + rest);
        assert forall|i: int| 0 <= i < before.drop_first().len() implies is_white_space(
            #[trigger] before.drop_first()[i],
        ) by {
            assert(before.drop_first()[i] == before[i + 1]);
        }
        lemma_leading_white_space_goes(before.drop_first(), rest);
    }
}

/// White space after a text that does not end with any goes.
proof fn lemma_trailing_white_space_goes(rest: Seq<char>, after: Seq<char>)
    requires
        all_white_space(after),
        rest.len() > 0,
        !is_white_space(rest.last()),
    ensures
        without_trailing_white_space(rest + after) == rest,
    decreases after.len(),
{
    let whole = rest + after;
    if after.len() == 0 {
        assert(whole =~= rest);
    } else {
        assert(whole.last() == after.last());
        assert(whole.drop_last() =~= rest + after.drop_last());
        assert forall|i: int| 0 <= i < after.drop_last().len() implies is_white_space(
            #[trigger] after.drop_last()[i],
        ) by {
            assert(after.drop_last()[i] == after[i]);
        }
        lemma_trailing_white_space_goes(rest, after.drop_last());
    }
}

/// The final component of a path, as `Path::file_name` gives it, if the
/// path has one; it has none where it ends in `..`. Paths are read as Unix
/// reads them: this library runs nowhere else.
pub uninterp spec fn base_name(path: Seq<char>) -> Option<Seq<char>>;

/// Calls `Path::file_name` on the text as a path, and hands the component
/// back as text.
#[verifier::external_body]
pub(crate) fn file_name(path: &str) -> (name: Option<String>)
    ensures
        match name {
            Some(component) => base_name(path@) == Some(component@),
            None => base_name(path@) is None,
        },
{
    Path::new(path).file_name().and_then(|name| name.to_str()).map(|name| name.to_string())
}

/// Whether two string slices hold the same text.
pub fn str_eq(a: &str, b: &str) -> (same: bool)
    ensures
        same == (a@ == b@),
{
    a.eq(b)
}

/// An owned copy of a piece of text.
pub fn line(text: &str) -> (owned: String)
    ensures
        owned@ == text@,
{
    String::from_str(text)
}

/// `open`, `inner` and `close` written one after another.
pub fn enclose(open: &str, inner: &str, close: &str) -> (text: String)
    ensures
        text@ == open@ + inner@ + close@,
{
    let mut text = line(open);
    text.append(inner);
    text.append(close);
    text
}

/// Adds one line at the end of a list of lines.
pub fn push_line(lines: &mut Vec<String>, text: &str)
    ensures
        texts(final(lines)@) == texts(old(lines)@).push(text@),
{
    lines.push(line(text));
    assert(texts(lines@) =~= texts(old(lines)@).push(text@));
}

/// The texts that a sequence of string slices holds.
pub open spec fn views(items: Seq<&'static str>) -> Seq<Seq<char>> {
    Seq::new(items.len(), |i: int| items[i]@)
}

/// The texts that a sequence of owned strings holds.
pub open spec fn texts(items: Seq<String>) -> Seq<Seq<char>> {
    Seq::new(items.len(), |i: int| items[i]@)
}

/// Whether `needle` occurs in `hay` at offset `at`.
pub open spec fn occurs_at(hay: Seq<char>, needle: Seq<char>, at: int) -> bool {
    0 <= at && at + needle.len() <= hay.len() && hay.subrange(at, at + needle.len()) == needle
}

/// Whether `needle` occurs somewhere in `hay` as a contiguous run.
pub open spec fn contains(hay: Seq<char>, needle: Seq<char>) -> bool {
    exists|at: int| occurs_at(hay, needle, at)
}

/// Text that occurs in a part occurs in the whole.
pub proof fn lemma_contains_in_middle(
    before: Seq<char>,
    middle: Seq<char>,
    after: Seq<char>,
    needle: Seq<char>,
)
    requires
        contains(middle, needle),
    ensures
        contains(before + middle + after, needle),
{
    let at: int = choose|at: int| occurs_at(middle, needle, at);
    let whole = before + middle + after;
    let shifted: int = before.len() + at;
    assert(whole.subrange(shifted, shifted + needle.len()) =~= middle.subrange(
        at,
        at + needle.len(),
    ));
    assert(occurs_at(whole, needle, shifted));
}

/// Whether the only thing that `text` escapes with a backslash is the
/// dollar sign: every backslash in it stands directly before one.
pub open spec fn escapes_only_dollars(text: Seq<char>) -> bool {
    forall|i: int|
        #![trigger text[i]]
        0 <= i < text.len() && text[i] == '\\' ==> i + 1 < text.len() && text[i + 1] == '$'
}

/// The same of the part of `text` that begins at `from`, looked at
/// character by character.
pub open spec fn escapes_only_dollars_from(text: Seq<char>, from: int) -> bool
    decreases text.len() - from,
{
    if from < 0 || from >= text.len() {
        true
    } else {
        &&& text[from] == '\\' ==> from + 1 < text.len() && text[from + 1] == '$'
        &&& escapes_only_dollars_from(text, from + 1)
    }
}

/// Looking at a text character by character from its start settles the
/// matter for the whole text.
pub proof fn lemma_escapes_checked(text: Seq<char>, from: int)
    requires
        0 <= from,
        escapes_only_dollars_from(text, from),
    ensures
        forall|i: int|
            #![trigger text[i]]
            from <= i < text.len() && text[i] == '\\' ==> i + 1 < text.len() && text[i + 1]
                == '$',
        from == 0 ==> escapes_only_dollars(text),
    decreases text.len() - from,
{
    if from < text.len() {
        lemma_escapes_checked(text, from + 1);
    }
}

/// Two texts that escape only dollar signs do so when written one after
/// the other.
pub proof fn lemma_escapes_concat(first: Seq<char>, second: Seq<char>)
    requires
        escapes_only_dollars(first),
        escapes_only_dollars(second),
    ensures
        escapes_only_dollars(first + second),
{
    let whole = first + second;
    assert forall|i: int|
        #![trigger whole[i]]
        0 <= i < whole.len() && whole[i] == '\\' implies i + 1 < whole.len() && whole[i + 1]
        == '$' by {
        if i < first.len() {
            assert(first[i] == '\\');
            assert(whole[i + 1] == first[i + 1]);
        } else {
            assert(second[i - first.len()] == '\\');
            assert(whole[i + 1] == second[i + 1 - first.len()]);
        }
    }
}

/// A text that escapes only dollar signs holds no backslash before
/// anything else: no text that begins with a backslash and another
/// character occurs in it.
pub proof fn lemma_no_other_escape(text: Seq<char>, needle: Seq<char>)
    requires
        escapes_only_dollars(text),
        needle.len() >= 2,
        needle[0] == '\\',
        needle[1] != '$',
    ensures
        !contains(text, needle),
{
    if contains(text, needle) {
        let at: int = choose|at: int| occurs_at(text, needle, at);
        let found = text.subrange(at, at + needle.len());
        assert(found[0] == text[at]);
        assert(found[1] == text[at + 1]);
    }
}

/// The items written one after another with `separator` between neighbours.
pub open spec fn joined(items: Seq<Seq<char>>, separator: Seq<char>) -> Seq<char>
    decreases items.len(),
{
    if items.len() == 0 {
        Seq::empty()
    } else if items.len() == 1 {
        items[0]
    } else {
        joined(items.drop_last(), separator) + separator + items.last()
    }
}

/// Text that occurs in one item occurs in the items joined.
pub proof fn lemma_joined_contains(
    items: Seq<Seq<char>>,
    separator: Seq<char>,
    k: int,
    needle: Seq<char>,
)
    requires
        0 <= k < items.len(),
        contains(items[k], needle),
    ensures
        contains(joined(items, separator), needle),
    decreases items.len(),
{
    if items.len() > 1 {
        let head = joined(items.drop_last(), separator);
        if k == items.len() - 1 {
            lemma_contains_in_middle(head + separator, items.last(), Seq::empty(), needle);
            assert(head + separator + items.last() + Seq::<char>::empty() =~= joined(
                items,
                separator,
            ));
        } else {
            lemma_joined_contains(items.drop_last(), separator, k, needle);
            lemma_contains_in_middle(Seq::empty(), head, separator + items.last(), needle);
            assert(Seq::<char>::empty() + head + (separator + items.last()) =~= joined(
                items,
                separator,
            ));
        }
    }
}

/// Writes the lines one after another with `separator` between neighbours.
pub fn join_lines(items: &Vec<String>, separator: &str) -> (text: String)
    ensures
        text@ == joined(texts(items@), separator@),
{
    let mut text = String::new();
    let mut i: usize = 0;
    while i < items.len()
        invariant
            i <= items.len(),
            text@ == joined(texts(items@).take(i as int), separator@),
        decreases items.len() - i,
    {
        let ghost done = texts(items@).take(i as int);
        let ghost next = texts(items@).take(i + 1);
        proof {
            assert(next.drop_last() =~= done);
            assert(next.last() == items@[i as int]@);
        }
        if i > 0 {
            text.append(separator);
        }
        text.append(items[i].as_str());
        proof {
            if i == 0 {
                assert(text@ =~= items@[0]@);
            }
        }
        i = i + 1;
    }
    proof {
        assert(texts(items@).take(items@.len() as int) =~= texts(items@));
    }
    text
}

/// Writes the items one after another with `separator` between neighbours.
pub fn join(items: &[&'static str], separator: &str) -> (text: String)
    ensures
        text@ == joined(views(items@), separator@),
{
    let mut text = String::new();
    let mut i: usize = 0;
    while i < items.len()
        invariant
            i <= items.len(),
            text@ == joined(views(items@).take(i as int), separator@),
        decreases items.len() - i,
    {
        let ghost done = views(items@).take(i as int);
        let ghost next = views(items@).take(i + 1);
        proof {
            assert(next.drop_last() =~= done);
            assert(next.last() == items@[i as int]@);
        }
        if i > 0 {
            text.append(separator);
        }
        text.append(items[i]);
        proof {
            if i == 0 {
                assert(text@ =~= items@[0]@);
            }
        }
        i = i + 1;
    }
    proof {
        assert(views(items@).take(items@.len() as int) =~= views(items@));
    }
    text
}

} // verus!
