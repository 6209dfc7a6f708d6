//! Building source text from fragments.
//!
//! A fragment is a piece of Rust source held as a `String`; in contracts it is
//! the `Seq<char>` that the string views as. The functions here put fragments
//! together and say, character for character, what comes out.

use vstd::prelude::*;

verus! {

/// `text` followed by one space, or nothing where `text` is empty.
pub open spec fn spaced(text: Seq<char>) -> Seq<char> {
    if text.len() == 0 {
        text
    } else {
        text + " "@
    }
}

/// `word` where `present` holds, nothing otherwise.
pub open spec fn optional(present: bool, word: Seq<char>) -> Seq<char> {
    if present {
        word
    } else {
        Seq::empty()
    }
}

/// The fragments of `items` in order, each but the first preceded by `sep`.
pub open spec fn separated(items: Seq<Seq<char>>, sep: Seq<char>) -> Seq<char>
    decreases items.len(),
{
    if items.len() == 0 {
        Seq::empty()
    } else {
        let front = items.drop_last();
        separated(front, sep) + optional(front.len() > 0, sep) + items.last()
    }
}

/// Each fragment of `items` with `mark` put behind it.
pub open spec fn each_followed_by(items: Seq<Seq<char>>, mark: Seq<char>) -> Seq<Seq<char>> {
    Seq::new(items.len(), |i: int| items[i] + mark)
}

/// A copy of `text`.
pub(crate) fn copy_text(text: &String) -> (out: String)
    ensures
        out@ == text@,
{
    text.clone()
}

/// A copy of an optional fragment.
pub(crate) fn copy_optional_text(text: &Option<String>) -> (out: Option<String>)
    ensures
        out.deep_view() == text.deep_view(),
{
    match text {
        Some(t) => Some(copy_text(t)),
        None => None,
    }
}

/// A copy of `items`, fragment for fragment and in the same order.
pub(crate) fn copy_texts(items: &Vec<String>) -> (out: Vec<String>)
    ensures
        out.deep_view() == items.deep_view(),
{
    let mut out: Vec<String> = Vec::new();
    let mut i: usize = 0;
    while i < items.len()
        invariant
            i <= items.len(),
            out.len() == i,
            forall|j: int| 0 <= j < i ==> out[j]@ == items[j]@,
        decreases items.len() - i,
    {
        out.push(copy_text(&items[i]));
        i += 1;
    }
    out
}

/// Appends `text`, and one space after it, unless `text` is empty.
pub(crate) fn push_spaced(out: &mut String, text: &String)
    ensures
        final(out)@ == old(out)@ + spaced(text@),
{
    if !text.as_str().is_empty() {
        out.append(text.as_str());
        out.append(" ");
    }
}

/// Appends `word` where `present` holds.
pub(crate) fn push_optional(out: &mut String, present: bool, word: &str)
    ensures
        final(out)@ == old(out)@ + optional(present, word@),
{
    if present {
        out.append(word);
    }
}

/// Appends the fragments of `items` in order, with `sep` between neighbours.
pub(crate) fn push_separated(out: &mut String, items: &Vec<String>, sep: &str)
    ensures
        final(out)@ == old(out)@ + separated(items.deep_view(), sep@),
{
    let ghost all = items.deep_view();
    let mut i: usize = 0;
    while i < items.len()
        invariant
            i <= items.len(),
            all == items.deep_view(),
            out@ == old(out)@ + separated(all.take(i as int), sep@),
        decreases items.len() - i,
    {
        assert(all.take(i + 1).drop_last() =~= all.take(i as int));
        if i > 0 {
            out.append(sep);
        }
        out.append(items[i].as_str());
        i += 1;
    }
    assert(all.take(items.len() as int) =~= all);
}

/// Appends the fragments of `items` in order, with `mark` behind each and one
/// space between neighbours.
pub(crate) fn push_each_followed_by(out: &mut String, items: &Vec<String>, mark: &str)
    ensures
        final(out)@ == old(out)@ + separated(each_followed_by(items.deep_view(), mark@), " "@),
{
    let ghost all = each_followed_by(items.deep_view(), mark@);
    let mut i: usize = 0;
    while i < items.len()
        invariant
            i <= items.len(),
            all == each_followed_by(items.deep_view(), mark@),
            out@ == old(out)@ + separated(all.take(i as int), " "@),
        decreases items.len() - i,
    {
        assert(all.take(i + 1).drop_last() =~= all.take(i as int));
        if i > 0 {
            out.append(" ");
        }
        out.append(items[i].as_str());
        out.append(mark);
        i += 1;
    }
    assert(all.take(items.len() as int) =~= all);
}

} // verus!
