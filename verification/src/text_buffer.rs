//! Character-indexed editing of a `String`, done by egui's `TextBuffer`.
//!
//! egui turns a character index into a byte index by walking the string; an
//! index past the end stands for the end of the string. The spec functions
//! here state that clamping over the string's sequence of characters.

use eframe::egui::TextBuffer;
use vstd::prelude::*;

verus! {

/// The character position that egui uses for index `i` in a text of `len` characters.
pub open spec fn clamp_index(len: nat, i: int) -> int {
    if i < len { i } else { len as int }
}

/// The characters of `t` between the (clamped) positions `start` and `end`.
pub open spec fn chars_between(t: Seq<char>, start: int, end: int) -> Seq<char> {
    t.subrange(clamp_index(t.len(), start), clamp_index(t.len(), end))
}

/// `t` with the characters between the (clamped) positions `start` and `end` taken out.
pub open spec fn remove_between(t: Seq<char>, start: int, end: int) -> Seq<char> {
    t.subrange(0, clamp_index(t.len(), start)) + t.subrange(clamp_index(t.len(), end), t.len() as int)
}

/// `t` with `s` put in at the (clamped) position `at`.
pub open spec fn insert_at(t: Seq<char>, at: int, s: Seq<char>) -> Seq<char> {
    t.subrange(0, clamp_index(t.len(), at)) + s + t.subrange(clamp_index(t.len(), at), t.len() as int)
}

/// egui's `TextBuffer::char_range` on a `String`: the characters from
/// character index `start` up to `end`, each index clamped to the end of the
/// text. egui asserts `start <= end`.
#[verifier::external_body]
pub(crate) fn buffer_char_range(text: &String, start: usize, end: usize) -> (r: String)
    requires
        start <= end,
    ensures
        r@ == chars_between(text@, start as int, end as int),
{
    TextBuffer::char_range(text, start..end).to_owned()
}

/// egui's `TextBuffer::delete_char_range` on a `String`: removes the characters
/// from character index `start` up to `end`, each index clamped to the end of
/// the text. egui asserts `start <= end`.
#[verifier::external_body]
pub(crate) fn buffer_delete_char_range(text: &mut String, start: usize, end: usize)
    requires
        start <= end,
    ensures
        final(text)@ == remove_between(old(text)@, start as int, end as int),
{
    TextBuffer::delete_char_range(text, start..end)
}

/// egui's `TextBuffer::insert_text` on a `String`: inserts `s` at character
/// index `at` (clamped to the end of the text) and returns the number of
/// characters of `s`.
#[verifier::external_body]
pub(crate) fn buffer_insert_text(text: &mut String, s: &str, at: usize) -> (n: usize)
    ensures
        final(text)@ == insert_at(old(text)@, at as int, s@),
        n == s@.len(),
{
    TextBuffer::insert_text(text, s, at)
}

} // verus!
