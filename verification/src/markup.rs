//! Markup shortcuts: wrapping the selection in a pair of markers, or taking
//! the markers away when they are already there.

use crate::text_buffer::{
    buffer_char_range, buffer_delete_char_range, buffer_insert_text, chars_between, clamp_index,
    insert_at, remove_between,
};
use vstd::prelude::*;

verus! {

/// The selection of a text edit, by character index. The two ends may come
/// in either order; `primary` is the end that moves.
#[derive(Clone, Copy, Debug, PartialEq, Eq, Structural)]
pub struct CursorRange {
    pub primary: usize,
    pub secondary: usize,
}

impl CursorRange {
    /// The start of the selection.
    pub open spec fn low(self) -> int {
        if self.primary <= self.secondary { self.primary as int } else { self.secondary as int }
    }

    /// The end of the selection.
    pub open spec fn high(self) -> int {
        if self.primary <= self.secondary { self.secondary as int } else { self.primary as int }
    }

    /// Both ends of the selection moved by `delta` characters.
    pub open spec fn shifted(self, delta: int) -> CursorRange {
        CursorRange {
            primary: (self.primary + delta) as usize,
            secondary: (self.secondary + delta) as usize,
        }
    }

    /// The two ends of the selection, start first.
    pub fn sorted(&self) -> (r: (usize, usize))
        ensures
            r.0 == self.low(),
            r.1 == self.high(),
    {
        if self.primary <= self.secondary {
            (self.primary, self.secondary)
        } else {
            (self.secondary, self.primary)
        }
    }
}

/// `a - b`, or 0 where that is negative.
pub open spec fn sat_sub(a: int, b: int) -> int {
    if a >= b { a - b } else { 0 }
}

/// `a + b`, or `usize::MAX` where that is larger.
pub open spec fn sat_add(a: int, b: int) -> int {
    if a + b > usize::MAX { usize::MAX as int } else { a + b }
}

/// The characters just before the selection spell `s`, and so do those just after it.
pub open spec fn is_surrounded(t: Seq<char>, r: CursorRange, s: Seq<char>) -> bool {
    &&& chars_between(t, sat_sub(r.low(), s.len() as int), r.low()) == s
    &&& chars_between(t, r.high(), sat_add(r.high(), s.len() as int)) == s
}

/// The text after toggling the markers `s` around the selection `r`: the
/// markers are taken away where they surround it (the one after it first),
/// and otherwise put in, first at its end and then at its start.
#[verifier::opaque]
pub open spec fn toggled_text(t: Seq<char>, r: CursorRange, s: Seq<char>) -> Seq<char> {
    let n = s.len() as int;
    if is_surrounded(t, r, s) {
        remove_between(
            remove_between(t, r.high(), sat_add(r.high(), n)),
            sat_sub(r.low(), n),
            r.low(),
        )
    } else {
        insert_at(insert_at(t, r.high(), s), r.low(), s)
    }
}

/// The selection after toggling the markers `s`: both ends move back by the
/// length of `s` where markers were taken away, and forward where they were put in.
pub open spec fn toggled_range(t: Seq<char>, r: CursorRange, s: Seq<char>) -> CursorRange {
    if is_surrounded(t, r, s) {
        r.shifted(-(s.len() as int))
    } else {
        r.shifted(s.len() as int)
    }
}

/// Toggles the markers `surrounding` around the selection, e.g. `*strong*`
/// with `"*"`: where the selection is already surrounded by them they are
/// removed, otherwise they are added; the selection moves with the text.
pub fn toggle_surrounding(code: &mut String, ccursor_range: &mut CursorRange, surrounding: &str)
    requires
        old(ccursor_range).primary + surrounding@.len() <= usize::MAX,
        old(ccursor_range).secondary + surrounding@.len() <= usize::MAX,
    ensures
        final(code)@ == toggled_text(old(code)@, *old(ccursor_range), surrounding@),
        *final(ccursor_range) == toggled_range(old(code)@, *old(ccursor_range), surrounding@),
{
    reveal(toggled_text);
    let ghost t = code@;
    let ghost r = *ccursor_range;
    let (primary, secondary) = ccursor_range.sorted();
    let surrounding_ccount = surrounding.unicode_len();
    let prefix_start = primary.saturating_sub(surrounding_ccount);
    let suffix_end = secondary.saturating_add(surrounding_ccount);
    let marker = String::from_str(surrounding);
    let already_surrounded = buffer_char_range(code, prefix_start, primary) == marker
        && buffer_char_range(code, secondary, suffix_end) == marker;
    if already_surrounded {
        assert(is_surrounded(t, r, surrounding@));
        buffer_delete_char_range(code, secondary, suffix_end);
        buffer_delete_char_range(code, prefix_start, primary);
        proof {
            lemma_surrounded_bounds(t, r, surrounding@);
        }
        ccursor_range.primary = ccursor_range.primary - surrounding_ccount;
        ccursor_range.secondary = ccursor_range.secondary - surrounding_ccount;
    } else {
        buffer_insert_text(code, surrounding, secondary);
        let advance = buffer_insert_text(code, surrounding, primary);
        ccursor_range.primary = ccursor_range.primary + advance;
        ccursor_range.secondary = ccursor_range.secondary + advance;
    }
}

/// Where the markers surround the selection, the selection starts at least
/// their length into the text and, for markers that are not empty, ends at
/// least their length before the end of the text.
pub proof fn lemma_surrounded_bounds(t: Seq<char>, r: CursorRange, s: Seq<char>)
    requires
        is_surrounded(t, r, s),
    ensures
        s.len() <= r.low(),
        s.len() > 0 ==> r.high() + s.len() <= t.len(),
{
    let n = s.len() as int;
    assert(chars_between(t, sat_sub(r.low(), n), r.low()).len() == n);
    assert(chars_between(t, r.high(), sat_add(r.high(), n)).len() == n);
}

/// With the selection inside the text, toggling takes away the markers just
/// before and just after the selection, or puts them in at its two ends.
pub proof fn lemma_toggled_text_in_range(t: Seq<char>, r: CursorRange, s: Seq<char>)
    requires
        r.high() <= t.len(),
    ensures
        is_surrounded(t, r, s) ==> toggled_text(t, r, s) == t.subrange(0, r.low() - s.len())
            + t.subrange(r.low(), r.high()) + t.subrange(r.high() + s.len(), t.len() as int),
        !is_surrounded(t, r, s) ==> toggled_text(t, r, s) == t.subrange(0, r.low()) + s
            + t.subrange(r.low(), r.high()) + s + t.subrange(r.high(), t.len() as int),
{
    reveal(toggled_text);
    let n = s.len() as int;
    let lo = r.low();
    let hi = r.high();
    if is_surrounded(t, r, s) {
        lemma_surrounded_bounds(t, r, s);
        if n > 0 {
            let t1 = remove_between(t, hi, sat_add(hi, n));
            assert(t1 =~= t.subrange(0, hi) + t.subrange(hi + n, t.len() as int));
            assert(remove_between(t1, sat_sub(lo, n), lo) =~= t.subrange(0, lo - n)
                + t.subrange(lo, hi) + t.subrange(hi + n, t.len() as int));
        } else {
            let t1 = remove_between(t, hi, sat_add(hi, n));
            assert(t1 =~= t);
            assert(remove_between(t1, sat_sub(lo, n), lo) =~= t);
            assert(t =~= t.subrange(0, lo - n) + t.subrange(lo, hi) + t.subrange(
                hi + n,
                t.len() as int,
            ));
        }
    } else {
        let t1 = insert_at(t, hi, s);
        assert(t1 =~= t.subrange(0, hi) + s + t.subrange(hi, t.len() as int));
        assert(insert_at(t1, lo, s) =~= t.subrange(0, lo) + s + t.subrange(lo, hi) + s
            + t.subrange(hi, t.len() as int));
    }
}

/// Toggling the markers twice around a selection that they did not surround
/// gives back the text and the selection: the first toggle puts the markers
/// in, so that they surround the selection, and the second takes them away.
/// The bounds say only that the selection lies in the text and that the
/// lengths involved fit in a `usize`, as they do for every string in memory.
pub proof fn law_toggle_twice_restores(t: Seq<char>, r: CursorRange, s: Seq<char>)
    requires
        !is_surrounded(t, r, s),
        r.high() <= t.len(),
        t.len() + 2 * s.len() <= usize::MAX,
        r.primary + s.len() <= usize::MAX,
        r.secondary + s.len() <= usize::MAX,
    ensures
        is_surrounded(toggled_text(t, r, s), toggled_range(t, r, s), s),
        toggled_text(toggled_text(t, r, s), toggled_range(t, r, s), s) == t,
        toggled_range(toggled_text(t, r, s), toggled_range(t, r, s), s) == r,
{
    let n = s.len() as int;
    let lo = r.low();
    let hi = r.high();
    let t1 = toggled_text(t, r, s);
    let r1 = toggled_range(t, r, s);
    let a = t.subrange(0, lo);
    let b = t.subrange(lo, hi);
    let c = t.subrange(hi, t.len() as int);
    lemma_toggled_text_in_range(t, r, s);
    assert(t1 == a + s + b + s + c);
    assert(r1 == r.shifted(n));
    assert(r1.low() == lo + n && r1.high() == hi + n);
    assert(t1.len() == t.len() + 2 * n);
    assert(chars_between(t1, sat_sub(r1.low(), n), r1.low()) == s) by {
        assert(sat_sub(r1.low(), n) == lo);
        assert(t1.subrange(lo, lo + n) =~= s);
    }
    assert(chars_between(t1, r1.high(), sat_add(r1.high(), n)) == s) by {
        assert(sat_add(r1.high(), n) == hi + 2 * n);
        assert(t1.subrange(hi + n, hi + 2 * n) =~= s);
    }
    assert(r1.high() <= t1.len());
    lemma_toggled_text_in_range(t1, r1, s);
    assert(toggled_text(t1, r1, s) == t) by {
        assert(t1.subrange(0, lo) =~= a);
        assert(t1.subrange(lo + n, hi + n) =~= b);
        assert(t1.subrange(hi + 2 * n, t1.len() as int) =~= c);
        assert(a + b + c =~= t);
    }
}

/// Toggling keeps the selected characters selected: the selection after the
/// toggle spans the same characters as before it.
pub proof fn law_toggle_keeps_selection(t: Seq<char>, r: CursorRange, s: Seq<char>)
    requires
        r.high() <= t.len(),
        r.primary + s.len() <= usize::MAX,
        r.secondary + s.len() <= usize::MAX,
    ensures
        chars_between(
            toggled_text(t, r, s),
            toggled_range(t, r, s).low(),
            toggled_range(t, r, s).high(),
        ) == chars_between(t, r.low(), r.high()),
{
    let n = s.len() as int;
    let t1 = toggled_text(t, r, s);
    let r1 = toggled_range(t, r, s);
    lemma_toggled_text_in_range(t, r, s);
    if is_surrounded(t, r, s) {
        lemma_surrounded_bounds(t, r, s);
        assert(r1.low() == r.low() - n && r1.high() == r.high() - n);
        assert(chars_between(t1, r1.low(), r1.high()) =~= t.subrange(r.low(), r.high()));
    } else {
        assert(r1.low() == r.low() + n && r1.high() == r.high() + n);
        assert(chars_between(t1, r1.low(), r1.high()) =~= t.subrange(r.low(), r.high()));
    }
}

/// The keys that, held with the command modifier, toggle a kind of markup.
#[derive(Clone, Copy, Debug, PartialEq, Eq, Structural)]
pub enum ShortcutKey {
    /// `*strong*`
    B,
    /// `` `code` ``
    D,
    /// `/italics/`
    I,
    /// `$subscript$`
    L,
    /// `^superscript^`
    R,
    /// `~strikethrough~`
    S,
    /// `_underline_`
    U,
}

/// The marker that a shortcut key puts around the selection.
pub open spec fn marker_char(key: ShortcutKey) -> char {
    match key {
        ShortcutKey::B => '*',
        ShortcutKey::D => '`',
        ShortcutKey::I => '/',
        ShortcutKey::L => '$',
        ShortcutKey::R => '^',
        ShortcutKey::S => '~',
        ShortcutKey::U => '_',
    }
}

/// The marker of a shortcut key, as a string.
pub fn surrounding_of(key: ShortcutKey) -> (r: &'static str)
    ensures
        r@ == seq![marker_char(key)],
{
    match key {
        ShortcutKey::B => {
            proof {
                reveal_strlit("*");
            }
            "*"
        },
        ShortcutKey::D => {
            proof {
                reveal_strlit("`");
            }
            "`"
        },
        ShortcutKey::I => {
            proof {
                reveal_strlit("/");
            }
            "/"
        },
        ShortcutKey::L => {
            proof {
                reveal_strlit("$");
            }
            "$"
        },
        ShortcutKey::R => {
            proof {
                reveal_strlit("^");
            }
            "^"
        },
        ShortcutKey::S => {
            proof {
                reveal_strlit("~");
            }
            "~"
        },
        ShortcutKey::U => {
            proof {
                reveal_strlit("_");
            }
            "_"
        },
    }
}

/// The shortcut keys in the order in which they are looked at.
pub fn shortcut_keys() -> (keys: Vec<ShortcutKey>)
    ensures
        keys@ == seq![
            ShortcutKey::B,
            ShortcutKey::D,
            ShortcutKey::I,
            ShortcutKey::L,
            ShortcutKey::R,
            ShortcutKey::S,
            ShortcutKey::U,
        ],
{
    vec![
        ShortcutKey::B,
        ShortcutKey::D,
        ShortcutKey::I,
        ShortcutKey::L,
        ShortcutKey::R,
        ShortcutKey::S,
        ShortcutKey::U,
    ]
}

/// The text and selection after toggling the markers of `keys`, one after the other.
pub open spec fn apply_toggles(t: Seq<char>, r: CursorRange, keys: Seq<ShortcutKey>) -> (Seq<char>, CursorRange)
    decreases keys.len(),
{
    if keys.len() == 0 {
        (t, r)
    } else {
        let (t0, r0) = apply_toggles(t, r, keys.drop_last());
        let s = seq![marker_char(keys.last())];
        (toggled_text(t0, r0, s), toggled_range(t0, r0, s))
    }
}

/// Each toggle moves the selection by one character, so after `keys` its ends
/// have moved forward by at most the number of keys.
pub proof fn lemma_toggles_move_range(t: Seq<char>, r: CursorRange, keys: Seq<ShortcutKey>)
    ensures
        apply_toggles(t, r, keys).1.primary <= r.primary + keys.len(),
        apply_toggles(t, r, keys).1.secondary <= r.secondary + keys.len(),
    decreases keys.len(),
{
    if keys.len() > 0 {
        lemma_toggles_move_range(t, r, keys.drop_last());
        let (t0, r0) = apply_toggles(t, r, keys.drop_last());
        let s = seq![marker_char(keys.last())];
        if is_surrounded(t0, r0, s) {
            lemma_surrounded_bounds(t0, r0, s);
        }
    }
}

/// Pressing the same shortcut twice over a selection that its markers did
/// not surround gives back the text and the selection.
pub proof fn law_same_shortcut_twice_restores(t: Seq<char>, r: CursorRange, key: ShortcutKey)
    requires
        !is_surrounded(t, r, seq![marker_char(key)]),
        r.high() <= t.len(),
        t.len() + 2 <= usize::MAX,
        r.primary + 1 <= usize::MAX,
        r.secondary + 1 <= usize::MAX,
    ensures
        apply_toggles(t, r, seq![key, key]) == (t, r),
{
    let s = seq![marker_char(key)];
    let keys = seq![key, key];
    let one = seq![key];
    assert(keys.drop_last() =~= one);
    assert(keys.last() == key);
    assert(one.drop_last() =~= Seq::<ShortcutKey>::empty());
    assert(one.last() == key);
    assert(apply_toggles(t, r, one.drop_last()) == (t, r));
    assert(apply_toggles(t, r, one) == (toggled_text(t, r, s), toggled_range(t, r, s)));
    law_toggle_twice_restores(t, r, s);
}

/// Applies the markup shortcuts whose keys were pressed, in the order given,
/// to the text and its selection. Returns whether any key was pressed.
pub fn shortcuts(code: &mut String, ccursor_range: &mut CursorRange, pressed: &Vec<ShortcutKey>) -> (any_change: bool)
    requires
        old(ccursor_range).primary + pressed@.len() <= usize::MAX,
        old(ccursor_range).secondary + pressed@.len() <= usize::MAX,
    ensures
        any_change == (pressed@.len() > 0),
        (final(code)@, *final(ccursor_range)) == apply_toggles(old(code)@, *old(ccursor_range), pressed@),
{
    let ghost t = code@;
    let ghost r = *ccursor_range;
    let mut any_change = false;
    let mut i: usize = 0;
    while i < pressed.len()
        invariant
            0 <= i <= pressed@.len(),
            r.primary + pressed@.len() <= usize::MAX,
            r.secondary + pressed@.len() <= usize::MAX,
            (code@, *ccursor_range) == apply_toggles(t, r, pressed@.take(i as int)),
            any_change == (i > 0),
        decreases pressed@.len() - i,
    {
        proof {
            lemma_toggles_move_range(t, r, pressed@.take(i as int));
        }
        let surrounding = surrounding_of(pressed[i]);
        toggle_surrounding(code, ccursor_range, surrounding);
        any_change = true;
        proof {
            assert(pressed@.take(i + 1).drop_last() =~= pressed@.take(i as int));
        }
        i = i + 1;
    }
    proof {
        assert(pressed@.take(pressed@.len() as int) =~= pressed@);
    }
    any_change
}

} // verus!
