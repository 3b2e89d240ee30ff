//! Measuring, stripping and truncating text that carries ANSI colour escapes.
//!
//! An escape span starts at the escape character and runs up to and including
//! the next `m`. The scanner has two states, inside a span or outside, and
//! makes no attempt to understand what a span says.

use vstd::prelude::*;
use vstd::string::*;
use crate::text::chars_of;

verus! {

/// The character that opens an escape span.
pub const ESC: char = '\x1b';

/// Whether the scanner is inside an escape span after reading all of `s`.
pub open spec fn escaping(s: Seq<char>) -> bool
    decreases s.len(),
{
    if s.len() == 0 {
        false
    } else if s.last() == ESC {
        true
    } else if s.last() == 'm' {
        false
    } else {
        escaping(s.drop_last())
    }
}

/// Whether an escape span opens at place `j` of `s` and is still open at
/// the end of `s`: an escape character stands at `j`, and no `m` after it.
pub open spec fn open_from(s: Seq<char>, j: int) -> bool {
    0 <= j < s.len() && s[j] == ESC && forall|k: int| j < k < s.len() ==> s[k] != 'm'
}

/// The scanner is inside an escape span exactly where some escape character
/// has no `m` after it.
pub proof fn lemma_escaping_is_open_span(s: Seq<char>)
    ensures
        escaping(s) <==> exists|j: int| open_from(s, j),
    decreases s.len(),
{
    if s.len() > 0 {
        let p = s.drop_last();
        let last = s.len() - 1;
        lemma_escaping_is_open_span(p);
        if s.last() == ESC {
            assert(open_from(s, last));
        } else if s.last() == 'm' {
            assert forall|j: int| !open_from(s, j) by {
                if 0 <= j < last && s[j] == ESC {
                    assert(s[last] == 'm');
                }
            }
        } else {
            if escaping(p) {
                let j = choose|j: int| open_from(p, j);
                assert(open_from(s, j)) by {
                    assert forall|k: int| j < k < s.len() implies s[k] != 'm' by {
                        if k < last {
                            assert(p[k] == s[k]);
                        }
                    }
                }
            }
            if exists|j: int| open_from(s, j) {
                let j = choose|j: int| open_from(s, j);
                assert(open_from(p, j)) by {
                    assert forall|k: int| j < k < p.len() implies p[k] != 'm' by {
                        assert(p[k] == s[k]);
                    }
                }
            }
        }
    }
}

/// Whether the character that follows the prefix `before` is shown on screen.
pub open spec fn shown(before: Seq<char>, c: char) -> bool {
    c != ESC && !escaping(before)
}

/// The characters of `s` that lie outside every escape span.
pub open spec fn visible(s: Seq<char>) -> Seq<char>
    decreases s.len(),
{
    if s.len() == 0 {
        Seq::empty()
    } else if shown(s.drop_last(), s.last()) {
        visible(s.drop_last()).push(s.last())
    } else {
        visible(s.drop_last())
    }
}

/// Removes every escape span from `text`.
pub fn strip_ansi_codes(text: &str) -> (out: String)
    ensures
        out@ == visible(text@),
{
    let mut out = String::new();
    let mut in_escape = false;
    for ch in iter: text.chars()
        invariant
            iter.seq() == text@,
            in_escape == escaping(text@.take(iter.index())),
            out@ == visible(text@.take(iter.index())),
    {
        proof {
            let i = iter.index();
            assert(text@.take(i + 1).drop_last() =~= text@.take(i));
        }
        if ch == ESC {
            in_escape = true;
        } else if in_escape && ch == 'm' {
            in_escape = false;
        } else if !in_escape {
            out.push(ch);
        }
    }
    assert(text@.take(text@.len() as int) =~= text@);
    out
}

/// The number of characters of `text` that lie outside every escape span.
pub fn strip_ansi_for_length(text: &str) -> (length: usize)
    ensures
        length == visible(text@).len(),
{
    let chars = chars_of(text);
    let mut length: usize = 0;
    let mut in_escape = false;
    let mut i: usize = 0;
    while i < chars.len()
        invariant
            chars@ == text@,
            i <= chars.len(),
            length <= i,
            in_escape == escaping(text@.take(i as int)),
            length == visible(text@.take(i as int)).len(),
        decreases chars.len() - i,
    {
        let ch = chars[i];
        assert(text@.take(i + 1).drop_last() =~= text@.take(i as int));
        if ch == ESC {
            in_escape = true;
        } else if in_escape && ch == 'm' {
            in_escape = false;
        } else if !in_escape {
            length = length + 1;
        }
        i = i + 1;
    }
    assert(text@.take(text@.len() as int) =~= text@);
    length
}

/// The three periods that end a truncated text.
pub open spec fn ellipsis() -> Seq<char> {
    seq!['.', '.', '.']
}

/// How many shown characters of the text survive a truncation to `max_width`:
/// three columns are held back for the ellipsis, and never fewer than zero
/// are left.
pub open spec fn budget(max_width: nat) -> nat {
    if max_width >= 3 {
        (max_width - 3) as nat
    } else {
        0
    }
}

/// The longest prefix of `s` with at most `budget` shown characters.
pub open spec fn kept(s: Seq<char>, budget: nat) -> Seq<char>
    decreases s.len(),
{
    if s.len() == 0 || visible(s).len() <= budget {
        s
    } else {
        kept(s.drop_last(), budget)
    }
}

/// `s` cut down to `budget(max_width)` shown characters and an ellipsis, or
/// `s` itself where it has no more shown characters than that.
pub open spec fn clipped(s: Seq<char>, max_width: nat) -> Seq<char> {
    if visible(s).len() <= budget(max_width) {
        s
    } else {
        kept(s, budget(max_width)) + ellipsis()
    }
}

/// `s` made to fit `max_width` columns: unchanged where it fits, clipped
/// where it does not.
pub open spec fn truncated(s: Seq<char>, max_width: nat) -> Seq<char> {
    if visible(s).len() <= max_width {
        s
    } else {
        clipped(s, max_width)
    }
}

/// The shown characters of a prefix are a prefix of the shown characters.
pub proof fn lemma_visible_prefix(s: Seq<char>, i: int)
    requires
        0 <= i <= s.len(),
    ensures
        visible(s.take(i)).len() <= visible(s).len(),
        visible(s.take(i)) == visible(s).take(visible(s.take(i)).len() as int),
    decreases s.len(),
{
    if i == s.len() {
        assert(s.take(i) =~= s);
        assert(visible(s).take(visible(s).len() as int) =~= visible(s));
    } else {
        let p = s.drop_last();
        lemma_visible_prefix(p, i);
        assert(p.take(i) =~= s.take(i));
        let n = visible(s.take(i)).len() as int;
        assert(visible(p).take(n) =~= visible(s).take(n));
    }
}

/// No more characters are shown than there are.
pub proof fn lemma_visible_len(s: Seq<char>)
    ensures
        visible(s).len() <= s.len(),
    decreases s.len(),
{
    if s.len() > 0 {
        lemma_visible_len(s.drop_last());
    }
}

/// Where the character at `i` is the first to exceed the budget, the kept
/// prefix ends just before it.
pub proof fn lemma_kept_at(s: Seq<char>, i: int, budget: nat)
    requires
        0 <= i < s.len(),
        visible(s.take(i)).len() <= budget,
        visible(s.take(i + 1)).len() > budget,
    ensures
        visible(s).len() > budget,
        kept(s, budget) == s.take(i),
    decreases s.len(),
{
    lemma_visible_prefix(s, i + 1);
    let p = s.drop_last();
    if s.len() == i + 1 {
        assert(s.take(i + 1) =~= s);
        assert(p =~= s.take(i));
        assert(kept(p, budget) == p);
    } else {
        assert(p.take(i) =~= s.take(i));
        assert(p.take(i + 1) =~= s.take(i + 1));
        lemma_kept_at(p, i, budget);
    }
}

/// Cuts `text` down to `max_width` columns less three, and ends it with an
/// ellipsis, wherever it shows more characters than that. Escape spans are
/// copied as they are and take up no columns.
pub fn truncate_with_ansi(text: &str, max_width: usize) -> (out: String)
    ensures
        out@ == clipped(text@, max_width as nat),
{
    let chars = chars_of(text);
    let limit: usize = if max_width >= 3 { max_width - 3 } else { 0 };
    let mut out = String::new();
    let mut visible_count: usize = 0;
    let mut in_escape = false;
    let mut i: usize = 0;
    while i < chars.len()
        invariant
            chars@ == text@,
            i <= chars.len(),
            limit == budget(max_width as nat),
            out@ == text@.take(i as int),
            in_escape == escaping(text@.take(i as int)),
            visible_count == visible(text@.take(i as int)).len(),
            visible_count <= limit,
        decreases chars.len() - i,
    {
        let ch = chars[i];
        assert(text@.take(i + 1).drop_last() =~= text@.take(i as int));
        assert(text@.take(i + 1) =~= text@.take(i as int).push(ch));
        if ch == ESC {
            in_escape = true;
            out.push(ch);
        } else if in_escape {
            out.push(ch);
            if ch == 'm' {
                in_escape = false;
            }
        } else {
            if visible_count >= limit {
                proof {
                    lemma_kept_at(text@, i as int, limit as nat);
                    reveal_strlit("...");
                    assert("..."@ =~= ellipsis());
                }
                out.append("...");
                return out;
            }
            out.push(ch);
            visible_count = visible_count + 1;
        }
        i = i + 1;
    }
    assert(text@.take(text@.len() as int) =~= text@);
    out
}

/// Makes `text` fit `max_width` columns, counting only the characters that
/// are shown.
pub fn truncate_text(text: &str, max_width: usize) -> (out: String)
    ensures
        out@ == truncated(text@, max_width as nat),
{
    let visible_len = strip_ansi_for_length(text);
    if visible_len <= max_width {
        text.to_string()
    } else {
        truncate_with_ansi(text, max_width)
    }
}

/// What one more character does to the scanner.
pub proof fn lemma_scan_push(s: Seq<char>, c: char)
    ensures
        escaping(s.push(c)) == (c == ESC || (c != 'm' && escaping(s))),
        visible(s.push(c)) == if shown(s, c) {
            visible(s).push(c)
        } else {
            visible(s)
        },
{
    assert(s.push(c).drop_last() =~= s);
}

/// No escape character is ever shown.
pub proof fn lemma_visible_has_no_escape(s: Seq<char>)
    ensures
        forall|i: int| 0 <= i < visible(s).len() ==> #[trigger] visible(s)[i] != ESC,
    decreases s.len(),
{
    if s.len() > 0 {
        let p = s.drop_last();
        lemma_visible_has_no_escape(p);
        assert forall|i: int| 0 <= i < visible(s).len() implies #[trigger] visible(s)[i]
            != ESC by {
            if i < visible(p).len() {
                assert(visible(s)[i] == visible(p)[i]);
            }
        }
    }
}

/// A text without an escape character is shown whole.
pub proof fn lemma_visible_of_plain(s: Seq<char>)
    requires
        forall|i: int| 0 <= i < s.len() ==> s[i] != ESC,
    ensures
        !escaping(s),
        visible(s) == s,
    decreases s.len(),
{
    if s.len() > 0 {
        lemma_visible_of_plain(s.drop_last());
        assert(s.drop_last().push(s.last()) =~= s);
    }
}

/// Stripping a stripped text changes nothing.
pub proof fn lemma_strip_idempotent(s: Seq<char>)
    ensures
        visible(visible(s)) == visible(s),
{
    lemma_visible_has_no_escape(s);
    lemma_visible_of_plain(visible(s));
}

/// Stripping leaves the visible length as it was.
pub proof fn lemma_strip_keeps_visible_length(s: Seq<char>)
    ensures
        visible(visible(s)).len() == visible(s).len(),
{
    lemma_strip_idempotent(s);
}

/// Text joined after a prefix that ends outside every escape span is scanned
/// as if it stood alone.
pub proof fn lemma_visible_concat(a: Seq<char>, b: Seq<char>)
    requires
        !escaping(a),
    ensures
        visible(a + b) == visible(a) + visible(b),
        escaping(a + b) == escaping(b),
    decreases b.len(),
{
    if b.len() == 0 {
        assert(a + b =~= a);
        assert(visible(a) + visible(b) =~= visible(a));
    } else {
        lemma_visible_concat(a, b.drop_last());
        assert((a + b).drop_last() =~= a + b.drop_last());
        assert((a + b).last() == b.last());
        assert(visible(a) + visible(b.drop_last()).push(b.last()) =~= (visible(a) + visible(
            b.drop_last(),
        )).push(b.last()));
    }
}

/// Where a text shows more than `budget` characters, its kept prefix shows
/// exactly `budget` of them, ends outside every escape span, and is followed
/// in the text by a shown character.
pub proof fn lemma_kept_when_over(s: Seq<char>, budget: nat)
    requires
        visible(s).len() > budget,
    ensures
        kept(s, budget).len() < s.len(),
        kept(s, budget) == s.take(kept(s, budget).len() as int),
        visible(kept(s, budget)).len() == budget,
        !escaping(kept(s, budget)),
        shown(kept(s, budget), s[kept(s, budget).len() as int]),
    decreases s.len(),
{
    let p = s.drop_last();
    if visible(p).len() <= budget {
        assert(kept(p, budget) == p);
        assert(p =~= s.take(p.len() as int));
    } else {
        lemma_kept_when_over(p, budget);
        let n = kept(p, budget).len() as int;
        assert(p.take(n) =~= s.take(n));
    }
}

/// Truncating a truncated text to the same width changes nothing.
pub proof fn lemma_truncate_idempotent(s: Seq<char>, max_width: nat)
    ensures
        truncated(truncated(s, max_width), max_width) == truncated(s, max_width),
{
    let b = budget(max_width);
    if visible(s).len() > max_width {
        lemma_kept_when_over(s, b);
        let k = kept(s, b);
        let t = k + ellipsis();
        assert(truncated(s, max_width) == t);
        assert forall|i: int| 0 <= i < ellipsis().len() implies ellipsis()[i] != ESC by {}
        lemma_visible_of_plain(ellipsis());
        lemma_visible_concat(k, ellipsis());
        assert(visible(t).len() == b + 3);
        if max_width < 3 {
            let n = k.len() as int;
            assert(t.take(n) =~= k);
            assert(t.take(n + 1) =~= k.push('.'));
            assert(t.take(n + 1).drop_last() =~= k);
            assert(visible(t.take(n + 1)).len() == 1);
            lemma_kept_at(t, n, b);
        }
    }
}

/// Truncating and stripping can be done in either order: what a truncated
/// text shows is the truncation of what the text shows.
pub proof fn lemma_truncate_then_strip(s: Seq<char>, max_width: nat)
    ensures
        visible(truncated(s, max_width)) == truncated(visible(s), max_width),
{
    let shown_text = visible(s);
    let b = budget(max_width);
    lemma_strip_idempotent(s);
    if shown_text.len() > max_width {
        lemma_kept_when_over(s, b);
        let k = kept(s, b);
        let n = k.len() as int;
        assert forall|i: int| 0 <= i < ellipsis().len() implies ellipsis()[i] != ESC by {}
        lemma_visible_of_plain(ellipsis());
        lemma_visible_concat(k, ellipsis());
        lemma_visible_prefix(s, n);
        assert(visible(k) == shown_text.take(b as int));
        lemma_visible_has_no_escape(s);
        lemma_visible_of_plain(shown_text.take(b as int));
        lemma_visible_of_plain(shown_text.take(b as int + 1));
        lemma_kept_at(shown_text, b as int, b);
    }
}

} // verus!
