//! Small string tools shared by the rest of the crate.

use vstd::prelude::*;

verus! {

/// `String::push` appends one character to the string.
pub assume_specification[ String::push ](s: &mut String, c: char)
    ensures
        final(s)@ == old(s)@.push(c),
;

/// `str`'s `==` compares the two strings character by character.
pub assume_specification[ <str as PartialEq>::eq ](a: &str, b: &str) -> (r: bool)
    ensures
        r == (a@ == b@),
;

/// Whether two strings hold the same characters.
pub fn str_eq(a: &str, b: &str) -> (r: bool)
    ensures
        r == (a@ == b@),
{
    *a == *b
}

/// The characters of a string, in order.
pub fn chars_of(s: &str) -> (v: Vec<char>)
    ensures
        v@ == s@,
{
    let mut v: Vec<char> = Vec::new();
    for c in iter: s.chars()
        invariant
            iter.seq() == s@,
            v@ == s@.take(iter.index()),
    {
        v.push(c);
    }
    v
}

/// `n` copies of the character `c`.
pub open spec fn repeated(c: char, n: nat) -> Seq<char> {
    Seq::new(n, |i: int| c)
}

/// A string of `n` copies of the character `c`.
pub fn repeat_char(c: char, n: usize) -> (s: String)
    ensures
        s@ == repeated(c, n as nat),
{
    let mut s = String::new();
    let mut i: usize = 0;
    while i < n
        invariant
            i <= n,
            s@ == repeated(c, i as nat),
        decreases n - i,
    {
        s.push(c);
        i = i + 1;
        assert(s@ =~= repeated(c, i as nat));
    }
    s
}

/// The number of characters in a string.
pub fn char_count(s: &str) -> (n: usize)
    ensures
        n == s@.len(),
{
    s.unicode_len()
}

/// The views of a list of strings.
pub open spec fn texts(v: Seq<String>) -> Seq<Seq<char>> {
    Seq::new(v.len(), |i: int| v[i]@)
}

/// What an optional string holds.
pub open spec fn option_text(s: Option<String>) -> Option<Seq<char>> {
    match s {
        Some(s) => Some(s@),
        None => None,
    }
}

/// What `str::to_lowercase` makes of a text: its lowercase form as Unicode
/// defines it.
pub uninterp spec fn lowercase(s: Seq<char>) -> Seq<char>;

/// `str::to_lowercase` gives the lowercase form of the string, which depends
/// on the string alone.
pub assume_specification[ str::to_lowercase ](s: &str) -> (r: String)
    ensures
        r@ == lowercase(s@),
;

/// Whether `pat` stands in `s` at position `i`.
pub open spec fn occurs_at(s: Seq<char>, pat: Seq<char>, i: int) -> bool {
    0 <= i && i + pat.len() <= s.len() && s.subrange(i, i + pat.len()) == pat
}

/// Whether `pat` stands somewhere in `s`.
pub open spec fn has_substring(s: Seq<char>, pat: Seq<char>) -> bool {
    exists|i: int| occurs_at(s, pat, i)
}

/// Whether `pat` stands in `s` at position `i`.
pub fn matches_at(s: &Vec<char>, pat: &Vec<char>, i: usize) -> (r: bool)
    requires
        i + pat.len() <= s.len(),
    ensures
        r == occurs_at(s@, pat@, i as int),
{
    let mut j: usize = 0;
    while j < pat.len()
        invariant
            j <= pat.len(),
            i + pat.len() <= s.len(),
            forall|k: int| 0 <= k < j ==> s@[i + k] == pat@[k],
        decreases pat.len() - j,
    {
        if s[i + j] != pat[j] {
            assert(s@.subrange(i as int, i + pat.len())[j as int] == s@[i + j]);
            return false;
        }
        j = j + 1;
    }
    assert(s@.subrange(i as int, i + pat.len()) =~= pat@);
    true
}

/// Whether `needle` stands somewhere in `haystack`.
pub fn contains(haystack: &str, needle: &str) -> (r: bool)
    ensures
        r == has_substring(haystack@, needle@),
{
    let s = chars_of(haystack);
    let pat = chars_of(needle);
    if pat.len() == 0 {
        assert(occurs_at(s@, pat@, 0)) by {
            assert(s@.subrange(0, 0) =~= pat@);
        }
        return true;
    }
    if pat.len() > s.len() {
        return false;
    }
    let last: usize = s.len() - pat.len();
    let mut i: usize = 0;
    while i <= last
        invariant
            s@ == haystack@,
            pat@ == needle@,
            0 < pat.len() <= s.len(),
            last == s.len() - pat.len(),
            i <= last + 1,
            forall|k: int| 0 <= k < i ==> !occurs_at(s@, pat@, k),
        decreases last + 1 - i,
    {
        if matches_at(&s, &pat, i) {
            return true;
        }
        i = i + 1;
    }
    false
}

/// The pieces that `sep` cuts `s` into. There is always one piece more than
/// there are separators, so some pieces may be empty.
pub open spec fn split_on(s: Seq<char>, sep: char) -> Seq<Seq<char>>
    decreases s.len(),
{
    if s.len() == 0 {
        seq![Seq::empty()]
    } else if s.last() == sep {
        split_on(s.drop_last(), sep).push(Seq::empty())
    } else {
        let pieces = split_on(s.drop_last(), sep);
        pieces.drop_last().push(pieces.last().push(s.last()))
    }
}

/// Cuts `s` at every `sep`.
pub fn split(s: &str, sep: char) -> (pieces: Vec<String>)
    ensures
        texts(pieces@) == split_on(s@, sep),
{
    let chars = chars_of(s);
    let mut pieces: Vec<String> = Vec::new();
    let mut current = String::new();
    let mut i: usize = 0;
    assert(texts(pieces@).push(current@) =~= split_on(s@.take(0), sep));
    while i < chars.len()
        invariant
            chars@ == s@,
            i <= chars.len(),
            texts(pieces@).push(current@) == split_on(s@.take(i as int), sep),
        decreases chars.len() - i,
    {
        let c = chars[i];
        let ghost before = texts(pieces@);
        let ghost piece = current@;
        assert(s@.take(i + 1).drop_last() =~= s@.take(i as int));
        assert(before.push(piece).drop_last() =~= before);
        if c == sep {
            pieces.push(current);
            current = String::new();
            assert(texts(pieces@) =~= before.push(piece));
        } else {
            current.push(c);
        }
        i = i + 1;
    }
    assert(s@.take(chars.len() as int) =~= s@);
    let ghost before = texts(pieces@);
    pieces.push(current);
    assert(texts(pieces@) =~= before.push(current@));
    pieces
}

/// Whether `char::is_whitespace` holds of a character: whether Unicode gives
/// it the property `White_Space`.
pub uninterp spec fn white_space(c: char) -> bool;

/// `char::is_whitespace` tells whether a character is white space, which
/// depends on the character alone.
pub assume_specification[ char::is_whitespace ](c: char) -> (r: bool)
    ensures
        r == white_space(c),
;

/// Of each character of a text, whether it is white space.
pub open spec fn space_flags(s: Seq<char>) -> Seq<bool> {
    Seq::new(s.len(), |i: int| white_space(s[i]))
}

/// `s` without the characters at its start that `drop` holds of.
pub open spec fn trimmed_start(s: Seq<char>, drop: spec_fn(char) -> bool) -> Seq<char>
    decreases s.len(),
{
    if s.len() > 0 && drop(s[0]) {
        trimmed_start(s.skip(1), drop)
    } else {
        s
    }
}

/// `s` without the characters at its end that `drop` holds of.
pub open spec fn trimmed_end(s: Seq<char>, drop: spec_fn(char) -> bool) -> Seq<char>
    decreases s.len(),
{
    if s.len() > 0 && drop(s.last()) {
        trimmed_end(s.drop_last(), drop)
    } else {
        s
    }
}

/// `s` without the characters at its start and at its end that `drop` holds
/// of.
pub open spec fn trimmed(s: Seq<char>, drop: spec_fn(char) -> bool) -> Seq<char> {
    trimmed_end(trimmed_start(s, drop), drop)
}

/// The test for white space.
pub open spec fn is_space() -> spec_fn(char) -> bool {
    |c: char| white_space(c)
}

/// The test for the character `c`.
pub open spec fn is_char(c: char) -> spec_fn(char) -> bool {
    |x: char| x == c
}

/// `s` without the white space at its start and at its end.
pub open spec fn trimmed_space(s: Seq<char>) -> Seq<char> {
    trimmed(s, is_space())
}

/// `s` without the characters `c` at its start and at its end.
pub open spec fn trimmed_char(s: Seq<char>, c: char) -> Seq<char> {
    trimmed(s, is_char(c))
}

/// Where the characters before `start` and from `end` on are dropped, and
/// the ones at `start` and before `end` are not, the trimmed text is what
/// lies between.
pub proof fn lemma_trimmed_between(
    s: Seq<char>,
    drop: spec_fn(char) -> bool,
    start: int,
    end: int,
)
    requires
        0 <= start <= end <= s.len(),
        forall|k: int| 0 <= k < start ==> drop(#[trigger] s[k]),
        forall|k: int| end <= k < s.len() ==> drop(#[trigger] s[k]),
        start < s.len() ==> !drop(s[start]),
        start < end ==> !drop(s[end - 1]),
        start == s.len() || start < end,
    ensures
        trimmed(s, drop) == s.subrange(start, end),
{
    lemma_trimmed_start_at(s, drop, start);
    lemma_trimmed_end_at(s.skip(start), drop, end - start);
    assert(s.skip(start).take(end - start) =~= s.subrange(start, end));
}

/// The trimming of the start stops at the first character that is kept.
pub proof fn lemma_trimmed_start_at(s: Seq<char>, drop: spec_fn(char) -> bool, start: int)
    requires
        0 <= start <= s.len(),
        forall|k: int| 0 <= k < start ==> drop(#[trigger] s[k]),
        start < s.len() ==> !drop(s[start]),
    ensures
        trimmed_start(s, drop) == s.skip(start),
    decreases start,
{
    if start == 0 {
        assert(s.skip(0) =~= s);
    } else {
        assert(drop(s[0]));
        let rest = s.skip(1);
        assert forall|k: int| 0 <= k < start - 1 implies drop(#[trigger] rest[k]) by {
            assert(rest[k] == s[k + 1]);
        }
        lemma_trimmed_start_at(rest, drop, start - 1);
        assert(rest.skip(start - 1) =~= s.skip(start));
    }
}

/// The trimming of the end stops at the last character that is kept.
pub proof fn lemma_trimmed_end_at(s: Seq<char>, drop: spec_fn(char) -> bool, end: int)
    requires
        0 <= end <= s.len(),
        forall|k: int| end <= k < s.len() ==> drop(#[trigger] s[k]),
        end > 0 ==> !drop(s[end - 1]),
    ensures
        trimmed_end(s, drop) == s.take(end),
    decreases s.len() - end,
{
    if end == s.len() {
        assert(s.take(end) =~= s);
    } else {
        assert(drop(s[s.len() - 1]));
        let rest = s.drop_last();
        assert forall|k: int| end <= k < rest.len() implies drop(#[trigger] rest[k]) by {
            assert(rest[k] == s[k]);
        }
        lemma_trimmed_end_at(rest, drop, end);
        assert(rest.take(end) =~= s.take(end));
    }
}

/// The characters of `v` from `start` up to `end`, as a string.
pub fn substring(v: &Vec<char>, start: usize, end: usize) -> (s: String)
    requires
        start <= end <= v.len(),
    ensures
        s@ == v@.subrange(start as int, end as int),
{
    let mut s = String::new();
    let mut i: usize = start;
    while i < end
        invariant
            start <= i <= end <= v.len(),
            s@ == v@.subrange(start as int, i as int),
        decreases end - i,
    {
        s.push(v[i]);
        i = i + 1;
        assert(s@ =~= v@.subrange(start as int, i as int));
    }
    s
}

/// Tells of each character whether it is white space.
pub fn flag_spaces(chars: &Vec<char>) -> (flags: Vec<bool>)
    ensures
        flags@ == space_flags(chars@),
{
    let mut flags: Vec<bool> = Vec::new();
    let mut i: usize = 0;
    while i < chars.len()
        invariant
            i <= chars.len(),
            flags@ == space_flags(chars@.take(i as int)),
        decreases chars.len() - i,
    {
        flags.push(chars[i].is_whitespace());
        i = i + 1;
        assert(flags@ =~= space_flags(chars@.take(i as int)));
    }
    assert(chars@.take(chars.len() as int) =~= chars@);
    flags
}

/// Tells of each character whether it is `c`.
pub fn flag_char(chars: &Vec<char>, c: char) -> (flags: Vec<bool>)
    ensures
        flags@ == Seq::new(chars@.len(), |i: int| chars@[i] == c),
{
    let mut flags: Vec<bool> = Vec::new();
    let mut i: usize = 0;
    while i < chars.len()
        invariant
            i <= chars.len(),
            flags@ == Seq::new(i as nat, |k: int| chars@[k] == c),
        decreases chars.len() - i,
    {
        flags.push(chars[i] == c);
        i = i + 1;
        assert(flags@ =~= Seq::new(i as nat, |k: int| chars@[k] == c));
    }
    flags
}

/// Finds what trimming keeps, given of each place whether what stands
/// there is to be dropped: the places from the first that is kept up to
/// and with the last that is kept. Where nothing is kept the range is
/// empty and lies at the end.
pub fn trim_range(drop: &Vec<bool>) -> (range: (usize, usize))
    ensures
        range.0 <= range.1 <= drop.len(),
        forall|k: int| 0 <= k < range.0 ==> drop@[k],
        forall|k: int| range.1 <= k < drop.len() ==> drop@[k],
        range.0 < drop.len() ==> !drop@[range.0 as int],
        range.0 < range.1 ==> !drop@[range.1 - 1],
        range.0 == drop.len() || range.0 < range.1,
{
    let mut start: usize = 0;
    while start < drop.len() && drop[start]
        invariant
            start <= drop.len(),
            forall|k: int| 0 <= k < start ==> drop@[k],
        decreases drop.len() - start,
    {
        start = start + 1;
    }
    let mut end: usize = drop.len();
    while end > start && drop[end - 1]
        invariant
            start <= end <= drop.len(),
            forall|k: int| end <= k < drop.len() ==> drop@[k],
        decreases end,
    {
        end = end - 1;
    }
    (start, end)
}

/// Removes the white space at the start and at the end of `s`.
pub fn trim(s: &str) -> (out: String)
    ensures
        out@ == trimmed_space(s@),
{
    let chars = chars_of(s);
    let (start, end) = trim_range(&flag_spaces(&chars));
    proof {
        assert forall|k: int| 0 <= k < s@.len() implies space_flags(s@)[k] == is_space()(
            #[trigger] s@[k],
        ) by {}
        lemma_trimmed_between(s@, is_space(), start as int, end as int);
    }
    substring(&chars, start, end)
}

/// Removes every `c` at the start and at the end of `s`.
pub fn trim_matches(s: &str, c: char) -> (out: String)
    ensures
        out@ == trimmed_char(s@, c),
{
    let chars = chars_of(s);
    let flags = flag_char(&chars, c);
    let (start, end) = trim_range(&flags);
    proof {
        assert forall|k: int| 0 <= k < s@.len() implies flags@[k] == is_char(c)(
            #[trigger] s@[k],
        ) by {}
        lemma_trimmed_between(s@, is_char(c), start as int, end as int);
    }
    substring(&chars, start, end)
}

/// `s` with every `pat` in it replaced by `to`. The text is read from its
/// start, and what a replaced `pat` covered is not read again. An empty
/// `pat` stands before every character and at the end.
pub open spec fn replaced(s: Seq<char>, pat: Seq<char>, to: Seq<char>) -> Seq<char>
    decreases s.len(),
{
    if pat.len() == 0 {
        if s.len() == 0 {
            to
        } else {
            to + s.take(1) + replaced(s.skip(1), pat, to)
        }
    } else if s.len() < pat.len() {
        s
    } else if s.take(pat.len() as int) == pat {
        to + replaced(s.skip(pat.len() as int), pat, to)
    } else {
        s.take(1) + replaced(s.skip(1), pat, to)
    }
}

/// Puts `to` before every character of `s` and at its end.
fn interleave(s: &str, to: &str) -> (out: String)
    ensures
        out@ == replaced(s@, Seq::empty(), to@),
{
    let chars = chars_of(s);
    let ghost pat = Seq::<char>::empty();
    let mut out = String::new();
    let mut i: usize = 0;
    assert(s@.skip(0) =~= s@);
    while i < chars.len()
        invariant
            chars@ == s@,
            pat == Seq::<char>::empty(),
            i <= chars.len(),
            out@ + replaced(s@.skip(i as int), pat, to@) == replaced(s@, pat, to@),
        decreases chars.len() - i,
    {
        let ghost rest = s@.skip(i as int);
        let ghost before = out@;
        out.append(to);
        out.push(chars[i]);
        proof {
            let tail = rest.skip(1);
            assert(tail =~= s@.skip(i + 1));
            assert(rest.take(1) =~= seq![s@[i as int]]);
            assert(before + (to@ + rest.take(1) + replaced(tail, pat, to@)) =~= (before
                + to@).push(s@[i as int]) + replaced(tail, pat, to@));
        }
        i = i + 1;
    }
    out.append(to);
    out
}

/// Replaces every `pat` in `s` by `to`.
pub fn replace(s: &str, pat: &str, to: &str) -> (out: String)
    ensures
        out@ == replaced(s@, pat@, to@),
{
    let chars = chars_of(s);
    let pattern = chars_of(pat);
    if pattern.len() == 0 {
        assert(pat@ =~= Seq::<char>::empty());
        return interleave(s, to);
    }
    let mut out = String::new();
    let mut i: usize = 0;
    assert(s@.skip(0) =~= s@);
    while i < chars.len()
        invariant
            chars@ == s@,
            pattern@ == pat@,
            pattern.len() > 0,
            i <= chars.len(),
            out@ + replaced(s@.skip(i as int), pat@, to@) == replaced(s@, pat@, to@),
        decreases chars.len() - i,
    {
        let ghost rest = s@.skip(i as int);
        let ghost before = out@;
        if pattern.len() <= chars.len() - i && matches_at(&chars, &pattern, i) {
            out.append(to);
            proof {
                assert(rest.take(pat@.len() as int) =~= s@.subrange(
                    i as int,
                    i + pat@.len(),
                ));
                assert(rest.skip(pat@.len() as int) =~= s@.skip(i + pat@.len()));
                assert(before + (to@ + replaced(rest.skip(pat@.len() as int), pat@, to@)) =~= (
                before + to@) + replaced(rest.skip(pat@.len() as int), pat@, to@));
            }
            i = i + pattern.len();
        } else {
            out.push(chars[i]);
            proof {
                let tail = rest.skip(1);
                assert(tail =~= s@.skip(i + 1));
                assert(rest.take(1) =~= seq![s@[i as int]]);
                if rest.len() < pat@.len() {
                    assert(replaced(tail, pat@, to@) == tail);
                    assert(rest =~= rest.take(1) + tail);
                } else {
                    assert(rest.take(pat@.len() as int) =~= s@.subrange(
                        i as int,
                        i + pat@.len(),
                    ));
                }
                assert(before + (rest.take(1) + replaced(tail, pat@, to@)) =~= before.push(
                    s@[i as int],
                ) + replaced(tail, pat@, to@));
            }
            i = i + 1;
        }
    }
    assert(replaced(s@.skip(chars.len() as int), pat@, to@) =~= Seq::<char>::empty());
    assert(out@ + Seq::<char>::empty() =~= out@);
    out
}

/// The character that writes the digit `d`.
pub open spec fn digit(d: nat) -> char {
    if d == 0 {
        '0'
    } else if d == 1 {
        '1'
    } else if d == 2 {
        '2'
    } else if d == 3 {
        '3'
    } else if d == 4 {
        '4'
    } else if d == 5 {
        '5'
    } else if d == 6 {
        '6'
    } else if d == 7 {
        '7'
    } else if d == 8 {
        '8'
    } else {
        '9'
    }
}

/// The number `n` written in decimal digits, without leading zeros.
pub open spec fn decimal(n: nat) -> Seq<char>
    decreases n,
{
    if n < 10 {
        seq![digit(n)]
    } else {
        decimal(n / 10).push(digit(n % 10))
    }
}

/// The character that writes the digit `d`.
pub fn digit_char(d: u64) -> (c: char)
    requires
        d < 10,
    ensures
        c == digit(d as nat),
{
    if d == 0 {
        '0'
    } else if d == 1 {
        '1'
    } else if d == 2 {
        '2'
    } else if d == 3 {
        '3'
    } else if d == 4 {
        '4'
    } else if d == 5 {
        '5'
    } else if d == 6 {
        '6'
    } else if d == 7 {
        '7'
    } else if d == 8 {
        '8'
    } else {
        '9'
    }
}

/// Writes `n` in decimal digits.
pub fn decimal_string(n: u64) -> (s: String)
    ensures
        s@ == decimal(n as nat),
{
    let mut digits: Vec<char> = Vec::new();
    let mut rest: u64 = n;
    while rest >= 10
        invariant
            decimal(n as nat) == decimal(rest as nat) + digits@.reverse(),
        decreases rest,
    {
        let ghost before = digits@;
        digits.push(digit_char(rest % 10));
        proof {
            let d = digit((rest % 10) as nat);
            assert(digits@.reverse() =~= seq![d] + before.reverse());
            assert(decimal(rest as nat) == decimal((rest / 10) as nat).push(d));
            assert(decimal((rest / 10) as nat).push(d) + before.reverse() =~= decimal(
                (rest / 10) as nat,
            ) + (seq![d] + before.reverse()));
        }
        rest = rest / 10;
    }
    let mut s = String::new();
    s.push(digit_char(rest));
    let mut i: usize = digits.len();
    while i > 0
        invariant
            i <= digits.len(),
            s@ == decimal(rest as nat) + digits@.reverse().take(digits.len() - i),
        decreases i,
    {
        i = i - 1;
        s.push(digits[i]);
        assert(s@ =~= decimal(rest as nat) + digits@.reverse().take(digits.len() - i));
    }
    assert(digits@.reverse().take(digits.len() as int) =~= digits@.reverse());
    s
}

/// Cutting a text gives at least one piece.
pub proof fn lemma_split_has_a_piece(s: Seq<char>, sep: char)
    ensures
        split_on(s, sep).len() >= 1,
    decreases s.len(),
{
    if s.len() > 0 {
        lemma_split_has_a_piece(s.drop_last(), sep);
    }
}

/// `line` without the carriage return at its end, if it has one.
pub open spec fn without_cr(line: Seq<char>) -> Seq<char> {
    if line.len() > 0 && line.last() == '\r' {
        line.drop_last()
    } else {
        line
    }
}

/// The lines of a text. A line ends at a line feed, or at the end of the
/// text; the line feed is no part of the line, nor is a carriage return
/// just before it. Nothing after the last line feed is no line.
pub open spec fn lines_of(s: Seq<char>) -> Seq<Seq<char>> {
    let pieces = split_on(s, '\n');
    let ended = Seq::new((pieces.len() - 1) as nat, |i: int| without_cr(pieces[i]));
    if pieces.last().len() > 0 {
        ended.push(pieces.last())
    } else {
        ended
    }
}

/// The lines of a text.
pub fn lines(s: &str) -> (out: Vec<String>)
    ensures
        texts(out@) == lines_of(s@),
{
    let pieces = split(s, '\n');
    proof {
        lemma_split_has_a_piece(s@, '\n');
    }
    let mut out: Vec<String> = Vec::new();
    let mut i: usize = 0;
    while i + 1 < pieces.len()
        invariant
            pieces.len() >= 1,
            i + 1 <= pieces.len(),
            out.len() == i,
            forall|k: int| 0 <= k < i ==> (#[trigger] out@[k])@ == without_cr(pieces@[k]@),
        decreases pieces.len() - i,
    {
        let chars = chars_of(pieces[i].as_str());
        let line = if chars.len() > 0 && chars[chars.len() - 1] == '\r' {
            let line = substring(&chars, 0, chars.len() - 1);
            assert(chars@.subrange(0, chars.len() - 1) =~= chars@.drop_last());
            line
        } else {
            pieces[i].clone()
        };
        out.push(line);
        i = i + 1;
    }
    let last = &pieces[pieces.len() - 1];
    let ghost ended = texts(out@);
    if !last.as_str().is_empty() {
        out.push(last.clone());
        assert(texts(out@) =~= ended.push(last@));
    }
    assert(ended =~= Seq::new(
        (texts(pieces@).len() - 1) as nat,
        |i: int| without_cr(texts(pieces@)[i]),
    ));
    out
}

/// Whether `s` begins with `prefix`.
pub open spec fn has_prefix(s: Seq<char>, prefix: Seq<char>) -> bool {
    prefix.len() <= s.len() && s.take(prefix.len() as int) == prefix
}

/// Whether `s` begins with `prefix`.
pub fn starts_with(s: &str, prefix: &str) -> (r: bool)
    ensures
        r == has_prefix(s@, prefix@),
{
    let chars = chars_of(s);
    let pattern = chars_of(prefix);
    if pattern.len() > chars.len() {
        return false;
    }
    let r = matches_at(&chars, &pattern, 0);
    assert(s@.subrange(0, prefix@.len() as int) =~= s@.take(prefix@.len() as int));
    r
}

/// The pieces with `sep` between each two of them.
pub open spec fn joined_with(pieces: Seq<Seq<char>>, sep: Seq<char>) -> Seq<char>
    decreases pieces.len(),
{
    if pieces.len() == 0 {
        Seq::empty()
    } else if pieces.len() == 1 {
        pieces[0]
    } else {
        joined_with(pieces.drop_last(), sep) + sep + pieces.last()
    }
}

/// Writes the pieces with `sep` between each two of them.
pub fn join(pieces: &Vec<String>, sep: &str) -> (out: String)
    ensures
        out@ == joined_with(texts(pieces@), sep@),
{
    let mut out = String::new();
    let mut i: usize = 0;
    while i < pieces.len()
        invariant
            i <= pieces.len(),
            out@ == joined_with(texts(pieces@).take(i as int), sep@),
        decreases pieces.len() - i,
    {
        assert(texts(pieces@).take(i + 1).drop_last() =~= texts(pieces@).take(i as int));
        if i > 0 {
            out.append(sep);
        }
        out.append(pieces[i].as_str());
        proof {
            if i == 0 {
                assert(out@ =~= pieces@[0]@);
            }
        }
        i = i + 1;
    }
    assert(texts(pieces@).take(pieces.len() as int) =~= texts(pieces@));
    out
}

/// The value of a character that is a decimal digit.
pub open spec fn digit_value(c: char) -> Option<nat> {
    if c == '0' {
        Some(0)
    } else if c == '1' {
        Some(1)
    } else if c == '2' {
        Some(2)
    } else if c == '3' {
        Some(3)
    } else if c == '4' {
        Some(4)
    } else if c == '5' {
        Some(5)
    } else if c == '6' {
        Some(6)
    } else if c == '7' {
        Some(7)
    } else if c == '8' {
        Some(8)
    } else if c == '9' {
        Some(9)
    } else {
        None
    }
}

/// Whether every character of `s` is a decimal digit.
pub open spec fn all_digits(s: Seq<char>) -> bool {
    forall|i: int| 0 <= i < s.len() ==> digit_value(#[trigger] s[i]) is Some
}

/// The number that the decimal digits of `s` write.
pub open spec fn number_of(s: Seq<char>) -> nat
    decreases s.len(),
{
    if s.len() == 0 {
        0
    } else {
        number_of(s.drop_last()) * 10 + match digit_value(s.last()) {
            Some(d) => d,
            None => 0,
        }
    }
}

/// What is left of `s` behind a plus sign at its start.
pub open spec fn unsigned_part(s: Seq<char>) -> Seq<char> {
    if s.len() > 0 && s[0] == '+' {
        s.skip(1)
    } else {
        s
    }
}

/// The number that `s` writes, as `str::parse` reads it: decimal digits, at
/// least one, with or without a plus sign before them, and nothing else.
/// A number greater than `max` is no number.
pub open spec fn parsed_up_to(s: Seq<char>, max: nat) -> Option<nat> {
    let digits = unsigned_part(s);
    if digits.len() > 0 && all_digits(digits) && number_of(digits) <= max {
        Some(number_of(digits))
    } else {
        None
    }
}

/// The number that `s` writes, where it is one that the machine can count
/// to.
pub open spec fn parsed_number(s: Seq<char>) -> Option<usize> {
    match parsed_up_to(s, usize::MAX as nat) {
        Some(n) => Some(n as usize),
        None => None,
    }
}

/// Longer digit strings write greater numbers.
pub proof fn lemma_number_grows(s: Seq<char>, i: int)
    requires
        0 <= i <= s.len(),
    ensures
        number_of(s.take(i)) <= number_of(s),
    decreases s.len(),
{
    if i == s.len() {
        assert(s.take(i) =~= s);
    } else {
        lemma_number_grows(s.drop_last(), i);
        assert(s.drop_last().take(i) =~= s.take(i));
    }
}

/// The value of a character that is a decimal digit.
pub fn digit_of(c: char) -> (d: Option<u64>)
    ensures
        match d {
            Some(d) => digit_value(c) == Some(d as nat),
            None => digit_value(c) is None,
        },
{
    if c == '0' {
        Some(0)
    } else if c == '1' {
        Some(1)
    } else if c == '2' {
        Some(2)
    } else if c == '3' {
        Some(3)
    } else if c == '4' {
        Some(4)
    } else if c == '5' {
        Some(5)
    } else if c == '6' {
        Some(6)
    } else if c == '7' {
        Some(7)
    } else if c == '8' {
        Some(8)
    } else if c == '9' {
        Some(9)
    } else {
        None
    }
}

/// Reads a number from its decimal digits. A number greater than `max` is
/// not read.
pub fn parse_up_to(s: &str, max: u64) -> (n: Option<u64>)
    ensures
        match n {
            Some(n) => parsed_up_to(s@, max as nat) == Some(n as nat),
            None => parsed_up_to(s@, max as nat) is None,
        },
{
    let chars = chars_of(s);
    let start: usize = if chars.len() > 0 && chars[0] == '+' {
        1
    } else {
        0
    };
    let ghost digits = unsigned_part(s@);
    assert(digits =~= s@.skip(start as int));
    if start == chars.len() {
        return None;
    }
    let mut value: u64 = 0;
    let mut i: usize = start;
    while i < chars.len()
        invariant
            chars@ == s@,
            digits == unsigned_part(s@),
            digits == s@.skip(start as int),
            start <= i <= chars.len(),
            all_digits(digits.take(i - start)),
            value == number_of(digits.take(i - start)),
            value <= max,
        decreases chars.len() - i,
    {
        let ghost read = digits.take(i - start);
        let ghost next = digits.take(i + 1 - start);
        assert(next.drop_last() =~= read);
        assert(next.last() == chars@[i as int]);
        match digit_of(chars[i]) {
            None => {
                assert(digit_value(digits[i - start]) is None);
                return None;
            },
            Some(d) => {
                if d > max || value > (max - d) / 10 {
                    proof {
                        assert(number_of(next) > max);
                        lemma_number_grows(digits, i + 1 - start);
                    }
                    return None;
                }
                value = value * 10 + d;
                assert forall|k: int| 0 <= k < next.len() implies digit_value(
                    #[trigger] next[k],
                ) is Some by {
                    if k < read.len() {
                        assert(next[k] == read[k]);
                    }
                }
            },
        }
        i = i + 1;
    }
    assert(digits.take(chars.len() - start) =~= digits);
    Some(value)
}

/// Reads a number from its decimal digits.
pub fn parse_number(s: &str) -> (n: Option<usize>)
    ensures
        n == parsed_number(s@),
{
    match parse_up_to(s, usize::MAX as u64) {
        Some(n) => Some(n as usize),
        None => None,
    }
}

/// The runs of a text: its longest stretches of characters that are not
/// separators. `sep` tells of each place whether a separator stands there.
pub open spec fn runs(s: Seq<char>, sep: Seq<bool>) -> Seq<Seq<char>>
    decreases s.len(),
{
    if s.len() == 0 || sep.len() != s.len() {
        Seq::empty()
    } else if sep.last() {
        runs(s.drop_last(), sep.drop_last())
    } else if s.len() == 1 || sep[sep.len() - 2] {
        runs(s.drop_last(), sep.drop_last()).push(seq![s.last()])
    } else {
        let before = runs(s.drop_last(), sep.drop_last());
        before.drop_last().push(before.last().push(s.last()))
    }
}

/// The words of a text: its longest stretches of characters that are not
/// white space.
pub open spec fn words_of(s: Seq<char>) -> Seq<Seq<char>> {
    runs(s, space_flags(s))
}

/// Cuts a text into its runs. `sep` tells of each place whether a separator
/// stands there.
pub fn split_runs(chars: &Vec<char>, sep: &Vec<bool>) -> (words: Vec<String>)
    requires
        sep.len() == chars.len(),
    ensures
        texts(words@) == runs(chars@, sep@),
{
    let mut words: Vec<String> = Vec::new();
    let mut current = String::new();
    let mut i: usize = 0;
    while i < chars.len()
        invariant
            sep.len() == chars.len(),
            i <= chars.len(),
            current@.len() > 0 <==> i > 0 && !sep@[i - 1],
            runs(chars@.take(i as int), sep@.take(i as int)) == if current@.len() > 0 {
                texts(words@).push(current@)
            } else {
                texts(words@)
            },
        decreases chars.len() - i,
    {
        let c = chars[i];
        let ghost before = texts(words@);
        let ghost word = current@;
        let ghost read = chars@.take(i as int);
        let ghost next = chars@.take(i + 1);
        let ghost next_sep = sep@.take(i + 1);
        proof {
            assert(next.drop_last() =~= read);
            assert(next_sep.drop_last() =~= sep@.take(i as int));
            assert(next.last() == c);
            assert(next_sep.last() == sep@[i as int]);
            if i > 0 {
                assert(next_sep[next_sep.len() - 2] == sep@[i - 1]);
            }
        }
        if sep[i] {
            if current.as_str().unicode_len() > 0 {
                words.push(current);
                current = String::new();
                assert(texts(words@) =~= before.push(word));
            }
        } else {
            current.push(c);
            proof {
                if word.len() > 0 {
                    let joined = before.push(word);
                    assert(joined.drop_last() =~= before);
                    assert(joined.last() == word);
                    assert(runs(next, next_sep) == before.push(word.push(c)));
                } else {
                    assert(word.push(c) =~= seq![c]);
                    assert(runs(next, next_sep) == before.push(seq![c]));
                }
            }
        }
        i = i + 1;
    }
    assert(chars@.take(chars.len() as int) =~= chars@);
    assert(sep@.take(chars.len() as int) =~= sep@);
    if current.as_str().unicode_len() > 0 {
        let ghost before = texts(words@);
        words.push(current);
        assert(texts(words@) =~= before.push(current@));
    }
    words
}

/// The words of a text.
pub fn split_whitespace(s: &str) -> (words: Vec<String>)
    ensures
        texts(words@) == words_of(s@),
{
    let chars = chars_of(s);
    split_runs(&chars, &flag_spaces(&chars))
}

/// Where `pat` first stands in `s`, counted from the start of `s`. Where it
/// stands nowhere, this is the length of `s`.
pub open spec fn index_of(s: Seq<char>, pat: Seq<char>) -> int
    decreases s.len(),
{
    if s.len() == 0 || has_prefix(s, pat) {
        0
    } else {
        1 + index_of(s.skip(1), pat)
    }
}

/// Whether `pat`, which is not empty, stands somewhere in `s`.
pub open spec fn found_in(s: Seq<char>, pat: Seq<char>) -> bool {
    index_of(s, pat) < s.len()
}

/// What stands in `s` before the first `pat`: all of `s` where there is no
/// `pat` in it.
pub open spec fn before_first(s: Seq<char>, pat: Seq<char>) -> Seq<char> {
    s.take(index_of(s, pat))
}

/// What stands in `s` after the first `pat`.
pub open spec fn after_first(s: Seq<char>, pat: Seq<char>) -> Seq<char> {
    s.skip(index_of(s, pat) + pat.len())
}

/// The first place of `pat` lies within the text.
pub proof fn lemma_index_of_bounds(s: Seq<char>, pat: Seq<char>)
    ensures
        0 <= index_of(s, pat) <= s.len(),
        s.len() < pat.len() ==> index_of(s, pat) == s.len(),
        pat.len() > 0 && found_in(s, pat) ==> index_of(s, pat) + pat.len() <= s.len(),
    decreases s.len(),
{
    if !(s.len() == 0 || has_prefix(s, pat)) {
        lemma_index_of_bounds(s.skip(1), pat);
    }
}

/// Finds the first place of `pat` in `s` at or after `from`. Where there is
/// none, the length of `s` comes back.
pub fn find_from(s: &Vec<char>, pat: &Vec<char>, from: usize) -> (at: usize)
    requires
        from <= s.len(),
        pat.len() > 0,
    ensures
        at == from + index_of(s@.skip(from as int), pat@),
        from <= at <= s.len(),
{
    let mut i: usize = from;
    while i < s.len()
        invariant
            from <= i <= s.len(),
            pat.len() > 0,
            from + index_of(s@.skip(from as int), pat@) == i + index_of(s@.skip(i as int), pat@),
        decreases s.len() - i,
    {
        let ghost rest = s@.skip(i as int);
        if pat.len() > s.len() - i {
            proof {
                lemma_index_of_bounds(rest, pat@);
            }
            return s.len();
        }
        if matches_at(s, pat, i) {
            assert(rest.take(pat@.len() as int) =~= s@.subrange(i as int, i + pat@.len()));
            return i;
        }
        proof {
            assert(rest.take(pat@.len() as int) =~= s@.subrange(i as int, i + pat@.len()));
            assert(rest.skip(1) =~= s@.skip(i + 1));
        }
        i = i + 1;
    }
    i
}

} // verus!
