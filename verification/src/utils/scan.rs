//! Splitting text into lines and words, trimming, and searching, over
//! character sequences.
use vstd::prelude::*;

verus! {

// ---------------------------------------------------------------------------
// Whitespace
// ---------------------------------------------------------------------------

/// The characters with the Unicode `White_Space` property (what `char::is_whitespace` tests).
pub open spec fn is_ws(c: char) -> bool {
    ||| ('\u{9}' <= c && c <= '\u{D}')
    ||| c == ' ' || c == '\u{85}' || c == '\u{A0}' || c == '\u{1680}'
    ||| ('\u{2000}' <= c && c <= '\u{200A}')
    ||| c == '\u{2028}' || c == '\u{2029}' || c == '\u{202F}' || c == '\u{205F}' || c == '\u{3000}'
}

/// Whether `c` is whitespace.
pub fn is_whitespace(c: char) -> (r: bool)
    ensures
        r == is_ws(c),
{
    ('\u{9}' <= c && c <= '\u{D}') || c == ' ' || c == '\u{85}' || c == '\u{A0}' || c
        == '\u{1680}' || ('\u{2000}' <= c && c <= '\u{200A}') || c == '\u{2028}' || c
        == '\u{2029}' || c == '\u{202F}' || c == '\u{205F}' || c == '\u{3000}'
}

// ---------------------------------------------------------------------------
// Sub-sequences
// ---------------------------------------------------------------------------

/// `s` starts with `p`.
pub open spec fn starts_with(s: Seq<char>, p: Seq<char>) -> bool {
    p.len() <= s.len() && s.take(p.len() as int) == p
}

/// `t` occurs in `s` at position `i`.
pub open spec fn occurs_at(s: Seq<char>, t: Seq<char>, i: int) -> bool {
    0 <= i && i + t.len() <= s.len() && s.subrange(i, i + t.len()) == t
}

/// `t` occurs somewhere in `s` (the empty sequence occurs in every sequence).
pub open spec fn contains_seq(s: Seq<char>, t: Seq<char>) -> bool {
    exists|i: int| occurs_at(s, t, i)
}

/// The elements of `v`, as a sequence.
pub fn slice_to_vec(v: &[char], from: usize, to: usize) -> (r: Vec<char>)
    requires
        from <= to <= v@.len(),
    ensures
        r@ == v@.subrange(from as int, to as int),
{
    let mut r: Vec<char> = Vec::new();
    let mut i = from;
    while i < to
        invariant
            from <= i <= to,
            to <= v@.len(),
            r@ == v@.subrange(from as int, i as int),
        decreases to - i,
    {
        r.push(v[i]);
        assert(v@.subrange(from as int, i as int).push(v@[i as int]) =~= v@.subrange(
            from as int,
            i + 1,
        ));
        i += 1;
    }
    r
}

/// Whether `s` starts with `p`.
pub fn has_prefix(s: &[char], p: &[char]) -> (r: bool)
    ensures
        r == starts_with(s@, p@),
{
    if p.len() > s.len() {
        return false;
    }
    let mut i: usize = 0;
    while i < p.len()
        invariant
            p@.len() <= s@.len(),
            i <= p@.len(),
            forall|j: int| 0 <= j < i ==> s@[j] == p@[j],
        decreases p@.len() - i,
    {
        if s[i] != p[i] {
            assert(s@.take(p@.len() as int)[i as int] != p@[i as int]);
            return false;
        }
        i += 1;
    }
    assert(s@.take(p@.len() as int) =~= p@);
    true
}

/// Whether `t` occurs in `s` at position `at`.
fn matches_at(s: &[char], t: &[char], at: usize) -> (r: bool)
    requires
        at <= s@.len(),
    ensures
        r == occurs_at(s@, t@, at as int),
{
    if t.len() > s.len() - at {
        return false;
    }
    let mut i: usize = 0;
    while i < t.len()
        invariant
            at + t@.len() <= s@.len(),
            at + t.len() <= s.len(),
            i <= t@.len(),
            forall|j: int| 0 <= j < i ==> s@[at + j] == t@[j],
        decreases t@.len() - i,
    {
        if s[at + i] != t[i] {
            assert(s@.subrange(at as int, at + t@.len())[i as int] != t@[i as int]);
            return false;
        }
        i += 1;
    }
    assert(s@.subrange(at as int, at + t@.len()) =~= t@);
    true
}

/// Whether `t` occurs somewhere in `s`.
pub fn has_infix(s: &[char], t: &[char]) -> (r: bool)
    ensures
        r == contains_seq(s@, t@),
{
    let mut at: usize = 0;
    while at < s.len()
        invariant
            at <= s@.len(),
            forall|j: int| 0 <= j < at ==> !occurs_at(s@, t@, j),
        decreases s@.len() - at,
    {
        if matches_at(s, t, at) {
            return true;
        }
        at += 1;
    }
    if matches_at(s, t, at) {
        return true;
    }
    assert forall|j: int| !occurs_at(s@, t@, j) by {
        if 0 <= j <= s@.len() {
        }
    }
    false
}

/// Whether the character `c` occurs in `s`.
pub fn has_char(s: &[char], c: char) -> (r: bool)
    ensures
        r == s@.contains(c),
{
    let mut i: usize = 0;
    while i < s.len()
        invariant
            i <= s@.len(),
            forall|j: int| 0 <= j < i ==> s@[j] != c,
        decreases s@.len() - i,
    {
        if s[i] == c {
            assert(s@[i as int] == c);
            return true;
        }
        i += 1;
    }
    false
}

// ---------------------------------------------------------------------------
// Finding a character
// ---------------------------------------------------------------------------

/// The index of the first `c` in `s`, or the length of `s` when there is none.
pub open spec fn find_char(s: Seq<char>, c: char) -> int
    decreases s.len(),
{
    if s.len() == 0 {
        0
    } else if s[0] == c {
        0
    } else {
        1 + find_char(s.drop_first(), c)
    }
}

pub proof fn lemma_find_char_bounds(s: Seq<char>, c: char)
    ensures
        0 <= find_char(s, c) <= s.len(),
        find_char(s, c) < s.len() ==> s[find_char(s, c)] == c,
        forall|j: int| 0 <= j < find_char(s, c) ==> s[j] != c,
    decreases s.len(),
{
    if s.len() > 0 && s[0] != c {
        lemma_find_char_bounds(s.drop_first(), c);
        assert forall|j: int| 0 <= j < find_char(s, c) implies s[j] != c by {
            if j > 0 {
                assert(s[j] == s.drop_first()[j - 1]);
            }
        }
    }
}

pub proof fn lemma_find_char_is(s: Seq<char>, c: char, k: int)
    requires
        0 <= k <= s.len(),
        k < s.len() ==> s[k] == c,
        forall|j: int| 0 <= j < k ==> s[j] != c,
    ensures
        find_char(s, c) == k,
    decreases k,
{
    if k > 0 {
        assert forall|j: int| 0 <= j < k - 1 implies s.drop_first()[j] != c by {
            assert(s.drop_first()[j] == s[j + 1]);
        }
        lemma_find_char_is(s.drop_first(), c, k - 1);
    }
}

/// The index of the first `c` in `s`, or the length of `s` when there is none.
pub fn index_of_char(s: &[char], c: char) -> (r: usize)
    ensures
        r == find_char(s@, c),
{
    let mut i: usize = 0;
    while i < s.len()
        invariant
            i <= s@.len(),
            forall|j: int| 0 <= j < i ==> s@[j] != c,
        decreases s@.len() - i,
    {
        if s[i] == c {
            proof {
                lemma_find_char_is(s@, c, i as int);
            }
            return i;
        }
        i += 1;
    }
    proof {
        lemma_find_char_is(s@, c, i as int);
    }
    i
}

// ---------------------------------------------------------------------------
// Lines
// ---------------------------------------------------------------------------

/// `l` without one trailing carriage return.
pub open spec fn strip_cr(l: Seq<char>) -> Seq<char> {
    if l.len() > 0 && l.last() == '\r' {
        l.drop_last()
    } else {
        l
    }
}

/// The lines of `s` as `str::lines` yields them: split after each `\n`, the
/// terminator (`\n` or `\r\n`) removed, and no empty line after a final `\n`.
pub open spec fn lines_spec(s: Seq<char>) -> Seq<Seq<char>>
    decreases s.len(),
{
    if s.len() == 0 {
        seq![]
    } else {
        let i = find_char(s, '\n');
        if i < 0 || i >= s.len() {
            seq![s]
        } else {
            seq![strip_cr(s.take(i))] + lines_spec(s.skip(i + 1))
        }
    }
}

proof fn lemma_lines_step(s: Seq<char>, start: int, i: int)
    requires
        0 <= start <= i < s.len(),
        s[i] == '\n',
        forall|k: int| start <= k < i ==> s[k] != '\n',
    ensures
        lines_spec(s.skip(start)) == seq![strip_cr(s.subrange(start, i))] + lines_spec(
            s.skip(i + 1),
        ),
{
    let t = s.skip(start);
    assert forall|j: int| 0 <= j < i - start implies t[j] != '\n' by {
        assert(t[j] == s[start + j]);
    }
    lemma_find_char_is(t, '\n', i - start);
    assert(t.take(i - start) =~= s.subrange(start, i));
    assert(t.skip(i - start + 1) =~= s.skip(i + 1));
}

proof fn lemma_lines_last(s: Seq<char>, start: int)
    requires
        0 <= start < s.len(),
        forall|k: int| start <= k < s.len() ==> s[k] != '\n',
    ensures
        lines_spec(s.skip(start)) == seq![s.skip(start)],
{
    let t = s.skip(start);
    assert forall|j: int| 0 <= j < t.len() implies t[j] != '\n' by {
        assert(t[j] == s[start + j]);
    }
    lemma_find_char_is(t, '\n', t.len() as int);
}

/// Removes one trailing carriage return from `v`.
fn strip_cr_vec(v: Vec<char>) -> (r: Vec<char>)
    ensures
        r@ == strip_cr(v@),
{
    let ghost orig = v@;
    let mut v = v;
    if v.len() > 0 && v[v.len() - 1] == '\r' {
        v.pop();
        assert(v@ =~= strip_cr(orig));
    }
    v
}

/// The views of a vector of character vectors.
pub open spec fn vviews(v: Seq<Vec<char>>) -> Seq<Seq<char>> {
    v.map_values(|x: Vec<char>| x@)
}

/// The lines of `s`, as `str::lines` yields them.
pub fn split_lines(s: &[char]) -> (r: Vec<Vec<char>>)
    ensures
        vviews(r@) == lines_spec(s@),
{
    let mut out: Vec<Vec<char>> = Vec::new();
    let mut start: usize = 0;
    let mut i: usize = 0;
    assert(s@.skip(0) =~= s@);
    while i < s.len()
        invariant
            start <= i <= s@.len(),
            forall|k: int| start <= k < i ==> s@[k] != '\n',
            lines_spec(s@) == vviews(out@) + lines_spec(s@.skip(start as int)),
        decreases s@.len() - i,
    {
        if s[i] == '\n' {
            let line = strip_cr_vec(slice_to_vec(s, start, i));
            proof {
                lemma_lines_step(s@, start as int, i as int);
            }
            let ghost before = vviews(out@);
            out.push(line);
            assert(vviews(out@) =~= before.push(line@));
            start = i + 1;
        }
        i += 1;
    }
    if start < s.len() {
        proof {
            lemma_lines_last(s@, start as int);
        }
        let last = slice_to_vec(s, start, s.len());
        assert(last@ =~= s@.skip(start as int));
        let ghost before = vviews(out@);
        out.push(last);
        assert(vviews(out@) =~= before.push(last@));
    } else {
        assert(s@.skip(start as int) =~= Seq::<char>::empty());
    }
    assert(vviews(out@) =~= lines_spec(s@));
    out
}

// ---------------------------------------------------------------------------
// Words
// ---------------------------------------------------------------------------

/// What separates the parts of a text.
#[derive(Clone, Copy, PartialEq, Eq, Structural)]
pub enum Separator {
    /// Any whitespace character.
    Whitespace,
    /// A `-` or a `_`.
    DashOrUnderscore,
}

/// Whether `c` separates parts.
pub open spec fn is_sep(sep: Separator, c: char) -> bool {
    match sep {
        Separator::Whitespace => is_ws(c),
        Separator::DashOrUnderscore => c == '-' || c == '_',
    }
}

/// Whether `c` separates parts.
pub fn is_separator(sep: Separator, c: char) -> (r: bool)
    ensures
        r == is_sep(sep, c),
{
    match sep {
        Separator::Whitespace => is_whitespace(c),
        Separator::DashOrUnderscore => c == '-' || c == '_',
    }
}

/// The index of the first separator in `s`, or its length.
pub open spec fn find_sep(s: Seq<char>, sep: Separator) -> int
    decreases s.len(),
{
    if s.len() == 0 {
        0
    } else if is_sep(sep, s[0]) {
        0
    } else {
        1 + find_sep(s.drop_first(), sep)
    }
}

proof fn lemma_find_sep_is(s: Seq<char>, sep: Separator, k: int)
    requires
        0 <= k <= s.len(),
        k < s.len() ==> is_sep(sep, s[k]),
        forall|j: int| 0 <= j < k ==> !is_sep(sep, s[j]),
    ensures
        find_sep(s, sep) == k,
    decreases k,
{
    if k > 0 {
        assert forall|j: int| 0 <= j < k - 1 implies !is_sep(sep, s.drop_first()[j]) by {
            assert(s.drop_first()[j] == s[j + 1]);
        }
        lemma_find_sep_is(s.drop_first(), sep, k - 1);
    }
}

/// The maximal non-empty runs of non-separator characters of `s`, in order.
pub open spec fn parts_spec(s: Seq<char>, sep: Separator) -> Seq<Seq<char>>
    decreases s.len(),
{
    if s.len() == 0 {
        seq![]
    } else if is_sep(sep, s[0]) {
        parts_spec(s.drop_first(), sep)
    } else {
        let k = find_sep(s, sep);
        if k <= 0 || k > s.len() {
            seq![s]
        } else {
            seq![s.take(k)] + parts_spec(s.skip(k), sep)
        }
    }
}

/// The words of `s` as `str::split_whitespace` yields them: the maximal
/// non-empty runs of non-whitespace characters, in order.
pub open spec fn words_spec(s: Seq<char>) -> Seq<Seq<char>> {
    parts_spec(s, Separator::Whitespace)
}

proof fn lemma_parts_skip_sep(s: Seq<char>, sep: Separator, i: int)
    requires
        0 <= i < s.len(),
        is_sep(sep, s[i]),
    ensures
        parts_spec(s.skip(i), sep) == parts_spec(s.skip(i + 1), sep),
{
    assert(s.skip(i).drop_first() =~= s.skip(i + 1));
}

proof fn lemma_parts_part(s: Seq<char>, sep: Separator, start: int, i: int)
    requires
        0 <= start < i <= s.len(),
        i < s.len() ==> is_sep(sep, s[i]),
        forall|k: int| start <= k < i ==> !is_sep(sep, s[k]),
    ensures
        parts_spec(s.skip(start), sep) == seq![s.subrange(start, i)] + parts_spec(s.skip(i), sep),
{
    let t = s.skip(start);
    assert forall|j: int| 0 <= j < i - start implies !is_sep(sep, t[j]) by {
        assert(t[j] == s[start + j]);
    }
    if i < s.len() {
        assert(t[i - start] == s[i]);
    }
    lemma_find_sep_is(t, sep, i - start);
    assert(t.take(i - start) =~= s.subrange(start, i));
    assert(t.skip(i - start) =~= s.skip(i));
    assert(!is_sep(sep, t[0]));
}

/// The parts of `s` between separators, empty parts left out.
pub fn split_parts(s: &[char], sep: Separator) -> (r: Vec<Vec<char>>)
    ensures
        vviews(r@) == parts_spec(s@, sep),
{
    let mut out: Vec<Vec<char>> = Vec::new();
    let mut i: usize = 0;
    assert(s@.skip(0) =~= s@);
    while i < s.len()
        invariant
            i <= s@.len(),
            parts_spec(s@, sep) == vviews(out@) + parts_spec(s@.skip(i as int), sep),
        decreases s@.len() - i,
    {
        if is_separator(sep, s[i]) {
            proof {
                lemma_parts_skip_sep(s@, sep, i as int);
            }
            i += 1;
        } else {
            let start = i;
            while i < s.len() && !is_separator(sep, s[i])
                invariant
                    start <= i <= s@.len(),
                    start < s@.len(),
                    !is_sep(sep, s@[start as int]),
                    forall|k: int| start <= k < i ==> !is_sep(sep, s@[k]),
                decreases s@.len() - i,
            {
                i += 1;
            }
            proof {
                lemma_parts_part(s@, sep, start as int, i as int);
            }
            let w = slice_to_vec(s, start, i);
            let ghost before = vviews(out@);
            out.push(w);
            assert(vviews(out@) =~= before.push(w@));
            assert(vviews(out@) + parts_spec(s@.skip(i as int), sep) =~= before + (seq![
                s@.subrange(start as int, i as int),
            ] + parts_spec(s@.skip(i as int), sep)));
        }
    }
    assert(s@.skip(i as int) =~= Seq::<char>::empty());
    assert(vviews(out@) =~= parts_spec(s@, sep));
    out
}

/// The words of `s`, as `str::split_whitespace` yields them.
pub fn split_words(s: &[char]) -> (r: Vec<Vec<char>>)
    ensures
        vviews(r@) == words_spec(s@),
{
    split_parts(s, Separator::Whitespace)
}

// ---------------------------------------------------------------------------
// Trimming
// ---------------------------------------------------------------------------

/// `s` without its leading whitespace.
pub open spec fn trim_start(s: Seq<char>) -> Seq<char>
    decreases s.len(),
{
    if s.len() > 0 && is_ws(s[0]) {
        trim_start(s.drop_first())
    } else {
        s
    }
}

/// `s` without its trailing whitespace.
pub open spec fn trim_end(s: Seq<char>) -> Seq<char>
    decreases s.len(),
{
    if s.len() > 0 && is_ws(s.last()) {
        trim_end(s.drop_last())
    } else {
        s
    }
}

/// `s` without leading and trailing whitespace, as `str::trim` gives it.
pub open spec fn trim_spec(s: Seq<char>) -> Seq<char> {
    trim_end(trim_start(s))
}

/// `s` without leading and trailing whitespace.
pub fn trim_chars(s: &[char]) -> (r: Vec<char>)
    ensures
        r@ == trim_spec(s@),
{
    let mut a: usize = 0;
    assert(s@.skip(0) =~= s@);
    while a < s.len() && is_whitespace(s[a])
        invariant
            a <= s@.len(),
            trim_start(s@) == trim_start(s@.skip(a as int)),
        decreases s@.len() - a,
    {
        assert(s@.skip(a as int).drop_first() =~= s@.skip(a + 1));
        a += 1;
    }
    let ghost t = s@.skip(a as int);
    assert(trim_start(s@) == t);
    let mut b: usize = s.len();
    assert(t.take((b - a) as int) =~= t);
    while b > a && is_whitespace(s[b - 1])
        invariant
            a <= b <= s@.len(),
            t == s@.skip(a as int),
            trim_end(t) == trim_end(t.take(b - a)),
        decreases b - a,
    {
        assert(t.take(b - a).drop_last() =~= t.take(b - 1 - a));
        assert(t.take(b - a).last() == s@[b - 1]);
        b -= 1;
    }
    if b > a {
        assert(t.take(b - a).last() == s@[b - 1]);
    }
    let r = slice_to_vec(s, a, b);
    assert(r@ =~= t.take(b - a));
    r
}

} // verus!
