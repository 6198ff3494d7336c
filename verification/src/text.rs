use vstd::prelude::*;

verus! {

// ---------------------------------------------------------------------------
// Specifications over character sequences
// ---------------------------------------------------------------------------

/// `needle` occurs in `hay` starting at position `i`.
pub open spec fn occurs_at(hay: Seq<char>, needle: Seq<char>, i: int) -> bool {
    &&& 0 <= i
    &&& i + needle.len() <= hay.len()
    &&& hay.subrange(i, i + needle.len()) == needle
}

/// `hay` holds `needle` somewhere.
pub open spec fn contains_seq(hay: Seq<char>, needle: Seq<char>) -> bool {
    exists|i: int| occurs_at(hay, needle, i)
}

/// `hay` begins with `prefix`.
pub open spec fn starts_with_seq(hay: Seq<char>, prefix: Seq<char>) -> bool {
    occurs_at(hay, prefix, 0)
}

/// The first position at or after `i` where `needle` occurs in `hay`.
pub open spec fn find_from(hay: Seq<char>, needle: Seq<char>, i: int) -> Option<int>
    decreases hay.len() + 1 - i,
{
    if i < 0 || i + needle.len() > hay.len() {
        None
    } else if occurs_at(hay, needle, i) {
        Some(i)
    } else {
        find_from(hay, needle, i + 1)
    }
}

/// The first position where `needle` occurs in `hay` (what `str::find` gives, counted in
/// characters).
pub open spec fn find_seq(hay: Seq<char>, needle: Seq<char>) -> Option<int> {
    find_from(hay, needle, 0)
}

/// `s` with every leading copy of `prefix` removed (`str::trim_start_matches`).
pub open spec fn trim_start_all(s: Seq<char>, prefix: Seq<char>) -> Seq<char>
    decreases s.len(),
{
    if prefix.len() > 0 && starts_with_seq(s, prefix) {
        trim_start_all(s.skip(prefix.len() as int), prefix)
    } else {
        s
    }
}

/// `s` with every trailing `c` removed (`str::trim_end_matches` with a character).
pub open spec fn trim_end_char(s: Seq<char>, c: char) -> Seq<char>
    decreases s.len(),
{
    if s.len() > 0 && s.last() == c {
        trim_end_char(s.drop_last(), c)
    } else {
        s
    }
}

/// The position of the first `c` in `s`.
pub open spec fn find_char(s: Seq<char>, c: char) -> Option<int> {
    find_seq(s, seq![c])
}

/// `line` without one trailing carriage return.
pub open spec fn strip_cr(line: Seq<char>) -> Seq<char> {
    if line.len() > 0 && line.last() == '\r' {
        line.drop_last()
    } else {
        line
    }
}

/// The lines of `s` as `str::lines` yields them: split after each `'\n'`, the newline and
/// a carriage return before it removed; a last line without a newline is kept as it is,
/// and no empty line follows a final newline.
pub open spec fn lines_of(s: Seq<char>) -> Seq<Seq<char>>
    decreases s.len(),
{
    if s.len() == 0 {
        seq![]
    } else {
        match find_char(s, '\n') {
            Some(i) => if 0 <= i < s.len() {
                seq![strip_cr(s.take(i))] + lines_of(s.skip(i + 1))
            } else {
                seq![]
            },
            None => seq![s],
        }
    }
}

// ---------------------------------------------------------------------------
// Lemmas
// ---------------------------------------------------------------------------

/// What `find_from` returns is an occurrence, and nothing earlier (from `i` on) is one.
pub proof fn lemma_find_from(hay: Seq<char>, needle: Seq<char>, i: int)
    requires
        0 <= i,
    ensures
        match find_from(hay, needle, i) {
            Some(k) => i <= k && occurs_at(hay, needle, k) && forall|j: int|
                i <= j < k ==> !occurs_at(hay, needle, j),
            None => forall|j: int| i <= j ==> !occurs_at(hay, needle, j),
        },
    decreases hay.len() + 1 - i,
{
    if i + needle.len() > hay.len() {
    } else if occurs_at(hay, needle, i) {
    } else {
        lemma_find_from(hay, needle, i + 1);
        match find_from(hay, needle, i + 1) {
            Some(k) => {
                assert forall|j: int| i <= j < k implies !occurs_at(hay, needle, j) by {
                    if j > i {
                    }
                }
            },
            None => {
                assert forall|j: int| i <= j implies !occurs_at(hay, needle, j) by {
                    if j > i {
                    }
                }
            },
        }
    }
}

/// `find_seq` finds something exactly when the needle occurs.
pub proof fn lemma_find_seq_contains(hay: Seq<char>, needle: Seq<char>)
    ensures
        find_seq(hay, needle) is Some <==> contains_seq(hay, needle),
        match find_seq(hay, needle) {
            Some(k) => occurs_at(hay, needle, k) && forall|j: int|
                0 <= j < k ==> !occurs_at(hay, needle, j),
            None => forall|j: int| !occurs_at(hay, needle, j),
        },
{
    lemma_find_from(hay, needle, 0);
    match find_seq(hay, needle) {
        Some(k) => {},
        None => {
            assert forall|j: int| !occurs_at(hay, needle, j) by {
                if j >= 0 {
                }
            }
        },
    }
}

/// A position whose character is `c`, with no `c` before it, is what `find_char` gives.
pub proof fn lemma_find_char_at(s: Seq<char>, c: char, i: int)
    requires
        0 <= i < s.len(),
        s[i] == c,
        forall|j: int| 0 <= j < i ==> s[j] != c,
    ensures
        find_char(s, c) == Some(i),
{
    lemma_find_seq_contains(s, seq![c]);
    assert(occurs_at(s, seq![c], i)) by {
        assert(s.subrange(i, i + 1) =~= seq![c]);
    }
    match find_char(s, c) {
        Some(k) => {
            if k < i {
                assert(s.subrange(k, k + 1)[0] == s[k]);
            }
        },
        None => {},
    }
}

/// A sequence without `c` has no position of `c`.
pub proof fn lemma_find_char_none(s: Seq<char>, c: char)
    requires
        forall|j: int| 0 <= j < s.len() ==> s[j] != c,
    ensures
        find_char(s, c) is None,
{
    lemma_find_seq_contains(s, seq![c]);
    match find_char(s, c) {
        Some(k) => {
            assert(s.subrange(k, k + 1)[0] == s[k]);
        },
        None => {},
    }
}

// ---------------------------------------------------------------------------
// Executable helpers
// ---------------------------------------------------------------------------

/// The characters of `s`, in order.
pub fn chars_of(s: &str) -> (r: Vec<char>)
    ensures
        r@ == s@,
{
    let mut r: Vec<char> = Vec::new();
    for c in it: s.chars()
        invariant
            r@ == it.seq().take(it.index() as int),
    {
        r.push(c);
    }
    r
}

/// Whether `needle` occurs in `hay[lo..hi]` at offset `i` (relative to `lo`).
pub fn occurs_at_in(hay: &Vec<char>, lo: usize, hi: usize, needle: &Vec<char>, i: usize) -> (r:
    bool)
    requires
        lo <= hi <= hay@.len(),
    ensures
        r == occurs_at(hay@.subrange(lo as int, hi as int), needle@, i as int),
{
    let ghost s = hay@.subrange(lo as int, hi as int);
    if i > hi - lo || needle.len() > hi - lo - i {
        return false;
    }
    let mut j: usize = 0;
    while j < needle.len()
        invariant
            lo <= hi <= hay@.len(),
            s == hay@.subrange(lo as int, hi as int),
            i + needle@.len() <= s.len(),
            j <= needle@.len(),
            forall|k: int| 0 <= k < j ==> s[i + k] == needle@[k],
        decreases needle@.len() - j,
    {
        if hay[lo + i + j] != needle[j] {
            assert(s.subrange(i as int, i + needle@.len())[j as int] != needle@[j as int]);
            return false;
        }
        j = j + 1;
    }
    assert(s.subrange(i as int, i + needle@.len()) =~= needle@);
    true
}

/// The first offset (relative to `lo`) at which `needle` occurs in `hay[lo..hi]`.
pub fn find_in(hay: &Vec<char>, lo: usize, hi: usize, needle: &Vec<char>) -> (r: Option<usize>)
    requires
        lo <= hi <= hay@.len(),
    ensures
        match r {
            Some(k) => find_seq(hay@.subrange(lo as int, hi as int), needle@) == Some(k as int),
            None => find_seq(hay@.subrange(lo as int, hi as int), needle@) is None,
        },
{
    let ghost s = hay@.subrange(lo as int, hi as int);
    let mut i: usize = 0;
    while i <= hi - lo
        invariant
            lo <= hi <= hay@.len(),
            s == hay@.subrange(lo as int, hi as int),
            i <= hi - lo + 1,
            find_seq(s, needle@) == find_from(s, needle@, i as int),
        decreases hi - lo + 1 - i,
    {
        if needle.len() > hi - lo - i {
            return None;
        }
        if occurs_at_in(hay, lo, hi, needle, i) {
            return Some(i);
        }
        if i == hi - lo {
            assert(find_from(s, needle@, i + 1) is None);
            return None;
        }
        i = i + 1;
    }
    None
}

/// Whether `needle` occurs in `hay`.
pub fn contains_str(hay: &str, needle: &str) -> (r: bool)
    ensures
        r == contains_seq(hay@, needle@),
{
    let h = chars_of(hay);
    let n = chars_of(needle);
    let found = find_in(&h, 0, h.len(), &n);
    proof {
        assert(h@.subrange(0, h@.len() as int) =~= hay@);
        lemma_find_seq_contains(hay@, needle@);
    }
    found.is_some()
}

/// Whether `hay` begins with `prefix`.
pub fn starts_with_str(hay: &str, prefix: &str) -> (r: bool)
    ensures
        r == starts_with_seq(hay@, prefix@),
{
    let h = chars_of(hay);
    let p = chars_of(prefix);
    let r = occurs_at_in(&h, 0, h.len(), &p, 0);
    proof {
        assert(h@.subrange(0, h@.len() as int) =~= hay@);
    }
    r
}

/// Whether two strings hold the same characters.
pub fn str_eq(a: &str, b: &str) -> (r: bool)
    ensures
        r == (a@ == b@),
{
    let x = chars_of(a);
    let y = chars_of(b);
    if x.len() != y.len() {
        return false;
    }
    let mut i: usize = 0;
    while i < x.len()
        invariant
            x@ == a@,
            y@ == b@,
            x@.len() == y@.len(),
            i <= x@.len(),
            forall|k: int| 0 <= k < i ==> x@[k] == y@[k],
        decreases x@.len() - i,
    {
        if x[i] != y[i] {
            return false;
        }
        i = i + 1;
    }
    assert(x@ =~= y@);
    true
}

/// The lines of `t`, as spans `(start, end)` into `t`.
pub fn line_spans(t: &Vec<char>) -> (spans: Vec<(usize, usize)>)
    ensures
        spans@.len() == lines_of(t@).len(),
        forall|k: int|
            0 <= k < spans@.len() ==> {
                &&& (#[trigger] spans@[k]).0 <= spans@[k].1 <= t@.len()
                &&& t@.subrange(spans@[k].0 as int, spans@[k].1 as int) == lines_of(t@)[k]
            },
{
    let mut spans: Vec<(usize, usize)> = Vec::new();
    let ghost mut prefix: Seq<Seq<char>> = seq![];
    let mut start: usize = 0;
    let mut i: usize = 0;
    assert(t@.skip(0) =~= t@);
    while i < t.len()
        invariant
            start <= i <= t@.len(),
            lines_of(t@) == prefix + lines_of(t@.skip(start as int)),
            prefix.len() == spans@.len(),
            forall|k: int|
                0 <= k < spans@.len() ==> {
                    &&& (#[trigger] spans@[k]).0 <= spans@[k].1 <= t@.len()
                    &&& t@.subrange(spans@[k].0 as int, spans@[k].1 as int) == prefix[k]
                },
            forall|j: int| start <= j < i ==> t@[j] != '\n',
        decreases t@.len() - i,
    {
        if t[i] == '\n' {
            let ghost rest = t@.skip(start as int);
            proof {
                lemma_find_char_at(rest, '\n', i - start);
                assert(rest.skip(i - start + 1) =~= t@.skip(i + 1));
                assert(rest.take(i - start) =~= t@.subrange(start as int, i as int));
            }
            let hi: usize = if i > start && t[i - 1] == '\r' {
                i - 1
            } else {
                i
            };
            proof {
                let line = t@.subrange(start as int, i as int);
                if i > start && t@[i - 1] == '\r' {
                    assert(strip_cr(line) =~= t@.subrange(start as int, hi as int));
                } else {
                    assert(strip_cr(line) =~= t@.subrange(start as int, hi as int));
                }
                prefix = prefix.push(strip_cr(line));
            }
            spans.push((start, hi));
            start = i + 1;
            proof {
                assert(lines_of(t@) =~= prefix + lines_of(t@.skip(start as int)));
            }
        }
        i = i + 1;
    }
    if start < t.len() {
        let ghost rest = t@.skip(start as int);
        proof {
            lemma_find_char_none(rest, '\n');
            assert(rest =~= t@.subrange(start as int, t@.len() as int));
            prefix = prefix.push(rest);
            assert(lines_of(t@) =~= prefix);
        }
        spans.push((start, t.len()));
    } else {
        proof {
            assert(t@.skip(start as int).len() == 0);
            assert(lines_of(t@) =~= prefix);
        }
    }
    spans
}

/// A character with the Unicode `White_Space` property (what `char::is_whitespace` tests).
pub open spec fn is_white_space(c: char) -> bool {
    ||| '\u{9}' <= c <= '\u{d}'
    ||| c == ' '
    ||| c == '\u{85}'
    ||| c == '\u{a0}'
    ||| c == '\u{1680}'
    ||| '\u{2000}' <= c <= '\u{200a}'
    ||| c == '\u{2028}'
    ||| c == '\u{2029}'
    ||| c == '\u{202f}'
    ||| c == '\u{205f}'
    ||| c == '\u{3000}'
}

/// `s` without leading white space.
pub open spec fn trim_start_ws(s: Seq<char>) -> Seq<char>
    decreases s.len(),
{
    if s.len() > 0 && is_white_space(s[0]) {
        trim_start_ws(s.drop_first())
    } else {
        s
    }
}

/// `s` without trailing white space.
pub open spec fn trim_end_ws(s: Seq<char>) -> Seq<char>
    decreases s.len(),
{
    if s.len() > 0 && is_white_space(s.last()) {
        trim_end_ws(s.drop_last())
    } else {
        s
    }
}

/// `s` without leading and trailing white space (`str::trim`).
pub open spec fn trim_spec(s: Seq<char>) -> Seq<char> {
    trim_end_ws(trim_start_ws(s))
}

fn is_white_space_char(c: char) -> (r: bool)
    ensures
        r == is_white_space(c),
{
    ('\u{9}' <= c && c <= '\u{d}') || c == ' ' || c == '\u{85}' || c == '\u{a0}' || c
        == '\u{1680}' || ('\u{2000}' <= c && c <= '\u{200a}') || c == '\u{2028}' || c
        == '\u{2029}' || c == '\u{202f}' || c == '\u{205f}' || c == '\u{3000}'
}

/// `s` without leading and trailing white space.
pub fn trim(s: &str) -> (r: &str)
    ensures
        r@ == trim_spec(s@),
{
    let t = chars_of(s);
    let mut lo: usize = 0;
    assert(t@.subrange(0, t@.len() as int) =~= t@);
    while lo < t.len() && is_white_space_char(t[lo])
        invariant
            lo <= t@.len(),
            trim_start_ws(t@) == trim_start_ws(t@.subrange(lo as int, t@.len() as int)),
        decreases t@.len() - lo,
    {
        assert(t@.subrange(lo as int, t@.len() as int).drop_first() =~= t@.subrange(
            lo + 1,
            t@.len() as int,
        ));
        lo = lo + 1;
    }
    let mut hi: usize = t.len();
    while hi > lo && is_white_space_char(t[hi - 1])
        invariant
            lo <= hi <= t@.len(),
            trim_start_ws(t@) == t@.subrange(lo as int, t@.len() as int),
            trim_spec(t@) == trim_end_ws(t@.subrange(lo as int, hi as int)),
        decreases hi,
    {
        assert(t@.subrange(lo as int, hi as int).drop_last() =~= t@.subrange(lo as int, hi - 1));
        hi = hi - 1;
    }
    s.substring_char(lo, hi)
}

/// A sequence without white space is unchanged by trimming.
pub proof fn lemma_trim_no_white_space(s: Seq<char>)
    requires
        forall|i: int| 0 <= i < s.len() ==> !is_white_space(#[trigger] s[i]),
    ensures
        trim_spec(s) == s,
{
}

/// `s` holds no line feed.
pub open spec fn no_line_feed(s: Seq<char>) -> bool {
    forall|i: int| 0 <= i < s.len() ==> s[i] != '\n'
}

/// A line without a line feed, a line feed, then the rest: the first line is that line
/// (without a trailing carriage return) and the others are the lines of the rest.
pub proof fn lemma_lines_of_line_then_rest(x: Seq<char>, y: Seq<char>)
    requires
        no_line_feed(x),
    ensures
        lines_of(x + seq!['\n'] + y) == seq![strip_cr(x)] + lines_of(y),
{
    let s = x + seq!['\n'] + y;
    assert(s[x.len() as int] == '\n');
    assert forall|j: int| 0 <= j < x.len() implies s[j] != '\n' by {
        assert(s[j] == x[j]);
    }
    lemma_find_char_at(s, '\n', x.len() as int);
    assert(s.take(x.len() as int) =~= x);
    assert(s.skip(x.len() as int + 1) =~= y);
}

/// Two sequences without line feeds make one without.
pub proof fn lemma_no_line_feed_concat(a: Seq<char>, b: Seq<char>)
    requires
        no_line_feed(a),
        no_line_feed(b),
    ensures
        no_line_feed(a + b),
{
    assert forall|i: int| 0 <= i < (a + b).len() implies (a + b)[i] != '\n' by {
        if i < a.len() {
            assert((a + b)[i] == a[i]);
        } else {
            assert((a + b)[i] == b[i - a.len()]);
        }
    }
}

} // verus!
