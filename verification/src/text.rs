//! Verified helpers for working with text as sequences of characters.
//!
//! The sanitizer and extractor scan model output character by character, so
//! the whole crate works on `Vec<char>` internally and converts at the edges.

use vstd::prelude::*;

verus! {

use vstd::std_specs::iter::IteratorSpec;
use vstd::string::StringExecFns;

broadcast use vstd::string::group_string_axioms;

/// Relies on `String::push`: appends one character at the end.
pub assume_specification[ String::push ](s: &mut String, c: char)
    ensures
        final(s)@ == old(s)@.push(c),
;

/// The characters the sanitizer treats as whitespace: the code points with
/// the Unicode white-space property.
pub open spec fn spec_is_ws(c: char) -> bool {
    ||| c == '\u{09}'
    ||| c == '\u{0a}'
    ||| c == '\u{0b}'
    ||| c == '\u{0c}'
    ||| c == '\u{0d}'
    ||| c == ' '
    ||| c == '\u{85}'
    ||| c == '\u{a0}'
    ||| c == '\u{1680}'
    ||| c == '\u{2000}'
    ||| c == '\u{2001}'
    ||| c == '\u{2002}'
    ||| c == '\u{2003}'
    ||| c == '\u{2004}'
    ||| c == '\u{2005}'
    ||| c == '\u{2006}'
    ||| c == '\u{2007}'
    ||| c == '\u{2008}'
    ||| c == '\u{2009}'
    ||| c == '\u{200a}'
    ||| c == '\u{2028}'
    ||| c == '\u{2029}'
    ||| c == '\u{202f}'
    ||| c == '\u{205f}'
    ||| c == '\u{3000}'
}

/// Executable mirror of `spec_is_ws`.
pub fn is_ws(c: char) -> (r: bool)
    ensures
        r == spec_is_ws(c),
{
    c == '\u{09}' || c == '\u{0a}' || c == '\u{0b}' || c == '\u{0c}' || c == '\u{0d}' || c == ' '
        || c == '\u{85}' || c == '\u{a0}' || c == '\u{1680}' || c == '\u{2000}' || c == '\u{2001}'
        || c == '\u{2002}' || c == '\u{2003}' || c == '\u{2004}' || c == '\u{2005}' || c
        == '\u{2006}' || c == '\u{2007}' || c == '\u{2008}' || c == '\u{2009}' || c == '\u{200a}'
        || c == '\u{2028}' || c == '\u{2029}' || c == '\u{202f}' || c == '\u{205f}' || c
        == '\u{3000}'
}

/// Drop leading whitespace.
pub open spec fn spec_trim_start(s: Seq<char>) -> Seq<char>
    decreases s.len(),
{
    if s.len() > 0 && spec_is_ws(s[0]) {
        spec_trim_start(s.drop_first())
    } else {
        s
    }
}

/// Drop trailing whitespace.
pub open spec fn spec_trim_end(s: Seq<char>) -> Seq<char>
    decreases s.len(),
{
    if s.len() > 0 && spec_is_ws(s[s.len() - 1]) {
        spec_trim_end(s.drop_last())
    } else {
        s
    }
}

/// Drop whitespace on both ends.
pub open spec fn spec_trim(s: Seq<char>) -> Seq<char> {
    spec_trim_end(spec_trim_start(s))
}

/// A trimmed sequence neither starts nor ends with whitespace.
pub proof fn lemma_trim_start_no_leading_ws(s: Seq<char>)
    ensures
        spec_trim_start(s).len() > 0 ==> !spec_is_ws(spec_trim_start(s)[0]),
        spec_trim_start(s).len() <= s.len(),
    decreases s.len(),
{
    if s.len() > 0 && spec_is_ws(s[0]) {
        lemma_trim_start_no_leading_ws(s.drop_first());
    }
}

pub proof fn lemma_trim_end_no_trailing_ws(s: Seq<char>)
    ensures
        spec_trim_end(s).len() > 0 ==> !spec_is_ws(spec_trim_end(s)[spec_trim_end(s).len() - 1]),
        spec_trim_end(s).len() <= s.len(),
    decreases s.len(),
{
    if s.len() > 0 && spec_is_ws(s[s.len() - 1]) {
        lemma_trim_end_no_trailing_ws(s.drop_last());
    }
}

/// Trimming the end keeps a prefix of the sequence.
pub proof fn lemma_trim_end_keeps_head(s: Seq<char>)
    ensures
        spec_trim_end(s).len() <= s.len(),
        spec_trim_end(s) == s.take(spec_trim_end(s).len() as int),
        spec_trim_end(s).len() > 0 ==> spec_trim_end(s)[0] == s[0],
    decreases s.len(),
{
    if s.len() > 0 && spec_is_ws(s[s.len() - 1]) {
        lemma_trim_end_keeps_head(s.drop_last());
        let k = spec_trim_end(s).len() as int;
        assert(s.drop_last().take(k) =~= s.take(k));
    } else {
        assert(s.take(s.len() as int) =~= s);
    }
}

/// Trimming an already-trimmed sequence changes nothing.
pub proof fn lemma_trim_idempotent(s: Seq<char>)
    ensures
        spec_trim(spec_trim(s)) == spec_trim(s),
{
    let t = spec_trim(s);
    lemma_trim_start_no_leading_ws(s);
    lemma_trim_end_keeps_head(spec_trim_start(s));
    lemma_trim_end_no_trailing_ws(spec_trim_start(s));
    if t.len() > 0 {
        assert(t[0] == spec_trim_start(s)[0]);
        assert(!spec_is_ws(t[0]));
        assert(spec_trim_start(t) == t);
        assert(!spec_is_ws(t[t.len() - 1]));
        assert(spec_trim_end(t) == t);
    } else {
        assert(spec_trim_start(t) == t);
        assert(spec_trim_end(t) == t);
    }
}

/// Convert a string slice to the vector of its characters.
pub fn str_to_chars(s: &str) -> (r: Vec<char>)
    ensures
        r@ == s@,
{
    let mut it = s.chars();
    let mut r: Vec<char> = Vec::new();
    loop
        invariant
            it.obeys_prophetic_iter_laws(),
            it.decrease() is Some,
            r@ + it.remaining() == s@,
        ensures
            r@ == s@,
        decreases it.decrease()->0,
    {
        let ghost rem0 = it.remaining();
        match it.next() {
            Some(c) => {
                proof {
                    assert(rem0.len() > 0);
                    assert(c == rem0[0]);
                }
                r.push(c);
                assert(r@ + it.remaining() =~= s@);
            },
            None => {
                assert(rem0.len() == 0);
                assert(r@ + rem0 =~= r@);
                break ;
            },
        }
    }
    r
}

/// Build a `String` from a slice of characters.
pub fn chars_to_string(v: &[char]) -> (r: String)
    ensures
        r@ == v@,
{
    let mut r = String::new();
    let n = v.len();
    for i in 0..n
        invariant
            n == v@.len(),
            r@ == v@.take(i as int),
    {
        r.push(v[i]);
        assert(r@ =~= v@.take(i as int + 1));
    }
    assert(r@ =~= v@);
    r
}

/// Index of the first non-whitespace character, or the length if all blank.
pub fn first_non_ws(v: &Vec<char>) -> (i: usize)
    ensures
        i <= v@.len(),
        forall|j: int| 0 <= j < i ==> spec_is_ws(v@[j]),
        i < v@.len() ==> !spec_is_ws(v@[i as int]),
        spec_trim_start(v@) == v@.skip(i as int),
{
    let n = v.len();
    let mut i: usize = 0;
    assert(v@.skip(0) =~= v@);
    while i < n && is_ws(v[i])
        invariant
            n == v@.len(),
            i <= n,
            forall|j: int| 0 <= j < i ==> spec_is_ws(v@[j]),
            spec_trim_start(v@) == spec_trim_start(v@.skip(i as int)),
        decreases n - i,
    {
        proof {
            assert(v@.skip(i as int).drop_first() =~= v@.skip(i as int + 1));
        }
        i = i + 1;
    }
    proof {
        if i < v@.len() {
            assert(spec_trim_start(v@.skip(i as int)) == v@.skip(i as int));
        } else {
            assert(v@.skip(i as int) =~= Seq::<char>::empty());
        }
    }
    i
}

/// Index one past the last non-whitespace character, at or after `from`.
pub fn last_non_ws_from(v: &Vec<char>, from: usize) -> (e: usize)
    requires
        from <= v@.len(),
    ensures
        from <= e <= v@.len(),
        spec_trim_end(v@.skip(from as int)) == v@.subrange(from as int, e as int),
{
    let n = v.len();
    let mut e: usize = n;
    assert(v@.skip(from as int) =~= v@.subrange(from as int, n as int));
    while e > from && is_ws(v[e - 1])
        invariant
            n == v@.len(),
            from <= e <= n,
            spec_trim_end(v@.skip(from as int)) == spec_trim_end(
                v@.subrange(from as int, e as int),
            ),
        decreases e,
    {
        proof {
            assert(v@.subrange(from as int, e as int).drop_last() =~= v@.subrange(
                from as int,
                e as int - 1,
            ));
        }
        e = e - 1;
    }
    proof {
        if e > from {
            assert(spec_trim_end(v@.subrange(from as int, e as int)) == v@.subrange(
                from as int,
                e as int,
            ));
        } else {
            assert(v@.subrange(from as int, e as int) =~= Seq::<char>::empty());
        }
        assert(v@.skip(from as int) =~= v@.subrange(from as int, n as int));
    }
    e
}

/// Trim whitespace from both ends of a character vector.
pub fn trim_chars(v: &Vec<char>) -> (r: Vec<char>)
    ensures
        r@ == spec_trim(v@),
{
    let s = first_non_ws(v);
    let e = last_non_ws_from(v, s);
    let mut r: Vec<char> = Vec::new();
    let mut i: usize = s;
    while i < e
        invariant
            s <= i <= e <= v@.len(),
            r@ == v@.subrange(s as int, i as int),
        decreases e - i,
    {
        r.push(v[i]);
        assert(r@ =~= v@.subrange(s as int, i as int + 1));
        i = i + 1;
    }
    r
}

/// Whether `pat` occurs in `v` starting at index `i`.
pub open spec fn spec_match_at(v: Seq<char>, i: int, pat: Seq<char>) -> bool {
    0 <= i && i + pat.len() <= v.len() && v.subrange(i, i + pat.len()) == pat
}

/// Executable check of `spec_match_at`.
pub fn match_at(v: &Vec<char>, i: usize, pat: &Vec<char>) -> (r: bool)
    requires
        i <= v@.len(),
    ensures
        r == spec_match_at(v@, i as int, pat@),
{
    let m = pat.len();
    let n = v.len();
    if n - i < m {
        proof {
            assert(i + pat@.len() > v@.len());
        }
        return false;
    }
    let mut j: usize = 0;
    while j < m
        invariant
            j <= m,
            m == pat@.len(),
            n == v@.len(),
            i + m <= n,
            forall|k: int| 0 <= k < j ==> v@[i + k] == pat@[k],
        decreases m - j,
    {
        if v[i + j] != pat[j] {
            proof {
                assert(v@.subrange(i as int, i + pat@.len())[j as int] == v@[i + j]);
            }
            return false;
        }
        j = j + 1;
    }
    proof {
        assert(v@.subrange(i as int, i + pat@.len()) =~= pat@);
    }
    true
}

/// Whether `pat` occurs anywhere in `v`.
pub open spec fn spec_contains_seq(v: Seq<char>, pat: Seq<char>) -> bool {
    exists|i: int| 0 <= i && i + pat.len() <= v.len() && spec_match_at(v, i, pat)
}

/// Executable substring search.
pub fn contains_seq(v: &Vec<char>, pat: &Vec<char>) -> (r: bool)
    ensures
        r == spec_contains_seq(v@, pat@),
{
    let n = v.len();
    let m = pat.len();
    if m > n {
        return false;
    }
    if m == 0 {
        proof {
            assert(v@.subrange(0, 0) =~= pat@);
            assert(spec_match_at(v@, 0, pat@));
        }
        return true;
    }
    let mut i: usize = 0;
    while i <= n - m
        invariant
            n == v@.len(),
            m == pat@.len(),
            0 < m <= n,
            i <= n - m + 1,
            forall|k: int| 0 <= k < i ==> !spec_match_at(v@, k, pat@),
        decreases n - i,
    {
        if match_at(v, i, pat) {
            return true;
        }
        i = i + 1;
    }
    proof {
        assert forall|k: int| 0 <= k && k + pat@.len() <= v@.len() implies !spec_match_at(
            v@,
            k,
            pat@,
        ) by {
            assert(k < i);
        }
    }
    false
}

/// Whether `c` is a contiguous span of `s`.
pub open spec fn spec_located_span(s: Seq<char>, c: Seq<char>) -> bool {
    exists|i: int, j: int| 0 <= i <= j <= s.len() && c == s.subrange(i, j)
}

/// Dropping leading whitespace leaves a suffix.
proof fn lemma_trim_start_is_skip(s: Seq<char>)
    ensures
        exists|i: int| 0 <= i <= s.len() && spec_trim_start(s) == s.skip(i),
    decreases s.len(),
{
    if s.len() > 0 && spec_is_ws(s[0]) {
        lemma_trim_start_is_skip(s.drop_first());
        let i0 = choose|i: int|
            0 <= i <= s.drop_first().len() && spec_trim_start(s.drop_first()) == s.drop_first().skip(
                i,
            );
        assert(s.drop_first().skip(i0) =~= s.skip(i0 + 1));
        assert(spec_trim_start(s) == s.skip(i0 + 1));
    } else {
        assert(s.skip(0) =~= s);
        assert(spec_trim_start(s) == s.skip(0));
    }
}

/// The trimmed form of a sequence is one of its spans.
pub proof fn lemma_trim_is_span(s: Seq<char>)
    ensures
        spec_located_span(s, spec_trim(s)),
{
    lemma_trim_start_is_skip(s);
    let i = choose|i: int| 0 <= i <= s.len() && spec_trim_start(s) == s.skip(i);
    lemma_trim_end_keeps_head(spec_trim_start(s));
    let k = spec_trim(s).len() as int;
    assert(spec_trim(s) == spec_trim_start(s).take(k));
    assert(s.skip(i).take(k) =~= s.subrange(i, i + k));
    assert(spec_trim(s) == s.subrange(i, i + k));
}

/// A span of a span is a span.
pub proof fn lemma_span_of_span(s: Seq<char>, b: Seq<char>, c: Seq<char>)
    requires
        spec_located_span(s, b),
        spec_located_span(b, c),
    ensures
        spec_located_span(s, c),
{
    let (i, j): (int, int) = choose|i: int, j: int|
        0 <= i <= j <= s.len() && b == s.subrange(i, j);
    let (a, e): (int, int) = choose|a: int, e: int|
        0 <= a <= e <= b.len() && c == b.subrange(a, e);
    assert(s.subrange(i, j).subrange(a, e) =~= s.subrange(i + a, i + e));
    assert(c == s.subrange(i + a, i + e));
}

/// Every sequence is a span of itself.
pub proof fn lemma_span_whole(s: Seq<char>)
    ensures
        spec_located_span(s, s),
{
    assert(s.subrange(0, s.len() as int) =~= s);
}

/// Character-wise string equality.
pub fn str_eq(a: &str, b: &str) -> (r: bool)
    ensures
        r == (a@ == b@),
{
    let va = str_to_chars(a);
    let vb = str_to_chars(b);
    let n = va.len();
    if n != vb.len() {
        return false;
    }
    let mut i: usize = 0;
    while i < n
        invariant
            n == va@.len() == vb@.len(),
            va@ == a@,
            vb@ == b@,
            i <= n,
            forall|j: int| 0 <= j < i ==> va@[j] == vb@[j],
        decreases n - i,
    {
        if va[i] != vb[i] {
            return false;
        }
        i = i + 1;
    }
    proof {
        assert(a@ =~= b@);
    }
    true
}

/// The view of an optional string.
pub open spec fn opt_view(o: Option<String>) -> Option<Seq<char>> {
    match o {
        Some(s) => Some(s@),
        None => None,
    }
}

/// The decimal digit character for one value below ten.
pub open spec fn spec_digit(d: nat) -> char {
    if d == 0 {
        '0'
    } else if d == 1 {
        '1'
    } else if d == 2 {
        '2'
    } else if d == 3 {
        '3'
    } else if d == 4 {
        '4'
    } else if d == 5 {
        '5'
    } else if d == 6 {
        '6'
    } else if d == 7 {
        '7'
    } else if d == 8 {
        '8'
    } else {
        '9'
    }
}

/// The decimal digit characters of a number, most significant first.
pub open spec fn spec_decimal(n: nat) -> Seq<char>
    decreases n,
{
    if n < 10 {
        seq![spec_digit(n)]
    } else {
        spec_decimal(n / 10).push(spec_digit(n % 10))
    }
}

/// Append the decimal digits of `n` to `out`.
fn push_decimal(n: usize, out: &mut Vec<char>)
    ensures
        final(out)@ == old(out)@ + spec_decimal(n as nat),
    decreases n,
{
    if n < 10 {
        let d: char = if n == 0 {
            '0'
        } else if n == 1 {
            '1'
        } else if n == 2 {
            '2'
        } else if n == 3 {
            '3'
        } else if n == 4 {
            '4'
        } else if n == 5 {
            '5'
        } else if n == 6 {
            '6'
        } else if n == 7 {
            '7'
        } else if n == 8 {
            '8'
        } else {
            '9'
        };
        out.push(d);
        assert(out@ =~= old(out)@ + spec_decimal(n as nat));
    } else {
        push_decimal(n / 10, out);
        let r = n % 10;
        let d: char = if r == 0 {
            '0'
        } else if r == 1 {
            '1'
        } else if r == 2 {
            '2'
        } else if r == 3 {
            '3'
        } else if r == 4 {
            '4'
        } else if r == 5 {
            '5'
        } else if r == 6 {
            '6'
        } else if r == 7 {
            '7'
        } else if r == 8 {
            '8'
        } else {
            '9'
        };
        out.push(d);
        assert(out@ =~= old(out)@ + spec_decimal(n as nat));
    }
}

/// Render a number in decimal.
pub fn usize_to_string(n: usize) -> (r: String)
    ensures
        r@ == spec_decimal(n as nat),
{
    let mut v: Vec<char> = Vec::new();
    push_decimal(n, &mut v);
    chars_to_string(v.as_slice())
}

/// Append every character of a string slice to a `String`.
pub fn append_str(dst: &mut String, src: &str)
    ensures
        final(dst)@ == old(dst)@ + src@,
{
    dst.append(src)
}

/// Trim a string slice: the verified counterpart of `str::trim` for the
/// whitespace set the sanitizer recognises.
pub fn trim_str(s: &str) -> (r: String)
    ensures
        r@ == spec_trim(s@),
{
    let v = str_to_chars(s);
    let t = trim_chars(&v);
    chars_to_string(t.as_slice())
}

} // verus!
