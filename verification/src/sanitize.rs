//! Output sanitizer: normalises raw model text before structural parsing.
//!
//! The sanitizer strips markdown code-fence markers, removes LaTeX-style
//! escape markers, normalises smart quotes to ASCII, removes commas that
//! immediately precede a closing brace or bracket (outside string literals
//! only — the comma scan never crosses string boundaries), and collapses
//! whitespace runs.  A separate pass re-escapes backslashes that do not
//! start a valid JSON escape sequence.

use vstd::prelude::*;

verus! {

use crate::text::{
    spec_is_ws,
    is_ws,
    spec_trim,
    trim_chars,
    str_to_chars,
    chars_to_string,
    spec_match_at,
    match_at,
};

/// Left-to-right removal of every occurrence of `pat` (as `str::replace`
/// with an empty replacement).
pub open spec fn spec_remove_all(s: Seq<char>, pat: Seq<char>) -> Seq<char>
    decreases s.len(),
{
    if s.len() == 0 || pat.len() == 0 {
        s
    } else if spec_match_at(s, 0, pat) {
        spec_remove_all(s.skip(pat.len() as int), pat)
    } else {
        seq![s[0]] + spec_remove_all(s.drop_first(), pat)
    }
}

/// Remove every occurrence of `pat` from `v`.
pub fn remove_all(v: &Vec<char>, pat: &Vec<char>) -> (r: Vec<char>)
    requires
        pat@.len() > 0,
    ensures
        r@ == spec_remove_all(v@, pat@),
{
    let n = v.len();
    let m = pat.len();
    let mut out: Vec<char> = Vec::new();
    let mut i: usize = 0;
    assert(v@.skip(0) =~= v@);
    while i < n
        invariant
            n == v@.len(),
            m == pat@.len(),
            m > 0,
            i <= n,
            spec_remove_all(v@, pat@) == out@ + spec_remove_all(v@.skip(i as int), pat@),
        decreases n - i,
    {
        let ghost rest = v@.skip(i as int);
        if match_at(v, i, pat) {
            proof {
                assert(rest.subrange(0, pat@.len() as int) =~= v@.subrange(
                    i as int,
                    i + pat@.len(),
                ));
                assert(spec_match_at(rest, 0, pat@));
                assert(rest.skip(pat@.len() as int) =~= v@.skip(i + pat@.len()));
            }
            i = i + m;
        } else {
            proof {
                assert(rest.len() > 0);
                if spec_match_at(rest, 0, pat@) {
                    assert(rest.subrange(0, pat@.len() as int) =~= v@.subrange(
                        i as int,
                        i + pat@.len(),
                    ));
                    assert(spec_match_at(v@, i as int, pat@));
                }
                assert(rest.drop_first() =~= v@.skip(i as int + 1));
                assert(rest[0] == v@[i as int]);
            }
            out.push(v[i]);
            i = i + 1;
            assert(spec_remove_all(v@, pat@) == out@ + spec_remove_all(v@.skip(i as int), pat@));
        }
    }
    proof {
        assert(v@.skip(n as int) =~= Seq::<char>::empty());
        assert(out@ + Seq::<char>::empty() =~= out@);
    }
    out
}

/// Removal of LaTeX-style escape markers: each of `\(`, `\)`, `\[`, `\]`
/// disappears; everything else is kept.
pub open spec fn spec_strip_latex(s: Seq<char>) -> Seq<char>
    decreases s.len(),
{
    if s.len() < 2 {
        s
    } else if s[0] == '\\' && (s[1] == '(' || s[1] == ')' || s[1] == '[' || s[1] == ']') {
        spec_strip_latex(s.skip(2))
    } else {
        seq![s[0]] + spec_strip_latex(s.drop_first())
    }
}

/// Remove LaTeX-style escape markers from `v`.
fn strip_latex(v: &Vec<char>) -> (r: Vec<char>)
    ensures
        r@ == spec_strip_latex(v@),
{
    let n = v.len();
    let mut out: Vec<char> = Vec::new();
    let mut i: usize = 0;
    assert(v@.skip(0) =~= v@);
    while i < n
        invariant
            n == v@.len(),
            i <= n,
            spec_strip_latex(v@) == out@ + spec_strip_latex(v@.skip(i as int)),
        decreases n - i,
    {
        let ghost rest = v@.skip(i as int);
        if i + 1 < n && v[i] == '\\' && (v[i + 1] == '(' || v[i + 1] == ')' || v[i + 1] == '['
            || v[i + 1] == ']') {
            proof {
                assert(rest.len() >= 2);
                assert(rest[0] == v@[i as int] && rest[1] == v@[i as int + 1]);
                assert(rest.skip(2) =~= v@.skip(i as int + 2));
            }
            i = i + 2;
        } else {
            proof {
                assert(rest[0] == v@[i as int]);
                if rest.len() >= 2 {
                    assert(rest[1] == v@[i as int + 1]);
                }
                assert(rest.drop_first() =~= v@.skip(i as int + 1));
            }
            out.push(v[i]);
            i = i + 1;
        }
    }
    proof {
        assert(v@.skip(n as int) =~= Seq::<char>::empty());
        assert(out@ + Seq::<char>::empty() =~= out@);
    }
    out
}

/// ASCII replacement for one possibly-smart-quote character.
pub open spec fn spec_plain_quote(c: char) -> char {
    if c == '\u{201C}' || c == '\u{201D}' {
        '"'
    } else if c == '\u{2018}' || c == '\u{2019}' {
        '\''
    } else {
        c
    }
}

/// Normalise smart quotes to their ASCII counterparts.
pub open spec fn spec_sub_quotes(s: Seq<char>) -> Seq<char> {
    s.map_values(|c: char| spec_plain_quote(c))
}

/// Replace smart quotes in `v`.
fn sub_quotes(v: &Vec<char>) -> (r: Vec<char>)
    ensures
        r@ == spec_sub_quotes(v@),
{
    let n = v.len();
    let mut out: Vec<char> = Vec::new();
    let mut i: usize = 0;
    while i < n
        invariant
            n == v@.len(),
            i <= n,
            out@ == v@.take(i as int).map_values(|c: char| spec_plain_quote(c)),
        decreases n - i,
    {
        let c = v[i];
        let d = if c == '\u{201C}' || c == '\u{201D}' {
            '"'
        } else if c == '\u{2018}' || c == '\u{2019}' {
            '\''
        } else {
            c
        };
        out.push(d);
        i = i + 1;
        assert(out@ =~= v@.take(i as int).map_values(|c: char| spec_plain_quote(c)));
    }
    assert(v@.take(n as int) =~= v@);
    out
}

/// The whitespace the trailing-comma scan skips when looking ahead.
pub open spec fn spec_is_json_ws(c: char) -> bool {
    c == ' ' || c == '\n' || c == '\t' || c == '\r'
}

/// Whether the next non-whitespace character is a closing brace or bracket,
/// which makes a comma before this point a trailing comma.
pub open spec fn spec_comma_is_trailing(s: Seq<char>) -> bool
    decreases s.len(),
{
    if s.len() == 0 {
        false
    } else if spec_is_json_ws(s[0]) {
        spec_comma_is_trailing(s.drop_first())
    } else {
        s[0] == '}' || s[0] == ']'
    }
}

/// Executable lookahead for `spec_comma_is_trailing` on `v` from index `j`.
fn comma_trailing_at(v: &Vec<char>, j: usize) -> (r: bool)
    requires
        j <= v@.len(),
    ensures
        r == spec_comma_is_trailing(v@.skip(j as int)),
{
    let n = v.len();
    let mut k: usize = j;
    while k < n && (v[k] == ' ' || v[k] == '\n' || v[k] == '\t' || v[k] == '\r')
        invariant
            n == v@.len(),
            j <= k <= n,
            spec_comma_is_trailing(v@.skip(j as int)) == spec_comma_is_trailing(
                v@.skip(k as int),
            ),
        decreases n - k,
    {
        proof {
            assert(v@.skip(k as int).drop_first() =~= v@.skip(k as int + 1));
        }
        k = k + 1;
    }
    proof {
        if k == n {
            assert(v@.skip(k as int) =~= Seq::<char>::empty());
        }
    }
    if k < n {
        v[k] == '}' || v[k] == ']'
    } else {
        false
    }
}

/// Removal of commas that immediately precede (up to whitespace) a closing
/// brace or bracket.  The scan tracks string and escape state and never
/// crosses string boundaries: a comma inside a string literal is kept.
pub open spec fn spec_remove_trailing_commas_from(
    s: Seq<char>,
    in_str: bool,
    esc: bool,
) -> Seq<char>
    decreases s.len(),
{
    if s.len() == 0 {
        s
    } else if esc {
        seq![s[0]] + spec_remove_trailing_commas_from(s.drop_first(), in_str, false)
    } else if in_str && s[0] == '\\' {
        seq![s[0]] + spec_remove_trailing_commas_from(s.drop_first(), true, true)
    } else if s[0] == '"' {
        seq![s[0]] + spec_remove_trailing_commas_from(s.drop_first(), !in_str, false)
    } else if !in_str && s[0] == ',' && spec_comma_is_trailing(s.drop_first()) {
        spec_remove_trailing_commas_from(s.drop_first(), false, false)
    } else {
        seq![s[0]] + spec_remove_trailing_commas_from(s.drop_first(), in_str, false)
    }
}

/// `spec_remove_trailing_commas_from`, starting outside any string literal.
pub open spec fn spec_remove_trailing_commas(s: Seq<char>) -> Seq<char> {
    spec_remove_trailing_commas_from(s, false, false)
}

/// Remove trailing commas (invalid in JSON but common in model output).
/// Commas inside string literals are left alone.
pub fn remove_trailing_commas(json: &str) -> (r: String)
    ensures
        r@ == spec_remove_trailing_commas(json@),
{
    let v = str_to_chars(json);
    let out = remove_trailing_commas_chars(&v);
    chars_to_string(out.as_slice())
}

/// Remove trailing commas from a character vector, without crossing string
/// boundaries.
pub fn remove_trailing_commas_chars(v: &Vec<char>) -> (r: Vec<char>)
    ensures
        r@ == spec_remove_trailing_commas(v@),
{
    let n = v.len();
    let mut out: Vec<char> = Vec::new();
    let mut in_str = false;
    let mut esc = false;
    let mut i: usize = 0;
    assert(v@.skip(0) =~= v@);
    while i < n
        invariant
            n == v@.len(),
            i <= n,
            spec_remove_trailing_commas(v@) == out@ + spec_remove_trailing_commas_from(
                v@.skip(i as int),
                in_str,
                esc,
            ),
        decreases n - i,
    {
        let ghost rest = v@.skip(i as int);
        proof {
            assert(rest[0] == v@[i as int]);
            assert(rest.drop_first() =~= v@.skip(i as int + 1));
        }
        let c = v[i];
        if esc {
            out.push(c);
            esc = false;
        } else if in_str && c == '\\' {
            out.push(c);
            esc = true;
        } else if c == '"' {
            out.push(c);
            in_str = !in_str;
        } else if !in_str && c == ',' && comma_trailing_at(v, i + 1) {
            // the trailing comma is dropped
        } else {
            out.push(c);
        }
        i = i + 1;
    }
    proof {
        assert(v@.skip(n as int) =~= Seq::<char>::empty());
        assert(out@ + Seq::<char>::empty() =~= out@);
    }
    out
}

/// Collapse runs of whitespace into a single space.  `last_ws` records
/// whether the previous character already was whitespace.
pub open spec fn spec_collapse_ws(s: Seq<char>, last_ws: bool) -> Seq<char>
    decreases s.len(),
{
    if s.len() == 0 {
        seq![]
    } else if spec_is_ws(s[0]) {
        if last_ws {
            spec_collapse_ws(s.drop_first(), true)
        } else {
            seq![' '] + spec_collapse_ws(s.drop_first(), true)
        }
    } else {
        seq![s[0]] + spec_collapse_ws(s.drop_first(), false)
    }
}

/// Collapse whitespace runs in `v` to single spaces.
fn collapse_ws(v: &Vec<char>) -> (r: Vec<char>)
    ensures
        r@ == spec_collapse_ws(v@, false),
{
    let n = v.len();
    let mut out: Vec<char> = Vec::new();
    let mut last_ws = false;
    let mut i: usize = 0;
    assert(v@.skip(0) =~= v@);
    while i < n
        invariant
            n == v@.len(),
            i <= n,
            spec_collapse_ws(v@, false) == out@ + spec_collapse_ws(v@.skip(i as int), last_ws),
        decreases n - i,
    {
        let ghost rest = v@.skip(i as int);
        proof {
            assert(rest[0] == v@[i as int]);
            assert(rest.drop_first() =~= v@.skip(i as int + 1));
        }
        if is_ws(v[i]) {
            if !last_ws {
                out.push(' ');
                last_ws = true;
            }
        } else {
            out.push(v[i]);
            last_ws = false;
        }
        i = i + 1;
    }
    proof {
        assert(v@.skip(n as int) =~= Seq::<char>::empty());
        assert(out@ + Seq::<char>::empty() =~= out@);
    }
    out
}

/// The characters that may legally follow a backslash in a JSON string.
pub open spec fn spec_is_json_escape(c: char) -> bool {
    c == '"' || c == '\\' || c == '/' || c == 'b' || c == 'f' || c == 'n' || c == 'r' || c == 't'
        || c == 'u'
}

/// Executable mirror of `spec_is_json_escape`.
fn is_json_escape(c: char) -> (r: bool)
    ensures
        r == spec_is_json_escape(c),
{
    c == '"' || c == '\\' || c == '/' || c == 'b' || c == 'f' || c == 'n' || c == 'r' || c == 't'
        || c == 'u'
}

/// Re-escaping of backslashes inside string literals that do not start a
/// valid JSON escape sequence.  A valid escape pair is copied (for `\u`,
/// together with up to four following characters); an invalid or trailing
/// backslash is doubled.  Outside string literals everything is copied.
pub open spec fn spec_fix_backslashes(s: Seq<char>, in_str: bool) -> Seq<char>
    decreases s.len(),
{
    if s.len() == 0 {
        seq![]
    } else if in_str && s[0] == '\\' {
        if s.len() >= 2 && spec_is_json_escape(s[1]) {
            if s[1] == 'u' {
                let k = if s.len() - 2 >= 4 {
                    4int
                } else {
                    s.len() - 2
                };
                seq!['\\', 'u'] + s.subrange(2, 2 + k) + spec_fix_backslashes(s.skip(2 + k), true)
            } else {
                seq!['\\', s[1]] + spec_fix_backslashes(s.skip(2), true)
            }
        } else {
            seq!['\\', '\\'] + spec_fix_backslashes(s.drop_first(), true)
        }
    } else if s[0] == '"' {
        seq!['"'] + spec_fix_backslashes(s.drop_first(), !in_str)
    } else {
        seq![s[0]] + spec_fix_backslashes(s.drop_first(), in_str)
    }
}

/// Fix unescaped backslashes in JSON strings (common with LaTeX notation).
pub fn fix_unescaped_backslashes(json: &str) -> (r: String)
    ensures
        r@ == spec_fix_backslashes(json@, false),
{
    let v = str_to_chars(json);
    let out = fix_backslashes_chars(&v);
    chars_to_string(out.as_slice())
}

/// Fix unescaped backslashes in a character vector.
pub fn fix_backslashes_chars(v: &Vec<char>) -> (r: Vec<char>)
    ensures
        r@ == spec_fix_backslashes(v@, false),
{
    let n = v.len();
    let mut out: Vec<char> = Vec::new();
    let mut in_str = false;
    let mut i: usize = 0;
    assert(v@.skip(0) =~= v@);
    while i < n
        invariant
            n == v@.len(),
            i <= n,
            spec_fix_backslashes(v@, false) == out@ + spec_fix_backslashes(
                v@.skip(i as int),
                in_str,
            ),
        decreases n - i,
    {
        let ghost rest = v@.skip(i as int);
        proof {
            assert(rest[0] == v@[i as int]);
            if rest.len() >= 2 {
                assert(rest[1] == v@[i as int + 1]);
            }
            assert(rest.drop_first() =~= v@.skip(i as int + 1));
        }
        let c = v[i];
        if in_str && c == '\\' {
            if i + 1 < n && is_json_escape(v[i + 1]) {
                if v[i + 1] == 'u' {
                    out.push('\\');
                    out.push('u');
                    let avail = n - (i + 2);
                    let k: usize = if avail >= 4 {
                        4
                    } else {
                        avail
                    };
                    // copy the up-to-four characters after the escape
                    let mut j2: usize = 0;
                    let ghost out_before = out@;
                    while j2 < k
                        invariant
                            n == v@.len(),
                            i + 2 + k <= n,
                            j2 <= k,
                            out@ == out_before + v@.subrange(i as int + 2, i as int + 2 + j2 as int),
                        decreases k - j2,
                    {
                        out.push(v[i + 2 + j2]);
                        j2 = j2 + 1;
                        assert(out@ =~= out_before + v@.subrange(
                            i as int + 2,
                            i as int + 2 + j2 as int,
                        ));
                    }
                    proof {
                        assert(rest.subrange(2, 2 + k as int) =~= v@.subrange(
                            i as int + 2,
                            i as int + 2 + k as int,
                        ));
                        assert(rest.skip(2 + k as int) =~= v@.skip(i as int + 2 + k as int));
                    }
                    i = i + 2 + k;
                } else {
                    out.push('\\');
                    out.push(v[i + 1]);
                    proof {
                        assert(rest.skip(2) =~= v@.skip(i as int + 2));
                    }
                    i = i + 2;
                }
            } else {
                out.push('\\');
                out.push('\\');
                i = i + 1;
            }
        } else if c == '"' {
            out.push('"');
            in_str = !in_str;
            i = i + 1;
        } else {
            out.push(c);
            i = i + 1;
        }
    }
    proof {
        assert(v@.skip(n as int) =~= Seq::<char>::empty());
        assert(out@ + Seq::<char>::empty() =~= out@);
    }
    out
}

/// The sanitizer pipeline: code fences out, LaTeX markers out, smart quotes
/// to ASCII, trailing commas out, whitespace collapsed, ends trimmed.
pub open spec fn spec_sanitize(raw: Seq<char>) -> Seq<char> {
    spec_trim(
        spec_collapse_ws(
            spec_remove_trailing_commas(
                spec_sub_quotes(
                    spec_strip_latex(spec_remove_all(spec_remove_all(raw, "```json"@), "```"@)),
                ),
            ),
            false,
        ),
    )
}

/// Sanitize raw model output before JSON extraction.
pub fn sanitize_raw_output(raw: &str) -> (r: String)
    ensures
        r@ == spec_sanitize(raw@),
{
    let v = str_to_chars(raw);
    let pat_json = str_to_chars("```json");
    let pat_fence = str_to_chars("```");
    proof {
        reveal_strlit("```json");
        reveal_strlit("```");
    }
    let s1 = remove_all(&v, &pat_json);
    let s2 = remove_all(&s1, &pat_fence);
    let s3 = strip_latex(&s2);
    let s4 = sub_quotes(&s3);
    let s5 = remove_trailing_commas_chars(&s4);
    let s6 = collapse_ws(&s5);
    let s7 = trim_chars(&s6);
    chars_to_string(s7.as_slice())
}

} // verus!
