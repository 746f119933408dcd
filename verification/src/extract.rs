//! JSON extractor: locates and returns the substring that is valid JSON
//! within noisy model output.
//!
//! Strategies are tried in order, short-circuiting on the first candidate
//! that `serde_json` accepts: the trimmed text as-is; the content of a
//! markdown code fence; the brace-balanced span from a leading `{`; a single
//! fence-aware scan of the whole text; trailing-comma removal; backslash
//! re-escaping; aggressive comma fixes; and a line filter.  Every candidate
//! is parse-checked before it is returned, so a successful result is always
//! a trimmed, valid JSON document.

use vstd::prelude::*;

verus! {

use crate::error::ZosError;
use crate::jsonval::{spec_json_valid, json_parses};
use crate::scan::{brace_span_end, validate_json_structure};
use crate::sanitize::{
    remove_trailing_commas_chars,
    spec_remove_trailing_commas,
    fix_backslashes_chars,
    spec_fix_backslashes,
};
use crate::text::{
    spec_trim,
    trim_chars,
    str_to_chars,
    chars_to_string,
    match_at,
    spec_match_at,
    usize_to_string,
    spec_decimal,
    append_str,
    lemma_trim_idempotent,
    spec_is_ws,
    is_ws,
    spec_located_span,
    lemma_trim_is_span,
    lemma_span_of_span,
    lemma_span_whole,
};

/// What the extractor promises of its result: a success is a trimmed, valid
/// JSON document, and input whose trimmed form is already valid JSON is
/// returned exactly as that trimmed form; failure means the trimmed input
/// was not itself valid JSON.
pub open spec fn spec_extract_returns(s: Seq<char>, r: Option<Seq<char>>) -> bool {
    match r {
        Some(t) => spec_json_valid(t) && spec_trim(t) == t && (spec_json_valid(spec_trim(s))
            ==> t == spec_trim(s)),
        None => !spec_json_valid(spec_trim(s)),
    }
}

/// Extraction is idempotent: running the extractor on its own successful
/// output returns that output unchanged.
pub proof fn lemma_extract_idempotent(s: Seq<char>, t: Seq<char>, r2: Option<Seq<char>>)
    requires
        spec_extract_returns(s, Some(t)),
        spec_extract_returns(t, r2),
    ensures
        r2 == Some(t),
{
    assert(spec_json_valid(spec_trim(t)));
}

/// How a successful extraction relates to its input: the result is the trim
/// of a candidate derived from a located span of the text, where the span
/// may first have its trailing commas removed and then pass through
/// backslash re-escaping, the aggressive comma fixes, the blank-line
/// filter, or a further span.  No strategy invents content beyond these
/// documented rewrites.
pub open spec fn spec_extract_derivation(s: Seq<char>, t: Seq<char>) -> bool {
    exists|b: Seq<char>, c: Seq<char>| #![trigger spec_located_span(s, b), spec_trim(c)]
        spec_located_span(s, b) && (c == b || c == spec_remove_trailing_commas(b)
            || spec_located_span(spec_remove_trailing_commas(b), c) || c == spec_fix_backslashes(
            spec_remove_trailing_commas(b),
            false,
        ) || c == spec_comma_fixes(spec_remove_trailing_commas(b)) || c
            == spec_filter_blank_lines(spec_remove_trailing_commas(b))) && t == spec_trim(c)
}

/// Provide the two witnesses of `spec_extract_derivation`.
proof fn lemma_derivation_witness(s: Seq<char>, b: Seq<char>, c: Seq<char>, t: Seq<char>)
    requires
        spec_located_span(s, b),
        c == b || c == spec_remove_trailing_commas(b) || spec_located_span(
            spec_remove_trailing_commas(b),
            c,
        ) || c == spec_fix_backslashes(spec_remove_trailing_commas(b), false) || c
            == spec_comma_fixes(spec_remove_trailing_commas(b)) || c == spec_filter_blank_lines(
            spec_remove_trailing_commas(b),
        ),
        t == spec_trim(c),
    ensures
        spec_extract_derivation(s, t),
{
    let r = spec_remove_trailing_commas(b);
    let f = spec_fix_backslashes(r, false);
    let g = spec_comma_fixes(r);
    let h = spec_filter_blank_lines(r);
    assert(spec_located_span(s, b) && t == spec_trim(c));
    assert(c == b || c == r || spec_located_span(r, c) || c == f || c == g || c == h);
}

/// Trim a candidate and accept it when it parses as JSON.
fn try_candidate(cand: &Vec<char>) -> (r: Option<String>)
    ensures
        r matches Some(t) ==> spec_json_valid(t@) && spec_trim(t@) == t@ && t@ == spec_trim(
            cand@,
        ),
        r is None ==> !spec_json_valid(spec_trim(cand@)),
{
    let t = trim_chars(cand);
    let s = chars_to_string(t.as_slice());
    if json_parses(s.as_str()) {
        proof {
            lemma_trim_idempotent(cand@);
        }
        Some(s)
    } else {
        None
    }
}

/// First index at which `pat` occurs in `v`, if any.
fn find_sub(v: &Vec<char>, pat: &Vec<char>) -> (r: Option<usize>)
    requires
        pat@.len() > 0,
    ensures
        r matches Some(i) ==> i + pat@.len() <= v@.len(),
{
    let n = v.len();
    let m = pat.len();
    if m > n {
        return None;
    }
    let mut i: usize = 0;
    while i <= n - m
        invariant
            n == v@.len(),
            m == pat@.len(),
            0 < m <= n,
            i <= n - m + 1,
        decreases n - i,
    {
        if match_at(v, i, pat) {
            return Some(i);
        }
        i = i + 1;
    }
    None
}

/// First index of character `c` in `v`, if any.
fn find_char(v: &Vec<char>, c: char) -> (r: Option<usize>)
    ensures
        r matches Some(i) ==> i < v@.len() && v@[i as int] == c,
{
    let n = v.len();
    let mut i: usize = 0;
    while i < n
        invariant
            n == v@.len(),
            i <= n,
        decreases n - i,
    {
        if v[i] == c {
            return Some(i);
        }
        i = i + 1;
    }
    None
}

/// Last index of character `c` in `v`, if any.
fn rfind_char(v: &Vec<char>, c: char) -> (r: Option<usize>)
    ensures
        r matches Some(i) ==> i < v@.len() && v@[i as int] == c,
{
    let n = v.len();
    let mut i: usize = n;
    while i > 0
        invariant
            n == v@.len(),
            i <= n,
        decreases i,
    {
        i = i - 1;
        if v[i] == c {
            return Some(i);
        }
    }
    None
}

/// Copy the range `[from, to)` of `v`.
fn slice_range(v: &Vec<char>, from: usize, to: usize) -> (r: Vec<char>)
    requires
        from <= to <= v@.len(),
    ensures
        r@ == v@.subrange(from as int, to as int),
{
    let mut r: Vec<char> = Vec::new();
    let mut i: usize = from;
    while i < to
        invariant
            from <= i <= to <= v@.len(),
            r@ == v@.subrange(from as int, i as int),
        decreases to - i,
    {
        r.push(v[i]);
        assert(r@ =~= v@.subrange(from as int, i as int + 1));
        i = i + 1;
    }
    r
}

/// Left-to-right replacement of every occurrence of `pat` by `rep` (as
/// `str::replace`).
pub open spec fn spec_replace_all(s: Seq<char>, pat: Seq<char>, rep: Seq<char>) -> Seq<char>
    decreases s.len(),
{
    if s.len() == 0 || pat.len() == 0 {
        s
    } else if spec_match_at(s, 0, pat) {
        rep + spec_replace_all(s.skip(pat.len() as int), pat, rep)
    } else {
        seq![s[0]] + spec_replace_all(s.drop_first(), pat, rep)
    }
}

/// The aggressive comma fixes: `,}` becomes `}`, `,]` becomes `]`, and `,,`
/// becomes `,`.
pub open spec fn spec_comma_fixes(s: Seq<char>) -> Seq<char> {
    spec_replace_all(spec_replace_all(spec_replace_all(s, ",}"@, "}"@), ",]"@, "]"@), ",,"@, ","@)
}

/// Replace every occurrence of `pat` in `v` with `rep`, left to right.
fn replace_all(v: &Vec<char>, pat: &Vec<char>, rep: &Vec<char>) -> (r: Vec<char>)
    requires
        pat@.len() > 0,
    ensures
        r@ == spec_replace_all(v@, pat@, rep@),
{
    let n = v.len();
    let m = pat.len();
    let mut out: Vec<char> = Vec::new();
    let mut i: usize = 0;
    assert(v@.skip(0) =~= v@);
    while i < n
        invariant
            n == v@.len(),
            m == pat@.len(),
            m > 0,
            i <= n,
            spec_replace_all(v@, pat@, rep@) == out@ + spec_replace_all(
                v@.skip(i as int),
                pat@,
                rep@,
            ),
        decreases n - i,
    {
        let ghost rest = v@.skip(i as int);
        if match_at(v, i, pat) {
            proof {
                assert(rest.subrange(0, pat@.len() as int) =~= v@.subrange(
                    i as int,
                    i + pat@.len(),
                ));
                assert(spec_match_at(rest, 0, pat@));
                assert(rest.skip(pat@.len() as int) =~= v@.skip(i + pat@.len()));
            }
            let mut j: usize = 0;
            let k = rep.len();
            let ghost out_pre = out@;
            while j < k
                invariant
                    k == rep@.len(),
                    j <= k,
                    out@ == out_pre + rep@.take(j as int),
                decreases k - j,
            {
                out.push(rep[j]);
                assert(out@ =~= out_pre + rep@.take(j as int + 1));
                j = j + 1;
            }
            assert(out@ =~= out_pre + rep@);
            i = i + m;
        } else {
            proof {
                assert(rest.len() > 0);
                if spec_match_at(rest, 0, pat@) {
                    assert(rest.subrange(0, pat@.len() as int) =~= v@.subrange(
                        i as int,
                        i + pat@.len(),
                    ));
                    assert(spec_match_at(v@, i as int, pat@));
                }
                assert(rest.drop_first() =~= v@.skip(i as int + 1));
                assert(rest[0] == v@[i as int]);
            }
            out.push(v[i]);
            i = i + 1;
        }
    }
    proof {
        assert(v@.skip(n as int) =~= Seq::<char>::empty());
        assert(out@ + Seq::<char>::empty() =~= out@);
    }
    out
}

/// The content of a leading markdown code fence, mirroring how model output
/// wraps JSON: an optional `json` tag after the opening fence, content up to
/// the closing fence, or — when the fence is unterminated — the
/// brace-balanced span from the first `{`.
fn fenced_candidate(trimmed: &Vec<char>) -> (r: Option<Vec<char>>)
    ensures
        r matches Some(cv) ==> spec_located_span(trimmed@, cv@),
{
    let fence = str_to_chars("```");
    let tag = str_to_chars("json");
    proof {
        reveal_strlit("```");
        reveal_strlit("json");
    }
    assert(fence@.len() == 3 && tag@.len() == 4);
    if trimmed.len() < 3 || !match_at(trimmed, 0, &fence) {
        return None;
    }
    // skip the opening fence and an optional `json` tag
    let mut start: usize = 3;
    if start + 4 <= trimmed.len() && match_at(trimmed, start, &tag) {
        start = start + 4;
    }
    // skip whitespace after the marker
    while start < trimmed.len() && is_ws(trimmed[start])
        invariant
            start <= trimmed@.len(),
        decreases trimmed@.len() - start,
    {
        start = start + 1;
    }
    let body = slice_range(trimmed, start, trimmed.len());
    // look for the closing fence
    match find_sub(&body, &fence) {
        Some(close) => {
            let cv = slice_range(&body, 0, close);
            proof {
                assert(cv@ =~= trimmed@.subrange(start as int, start + close));
            }
            Some(cv)
        },
        None => {
            // unterminated fence: brace-match from the first `{`
            if body.len() > 0 && body[0] == '{' {
                match brace_span_end(&body, 0) {
                    Some(end) => {
                        let cv = slice_range(&body, 0, end);
                        proof {
                            assert(cv@ =~= trimmed@.subrange(start as int, start + end));
                        }
                        Some(cv)
                    },
                    None => {
                        proof {
                            assert(body@ == trimmed@.subrange(
                                start as int,
                                trimmed@.len() as int,
                            ));
                        }
                        Some(body)
                    },
                }
            } else {
                None
            }
        },
    }
}

/// One fence-aware pass over the whole text that tracks code-fence
/// boundaries, string state and brace depth simultaneously, and returns the
/// bounds of the best well-formed `{...}` span found.
fn scan_best_span(v: &Vec<char>) -> (r: Option<(usize, usize)>)
    ensures
        r matches Some(p) ==> p.0 < p.1 <= v@.len(),
{
    let fence = str_to_chars("```");
    proof {
        reveal_strlit("```");
    }
    let n = v.len();
    let mut i: usize = 0;
    let mut in_code_block = false;
    let mut json_start: Option<usize> = None;
    let mut best_start: Option<usize> = None;
    let mut best_end: Option<usize> = None;
    let mut depth: usize = 0;
    let mut in_string = false;
    let mut escape = false;
    assert(fence@.len() == 3);
    while i < n
        invariant
            n == v@.len(),
            i <= n,
            fence@.len() == 3,
            json_start matches Some(s) ==> s < n,
            best_start matches Some(s) ==> s < n,
            best_end matches Some(e) ==> e <= n,
            best_end matches Some(e) ==> (best_start matches Some(s) && s < e),
        decreases n - i,
    {
        if match_at(v, i, &fence) {
            if in_code_block {
                // closing fence: when a span was open, close it here
                if json_start.is_some() && best_end.is_none() && best_start.is_some() {
                    if best_start.unwrap() < i {
                        best_end = Some(i);
                    }
                }
                in_code_block = false;
                json_start = None;
            } else {
                in_code_block = true;
                i = i + 3;
                let base = i;
                // skip whitespace after the fence (and an optional tag line)
                while i < n && (is_ws(v[i]) || v[i] == 'j' || v[i] == 's' || v[i] == 'o' || v[i]
                    == 'n')
                    invariant
                        base <= i <= n,
                        n == v@.len(),
                    decreases n - i,
                {
                    i = i + 1;
                }
                if i < n && v[i] == '{' && best_end.is_none() {
                    json_start = Some(i);
                    best_start = Some(i);
                    depth = 0;
                    in_string = false;
                    escape = false;
                }
                continue ;
            }
            i = i + 3;
            continue ;
        }
        if escape {
            escape = false;
            i = i + 1;
            continue ;
        }
        let c = v[i];
        if json_start.is_some() {
            if c == '\\' && in_string {
                escape = true;
            } else if c == '"' {
                in_string = !in_string;
            } else if !in_string && c == '{' {
                if depth == 0 && best_end.is_none() {
                    best_start = json_start;
                }
                if depth < usize::MAX {
                    depth = depth + 1;
                }
            } else if !in_string && c == '}' {
                if depth > 0 {
                    depth = depth - 1;
                    if depth == 0 && best_end.is_none() && best_start.is_some() {
                        if best_start.unwrap() <= i {
                            best_end = Some(i + 1);
                        }
                    }
                }
            }
        } else if c == '{' && !in_code_block && best_end.is_none() {
            json_start = Some(i);
            best_start = Some(i);
            depth = 1;
            in_string = false;
            escape = false;
        }
        i = i + 1;
    }
    // an unterminated code block keeps whatever was scanned
    if in_code_block && json_start.is_some() && best_end.is_none() && best_start.is_some() {
        if best_start.unwrap() < n {
            best_end = Some(n);
        }
    }
    match (best_start, best_end) {
        (Some(s), Some(e)) => {
            if s < e {
                Some((s, e))
            } else {
                None
            }
        },
        _ => None,
    }
}

/// Index of the first newline, or the length when none remains.
pub open spec fn spec_find_nl(s: Seq<char>) -> int
    decreases s.len(),
{
    if s.len() == 0 {
        0
    } else if s[0] == '\n' {
        0
    } else {
        1 + spec_find_nl(s.drop_first())
    }
}

/// `spec_find_nl` points at the first newline: nothing before it is one,
/// and it stays within the sequence.
proof fn lemma_find_nl_value(s: Seq<char>, k: int)
    requires
        0 <= k <= s.len(),
        forall|j: int| 0 <= j < k ==> s[j] != '\n',
        k < s.len() ==> s[k] == '\n',
    ensures
        spec_find_nl(s) == k,
    decreases s.len(),
{
    if s.len() == 0 {
    } else if s[0] == '\n' {
        assert(k == 0);
    } else {
        assert(k >= 1);
        assert(forall|j: int| 0 <= j < k - 1 ==> s.drop_first()[j] == s[j + 1]);
        if k - 1 < s.drop_first().len() {
            assert(s.drop_first()[k - 1] == s[k]);
        }
        lemma_find_nl_value(s.drop_first(), k - 1);
    }
}

/// Whether a line holds any non-whitespace content.
pub open spec fn spec_line_has_content(line: Seq<char>) -> bool {
    exists|i: int| 0 <= i < line.len() && !spec_is_ws(line[i])
}

/// Lines that hold only whitespace dropped, the rest joined without
/// separators: a last-resort cleaning pass.
pub open spec fn spec_filter_blank_lines(s: Seq<char>) -> Seq<char>
    decreases s.len(),
{
    if s.len() == 0 {
        Seq::<char>::empty()
    } else {
        let k = spec_find_nl(s);
        let line = s.take(k);
        let kept = if spec_line_has_content(line) {
            line
        } else {
            Seq::<char>::empty()
        };
        if 0 <= k < s.len() {
            kept + spec_filter_blank_lines(s.skip(k + 1))
        } else {
            kept
        }
    }
}

/// Drop lines that hold only whitespace and join the rest without
/// separators.
fn filter_blank_lines(v: &Vec<char>) -> (r: Vec<char>)
    ensures
        r@ == spec_filter_blank_lines(v@),
{
    let n = v.len();
    let mut out: Vec<char> = Vec::new();
    let mut i: usize = 0;
    assert(v@.skip(0) =~= v@);
    while i < n
        invariant
            n == v@.len(),
            i <= n,
            spec_filter_blank_lines(v@) == out@ + spec_filter_blank_lines(v@.skip(i as int)),
        decreases n - i,
    {
        let ghost rest = v@.skip(i as int);
        // find the end of the current line
        let mut k: usize = i;
        while k < n && v[k] != '\n'
            invariant
                n == v@.len(),
                i <= k <= n,
                forall|j: int| i <= j < k ==> v@[j] != '\n',
            decreases n - k,
        {
            k = k + 1;
        }
        proof {
            assert(forall|j: int| 0 <= j < k - i ==> rest[j] == v@[j + i] && rest[j] != '\n');
            if k < n {
                assert(rest[k - i] == v@[k as int]);
            }
            lemma_find_nl_value(rest, k - i);
            assert(rest.take(k - i) =~= v@.subrange(i as int, k as int));
        }
        // does the line hold any content?
        let mut has = false;
        let mut j: usize = i;
        while j < k
            invariant
                n == v@.len(),
                i <= j <= k <= n,
                has == exists|t: int| i <= t < j && !spec_is_ws(v@[t]),
            decreases k - j,
        {
            if !is_ws(v[j]) {
                has = true;
            }
            j = j + 1;
        }
        proof {
            let ghost line = rest.take(k - i);
            if has {
                let t = choose|t: int| i <= t < k && !spec_is_ws(v@[t]);
                assert(line[t - i] == v@[t]);
                assert(spec_line_has_content(line));
            } else {
                if spec_line_has_content(line) {
                    let t = choose|t: int| 0 <= t < line.len() && !spec_is_ws(line[t]);
                    assert(line[t] == v@[t + i]);
                }
            }
        }
        // append the kept line
        if has {
            let ghost out_pre = out@;
            let mut c: usize = i;
            while c < k
                invariant
                    n == v@.len(),
                    i <= c <= k <= n,
                    out@ == out_pre + v@.subrange(i as int, c as int),
                decreases k - c,
            {
                out.push(v[c]);
                assert(out@ =~= out_pre + v@.subrange(i as int, c as int + 1));
                c = c + 1;
            }
        }
        proof {
            if k < n {
                assert(rest.skip((k - i) + 1) =~= v@.skip(k as int + 1));
            } else {
                assert(v@.skip(n as int) =~= Seq::<char>::empty());
            }
        }
        if k < n {
            i = k + 1;
        } else {
            i = n;
        }
    }
    proof {
        assert(v@.skip(n as int) =~= Seq::<char>::empty());
        assert(out@ + Seq::<char>::empty() =~= out@);
    }
    out
}

/// The extraction-failure message: the input's length in characters, a
/// preview of its first 500 characters and a preview of its last 200.
pub open spec fn spec_extract_error_message(s: Seq<char>) -> Seq<char> {
    "Failed to extract valid JSON from response. Text length: "@ + spec_decimal(s.len())
        + ", Preview (first 500 chars): "@ + (if s.len() < 500 {
        s
    } else {
        s.take(500)
    }) + ", Preview (last 200 chars): "@ + (if s.len() < 200 {
        s
    } else {
        s.skip(s.len() - 200)
    })
}

/// Build the descriptive extraction-failure message: text length and
/// head/tail previews.
fn extract_error_message(v: &Vec<char>) -> (r: String)
    ensures
        r@ == spec_extract_error_message(v@),
{
    let n = v.len();
    let head_len: usize = if n < 500 {
        n
    } else {
        500
    };
    let tail_start: usize = if n < 200 {
        0
    } else {
        n - 200
    };
    let head = slice_range(v, 0, head_len);
    let tail = slice_range(v, tail_start, n);
    proof {
        if v@.len() < 500 {
            assert(v@.subrange(0, head_len as int) =~= v@);
        } else {
            assert(v@.subrange(0, head_len as int) =~= v@.take(500));
        }
        if v@.len() < 200 {
            assert(v@.subrange(tail_start as int, n as int) =~= v@);
        } else {
            assert(v@.subrange(tail_start as int, n as int) =~= v@.skip(v@.len() - 200));
        }
    }
    let mut msg = String::new();
    append_str(&mut msg, "Failed to extract valid JSON from response. Text length: ");
    let len_s = usize_to_string(n);
    append_str(&mut msg, len_s.as_str());
    append_str(&mut msg, ", Preview (first 500 chars): ");
    let head_s = chars_to_string(head.as_slice());
    append_str(&mut msg, head_s.as_str());
    append_str(&mut msg, ", Preview (last 200 chars): ");
    let tail_s = chars_to_string(tail.as_slice());
    append_str(&mut msg, tail_s.as_str());
    msg
}

/// Extract the JSON document hidden in model output.
///
/// Success yields a trimmed, valid JSON document that derives from the
/// input by the documented strategies (`spec_extract_derivation`); text
/// whose trimmed form is already valid JSON comes back exactly as that
/// trimmed form, which makes extraction idempotent
/// (`lemma_extract_idempotent`).  Failure reports the `json_extract` stage
/// with the input's length and head/tail previews.
pub fn extract_json(text: &str) -> (r: Result<String, ZosError>)
    ensures
        r matches Ok(t) ==> spec_extract_returns(text@, Some(t@)),
        r matches Ok(t) ==> spec_extract_derivation(text@, t@),
        r is Err ==> spec_extract_returns(text@, None),
        r matches Err(e) ==> e.stage@ == "json_extract"@ && e.message@
            == spec_extract_error_message(text@),
{
    let v = str_to_chars(text);
    // the trimmed text as-is
    if let Some(t) = try_candidate(&v) {
        proof {
            lemma_span_whole(text@);
            lemma_derivation_witness(text@, text@, text@, t@);
        }
        return Ok(t);
    }
    let trimmed = trim_chars(&v);
    // the content of a markdown code fence
    if let Some(cand) = fenced_candidate(&trimmed) {
        if let Some(t) = try_candidate(&cand) {
            proof {
                lemma_trim_is_span(text@);
                lemma_span_of_span(text@, spec_trim(text@), cand@);
                lemma_derivation_witness(text@, cand@, cand@, t@);
            }
            return Ok(t);
        }
    }
    // the brace-balanced span from a leading `{`
    if trimmed.len() > 0 && trimmed[0] == '{' {
        if let Some(end) = brace_span_end(&trimmed, 0) {
            let cand = slice_range(&trimmed, 0, end);
            if let Some(t) = try_candidate(&cand) {
                proof {
                    lemma_trim_is_span(text@);
                    assert(cand@ == spec_trim(text@).subrange(0, end as int));
                    assert(spec_located_span(spec_trim(text@), cand@));
                    lemma_span_of_span(text@, spec_trim(text@), cand@);
                    lemma_derivation_witness(text@, cand@, cand@, t@);
                }
                return Ok(t);
            }
        }
    }
    // one fence-aware scan of the whole text for the best span
    let span = scan_best_span(&v);
    let base = match span {
        Some((sp, ep)) => {
            let b = slice_range(&v, sp, ep);
            proof {
                assert(b@ == text@.subrange(sp as int, ep as int));
            }
            b
        },
        None => {
            proof {
                lemma_trim_is_span(text@);
            }
            trimmed
        },
    };
    assert(spec_located_span(text@, base@));
    // trailing commas removed
    let cleaned = remove_trailing_commas_chars(&base);
    if let Some(t) = try_candidate(&cleaned) {
        proof {
            lemma_derivation_witness(text@, base@, cleaned@, t@);
        }
        return Ok(t);
    }
    // backslashes re-escaped
    let fixed = fix_backslashes_chars(&cleaned);
    if let Some(t) = try_candidate(&fixed) {
        proof {
            lemma_derivation_witness(text@, base@, fixed@, t@);
        }
        return Ok(t);
    }
    // brace-balanced span inside the cleaned text
    if let Some(start) = find_char(&cleaned, '{') {
        if let Some(end) = brace_span_end(&cleaned, start) {
            let cand = slice_range(&cleaned, start, end);
            let cand_s = chars_to_string(cand.as_slice());
            if validate_json_structure(cand_s.as_str()) {
                if let Some(t) = try_candidate(&cand) {
                    proof {
                        assert(cand@ == spec_remove_trailing_commas(base@).subrange(
                            start as int,
                            end as int,
                        ));
                        assert(spec_located_span(spec_remove_trailing_commas(base@), cand@));
                        lemma_derivation_witness(text@, base@, cand@, t@);
                    }
                    return Ok(t);
                }
            }
        }
        // simple first-to-last boundaries when the string-aware span failed
        let ncl = cleaned.len();
        if let Some(end) = rfind_char(&cleaned, '}') {
            if end > start {
                assert(end < ncl);
                let cand = slice_range(&cleaned, start, end + 1);
                let cand_s = chars_to_string(cand.as_slice());
                if validate_json_structure(cand_s.as_str()) {
                    if let Some(t) = try_candidate(&cand) {
                        proof {
                            assert(cand@ == spec_remove_trailing_commas(base@).subrange(
                                start as int,
                                end as int + 1,
                            ));
                            assert(spec_located_span(
                                spec_remove_trailing_commas(base@),
                                cand@,
                            ));
                            lemma_derivation_witness(text@, base@, cand@, t@);
                        }
                        return Ok(t);
                    }
                }
            }
        }
    }
    // aggressive comma fixes
    let p1 = str_to_chars(",}");
    let r1 = str_to_chars("}");
    let p2 = str_to_chars(",]");
    let r2 = str_to_chars("]");
    let p3 = str_to_chars(",,");
    let r3 = str_to_chars(",");
    proof {
        reveal_strlit(",}");
        reveal_strlit(",]");
        reveal_strlit(",,");
    }
    let fixed2 = replace_all(&replace_all(&replace_all(&cleaned, &p1, &r1), &p2, &r2), &p3, &r3);
    if let Some(t) = try_candidate(&fixed2) {
        proof {
            assert(fixed2@ == spec_comma_fixes(cleaned@));
            lemma_derivation_witness(text@, base@, fixed2@, t@);
        }
        return Ok(t);
    }
    // the scanned span without trailing-comma removal
    if let Some((sp, ep)) = span {
        let cand = slice_range(&v, sp, ep);
        if let Some(t) = try_candidate(&cand) {
            proof {
                assert(cand@ == text@.subrange(sp as int, ep as int));
                assert(spec_located_span(text@, cand@));
                lemma_derivation_witness(text@, cand@, cand@, t@);
            }
            return Ok(t);
        }
    }
    // last resort: drop blank lines and join the rest
    let joined = filter_blank_lines(&cleaned);
    if let Some(t) = try_candidate(&joined) {
        proof {
            lemma_derivation_witness(text@, base@, joined@, t@);
        }
        return Ok(t);
    }
    Err(ZosError::new(extract_error_message(&v), "json_extract"))
}

} // verus!
