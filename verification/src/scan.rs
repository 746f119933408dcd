//! String-aware structural scanning of candidate JSON text.
//!
//! All scanning treats a backslash inside a string literal as escaping the
//! next character, so braces, brackets and quotes inside strings never affect
//! the structural counts.

use vstd::prelude::*;

verus! {

use crate::text::{spec_trim, trim_chars, str_to_chars};

/// The state of a structural scan: brace and bracket balance, whether the
/// scan is inside a string literal, whether the next character is escaped,
/// and whether a closing token was ever seen with nothing open.
pub struct ScanState {
    pub brace: int,
    pub bracket: int,
    pub in_string: bool,
    pub escape: bool,
    pub bad_close: bool,
}

/// The scan before any character has been read.
pub open spec fn spec_scan_init() -> ScanState {
    ScanState { brace: 0, bracket: 0, in_string: false, escape: false, bad_close: false }
}

/// One step of the structural scan.
pub open spec fn spec_scan_step(st: ScanState, c: char) -> ScanState {
    if st.escape {
        ScanState { escape: false, ..st }
    } else if c == '\\' && st.in_string {
        ScanState { escape: true, ..st }
    } else if c == '"' {
        ScanState { in_string: !st.in_string, ..st }
    } else if !st.in_string && c == '{' {
        ScanState { brace: st.brace + 1, ..st }
    } else if !st.in_string && c == '}' {
        ScanState { brace: st.brace - 1, bad_close: st.bad_close || st.brace == 0, ..st }
    } else if !st.in_string && c == '[' {
        ScanState { bracket: st.bracket + 1, ..st }
    } else if !st.in_string && c == ']' {
        ScanState { bracket: st.bracket - 1, bad_close: st.bad_close || st.bracket == 0, ..st }
    } else {
        st
    }
}

/// The scan state after reading the first `i` characters of `s`.
pub open spec fn spec_scan_at(s: Seq<char>, i: int) -> ScanState
    decreases i,
{
    if i <= 0 {
        spec_scan_init()
    } else {
        spec_scan_step(spec_scan_at(s, i - 1), s[i - 1])
    }
}

/// Executable mirror of the structural scan state.
struct ScanExec {
    brace: i128,
    bracket: i128,
    in_string: bool,
    escape: bool,
    bad_close: bool,
}

impl ScanExec {
    spec fn matches(&self, st: ScanState) -> bool {
        &&& self.brace as int == st.brace
        &&& self.bracket as int == st.bracket
        &&& self.in_string == st.in_string
        &&& self.escape == st.escape
        &&& self.bad_close == st.bad_close
    }
}

/// Run the structural scan over a whole character vector.
fn scan_all(v: &Vec<char>) -> (r: ScanExec)
    ensures
        r.matches(spec_scan_at(v@, v@.len() as int)),
{
    let n = v.len();
    let mut st = ScanExec { brace: 0, bracket: 0, in_string: false, escape: false, bad_close: false };
    let mut i: usize = 0;
    while i < n
        invariant
            n == v@.len(),
            i <= n,
            st.matches(spec_scan_at(v@, i as int)),
            -(i as int) <= st.brace as int <= i as int,
            -(i as int) <= st.bracket as int <= i as int,
        decreases n - i,
    {
        let c = v[i];
        if st.escape {
            st.escape = false;
        } else if c == '\\' && st.in_string {
            st.escape = true;
        } else if c == '"' {
            st.in_string = !st.in_string;
        } else if !st.in_string && c == '{' {
            st.brace = st.brace + 1;
        } else if !st.in_string && c == '}' {
            if st.brace == 0 {
                st.bad_close = true;
            }
            st.brace = st.brace - 1;
        } else if !st.in_string && c == '[' {
            st.bracket = st.bracket + 1;
        } else if !st.in_string && c == ']' {
            if st.bracket == 0 {
                st.bad_close = true;
            }
            st.bracket = st.bracket - 1;
        }
        i = i + 1;
    }
    st
}

/// Whether raw model output looks truncated: its last non-whitespace
/// character is a structural JSON token left hanging, or its braces,
/// brackets or string literals do not balance.
pub open spec fn spec_is_truncated(raw: Seq<char>) -> bool {
    let t = spec_trim(raw);
    if t.len() == 0 {
        false
    } else {
        let last = t[t.len() - 1];
        ||| last == '{'
        ||| last == '['
        ||| last == ':'
        ||| last == '"'
        ||| last == ','
        ||| {
            let st = spec_scan_at(t, t.len() as int);
            st.brace != 0 || st.bracket != 0 || st.in_string
        }
    }
}

/// Check whether raw output appears to be truncated.
pub fn is_truncated(raw: &str) -> (r: bool)
    ensures
        r == spec_is_truncated(raw@),
{
    let v = str_to_chars(raw);
    let t = trim_chars(&v);
    if t.len() == 0 {
        return false;
    }
    let last = t[t.len() - 1];
    if last == '{' || last == '[' || last == ':' || last == '"' || last == ',' {
        return true;
    }
    let st = scan_all(&t);
    st.brace != 0 || st.bracket != 0 || st.in_string
}

/// Whether the text has balanced braces and brackets outside string
/// literals, no closing token with nothing open, and no unclosed string.
pub open spec fn spec_structure_valid(s: Seq<char>) -> bool {
    let st = spec_scan_at(s, s.len() as int);
    !st.bad_close && st.brace == 0 && st.bracket == 0 && !st.in_string
}

/// Validate the basic structure of candidate JSON text before parsing.
pub fn validate_json_structure(json: &str) -> (r: bool)
    ensures
        r == spec_structure_valid(json@),
{
    let v = str_to_chars(json);
    let st = scan_all(&v);
    !st.bad_close && st.brace == 0 && st.bracket == 0 && !st.in_string
}

/// Find the end of the brace-balanced span that starts at `start`, tracking
/// string and escape state: the first index past `start` where the brace
/// depth returns to zero.  Returns `None` when the span never closes.
pub(crate) fn brace_span_end(v: &Vec<char>, start: usize) -> (r: Option<usize>)
    requires
        start < v@.len(),
        v@[start as int] == '{',
    ensures
        r matches Some(e) ==> start < e <= v@.len(),
{
    let n = v.len();
    let mut depth: usize = 1;
    let mut in_string = false;
    let mut escape = false;
    let mut i: usize = start + 1;
    while i < n
        invariant
            n == v@.len(),
            start < i <= n,
            depth >= 1,
            depth <= i,
        decreases n - i,
    {
        let c = v[i];
        if escape {
            escape = false;
        } else if c == '\\' && in_string {
            escape = true;
        } else if c == '"' {
            in_string = !in_string;
        } else if !in_string && c == '{' {
            if depth < usize::MAX {
                depth = depth + 1;
            }
        } else if !in_string && c == '}' {
            depth = depth - 1;
            if depth == 0 {
                return Some(i + 1);
            }
        }
        i = i + 1;
    }
    None
}

} // verus!
