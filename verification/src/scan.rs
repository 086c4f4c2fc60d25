//! Leftmost-match scanners for the small, fixed port patterns that the
//! detectors look for inside script lines and config files.  Each pattern
//! has a spec describing where it matches and which digit run it captures,
//! and one executable engine finds the leftmost match.

use vstd::prelude::*;
use crate::text::{
    contains_at, digit_end, digit_run_end, eqspace_end, eqspace_run_end, chars_of,
    lemma_digit_end_bounds, lemma_eqspace_end_bounds, lemma_space_end_bounds, matches_at,
    space_end, space_run_end,
};

verus! {

/// The fixed patterns the detectors scan for.  Each captures one digit run.
#[derive(Debug, Clone, Copy, PartialEq, Eq, Structural)]
pub enum Pat {
    /// `-p` then whitespace then digits.
    FlagP,
    /// `--port` then one or more of '=' or whitespace, then digits.
    LongPort,
    /// The literal `PORT=` then digits.
    PortEq,
    /// `:` then a run of at least four digits; at most five are captured.
    Colon45,
    /// `-p` or `--port`, then whitespace, then digits.
    NextPortFlag,
    /// `port`, optional spaces, `:`, optional spaces, an optional quote,
    /// then digits.
    PortColonQuote,
    /// `port`, optional spaces, `:`, optional spaces, then digits.
    PortColon,
    /// `port`, optional spaces, `=`, optional spaces, then digits.
    PortEqSpaced,
    /// `"port"`, optional spaces, `:`, optional spaces, then digits.
    PortQuotedColon,
}

/// Position after `\s*:\s*` read from `j`, or -1 when there is no ':'.
pub open spec fn after_colon_sep(s: Seq<char>, j: int) -> int {
    let a = space_end(s, j);
    if 0 <= a < s.len() && s[a] == ':' {
        space_end(s, a + 1)
    } else {
        -1
    }
}

/// Position after `\s*=\s*` read from `j`, or -1 when there is no '='.
pub open spec fn after_eq_sep(s: Seq<char>, j: int) -> int {
    let a = space_end(s, j);
    if 0 <= a < s.len() && s[a] == '=' {
        space_end(s, a + 1)
    } else {
        -1
    }
}

/// The digit run starting at `k`, when it is not empty.
pub open spec fn digit_span(s: Seq<char>, k: int) -> Option<(int, int)> {
    if 0 <= k && digit_end(s, k) > k {
        Some((k, digit_end(s, k)))
    } else {
        None
    }
}

/// Like `digit_span`, but skipping one leading single or double quote.
pub open spec fn quote_digit_span(s: Seq<char>, k: int) -> Option<(int, int)> {
    if 0 <= k < s.len() && (s[k] == '\'' || s[k] == '"') {
        digit_span(s, k + 1)
    } else {
        digit_span(s, k)
    }
}

/// The capture of `-p\s+(\d+)`-style patterns: token, mandatory
/// whitespace, digits.
pub open spec fn flag_cap(s: Seq<char>, i: int, tok: Seq<char>) -> Option<(int, int)> {
    if contains_at(s, tok, i) {
        let k = space_end(s, i + tok.len());
        if k > i + tok.len() {
            digit_span(s, k)
        } else {
            None
        }
    } else {
        None
    }
}

/// Where pattern `p` matches at position `i` of `s`, the start and end of
/// the digit run it captures.
pub open spec fn pat_cap(p: Pat, s: Seq<char>, i: int) -> Option<(int, int)> {
    match p {
        Pat::FlagP => flag_cap(s, i, "-p"@),
        Pat::LongPort => {
            if contains_at(s, "--port"@, i) {
                let k = eqspace_end(s, i + 6);
                if k > i + 6 {
                    digit_span(s, k)
                } else {
                    None
                }
            } else {
                None
            }
        },
        Pat::PortEq => {
            if contains_at(s, "PORT="@, i) {
                digit_span(s, i + 5)
            } else {
                None
            }
        },
        Pat::Colon45 => {
            if 0 <= i < s.len() && s[i] == ':' {
                let e = digit_end(s, i + 1);
                if e - (i + 1) >= 4 {
                    Some((i + 1, if e > i + 6 { i + 6 } else { e }))
                } else {
                    None
                }
            } else {
                None
            }
        },
        Pat::NextPortFlag => {
            if flag_cap(s, i, "-p"@) is Some {
                flag_cap(s, i, "-p"@)
            } else {
                flag_cap(s, i, "--port"@)
            }
        },
        Pat::PortColonQuote => {
            if contains_at(s, "port"@, i) {
                let b = after_colon_sep(s, i + 4);
                if b >= 0 {
                    quote_digit_span(s, b)
                } else {
                    None
                }
            } else {
                None
            }
        },
        Pat::PortColon => {
            if contains_at(s, "port"@, i) {
                let b = after_colon_sep(s, i + 4);
                if b >= 0 {
                    digit_span(s, b)
                } else {
                    None
                }
            } else {
                None
            }
        },
        Pat::PortEqSpaced => {
            if contains_at(s, "port"@, i) {
                let b = after_eq_sep(s, i + 4);
                if b >= 0 {
                    digit_span(s, b)
                } else {
                    None
                }
            } else {
                None
            }
        },
        Pat::PortQuotedColon => {
            if contains_at(s, "\"port\""@, i) {
                let b = after_colon_sep(s, i + 6);
                if b >= 0 {
                    digit_span(s, b)
                } else {
                    None
                }
            } else {
                None
            }
        },
    }
}

/// The capture of the leftmost match of `p` in `s` at or after `i`.
pub open spec fn find_pat_from(p: Pat, s: Seq<char>, i: int) -> Option<(int, int)>
    decreases s.len() - i,
        when 0 <= i <= s.len()
{
    if i >= s.len() {
        None
    } else if pat_cap(p, s, i) is Some {
        pat_cap(p, s, i)
    } else {
        find_pat_from(p, s, i + 1)
    }
}

/// The capture of the leftmost match of `p` in `s`.
pub open spec fn find_pat(p: Pat, s: Seq<char>) -> Option<(int, int)> {
    find_pat_from(p, s, 0)
}

/// Run-time counterpart of `digit_span`.
pub fn digit_span_here(hay: &Vec<char>, k: usize) -> (r: Option<(usize, usize)>)
    requires
        k <= hay@.len(),
    ensures
        span_opt(r) == digit_span(hay@, k as int),
{
    let e = digit_run_end(hay, k);
    if e > k {
        Some((k, e))
    } else {
        None
    }
}

/// Relates a run-time span to its spec value.
pub open spec fn span_opt(r: Option<(usize, usize)>) -> Option<(int, int)> {
    match r {
        Some((a, b)) => Some((a as int, b as int)),
        None => None,
    }
}

/// Run-time counterpart of `quote_digit_span`.
pub fn quote_digit_span_here(hay: &Vec<char>, k: usize) -> (r: Option<(usize, usize)>)
    requires
        k <= hay@.len(),
    ensures
        span_opt(r) == quote_digit_span(hay@, k as int),
{
    if k < hay.len() && (hay[k] == '\'' || hay[k] == '"') {
        digit_span_here(hay, k + 1)
    } else {
        digit_span_here(hay, k)
    }
}

/// Run-time counterpart of `after_colon_sep`: the position after
/// `\s*:\s*`, if the ':' is there.
pub fn colon_sep_here(hay: &Vec<char>, j: usize) -> (r: Option<usize>)
    requires
        j <= hay@.len(),
    ensures
        match r {
            Some(b) => after_colon_sep(hay@, j as int) == b as int && b <= hay@.len(),
            None => after_colon_sep(hay@, j as int) == -1,
        },
{
    let a = space_run_end(hay, j);
    if a < hay.len() && hay[a] == ':' {
        Some(space_run_end(hay, a + 1))
    } else {
        None
    }
}

/// Run-time counterpart of `after_eq_sep`.
pub fn eq_sep_here(hay: &Vec<char>, j: usize) -> (r: Option<usize>)
    requires
        j <= hay@.len(),
    ensures
        match r {
            Some(b) => after_eq_sep(hay@, j as int) == b as int && b <= hay@.len(),
            None => after_eq_sep(hay@, j as int) == -1,
        },
{
    let a = space_run_end(hay, j);
    if a < hay.len() && hay[a] == '=' {
        Some(space_run_end(hay, a + 1))
    } else {
        None
    }
}

/// Does the token occur at `i` (with its length added safely)?
pub fn tok_here(hay: &Vec<char>, i: usize, tok: &Vec<char>) -> (r: bool)
    requires
        i <= hay@.len(),
    ensures
        r == contains_at(hay@, tok@, i as int),
{
    let n = hay.len();
    if n - i >= tok.len() {
        matches_at(hay, tok, i)
    } else {
        false
    }
}

/// Run-time counterpart of `flag_cap`.
fn flag_cap_here(hay: &Vec<char>, i: usize, tok: &Vec<char>) -> (r: Option<(usize, usize)>)
    requires
        i <= hay@.len(),
    ensures
        span_opt(r) == flag_cap(hay@, i as int, tok@),
{
    let n = hay.len();
    if tok_here(hay, i, tok) {
        let j = i + tok.len();
        let k = space_run_end(hay, j);
        if k > j {
            digit_span_here(hay, k)
        } else {
            None
        }
    } else {
        None
    }
}

/// The capture of pattern `p` at position `i`, at run time.
fn pat_cap_here(p: Pat, hay: &Vec<char>, i: usize) -> (r: Option<(usize, usize)>)
    requires
        i <= hay@.len(),
    ensures
        span_opt(r) == pat_cap(p, hay@, i as int),
{
    let n = hay.len();
    match p {
        Pat::FlagP => {
            let tok = chars_of("-p");
            flag_cap_here(hay, i, &tok)
        },
        Pat::LongPort => {
            let tok = chars_of("--port");
            if tok_here(hay, i, &tok) {
                proof {
                    reveal_strlit("--port");
                }
                let k = eqspace_run_end(hay, i + 6);
                if k > i + 6 {
                    digit_span_here(hay, k)
                } else {
                    None
                }
            } else {
                None
            }
        },
        Pat::PortEq => {
            let tok = chars_of("PORT=");
            if tok_here(hay, i, &tok) {
                proof {
                    reveal_strlit("PORT=");
                }
                digit_span_here(hay, i + 5)
            } else {
                None
            }
        },
        Pat::Colon45 => {
            if i < hay.len() && hay[i] == ':' {
                let k = i + 1;
                let e = digit_run_end(hay, k);
                if e - k >= 4 {
                    let cap_end = if e - k > 5 {
                        k + 5
                    } else {
                        e
                    };
                    Some((k, cap_end))
                } else {
                    None
                }
            } else {
                None
            }
        },
        Pat::NextPortFlag => {
            let tok = chars_of("-p");
            let first = flag_cap_here(hay, i, &tok);
            if first.is_some() {
                first
            } else {
                let tok2 = chars_of("--port");
                flag_cap_here(hay, i, &tok2)
            }
        },
        Pat::PortColonQuote => {
            let tok = chars_of("port");
            if tok_here(hay, i, &tok) {
                proof {
                    reveal_strlit("port");
                }
                match colon_sep_here(hay, i + 4) {
                    Some(b) => quote_digit_span_here(hay, b),
                    None => None,
                }
            } else {
                None
            }
        },
        Pat::PortColon => {
            let tok = chars_of("port");
            if tok_here(hay, i, &tok) {
                proof {
                    reveal_strlit("port");
                }
                match colon_sep_here(hay, i + 4) {
                    Some(b) => digit_span_here(hay, b),
                    None => None,
                }
            } else {
                None
            }
        },
        Pat::PortEqSpaced => {
            let tok = chars_of("port");
            if tok_here(hay, i, &tok) {
                proof {
                    reveal_strlit("port");
                }
                match eq_sep_here(hay, i + 4) {
                    Some(b) => digit_span_here(hay, b),
                    None => None,
                }
            } else {
                None
            }
        },
        Pat::PortQuotedColon => {
            let tok = chars_of("\"port\"");
            if tok_here(hay, i, &tok) {
                proof {
                    reveal_strlit("\"port\"");
                }
                match colon_sep_here(hay, i + 6) {
                    Some(b) => digit_span_here(hay, b),
                    None => None,
                }
            } else {
                None
            }
        },
    }
}

/// Find the leftmost match of pattern `p` in `hay` and return the digit
/// run it captures.
pub fn scan_pat(p: Pat, hay: &Vec<char>) -> (r: Option<(usize, usize)>)
    ensures
        span_opt(r) == find_pat(p, hay@),
        r is Some ==> r.unwrap().0 <= r.unwrap().1 <= hay@.len(),
{
    let n = hay.len();
    let mut i: usize = 0;
    while i < n
        invariant
            n == hay@.len(),
            i <= n,
            find_pat(p, hay@) == find_pat_from(p, hay@, i as int),
        decreases n - i,
    {
        let r = pat_cap_here(p, hay, i);
        match r {
            Some((a, b)) => {
                proof {
                    lemma_pat_cap_bounds(p, hay@, i as int);
                }
                return Some((a, b));
            },
            None => {
                i = i + 1;
            },
        }
    }
    None
}

/// Every capture lies within the string.
pub proof fn lemma_pat_cap_bounds(p: Pat, s: Seq<char>, i: int)
    ensures
        match pat_cap(p, s, i) {
            Some((a, b)) => 0 <= a <= b <= s.len(),
            None => true,
        },
{
    if pat_cap(p, s, i) is Some {
        match p {
            Pat::FlagP => {
                lemma_flag_cap_bounds(s, i, "-p"@);
            },
            Pat::LongPort => {
                lemma_eqspace_end_bounds(s, i + 6);
                lemma_digit_end_bounds(s, eqspace_end(s, i + 6));
            },
            Pat::PortEq => {
                lemma_digit_end_bounds(s, i + 5);
            },
            Pat::Colon45 => {
                lemma_digit_end_bounds(s, i + 1);
            },
            Pat::NextPortFlag => {
                lemma_flag_cap_bounds(s, i, "-p"@);
                lemma_flag_cap_bounds(s, i, "--port"@);
            },
            Pat::PortColonQuote => {
                lemma_sep_bounds(s, i + 4);
                let b = after_colon_sep(s, i + 4);
                if 0 <= b < s.len() && (s[b] == '\'' || s[b] == '"') {
                    lemma_digit_end_bounds(s, b + 1);
                } else {
                    lemma_digit_end_bounds(s, b);
                }
            },
            Pat::PortColon => {
                lemma_sep_bounds(s, i + 4);
                lemma_digit_end_bounds(s, after_colon_sep(s, i + 4));
            },
            Pat::PortEqSpaced => {
                lemma_sep_bounds(s, i + 4);
                lemma_digit_end_bounds(s, after_eq_sep(s, i + 4));
            },
            Pat::PortQuotedColon => {
                lemma_sep_bounds(s, i + 6);
                lemma_digit_end_bounds(s, after_colon_sep(s, i + 6));
            },
        }
    }
}

/// The port value captured by the leftmost match of `p`, when the digits
/// parse as a `u16`.
pub open spec fn spec_pat_port(p: Pat, s: Seq<char>) -> Option<u16> {
    match find_pat(p, s) {
        Some((a, b)) => crate::text::spec_parse_u16(s.subrange(a, b)),
        None => None,
    }
}

/// As `spec_pat_port`, but keeping only unprivileged ports (1024 or more).
pub open spec fn spec_pat_port_min1024(p: Pat, s: Seq<char>) -> Option<u16> {
    match spec_pat_port(p, s) {
        Some(v) => if v >= 1024 {
            Some(v)
        } else {
            None
        },
        None => None,
    }
}

/// Find the leftmost match of `p` and parse its captured digits.
pub fn pat_port(p: Pat, hay: &Vec<char>) -> (r: Option<u16>)
    ensures
        r == spec_pat_port(p, hay@),
{
    match scan_pat(p, hay) {
        Some((a, b)) => crate::text::parse_u16_range(hay, a, b),
        None => None,
    }
}

/// Find the leftmost match of `p`, parse it, and keep it only when it is
/// an unprivileged port.
pub fn pat_port_min1024(p: Pat, hay: &Vec<char>) -> (r: Option<u16>)
    ensures
        r == spec_pat_port_min1024(p, hay@),
{
    match pat_port(p, hay) {
        Some(v) => if v >= 1024 {
            Some(v)
        } else {
            None
        },
        None => None,
    }
}

/// Bounds of `flag_cap` captures.
proof fn lemma_flag_cap_bounds(s: Seq<char>, i: int, tok: Seq<char>)
    ensures
        match flag_cap(s, i, tok) {
            Some((a, b)) => 0 <= a <= b <= s.len(),
            None => true,
        },
{
    if flag_cap(s, i, tok) is Some {
        lemma_space_end_bounds(s, i + tok.len());
        lemma_digit_end_bounds(s, space_end(s, i + tok.len()));
    }
}

/// Bounds of the separator helpers.
proof fn lemma_sep_bounds(s: Seq<char>, j: int)
    requires
        0 <= j <= s.len(),
    ensures
        after_colon_sep(s, j) == -1 || j <= after_colon_sep(s, j) <= s.len(),
        after_eq_sep(s, j) == -1 || j <= after_eq_sep(s, j) <= s.len(),
{
    lemma_space_end_bounds(s, j);
    let a = space_end(s, j);
    if 0 <= a < s.len() {
        lemma_space_end_bounds(s, a + 1);
    }
}

} // verus!
