//! Port detection: framework-specific config files first, then the run
//! scripts of the node manifest, then environment files (rejecting
//! privileged ports), and finally the framework's default.

use vstd::prelude::*;
use crate::fstree::{spec_content, spec_root_package_json, spec_root_tauri_conf, DirTree,
    DirTreeView};
use crate::models::{spec_default_port, Framework};
use crate::package_json::spec_extract_port_from_scripts;
use crate::scan::{
    after_eq_sep, digit_span, digit_span_here, eq_sep_here, find_pat, scan_pat, spec_pat_port,
    pat_port, tok_here, Pat,
};
use crate::tauri_conf::spec_dev_port;
use crate::text::{
    char_end, char_find_end, chars_of, contains_at, copy_range, parse_u16_range, spec_parse_u16,
};

verus! {

/// A line with its trailing carriage return removed, as `str::lines`
/// hands lines out.
pub open spec fn strip_cr(l: Seq<char>) -> Seq<char> {
    if l.len() > 0 && l.last() == '\r' {
        l.drop_last()
    } else {
        l
    }
}

/// The lines of `s`, split on '\n'; a trailing newline adds no empty
/// final line.
pub open spec fn spec_lines(s: Seq<char>) -> Seq<Seq<char>>
    decreases s.len(),
        via spec_lines_decreases
{
    if s.len() == 0 {
        Seq::empty()
    } else {
        let k = char_end(s, '\n', 0);
        if k >= s.len() {
            seq![strip_cr(s)]
        } else {
            seq![strip_cr(s.subrange(0, k))] + spec_lines(s.subrange(k + 1, s.len() as int))
        }
    }
}

/// The split in `spec_lines` always shortens its argument.
#[via_fn]
proof fn spec_lines_decreases(s: Seq<char>) {
    if s.len() > 0 {
        crate::text::lemma_char_end_bounds(s, '\n', 0);
    }
}

/// The port an environment line assigns under the given key: the key at
/// the start of the line, then '=', then digits.
pub open spec fn spec_env_tok_port(line: Seq<char>, tok: Seq<char>) -> Option<u16> {
    if contains_at(line, tok, 0) {
        let b = after_eq_sep(line, tok.len() as int);
        if b >= 0 {
            match digit_span(line, b) {
                Some((a, e)) => spec_parse_u16(line.subrange(a, e)),
                None => None,
            }
        } else {
            None
        }
    } else {
        None
    }
}

/// The port one environment line names, trying the five known keys in
/// order and keeping only unprivileged ports.
pub open spec fn spec_env_line_port(line: Seq<char>) -> Option<u16> {
    if env_ok(spec_env_tok_port(line, "PORT"@)) is Some {
        env_ok(spec_env_tok_port(line, "PORT"@))
    } else if env_ok(spec_env_tok_port(line, "VITE_PORT"@)) is Some {
        env_ok(spec_env_tok_port(line, "VITE_PORT"@))
    } else if env_ok(spec_env_tok_port(line, "DEV_PORT"@)) is Some {
        env_ok(spec_env_tok_port(line, "DEV_PORT"@))
    } else if env_ok(spec_env_tok_port(line, "SERVER_PORT"@)) is Some {
        env_ok(spec_env_tok_port(line, "SERVER_PORT"@))
    } else {
        env_ok(spec_env_tok_port(line, "APP_PORT"@))
    }
}

/// Only ports of 1024 and above pass the environment scan.
pub open spec fn env_ok(p: Option<u16>) -> Option<u16> {
    match p {
        Some(v) => if v >= 1024 {
            Some(v)
        } else {
            None
        },
        None => None,
    }
}

/// The first line of the list, from index `i` on, that names a port.
pub open spec fn spec_env_lines_port(ls: Seq<Seq<char>>, i: int) -> Option<u16>
    decreases ls.len() - i,
        when 0 <= i <= ls.len()
{
    if i >= ls.len() {
        None
    } else if spec_env_line_port(ls[i]) is Some {
        spec_env_line_port(ls[i])
    } else {
        spec_env_lines_port(ls, i + 1)
    }
}

/// The port an environment file's content names, if any.
pub open spec fn spec_env_content_port(s: Seq<char>) -> Option<u16> {
    spec_env_lines_port(spec_lines(s), 0)
}

/// The port of one environment file of the snapshot, if present and
/// naming one.
pub open spec fn spec_env_file_port(t: DirTreeView, p: Seq<char>) -> Option<u16> {
    match spec_content(t, p) {
        Some(c) => spec_env_content_port(c),
        None => None,
    }
}

/// The port of the first environment file that names one, trying the
/// four usual file names in order.
pub open spec fn spec_detect_port_from_env(t: DirTreeView) -> Option<u16> {
    if spec_env_file_port(t, ".env"@) is Some {
        spec_env_file_port(t, ".env"@)
    } else if spec_env_file_port(t, ".env.local"@) is Some {
        spec_env_file_port(t, ".env.local"@)
    } else if spec_env_file_port(t, ".env.development"@) is Some {
        spec_env_file_port(t, ".env.development"@)
    } else {
        spec_env_file_port(t, ".env.development.local"@)
    }
}

/// The first file of a config-file list whose content matches the given
/// pattern decides; its captured digits are parsed, and a failed parse
/// still ends the search, as the pattern did match.
pub open spec fn spec_config_file_port(t: DirTreeView, p: Seq<char>, pat: Pat) -> Option<
    Option<u16>,
> {
    match spec_content(t, p) {
        Some(c) => match find_pat(pat, c) {
            Some((a, b)) => Some(spec_parse_u16(c.subrange(a, b))),
            None => None,
        },
        None => None,
    }
}

/// The vite config port: the first `port:` figure in the vite config
/// files.
pub open spec fn spec_vite_port(t: DirTreeView) -> Option<u16> {
    if spec_config_file_port(t, "vite.config.ts"@, Pat::PortColonQuote) is Some {
        spec_config_file_port(t, "vite.config.ts"@, Pat::PortColonQuote).unwrap()
    } else if spec_config_file_port(t, "vite.config.js"@, Pat::PortColonQuote) is Some {
        spec_config_file_port(t, "vite.config.js"@, Pat::PortColonQuote).unwrap()
    } else if spec_config_file_port(t, "vite.config.mjs"@, Pat::PortColonQuote) is Some {
        spec_config_file_port(t, "vite.config.mjs"@, Pat::PortColonQuote).unwrap()
    } else {
        None
    }
}

/// The port flag of the `dev` script in the node manifest.
pub open spec fn spec_nextjs_port(t: DirTreeView) -> Option<u16> {
    match spec_root_package_json(t) {
        Some(pkg) => match crate::kv::assoc_get(pkg.scripts, "dev"@) {
            Some(dev) => spec_pat_port(Pat::NextPortFlag, dev),
            None => None,
        },
        None => None,
    }
}

/// The `"port"` figure of the angular workspace file.
pub open spec fn spec_angular_port(t: DirTreeView) -> Option<u16> {
    match spec_config_file_port(t, "angular.json"@, Pat::PortQuotedColon) {
        Some(p) => p,
        None => None,
    }
}

/// The `port:` figure of the nuxt config files.
pub open spec fn spec_nuxt_port(t: DirTreeView) -> Option<u16> {
    if spec_config_file_port(t, "nuxt.config.ts"@, Pat::PortColon) is Some {
        spec_config_file_port(t, "nuxt.config.ts"@, Pat::PortColon).unwrap()
    } else if spec_config_file_port(t, "nuxt.config.js"@, Pat::PortColon) is Some {
        spec_config_file_port(t, "nuxt.config.js"@, Pat::PortColon).unwrap()
    } else {
        None
    }
}

/// The `port=` figure of the Flask entry files.
pub open spec fn spec_flask_port(t: DirTreeView) -> Option<u16> {
    if spec_config_file_port(t, "app.py"@, Pat::PortEqSpaced) is Some {
        spec_config_file_port(t, "app.py"@, Pat::PortEqSpaced).unwrap()
    } else if spec_config_file_port(t, "main.py"@, Pat::PortEqSpaced) is Some {
        spec_config_file_port(t, "main.py"@, Pat::PortEqSpaced).unwrap()
    } else if spec_config_file_port(t, "run.py"@, Pat::PortEqSpaced) is Some {
        spec_config_file_port(t, "run.py"@, Pat::PortEqSpaced).unwrap()
    } else {
        None
    }
}

/// The framework-specific configuration step of port resolution.
pub open spec fn spec_port_from_config(t: DirTreeView, f: Framework) -> Option<u16> {
    match f {
        Framework::Tauri => match spec_root_tauri_conf(t) {
            Some(conf) => spec_dev_port(conf),
            None => None,
        },
        Framework::Vite | Framework::React | Framework::Vue | Framework::Svelte
        | Framework::Solid => spec_vite_port(t),
        Framework::NextJs => spec_nextjs_port(t),
        Framework::Angular => spec_angular_port(t),
        Framework::NuxtJs => spec_nuxt_port(t),
        Framework::Django => Some(8000u16),
        Framework::Flask => spec_flask_port(t),
        Framework::Laravel => Some(8000u16),
        Framework::Rails => Some(3000u16),
        _ => None,
    }
}

/// The full resolution order: config file, then manifest scripts, then
/// environment files, then the framework default.  Each step may fail
/// and falls through to the next.
pub open spec fn spec_detect_port(t: DirTreeView, f: Framework) -> Option<u16> {
    if spec_port_from_config(t, f) is Some {
        spec_port_from_config(t, f)
    } else if (match spec_root_package_json(t) {
        Some(pkg) => spec_extract_port_from_scripts(pkg),
        None => None,
    }) is Some {
        match spec_root_package_json(t) {
            Some(pkg) => spec_extract_port_from_scripts(pkg),
            None => None,
        }
    } else if spec_detect_port_from_env(t) is Some {
        spec_detect_port_from_env(t)
    } else {
        spec_default_port(f)
    }
}

/// Detect the development port for a service.
pub fn detect_port(t: &DirTree, framework: &Framework) -> (r: Option<u16>)
    ensures
        r == spec_detect_port(t@, *framework),
{
    if let Some(port) = detect_port_from_config(t, framework) {
        return Some(port);
    }
    if let Some(pkg) = t.root_package_json() {
        if let Some(port) = pkg.extract_port_from_scripts() {
            return Some(port);
        }
    }
    if let Some(port) = detect_port_from_env(t) {
        return Some(port);
    }
    framework.default_port()
}

/// Detect port from framework-specific configuration files.
fn detect_port_from_config(t: &DirTree, framework: &Framework) -> (r: Option<u16>)
    ensures
        r == spec_port_from_config(t@, *framework),
{
    match framework {
        Framework::Tauri => {
            match t.root_tauri_conf() {
                Some(conf) => conf.get_dev_port(),
                None => None,
            }
        },
        Framework::Vite | Framework::React | Framework::Vue | Framework::Svelte
        | Framework::Solid => {
            if let Some(p) = config_file_port(t, "vite.config.ts", Pat::PortColonQuote) {
                return p;
            }
            if let Some(p) = config_file_port(t, "vite.config.js", Pat::PortColonQuote) {
                return p;
            }
            match config_file_port(t, "vite.config.mjs", Pat::PortColonQuote) {
                Some(p) => p,
                None => None,
            }
        },
        Framework::NextJs => {
            match t.root_package_json() {
                Some(pkg) => match crate::kv::assoc_lookup(&pkg.scripts, "dev") {
                    Some(dev) => {
                        let hay = chars_of(dev.as_str());
                        pat_port(Pat::NextPortFlag, &hay)
                    },
                    None => None,
                },
                None => None,
            }
        },
        Framework::Angular => {
            match config_file_port(t, "angular.json", Pat::PortQuotedColon) {
                Some(p) => p,
                None => None,
            }
        },
        Framework::NuxtJs => {
            if let Some(p) = config_file_port(t, "nuxt.config.ts", Pat::PortColon) {
                return p;
            }
            match config_file_port(t, "nuxt.config.js", Pat::PortColon) {
                Some(p) => p,
                None => None,
            }
        },
        Framework::Django => Some(8000),
        Framework::Flask => {
            if let Some(p) = config_file_port(t, "app.py", Pat::PortEqSpaced) {
                return p;
            }
            if let Some(p) = config_file_port(t, "main.py", Pat::PortEqSpaced) {
                return p;
            }
            match config_file_port(t, "run.py", Pat::PortEqSpaced) {
                Some(p) => p,
                None => None,
            }
        },
        Framework::Laravel => Some(8000),
        Framework::Rails => Some(3000),
        _ => None,
    }
}

/// The pattern's result in one config file: the outer option says
/// whether the file matched at all, the inner one whether its digits
/// parsed.
fn config_file_port(t: &DirTree, p: &str, pat: Pat) -> (r: Option<Option<u16>>)
    ensures
        r == spec_config_file_port(t@, p@, pat),
{
    match t.content_of(p) {
        Some(content) => {
            let hay = chars_of(content.as_str());
            match scan_pat(pat, &hay) {
                Some((a, b)) => Some(parse_u16_range(&hay, a, b)),
                None => None,
            }
        },
        None => None,
    }
}

/// Detect port from environment files.
fn detect_port_from_env(t: &DirTree) -> (r: Option<u16>)
    ensures
        r == spec_detect_port_from_env(t@),
{
    if let Some(p) = env_file_port(t, ".env") {
        return Some(p);
    }
    if let Some(p) = env_file_port(t, ".env.local") {
        return Some(p);
    }
    if let Some(p) = env_file_port(t, ".env.development") {
        return Some(p);
    }
    env_file_port(t, ".env.development.local")
}

/// The port one environment file names, if it is in the snapshot.
fn env_file_port(t: &DirTree, p: &str) -> (r: Option<u16>)
    ensures
        r == spec_env_file_port(t@, p@),
{
    match t.content_of(p) {
        Some(content) => {
            let hay = chars_of(content.as_str());
            let lines = split_lines(&hay);
            let ghost lv = spec_lines(content@);
            let n = lines.len();
            let mut i: usize = 0;
            while i < n
                invariant
                    n == lines@.len(),
                    spec_content(t@, p@) == Some(content@),
                    lv == spec_lines(content@),
                    lines@.map_values(|l: Vec<char>| l@) == lv,
                    lv.len() == n,
                    i <= n,
                    spec_env_lines_port(lv, 0) == spec_env_lines_port(lv, i as int),
                decreases n - i,
            {
                proof {
                    assert(lines@.map_values(|l: Vec<char>| l@)[i as int] == lines@[i as int]@);
                }
                if let Some(port) = env_line_port(&lines[i]) {
                    return Some(port);
                }
                i = i + 1;
            }
            None
        },
        None => None,
    }
}

/// The port one line names, trying the five keys in order.
fn env_line_port(line: &Vec<char>) -> (r: Option<u16>)
    ensures
        r == spec_env_line_port(line@),
{
    if let Some(p) = env_tok_port(line, "PORT") {
        if p >= 1024 {
            return Some(p);
        }
    }
    if let Some(p) = env_tok_port(line, "VITE_PORT") {
        if p >= 1024 {
            return Some(p);
        }
    }
    if let Some(p) = env_tok_port(line, "DEV_PORT") {
        if p >= 1024 {
            return Some(p);
        }
    }
    if let Some(p) = env_tok_port(line, "SERVER_PORT") {
        if p >= 1024 {
            return Some(p);
        }
    }
    match env_tok_port(line, "APP_PORT") {
        Some(p) => if p >= 1024 {
            Some(p)
        } else {
            None
        },
        None => None,
    }
}

/// The assignment of one key at the start of the line.
fn env_tok_port(line: &Vec<char>, tok: &str) -> (r: Option<u16>)
    ensures
        r == spec_env_tok_port(line@, tok@),
{
    let tv = chars_of(tok);
    if tok_here(line, 0, &tv) {
        match eq_sep_here(line, tv.len()) {
            Some(b) => match digit_span_here(line, b) {
                Some((a, e)) => {
                    proof {
                        crate::text::lemma_digit_end_bounds(line@, b as int);
                    }
                    parse_u16_range(line, a, e)
                },
                None => None,
            },
            None => None,
        }
    } else {
        None
    }
}

/// Split content into its lines, as `str::lines` does.
fn split_lines(s: &Vec<char>) -> (r: Vec<Vec<char>>)
    ensures
        r@.map_values(|l: Vec<char>| l@) == spec_lines(s@),
{
    let mut r: Vec<Vec<char>> = Vec::new();
    let n = s.len();
    let mut pos: usize = 0;
    proof {
        assert(s@.subrange(0, n as int) =~= s@);
        assert(r@.map_values(|l: Vec<char>| l@) =~= Seq::<Seq<char>>::empty());
    }
    while pos < n
        invariant
            n == s@.len(),
            pos <= n,
            spec_lines(s@) =~= r@.map_values(|l: Vec<char>| l@) + spec_lines(
                s@.subrange(pos as int, n as int),
            ),
        decreases n - pos,
    {
        let ghost suffix = s@.subrange(pos as int, n as int);
        let k = char_find_end(s, '\n', pos);
        proof {
            assert(suffix.len() > 0);
            crate::text::lemma_char_end_suffix(s@, '\n', pos as int);
        }
        let line_end = if k > pos && s[k - 1] == '\r' {
            k - 1
        } else {
            k
        };
        let line = copy_range(s, pos, line_end);
        proof {
            let fk = char_end(suffix, '\n', 0);
            assert(fk == k - pos);
            if fk >= suffix.len() {
                assert(strip_cr(suffix) =~= s@.subrange(pos as int, line_end as int)) by {
                    if suffix.len() > 0 && suffix.last() == '\r' {
                        assert(suffix.drop_last() =~= s@.subrange(pos as int, n - 1));
                    } else {
                        assert(suffix =~= s@.subrange(pos as int, n as int));
                    }
                }
            } else {
                let fl = suffix.subrange(0, fk);
                assert(strip_cr(fl) =~= s@.subrange(pos as int, line_end as int)) by {
                    assert(fl =~= s@.subrange(pos as int, k as int));
                    if fl.len() > 0 && fl.last() == '\r' {
                        assert(fl.drop_last() =~= s@.subrange(pos as int, k - 1));
                    }
                }
                assert(suffix.subrange(fk + 1, suffix.len() as int) =~= s@.subrange(
                    k + 1,
                    n as int,
                ));
            }
        }
        r.push(line);
        proof {
            assert(r@.map_values(|l: Vec<char>| l@) =~= r@.map_values(
                |l: Vec<char>| l@,
            ).drop_last().push(s@.subrange(pos as int, line_end as int)));
        }
        if k >= n {
            pos = n;
        } else {
            pos = k + 1;
        }
    }
    proof {
        assert(spec_lines(s@.subrange(pos as int, n as int)).len() == 0) by {
            assert(s@.subrange(pos as int, n as int) =~= Seq::<char>::empty());
        }
        assert(r@.map_values(|l: Vec<char>| l@) =~= r@.map_values(|l: Vec<char>| l@) + Seq::<
            Seq<char>,
        >::empty());
    }
    r
}


/// Port extraction accepts only unprivileged ports from environment-file
/// scans: whatever the files hold, a port below 1024 never comes out of
/// the environment step — a line like `PORT=80` falls through.
pub proof fn lemma_env_ports_unprivileged(t: DirTreeView)
    ensures
        (match spec_detect_port_from_env(t) {
            Some(p) => p >= 1024,
            None => true,
        }),
{
    lemma_env_file_unprivileged(t, ".env"@);
    lemma_env_file_unprivileged(t, ".env.local"@);
    lemma_env_file_unprivileged(t, ".env.development"@);
    lemma_env_file_unprivileged(t, ".env.development.local"@);
}

/// One environment file only ever yields unprivileged ports.
proof fn lemma_env_file_unprivileged(t: DirTreeView, p: Seq<char>)
    ensures
        (match spec_env_file_port(t, p) {
            Some(v) => v >= 1024,
            None => true,
        }),
{
    match spec_content(t, p) {
        Some(c) => {
            lemma_env_lines_unprivileged(spec_lines(c), 0);
        },
        None => {},
    }
}

/// Every line's outcome passes the 1024 floor.
proof fn lemma_env_lines_unprivileged(ls: Seq<Seq<char>>, i: int)
    requires
        0 <= i <= ls.len(),
    ensures
        (match spec_env_lines_port(ls, i) {
            Some(v) => v >= 1024,
            None => true,
        }),
    decreases ls.len() - i,
{
    if i < ls.len() {
        lemma_env_lines_unprivileged(ls, i + 1);
    }
}
} // verus!
