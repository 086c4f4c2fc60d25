//! Workspace detection: at most one workspace tool per root, found in a
//! fixed specificity order, and its member patterns expanded against the
//! snapshot.  A directory only counts as a member when it holds a
//! recognizable project manifest of its own.

use vstd::prelude::*;
use vstd::string::StringExecFns;
use crate::fstree::{spec_has_path, spec_manifests_at, spec_root_cargo_toml,
    spec_root_package_json, DirTree, DirTreeView};
use crate::models::MonorepoTool;
use crate::package_json::{spec_workspace_patterns, clone_strings};
use crate::text::{char_end, chars_of, str_eq};

verus! {

/// The components of a '/'-separated path or pattern.
pub open spec fn split_slash(s: Seq<char>) -> Seq<Seq<char>>
    decreases s.len(),
        via split_slash_decreases
{
    let k = char_end(s, '/', 0);
    if k >= s.len() {
        seq![s]
    } else {
        seq![s.subrange(0, k)] + split_slash(s.subrange(k + 1, s.len() as int))
    }
}

/// The split always shortens its argument.
#[via_fn]
proof fn split_slash_decreases(s: Seq<char>) {
    crate::text::lemma_char_end_bounds(s, '/', 0);
}

/// Wildcard match of one pattern component against one name, from
/// position `i` of the pattern and `j` of the name: `*` matches any run
/// of characters, `?` any single one.
pub open spec fn wc_match(p: Seq<char>, s: Seq<char>, i: int, j: int) -> bool
    decreases p.len() - i, s.len() - j,
        when 0 <= i <= p.len() && 0 <= j <= s.len()
{
    if i >= p.len() {
        j >= s.len()
    } else if p[i] == '*' {
        wc_match(p, s, i + 1, j) || (j < s.len() && wc_match(p, s, i, j + 1))
    } else if j < s.len() && (p[i] == '?' || p[i] == s[j]) {
        wc_match(p, s, i + 1, j + 1)
    } else {
        false
    }
}

/// Match of a component pattern list against a component list: a `**`
/// component matches any number of components.
pub open spec fn glob_comps_match(ps: Seq<Seq<char>>, cs: Seq<Seq<char>>, i: int, j: int) -> bool
    decreases ps.len() - i, cs.len() - j,
        when 0 <= i <= ps.len() && 0 <= j <= cs.len()
{
    if i >= ps.len() {
        j >= cs.len()
    } else if ps[i] == "**"@ {
        glob_comps_match(ps, cs, i + 1, j) || (j < cs.len() && glob_comps_match(ps, cs, i, j + 1))
    } else if j < cs.len() && wc_match(ps[i], cs[j], 0, 0) {
        glob_comps_match(ps, cs, i + 1, j + 1)
    } else {
        false
    }
}

/// Glob match of a whole pattern against a whole relative path.
pub open spec fn glob_match(pattern: Seq<char>, path: Seq<char>) -> bool {
    glob_comps_match(split_slash(pattern), split_slash(path), 0, 0)
}

/// A directory that holds a recognizable project manifest may join a
/// workspace.
pub open spec fn spec_member_manifest(t: DirTreeView, p: Seq<char>) -> bool {
    spec_has_path(t, p + "/"@ + "package.json"@) || spec_has_path(t, p + "/"@ + "Cargo.toml"@)
        || spec_has_path(t, p + "/"@ + "pyproject.toml"@) || spec_has_path(
        t,
        p + "/"@ + "go.mod"@,
    )
}

/// The member directories one pattern yields: directory entries matching
/// the pattern, in snapshot order, that hold a project manifest.
pub open spec fn spec_pattern_members(t: DirTreeView, pattern: Seq<char>) -> Seq<Seq<char>> {
    spec_pattern_members_of(t, t.entries, pattern)
}

/// As `spec_pattern_members`, folded over an entry prefix.
pub open spec fn spec_pattern_members_of(
    t: DirTreeView,
    es: Seq<crate::fstree::FileNodeView>,
    pattern: Seq<char>,
) -> Seq<Seq<char>>
    decreases es.len(),
{
    if es.len() == 0 {
        Seq::empty()
    } else {
        let init = spec_pattern_members_of(t, es.drop_last(), pattern);
        let e = es.last();
        if e.is_dir && glob_match(pattern, e.path) && spec_member_manifest(t, e.path) {
            init.push(e.path)
        } else {
            init
        }
    }
}

/// The members of a pattern list: the patterns in order, negation
/// patterns (prefixed with '!') dropped rather than resolved.
pub open spec fn spec_resolve_patterns(t: DirTreeView, pats: Seq<Seq<char>>) -> Seq<Seq<char>>
    decreases pats.len(),
{
    if pats.len() == 0 {
        Seq::empty()
    } else {
        let init = spec_resolve_patterns(t, pats.drop_last());
        let p = pats.last();
        if p.len() > 0 && p[0] == '!' {
            init
        } else {
            init + spec_pattern_members(t, p)
        }
    }
}

/// Information about a detected monorepo.
#[derive(Debug, Clone)]
pub struct MonorepoInfo {
    pub tool: MonorepoTool,
    pub workspace_patterns: Vec<String>,
    pub workspace_paths: Vec<String>,
}

/// Ghost image of a monorepo result.
pub ghost struct MonorepoInfoView {
    pub tool: MonorepoTool,
    pub workspace_patterns: Seq<Seq<char>>,
    pub workspace_paths: Seq<Seq<char>>,
}

impl View for MonorepoInfo {
    type V = MonorepoInfoView;

    open spec fn view(&self) -> MonorepoInfoView {
        MonorepoInfoView {
            tool: self.tool,
            workspace_patterns: self.workspace_patterns@.map_values(|s: String| s@),
            workspace_paths: self.workspace_paths@.map_values(|s: String| s@),
        }
    }
}

/// The patterns of a pnpm or lerna list with the negations dropped.
pub open spec fn spec_drop_negations(ps: Seq<Seq<char>>) -> Seq<Seq<char>>
    decreases ps.len(),
{
    if ps.len() == 0 {
        Seq::empty()
    } else {
        let init = spec_drop_negations(ps.drop_last());
        let p = ps.last();
        if p.len() > 0 && p[0] == '!' {
            init
        } else {
            init.push(p)
        }
    }
}

/// The workspace tool the lockfiles suggest for a node workspace root.
pub open spec fn spec_npm_tool(t: DirTreeView) -> MonorepoTool {
    if spec_has_path(t, "bun.lock"@) || spec_has_path(t, "bun.lockb"@) {
        MonorepoTool::BunWorkspaces
    } else if spec_has_path(t, "yarn.lock"@) {
        MonorepoTool::YarnWorkspaces
    } else {
        MonorepoTool::NpmWorkspaces
    }
}

/// The node-workspace result: the manifest's declared patterns, or
/// nothing when it declares none.
pub open spec fn spec_npm_workspaces(t: DirTreeView, tool: MonorepoTool) -> Option<
    MonorepoInfoView,
> {
    match spec_root_package_json(t) {
        Some(pkg) => {
            let pats = spec_workspace_patterns(pkg);
            if pats.len() == 0 {
                None
            } else {
                Some(
                    MonorepoInfoView {
                        tool,
                        workspace_patterns: pats,
                        workspace_paths: spec_resolve_patterns(t, pats),
                    },
                )
            }
        },
        None => None,
    }
}

/// The Nx members: immediate children of `apps`, `libs` and `packages`
/// that hold a node manifest or a project file.
pub open spec fn spec_nx_members(t: DirTreeView) -> Seq<Seq<char>> {
    spec_nx_members_under(t, "apps"@) + spec_nx_members_under(t, "libs"@) + spec_nx_members_under(
        t,
        "packages"@,
    )
}

/// The Nx members below one directory, in snapshot order.
pub open spec fn spec_nx_members_under(t: DirTreeView, dir: Seq<char>) -> Seq<Seq<char>> {
    if spec_has_path(t, dir) {
        spec_nx_members_under_of(t, t.entries, dir)
    } else {
        Seq::empty()
    }
}

/// As `spec_nx_members_under`, folded over an entry prefix.
pub open spec fn spec_nx_members_under_of(
    t: DirTreeView,
    es: Seq<crate::fstree::FileNodeView>,
    dir: Seq<char>,
) -> Seq<Seq<char>>
    decreases es.len(),
{
    if es.len() == 0 {
        Seq::empty()
    } else {
        let init = spec_nx_members_under_of(t, es.drop_last(), dir);
        let e = es.last();
        if e.is_dir && spec_is_immediate_child(e.path, dir) && (spec_has_path(
            t,
            e.path + "/"@ + "package.json"@,
        ) || spec_has_path(t, e.path + "/"@ + "project.json"@)) {
            init.push(e.path)
        } else {
            init
        }
    }
}

/// `p` is `dir` plus exactly one more component.
pub open spec fn spec_is_immediate_child(p: Seq<char>, dir: Seq<char>) -> bool {
    p.len() > dir.len() + 1 && p.subrange(0, dir.len() as int) == dir && p[dir.len() as int] == '/'
        && (forall|k: int| dir.len() + 1 <= k < p.len() ==> p[k] != '/')
}

/// The whole workspace-tool decision, in the fixed specificity order.
pub open spec fn spec_detect_monorepo(t: DirTreeView) -> Option<MonorepoInfoView> {
    if spec_has_path(t, "turbo.json"@) {
        spec_npm_workspaces(t, MonorepoTool::Turborepo)
    } else if spec_has_path(t, "nx.json"@) {
        Some(
            MonorepoInfoView {
                tool: MonorepoTool::Nx,
                workspace_patterns: seq!["apps/*"@, "libs/*"@, "packages/*"@],
                workspace_paths: spec_nx_members(t),
            },
        )
    } else if spec_has_path(t, "lerna.json"@) {
        match spec_lerna_packages(t) {
            Some(ps) => Some(
                MonorepoInfoView {
                    tool: MonorepoTool::Lerna,
                    workspace_patterns: ps,
                    workspace_paths: spec_resolve_patterns(t, ps),
                },
            ),
            None => None,
        }
    } else if spec_has_path(t, "rush.json"@) {
        Some(
            MonorepoInfoView {
                tool: MonorepoTool::Rush,
                workspace_patterns: Seq::empty(),
                workspace_paths: Seq::empty(),
            },
        )
    } else if spec_has_path(t, "pnpm-workspace.yaml"@) {
        match spec_pnpm_packages(t) {
            Some(ps) => {
                let pats = spec_drop_negations(ps);
                Some(
                    MonorepoInfoView {
                        tool: MonorepoTool::PnpmWorkspaces,
                        workspace_patterns: pats,
                        workspace_paths: spec_resolve_patterns(t, pats),
                    },
                )
            },
            None => None,
        }
    } else if spec_has_path(t, "Cargo.toml"@) && spec_cargo_members(t).len() > 0 {
        Some(
            MonorepoInfoView {
                tool: MonorepoTool::CargoWorkspace,
                workspace_patterns: spec_cargo_members(t),
                workspace_paths: spec_resolve_patterns(t, spec_cargo_members(t)),
            },
        )
    } else {
        match spec_root_package_json(t) {
            Some(pkg) => if pkg.workspaces is Some {
                spec_npm_workspaces(t, spec_npm_tool(t))
            } else {
                None
            },
            None => None,
        }
    }
}

/// The `packages` list the lerna configuration declares, when the caller
/// could parse it.
pub open spec fn spec_lerna_packages(t: DirTreeView) -> Option<Seq<Seq<char>>> {
    match spec_manifests_at(t, ""@) {
        Some(m) => m.lerna_packages,
        None => None,
    }
}

/// The `packages` list the pnpm workspace file declares, when the caller
/// could parse it.
pub open spec fn spec_pnpm_packages(t: DirTreeView) -> Option<Seq<Seq<char>>> {
    match spec_manifests_at(t, ""@) {
        Some(m) => m.pnpm_packages,
        None => None,
    }
}

/// The Rust workspace members the root manifest declares.
pub open spec fn spec_cargo_members(t: DirTreeView) -> Seq<Seq<char>> {
    match spec_root_cargo_toml(t) {
        Some(ct) => match ct.workspace {
            Some(w) => w.members,
            None => Seq::empty(),
        },
        None => Seq::empty(),
    }
}

/// Detect if the project is a monorepo and which tool it uses.
pub fn detect_monorepo(t: &DirTree) -> (r: Option<MonorepoInfo>)
    ensures
        (match r {
            Some(info) => spec_detect_monorepo(t@) == Some(info@),
            None => spec_detect_monorepo(t@) is None,
        }),
{
    if t.has_path("turbo.json") {
        return npm_workspaces(t, MonorepoTool::Turborepo);
    }
    if t.has_path("nx.json") {
        let mut pats: Vec<String> = Vec::new();
        pats.push(String::from_str("apps/*"));
        pats.push(String::from_str("libs/*"));
        pats.push(String::from_str("packages/*"));
        let paths = nx_members(t);
        let info = MonorepoInfo {
            tool: MonorepoTool::Nx,
            workspace_patterns: pats,
            workspace_paths: paths,
        };
        proof {
            assert(info@.workspace_patterns =~= seq!["apps/*"@, "libs/*"@, "packages/*"@]);
        }
        return Some(info);
    }
    if t.has_path("lerna.json") {
        match t.manifests_at("") {
            Some(m) => match &m.lerna_packages {
                Some(ps) => {
                    let pats = clone_strings(ps);
                    let paths = resolve_workspace_patterns(t, &pats);
                    return Some(
                        MonorepoInfo {
                            tool: MonorepoTool::Lerna,
                            workspace_patterns: pats,
                            workspace_paths: paths,
                        },
                    );
                },
                None => {
                    return None;
                },
            },
            None => {
                return None;
            },
        }
    }
    if t.has_path("rush.json") {
        let info = MonorepoInfo {
            tool: MonorepoTool::Rush,
            workspace_patterns: Vec::new(),
            workspace_paths: Vec::new(),
        };
        proof {
            assert(info@.workspace_patterns =~= Seq::<Seq<char>>::empty());
            assert(info@.workspace_paths =~= Seq::<Seq<char>>::empty());
        }
        return Some(info);
    }
    if t.has_path("pnpm-workspace.yaml") {
        match t.manifests_at("") {
            Some(m) => match &m.pnpm_packages {
                Some(ps) => {
                    let pats = drop_negations(ps);
                    let paths = resolve_workspace_patterns(t, &pats);
                    return Some(
                        MonorepoInfo {
                            tool: MonorepoTool::PnpmWorkspaces,
                            workspace_patterns: pats,
                            workspace_paths: paths,
                        },
                    );
                },
                None => {
                    return None;
                },
            },
            None => {
                return None;
            },
        }
    }
    if t.has_path("Cargo.toml") {
        let members = cargo_members(t);
        if members.len() > 0 {
            let paths = resolve_workspace_patterns(t, &members);
            return Some(
                MonorepoInfo {
                    tool: MonorepoTool::CargoWorkspace,
                    workspace_patterns: members,
                    workspace_paths: paths,
                },
            );
        }
    }
    match t.root_package_json() {
        Some(pkg) => {
            if pkg.workspaces.is_some() {
                npm_workspaces(t, spec_npm_tool_of(t))
            } else {
                None
            }
        },
        None => None,
    }
}

/// The node-workspace lockfile rule, at run time.
fn spec_npm_tool_of(t: &DirTree) -> (r: MonorepoTool)
    ensures
        r == spec_npm_tool(t@),
{
    if t.has_path("bun.lock") || t.has_path("bun.lockb") {
        MonorepoTool::BunWorkspaces
    } else if t.has_path("yarn.lock") {
        MonorepoTool::YarnWorkspaces
    } else {
        MonorepoTool::NpmWorkspaces
    }
}

/// The Rust workspace members, at run time.
fn cargo_members(t: &DirTree) -> (r: Vec<String>)
    ensures
        r@.map_values(|s: String| s@) == spec_cargo_members(t@),
{
    match t.root_cargo_toml() {
        Some(ct) => ct.get_workspace_members(),
        None => {
            let r: Vec<String> = Vec::new();
            proof {
                assert(r@.map_values(|s: String| s@) =~= Seq::<Seq<char>>::empty());
            }
            r
        },
    }
}

/// The node-workspace result, at run time.
fn npm_workspaces(t: &DirTree, tool: MonorepoTool) -> (r: Option<MonorepoInfo>)
    ensures
        (match r {
            Some(info) => spec_npm_workspaces(t@, tool) == Some(info@),
            None => spec_npm_workspaces(t@, tool) is None,
        }),
{
    match t.root_package_json() {
        Some(pkg) => {
            let pats = pkg.get_workspace_patterns();
            if pats.len() == 0 {
                return None;
            }
            let paths = resolve_workspace_patterns(t, &pats);
            Some(MonorepoInfo { tool, workspace_patterns: pats, workspace_paths: paths })
        },
        None => None,
    }
}

/// Drop the '!'-prefixed negation patterns.
fn drop_negations(ps: &Vec<String>) -> (r: Vec<String>)
    ensures
        r@.map_values(|s: String| s@) == spec_drop_negations(ps@.map_values(|s: String| s@)),
{
    let ghost pv = ps@.map_values(|s: String| s@);
    let mut r: Vec<String> = Vec::new();
    let n = ps.len();
    let mut i: usize = 0;
    while i < n
        invariant
            n == ps@.len(),
            pv == ps@.map_values(|s: String| s@),
            pv.len() == n,
            i <= n,
            r@.map_values(|s: String| s@) =~= spec_drop_negations(pv.subrange(0, i as int)),
        decreases n - i,
    {
        proof {
            assert(pv.subrange(0, i + 1).drop_last() =~= pv.subrange(0, i as int));
            assert(pv.subrange(0, i + 1).last() == pv[i as int]);
            assert(pv[i as int] == ps@[i as int]@);
        }
        let pch = chars_of(ps[i].as_str());
        if !(pch.len() > 0 && pch[0] == '!') {
            r.push(ps[i].clone());
            proof {
                assert(r@.map_values(|s: String| s@) =~= spec_drop_negations(
                    pv.subrange(0, i + 1),
                ));
            }
        }
        i = i + 1;
    }
    proof {
        assert(pv.subrange(0, n as int) =~= pv);
    }
    r
}

/// Resolve glob patterns to the member directories of the snapshot.
pub fn resolve_workspace_patterns(t: &DirTree, patterns: &Vec<String>) -> (r: Vec<String>)
    ensures
        r@.map_values(|s: String| s@) == spec_resolve_patterns(
            t@,
            patterns@.map_values(|s: String| s@),
        ),
{
    let ghost pv = patterns@.map_values(|s: String| s@);
    let mut r: Vec<String> = Vec::new();
    let n = patterns.len();
    let mut i: usize = 0;
    while i < n
        invariant
            n == patterns@.len(),
            pv == patterns@.map_values(|s: String| s@),
            pv.len() == n,
            i <= n,
            r@.map_values(|s: String| s@) =~= spec_resolve_patterns(t@, pv.subrange(0, i as int)),
        decreases n - i,
    {
        proof {
            assert(pv.subrange(0, i + 1).drop_last() =~= pv.subrange(0, i as int));
            assert(pv.subrange(0, i + 1).last() == pv[i as int]);
            assert(pv[i as int] == patterns@[i as int]@);
        }
        let pch = chars_of(patterns[i].as_str());
        if !(pch.len() > 0 && pch[0] == '!') {
            append_pattern_members(t, patterns[i].as_str(), &mut r);
        }
        proof {
            assert(r@.map_values(|s: String| s@) =~= spec_resolve_patterns(
                t@,
                pv.subrange(0, i + 1),
            ));
        }
        i = i + 1;
    }
    proof {
        assert(pv.subrange(0, n as int) =~= pv);
    }
    r
}

/// Append the member directories one pattern yields.
fn append_pattern_members(t: &DirTree, pattern: &str, out: &mut Vec<String>)
    ensures
        final(out)@.map_values(|s: String| s@) == old(out)@.map_values(|s: String| s@)
            + spec_pattern_members(t@, pattern@),
{
    let ghost base = out@.map_values(|s: String| s@);
    let pch = chars_of(pattern);
    let n = t.entries.len();
    let mut i: usize = 0;
    while i < n
        invariant
            n == t.entries@.len(),
            pch@ == pattern@,
            i <= n,
            base == old(out)@.map_values(|s: String| s@),
            out@.map_values(|s: String| s@) =~= base + spec_pattern_members_of(
                t@,
                t@.entries.subrange(0, i as int),
                pattern@,
            ),
        decreases n - i,
    {
        proof {
            assert(t@.entries.subrange(0, i + 1).drop_last() =~= t@.entries.subrange(0, i as int));
            assert(t@.entries.subrange(0, i + 1).last() == t@.entries[i as int]);
            assert(t@.entries[i as int].path == t.entries@[i as int].path@);
            assert(t@.entries[i as int].is_dir == t.entries@[i as int].is_dir);
        }
        let e = &t.entries[i];
        let mut kept: bool = false;
        if e.is_dir {
            let ech = chars_of(e.path.as_str());
            if glob_match_exec(&pch, &ech) {
                if member_manifest(t, e.path.as_str()) {
                    let ghost pre = out@.map_values(|s: String| s@);
                    out.push(e.path.clone());
                    kept = true;
                    proof {
                        assert(out@.map_values(|s: String| s@) =~= pre.push(e.path@));
                    }
                }
            }
        }
        proof {
            let ev = t@.entries[i as int];
            assert(kept == (ev.is_dir && glob_match(pattern@, ev.path) && spec_member_manifest(
                t@,
                ev.path,
            )));
            assert(out@.map_values(|s: String| s@) =~= base + spec_pattern_members_of(
                t@,
                t@.entries.subrange(0, i + 1),
                pattern@,
            ));
        }
        i = i + 1;
    }
    proof {
        assert(t@.entries.subrange(0, n as int) =~= t@.entries);
    }
}

/// Does the directory hold a recognizable project manifest?
fn member_manifest(t: &DirTree, p: &str) -> (r: bool)
    ensures
        r == spec_member_manifest(t@, p@),
{
    let a = join_child(p, "package.json");
    let b = join_child(p, "Cargo.toml");
    let cpath = join_child(p, "pyproject.toml");
    let d = join_child(p, "go.mod");
    t.has_path(a.as_str()) || t.has_path(b.as_str()) || t.has_path(cpath.as_str()) || t.has_path(
        d.as_str(),
    )
}

/// `dir` plus '/' plus `name`.
pub fn join_child(dir: &str, name: &str) -> (r: String)
    ensures
        r@ == dir@ + "/"@ + name@,
{
    let mut s = String::from_str(dir);
    s.append("/");
    s.append(name);
    s
}

/// The Nx member directories, at run time.
fn nx_members(t: &DirTree) -> (r: Vec<String>)
    ensures
        r@.map_values(|s: String| s@) == spec_nx_members(t@),
{
    let mut r: Vec<String> = Vec::new();
    nx_members_under(t, "apps", &mut r);
    nx_members_under(t, "libs", &mut r);
    nx_members_under(t, "packages", &mut r);
    proof {
        assert(r@.map_values(|s: String| s@) =~= spec_nx_members(t@));
    }
    r
}

/// The Nx member directories below one directory, at run time.
fn nx_members_under(t: &DirTree, dir: &str, out: &mut Vec<String>)
    ensures
        final(out)@.map_values(|s: String| s@) == old(out)@.map_values(|s: String| s@)
            + spec_nx_members_under(t@, dir@),
{
    let ghost base = out@.map_values(|s: String| s@);
    if !t.has_path(dir) {
        proof {
            assert(out@.map_values(|s: String| s@) =~= base + spec_nx_members_under(t@, dir@));
        }
        return;
    }
    let dch = chars_of(dir);
    let n = t.entries.len();
    let mut i: usize = 0;
    while i < n
        invariant
            n == t.entries@.len(),
            dch@ == dir@,
            spec_has_path(t@, dir@),
            i <= n,
            base == old(out)@.map_values(|s: String| s@),
            out@.map_values(|s: String| s@) =~= base + spec_nx_members_under_of(
                t@,
                t@.entries.subrange(0, i as int),
                dir@,
            ),
        decreases n - i,
    {
        proof {
            assert(t@.entries.subrange(0, i + 1).drop_last() =~= t@.entries.subrange(0, i as int));
            assert(t@.entries.subrange(0, i + 1).last() == t@.entries[i as int]);
            assert(t@.entries[i as int].path == t.entries@[i as int].path@);
            assert(t@.entries[i as int].is_dir == t.entries@[i as int].is_dir);
        }
        let e = &t.entries[i];
        let mut kept: bool = false;
        if e.is_dir && is_immediate_child(e.path.as_str(), &dch) {
            let pj = join_child(e.path.as_str(), "package.json");
            let prj = join_child(e.path.as_str(), "project.json");
            if t.has_path(pj.as_str()) || t.has_path(prj.as_str()) {
                let ghost pre = out@.map_values(|s: String| s@);
                out.push(e.path.clone());
                kept = true;
                proof {
                    assert(out@.map_values(|s: String| s@) =~= pre.push(e.path@));
                }
            }
        }
        proof {
            let ev = t@.entries[i as int];
            assert(kept == (ev.is_dir && spec_is_immediate_child(ev.path, dir@) && (spec_has_path(
                t@,
                ev.path + "/"@ + "package.json"@,
            ) || spec_has_path(t@, ev.path + "/"@ + "project.json"@))));
            assert(out@.map_values(|s: String| s@) =~= base + spec_nx_members_under_of(
                t@,
                t@.entries.subrange(0, i + 1),
                dir@,
            ));
        }
        i = i + 1;
    }
    proof {
        assert(t@.entries.subrange(0, n as int) =~= t@.entries);
        assert(spec_nx_members_under(t@, dir@) == spec_nx_members_under_of(
            t@,
            t@.entries,
            dir@,
        ));
    }
}

/// Is `p` exactly `dir` plus one component, at run time?
fn is_immediate_child(p: &str, dir: &Vec<char>) -> (r: bool)
    ensures
        r == spec_is_immediate_child(p@, dir@),
{
    let pch = chars_of(p);
    let dn = dir.len();
    let pn = pch.len();
    if pn > dn && pn - dn > 1 && crate::text::matches_at(&pch, dir, 0) && pch[dn] == '/' {
        let mut k: usize = dn + 1;
        while k < pn
            invariant
                dn + 1 <= k <= pn,
                pn == p@.len(),
                dn == dir@.len(),
                pch@ == p@,
                forall|m: int| dn + 1 <= m < k ==> p@[m] != '/',
            decreases pn - k,
        {
            if pch[k] == '/' {
                proof {
                    assert(p@[k as int] == '/');
                    assert(dn + 1 <= k < p@.len());
                    assert(!spec_is_immediate_child(p@, dir@));
                }
                return false;
            }
            k = k + 1;
        }
        proof {
            assert(p@.subrange(0, dn as int) =~= dir@) by {
                assert(crate::text::contains_at(p@, dir@, 0));
            }
        }
        true
    } else {
        proof {
            if spec_is_immediate_child(p@, dir@) {
                assert(crate::text::contains_at(p@, dir@, 0));
            }
        }
        false
    }
}

/// Wildcard match of one component, at run time.
fn wc_match_exec(p: &Vec<char>, s: &Vec<char>, i: usize, j: usize) -> (r: bool)
    requires
        i <= p@.len(),
        j <= s@.len(),
    ensures
        r == wc_match(p@, s@, i as int, j as int),
    decreases p@.len() - i, s@.len() - j,
{
    if i >= p.len() {
        j >= s.len()
    } else if p[i] == '*' {
        if wc_match_exec(p, s, i + 1, j) {
            true
        } else if j < s.len() {
            wc_match_exec(p, s, i, j + 1)
        } else {
            false
        }
    } else if j < s.len() && (p[i] == '?' || p[i] == s[j]) {
        wc_match_exec(p, s, i + 1, j + 1)
    } else {
        false
    }
}

/// Glob match of a whole pattern against a whole path, at run time.
pub fn glob_match_exec(pattern: &Vec<char>, path: &Vec<char>) -> (r: bool)
    ensures
        r == glob_match(pattern@, path@),
{
    let ps = split_slash_exec(pattern);
    let cs = split_slash_exec(path);
    glob_comps_exec(&ps, &cs, 0, 0)
}

/// Component-list match, at run time.
fn glob_comps_exec(ps: &Vec<Vec<char>>, cs: &Vec<Vec<char>>, i: usize, j: usize) -> (r: bool)
    requires
        i <= ps@.len(),
        j <= cs@.len(),
    ensures
        r == glob_comps_match(
            ps@.map_values(|v: Vec<char>| v@),
            cs@.map_values(|v: Vec<char>| v@),
            i as int,
            j as int,
        ),
    decreases ps@.len() - i, cs@.len() - j,
{
    let ghost psv = ps@.map_values(|v: Vec<char>| v@);
    let ghost csv = cs@.map_values(|v: Vec<char>| v@);
    if i >= ps.len() {
        j >= cs.len()
    } else {
        proof {
            assert(psv[i as int] == ps@[i as int]@);
        }
        let comp = &ps[i];
        let is_dstar = comp.len() == 2 && comp[0] == '*' && comp[1] == '*';
        proof {
            reveal_strlit("**");
            if is_dstar {
                assert(comp@ =~= "**"@);
            } else {
                if psv[i as int] == "**"@ {
                    assert(comp@.len() == 2 && comp@[0] == '*' && comp@[1] == '*');
                }
            }
        }
        if is_dstar {
            if glob_comps_exec(ps, cs, i + 1, j) {
                true
            } else if j < cs.len() {
                glob_comps_exec(ps, cs, i, j + 1)
            } else {
                false
            }
        } else {
            if j < cs.len() {
                proof {
                    assert(csv[j as int] == cs@[j as int]@);
                }
                if wc_match_exec(&ps[i], &cs[j], 0, 0) {
                    glob_comps_exec(ps, cs, i + 1, j + 1)
                } else {
                    false
                }
            } else {
                false
            }
        }
    }
}

/// Split a pattern or path into its '/'-separated components.
fn split_slash_exec(s: &Vec<char>) -> (r: Vec<Vec<char>>)
    ensures
        r@.map_values(|v: Vec<char>| v@) == split_slash(s@),
{
    let mut r: Vec<Vec<char>> = Vec::new();
    let n = s.len();
    let mut pos: usize = 0;
    proof {
        assert(s@.subrange(0, n as int) =~= s@);
        assert(r@.map_values(|v: Vec<char>| v@) =~= Seq::<Seq<char>>::empty());
    }
    loop
        invariant_except_break
            pos <= n,
            n == s@.len(),
            split_slash(s@) =~= r@.map_values(|v: Vec<char>| v@) + split_slash(
                s@.subrange(pos as int, n as int),
            ),
        ensures
            r@.map_values(|v: Vec<char>| v@) =~= split_slash(s@),
        decreases n - pos,
    {
        let ghost suffix = s@.subrange(pos as int, n as int);
        let k = crate::text::char_find_end(s, '/', pos);
        proof {
            crate::text::lemma_char_end_suffix(s@, '/', pos as int);
        }
        let piece = crate::text::copy_range(s, pos, k);
        proof {
            let fk = char_end(suffix, '/', 0);
            assert(fk == k - pos);
            if fk >= suffix.len() {
                assert(suffix =~= s@.subrange(pos as int, k as int));
            } else {
                assert(suffix.subrange(0, fk) =~= s@.subrange(pos as int, k as int));
                assert(suffix.subrange(fk + 1, suffix.len() as int) =~= s@.subrange(
                    k + 1,
                    n as int,
                ));
            }
        }
        r.push(piece);
        proof {
            assert(r@.map_values(|v: Vec<char>| v@) =~= r@.map_values(
                |v: Vec<char>| v@,
            ).drop_last().push(s@.subrange(pos as int, k as int)));
        }
        if k >= n {
            proof {
                assert(split_slash(s@.subrange(pos as int, n as int)) =~= seq![
                    s@.subrange(pos as int, k as int),
                ]);
                assert(r@.map_values(|v: Vec<char>| v@) =~= split_slash(s@));
            }
            break;
        }
        pos = k + 1;
    }
    r
}


/// A directory that looks like a project: one of the usual manifests
/// lies directly inside it.
pub open spec fn spec_is_project_dir(t: DirTreeView, p: Seq<char>) -> bool {
    spec_has_path(t, p + "/"@ + "package.json"@) || spec_has_path(t, p + "/"@ + "Cargo.toml"@)
        || spec_has_path(t, p + "/"@ + "pyproject.toml"@) || spec_has_path(
        t,
        p + "/"@ + "requirements.txt"@,
    ) || spec_has_path(t, p + "/"@ + "composer.json"@) || spec_has_path(t, p + "/"@ + "Gemfile"@)
        || spec_has_path(t, p + "/"@ + "go.mod"@) || spec_has_path(t, p + "/"@ + "pom.xml"@)
        || spec_has_path(t, p + "/"@ + "build.gradle"@) || spec_has_path(
        t,
        p + "/"@ + "mix.exs"@,
    )
}

/// A directory name the deeper scan follows: not hidden, and none of the
/// well-known build or dependency directories.
pub open spec fn spec_component_ok(name: Seq<char>) -> bool {
    name.len() > 0 && name[0] != '.' && name != "node_modules"@ && name != "target"@ && name
        != "dist"@ && name != "build"@ && name != "__pycache__"@ && name != "vendor"@ && name
        != "coverage"@
}

/// Every component of the path passes the skip rules.
pub open spec fn spec_all_components_ok(p: Seq<char>) -> bool {
    forall|k: int|
        0 <= k < split_slash(p).len() ==> spec_component_ok(#[trigger] split_slash(p)[k])
}

/// The additional project directories a bounded deeper scan finds: every
/// directory within the depth bound whose chain of names passes the skip
/// rules and which holds a project manifest, in snapshot order.
pub open spec fn spec_scan_for_projects(t: DirTreeView, max_depth: u8) -> Seq<Seq<char>> {
    spec_scan_for_projects_of(t, t.entries, max_depth)
}

/// As `spec_scan_for_projects`, folded over an entry prefix.
pub open spec fn spec_scan_for_projects_of(
    t: DirTreeView,
    es: Seq<crate::fstree::FileNodeView>,
    max_depth: u8,
) -> Seq<Seq<char>>
    decreases es.len(),
{
    if es.len() == 0 {
        Seq::empty()
    } else {
        let init = spec_scan_for_projects_of(t, es.drop_last(), max_depth);
        let e = es.last();
        if e.is_dir && crate::service_type::slash_count(e.path) < max_depth as int
            && spec_all_components_ok(e.path) && spec_is_project_dir(t, e.path) {
            init.push(e.path)
        } else {
            init
        }
    }
}

/// Is `x` already among the strings?
pub open spec fn spec_seq_has_str(ss: Seq<Seq<char>>, x: Seq<char>) -> bool {
    exists|i: int| 0 <= i < ss.len() && #[trigger] ss[i] == x
}

/// Append the strings of `extra` that are not yet in the list.
pub open spec fn spec_append_new(base: Seq<Seq<char>>, extra: Seq<Seq<char>>) -> Seq<Seq<char>>
    decreases extra.len(),
{
    if extra.len() == 0 {
        base
    } else {
        let init = spec_append_new(base, extra.drop_last());
        if spec_seq_has_str(init, extra.last()) {
            init
        } else {
            init.push(extra.last())
        }
    }
}

/// The member paths to scan: the workspace members, widened by a deeper
/// scan when the requested depth exceeds one or no members were found.
pub open spec fn spec_workspace_projects(t: DirTreeView, max_depth: u8) -> Seq<Seq<char>> {
    let base = match spec_detect_monorepo(t) {
        Some(info) => info.workspace_paths,
        None => Seq::empty(),
    };
    if max_depth > 1 || base.len() == 0 {
        spec_append_new(base, spec_scan_for_projects(t, max_depth))
    } else {
        base
    }
}

/// Get all workspace packages/projects for scanning.
pub fn get_workspace_projects(t: &DirTree, max_depth: u8) -> (r: Vec<String>)
    ensures
        r@.map_values(|s: String| s@) == spec_workspace_projects(t@, max_depth),
{
    let mut projects: Vec<String> = Vec::new();
    match detect_monorepo(t) {
        Some(info) => {
            let mut paths = info.workspace_paths;
            projects.append(&mut paths);
        },
        None => {},
    }
    proof {
        assert(projects@.map_values(|s: String| s@) =~= (match spec_detect_monorepo(t@) {
            Some(info) => info.workspace_paths,
            None => Seq::<Seq<char>>::empty(),
        }));
    }
    if max_depth > 1 || projects.len() == 0 {
        let additional = scan_for_projects(t, max_depth);
        let ghost base = projects@.map_values(|s: String| s@);
        let ghost extra = additional@.map_values(|s: String| s@);
        let n = additional.len();
        let mut i: usize = 0;
        while i < n
            invariant
                n == additional@.len(),
                extra == additional@.map_values(|s: String| s@),
                extra.len() == n,
                i <= n,
                projects@.map_values(|s: String| s@) =~= spec_append_new(
                    base,
                    extra.subrange(0, i as int),
                ),
            decreases n - i,
        {
            proof {
                assert(extra.subrange(0, i + 1).drop_last() =~= extra.subrange(0, i as int));
                assert(extra.subrange(0, i + 1).last() == extra[i as int]);
                assert(extra[i as int] == additional@[i as int]@);
            }
            if !contains_string(&projects, additional[i].as_str()) {
                let ghost pre = projects@.map_values(|s: String| s@);
                projects.push(additional[i].clone());
                proof {
                    assert(projects@.map_values(|s: String| s@) =~= pre.push(extra[i as int]));
                }
            }
            proof {
                assert(projects@.map_values(|s: String| s@) =~= spec_append_new(
                    base,
                    extra.subrange(0, i + 1),
                ));
            }
            i = i + 1;
        }
        proof {
            assert(extra.subrange(0, n as int) =~= extra);
        }
    }
    projects
}

/// Is the string already in the list, at run time?
fn contains_string(ss: &Vec<String>, x: &str) -> (r: bool)
    ensures
        r == spec_seq_has_str(ss@.map_values(|s: String| s@), x@),
{
    let ghost sv = ss@.map_values(|s: String| s@);
    let n = ss.len();
    let mut i: usize = 0;
    while i < n
        invariant
            n == ss@.len(),
            sv == ss@.map_values(|s: String| s@),
            sv.len() == n,
            i <= n,
            forall|j: int| 0 <= j < i ==> #[trigger] sv[j] != x@,
        decreases n - i,
    {
        proof {
            assert(sv[i as int] == ss@[i as int]@);
        }
        if str_eq(ss[i].as_str(), x) {
            return true;
        }
        i = i + 1;
    }
    false
}

/// Scan the snapshot for project directories up to a certain depth.
pub fn scan_for_projects(t: &DirTree, max_depth: u8) -> (r: Vec<String>)
    ensures
        r@.map_values(|s: String| s@) == spec_scan_for_projects(t@, max_depth),
{
    let mut r: Vec<String> = Vec::new();
    let n = t.entries.len();
    let mut i: usize = 0;
    while i < n
        invariant
            n == t.entries@.len(),
            i <= n,
            r@.map_values(|s: String| s@) =~= spec_scan_for_projects_of(
                t@,
                t@.entries.subrange(0, i as int),
                max_depth,
            ),
        decreases n - i,
    {
        proof {
            assert(t@.entries.subrange(0, i + 1).drop_last() =~= t@.entries.subrange(0, i as int));
            assert(t@.entries.subrange(0, i + 1).last() == t@.entries[i as int]);
            assert(t@.entries[i as int].path == t.entries@[i as int].path@);
            assert(t@.entries[i as int].is_dir == t.entries@[i as int].is_dir);
        }
        let e = &t.entries[i];
        let mut kept: bool = false;
        if e.is_dir {
            let pch = chars_of(e.path.as_str());
            if crate::service_type::count_slashes_pub(&pch) < max_depth as usize {
                if all_components_ok(&pch) {
                    if is_project_directory(t, e.path.as_str()) {
                        let ghost pre = r@.map_values(|s: String| s@);
                        r.push(e.path.clone());
                        kept = true;
                        proof {
                            assert(r@.map_values(|s: String| s@) =~= pre.push(e.path@));
                        }
                    }
                }
            }
        }
        proof {
            let ev = t@.entries[i as int];
            assert(kept == (ev.is_dir && crate::service_type::slash_count(ev.path) < max_depth
                as int && spec_all_components_ok(ev.path) && spec_is_project_dir(t@, ev.path)));
            assert(r@.map_values(|s: String| s@) =~= spec_scan_for_projects_of(
                t@,
                t@.entries.subrange(0, i + 1),
                max_depth,
            ));
        }
        i = i + 1;
    }
    proof {
        assert(t@.entries.subrange(0, n as int) =~= t@.entries);
    }
    r
}

/// Do all path components pass the skip rules, at run time?
fn all_components_ok(p: &Vec<char>) -> (r: bool)
    ensures
        r == spec_all_components_ok(p@),
{
    let comps = split_slash_exec(p);
    let ghost cv = comps@.map_values(|v: Vec<char>| v@);
    let n = comps.len();
    let mut i: usize = 0;
    while i < n
        invariant
            n == comps@.len(),
            cv == comps@.map_values(|v: Vec<char>| v@),
            cv == split_slash(p@),
            cv.len() == n,
            i <= n,
            forall|j: int| 0 <= j < i ==> spec_component_ok(#[trigger] cv[j]),
        decreases n - i,
    {
        proof {
            assert(cv[i as int] == comps@[i as int]@);
        }
        if !component_ok(&comps[i]) {
            return false;
        }
        i = i + 1;
    }
    true
}

/// One component against the skip rules, at run time.
fn component_ok(name: &Vec<char>) -> (r: bool)
    ensures
        r == spec_component_ok(name@),
{
    if name.len() == 0 {
        return false;
    }
    if name[0] == '.' {
        return false;
    }
    let bad = !vec_str_ne(name, "node_modules") || !vec_str_ne(name, "target") || !vec_str_ne(
        name,
        "dist",
    ) || !vec_str_ne(name, "build") || !vec_str_ne(name, "__pycache__") || !vec_str_ne(
        name,
        "vendor",
    ) || !vec_str_ne(name, "coverage");
    !bad
}

/// Is the character vector different from the literal?
fn vec_str_ne(v: &Vec<char>, lit: &str) -> (r: bool)
    ensures
        r == (v@ != lit@),
{
    let lch = chars_of(lit);
    if v.len() != lch.len() {
        proof {
            assert(v@ != lit@) by {
                if v@ == lit@ {
                    assert(v@.len() == lit@.len());
                }
            }
        }
        return true;
    }
    let r = crate::text::matches_at(v, &lch, 0);
    proof {
        if crate::text::contains_at(v@, lit@, 0) {
            assert(v@.subrange(0, lit@.len() as int) =~= v@);
        }
        if v@ == lit@ {
            assert(v@.subrange(0, lit@.len() as int) =~= lit@);
        }
    }
    !r
}

/// Check if a directory appears to be a project, at run time.
pub fn is_project_directory(t: &DirTree, p: &str) -> (r: bool)
    ensures
        r == spec_is_project_dir(t@, p@),
{
    let a1 = join_child(p, "package.json");
    let a2 = join_child(p, "Cargo.toml");
    let a3 = join_child(p, "pyproject.toml");
    let a4 = join_child(p, "requirements.txt");
    let a5 = join_child(p, "composer.json");
    let a6 = join_child(p, "Gemfile");
    let a7 = join_child(p, "go.mod");
    let a8 = join_child(p, "pom.xml");
    let a9 = join_child(p, "build.gradle");
    let a10 = join_child(p, "mix.exs");
    t.has_path(a1.as_str()) || t.has_path(a2.as_str()) || t.has_path(a3.as_str()) || t.has_path(
        a4.as_str(),
    ) || t.has_path(a5.as_str()) || t.has_path(a6.as_str()) || t.has_path(a7.as_str())
        || t.has_path(a8.as_str()) || t.has_path(a9.as_str()) || t.has_path(a10.as_str())
}

} // verus!
