//! The directory snapshot the classifiers work on: a plain-data picture of
//! one project root.  Every file and directory below the root appears as a
//! relative, '/'-separated path; the contents of small text files ride
//! along, and the typed manifests that were readable are keyed by the
//! directory they were found in ("" is the root itself).  The caller
//! builds the snapshot from the real filesystem; a file it could not read
//! or parse is simply absent, which the classifiers treat as "no signal".

use vstd::prelude::*;
use vstd::string::{StringExecFns, StrSliceExecFns};
use crate::cargo_toml::{CargoToml, CargoTomlView};
use crate::docker_compose::{DockerCompose, DockerComposeView};
use crate::models::view_opt_str;
use crate::package_json::{PackageJson, PackageJsonView};
use crate::tauri_conf::{TauriConf, TauriConfView};
use crate::text::{chars_of, matches_at, str_eq};

verus! {

/// One file or directory below the snapshot root.
#[derive(Debug, Clone)]
pub struct FileNode {
    /// Path relative to the root, '/'-separated, never empty.
    pub path: String,
    /// Whether this entry is a directory.
    pub is_dir: bool,
    /// For a file: its text, when the caller chose to carry it.
    pub content: String,
}

/// Ghost image of one entry.
pub ghost struct FileNodeView {
    pub path: Seq<char>,
    pub is_dir: bool,
    pub content: Seq<char>,
}

impl View for FileNode {
    type V = FileNodeView;

    open spec fn view(&self) -> FileNodeView {
        FileNodeView { path: self.path@, is_dir: self.is_dir, content: self.content@ }
    }
}

/// The typed manifests found in one directory of the snapshot.
#[derive(Debug, Clone)]
pub struct DirManifests {
    /// The directory these were read in, relative to the root; "" is the
    /// root itself.
    pub dir: String,
    pub package_json: Option<PackageJson>,
    pub cargo_toml: Option<CargoToml>,
    pub tauri_conf: Option<TauriConf>,
    pub docker_compose: Option<DockerCompose>,
    /// The member patterns of a pnpm workspace file, negations already
    /// excluded by nobody: the raw `packages` list.
    pub pnpm_packages: Option<Vec<String>>,
    /// The `packages` list of a lerna configuration.
    pub lerna_packages: Option<Vec<String>>,
}

/// Ghost image of the manifests of one directory.
pub ghost struct DirManifestsView {
    pub dir: Seq<char>,
    pub package_json: Option<PackageJsonView>,
    pub cargo_toml: Option<CargoTomlView>,
    pub tauri_conf: Option<TauriConfView>,
    pub docker_compose: Option<DockerComposeView>,
    pub pnpm_packages: Option<Seq<Seq<char>>>,
    pub lerna_packages: Option<Seq<Seq<char>>>,
}

impl View for DirManifests {
    type V = DirManifestsView;

    open spec fn view(&self) -> DirManifestsView {
        DirManifestsView {
            dir: self.dir@,
            package_json: (match &self.package_json {
                Some(p) => Some(p@),
                None => None,
            }),
            cargo_toml: (match &self.cargo_toml {
                Some(c) => Some(c@),
                None => None,
            }),
            tauri_conf: (match &self.tauri_conf {
                Some(t) => Some(t@),
                None => None,
            }),
            docker_compose: (match &self.docker_compose {
                Some(d) => Some(d@),
                None => None,
            }),
            pnpm_packages: (match self.pnpm_packages {
                Some(p) => Some(p@.map_values(|s: String| s@)),
                None => None,
            }),
            lerna_packages: (match self.lerna_packages {
                Some(p) => Some(p@.map_values(|s: String| s@)),
                None => None,
            }),
        }
    }
}

impl DirManifests {
    /// Manifests of a directory where nothing was found.
    pub fn empty(dir: String) -> (r: DirManifests)
        ensures
            r@.dir == dir@,
            r@.package_json is None,
            r@.cargo_toml is None,
            r@.tauri_conf is None,
            r@.docker_compose is None,
            r@.pnpm_packages is None,
            r@.lerna_packages is None,
    {
        DirManifests {
            dir,
            package_json: None,
            cargo_toml: None,
            tauri_conf: None,
            docker_compose: None,
            pnpm_packages: None,
            lerna_packages: None,
        }
    }
}

/// Ghost image of a snapshot.
pub ghost struct DirTreeView {
    pub name: Seq<char>,
    pub path: Seq<char>,
    pub entries: Seq<FileNodeView>,
    pub manifests: Seq<DirManifestsView>,
}

/// A snapshot of one directory tree.
#[derive(Debug, Clone)]
pub struct DirTree {
    /// The root directory's own name.
    pub name: String,
    /// The root directory's full path, as the caller knows it.
    pub path: String,
    /// Every file and directory below the root.
    pub entries: Vec<FileNode>,
    /// The typed manifests, keyed by the directory they were found in.
    pub manifests: Vec<DirManifests>,
}

impl View for DirTree {
    type V = DirTreeView;

    open spec fn view(&self) -> DirTreeView {
        DirTreeView {
            name: self.name@,
            path: self.path@,
            entries: self.entries@.map_values(|e: FileNode| e@),
            manifests: self.manifests@.map_values(|m: DirManifests| m@),
        }
    }
}

/// Some entry (file or directory) has exactly this relative path.
pub open spec fn spec_has_path(t: DirTreeView, p: Seq<char>) -> bool {
    exists|i: int| 0 <= i < t.entries.len() && (#[trigger] t.entries[i]).path == p
}

/// Some directory entry has exactly this relative path.
pub open spec fn spec_has_dir(t: DirTreeView, p: Seq<char>) -> bool {
    exists|i: int|
        0 <= i < t.entries.len() && (#[trigger] t.entries[i]).path == p && t.entries[i].is_dir
}

/// The content of the first file entry with this path, searched from `i`.
pub open spec fn spec_content_from(es: Seq<FileNodeView>, p: Seq<char>, i: int) -> Option<
    Seq<char>,
>
    decreases es.len() - i,
        when 0 <= i <= es.len()
{
    if i >= es.len() {
        None
    } else if es[i].path == p && !es[i].is_dir {
        Some(es[i].content)
    } else {
        spec_content_from(es, p, i + 1)
    }
}

/// The content of the file at this path, when a file entry carries it.
pub open spec fn spec_content(t: DirTreeView, p: Seq<char>) -> Option<Seq<char>> {
    spec_content_from(t.entries, p, 0)
}

/// The manifest set of directory `d`, searched from `i`.
pub open spec fn spec_manifests_from(ms: Seq<DirManifestsView>, d: Seq<char>, i: int) -> Option<
    DirManifestsView,
>
    decreases ms.len() - i,
        when 0 <= i <= ms.len()
{
    if i >= ms.len() {
        None
    } else if ms[i].dir == d {
        Some(ms[i])
    } else {
        spec_manifests_from(ms, d, i + 1)
    }
}

/// The manifest set of directory `d`, if the snapshot carries one.
pub open spec fn spec_manifests_at(t: DirTreeView, d: Seq<char>) -> Option<DirManifestsView> {
    spec_manifests_from(t.manifests, d, 0)
}

/// The node manifest parsed at the root.
pub open spec fn spec_root_package_json(t: DirTreeView) -> Option<PackageJsonView> {
    match spec_manifests_at(t, ""@) {
        Some(m) => m.package_json,
        None => None,
    }
}

/// The Rust manifest parsed at the root.
pub open spec fn spec_root_cargo_toml(t: DirTreeView) -> Option<CargoTomlView> {
    match spec_manifests_at(t, ""@) {
        Some(m) => m.cargo_toml,
        None => None,
    }
}

/// The desktop-shell configuration parsed at the root.
pub open spec fn spec_root_tauri_conf(t: DirTreeView) -> Option<TauriConfView> {
    match spec_manifests_at(t, ""@) {
        Some(m) => m.tauri_conf,
        None => None,
    }
}

/// The compose file parsed at the root.
pub open spec fn spec_root_compose(t: DirTreeView) -> Option<DockerComposeView> {
    match spec_manifests_at(t, ""@) {
        Some(m) => m.docker_compose,
        None => None,
    }
}

/// `p` lies strictly below directory `d`: `d` then '/' then at least one
/// more character.
pub open spec fn under_dir(p: Seq<char>, d: Seq<char>) -> bool {
    p.len() > d.len() + 1 && p.subrange(0, d.len() as int) == d && p[d.len() as int] == '/'
}

/// The path `p` stripped of the prefix `d` and its separator.
pub open spec fn strip_prefix(p: Seq<char>, d: Seq<char>) -> Seq<char> {
    p.subrange(d.len() + 1 as int, p.len() as int)
}

/// The index of the last '/', or -1 when there is none.
pub open spec fn last_sep(p: Seq<char>) -> int
    decreases p.len(),
{
    if p.len() == 0 {
        -1
    } else if p.last() == '/' {
        p.len() - 1
    } else {
        last_sep(p.drop_last())
    }
}

/// The name after the last '/', or the whole path when it has none.
pub open spec fn spec_base_name(p: Seq<char>) -> Seq<char> {
    p.subrange(last_sep(p) + 1, p.len() as int)
}

/// The last separator lies within the path.
pub proof fn lemma_last_sep_bounds(p: Seq<char>)
    ensures
        -1 <= last_sep(p) < p.len(),
    decreases p.len(),
{
    if p.len() > 0 && p.last() != '/' {
        lemma_last_sep_bounds(p.drop_last());
    }
}

/// The entries of the subtree rooted at `d`, their paths stripped.
pub open spec fn spec_strip_entries(es: Seq<FileNodeView>, d: Seq<char>) -> Seq<FileNodeView>
    decreases es.len(),
{
    if es.len() == 0 {
        Seq::empty()
    } else {
        let init = spec_strip_entries(es.drop_last(), d);
        let e = es.last();
        if under_dir(e.path, d) {
            init.push(FileNodeView { path: strip_prefix(e.path, d), ..e })
        } else {
            init
        }
    }
}

/// The manifest sets of the subtree rooted at `d`, their keys stripped;
/// the set of `d` itself becomes the root set.
pub open spec fn spec_strip_manifests(
    ms: Seq<DirManifestsView>,
    d: Seq<char>,
) -> Seq<DirManifestsView>
    decreases ms.len(),
{
    if ms.len() == 0 {
        Seq::empty()
    } else {
        let init = spec_strip_manifests(ms.drop_last(), d);
        let m = ms.last();
        if m.dir == d {
            init.push(DirManifestsView { dir: Seq::empty(), ..m })
        } else if under_dir(m.dir, d) {
            init.push(DirManifestsView { dir: strip_prefix(m.dir, d), ..m })
        } else {
            init
        }
    }
}

/// The snapshot of the subtree rooted at relative directory `d`.
pub open spec fn spec_subtree(t: DirTreeView, d: Seq<char>) -> DirTreeView {
    DirTreeView {
        name: spec_base_name(d),
        path: t.path + "/"@ + d,
        entries: spec_strip_entries(t.entries, d),
        manifests: spec_strip_manifests(t.manifests, d),
    }
}

impl DirTree {
    /// Does any entry carry exactly this relative path?
    pub fn has_path(&self, p: &str) -> (r: bool)
        ensures
            r == spec_has_path(self@, p@),
    {
        let n = self.entries.len();
        let mut i: usize = 0;
        while i < n
            invariant
                n == self.entries@.len(),
                i <= n,
                forall|j: int| 0 <= j < i ==> (#[trigger] self@.entries[j]).path != p@,
            decreases n - i,
        {
            if str_eq(self.entries[i].path.as_str(), p) {
                proof {
                    assert(self@.entries[i as int].path == self.entries@[i as int].path@);
                }
                return true;
            }
            proof {
                assert(self@.entries[i as int].path == self.entries@[i as int].path@);
            }
            i = i + 1;
        }
        false
    }

    /// Does a directory entry carry exactly this relative path?
    pub fn has_dir(&self, p: &str) -> (r: bool)
        ensures
            r == spec_has_dir(self@, p@),
    {
        let n = self.entries.len();
        let mut i: usize = 0;
        while i < n
            invariant
                n == self.entries@.len(),
                i <= n,
                forall|j: int|
                    0 <= j < i ==> !((#[trigger] self@.entries[j]).path == p@
                        && self@.entries[j].is_dir),
            decreases n - i,
        {
            if self.entries[i].is_dir && str_eq(self.entries[i].path.as_str(), p) {
                proof {
                    assert(self@.entries[i as int].path == self.entries@[i as int].path@);
                }
                return true;
            }
            proof {
                assert(self@.entries[i as int].path == self.entries@[i as int].path@);
            }
            i = i + 1;
        }
        false
    }

    /// The content of the file at this path, when the snapshot carries it.
    pub fn content_of(&self, p: &str) -> (r: Option<&String>)
        ensures
            (match r {
                Some(c) => spec_content(self@, p@) == Some(c@),
                None => spec_content(self@, p@) is None,
            }),
    {
        let ghost ev = self@.entries;
        let n = self.entries.len();
        let mut i: usize = 0;
        while i < n
            invariant
                n == self.entries@.len(),
                ev == self@.entries,
                ev.len() == n,
                i <= n,
                spec_content_from(ev, p@, 0) == spec_content_from(ev, p@, i as int),
            decreases n - i,
        {
            if !self.entries[i].is_dir && str_eq(self.entries[i].path.as_str(), p) {
                proof {
                    assert(ev[i as int].path == self.entries@[i as int].path@);
                }
                return Some(&self.entries[i].content);
            }
            proof {
                assert(ev[i as int].path == self.entries@[i as int].path@);
            }
            i = i + 1;
        }
        None
    }

    /// The manifest set of the given relative directory.
    pub fn manifests_at(&self, d: &str) -> (r: Option<&DirManifests>)
        ensures
            (match r {
                Some(m) => spec_manifests_at(self@, d@) == Some(m@),
                None => spec_manifests_at(self@, d@) is None,
            }),
    {
        let ghost mv = self@.manifests;
        let n = self.manifests.len();
        let mut i: usize = 0;
        while i < n
            invariant
                n == self.manifests@.len(),
                mv == self@.manifests,
                mv.len() == n,
                i <= n,
                spec_manifests_from(mv, d@, 0) == spec_manifests_from(mv, d@, i as int),
            decreases n - i,
        {
            if str_eq(self.manifests[i].dir.as_str(), d) {
                proof {
                    assert(mv[i as int].dir == self.manifests@[i as int].dir@);
                }
                return Some(&self.manifests[i]);
            }
            proof {
                assert(mv[i as int].dir == self.manifests@[i as int].dir@);
            }
            i = i + 1;
        }
        None
    }

    /// The node manifest at the root, if one was readable.
    pub fn root_package_json(&self) -> (r: Option<&PackageJson>)
        ensures
            (match r {
                Some(p) => spec_root_package_json(self@) == Some(p@),
                None => spec_root_package_json(self@) is None,
            }),
    {
        match self.manifests_at("") {
            Some(m) => match &m.package_json {
                Some(p) => Some(p),
                None => None,
            },
            None => None,
        }
    }

    /// The Rust manifest at the root, if one was readable.
    pub fn root_cargo_toml(&self) -> (r: Option<&CargoToml>)
        ensures
            (match r {
                Some(c) => spec_root_cargo_toml(self@) == Some(c@),
                None => spec_root_cargo_toml(self@) is None,
            }),
    {
        match self.manifests_at("") {
            Some(m) => match &m.cargo_toml {
                Some(c) => Some(c),
                None => None,
            },
            None => None,
        }
    }

    /// The desktop-shell configuration at the root, if one was readable.
    pub fn root_tauri_conf(&self) -> (r: Option<&TauriConf>)
        ensures
            (match r {
                Some(c) => spec_root_tauri_conf(self@) == Some(c@),
                None => spec_root_tauri_conf(self@) is None,
            }),
    {
        match self.manifests_at("") {
            Some(m) => match &m.tauri_conf {
                Some(c) => Some(c),
                None => None,
            },
            None => None,
        }
    }

    /// The compose file at the root, if one was readable.
    pub fn root_compose(&self) -> (r: Option<&DockerCompose>)
        ensures
            (match r {
                Some(c) => spec_root_compose(self@) == Some(c@),
                None => spec_root_compose(self@) is None,
            }),
    {
        match self.manifests_at("") {
            Some(m) => match &m.docker_compose {
                Some(c) => Some(c),
                None => None,
            },
            None => None,
        }
    }

    /// The snapshot of the subtree rooted at the relative directory `d`:
    /// its entries and manifests, with their paths cut down to the new
    /// root.
    pub fn subtree(&self, d: &str) -> (r: DirTree)
        ensures
            r@ == spec_subtree(self@, d@),
    {
        let dch = chars_of(d);
        let name = base_name(d);
        let mut path = self.path.clone();
        path.append("/");
        path.append(d);
        let mut entries: Vec<FileNode> = Vec::new();
        let n = self.entries.len();
        let mut i: usize = 0;
        while i < n
            invariant
                n == self.entries@.len(),
                dch@ == d@,
                i <= n,
                entries@.map_values(|e: FileNode| e@) =~= spec_strip_entries(
                    self@.entries.subrange(0, i as int),
                    d@,
                ),
            decreases n - i,
        {
            let e = &self.entries[i];
            proof {
                assert(self@.entries.subrange(0, i + 1).drop_last() =~= self@.entries.subrange(
                    0,
                    i as int,
                ));
                assert(self@.entries.subrange(0, i + 1).last() == self@.entries[i as int]);
                assert(self@.entries[i as int].path == e.path@);
            }
            if let Some(stripped) = strip_under(e.path.as_str(), &dch) {
                entries.push(
                    FileNode { path: stripped, is_dir: e.is_dir, content: e.content.clone() },
                );
            }
            i = i + 1;
        }
        proof {
            assert(self@.entries.subrange(0, n as int) =~= self@.entries);
        }
        let mut manifests: Vec<DirManifests> = Vec::new();
        let m = self.manifests.len();
        let mut j: usize = 0;
        while j < m
            invariant
                m == self.manifests@.len(),
                dch@ == d@,
                j <= m,
                manifests@.map_values(|x: DirManifests| x@) =~= spec_strip_manifests(
                    self@.manifests.subrange(0, j as int),
                    d@,
                ),
            decreases m - j,
        {
            let ms = &self.manifests[j];
            proof {
                assert(self@.manifests.subrange(0, j + 1).drop_last() =~= self@.manifests.subrange(
                    0,
                    j as int,
                ));
                assert(self@.manifests.subrange(0, j + 1).last() == self@.manifests[j as int]);
                assert(self@.manifests[j as int].dir == ms.dir@);
            }
            if str_eq(ms.dir.as_str(), d) {
                let mut kept = ms.clone_manifests();
                kept.dir = String::new();
                manifests.push(kept);
            } else if let Some(stripped) = strip_under(ms.dir.as_str(), &dch) {
                let mut kept = ms.clone_manifests();
                kept.dir = stripped;
                manifests.push(kept);
            }
            j = j + 1;
        }
        proof {
            assert(self@.manifests.subrange(0, m as int) =~= self@.manifests);
        }
        let r = DirTree { name, path, entries, manifests };
        proof {
            assert(r@.entries =~= spec_subtree(self@, d@).entries);
            assert(r@.manifests =~= spec_subtree(self@, d@).manifests);
        }
        r
    }
}

impl DirManifests {
    /// A field-for-field copy.
    pub fn clone_manifests(&self) -> (r: DirManifests)
        ensures
            r@ == self@,
    {
        DirManifests {
            dir: self.dir.clone(),
            package_json: clone_opt_package_json(&self.package_json),
            cargo_toml: clone_opt_cargo_toml(&self.cargo_toml),
            tauri_conf: clone_opt_tauri_conf(&self.tauri_conf),
            docker_compose: clone_opt_compose(&self.docker_compose),
            pnpm_packages: clone_opt_strings(&self.pnpm_packages),
            lerna_packages: clone_opt_strings(&self.lerna_packages),
        }
    }
}

/// `p` stripped of the directory prefix `d`, when `p` lies below `d`.
fn strip_under(p: &str, d: &Vec<char>) -> (r: Option<String>)
    ensures
        (match r {
            Some(s) => under_dir(p@, d@) && s@ == strip_prefix(p@, d@),
            None => !under_dir(p@, d@),
        }),
{
    let pch = chars_of(p);
    let dn = d.len();
    let pn = pch.len();
    if pn > dn && pn - dn > 1 && matches_at(&pch, d, 0) && pch[dn] == '/' {
        proof {
            assert(p@.subrange(0, d@.len() as int) == d@);
        }
        let cut = p.substring_char(dn + 1, pn);
        Some(String::from_str(cut))
    } else {
        proof {
            if under_dir(p@, d@) {
                assert(crate::text::contains_at(p@, d@, 0));
            }
        }
        None
    }
}

/// The name after the last '/', at run time.
pub fn base_name(p: &str) -> (r: String)
    ensures
        r@ == spec_base_name(p@),
{
    let pch = chars_of(p);
    let n = pch.len();
    proof {
        assert(p@.subrange(0, n as int) =~= p@);
    }
    let mut start: usize = n;
    while start > 0 && pch[start - 1] != '/'
        invariant
            n == p@.len(),
            pch@ == p@,
            start <= n,
            last_sep(p@) == last_sep(p@.subrange(0, start as int)),
        decreases start,
    {
        proof {
            let q = p@.subrange(0, start as int);
            assert(q.drop_last() =~= p@.subrange(0, start - 1));
        }
        start = start - 1;
    }
    proof {
        let q = p@.subrange(0, start as int);
        if start == 0 {
            assert(q =~= Seq::<char>::empty());
        } else {
            assert(q.last() == '/');
        }
        assert(last_sep(p@) == start - 1);
    }
    let cut = p.substring_char(start, n);
    String::from_str(cut)
}

/// A copy of an optional string list.
fn clone_opt_strings(v: &Option<Vec<String>>) -> (r: Option<Vec<String>>)
    ensures
        (match (r, v) {
            (Some(a), Some(b)) => a@.map_values(|s: String| s@) == b@.map_values(|s: String| s@),
            (None, None) => true,
            _ => false,
        }),
{
    match v {
        Some(b) => Some(crate::package_json::clone_strings(b)),
        None => None,
    }
}

/// A copy of an optional node manifest.
fn clone_opt_package_json(v: &Option<PackageJson>) -> (r: Option<PackageJson>)
    ensures
        (match (r, v) {
            (Some(a), Some(b)) => a@ == b@,
            (None, None) => true,
            _ => false,
        }),
{
    match v {
        Some(b) => Some(clone_package_json(b)),
        None => None,
    }
}

/// A copy of a node manifest that keeps its ghost image.
pub fn clone_package_json(b: &PackageJson) -> (r: PackageJson)
    ensures
        r@ == b@,
{
    let r = PackageJson {
        name: clone_opt_string(&b.name),
        version: clone_opt_string(&b.version),
        private: (match b.private {
            Some(x) => Some(x),
            None => None,
        }),
        scripts: clone_pairs(&b.scripts),
        dependencies: clone_pairs(&b.dependencies),
        dev_dependencies: clone_pairs(&b.dev_dependencies),
        peer_dependencies: clone_pairs(&b.peer_dependencies),
        workspaces: (match &b.workspaces {
            Some(crate::package_json::WorkspacesConfig::Array(ps)) => Some(
                crate::package_json::WorkspacesConfig::Array(
                    crate::package_json::clone_strings(ps),
                ),
            ),
            Some(crate::package_json::WorkspacesConfig::Object { packages }) => Some(
                crate::package_json::WorkspacesConfig::Object {
                    packages: crate::package_json::clone_strings(packages),
                },
            ),
            None => None,
        }),
        package_manager: clone_opt_string(&b.package_manager),
    };
    proof {
        assert(r@.scripts =~= b@.scripts);
        assert(r@.dependencies =~= b@.dependencies);
        assert(r@.dev_dependencies =~= b@.dev_dependencies);
        assert(r@.peer_dependencies =~= b@.peer_dependencies);
        match (r@.workspaces, b@.workspaces) {
            (Some(x), Some(y)) => {
                assert(crate::package_json::spec_patterns(x) =~= crate::package_json::spec_patterns(
                    y,
                ));
            },
            _ => {},
        }
    }
    r
}

/// A copy of an optional string.
pub fn clone_opt_string(v: &Option<String>) -> (r: Option<String>)
    ensures
        view_opt_str(r) == view_opt_str(*v),
{
    match v {
        Some(s) => Some(s.clone()),
        None => None,
    }
}

/// A copy of a pair table.
fn clone_pairs(v: &Vec<(String, String)>) -> (r: Vec<(String, String)>)
    ensures
        crate::kv::pairs_view(r@) == crate::kv::pairs_view(v@),
{
    let mut r: Vec<(String, String)> = Vec::new();
    let n = v.len();
    let mut i: usize = 0;
    while i < n
        invariant
            n == v@.len(),
            i <= n,
            r@.len() == i,
            forall|j: int| 0 <= j < i ==> r@[j].0@ == v@[j].0@ && r@[j].1@ == v@[j].1@,
        decreases n - i,
    {
        r.push((v[i].0.clone(), v[i].1.clone()));
        i = i + 1;
    }
    proof {
        assert(crate::kv::pairs_view(r@) =~= crate::kv::pairs_view(v@));
    }
    r
}

/// A copy of an optional Rust manifest.
fn clone_opt_cargo_toml(v: &Option<CargoToml>) -> (r: Option<CargoToml>)
    ensures
        (match (r, v) {
            (Some(a), Some(b)) => a@ == b@,
            (None, None) => true,
            _ => false,
        }),
{
    match v {
        Some(b) => {
            let r = CargoToml {
                package: (match &b.package {
                    Some(p) => Some(
                        crate::cargo_toml::CargoPackage {
                            name: clone_opt_string(&p.name),
                            version: clone_opt_string(&p.version),
                            description: clone_opt_string(&p.description),
                            authors: clone_opt_strings_plain(&p.authors),
                            edition: clone_opt_string(&p.edition),
                        },
                    ),
                    None => None,
                }),
                dependencies: crate::package_json::clone_strings(&b.dependencies),
                dev_dependencies: crate::package_json::clone_strings(&b.dev_dependencies),
                build_dependencies: crate::package_json::clone_strings(&b.build_dependencies),
                workspace: (match &b.workspace {
                    Some(w) => Some(
                        crate::cargo_toml::CargoWorkspace {
                            members: crate::package_json::clone_strings(&w.members),
                            exclude: crate::package_json::clone_strings(&w.exclude),
                            default_members: crate::package_json::clone_strings(&w.default_members),
                        },
                    ),
                    None => None,
                }),
            };
            proof {
                assert(r@.dependencies =~= b@.dependencies);
                assert(r@.dev_dependencies =~= b@.dev_dependencies);
                assert(r@.build_dependencies =~= b@.build_dependencies);
                match (r@.package, b@.package) {
                    (Some(x), Some(y)) => {
                        match (x.authors, y.authors) {
                            (Some(a1), Some(a2)) => {
                                assert(a1 =~= a2);
                            },
                            _ => {},
                        }
                    },
                    _ => {},
                }
                match (r@.workspace, b@.workspace) {
                    (Some(x), Some(y)) => {
                        assert(x.members =~= y.members);
                        assert(x.exclude =~= y.exclude);
                        assert(x.default_members =~= y.default_members);
                    },
                    _ => {},
                }
            }
            Some(r)
        },
        None => None,
    }
}

/// A copy of an optional list of strings, matching views elementwise.
fn clone_opt_strings_plain(v: &Option<Vec<String>>) -> (r: Option<Vec<String>>)
    ensures
        (match (r, v) {
            (Some(a), Some(b)) => a@.map_values(|s: String| s@) == b@.map_values(|s: String| s@),
            (None, None) => true,
            _ => false,
        }),
{
    match v {
        Some(b) => Some(crate::package_json::clone_strings(b)),
        None => None,
    }
}

/// A copy of an optional desktop-shell configuration.
fn clone_opt_tauri_conf(v: &Option<TauriConf>) -> (r: Option<TauriConf>)
    ensures
        (match (r, v) {
            (Some(a), Some(b)) => a@ == b@,
            (None, None) => true,
            _ => false,
        }),
{
    match v {
        Some(b) => Some(
            TauriConf {
                product_name: clone_opt_string(&b.product_name),
                version: clone_opt_string(&b.version),
                identifier: clone_opt_string(&b.identifier),
                build: (match &b.build {
                    Some(t) => Some(
                        crate::tauri_conf::TauriBuild {
                            before_dev_command: clone_opt_string(&t.before_dev_command),
                            before_build_command: clone_opt_string(&t.before_build_command),
                            dev_url: clone_opt_string(&t.dev_url),
                            frontend_dist: clone_opt_string(&t.frontend_dist),
                        },
                    ),
                    None => None,
                }),
                app: None,
                bundle: None,
            },
        ),
        None => None,
    }
}

/// A copy of an optional compose file.
fn clone_opt_compose(v: &Option<DockerCompose>) -> (r: Option<DockerCompose>)
    ensures
        (match (r, v) {
            (Some(a), Some(b)) => a@ == b@,
            (None, None) => true,
            _ => false,
        }),
{
    match v {
        Some(b) => {
            let mut services: Vec<(String, crate::docker_compose::DockerService)> = Vec::new();
            let n = b.services.len();
            let mut i: usize = 0;
            while i < n
                invariant
                    n == b.services@.len(),
                    i <= n,
                    services@.len() == i,
                    forall|j: int| 0 <= j < i ==> (#[trigger] services@[j]).0@ == b.services@[j].0@,
                    forall|j: int| 0 <= j < i ==> (#[trigger] services@[j]).1@ == b.services@[j].1@,
                decreases n - i,
            {
                let nm = b.services[i].0.clone();
                let sv = b.services[i].1.clone_service();
                proof {
                    assert(sv@ == b.services@[i as int].1@);
                    assert(nm@ == b.services@[i as int].0@);
                }
                let ghost pre = services@;
                services.push((nm, sv));
                proof {
                    assert(forall|j: int| 0 <= j < pre.len() ==> #[trigger] services@[j] == pre[j]);
                    assert(services@[i as int].0@ == b.services@[i as int].0@);
                    assert(services@[i as int].1@ == b.services@[i as int].1@);
                }
                i = i + 1;
            }
            let r = DockerCompose { version: clone_opt_string(&b.version), services };
            proof {
                assert(r@.services =~= b@.services);
            }
            Some(r)
        },
        None => None,
    }
}

} // verus!
