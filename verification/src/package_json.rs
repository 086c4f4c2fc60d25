//! The node manifest: the typed contents of a `package.json`, with the
//! dependency, script and workspace queries the classifiers use.  The
//! caller (outside the verified core) deserializes the file and hands the
//! plain values in; a missing or malformed file simply yields no manifest.

use vstd::prelude::*;
use vstd::string::StringExecFns;
use crate::kv::{assoc_contains, assoc_get, assoc_has, assoc_lookup, pairs_view};
use crate::scan::{spec_pat_port_min1024, pat_port_min1024, Pat};
use crate::text::{char_end, char_find_end, chars_of, seq_contains, str_contains_str};

verus! {

/// Workspace declaration of a node manifest: either a bare pattern array
/// or an object with a `packages` array.
#[derive(Debug, Clone)]
pub enum WorkspacesConfig {
    Array(Vec<String>),
    Object { packages: Vec<String> },
}

/// Ghost image of a workspace declaration.
pub ghost enum WorkspacesView {
    Array(Seq<Seq<char>>),
    Object(Seq<Seq<char>>),
}

impl View for WorkspacesConfig {
    type V = WorkspacesView;

    open spec fn view(&self) -> WorkspacesView {
        match self {
            WorkspacesConfig::Array(ps) => WorkspacesView::Array(
                ps@.map_values(|s: String| s@),
            ),
            WorkspacesConfig::Object { packages } => WorkspacesView::Object(
                packages@.map_values(|s: String| s@),
            ),
        }
    }
}

/// The patterns a workspace declaration carries, whichever shape it has.
pub open spec fn spec_patterns(w: WorkspacesView) -> Seq<Seq<char>> {
    match w {
        WorkspacesView::Array(ps) => ps,
        WorkspacesView::Object(ps) => ps,
    }
}

impl WorkspacesConfig {
    /// The declared member patterns.
    pub fn get_patterns(&self) -> (r: Vec<String>)
        ensures
            r@.map_values(|s: String| s@) == spec_patterns(self@),
    {
        let ps = match self {
            WorkspacesConfig::Array(patterns) => clone_strings(patterns),
            WorkspacesConfig::Object { packages } => clone_strings(packages),
        };
        ps
    }
}

/// A verbatim copy of a list of strings.
pub fn clone_strings(v: &Vec<String>) -> (r: Vec<String>)
    ensures
        r@.map_values(|s: String| s@) == v@.map_values(|s: String| s@),
        r@.len() == v@.len(),
{
    let mut r: Vec<String> = Vec::new();
    let n = v.len();
    let mut i: usize = 0;
    while i < n
        invariant
            n == v@.len(),
            i <= n,
            r@.len() == i,
            forall|j: int| 0 <= j < i ==> r@[j]@ == v@[j]@,
        decreases n - i,
    {
        r.push(v[i].clone());
        i = i + 1;
    }
    proof {
        assert(r@.map_values(|s: String| s@) =~= v@.map_values(|s: String| s@));
    }
    r
}

/// Ghost image of a node manifest.
pub ghost struct PackageJsonView {
    pub name: Option<Seq<char>>,
    pub version: Option<Seq<char>>,
    pub private: Option<bool>,
    pub scripts: Seq<(Seq<char>, Seq<char>)>,
    pub dependencies: Seq<(Seq<char>, Seq<char>)>,
    pub dev_dependencies: Seq<(Seq<char>, Seq<char>)>,
    pub peer_dependencies: Seq<(Seq<char>, Seq<char>)>,
    pub workspaces: Option<WorkspacesView>,
    pub package_manager: Option<Seq<char>>,
}

/// The typed contents of a `package.json`.  Script and dependency tables
/// are kept as ordered (name, value) pairs.
#[derive(Debug, Clone)]
pub struct PackageJson {
    pub name: Option<String>,
    pub version: Option<String>,
    pub private: Option<bool>,
    pub scripts: Vec<(String, String)>,
    pub dependencies: Vec<(String, String)>,
    pub dev_dependencies: Vec<(String, String)>,
    pub peer_dependencies: Vec<(String, String)>,
    pub workspaces: Option<WorkspacesConfig>,
    pub package_manager: Option<String>,
}

impl View for PackageJson {
    type V = PackageJsonView;

    open spec fn view(&self) -> PackageJsonView {
        PackageJsonView {
            name: crate::models::view_opt_str(self.name),
            version: crate::models::view_opt_str(self.version),
            private: self.private,
            scripts: pairs_view(self.scripts@),
            dependencies: pairs_view(self.dependencies@),
            dev_dependencies: pairs_view(self.dev_dependencies@),
            peer_dependencies: pairs_view(self.peer_dependencies@),
            workspaces: (match &self.workspaces {
                Some(w) => Some(w@),
                None => None,
            }),
            package_manager: crate::models::view_opt_str(self.package_manager),
        }
    }
}

impl Default for PackageJson {
    /// An empty manifest: no name, no scripts, no dependencies.
    fn default() -> (r: PackageJson)
        ensures
            r@ == spec_empty_package_json(),
    {
        let r = PackageJson {
            name: None,
            version: None,
            private: None,
            scripts: Vec::new(),
            dependencies: Vec::new(),
            dev_dependencies: Vec::new(),
            peer_dependencies: Vec::new(),
            workspaces: None,
            package_manager: None,
        };
        proof {
            assert(r@.scripts =~= spec_empty_package_json().scripts);
            assert(r@.dependencies =~= spec_empty_package_json().dependencies);
            assert(r@.dev_dependencies =~= spec_empty_package_json().dev_dependencies);
            assert(r@.peer_dependencies =~= spec_empty_package_json().peer_dependencies);
        }
        r
    }
}

/// The ghost image of the empty manifest.
pub open spec fn spec_empty_package_json() -> PackageJsonView {
    PackageJsonView {
        name: None,
        version: None,
        private: None,
        scripts: Seq::empty(),
        dependencies: Seq::empty(),
        dev_dependencies: Seq::empty(),
        peer_dependencies: Seq::empty(),
        workspaces: None,
        package_manager: None,
    }
}

/// `name` appears among the primary, dev or peer dependencies.
pub open spec fn spec_has_dependency(pj: PackageJsonView, name: Seq<char>) -> bool {
    assoc_has(pj.dependencies, name) || assoc_has(pj.dev_dependencies, name) || assoc_has(
        pj.peer_dependencies,
        name,
    )
}

/// Does any key of the pair table contain `pattern`?
pub open spec fn any_key_contains(m: Seq<(Seq<char>, Seq<char>)>, pattern: Seq<char>) -> bool {
    exists|i: int| 0 <= i < m.len() && seq_contains((#[trigger] m[i]).0, pattern)
}

/// Some dependency name contains `pattern` as a substring.
pub open spec fn spec_has_dependency_matching(pj: PackageJsonView, pattern: Seq<char>) -> bool {
    any_key_contains(pj.dependencies, pattern) || any_key_contains(pj.dev_dependencies, pattern)
        || any_key_contains(pj.peer_dependencies, pattern)
}

/// The `dev` script, or its `start:dev` / `serve` fallbacks.
pub open spec fn spec_dev_command(pj: PackageJsonView) -> Option<Seq<char>> {
    if assoc_get(pj.scripts, "dev"@) is Some {
        assoc_get(pj.scripts, "dev"@)
    } else if assoc_get(pj.scripts, "start:dev"@) is Some {
        assoc_get(pj.scripts, "start:dev"@)
    } else {
        assoc_get(pj.scripts, "serve"@)
    }
}

/// The `build` script.
pub open spec fn spec_build_command(pj: PackageJsonView) -> Option<Seq<char>> {
    assoc_get(pj.scripts, "build"@)
}

/// The `start` script, or its `serve` fallback.
pub open spec fn spec_start_command(pj: PackageJsonView) -> Option<Seq<char>> {
    if assoc_get(pj.scripts, "start"@) is Some {
        assoc_get(pj.scripts, "start"@)
    } else {
        assoc_get(pj.scripts, "serve"@)
    }
}

/// The port a script line names: the first of the four script patterns
/// whose leftmost match parses as an unprivileged port.
pub open spec fn spec_script_port(s: Seq<char>) -> Option<u16> {
    if spec_pat_port_min1024(Pat::FlagP, s) is Some {
        spec_pat_port_min1024(Pat::FlagP, s)
    } else if spec_pat_port_min1024(Pat::LongPort, s) is Some {
        spec_pat_port_min1024(Pat::LongPort, s)
    } else if spec_pat_port_min1024(Pat::PortEq, s) is Some {
        spec_pat_port_min1024(Pat::PortEq, s)
    } else {
        spec_pat_port_min1024(Pat::Colon45, s)
    }
}

/// The port named by the script called `name`, if any.
pub open spec fn spec_named_script_port(pj: PackageJsonView, name: Seq<char>) -> Option<u16> {
    match assoc_get(pj.scripts, name) {
        Some(s) => spec_script_port(s),
        None => None,
    }
}

/// The port extracted from the run scripts, trying `dev`, `start:dev`,
/// `start` and `serve` in that order.  Only ports of 1024 and above are
/// accepted.
pub open spec fn spec_extract_port_from_scripts(pj: PackageJsonView) -> Option<u16> {
    if spec_named_script_port(pj, "dev"@) is Some {
        spec_named_script_port(pj, "dev"@)
    } else if spec_named_script_port(pj, "start:dev"@) is Some {
        spec_named_script_port(pj, "start:dev"@)
    } else if spec_named_script_port(pj, "start"@) is Some {
        spec_named_script_port(pj, "start"@)
    } else {
        spec_named_script_port(pj, "serve"@)
    }
}

/// The declared workspace patterns, or nothing.
pub open spec fn spec_workspace_patterns(pj: PackageJsonView) -> Seq<Seq<char>> {
    match pj.workspaces {
        Some(w) => spec_patterns(w),
        None => Seq::empty(),
    }
}

/// The declared package manager, cut at the first '@'.
pub open spec fn spec_declared_package_manager(pj: PackageJsonView) -> Option<Seq<char>> {
    match pj.package_manager {
        Some(pm) => Some(pm.subrange(0, char_end(pm, '@', 0))),
        None => None,
    }
}

/// The port a single script line names, at run time.
pub fn script_port(s: &str) -> (r: Option<u16>)
    ensures
        r == spec_script_port(s@),
{
    let hay = chars_of(s);
    if let Some(p) = pat_port_min1024(Pat::FlagP, &hay) {
        return Some(p);
    }
    if let Some(p) = pat_port_min1024(Pat::LongPort, &hay) {
        return Some(p);
    }
    if let Some(p) = pat_port_min1024(Pat::PortEq, &hay) {
        return Some(p);
    }
    pat_port_min1024(Pat::Colon45, &hay)
}

impl PackageJson {
    /// Check if a dependency exists, by exact name, among the primary,
    /// dev and peer dependencies.
    pub fn has_dependency(&self, name: &str) -> (r: bool)
        ensures
            r == spec_has_dependency(self@, name@),
    {
        proof {
            crate::kv::lemma_assoc_get_has(pairs_view(self.dependencies@), name@, 0);
            crate::kv::lemma_assoc_get_has(pairs_view(self.dev_dependencies@), name@, 0);
            crate::kv::lemma_assoc_get_has(pairs_view(self.peer_dependencies@), name@, 0);
        }
        assoc_contains(&self.dependencies, name) || assoc_contains(&self.dev_dependencies, name)
            || assoc_contains(&self.peer_dependencies, name)
    }

    /// Check if any dependency name contains `pattern`.
    pub fn has_dependency_matching(&self, pattern: &str) -> (r: bool)
        ensures
            r == spec_has_dependency_matching(self@, pattern@),
    {
        pairs_any_key_contains(&self.dependencies, pattern) || pairs_any_key_contains(
            &self.dev_dependencies,
            pattern,
        ) || pairs_any_key_contains(&self.peer_dependencies, pattern)
    }

    /// The development command among the scripts.
    pub fn get_dev_command(&self) -> (r: Option<String>)
        ensures
            crate::models::view_opt_str(r) == spec_dev_command(self@),
    {
        if let Some(s) = assoc_lookup(&self.scripts, "dev") {
            return Some(s.clone());
        }
        if let Some(s) = assoc_lookup(&self.scripts, "start:dev") {
            return Some(s.clone());
        }
        match assoc_lookup(&self.scripts, "serve") {
            Some(s) => Some(s.clone()),
            None => None,
        }
    }

    /// The build command among the scripts.
    pub fn get_build_command(&self) -> (r: Option<String>)
        ensures
            crate::models::view_opt_str(r) == spec_build_command(self@),
    {
        match assoc_lookup(&self.scripts, "build") {
            Some(s) => Some(s.clone()),
            None => None,
        }
    }

    /// The start command among the scripts.
    pub fn get_start_command(&self) -> (r: Option<String>)
        ensures
            crate::models::view_opt_str(r) == spec_start_command(self@),
    {
        if let Some(s) = assoc_lookup(&self.scripts, "start") {
            return Some(s.clone());
        }
        match assoc_lookup(&self.scripts, "serve") {
            Some(s) => Some(s.clone()),
            None => None,
        }
    }

    /// The port named in the run scripts, if any; values below 1024 are
    /// rejected.
    pub fn extract_port_from_scripts(&self) -> (r: Option<u16>)
        ensures
            r == spec_extract_port_from_scripts(self@),
    {
        if let Some(s) = assoc_lookup(&self.scripts, "dev") {
            if let Some(p) = script_port(s.as_str()) {
                return Some(p);
            }
        }
        if let Some(s) = assoc_lookup(&self.scripts, "start:dev") {
            if let Some(p) = script_port(s.as_str()) {
                return Some(p);
            }
        }
        if let Some(s) = assoc_lookup(&self.scripts, "start") {
            if let Some(p) = script_port(s.as_str()) {
                return Some(p);
            }
        }
        if let Some(s) = assoc_lookup(&self.scripts, "serve") {
            if let Some(p) = script_port(s.as_str()) {
                return Some(p);
            }
        }
        None
    }

    /// A manifest that declares workspaces is a monorepo root.
    pub fn is_monorepo(&self) -> (r: bool)
        ensures
            r == (self@.workspaces is Some),
    {
        self.workspaces.is_some()
    }

    /// The declared workspace member patterns, empty when there are none.
    pub fn get_workspace_patterns(&self) -> (r: Vec<String>)
        ensures
            r@.map_values(|s: String| s@) == spec_workspace_patterns(self@),
    {
        match &self.workspaces {
            Some(w) => w.get_patterns(),
            None => {
                let r: Vec<String> = Vec::new();
                proof {
                    assert(r@.map_values(|s: String| s@) =~= spec_workspace_patterns(self@));
                }
                r
            },
        }
    }

    /// The declared package manager name, with any version suffix after
    /// '@' removed.
    pub fn get_declared_package_manager(&self) -> (r: Option<String>)
        ensures
            crate::models::view_opt_str(r) == spec_declared_package_manager(self@),
    {
        match &self.package_manager {
            Some(pm) => {
                let v = chars_of(pm.as_str());
                let k = char_find_end(&v, '@', 0);
                let cut = pm.as_str().substring_char(0, k);
                Some(String::from_str(cut))
            },
            None => None,
        }
    }

    /// Does the manifest pull in a known frontend library?
    pub fn is_frontend(&self) -> (r: bool)
        ensures
            r == spec_is_frontend(self@),
    {
        self.has_dependency("react") || self.has_dependency("react-dom") || self.has_dependency(
            "vue",
        ) || self.has_dependency("@vue/core") || self.has_dependency("@angular/core")
            || self.has_dependency("svelte") || self.has_dependency("@sveltejs/kit")
            || self.has_dependency("solid-js") || self.has_dependency("preact")
            || self.has_dependency("qwik") || self.has_dependency("next") || self.has_dependency(
            "nuxt",
        ) || self.has_dependency("@remix-run/react") || self.has_dependency("astro")
            || self.has_dependency("gatsby")
    }

    /// Does the manifest pull in a known backend library?
    pub fn is_backend(&self) -> (r: bool)
        ensures
            r == spec_is_backend(self@),
    {
        self.has_dependency("express") || self.has_dependency("fastify") || self.has_dependency(
            "koa",
        ) || self.has_dependency("hapi") || self.has_dependency("@hapi/hapi")
            || self.has_dependency("@nestjs/core") || self.has_dependency("@adonisjs/core")
            || self.has_dependency("strapi") || self.has_dependency("keystone")
            || self.has_dependency("prisma") || self.has_dependency("@prisma/client")
            || self.has_dependency("typeorm") || self.has_dependency("sequelize")
            || self.has_dependency("mongoose") || self.has_dependency("pg") || self.has_dependency(
            "mysql2",
        ) || self.has_dependency("redis") || self.has_dependency("ioredis")
    }

    /// Does the manifest pull in a desktop shell?
    pub fn is_desktop(&self) -> (r: bool)
        ensures
            r == spec_is_desktop(self@),
    {
        self.has_dependency("@tauri-apps/api") || self.has_dependency("@tauri-apps/cli")
            || self.has_dependency("electron") || self.has_dependency("@electron/remote")
            || self.has_dependency("electron-builder") || self.has_dependency(
            "@aspect/neutralino",
        )
    }

    /// Does the manifest pull in a mobile toolkit?
    pub fn is_mobile(&self) -> (r: bool)
        ensures
            r == spec_is_mobile(self@),
    {
        self.has_dependency("react-native") || self.has_dependency("expo") || self.has_dependency(
            "@ionic/core",
        ) || self.has_dependency("@ionic/react") || self.has_dependency("@ionic/vue")
            || self.has_dependency("@ionic/angular") || self.has_dependency("@capacitor/core")
            || self.has_dependency("nativescript")
    }
}

/// The fixed frontend dependency list.
pub open spec fn spec_is_frontend(pj: PackageJsonView) -> bool {
    spec_has_dependency(pj, "react"@) || spec_has_dependency(pj, "react-dom"@)
        || spec_has_dependency(pj, "vue"@) || spec_has_dependency(pj, "@vue/core"@)
        || spec_has_dependency(pj, "@angular/core"@) || spec_has_dependency(pj, "svelte"@)
        || spec_has_dependency(pj, "@sveltejs/kit"@) || spec_has_dependency(pj, "solid-js"@)
        || spec_has_dependency(pj, "preact"@) || spec_has_dependency(pj, "qwik"@)
        || spec_has_dependency(pj, "next"@) || spec_has_dependency(pj, "nuxt"@)
        || spec_has_dependency(pj, "@remix-run/react"@) || spec_has_dependency(pj, "astro"@)
        || spec_has_dependency(pj, "gatsby"@)
}

/// The fixed backend dependency list.
pub open spec fn spec_is_backend(pj: PackageJsonView) -> bool {
    spec_has_dependency(pj, "express"@) || spec_has_dependency(pj, "fastify"@)
        || spec_has_dependency(pj, "koa"@) || spec_has_dependency(pj, "hapi"@)
        || spec_has_dependency(pj, "@hapi/hapi"@) || spec_has_dependency(pj, "@nestjs/core"@)
        || spec_has_dependency(pj, "@adonisjs/core"@) || spec_has_dependency(pj, "strapi"@)
        || spec_has_dependency(pj, "keystone"@) || spec_has_dependency(pj, "prisma"@)
        || spec_has_dependency(pj, "@prisma/client"@) || spec_has_dependency(pj, "typeorm"@)
        || spec_has_dependency(pj, "sequelize"@) || spec_has_dependency(pj, "mongoose"@)
        || spec_has_dependency(pj, "pg"@) || spec_has_dependency(pj, "mysql2"@)
        || spec_has_dependency(pj, "redis"@) || spec_has_dependency(pj, "ioredis"@)
}

/// The fixed desktop dependency list.
pub open spec fn spec_is_desktop(pj: PackageJsonView) -> bool {
    spec_has_dependency(pj, "@tauri-apps/api"@) || spec_has_dependency(pj, "@tauri-apps/cli"@)
        || spec_has_dependency(pj, "electron"@) || spec_has_dependency(pj, "@electron/remote"@)
        || spec_has_dependency(pj, "electron-builder"@) || spec_has_dependency(
        pj,
        "@aspect/neutralino"@,
    )
}

/// The fixed mobile dependency list.
pub open spec fn spec_is_mobile(pj: PackageJsonView) -> bool {
    spec_has_dependency(pj, "react-native"@) || spec_has_dependency(pj, "expo"@)
        || spec_has_dependency(pj, "@ionic/core"@) || spec_has_dependency(pj, "@ionic/react"@)
        || spec_has_dependency(pj, "@ionic/vue"@) || spec_has_dependency(pj, "@ionic/angular"@)
        || spec_has_dependency(pj, "@capacitor/core"@) || spec_has_dependency(pj, "nativescript"@)
}

/// Does any key of the pair list contain `pattern`?
fn pairs_any_key_contains(m: &Vec<(String, String)>, pattern: &str) -> (r: bool)
    ensures
        r == any_key_contains(pairs_view(m@), pattern@),
{
    let ghost mv = pairs_view(m@);
    let n = m.len();
    let mut i: usize = 0;
    while i < n
        invariant
            n == m@.len(),
            mv == pairs_view(m@),
            mv.len() == n,
            i <= n,
            forall|j: int| 0 <= j < i ==> !seq_contains((#[trigger] mv[j]).0, pattern@),
        decreases n - i,
    {
        if str_contains_str(m[i].0.as_str(), pattern) {
            proof {
                assert(mv[i as int].0 == m@[i as int].0@);
            }
            return true;
        }
        proof {
            assert(mv[i as int].0 == m@[i as int].0@);
        }
        i = i + 1;
    }
    false
}

} // verus!
