//! The Rust manifest: the typed contents of a `Cargo.toml`, with the
//! dependency and workspace queries the classifiers use.  The caller
//! deserializes the file and hands in the dependency names; only the names
//! matter to classification.

use vstd::prelude::*;
use vstd::string::StringExecFns;
use crate::kv::{names_contain, names_has, names_view};
use crate::models::view_opt_str;
use crate::package_json::clone_strings;

verus! {

/// The `[package]` table of a Rust manifest.
#[derive(Debug, Clone)]
pub struct CargoPackage {
    pub name: Option<String>,
    pub version: Option<String>,
    pub description: Option<String>,
    pub authors: Option<Vec<String>>,
    pub edition: Option<String>,
}

/// Ghost image of the `[package]` table.
pub ghost struct CargoPackageView {
    pub name: Option<Seq<char>>,
    pub version: Option<Seq<char>>,
    pub description: Option<Seq<char>>,
    pub authors: Option<Seq<Seq<char>>>,
    pub edition: Option<Seq<char>>,
}

impl View for CargoPackage {
    type V = CargoPackageView;

    open spec fn view(&self) -> CargoPackageView {
        CargoPackageView {
            name: view_opt_str(self.name),
            version: view_opt_str(self.version),
            description: view_opt_str(self.description),
            authors: (match self.authors {
                Some(a) => Some(a@.map_values(|s: String| s@)),
                None => None,
            }),
            edition: view_opt_str(self.edition),
        }
    }
}

/// The `[workspace]` table of a Rust manifest.
#[derive(Debug, Clone)]
pub struct CargoWorkspace {
    pub members: Vec<String>,
    pub exclude: Vec<String>,
    pub default_members: Vec<String>,
}

/// Ghost image of the `[workspace]` table.
pub ghost struct CargoWorkspaceView {
    pub members: Seq<Seq<char>>,
    pub exclude: Seq<Seq<char>>,
    pub default_members: Seq<Seq<char>>,
}

impl View for CargoWorkspace {
    type V = CargoWorkspaceView;

    open spec fn view(&self) -> CargoWorkspaceView {
        CargoWorkspaceView {
            members: names_view(self.members@),
            exclude: names_view(self.exclude@),
            default_members: names_view(self.default_members@),
        }
    }
}

/// Ghost image of a Rust manifest.
pub ghost struct CargoTomlView {
    pub package: Option<CargoPackageView>,
    pub dependencies: Seq<Seq<char>>,
    pub dev_dependencies: Seq<Seq<char>>,
    pub build_dependencies: Seq<Seq<char>>,
    pub workspace: Option<CargoWorkspaceView>,
}

/// Parsed Cargo.toml structure.  The three dependency tables are kept as
/// the lists of the declared crate names.
#[derive(Debug, Clone)]
pub struct CargoToml {
    pub package: Option<CargoPackage>,
    pub dependencies: Vec<String>,
    pub dev_dependencies: Vec<String>,
    pub build_dependencies: Vec<String>,
    pub workspace: Option<CargoWorkspace>,
}

impl View for CargoToml {
    type V = CargoTomlView;

    open spec fn view(&self) -> CargoTomlView {
        CargoTomlView {
            package: (match &self.package {
                Some(p) => Some(p@),
                None => None,
            }),
            dependencies: names_view(self.dependencies@),
            dev_dependencies: names_view(self.dev_dependencies@),
            build_dependencies: names_view(self.build_dependencies@),
            workspace: (match &self.workspace {
                Some(w) => Some(w@),
                None => None,
            }),
        }
    }
}

impl Default for CargoToml {
    /// An empty manifest.
    fn default() -> (r: CargoToml)
        ensures
            r@.package is None,
            r@.dependencies.len() == 0,
            r@.dev_dependencies.len() == 0,
            r@.build_dependencies.len() == 0,
            r@.workspace is None,
    {
        let r = CargoToml {
            package: None,
            dependencies: Vec::new(),
            dev_dependencies: Vec::new(),
            build_dependencies: Vec::new(),
            workspace: None,
        };
        r
    }
}

/// `name` appears among the primary, dev or build dependencies.
pub open spec fn spec_ct_has_dependency(ct: CargoTomlView, name: Seq<char>) -> bool {
    names_has(ct.dependencies, name) || names_has(ct.dev_dependencies, name) || names_has(
        ct.build_dependencies,
        name,
    )
}

/// The manifest pulls in the desktop shell: a `tauri` dependency or a
/// `tauri-build` build dependency.
pub open spec fn spec_ct_is_tauri(ct: CargoTomlView) -> bool {
    spec_ct_has_dependency(ct, "tauri"@) || names_has(ct.build_dependencies, "tauri-build"@)
}

/// The manifest pulls in a known web-server crate.
pub open spec fn spec_ct_is_web_server(ct: CargoTomlView) -> bool {
    spec_ct_has_dependency(ct, "actix-web"@) || spec_ct_has_dependency(ct, "actix-rt"@)
        || spec_ct_has_dependency(ct, "axum"@) || spec_ct_has_dependency(ct, "rocket"@)
        || spec_ct_has_dependency(ct, "warp"@) || spec_ct_has_dependency(ct, "tide"@)
        || spec_ct_has_dependency(ct, "hyper"@) || spec_ct_has_dependency(ct, "tower"@)
        || spec_ct_has_dependency(ct, "tonic"@)
}

/// The dev command of a Rust project: the desktop shell, a watcher for a
/// web server, or a plain run.
pub open spec fn spec_ct_dev_command(ct: CargoTomlView) -> Seq<char> {
    if spec_ct_is_tauri(ct) {
        "cargo tauri dev"@
    } else if spec_ct_is_web_server(ct) {
        "cargo watch -x run"@
    } else {
        "cargo run"@
    }
}

/// The build command of a Rust project.
pub open spec fn spec_ct_build_command(ct: CargoTomlView) -> Seq<char> {
    if spec_ct_is_tauri(ct) {
        "cargo tauri build"@
    } else {
        "cargo build --release"@
    }
}

impl CargoToml {
    /// Check if a dependency exists.
    pub fn has_dependency(&self, name: &str) -> (r: bool)
        ensures
            r == spec_ct_has_dependency(self@, name@),
    {
        names_contain(&self.dependencies, name) || names_contain(&self.dev_dependencies, name)
            || names_contain(&self.build_dependencies, name)
    }

    /// The declared package name.
    pub fn get_name(&self) -> (r: Option<String>)
        ensures
            view_opt_str(r) == (match self@.package {
                Some(p) => p.name,
                None => None,
            }),
    {
        match &self.package {
            Some(p) => match &p.name {
                Some(n) => Some(n.clone()),
                None => None,
            },
            None => None,
        }
    }

    /// Does the manifest declare a workspace?
    pub fn is_workspace(&self) -> (r: bool)
        ensures
            r == (self@.workspace is Some),
    {
        self.workspace.is_some()
    }

    /// The declared workspace members, empty when there is no workspace.
    pub fn get_workspace_members(&self) -> (r: Vec<String>)
        ensures
            names_view(r@) == (match self@.workspace {
                Some(w) => w.members,
                None => Seq::<Seq<char>>::empty(),
            }),
    {
        match &self.workspace {
            Some(w) => clone_strings(&w.members),
            None => {
                let r: Vec<String> = Vec::new();
                proof {
                    assert(names_view(r@) =~= Seq::<Seq<char>>::empty());
                }
                r
            },
        }
    }

    /// Check if this is a desktop-shell project.
    pub fn is_tauri(&self) -> (r: bool)
        ensures
            r == spec_ct_is_tauri(self@),
    {
        self.has_dependency("tauri") || names_contain(&self.build_dependencies, "tauri-build")
    }

    /// Check if this is a web server project.
    pub fn is_web_server(&self) -> (r: bool)
        ensures
            r == spec_ct_is_web_server(self@),
    {
        self.has_dependency("actix-web") || self.has_dependency("actix-rt") || self.has_dependency(
            "axum",
        ) || self.has_dependency("rocket") || self.has_dependency("warp") || self.has_dependency(
            "tide",
        ) || self.has_dependency("hyper") || self.has_dependency("tower") || self.has_dependency(
            "tonic",
        )
    }

    /// The first of the known web frameworks the manifest depends on.
    pub fn detect_web_framework(&self) -> (r: Option<&'static str>)
        ensures
            (match r {
                Some(s) => Some(s@),
                None => None,
            }) == spec_ct_web_framework(self@),
    {
        if self.has_dependency("actix-web") {
            Some("actix-web")
        } else if self.has_dependency("axum") {
            Some("axum")
        } else if self.has_dependency("rocket") {
            Some("rocket")
        } else if self.has_dependency("warp") {
            Some("warp")
        } else if self.has_dependency("tide") {
            Some("tide")
        } else {
            None
        }
    }

    /// Does the manifest pull in a known command-line crate?
    pub fn is_cli(&self) -> (r: bool)
        ensures
            r == (spec_ct_has_dependency(self@, "clap"@) || spec_ct_has_dependency(
                self@,
                "structopt"@,
            ) || spec_ct_has_dependency(self@, "argh"@) || spec_ct_has_dependency(
                self@,
                "pico-args"@,
            )),
    {
        self.has_dependency("clap") || self.has_dependency("structopt") || self.has_dependency(
            "argh",
        ) || self.has_dependency("pico-args")
    }

    /// Get default dev command for Rust projects.
    pub fn get_dev_command(&self) -> (r: String)
        ensures
            r@ == spec_ct_dev_command(self@),
    {
        if self.is_tauri() {
            String::from_str("cargo tauri dev")
        } else if self.is_web_server() {
            String::from_str("cargo watch -x run")
        } else {
            String::from_str("cargo run")
        }
    }

    /// Get default build command.
    pub fn get_build_command(&self) -> (r: String)
        ensures
            r@ == spec_ct_build_command(self@),
    {
        if self.is_tauri() {
            String::from_str("cargo tauri build")
        } else {
            String::from_str("cargo build --release")
        }
    }
}

/// The first of the known web frameworks, by name.
pub open spec fn spec_ct_web_framework(ct: CargoTomlView) -> Option<Seq<char>> {
    if spec_ct_has_dependency(ct, "actix-web"@) {
        Some("actix-web"@)
    } else if spec_ct_has_dependency(ct, "axum"@) {
        Some("axum"@)
    } else if spec_ct_has_dependency(ct, "rocket"@) {
        Some("rocket"@)
    } else if spec_ct_has_dependency(ct, "warp"@) {
        Some("warp"@)
    } else if spec_ct_has_dependency(ct, "tide"@) {
        Some("tide"@)
    } else {
        None
    }
}

} // verus!
