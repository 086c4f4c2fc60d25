//! The desktop-shell configuration: the typed contents of a
//! `tauri.conf.json`, with the dev-URL port and frontend-command queries.

use vstd::prelude::*;
use crate::models::view_opt_str;
use crate::scan::{spec_pat_port, pat_port, Pat};
use crate::text::chars_of;

verus! {

/// The `build` table of the desktop-shell configuration.
#[derive(Debug, Clone)]
pub struct TauriBuild {
    pub before_dev_command: Option<String>,
    pub before_build_command: Option<String>,
    pub dev_url: Option<String>,
    pub frontend_dist: Option<String>,
}

/// Ghost image of the `build` table.
pub ghost struct TauriBuildView {
    pub before_dev_command: Option<Seq<char>>,
    pub before_build_command: Option<Seq<char>>,
    pub dev_url: Option<Seq<char>>,
    pub frontend_dist: Option<Seq<char>>,
}

impl View for TauriBuild {
    type V = TauriBuildView;

    open spec fn view(&self) -> TauriBuildView {
        TauriBuildView {
            before_dev_command: view_opt_str(self.before_dev_command),
            before_build_command: view_opt_str(self.before_build_command),
            dev_url: view_opt_str(self.dev_url),
            frontend_dist: view_opt_str(self.frontend_dist),
        }
    }
}

/// One declared window of the desktop shell.
#[derive(Debug, Clone)]
pub struct TauriWindow {
    pub title: Option<String>,
    pub width: Option<u32>,
    pub height: Option<u32>,
    pub min_width: Option<u32>,
    pub min_height: Option<u32>,
    pub center: Option<bool>,
    pub fullscreen: Option<bool>,
    pub resizable: Option<bool>,
}

/// The security table of the desktop shell.
#[derive(Debug, Clone)]
pub struct TauriSecurity {
    pub csp: Option<String>,
}

/// The `app` table of the desktop shell.
#[derive(Debug, Clone)]
pub struct TauriApp {
    pub windows: Vec<TauriWindow>,
    pub security: Option<TauriSecurity>,
}

/// The `bundle` table of the desktop shell.
#[derive(Debug, Clone)]
pub struct TauriBundle {
    pub active: Option<bool>,
    pub icon: Option<Vec<String>>,
}

/// Ghost image of the whole configuration: only the fields the queries
/// read.
pub ghost struct TauriConfView {
    pub product_name: Option<Seq<char>>,
    pub version: Option<Seq<char>>,
    pub identifier: Option<Seq<char>>,
    pub build: Option<TauriBuildView>,
}

/// Parsed desktop-shell configuration.
#[derive(Debug, Clone)]
pub struct TauriConf {
    pub product_name: Option<String>,
    pub version: Option<String>,
    pub identifier: Option<String>,
    pub build: Option<TauriBuild>,
    pub app: Option<TauriApp>,
    pub bundle: Option<TauriBundle>,
}

impl View for TauriConf {
    type V = TauriConfView;

    open spec fn view(&self) -> TauriConfView {
        TauriConfView {
            product_name: view_opt_str(self.product_name),
            version: view_opt_str(self.version),
            identifier: view_opt_str(self.identifier),
            build: (match &self.build {
                Some(b) => Some(b@),
                None => None,
            }),
        }
    }
}

/// The frontend dev URL named by the configuration.
pub open spec fn spec_dev_url(c: TauriConfView) -> Option<Seq<char>> {
    match c.build {
        Some(b) => b.dev_url,
        None => None,
    }
}

/// The port of the dev URL: the first run of four or five digits after a
/// colon, parsed as a `u16`.
pub open spec fn spec_dev_port(c: TauriConfView) -> Option<u16> {
    match spec_dev_url(c) {
        Some(url) => spec_pat_port(Pat::Colon45, url),
        None => None,
    }
}

/// The frontend dev command named by the configuration.
pub open spec fn spec_frontend_dev_command(c: TauriConfView) -> Option<Seq<char>> {
    match c.build {
        Some(b) => b.before_dev_command,
        None => None,
    }
}

/// The frontend build command named by the configuration.
pub open spec fn spec_frontend_build_command(c: TauriConfView) -> Option<Seq<char>> {
    match c.build {
        Some(b) => b.before_build_command,
        None => None,
    }
}

impl TauriConf {
    /// Get the frontend dev URL.
    pub fn get_dev_url(&self) -> (r: Option<String>)
        ensures
            view_opt_str(r) == spec_dev_url(self@),
    {
        match &self.build {
            Some(b) => match &b.dev_url {
                Some(u) => Some(u.clone()),
                None => None,
            },
            None => None,
        }
    }

    /// Extract port from dev URL.
    pub fn get_dev_port(&self) -> (r: Option<u16>)
        ensures
            r == spec_dev_port(self@),
    {
        match &self.build {
            Some(b) => match &b.dev_url {
                Some(u) => {
                    let hay = chars_of(u.as_str());
                    pat_port(Pat::Colon45, &hay)
                },
                None => None,
            },
            None => None,
        }
    }

    /// Get the frontend dev command.
    pub fn get_frontend_dev_command(&self) -> (r: Option<String>)
        ensures
            view_opt_str(r) == spec_frontend_dev_command(self@),
    {
        match &self.build {
            Some(b) => match &b.before_dev_command {
                Some(c) => Some(c.clone()),
                None => None,
            },
            None => None,
        }
    }

    /// Get the frontend build command.
    pub fn get_frontend_build_command(&self) -> (r: Option<String>)
        ensures
            view_opt_str(r) == spec_frontend_build_command(self@),
    {
        match &self.build {
            Some(b) => match &b.before_build_command {
                Some(c) => Some(c.clone()),
                None => None,
            },
            None => None,
        }
    }

    /// The product name, when declared.
    pub fn get_name(&self) -> (r: Option<String>)
        ensures
            view_opt_str(r) == self@.product_name,
    {
        match &self.product_name {
            Some(n) => Some(n.clone()),
            None => None,
        }
    }

    /// The frontend distribution directory, when declared.
    pub fn get_frontend_dist(&self) -> (r: Option<String>)
        ensures
            view_opt_str(r) == (match self@.build {
                Some(b) => b.frontend_dist,
                None => None,
            }),
    {
        match &self.build {
            Some(b) => match &b.frontend_dist {
                Some(d) => Some(d.clone()),
                None => None,
            },
            None => None,
        }
    }
}


/// Check if a directory is a desktop-shell project: the `src-tauri`
/// entry or a shell configuration at either expected place.
pub fn is_tauri_project(t: &crate::fstree::DirTree) -> (r: bool)
    ensures
        r == crate::framework::spec_is_tauri_marker(t@),
{
    t.has_path("src-tauri") || t.has_path("tauri.conf.json") || t.has_path(
        "src-tauri/tauri.conf.json",
    )
}

/// The shell's source directory: `src-tauri` below the root when it is
/// there, or the root itself when the root is already that directory.
pub fn get_tauri_src_dir(t: &crate::fstree::DirTree) -> (r: Option<String>)
    ensures
        (match r {
            Some(p) => (crate::fstree::spec_has_path(t@, "src-tauri"@) && p@ == t@.path + "/"@
                + "src-tauri"@) || (!crate::fstree::spec_has_path(t@, "src-tauri"@) && t@.name
                == "src-tauri"@ && p@ == t@.path),
            None => !crate::fstree::spec_has_path(t@, "src-tauri"@) && t@.name != "src-tauri"@,
        }),
{
    if t.has_path("src-tauri") {
        let mut p = t.path.clone();
        p.append("/");
        p.append("src-tauri");
        Some(p)
    } else if crate::text::str_eq(t.name.as_str(), "src-tauri") {
        Some(t.path.clone())
    } else {
        None
    }
}

} // verus!
