//! The project scanner: one pass over a snapshot that composes the
//! detectors into a full project/service graph — the desktop-shell
//! special case, monorepo expansion, the compose-file overlay with
//! deduplication, and a bounded deeper scan.

use vstd::prelude::*;
use vstd::string::StringExecFns;
use crate::commands::{
    detect_commands, get_tauri_backend_commands, get_tauri_frontend_commands,
    spec_detect_commands, spec_tauri_backend_commands, spec_tauri_frontend_commands,
};
use crate::docker::{
    detect_docker_services, has_docker, has_docker_compose, spec_detect_docker_services,
    spec_has_compose_file, spec_has_docker,
};
use crate::framework::{detect_framework, spec_detect_framework, spec_is_tauri_marker};
use crate::fstree::{
    spec_has_path, spec_root_package_json, spec_root_tauri_conf, spec_subtree, DirTree,
    DirTreeView,
};
use crate::models::{
    spec_default_port, spec_new_project, spec_stack, view_opt_str, DetectedProject,
    DetectedService, Framework, PackageManager, ProjectView, ServiceCategory, ServiceView,
};
use crate::monorepo::{
    detect_monorepo, get_workspace_projects, join_child, spec_detect_monorepo,
    spec_workspace_projects,
};
use crate::package_json::spec_has_dependency;
use crate::package_manager::{detect_package_manager, spec_detect_package_manager};
use crate::port::{detect_port, spec_detect_port};
use crate::service_type::{detect_service_category, spec_detect_service_category};
use crate::tauri_conf::{is_tauri_project, spec_dev_port};
use crate::text::{opt_str_eq, str_eq};

verus! {

/// Legacy coarse project type, kept for the shallow workspace scan.
#[derive(Debug, Clone, Copy, PartialEq, Eq, Structural)]
pub enum ProjectType {
    Node,
    Rust,
    Php,
    Python,
    Ruby,
    Go,
}

/// The stack label of a legacy project type.
pub open spec fn spec_pt_stack(p: ProjectType) -> Seq<char> {
    match p {
        ProjectType::Node => "node"@,
        ProjectType::Rust => "rust"@,
        ProjectType::Php => "php"@,
        ProjectType::Python => "django"@,
        ProjectType::Ruby => "rails"@,
        ProjectType::Go => "go"@,
    }
}

/// The default port of a legacy project type.
pub open spec fn spec_pt_default_port(p: ProjectType) -> u16 {
    match p {
        ProjectType::Node => 3000u16,
        ProjectType::Rust => 8080u16,
        ProjectType::Php => 8000u16,
        ProjectType::Python => 5000u16,
        ProjectType::Ruby => 3000u16,
        ProjectType::Go => 8080u16,
    }
}

impl ProjectType {
    /// The stack label of this legacy type.
    pub fn to_stack(&self) -> (r: &'static str)
        ensures
            r@ == spec_pt_stack(*self),
    {
        match self {
            ProjectType::Node => "node",
            ProjectType::Rust => "rust",
            ProjectType::Php => "php",
            ProjectType::Python => "django",
            ProjectType::Ruby => "rails",
            ProjectType::Go => "go",
        }
    }

    /// The default port of this legacy type.
    pub fn default_port(&self) -> (r: u16)
        ensures
            r == spec_pt_default_port(*self),
    {
        match self {
            ProjectType::Node => 3000,
            ProjectType::Rust => 8080,
            ProjectType::Php => 8000,
            ProjectType::Python => 5000,
            ProjectType::Ruby => 3000,
            ProjectType::Go => 8080,
        }
    }
}

/// Ghost image of a shallow scan result.
pub ghost struct ScannedProjectView {
    pub name: Seq<char>,
    pub path: Seq<char>,
    pub project_type: ProjectType,
}

/// One project of the shallow workspace scan.
#[derive(Debug, Clone)]
pub struct ScannedProject {
    pub name: String,
    pub path: String,
    pub project_type: ProjectType,
}

impl View for ScannedProject {
    type V = ScannedProjectView;

    open spec fn view(&self) -> ScannedProjectView {
        ScannedProjectView {
            name: self.name@,
            path: self.path@,
            project_type: self.project_type,
        }
    }
}

/// The legacy project-type rule: backend languages take priority over a
/// node manifest, so a server project that also ships frontend assets is
/// classified by its server language.
pub open spec fn spec_detect_project_type(t: DirTreeView) -> Option<ProjectType> {
    if spec_has_path(t, "composer.json"@) {
        Some(ProjectType::Php)
    } else if spec_has_path(t, "requirements.txt"@) {
        Some(ProjectType::Python)
    } else if spec_has_path(t, "Gemfile"@) {
        Some(ProjectType::Ruby)
    } else if spec_has_path(t, "go.mod"@) {
        Some(ProjectType::Go)
    } else if spec_has_path(t, "Cargo.toml"@) {
        Some(ProjectType::Rust)
    } else if spec_has_path(t, "package.json"@) {
        Some(ProjectType::Node)
    } else {
        None
    }
}

/// Detect the legacy project type from the root's manifests.
pub fn detect_project_type(t: &DirTree) -> (r: Option<ProjectType>)
    ensures
        r == spec_detect_project_type(t@),
{
    if t.has_path("composer.json") {
        Some(ProjectType::Php)
    } else if t.has_path("requirements.txt") {
        Some(ProjectType::Python)
    } else if t.has_path("Gemfile") {
        Some(ProjectType::Ruby)
    } else if t.has_path("go.mod") {
        Some(ProjectType::Go)
    } else if t.has_path("Cargo.toml") {
        Some(ProjectType::Rust)
    } else if t.has_path("package.json") {
        Some(ProjectType::Node)
    } else {
        None
    }
}

/// A name the scans skip: hidden, or a well-known non-project directory.
pub open spec fn spec_skipped_name(name: Seq<char>) -> bool {
    (name.len() > 0 && name[0] == '.') || name == "node_modules"@ || name == "target"@ || name
        == "vendor"@ || name == "__pycache__"@ || name == "dist"@ || name == "build"@
}

/// A valid project folder: a name the scan does not skip, and at least
/// one recognizable manifest at its root.
pub open spec fn spec_is_valid_project(t: DirTreeView) -> bool {
    !spec_skipped_name(t.name) && spec_detect_project_type(t) is Some
}

/// Check whether a snapshot looks like a valid project folder.
pub fn is_valid_project(t: &DirTree) -> (r: bool)
    ensures
        r == spec_is_valid_project(t@),
{
    if skipped_name(&t.name) {
        return false;
    }
    detect_project_type(t).is_some()
}

/// The skip rule of the workspace scans, at run time.
fn skipped_name(name: &String) -> (r: bool)
    ensures
        r == spec_skipped_name(name@),
{
    let ch = crate::text::chars_of(name.as_str());
    if ch.len() > 0 && ch[0] == '.' {
        return true;
    }
    str_eq(name.as_str(), "node_modules") || str_eq(name.as_str(), "target") || str_eq(
        name.as_str(),
        "vendor",
    ) || str_eq(name.as_str(), "__pycache__") || str_eq(name.as_str(), "dist") || str_eq(
        name.as_str(),
        "build",
    )
}

/// The shallow scan of one workspace: one entry per valid top-level
/// project folder, in snapshot order.
pub open spec fn spec_scan_workspace(t: DirTreeView) -> Seq<ScannedProjectView> {
    spec_scan_workspace_of(t, t.entries)
}

/// As `spec_scan_workspace`, folded over an entry prefix.
pub open spec fn spec_scan_workspace_of(
    t: DirTreeView,
    es: Seq<crate::fstree::FileNodeView>,
) -> Seq<ScannedProjectView>
    decreases es.len(),
{
    if es.len() == 0 {
        Seq::empty()
    } else {
        let init = spec_scan_workspace_of(t, es.drop_last());
        let e = es.last();
        if e.is_dir && crate::package_manager::is_top_level(e.path) && spec_is_valid_project(
            spec_subtree(t, e.path),
        ) {
            let sub = spec_subtree(t, e.path);
            init.push(
                ScannedProjectView {
                    name: sub.name,
                    path: sub.path,
                    project_type: spec_detect_project_type(sub).unwrap(),
                },
            )
        } else {
            init
        }
    }
}

/// Scan a workspace shallowly and return every valid top-level project.
pub fn scan_workspace(t: &DirTree) -> (r: Vec<ScannedProject>)
    ensures
        r@.map_values(|p: ScannedProject| p@) == spec_scan_workspace(t@),
{
    let mut projects: Vec<ScannedProject> = Vec::new();
    let n = t.entries.len();
    let mut i: usize = 0;
    while i < n
        invariant
            n == t.entries@.len(),
            i <= n,
            projects@.map_values(|p: ScannedProject| p@) =~= spec_scan_workspace_of(
                t@,
                t@.entries.subrange(0, i as int),
            ),
        decreases n - i,
    {
        proof {
            assert(t@.entries.subrange(0, i + 1).drop_last() =~= t@.entries.subrange(0, i as int));
            assert(t@.entries.subrange(0, i + 1).last() == t@.entries[i as int]);
            assert(t@.entries[i as int].path == t.entries@[i as int].path@);
            assert(t@.entries[i as int].is_dir == t.entries@[i as int].is_dir);
        }
        let e = &t.entries[i];
        if e.is_dir {
            let pch = crate::text::chars_of(e.path.as_str());
            if crate::package_manager::top_level(&pch) {
                let sub = t.subtree(e.path.as_str());
                if is_valid_project(&sub) {
                    match detect_project_type(&sub) {
                        Some(pt) => {
                            let ghost pre = projects@.map_values(|p: ScannedProject| p@);
                            projects.push(
                                ScannedProject {
                                    name: sub.name,
                                    path: sub.path,
                                    project_type: pt,
                                },
                            );
                            proof {
                                assert(projects@.map_values(|p: ScannedProject| p@) =~= pre.push(
                                    ScannedProjectView {
                                        name: spec_subtree(t@, e.path@).name,
                                        path: spec_subtree(t@, e.path@).path,
                                        project_type: spec_detect_project_type(
                                            spec_subtree(t@, e.path@),
                                        ).unwrap(),
                                    },
                                ));
                            }
                        },
                        None => {},
                    }
                }
            }
        }
        proof {
            assert(projects@.map_values(|p: ScannedProject| p@) =~= spec_scan_workspace_of(
                t@,
                t@.entries.subrange(0, i + 1),
            ));
        }
        i = i + 1;
    }
    proof {
        assert(t@.entries.subrange(0, n as int) =~= t@.entries);
    }
    projects
}

/// The classification of one unit: every detector run on its snapshot,
/// the stack and port tables applied last.
pub open spec fn spec_scan_single(u: DirTreeView, rel: Seq<char>) -> ServiceView {
    let relative = if rel.len() == 0 {
        "."@
    } else {
        rel
    };
    let pm = spec_detect_package_manager(u);
    let fw = spec_detect_framework(u, spec_root_package_json(u), crate::fstree::spec_root_cargo_toml(u));
    let cat = spec_detect_service_category(u, fw);
    let cmds = spec_detect_commands(
        u,
        fw,
        pm,
        spec_root_package_json(u),
        crate::fstree::spec_root_cargo_toml(u),
    );
    ServiceView {
        name: u.name,
        path: u.path,
        relative_path: relative,
        category: cat,
        framework: fw,
        stack: spec_stack(fw),
        package_manager: pm,
        port: (if spec_detect_port(u, fw) is Some {
            spec_detect_port(u, fw)
        } else {
            spec_default_port(fw)
        }),
        dev_command: cmds.dev,
        build_command: cmds.build,
        start_command: cmds.start,
        install_command: cmds.install,
        is_docker_service: false,
        docker_service_name: None,
    }
}

/// Scan a single unit: run every detector on its snapshot and record the
/// unit under the given relative path ("." when it is the root itself).
pub fn scan_single_service(u: &DirTree, relative_path: &str) -> (r: DetectedService)
    ensures
        r@ == spec_scan_single(u@, relative_path@),
{
    let rel = if relative_path.unicode_len() == 0 {
        String::from_str(".")
    } else {
        String::from_str(relative_path)
    };
    let mut service = DetectedService::new(u.name.clone(), u.path.clone(), rel);
    service.package_manager = detect_package_manager(u);
    let pkg = u.root_package_json();
    let ct = u.root_cargo_toml();
    service.framework = detect_framework(u, pkg, ct);
    service.category = detect_service_category(u, &service.framework);
    service.port = detect_port(u, &service.framework);
    let commands = detect_commands(u, &service.framework, &service.package_manager, pkg, ct);
    service.dev_command = commands.dev;
    service.build_command = commands.build;
    service.start_command = commands.start;
    service.install_command = commands.install;
    service.update_stack_from_framework();
    service.update_port_from_framework();
    service.update_install_from_package_manager();
    service
}

/// The frontend framework of a desktop-shell root: the named view
/// library, or the build tool as a fallback; without a manifest nothing
/// is claimed.
pub open spec fn spec_tauri_frontend_framework(t: DirTreeView) -> Framework {
    match spec_root_package_json(t) {
        Some(pkg) => if spec_has_dependency(pkg, "react"@) {
            Framework::React
        } else if spec_has_dependency(pkg, "vue"@) {
            Framework::Vue
        } else if spec_has_dependency(pkg, "svelte"@) {
            Framework::Svelte
        } else if spec_has_dependency(pkg, "solid-js"@) {
            Framework::Solid
        } else {
            Framework::Vite
        },
        None => Framework::Unknown,
    }
}

/// The frontend half of the desktop-shell decomposition.
pub open spec fn spec_tauri_frontend(t: DirTreeView) -> ServiceView {
    let pm = spec_detect_package_manager(t);
    let fw = spec_tauri_frontend_framework(t);
    let cmds = spec_tauri_frontend_commands(t, pm);
    let port0 = match spec_root_tauri_conf(t) {
        Some(conf) => spec_dev_port(conf),
        None => None,
    };
    ServiceView {
        name: "frontend"@,
        path: t.path,
        relative_path: "."@,
        category: ServiceCategory::Frontend,
        framework: fw,
        stack: spec_stack(fw),
        package_manager: pm,
        port: (if port0 is Some {
            port0
        } else {
            spec_default_port(fw)
        }),
        dev_command: cmds.dev,
        build_command: cmds.build,
        start_command: None,
        install_command: cmds.install,
        is_docker_service: false,
        docker_service_name: None,
    }
}

/// The native half of the desktop-shell decomposition: fixed toolchain
/// commands, no port.
pub open spec fn spec_tauri_backend(t: DirTreeView) -> ServiceView {
    ServiceView {
        name: "tauri"@,
        path: t.path + "/"@ + "src-tauri"@,
        relative_path: "src-tauri"@,
        category: ServiceCategory::Desktop,
        framework: Framework::Tauri,
        stack: "rust"@,
        package_manager: PackageManager::Cargo,
        port: None,
        dev_command: spec_tauri_backend_commands().dev,
        build_command: spec_tauri_backend_commands().build,
        start_command: None,
        install_command: spec_tauri_backend_commands().install,
        is_docker_service: false,
        docker_service_name: None,
    }
}

/// The two-service desktop-shell decomposition.
pub open spec fn spec_scan_tauri(t: DirTreeView) -> Seq<ServiceView> {
    seq![spec_tauri_frontend(t), spec_tauri_backend(t)]
}

/// Scan a desktop-shell project: exactly the frontend unit and the
/// native backend unit.
pub fn scan_tauri_project(t: &DirTree) -> (r: Vec<DetectedService>)
    ensures
        r@.map_values(|s: DetectedService| s@) == spec_scan_tauri(t@),
{
    let mut services: Vec<DetectedService> = Vec::new();
    let package_manager = detect_package_manager(t);
    let mut frontend = DetectedService::new(
        String::from_str("frontend"),
        t.path.clone(),
        String::from_str("."),
    );
    frontend.package_manager = package_manager;
    frontend.category = ServiceCategory::Frontend;
    match t.root_package_json() {
        Some(pkg) => {
            if pkg.has_dependency("react") {
                frontend.framework = Framework::React;
            } else if pkg.has_dependency("vue") {
                frontend.framework = Framework::Vue;
            } else if pkg.has_dependency("svelte") {
                frontend.framework = Framework::Svelte;
            } else if pkg.has_dependency("solid-js") {
                frontend.framework = Framework::Solid;
            } else {
                frontend.framework = Framework::Vite;
            }
        },
        None => {},
    }
    match t.root_tauri_conf() {
        Some(conf) => {
            frontend.port = conf.get_dev_port();
        },
        None => {},
    }
    let frontend_commands = get_tauri_frontend_commands(t, &package_manager);
    frontend.dev_command = frontend_commands.dev;
    frontend.build_command = frontend_commands.build;
    frontend.install_command = frontend_commands.install;
    frontend.update_stack_from_framework();
    frontend.update_port_from_framework();
    proof {
        assert(frontend@ == spec_tauri_frontend(t@));
    }
    services.push(frontend);
    let mut backend_path = t.path.clone();
    backend_path.append("/");
    backend_path.append("src-tauri");
    let mut backend = DetectedService::new(
        String::from_str("tauri"),
        backend_path,
        String::from_str("src-tauri"),
    );
    backend.package_manager = PackageManager::Cargo;
    backend.category = ServiceCategory::Desktop;
    backend.framework = Framework::Tauri;
    backend.stack = String::from_str("rust");
    backend.port = None;
    let backend_commands = get_tauri_backend_commands();
    backend.dev_command = backend_commands.dev;
    backend.build_command = backend_commands.build;
    backend.install_command = backend_commands.install;
    proof {
        assert(backend@ == spec_tauri_backend(t@));
    }
    services.push(backend);
    proof {
        assert(services@.map_values(|s: DetectedService| s@) =~= spec_scan_tauri(t@));
    }
    services
}

/// The units of the workspace members, in member order.
pub open spec fn spec_member_services(t: DirTreeView, paths: Seq<Seq<char>>) -> Seq<ServiceView>
    decreases paths.len(),
{
    if paths.len() == 0 {
        Seq::empty()
    } else {
        spec_member_services(t, paths.drop_last()).push(
            spec_scan_single(spec_subtree(t, paths.last()), paths.last()),
        )
    }
}

/// A docker service duplicates an already detected one when it shares
/// its relative path or its container-service name.
pub open spec fn spec_docker_dup(ss: Seq<ServiceView>, d: ServiceView) -> bool {
    exists|i: int|
        0 <= i < ss.len() && ((#[trigger] ss[i]).relative_path == d.relative_path
            || ss[i].docker_service_name == d.docker_service_name)
}

/// The compose overlay: append each non-duplicate docker service, the
/// duplicate check running against the list as it grows.
pub open spec fn spec_overlay_docker(ss: Seq<ServiceView>, ds: Seq<ServiceView>) -> Seq<
    ServiceView,
>
    decreases ds.len(),
{
    if ds.len() == 0 {
        ss
    } else {
        let grown = spec_overlay_docker(ss, ds.drop_last());
        if spec_docker_dup(grown, ds.last()) {
            grown
        } else {
            grown.push(ds.last())
        }
    }
}

/// An absolute path is already among the services.
pub open spec fn spec_path_dup(ss: Seq<ServiceView>, path: Seq<char>) -> bool {
    exists|i: int| 0 <= i < ss.len() && (#[trigger] ss[i]).path == path
}

/// The deeper-scan overlay: append the unit of each additional project
/// path whose absolute path is new, the check running against the list
/// as it grows.
pub open spec fn spec_overlay_deeper(
    t: DirTreeView,
    ss: Seq<ServiceView>,
    paths: Seq<Seq<char>>,
) -> Seq<ServiceView>
    decreases paths.len(),
{
    if paths.len() == 0 {
        ss
    } else {
        let grown = spec_overlay_deeper(t, ss, paths.drop_last());
        let p = paths.last();
        let sub = spec_subtree(t, p);
        if spec_path_dup(grown, sub.path) {
            grown
        } else {
            grown.push(spec_scan_single(sub, p))
        }
    }
}

/// The full scan of one project root: the desktop-shell special case,
/// else the monorepo expansion or the single unit, then the compose
/// overlay and the bounded deeper scan.
pub open spec fn spec_scan_project(t: DirTreeView, max_depth: u8) -> ProjectView {
    let base = ProjectView {
        root_package_manager: spec_detect_package_manager(t),
        has_docker: spec_has_docker(t),
        has_docker_compose: spec_has_compose_file(t),
        ..spec_new_project(t.name, t.path)
    };
    if spec_is_tauri_marker(t) {
        ProjectView { is_tauri: true, services: spec_scan_tauri(t), ..base }
    } else {
        let expanded = match spec_detect_monorepo(t) {
            Some(info) => ProjectView {
                is_monorepo: true,
                monorepo_tool: info.tool,
                workspaces: info.workspace_paths.map_values(|p: Seq<char>| t.path + "/"@ + p),
                services: spec_member_services(t, info.workspace_paths),
                ..base
            },
            None => ProjectView { services: seq![spec_scan_single(t, "."@)], ..base },
        };
        let with_docker = if expanded.has_docker_compose {
            ProjectView {
                services: spec_overlay_docker(expanded.services, spec_detect_docker_services(t)),
                ..expanded
            }
        } else {
            expanded
        };
        if max_depth > 1 && !with_docker.is_monorepo {
            ProjectView {
                services: spec_overlay_deeper(
                    t,
                    with_docker.services,
                    spec_workspace_projects(t, max_depth),
                ),
                ..with_docker
            }
        } else {
            with_docker
        }
    }
}

/// Scan a project root deeply and detect all its services.
#[verifier::rlimit(100)]
pub fn scan_project_deep(t: &DirTree, max_depth: u8) -> (r: DetectedProject)
    ensures
        r@ == spec_scan_project(t@, max_depth),
{
    let mut project = DetectedProject::new(t.name.clone(), t.path.clone());
    project.root_package_manager = detect_package_manager(t);
    project.has_docker = has_docker(t);
    project.has_docker_compose = has_docker_compose(t);
    if is_tauri_project(t) {
        project.is_tauri = true;
        project.services = scan_tauri_project(t);
        return project;
    }
    match detect_monorepo(t) {
        Some(monorepo_info) => {
            project.is_monorepo = true;
            project.monorepo_tool = monorepo_info.tool;
            let ghost paths = monorepo_info@.workspace_paths;
            let n = monorepo_info.workspace_paths.len();
            let mut i: usize = 0;
            while i < n
                invariant
                    n == monorepo_info.workspace_paths@.len(),
                    paths == monorepo_info@.workspace_paths,
                    paths.len() == n,
                    i <= n,
                    project.name@ == t@.name,
                    project.path@ == t@.path,
                    project.is_tauri == false,
                    project.has_docker == spec_has_docker(t@),
                    project.has_docker_compose == spec_has_compose_file(t@),
                    project.root_package_manager == spec_detect_package_manager(t@),
                    project.is_monorepo == (spec_detect_monorepo(t@) is Some),
                    project.monorepo_tool == (match spec_detect_monorepo(t@) {
                        Some(info) => info.tool,
                        None => crate::models::MonorepoTool::NoneTool,
                    }),

                    project.workspaces@.map_values(|w: String| w@) =~= paths.subrange(
                        0,
                        i as int,
                    ).map_values(|p: Seq<char>| t@.path + "/"@ + p),
                    project.services@.map_values(|s: DetectedService| s@) =~= spec_member_services(
                        t@,
                        paths.subrange(0, i as int),
                    ),
                decreases n - i,
            {
                proof {
                    assert(paths.subrange(0, i + 1).drop_last() =~= paths.subrange(0, i as int));
                    assert(paths.subrange(0, i + 1).last() == paths[i as int]);
                    assert(paths[i as int] == monorepo_info.workspace_paths@[i as int]@);
                }
                let p = &monorepo_info.workspace_paths[i];
                let abs = join_child(t.path.as_str(), p.as_str());
                let ghost prew = project.workspaces@.map_values(|w: String| w@);
                project.workspaces.push(abs);
                let sub = t.subtree(p.as_str());
                let svc = scan_single_service(&sub, p.as_str());
                let ghost pres = project.services@.map_values(|s: DetectedService| s@);
                project.services.push(svc);
                proof {
                    assert(project.workspaces@.map_values(|w: String| w@) =~= prew.push(
                        t@.path + "/"@ + paths[i as int],
                    ));
                    assert(project.services@.map_values(|s: DetectedService| s@) =~= pres.push(
                        spec_scan_single(spec_subtree(t@, paths[i as int]), paths[i as int]),
                    ));
                    assert(paths.subrange(0, i + 1).map_values(|p: Seq<char>| t@.path + "/"@ + p)
                        =~= prew.push(t@.path + "/"@ + paths[i as int]));
                }
                i = i + 1;
            }
            proof {
                assert(paths.subrange(0, n as int) =~= paths);
            }
        },
        None => {
            let svc = scan_single_service(t, ".");
            project.services.push(svc);
            proof {
                assert(project.services@.map_values(|s: DetectedService| s@) =~= seq![
                    spec_scan_single(t@, "."@),
                ]);
            }
        },
    }
    let ghost sp_workspaces: Seq<Seq<char>> = (match spec_detect_monorepo(t@) {
        Some(info) => info.workspace_paths.map_values(|p: Seq<char>| t@.path + "/"@ + p),
        None => Seq::<Seq<char>>::empty(),
    });
    proof {
        assert(project.workspaces@.map_values(|w: String| w@) =~= sp_workspaces);
    }
    let ghost sp_expanded_services: Seq<ServiceView> = (match spec_detect_monorepo(t@) {
        Some(info) => spec_member_services(t@, info.workspace_paths),
        None => seq![spec_scan_single(t@, "."@)],
    });
    proof {
        assert(project.services@.map_values(|s: DetectedService| s@) =~= sp_expanded_services);
    }
    let ghost sp_docker_services: Seq<ServiceView> = (if spec_has_compose_file(t@) {
        spec_overlay_docker(sp_expanded_services, spec_detect_docker_services(t@))
    } else {
        sp_expanded_services
    });
    if project.has_docker_compose {
        let docker_services = detect_docker_services(t);
        let ghost ds = spec_detect_docker_services(t@);
        let ghost base = project.services@.map_values(|s: DetectedService| s@);
        let n = docker_services.len();
        let mut i: usize = 0;
        while i < n
            invariant
                n == docker_services@.len(),
                ds == docker_services@.map_values(|s: DetectedService| s@),
                ds.len() == n,
                i <= n,
                project.name@ == t@.name,
                project.path@ == t@.path,
                project.is_tauri == false,
                project.has_docker == spec_has_docker(t@),
                project.has_docker_compose == spec_has_compose_file(t@),
                project.root_package_manager == spec_detect_package_manager(t@),
                project.is_monorepo == (spec_detect_monorepo(t@) is Some),
                project.monorepo_tool == (match spec_detect_monorepo(t@) {
                    Some(info) => info.tool,
                    None => crate::models::MonorepoTool::NoneTool,
                }),
                project.workspaces@.map_values(|w: String| w@) =~= sp_workspaces,
                project.services@.map_values(|s: DetectedService| s@) =~= spec_overlay_docker(
                    base,
                    ds.subrange(0, i as int),
                ),
            decreases n - i,
        {
            proof {
                assert(ds.subrange(0, i + 1).drop_last() =~= ds.subrange(0, i as int));
                assert(ds.subrange(0, i + 1).last() == ds[i as int]);
                assert(ds[i as int] == docker_services@[i as int]@);
            }
            let d = &docker_services[i];
            let dup = is_docker_duplicate(&project.services, d);
            if !dup {
                let ghost pres = project.services@.map_values(|s: DetectedService| s@);
                project.services.push(d.clone_service());
                proof {
                    assert(project.services@.map_values(|s: DetectedService| s@) =~= pres.push(
                        ds[i as int],
                    ));
                }
            }
            proof {
                assert(project.services@.map_values(|s: DetectedService| s@) =~= spec_overlay_docker(
                    base,
                    ds.subrange(0, i + 1),
                ));
            }
            i = i + 1;
        }
        proof {
            assert(ds.subrange(0, n as int) =~= ds);
            assert(project.services@.map_values(|s: DetectedService| s@) =~= spec_overlay_docker(
                base,
                ds,
            ));
            assert(base == sp_expanded_services);
            assert(project.services@.map_values(|s: DetectedService| s@) =~= sp_docker_services);
        }
    }
    proof {
        assert(project.services@.map_values(|s: DetectedService| s@) =~= sp_docker_services);
    }
    let ghost sp_deeper_services: Seq<ServiceView> = (if max_depth > 1 && !(
    spec_detect_monorepo(t@) is Some) {
        spec_overlay_deeper(t@, sp_docker_services, spec_workspace_projects(t@, max_depth))
    } else {
        sp_docker_services
    });
    if max_depth > 1 && !project.is_monorepo {
        let additional = get_workspace_projects(t, max_depth);
        let ghost ap = additional@.map_values(|s: String| s@);
        let ghost base = project.services@.map_values(|s: DetectedService| s@);
        let n = additional.len();
        let mut i: usize = 0;
        while i < n
            invariant
                n == additional@.len(),
                ap == additional@.map_values(|s: String| s@),
                ap.len() == n,
                i <= n,
                project.name@ == t@.name,
                project.path@ == t@.path,
                project.is_tauri == false,
                project.has_docker == spec_has_docker(t@),
                project.has_docker_compose == spec_has_compose_file(t@),
                project.root_package_manager == spec_detect_package_manager(t@),
                project.is_monorepo == (spec_detect_monorepo(t@) is Some),
                project.monorepo_tool == (match spec_detect_monorepo(t@) {
                    Some(info) => info.tool,
                    None => crate::models::MonorepoTool::NoneTool,
                }),
                project.workspaces@.map_values(|w: String| w@) =~= sp_workspaces,
                project.services@.map_values(|s: DetectedService| s@) =~= spec_overlay_deeper(
                    t@,
                    base,
                    ap.subrange(0, i as int),
                ),
            decreases n - i,
        {
            proof {
                assert(ap.subrange(0, i + 1).drop_last() =~= ap.subrange(0, i as int));
                assert(ap.subrange(0, i + 1).last() == ap[i as int]);
                assert(ap[i as int] == additional@[i as int]@);
            }
            let p = &additional[i];
            let sub = t.subtree(p.as_str());
            let dup = is_path_duplicate(&project.services, sub.path.as_str());
            if !dup {
                let svc = scan_single_service(&sub, p.as_str());
                let ghost pres = project.services@.map_values(|s: DetectedService| s@);
                project.services.push(svc);
                proof {
                    assert(project.services@.map_values(|s: DetectedService| s@) =~= pres.push(
                        spec_scan_single(spec_subtree(t@, ap[i as int]), ap[i as int]),
                    ));
                }
            }
            proof {
                assert(project.services@.map_values(|s: DetectedService| s@)
                    =~= spec_overlay_deeper(t@, base, ap.subrange(0, i + 1)));
            }
            i = i + 1;
        }
        proof {
            assert(ap.subrange(0, n as int) =~= ap);
        }
    }
    proof {
        assert(project.services@.map_values(|s: DetectedService| s@) =~= sp_deeper_services);
        let sp = spec_scan_project(t@, max_depth);
        assert(sp.services == sp_deeper_services);
        assert(project@.services =~= sp.services);
        assert(project@.workspaces =~= sp_workspaces);
        assert(sp.workspaces == sp_workspaces);
    }
    project
}

/// Does the docker service duplicate an already detected one?
fn is_docker_duplicate(ss: &Vec<DetectedService>, d: &DetectedService) -> (r: bool)
    ensures
        r == spec_docker_dup(ss@.map_values(|s: DetectedService| s@), d@),
{
    let ghost sv = ss@.map_values(|s: DetectedService| s@);
    let n = ss.len();
    let mut i: usize = 0;
    while i < n
        invariant
            n == ss@.len(),
            sv == ss@.map_values(|s: DetectedService| s@),
            sv.len() == n,
            i <= n,
            forall|j: int|
                0 <= j < i ==> !((#[trigger] sv[j]).relative_path == d@.relative_path
                    || sv[j].docker_service_name == d@.docker_service_name),
        decreases n - i,
    {
        proof {
            assert(sv[i as int] == ss@[i as int]@);
        }
        if str_eq(ss[i].relative_path.as_str(), d.relative_path.as_str()) || opt_str_eq(
            &ss[i].docker_service_name,
            &d.docker_service_name,
        ) {
            proof {
                assert(view_opt_str(ss[i as int].docker_service_name) == sv[i as int].docker_service_name);
            }
            return true;
        }
        proof {
            assert(view_opt_str(ss[i as int].docker_service_name) == sv[i as int].docker_service_name);
        }
        i = i + 1;
    }
    false
}

/// Is the absolute path already among the services?
fn is_path_duplicate(ss: &Vec<DetectedService>, path: &str) -> (r: bool)
    ensures
        r == spec_path_dup(ss@.map_values(|s: DetectedService| s@), path@),
{
    let ghost sv = ss@.map_values(|s: DetectedService| s@);
    let n = ss.len();
    let mut i: usize = 0;
    while i < n
        invariant
            n == ss@.len(),
            sv == ss@.map_values(|s: DetectedService| s@),
            sv.len() == n,
            i <= n,
            forall|j: int| 0 <= j < i ==> (#[trigger] sv[j]).path != path@,
        decreases n - i,
    {
        proof {
            assert(sv[i as int] == ss@[i as int]@);
        }
        if str_eq(ss[i].path.as_str(), path) {
            return true;
        }
        i = i + 1;
    }
    false
}

/// The deep scan of one workspace: every valid top-level project folder,
/// scanned independently, in snapshot order.
pub open spec fn spec_scan_workspace_deep(t: DirTreeView, max_depth: u8) -> Seq<ProjectView> {
    spec_scan_workspace_deep_of(t, t.entries, max_depth)
}

/// As `spec_scan_workspace_deep`, folded over an entry prefix.
pub open spec fn spec_scan_workspace_deep_of(
    t: DirTreeView,
    es: Seq<crate::fstree::FileNodeView>,
    max_depth: u8,
) -> Seq<ProjectView>
    decreases es.len(),
{
    if es.len() == 0 {
        Seq::empty()
    } else {
        let init = spec_scan_workspace_deep_of(t, es.drop_last(), max_depth);
        let e = es.last();
        if e.is_dir && crate::package_manager::is_top_level(e.path) && !spec_skipped_name(
            spec_subtree(t, e.path).name,
        ) && spec_is_valid_project(spec_subtree(t, e.path)) {
            init.push(spec_scan_project(spec_subtree(t, e.path), max_depth))
        } else {
            init
        }
    }
}

/// Scan a workspace and return detailed project information for each
/// valid top-level project folder.
#[verifier::rlimit(100)]
pub fn scan_workspace_deep(t: &DirTree, max_depth: u8) -> (r: Vec<DetectedProject>)
    ensures
        r@.map_values(|p: DetectedProject| p@) == spec_scan_workspace_deep(t@, max_depth),
{
    let mut projects: Vec<DetectedProject> = Vec::new();
    let n = t.entries.len();
    let mut i: usize = 0;
    while i < n
        invariant
            n == t.entries@.len(),
            i <= n,
            projects@.map_values(|p: DetectedProject| p@) =~= spec_scan_workspace_deep_of(
                t@,
                t@.entries.subrange(0, i as int),
                max_depth,
            ),
        decreases n - i,
    {
        proof {
            assert(t@.entries.subrange(0, i + 1).drop_last() =~= t@.entries.subrange(0, i as int));
            assert(t@.entries.subrange(0, i + 1).last() == t@.entries[i as int]);
            assert(t@.entries[i as int].path == t.entries@[i as int].path@);
            assert(t@.entries[i as int].is_dir == t.entries@[i as int].is_dir);
        }
        let e = &t.entries[i];
        if e.is_dir {
            let pch = crate::text::chars_of(e.path.as_str());
            if crate::package_manager::top_level(&pch) {
                let sub = t.subtree(e.path.as_str());
                if !skipped_name(&sub.name) && is_valid_project(&sub) {
                    let ghost pre = projects@.map_values(|p: DetectedProject| p@);
                    let scanned = scan_project_deep(&sub, max_depth);
                    projects.push(scanned);
                    proof {
                        assert(projects@.map_values(|p: DetectedProject| p@) =~= pre.push(
                            spec_scan_project(spec_subtree(t@, e.path@), max_depth),
                        ));
                    }
                }
            }
        }
        proof {
            assert(projects@.map_values(|p: DetectedProject| p@) =~= spec_scan_workspace_deep_of(
                t@,
                t@.entries.subrange(0, i + 1),
                max_depth,
            ));
        }
        i = i + 1;
    }
    proof {
        assert(t@.entries.subrange(0, n as int) =~= t@.entries);
    }
    projects
}


/// Compose-overlay deduplication: the overlay keeps the detected services
/// untouched, and every service it appends shares neither its relative
/// path nor its container-service name with any service before it — a
/// compose service matching an already-detected workspace member never
/// yields a second entry for that path.
pub proof fn lemma_overlay_docker_no_duplicate(ss: Seq<ServiceView>, ds: Seq<ServiceView>)
    ensures
        ss.len() <= spec_overlay_docker(ss, ds).len(),
        forall|i: int|
            0 <= i < ss.len() ==> #[trigger] spec_overlay_docker(ss, ds)[i] == ss[i],
        forall|j: int, i: int|
            ss.len() <= j < spec_overlay_docker(ss, ds).len() && 0 <= i < j ==> !((
            #[trigger] spec_overlay_docker(ss, ds)[i]).relative_path == (
            #[trigger] spec_overlay_docker(ss, ds)[j]).relative_path || spec_overlay_docker(
                ss,
                ds,
            )[i].docker_service_name == spec_overlay_docker(ss, ds)[j].docker_service_name),
    decreases ds.len(),
{
    if ds.len() > 0 {
        lemma_overlay_docker_no_duplicate(ss, ds.drop_last());
        let grown = spec_overlay_docker(ss, ds.drop_last());
        let whole = spec_overlay_docker(ss, ds);
        if spec_docker_dup(grown, ds.last()) {
        } else {
            assert(forall|i: int| 0 <= i < grown.len() ==> #[trigger] whole[i] == grown[i]);
            assert(whole[whole.len() - 1] == ds.last());
            assert(forall|i: int|
                0 <= i < grown.len() ==> !((#[trigger] grown[i]).relative_path == ds.last().relative_path
                    || grown[i].docker_service_name == ds.last().docker_service_name));
        }
    }
}
} // verus!
