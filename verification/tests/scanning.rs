//! End-to-end scans of whole fixtures: the desktop-shell decomposition,
//! the single-unit scan, the compose overlay and its deduplication.

use warden::docker_compose::{DockerBuild, DockerCompose, DockerService};
use warden::fstree::{DirManifests, DirTree, FileNode};
use warden::models::{Framework, PackageManager, ServiceCategory};
use warden::package_json::{PackageJson, WorkspacesConfig};
use warden::project_scanner::{scan_project_deep, scan_workspace, ProjectType};
use warden::tauri_conf::{TauriBuild, TauriConf};

fn file(path: &str, content: &str) -> FileNode {
    FileNode { path: path.to_string(), is_dir: false, content: content.to_string() }
}

fn dir(path: &str) -> FileNode {
    FileNode { path: path.to_string(), is_dir: true, content: String::new() }
}

#[test]
fn react_vite_single_unit() {
    // A directory whose only manifest names react and a dev script with a
    // port flag: one frontend service on that port, run with npm syntax.
    let mut pkg = PackageJson::default();
    pkg.dependencies.push(("react".to_string(), "^18.0.0".to_string()));
    pkg.scripts.push(("dev".to_string(), "vite --port 3001".to_string()));
    let mut root = DirManifests::empty(String::new());
    root.package_json = Some(pkg);
    let t = DirTree {
        name: "webapp".to_string(),
        path: "/work/webapp".to_string(),
        entries: vec![file("package.json", "{}")],
        manifests: vec![root],
    };
    let project = scan_project_deep(&t, 1);
    assert!(!project.is_tauri);
    assert!(!project.is_monorepo);
    assert_eq!(project.services.len(), 1);
    let s = &project.services[0];
    assert_eq!(s.framework, Framework::React);
    assert_eq!(s.category, ServiceCategory::Frontend);
    assert_eq!(s.port, Some(3001));
    assert_eq!(s.package_manager, PackageManager::Npm);
    assert_eq!(s.dev_command, Some("npm run dev".to_string()));
    assert_eq!(s.stack, "react");
    assert_eq!(s.relative_path, ".");
}

#[test]
fn tauri_two_service_decomposition() {
    // A desktop-shell root yields exactly two services, whatever workspace
    // or container markers also sit there.
    let conf = TauriConf {
        product_name: Some("desk".to_string()),
        version: None,
        identifier: None,
        build: Some(TauriBuild {
            before_dev_command: Some("npm run dev".to_string()),
            before_build_command: Some("npm run build".to_string()),
            dev_url: Some("http://localhost:1420".to_string()),
            frontend_dist: None,
        }),
        app: None,
        bundle: None,
    };
    let mut pkg = PackageJson::default();
    pkg.dependencies.push(("react".to_string(), "^18".to_string()));
    pkg.workspaces = Some(WorkspacesConfig::Array(vec!["packages/*".to_string()]));
    let mut root = DirManifests::empty(String::new());
    root.package_json = Some(pkg);
    root.tauri_conf = Some(conf);
    let t = DirTree {
        name: "desk".to_string(),
        path: "/work/desk".to_string(),
        entries: vec![
            file("package.json", "{}"),
            dir("src-tauri"),
            file("src-tauri/tauri.conf.json", "{}"),
            file("turbo.json", "{}"),
            file("docker-compose.yml", ""),
        ],
        manifests: vec![root],
    };
    let project = scan_project_deep(&t, 3);
    assert!(project.is_tauri);
    assert!(!project.is_monorepo);
    assert_eq!(project.services.len(), 2);
    let frontend = &project.services[0];
    assert_eq!(frontend.name, "frontend");
    assert_eq!(frontend.category, ServiceCategory::Frontend);
    assert_eq!(frontend.framework, Framework::React);
    assert_eq!(frontend.port, Some(1420));
    assert_eq!(frontend.dev_command, Some("npm run dev".to_string()));
    let backend = &project.services[1];
    assert_eq!(backend.name, "tauri");
    assert_eq!(backend.category, ServiceCategory::Desktop);
    assert_eq!(backend.framework, Framework::Tauri);
    assert_eq!(backend.port, None);
    assert_eq!(backend.dev_command, Some("cargo tauri dev".to_string()));
    assert_eq!(backend.build_command, Some("cargo tauri build".to_string()));
    assert_eq!(backend.relative_path, "src-tauri");
}

#[test]
fn compose_overlay_deduplicates_members() {
    // The compose file declares a service whose build context is an
    // already-detected workspace member: no second entry appears for it.
    let mut pkg = PackageJson::default();
    pkg.workspaces = Some(WorkspacesConfig::Array(vec!["packages/*".to_string()]));
    let mut web = DockerService::default();
    web.build = Some(DockerBuild::Simple("packages/app1".to_string()));
    let mut db = DockerService::default();
    db.image = Some("postgres:16".to_string());
    let mut extra = DockerService::default();
    extra.image = Some("node:20".to_string());
    extra.ports.push("8088:3000".to_string());
    let compose = DockerCompose {
        version: None,
        services: vec![
            ("app1".to_string(), web),
            ("db".to_string(), db),
            ("worker-extra".to_string(), extra),
        ],
    };
    let mut root = DirManifests::empty(String::new());
    root.package_json = Some(pkg);
    root.docker_compose = Some(compose);
    let t = DirTree {
        name: "mono".to_string(),
        path: "/work/mono".to_string(),
        entries: vec![
            file("package.json", "{}"),
            file("docker-compose.yml", ""),
            dir("packages"),
            dir("packages/app1"),
            file("packages/app1/package.json", "{}"),
        ],
        manifests: vec![root],
    };
    let project = scan_project_deep(&t, 1);
    assert!(project.is_monorepo);
    assert!(project.has_docker_compose);
    // One member unit plus one non-duplicate docker unit; the database
    // container and the duplicate context are both dropped.
    assert_eq!(project.services.len(), 2);
    let count_app1 = project
        .services
        .iter()
        .filter(|s| s.relative_path == "packages/app1")
        .count();
    assert_eq!(count_app1, 1);
    let docker = &project.services[1];
    assert!(docker.is_docker_service);
    assert_eq!(docker.docker_service_name, Some("worker-extra".to_string()));
    assert_eq!(docker.category, ServiceCategory::Worker);
    assert_eq!(docker.port, Some(8088));
    assert_eq!(docker.framework, Framework::Node);
}

#[test]
fn shallow_workspace_scan() {
    let t = DirTree {
        name: "ws".to_string(),
        path: "/work/ws".to_string(),
        entries: vec![
            dir("api"),
            file("api/composer.json", "{}"),
            dir("ui"),
            file("ui/package.json", "{}"),
            dir("node_modules"),
            file("node_modules/x", ""),
            dir("notes"),
        ],
        manifests: Vec::new(),
    };
    let projects = scan_workspace(&t);
    assert_eq!(projects.len(), 2);
    assert_eq!(projects[0].name, "api");
    assert!(matches!(projects[0].project_type, ProjectType::Php));
    assert_eq!(projects[1].name, "ui");
    assert!(matches!(projects[1].project_type, ProjectType::Node));
    assert_eq!(projects[0].path, "/work/ws/api");
}

#[test]
fn django_defaults_without_node_manifest() {
    let t = DirTree {
        name: "srv".to_string(),
        path: "/work/srv".to_string(),
        entries: vec![file("manage.py", ""), file("requirements.txt", "django==5.0")],
        manifests: Vec::new(),
    };
    let project = scan_project_deep(&t, 1);
    assert_eq!(project.services.len(), 1);
    let s = &project.services[0];
    assert_eq!(s.framework, Framework::Django);
    assert_eq!(s.category, ServiceCategory::Backend);
    assert_eq!(s.port, Some(8000));
    assert_eq!(s.dev_command, Some("python manage.py runserver".to_string()));
    assert_eq!(s.install_command, Some("pip install -r requirements.txt".to_string()));
}
