//! Tests of the manifest queries, the port rules and the classifiers on
//! concrete fixtures.

use warden::docker_compose::{DockerCommand, DockerService};
use warden::fstree::{DirManifests, DirTree, FileNode};
use warden::models::{Framework, PackageManager, ServiceCategory};
use warden::package_json::PackageJson;

fn file(path: &str, content: &str) -> FileNode {
    FileNode { path: path.to_string(), is_dir: false, content: content.to_string() }
}

fn dir(path: &str) -> FileNode {
    FileNode { path: path.to_string(), is_dir: true, content: String::new() }
}

fn tree(name: &str, entries: Vec<FileNode>) -> DirTree {
    DirTree {
        name: name.to_string(),
        path: format!("/work/{}", name),
        entries,
        manifests: Vec::new(),
    }
}

#[test]
fn test_extract_port_from_scripts() {
    let mut pkg = PackageJson::default();
    pkg.scripts.push(("dev".to_string(), "vite --port 3001".to_string()));
    assert_eq!(pkg.extract_port_from_scripts(), Some(3001));

    let mut pkg2 = PackageJson::default();
    pkg2.scripts.push(("dev".to_string(), "next dev -p 3002".to_string()));
    assert_eq!(pkg2.extract_port_from_scripts(), Some(3002));
}

#[test]
fn script_ports_below_1024_are_rejected() {
    let mut pkg = PackageJson::default();
    pkg.scripts.push(("dev".to_string(), "serve -p 80".to_string()));
    assert_eq!(pkg.extract_port_from_scripts(), None);
    let mut pkg2 = PackageJson::default();
    pkg2.scripts.push(("start".to_string(), "node server.js --port 9090".to_string()));
    assert_eq!(pkg2.extract_port_from_scripts(), Some(9090));
}

#[test]
fn docker_host_port_rules() {
    let mut d = DockerService::default();
    d.ports.push("3000".to_string());
    assert_eq!(d.get_first_port(), Some(3000));

    let mut d2 = DockerService::default();
    d2.ports.push("8080:3000".to_string());
    assert_eq!(d2.get_first_port(), Some(8080));

    let mut d3 = DockerService::default();
    d3.ports.push("127.0.0.1:8080:3000".to_string());
    assert_eq!(d3.get_first_port(), Some(8080));

    let mut d4 = DockerService::default();
    d4.ports.push("1:2:3:4".to_string());
    assert_eq!(d4.get_first_port(), None);

    let mut d5 = DockerService::default();
    d5.ports.push("70000".to_string());
    assert_eq!(d5.get_first_port(), None);

    let d6 = DockerService::default();
    assert_eq!(d6.get_first_port(), None);
}

#[test]
fn docker_command_string_joins_parts() {
    let mut d = DockerService::default();
    d.command = Some(DockerCommand::Array(vec![
        "npm".to_string(),
        "run".to_string(),
        "dev".to_string(),
    ]));
    assert_eq!(d.get_command_string(), Some("npm run dev".to_string()));
    let mut d2 = DockerService::default();
    d2.command = Some(DockerCommand::Str("cargo run".to_string()));
    assert_eq!(d2.get_command_string(), Some("cargo run".to_string()));
}

#[test]
fn infrastructure_images_are_flagged() {
    let mut d = DockerService::default();
    d.image = Some("Postgres:16".to_string());
    assert!(d.is_database());
    assert!(d.is_infrastructure());
    let mut d2 = DockerService::default();
    d2.image = Some("rabbitmq:3".to_string());
    assert!(d2.is_message_queue());
    let mut d3 = DockerService::default();
    d3.image = Some("node:20".to_string());
    assert!(!d3.is_infrastructure());
}

#[test]
fn env_file_port_floor() {
    // A privileged port in the environment file falls through to the
    // framework default.
    let t = tree(
        "envcase",
        vec![file("package.json", "{}"), file(".env", "PORT=80\n")],
    );
    assert_eq!(warden::port::detect_port(&t, &Framework::Express), Some(3000));
    let t2 = tree(
        "envcase2",
        vec![file("package.json", "{}"), file(".env", "PORT=4500\n")],
    );
    assert_eq!(warden::port::detect_port(&t2, &Framework::Express), Some(4500));
}

#[test]
fn vite_config_port_wins_first() {
    let t = tree(
        "vitecase",
        vec![file("vite.config.ts", "export default { server: { port: 5199 } }")],
    );
    assert_eq!(warden::port::detect_port(&t, &Framework::Vite), Some(5199));
}

#[test]
fn laravel_beats_generic_php() {
    // An `artisan` marker resolves to Laravel even when the composer
    // manifest names no Laravel dependency.
    let t = tree(
        "shop",
        vec![file("artisan", ""), file("composer.json", "{\"require\":{}}")],
    );
    let fw = warden::framework::detect_framework(&t, None, None);
    assert_eq!(fw, Framework::Laravel);
    assert_eq!(fw.to_stack(), "laravel");
}

#[test]
fn framework_tables_are_total() {
    assert_eq!(Framework::React.to_stack(), "react");
    assert_eq!(Framework::React.default_port(), Some(3000));
    assert_eq!(Framework::Vue.default_port(), Some(5173));
    assert_eq!(Framework::Laravel.default_port(), Some(8000));
    assert_eq!(Framework::Tauri.default_port(), None);
    assert_eq!(Framework::Tauri.to_stack(), "rust");
    assert_eq!(Framework::Unknown.to_stack(), "");
    assert_eq!(Framework::Unknown.default_port(), None);
    assert_eq!(PackageManager::Npm.run_prefix(), "npm run");
    assert_eq!(PackageManager::Npm.install_command(), "npm install");
    assert_eq!(PackageManager::Unknown.run_prefix(), "");
    assert_eq!(PackageManager::Unknown.install_command(), "");
}

#[test]
fn package_manager_priority() {
    let t = tree("a", vec![file("yarn.lock", ""), file("package.json", "{}")]);
    assert_eq!(warden::package_manager::detect_package_manager(&t), PackageManager::Yarn);
    let t2 = tree(
        "b",
        vec![file("yarn.lock", ""), file(".yarnrc.yml", ""), file("package.json", "{}")],
    );
    assert_eq!(warden::package_manager::detect_package_manager(&t2), PackageManager::YarnBerry);
    let t3 = tree(
        "c",
        vec![file("pyproject.toml", "[tool.poetry]\nname = \"x\"")],
    );
    assert_eq!(warden::package_manager::detect_package_manager(&t3), PackageManager::Poetry);
    let t4 = tree("d", vec![file("pyproject.toml", "[project]")]);
    assert_eq!(warden::package_manager::detect_package_manager(&t4), PackageManager::Unknown);
    let t5 = tree("e", vec![file("package.json", "{}")]);
    assert_eq!(warden::package_manager::detect_package_manager(&t5), PackageManager::Npm);
}

#[test]
fn meta_framework_category_probes() {
    let with_api = tree("site", vec![dir("pages/api")]);
    assert_eq!(
        warden::service_type::detect_service_category(&with_api, &Framework::NextJs),
        ServiceCategory::Fullstack
    );
    let without = tree("site2", vec![dir("pages")]);
    assert_eq!(
        warden::service_type::detect_service_category(&without, &Framework::NextJs),
        ServiceCategory::Frontend
    );
    assert_eq!(
        warden::service_type::detect_service_category(&without, &Framework::Express),
        ServiceCategory::Backend
    );
}

#[test]
fn dependency_queries() {
    let mut pkg = PackageJson::default();
    pkg.dependencies.push(("react".to_string(), "^18".to_string()));
    pkg.dev_dependencies.push(("vite".to_string(), "^5".to_string()));
    assert!(pkg.has_dependency("react"));
    assert!(pkg.has_dependency("vite"));
    assert!(!pkg.has_dependency("vue"));
    assert!(pkg.has_dependency_matching("act"));
    assert!(!pkg.has_dependency_matching("angular"));
    assert!(pkg.is_frontend());
    assert!(!pkg.is_backend());
}

#[test]
fn run_command_wrapping() {
    assert_eq!(
        warden::package_manager::get_run_command(&PackageManager::Npm, "dev"),
        "npm run dev"
    );
    assert_eq!(
        warden::package_manager::get_run_command(&PackageManager::Pnpm, "build"),
        "pnpm build"
    );
    assert_eq!(
        warden::package_manager::get_run_command(&PackageManager::Cargo, "check"),
        "check"
    );
}

#[test]
fn tauri_conf_dev_port() {
    let conf = warden::tauri_conf::TauriConf {
        product_name: Some("app".to_string()),
        version: None,
        identifier: None,
        build: Some(warden::tauri_conf::TauriBuild {
            before_dev_command: Some("npm run dev".to_string()),
            before_build_command: Some("npm run build".to_string()),
            dev_url: Some("http://localhost:1420".to_string()),
            frontend_dist: None,
        }),
        app: None,
        bundle: None,
    };
    assert_eq!(conf.get_dev_port(), Some(1420));
    assert_eq!(conf.get_dev_url(), Some("http://localhost:1420".to_string()));
}

#[test]
fn monorepo_detection_and_members() {
    let mut manifests = Vec::new();
    let mut pkg = PackageJson::default();
    pkg.workspaces = Some(warden::package_json::WorkspacesConfig::Array(vec![
        "packages/*".to_string(),
    ]));
    let mut root = DirManifests::empty(String::new());
    root.package_json = Some(pkg);
    manifests.push(root);
    let t = DirTree {
        name: "mono".to_string(),
        path: "/work/mono".to_string(),
        entries: vec![
            file("package.json", "{}"),
            dir("packages"),
            dir("packages/app1"),
            file("packages/app1/package.json", "{}"),
            dir("packages/junk"),
        ],
        manifests,
    };
    let info = warden::monorepo::detect_monorepo(&t).expect("workspace expected");
    assert_eq!(info.tool, warden::models::MonorepoTool::NpmWorkspaces);
    assert_eq!(info.workspace_paths, vec!["packages/app1".to_string()]);
}
