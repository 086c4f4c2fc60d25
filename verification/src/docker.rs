//! Extraction of detected services from a compose file: infrastructure
//! containers are dropped, and each remaining service is categorized from
//! its name and image.

use vstd::prelude::*;
use vstd::string::StringExecFns;
use crate::docker_compose::{
    spec_build_context, spec_command_string, spec_first_port, spec_is_infrastructure,
    DockerService, DockerServiceView,
};
use crate::fstree::{spec_has_path, spec_root_compose, DirTree, DirTreeView};
use crate::models::{
    spec_new_service, DetectedService, Framework, PackageManager, ServiceCategory, ServiceView,
};
use crate::text::{chars_contain, chars_of, lower_seq, lower_vec, seq_contains};

verus! {

/// The category a service name suggests: frontend-, backend- or
/// worker-flavoured words, with plain `Docker` as the fallback.
pub open spec fn spec_name_category(name: Seq<char>) -> ServiceCategory {
    let low = lower_seq(name);
    if seq_contains(low, "frontend"@) || seq_contains(low, "web"@) || seq_contains(low, "client"@)
        || seq_contains(low, "ui"@) {
        ServiceCategory::Frontend
    } else if seq_contains(low, "backend"@) || seq_contains(low, "api"@) || seq_contains(
        low,
        "server"@,
    ) || seq_contains(low, "service"@) {
        ServiceCategory::Backend
    } else if seq_contains(low, "worker"@) || seq_contains(low, "job"@) || seq_contains(
        low,
        "queue"@,
    ) {
        ServiceCategory::Worker
    } else {
        ServiceCategory::Docker
    }
}

/// What the image name decides: the runtime framework and stack, and for
/// a static-file server a frontend category.
pub open spec fn spec_image_framework(img: Seq<char>) -> Option<(Framework, Seq<char>)> {
    let low = lower_seq(img);
    if seq_contains(low, "node"@) {
        Some((Framework::Node, "node"@))
    } else if seq_contains(low, "python"@) {
        Some((Framework::Python, "django"@))
    } else if seq_contains(low, "php"@) {
        Some((Framework::Php, "php"@))
    } else if seq_contains(low, "ruby"@) {
        Some((Framework::Ruby, "rails"@))
    } else if seq_contains(low, "golang"@) || seq_contains(low, "go:"@) {
        Some((Framework::Go, "go"@))
    } else if seq_contains(low, "rust"@) {
        Some((Framework::Rust, "rust"@))
    } else {
        None
    }
}

/// The image is a plain web server for static files.
pub open spec fn spec_image_is_nginx(img: Seq<char>) -> bool {
    seq_contains(lower_seq(img), "nginx"@)
}

/// The detected service one compose service yields.
pub open spec fn spec_docker_service(
    t: DirTreeView,
    name: Seq<char>,
    d: DockerServiceView,
) -> ServiceView {
    let relative = match spec_build_context(d) {
        Some(ctx) => ctx,
        None => "."@,
    };
    let path = match spec_build_context(d) {
        Some(ctx) => t.path + "/"@ + ctx,
        None => t.path,
    };
    let name_cat = spec_name_category(name);
    let base = spec_new_service(name, path, relative);
    let with_image = match d.image {
        Some(img) => if spec_image_framework(img) is Some {
            let fs = spec_image_framework(img).unwrap();
            ServiceView { category: name_cat, framework: fs.0, stack: fs.1, ..base }
        } else if spec_image_is_nginx(img) {
            ServiceView {
                category: ServiceCategory::Frontend,
                framework: Framework::Unknown,
                stack: "other"@,
                ..base
            }
        } else {
            ServiceView { category: name_cat, ..base }
        },
        None => ServiceView { category: name_cat, ..base },
    };
    ServiceView {
        is_docker_service: true,
        docker_service_name: Some(name),
        port: spec_first_port(d),
        dev_command: spec_command_string(d),
        ..with_image
    }
}

/// The services a compose list yields, in file order, infrastructure
/// containers dropped.
pub open spec fn spec_docker_services_of(
    t: DirTreeView,
    ss: Seq<(Seq<char>, DockerServiceView)>,
) -> Seq<ServiceView>
    decreases ss.len(),
{
    if ss.len() == 0 {
        Seq::empty()
    } else {
        let init = spec_docker_services_of(t, ss.drop_last());
        let last = ss.last();
        if spec_is_infrastructure(last.1) {
            init
        } else {
            init.push(spec_docker_service(t, last.0, last.1))
        }
    }
}

/// The detected services of the snapshot's compose file.
pub open spec fn spec_detect_docker_services(t: DirTreeView) -> Seq<ServiceView> {
    match spec_root_compose(t) {
        Some(dc) => spec_docker_services_of(t, dc.services),
        None => Seq::empty(),
    }
}

/// Detect services from the compose file at the root of the snapshot,
/// skipping infrastructure containers.
pub fn detect_docker_services(t: &DirTree) -> (r: Vec<DetectedService>)
    ensures
        r@.map_values(|s: DetectedService| s@) == spec_detect_docker_services(t@),
{
    let mut services: Vec<DetectedService> = Vec::new();
    match t.root_compose() {
        Some(compose) => {
            let ghost ss = spec_root_compose(t@).unwrap().services;
            let n = compose.services.len();
            let mut i: usize = 0;
            while i < n
                invariant
                    n == compose.services@.len(),
                    ss == compose@.services,
                    ss.len() == n,
                    i <= n,
                    services@.map_values(|s: DetectedService| s@) =~= spec_docker_services_of(
                        t@,
                        ss.subrange(0, i as int),
                    ),
                decreases n - i,
            {
                proof {
                    assert(ss.subrange(0, i + 1).drop_last() =~= ss.subrange(0, i as int));
                    assert(ss.subrange(0, i + 1).last() == ss[i as int]);
                    assert(ss[i as int].0 == compose.services@[i as int].0@);
                    assert(ss[i as int].1 == compose.services@[i as int].1@);
                }
                let (name, ds) = &compose.services[i];
                if !ds.is_infrastructure() {
                    let svc = docker_service_to_detected(t, name, ds);
                    services.push(svc);
                }
                proof {
                    assert(services@.map_values(|s: DetectedService| s@) =~= spec_docker_services_of(
                        t@,
                        ss.subrange(0, i + 1),
                    ));
                }
                i = i + 1;
            }
            proof {
                assert(ss.subrange(0, n as int) =~= ss);
            }
            services
        },
        None => services,
    }
}

/// Convert one compose service to a detected service.
fn docker_service_to_detected(t: &DirTree, name: &String, ds: &DockerService) -> (r:
    DetectedService)
    ensures
        r@ == spec_docker_service(t@, name@, ds@),
{
    let (path, relative) = match ds.get_build_context() {
        Some(ctx) => {
            let mut p = t.path.clone();
            p.append("/");
            p.append(ctx.as_str());
            (p, ctx)
        },
        None => (t.path.clone(), String::from_str(".")),
    };
    let mut service = DetectedService::new(name.clone(), path, relative);
    service.is_docker_service = true;
    service.docker_service_name = Some(name.clone());
    service.framework = Framework::Unknown;
    service.package_manager = PackageManager::Unknown;
    service.port = ds.get_first_port();
    service.dev_command = ds.get_command_string();
    let name_chars = chars_of(name.as_str());
    let name_low = lower_vec(&name_chars);
    let name_cat = if low_has(&name_low, "frontend") || low_has(&name_low, "web") || low_has(
        &name_low,
        "client",
    ) || low_has(&name_low, "ui") {
        ServiceCategory::Frontend
    } else if low_has(&name_low, "backend") || low_has(&name_low, "api") || low_has(
        &name_low,
        "server",
    ) || low_has(&name_low, "service") {
        ServiceCategory::Backend
    } else if low_has(&name_low, "worker") || low_has(&name_low, "job") || low_has(
        &name_low,
        "queue",
    ) {
        ServiceCategory::Worker
    } else {
        ServiceCategory::Docker
    };
    service.category = name_cat;
    match &ds.image {
        Some(image) => {
            let img_chars = chars_of(image.as_str());
            let img_low = lower_vec(&img_chars);
            if low_has(&img_low, "node") {
                service.framework = Framework::Node;
                service.stack = String::from_str("node");
            } else if low_has(&img_low, "python") {
                service.framework = Framework::Python;
                service.stack = String::from_str("django");
            } else if low_has(&img_low, "php") {
                service.framework = Framework::Php;
                service.stack = String::from_str("php");
            } else if low_has(&img_low, "ruby") {
                service.framework = Framework::Ruby;
                service.stack = String::from_str("rails");
            } else if low_has(&img_low, "golang") || low_has(&img_low, "go:") {
                service.framework = Framework::Go;
                service.stack = String::from_str("go");
            } else if low_has(&img_low, "rust") {
                service.framework = Framework::Rust;
                service.stack = String::from_str("rust");
            } else if low_has(&img_low, "nginx") {
                service.category = ServiceCategory::Frontend;
                service.framework = Framework::Unknown;
                service.stack = String::from_str("other");
            }
        },
        None => {},
    }
    proof {
        reveal_strlit(".");
        reveal_strlit("");
    }
    service
}

/// Does the lowercased text contain the needle?
fn low_has(low: &Vec<char>, needle: &str) -> (r: bool)
    ensures
        r == seq_contains(low@, needle@),
{
    let nd = chars_of(needle);
    chars_contain(low, &nd)
}

/// Check if the project has any container configuration.
pub fn has_docker(t: &DirTree) -> (r: bool)
    ensures
        r == spec_has_docker(t@),
{
    t.has_path("Dockerfile") || t.has_path("dockerfile") || t.has_path("docker-compose.yml")
        || t.has_path("docker-compose.yaml") || t.has_path("compose.yml") || t.has_path(
        "compose.yaml",
    )
}

/// A container file or a compose file is present.
pub open spec fn spec_has_docker(t: DirTreeView) -> bool {
    spec_has_path(t, "Dockerfile"@) || spec_has_path(t, "dockerfile"@) || spec_has_path(
        t,
        "docker-compose.yml"@,
    ) || spec_has_path(t, "docker-compose.yaml"@) || spec_has_path(t, "compose.yml"@)
        || spec_has_path(t, "compose.yaml"@)
}

/// A compose file under one of its four usual names is present.
pub open spec fn spec_has_compose_file(t: DirTreeView) -> bool {
    spec_has_path(t, "docker-compose.yml"@) || spec_has_path(t, "docker-compose.yaml"@)
        || spec_has_path(t, "compose.yml"@) || spec_has_path(t, "compose.yaml"@)
}

/// Check if the project has a compose file.
pub fn has_docker_compose(t: &DirTree) -> (r: bool)
    ensures
        r == spec_has_compose_file(t@),
{
    t.has_path("docker-compose.yml") || t.has_path("docker-compose.yaml") || t.has_path(
        "compose.yml",
    ) || t.has_path("compose.yaml")
}

/// Get the compose command for running services.
pub fn get_docker_compose_command(service_name: Option<&str>) -> (r: String)
    ensures
        r@ == (match service_name {
            Some(name) => "docker compose up "@ + name@,
            None => "docker compose up"@,
        }),
{
    match service_name {
        Some(name) => String::from_str("docker compose up ").concat(name),
        None => String::from_str("docker compose up"),
    }
}

/// Get the compose dev command (with watch and rebuild).
pub fn get_docker_compose_dev_command(service_name: Option<&str>) -> (r: String)
    ensures
        r@ == (match service_name {
            Some(name) => "docker compose up --build --watch "@ + name@,
            None => "docker compose up --build --watch"@,
        }),
{
    match service_name {
        Some(name) => String::from_str("docker compose up --build --watch ").concat(name),
        None => String::from_str("docker compose up --build --watch"),
    }
}

} // verus!
