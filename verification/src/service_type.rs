//! Service-category resolution: a framework-keyed table, with filesystem
//! probes to split the frameworks that can be either a pure frontend or a
//! fullstack application, and a structural heuristic for the generic
//! language fallbacks.

use vstd::prelude::*;
use crate::fstree::{spec_base_name, spec_has_path, spec_root_package_json, DirTree, DirTreeView};
use crate::models::{Framework, ServiceCategory};
use crate::package_json::{spec_is_backend, spec_is_desktop, spec_is_frontend, spec_is_mobile};
use crate::text::{chars_contain, chars_of, seq_contains, seq_starts_with, chars_start_with};

verus! {

/// The number of '/' characters in a path.
pub open spec fn slash_count(p: Seq<char>) -> int
    decreases p.len(),
{
    if p.len() == 0 {
        0
    } else if p.last() == '/' {
        slash_count(p.drop_last()) + 1
    } else {
        slash_count(p.drop_last())
    }
}

/// An entry below `src/routes`, at most five levels deeper, whose name
/// contains `+server`: the marker of a SvelteKit server route.
pub open spec fn spec_has_sveltekit_server_file(t: DirTreeView) -> bool {
    exists|i: int|
        0 <= i < t.entries.len() && seq_starts_with(
            (#[trigger] t.entries[i]).path,
            "src/routes/"@,
        ) && slash_count(t.entries[i].path) <= 6 && seq_contains(
            spec_base_name(t.entries[i].path),
            "+server"@,
        )
}

/// Server-side route markers: meta-framework API directories, or a
/// SvelteKit server file under `src/routes`.
pub open spec fn spec_has_api_routes(t: DirTreeView) -> bool {
    spec_has_path(t, "pages/api"@) || spec_has_path(t, "app/api"@) || spec_has_path(
        t,
        "server/api"@,
    ) || spec_has_path(t, "server/routes"@) || (spec_has_path(t, "src/routes"@)
        && spec_has_sveltekit_server_file(t))
}

/// .NET controller directories.
pub open spec fn spec_has_api_controllers(t: DirTreeView) -> bool {
    spec_has_path(t, "Controllers"@) || spec_has_path(t, "controllers"@)
}

/// A manifest of a conventionally server-side language is present.
pub open spec fn spec_is_server_language(t: DirTreeView) -> bool {
    spec_has_path(t, "go.mod"@) || spec_has_path(t, "Cargo.toml"@) || spec_has_path(
        t,
        "requirements.txt"@,
    ) || spec_has_path(t, "composer.json"@) || spec_has_path(t, "Gemfile"@) || spec_has_path(
        t,
        "pom.xml"@,
    ) || spec_has_path(t, "build.gradle"@) || spec_has_path(t, "mix.exs"@)
}

/// Frontend-shaped paths.
pub open spec fn spec_has_frontend_structure(t: DirTreeView) -> bool {
    spec_has_path(t, "src/components"@) || spec_has_path(t, "src/pages"@) || spec_has_path(
        t,
        "src/views"@,
    ) || spec_has_path(t, "src/App.tsx"@) || spec_has_path(t, "src/App.vue"@) || spec_has_path(
        t,
        "src/App.jsx"@,
    ) || spec_has_path(t, "src/main.tsx"@) || spec_has_path(t, "src/main.ts"@) || spec_has_path(
        t,
        "public/index.html"@,
    ) || spec_has_path(t, "index.html"@)
}

/// Backend-shaped paths.
pub open spec fn spec_has_backend_structure(t: DirTreeView) -> bool {
    spec_has_path(t, "src/controllers"@) || spec_has_path(t, "src/routes"@) || spec_has_path(
        t,
        "src/api"@,
    ) || spec_has_path(t, "src/services"@) || spec_has_path(t, "src/repositories"@)
        || spec_has_path(t, "src/models"@) || spec_has_path(t, "src/handlers"@) || spec_has_path(
        t,
        "src/middleware"@,
    ) || spec_has_path(t, "app/controllers"@) || spec_has_path(t, "app/models"@) || spec_has_path(
        t,
        "config/routes.rb"@,
    )
}

/// The structural heuristic for frameworks with no inherent category:
/// manifest dependency buckets first, then directory shape, then the
/// server-side-language default.
pub open spec fn spec_detect_from_structure(t: DirTreeView) -> ServiceCategory {
    let from_pkg = match spec_root_package_json(t) {
        Some(pkg) => if spec_is_frontend(pkg) && spec_is_backend(pkg) {
            Some(ServiceCategory::Fullstack)
        } else if spec_is_frontend(pkg) {
            Some(ServiceCategory::Frontend)
        } else if spec_is_backend(pkg) {
            Some(ServiceCategory::Backend)
        } else if spec_is_desktop(pkg) {
            Some(ServiceCategory::Desktop)
        } else if spec_is_mobile(pkg) {
            Some(ServiceCategory::Mobile)
        } else {
            None
        },
        None => None,
    };
    match from_pkg {
        Some(cat) => cat,
        None => {
            let has_frontend = spec_has_frontend_structure(t);
            let has_backend = spec_has_backend_structure(t);
            if has_frontend && has_backend {
                ServiceCategory::Fullstack
            } else if has_frontend {
                ServiceCategory::Frontend
            } else if has_backend {
                ServiceCategory::Backend
            } else if spec_is_server_language(t) {
                ServiceCategory::Backend
            } else {
                ServiceCategory::Unknown
            }
        },
    }
}

/// The category of a framework in this snapshot: the table, with probes
/// for the frameworks that swing between frontend and fullstack.
pub open spec fn spec_detect_service_category(t: DirTreeView, f: Framework) -> ServiceCategory {
    match f {
        Framework::Tauri | Framework::Electron | Framework::Neutralino => ServiceCategory::Desktop,
        Framework::ReactNative
        | Framework::Flutter
        | Framework::Expo
        | Framework::Ionic
        | Framework::Capacitor => ServiceCategory::Mobile,
        Framework::Express
        | Framework::Fastify
        | Framework::Koa
        | Framework::Hapi
        | Framework::NestJs
        | Framework::AdonisJs
        | Framework::Strapi
        | Framework::Django
        | Framework::Flask
        | Framework::FastApi
        | Framework::Pyramid
        | Framework::Tornado
        | Framework::Laravel
        | Framework::Symfony
        | Framework::CodeIgniter
        | Framework::Yii
        | Framework::CakePHP
        | Framework::Rails
        | Framework::Sinatra
        | Framework::Hanami
        | Framework::Gin
        | Framework::Echo
        | Framework::Fiber
        | Framework::Chi
        | Framework::Beego
        | Framework::ActixWeb
        | Framework::Axum
        | Framework::Rocket
        | Framework::Warp
        | Framework::Tide
        | Framework::Spring
        | Framework::Quarkus
        | Framework::Micronaut
        | Framework::Ktor
        | Framework::AspNetCore => ServiceCategory::Backend,
        Framework::NextJs | Framework::NuxtJs | Framework::Remix | Framework::SvelteKit => if
        spec_has_api_routes(t) {
            ServiceCategory::Fullstack
        } else {
            ServiceCategory::Frontend
        },
        Framework::React
        | Framework::Vue
        | Framework::Angular
        | Framework::Svelte
        | Framework::Solid
        | Framework::Preact
        | Framework::Qwik
        | Framework::Astro
        | Framework::Gatsby => ServiceCategory::Frontend,
        Framework::Vite
        | Framework::Webpack
        | Framework::Parcel
        | Framework::Esbuild
        | Framework::Turbopack => spec_detect_from_structure(t),
        Framework::WordPress | Framework::Drupal | Framework::GhostCms => ServiceCategory::Backend,
        Framework::Blazor => if spec_has_api_controllers(t) {
            ServiceCategory::Fullstack
        } else {
            ServiceCategory::Frontend
        },
        Framework::Node
        | Framework::Bun
        | Framework::Deno
        | Framework::Rust
        | Framework::Python
        | Framework::Php
        | Framework::Go
        | Framework::Ruby
        | Framework::Java
        | Framework::Kotlin
        | Framework::CSharp
        | Framework::Elixir => spec_detect_from_structure(t),
        Framework::Unknown => ServiceCategory::Unknown,
    }
}

/// Determine the service category based on framework and project
/// structure.
pub fn detect_service_category(t: &DirTree, framework: &Framework) -> (r: ServiceCategory)
    ensures
        r == spec_detect_service_category(t@, *framework),
{
    match framework {
        Framework::Tauri | Framework::Electron | Framework::Neutralino => ServiceCategory::Desktop,
        Framework::ReactNative
        | Framework::Flutter
        | Framework::Expo
        | Framework::Ionic
        | Framework::Capacitor => ServiceCategory::Mobile,
        Framework::Express
        | Framework::Fastify
        | Framework::Koa
        | Framework::Hapi
        | Framework::NestJs
        | Framework::AdonisJs
        | Framework::Strapi
        | Framework::Django
        | Framework::Flask
        | Framework::FastApi
        | Framework::Pyramid
        | Framework::Tornado
        | Framework::Laravel
        | Framework::Symfony
        | Framework::CodeIgniter
        | Framework::Yii
        | Framework::CakePHP
        | Framework::Rails
        | Framework::Sinatra
        | Framework::Hanami
        | Framework::Gin
        | Framework::Echo
        | Framework::Fiber
        | Framework::Chi
        | Framework::Beego
        | Framework::ActixWeb
        | Framework::Axum
        | Framework::Rocket
        | Framework::Warp
        | Framework::Tide
        | Framework::Spring
        | Framework::Quarkus
        | Framework::Micronaut
        | Framework::Ktor
        | Framework::AspNetCore => ServiceCategory::Backend,
        Framework::NextJs | Framework::NuxtJs | Framework::Remix | Framework::SvelteKit => {
            if has_api_routes(t) {
                ServiceCategory::Fullstack
            } else {
                ServiceCategory::Frontend
            }
        },
        Framework::React
        | Framework::Vue
        | Framework::Angular
        | Framework::Svelte
        | Framework::Solid
        | Framework::Preact
        | Framework::Qwik
        | Framework::Astro
        | Framework::Gatsby => ServiceCategory::Frontend,
        Framework::Vite
        | Framework::Webpack
        | Framework::Parcel
        | Framework::Esbuild
        | Framework::Turbopack => detect_from_project_structure(t),
        Framework::WordPress | Framework::Drupal | Framework::GhostCms => ServiceCategory::Backend,
        Framework::Blazor => {
            if has_api_controllers(t) {
                ServiceCategory::Fullstack
            } else {
                ServiceCategory::Frontend
            }
        },
        Framework::Node
        | Framework::Bun
        | Framework::Deno
        | Framework::Rust
        | Framework::Python
        | Framework::Php
        | Framework::Go
        | Framework::Ruby
        | Framework::Java
        | Framework::Kotlin
        | Framework::CSharp
        | Framework::Elixir => detect_from_project_structure(t),
        Framework::Unknown => ServiceCategory::Unknown,
    }
}

/// Detect service type from project structure when the framework does not
/// pin it down.
fn detect_from_project_structure(t: &DirTree) -> (r: ServiceCategory)
    ensures
        r == spec_detect_from_structure(t@),
{
    if let Some(pkg) = t.root_package_json() {
        let fe = pkg.is_frontend();
        let be = pkg.is_backend();
        if fe && be {
            return ServiceCategory::Fullstack;
        }
        if fe {
            return ServiceCategory::Frontend;
        }
        if be {
            return ServiceCategory::Backend;
        }
        if pkg.is_desktop() {
            return ServiceCategory::Desktop;
        }
        if pkg.is_mobile() {
            return ServiceCategory::Mobile;
        }
    }
    let has_frontend = t.has_path("src/components") || t.has_path("src/pages") || t.has_path(
        "src/views",
    ) || t.has_path("src/App.tsx") || t.has_path("src/App.vue") || t.has_path("src/App.jsx")
        || t.has_path("src/main.tsx") || t.has_path("src/main.ts") || t.has_path(
        "public/index.html",
    ) || t.has_path("index.html");
    let has_backend = t.has_path("src/controllers") || t.has_path("src/routes") || t.has_path(
        "src/api",
    ) || t.has_path("src/services") || t.has_path("src/repositories") || t.has_path("src/models")
        || t.has_path("src/handlers") || t.has_path("src/middleware") || t.has_path(
        "app/controllers",
    ) || t.has_path("app/models") || t.has_path("config/routes.rb");
    if has_frontend && has_backend {
        ServiceCategory::Fullstack
    } else if has_frontend {
        ServiceCategory::Frontend
    } else if has_backend {
        ServiceCategory::Backend
    } else {
        if is_server_language(t) {
            ServiceCategory::Backend
        } else {
            ServiceCategory::Unknown
        }
    }
}

/// Check if the project has API routes (for the meta-frameworks).
fn has_api_routes(t: &DirTree) -> (r: bool)
    ensures
        r == spec_has_api_routes(t@),
{
    if t.has_path("pages/api") || t.has_path("app/api") || t.has_path("server/api") || t.has_path(
        "server/routes",
    ) {
        return true;
    }
    if t.has_path("src/routes") {
        if has_sveltekit_server_file(t) {
            return true;
        }
    }
    false
}

/// Look for a `+server` file below `src/routes`, a few levels deep.
fn has_sveltekit_server_file(t: &DirTree) -> (r: bool)
    ensures
        r == spec_has_sveltekit_server_file(t@),
{
    let prefix = chars_of("src/routes/");
    let needle = chars_of("+server");
    let n = t.entries.len();
    let mut i: usize = 0;
    while i < n
        invariant
            n == t.entries@.len(),
            prefix@ == "src/routes/"@,
            needle@ == "+server"@,
            i <= n,
            forall|j: int|
                0 <= j < i ==> !(seq_starts_with(
                    (#[trigger] t@.entries[j]).path,
                    "src/routes/"@,
                ) && slash_count(t@.entries[j].path) <= 6 && seq_contains(
                    spec_base_name(t@.entries[j].path),
                    "+server"@,
                )),
        decreases n - i,
    {
        proof {
            assert(t@.entries[i as int].path == t.entries@[i as int].path@);
        }
        let p = chars_of(t.entries[i].path.as_str());
        if chars_start_with(&p, &prefix) && count_slashes_pub(&p) <= 6 {
            let base = crate::fstree::base_name(t.entries[i].path.as_str());
            let bch = chars_of(base.as_str());
            if chars_contain(&bch, &needle) {
                return true;
            }
        }
        i = i + 1;
    }
    false
}

/// The number of '/' characters, at run time.
pub fn count_slashes_pub(p: &Vec<char>) -> (r: usize)
    ensures
        r == slash_count(p@),
{
    let n = p.len();
    let mut i: usize = 0;
    let mut cnt: usize = 0;
    while i < n
        invariant
            n == p@.len(),
            i <= n,
            cnt == slash_count(p@.subrange(0, i as int)),
            cnt <= i,
        decreases n - i,
    {
        proof {
            assert(p@.subrange(0, i + 1).drop_last() =~= p@.subrange(0, i as int));
            assert(p@.subrange(0, i + 1).last() == p@[i as int]);
        }
        if p[i] == '/' {
            cnt = cnt + 1;
        }
        i = i + 1;
    }
    proof {
        assert(p@.subrange(0, n as int) =~= p@);
    }
    cnt
}

/// Check if the project has API controllers (.NET).
fn has_api_controllers(t: &DirTree) -> (r: bool)
    ensures
        r == spec_has_api_controllers(t@),
{
    t.has_path("Controllers") || t.has_path("controllers")
}

/// Check if the language is typically server-side.
fn is_server_language(t: &DirTree) -> (r: bool)
    ensures
        r == spec_is_server_language(t@),
{
    t.has_path("go.mod") || t.has_path("Cargo.toml") || t.has_path("requirements.txt")
        || t.has_path("composer.json") || t.has_path("Gemfile") || t.has_path("pom.xml")
        || t.has_path("build.gradle") || t.has_path("mix.exs")
}

/// Get a human-readable name for the service category.
pub fn category_display_name(category: &ServiceCategory) -> (r: &'static str)
    ensures
        r@ == spec_category_display_name(*category),
{
    match category {
        ServiceCategory::Frontend => "Frontend",
        ServiceCategory::Backend => "Backend",
        ServiceCategory::Fullstack => "Fullstack",
        ServiceCategory::Desktop => "Desktop",
        ServiceCategory::Mobile => "Mobile",
        ServiceCategory::Api => "API",
        ServiceCategory::Worker => "Worker",
        ServiceCategory::Docker => "Docker",
        ServiceCategory::Unknown => "Unknown",
    }
}

/// The display label of each category.
pub open spec fn spec_category_display_name(c: ServiceCategory) -> Seq<char> {
    match c {
        ServiceCategory::Frontend => "Frontend"@,
        ServiceCategory::Backend => "Backend"@,
        ServiceCategory::Fullstack => "Fullstack"@,
        ServiceCategory::Desktop => "Desktop"@,
        ServiceCategory::Mobile => "Mobile"@,
        ServiceCategory::Api => "API"@,
        ServiceCategory::Worker => "Worker"@,
        ServiceCategory::Docker => "Docker"@,
        ServiceCategory::Unknown => "Unknown"@,
    }
}

} // verus!
