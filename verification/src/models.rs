//! The closed enumerations of the classifier — frameworks, package
//! managers, service categories and workspace tools — with their derived
//! property tables, and the detected service / project records.

use vstd::prelude::*;
use vstd::string::StringExecFns;

verus! {

/// Framework detected in the project.
#[derive(Debug, Clone, Copy, PartialEq, Eq, Structural)]
pub enum Framework {
    React,
    Vue,
    Angular,
    Svelte,
    SvelteKit,
    Solid,
    Qwik,
    Preact,
    NextJs,
    NuxtJs,
    Remix,
    Astro,
    Gatsby,
    Vite,
    Webpack,
    Parcel,
    Esbuild,
    Turbopack,
    Express,
    Fastify,
    Koa,
    Hapi,
    NestJs,
    AdonisJs,
    Strapi,
    Django,
    Flask,
    FastApi,
    Pyramid,
    Tornado,
    Laravel,
    Symfony,
    CodeIgniter,
    Yii,
    CakePHP,
    Rails,
    Sinatra,
    Hanami,
    Gin,
    Echo,
    Fiber,
    Chi,
    Beego,
    ActixWeb,
    Axum,
    Rocket,
    Warp,
    Tide,
    Spring,
    Quarkus,
    Micronaut,
    Ktor,
    AspNetCore,
    Blazor,
    Tauri,
    Electron,
    Neutralino,
    ReactNative,
    Flutter,
    Ionic,
    Capacitor,
    Expo,
    WordPress,
    Drupal,
    GhostCms,
    Node,
    Deno,
    Bun,
    Rust,
    Python,
    Php,
    Go,
    Ruby,
    Java,
    Kotlin,
    CSharp,
    Elixir,
    Unknown,
}

/// The stack bucket of each framework.  `Unknown` maps to the empty stack.
pub open spec fn spec_stack(f: Framework) -> Seq<char> {
    match f {
        Framework::React | Framework::Preact => "react"@,
        Framework::Vue => "vue"@,
        Framework::Angular => "angular"@,
        Framework::Svelte | Framework::SvelteKit => "svelte"@,
        Framework::Solid => "react"@,
        Framework::Qwik => "react"@,
        Framework::NextJs => "next"@,
        Framework::NuxtJs => "vue"@,
        Framework::Remix => "react"@,
        Framework::Astro => "node"@,
        Framework::Gatsby => "react"@,
        Framework::Vite
        | Framework::Webpack
        | Framework::Parcel
        | Framework::Esbuild
        | Framework::Turbopack => "node"@,
        Framework::Express | Framework::Fastify | Framework::Koa | Framework::Hapi => "express"@,
        Framework::NestJs => "nestjs"@,
        Framework::AdonisJs | Framework::Strapi => "node"@,
        Framework::Django => "django"@,
        Framework::Flask => "flask"@,
        Framework::FastApi | Framework::Pyramid | Framework::Tornado => "django"@,
        Framework::Laravel => "laravel"@,
        Framework::Symfony | Framework::CodeIgniter | Framework::Yii | Framework::CakePHP => "php"@,
        Framework::Rails => "rails"@,
        Framework::Sinatra | Framework::Hanami => "rails"@,
        Framework::Gin | Framework::Echo | Framework::Fiber | Framework::Chi | Framework::Beego
            => "go"@,
        Framework::ActixWeb
        | Framework::Axum
        | Framework::Rocket
        | Framework::Warp
        | Framework::Tide => "rust"@,
        Framework::Tauri => "rust"@,
        Framework::Spring | Framework::Quarkus | Framework::Micronaut | Framework::Ktor
            => "other"@,
        Framework::AspNetCore | Framework::Blazor => "other"@,
        Framework::Electron | Framework::Neutralino => "node"@,
        Framework::ReactNative | Framework::Expo => "react"@,
        Framework::Flutter => "other"@,
        Framework::Ionic | Framework::Capacitor => "node"@,
        Framework::WordPress | Framework::Drupal => "php"@,
        Framework::GhostCms => "node"@,
        Framework::Node | Framework::Deno | Framework::Bun => "node"@,
        Framework::Rust => "rust"@,
        Framework::Python => "django"@,
        Framework::Php => "php"@,
        Framework::Go => "go"@,
        Framework::Ruby => "rails"@,
        Framework::Java | Framework::Kotlin => "other"@,
        Framework::CSharp => "other"@,
        Framework::Elixir => "other"@,
        Framework::Unknown => ""@,
    }
}

/// The default development port of each framework, when it has one.
/// `Unknown` and the desktop shells have none.
pub open spec fn spec_default_port(f: Framework) -> Option<u16> {
    match f {
        Framework::React | Framework::Preact => Some(3000u16),
        Framework::Vue => Some(5173u16),
        Framework::Angular => Some(4200u16),
        Framework::Svelte | Framework::SvelteKit => Some(5173u16),
        Framework::Solid | Framework::Qwik => Some(5173u16),
        Framework::Vite
        | Framework::Webpack
        | Framework::Parcel
        | Framework::Esbuild
        | Framework::Turbopack => Some(5173u16),
        Framework::NextJs => Some(3000u16),
        Framework::NuxtJs => Some(3000u16),
        Framework::Remix => Some(3000u16),
        Framework::Astro => Some(4321u16),
        Framework::Gatsby => Some(8000u16),
        Framework::Express | Framework::Fastify | Framework::Koa | Framework::Hapi
            => Some(3000u16),
        Framework::NestJs => Some(3000u16),
        Framework::AdonisJs => Some(3333u16),
        Framework::Strapi => Some(1337u16),
        Framework::Django => Some(8000u16),
        Framework::Flask => Some(5000u16),
        Framework::FastApi => Some(8000u16),
        Framework::Pyramid => Some(6543u16),
        Framework::Tornado => Some(8888u16),
        Framework::Laravel => Some(8000u16),
        Framework::Symfony => Some(8000u16),
        Framework::CodeIgniter | Framework::Yii | Framework::CakePHP => Some(8080u16),
        Framework::Rails => Some(3000u16),
        Framework::Sinatra => Some(4567u16),
        Framework::Hanami => Some(2300u16),
        Framework::Gin | Framework::Echo | Framework::Chi | Framework::Beego => Some(8080u16),
        Framework::Fiber => Some(3000u16),
        Framework::ActixWeb | Framework::Axum | Framework::Warp | Framework::Tide
            => Some(8080u16),
        Framework::Rocket => Some(8000u16),
        Framework::Spring | Framework::Quarkus | Framework::Micronaut => Some(8080u16),
        Framework::Ktor => Some(8080u16),
        Framework::AspNetCore => Some(5000u16),
        Framework::Blazor => Some(5000u16),
        Framework::Tauri | Framework::Electron | Framework::Neutralino => None,
        Framework::ReactNative | Framework::Expo => Some(8081u16),
        Framework::Flutter => None,
        Framework::Ionic | Framework::Capacitor => Some(8100u16),
        Framework::WordPress => Some(8080u16),
        Framework::Drupal => Some(8080u16),
        Framework::GhostCms => Some(2368u16),
        Framework::Node | Framework::Deno | Framework::Bun => Some(3000u16),
        Framework::Rust => Some(8080u16),
        Framework::Python => Some(8000u16),
        Framework::Php => Some(8000u16),
        Framework::Go => Some(8080u16),
        Framework::Ruby => Some(3000u16),
        Framework::Java | Framework::Kotlin => Some(8080u16),
        Framework::CSharp => Some(5000u16),
        Framework::Elixir => Some(4000u16),
        Framework::Unknown => None,
    }
}

impl Framework {
    /// Convert framework to a stack string for compatibility.  Total over
    /// every variant and free of panics.
    pub fn to_stack(&self) -> (r: &'static str)
        ensures
            r@ == spec_stack(*self),
    {
        match self {
            Framework::React | Framework::Preact => "react",
            Framework::Vue => "vue",
            Framework::Angular => "angular",
            Framework::Svelte | Framework::SvelteKit => "svelte",
            Framework::Solid => "react",
            Framework::Qwik => "react",
            Framework::NextJs => "next",
            Framework::NuxtJs => "vue",
            Framework::Remix => "react",
            Framework::Astro => "node",
            Framework::Gatsby => "react",
            Framework::Vite
            | Framework::Webpack
            | Framework::Parcel
            | Framework::Esbuild
            | Framework::Turbopack => "node",
            Framework::Express | Framework::Fastify | Framework::Koa | Framework::Hapi
                => "express",
            Framework::NestJs => "nestjs",
            Framework::AdonisJs | Framework::Strapi => "node",
            Framework::Django => "django",
            Framework::Flask => "flask",
            Framework::FastApi | Framework::Pyramid | Framework::Tornado => "django",
            Framework::Laravel => "laravel",
            Framework::Symfony | Framework::CodeIgniter | Framework::Yii | Framework::CakePHP
                => "php",
            Framework::Rails => "rails",
            Framework::Sinatra | Framework::Hanami => "rails",
            Framework::Gin
            | Framework::Echo
            | Framework::Fiber
            | Framework::Chi
            | Framework::Beego => "go",
            Framework::ActixWeb
            | Framework::Axum
            | Framework::Rocket
            | Framework::Warp
            | Framework::Tide => "rust",
            Framework::Tauri => "rust",
            Framework::Spring | Framework::Quarkus | Framework::Micronaut | Framework::Ktor
                => "other",
            Framework::AspNetCore | Framework::Blazor => "other",
            Framework::Electron | Framework::Neutralino => "node",
            Framework::ReactNative | Framework::Expo => "react",
            Framework::Flutter => "other",
            Framework::Ionic | Framework::Capacitor => "node",
            Framework::WordPress | Framework::Drupal => "php",
            Framework::GhostCms => "node",
            Framework::Node | Framework::Deno | Framework::Bun => "node",
            Framework::Rust => "rust",
            Framework::Python => "django",
            Framework::Php => "php",
            Framework::Go => "go",
            Framework::Ruby => "rails",
            Framework::Java | Framework::Kotlin => "other",
            Framework::CSharp => "other",
            Framework::Elixir => "other",
            Framework::Unknown => "",
        }
    }

    /// Get the default port for this framework.  Total over every variant
    /// and free of panics.
    pub fn default_port(&self) -> (r: Option<u16>)
        ensures
            r == spec_default_port(*self),
    {
        match self {
            Framework::React | Framework::Preact => Some(3000),
            Framework::Vue => Some(5173),
            Framework::Angular => Some(4200),
            Framework::Svelte | Framework::SvelteKit => Some(5173),
            Framework::Solid | Framework::Qwik => Some(5173),
            Framework::Vite
            | Framework::Webpack
            | Framework::Parcel
            | Framework::Esbuild
            | Framework::Turbopack => Some(5173),
            Framework::NextJs => Some(3000),
            Framework::NuxtJs => Some(3000),
            Framework::Remix => Some(3000),
            Framework::Astro => Some(4321),
            Framework::Gatsby => Some(8000),
            Framework::Express | Framework::Fastify | Framework::Koa | Framework::Hapi
                => Some(3000),
            Framework::NestJs => Some(3000),
            Framework::AdonisJs => Some(3333),
            Framework::Strapi => Some(1337),
            Framework::Django => Some(8000),
            Framework::Flask => Some(5000),
            Framework::FastApi => Some(8000),
            Framework::Pyramid => Some(6543),
            Framework::Tornado => Some(8888),
            Framework::Laravel => Some(8000),
            Framework::Symfony => Some(8000),
            Framework::CodeIgniter | Framework::Yii | Framework::CakePHP => Some(8080),
            Framework::Rails => Some(3000),
            Framework::Sinatra => Some(4567),
            Framework::Hanami => Some(2300),
            Framework::Gin | Framework::Echo | Framework::Chi | Framework::Beego => Some(8080),
            Framework::Fiber => Some(3000),
            Framework::ActixWeb | Framework::Axum | Framework::Warp | Framework::Tide
                => Some(8080),
            Framework::Rocket => Some(8000),
            Framework::Spring | Framework::Quarkus | Framework::Micronaut => Some(8080),
            Framework::Ktor => Some(8080),
            Framework::AspNetCore => Some(5000),
            Framework::Blazor => Some(5000),
            Framework::Tauri | Framework::Electron | Framework::Neutralino => None,
            Framework::ReactNative | Framework::Expo => Some(8081),
            Framework::Flutter => None,
            Framework::Ionic | Framework::Capacitor => Some(8100),
            Framework::WordPress => Some(8080),
            Framework::Drupal => Some(8080),
            Framework::GhostCms => Some(2368),
            Framework::Node | Framework::Deno | Framework::Bun => Some(3000),
            Framework::Rust => Some(8080),
            Framework::Python => Some(8000),
            Framework::Php => Some(8000),
            Framework::Go => Some(8080),
            Framework::Ruby => Some(3000),
            Framework::Java | Framework::Kotlin => Some(8080),
            Framework::CSharp => Some(5000),
            Framework::Elixir => Some(4000),
            Framework::Unknown => None,
        }
    }
}

/// Package manager used in the project.
#[derive(Debug, Clone, Copy, PartialEq, Eq, Structural)]
pub enum PackageManager {
    Npm,
    Yarn,
    YarnBerry,
    Pnpm,
    Bun,
    Deno,
    Cargo,
    Pip,
    Poetry,
    Pipenv,
    Conda,
    Uv,
    Composer,
    Bundler,
    GoMod,
    Maven,
    Gradle,
    Nuget,
    Dotnet,
    Mix,
    Unknown,
}

/// The command prefix that runs a named script under each manager.
/// It is empty only for `Unknown`.
pub open spec fn spec_run_prefix(m: PackageManager) -> Seq<char> {
    match m {
        PackageManager::Npm => "npm run"@,
        PackageManager::Yarn | PackageManager::YarnBerry => "yarn"@,
        PackageManager::Pnpm => "pnpm"@,
        PackageManager::Bun => "bun run"@,
        PackageManager::Deno => "deno task"@,
        PackageManager::Cargo => "cargo"@,
        PackageManager::Pip
        | PackageManager::Poetry
        | PackageManager::Pipenv
        | PackageManager::Conda
        | PackageManager::Uv => "python"@,
        PackageManager::Composer => "composer"@,
        PackageManager::Bundler => "bundle exec"@,
        PackageManager::GoMod => "go"@,
        PackageManager::Maven => "mvn"@,
        PackageManager::Gradle => "./gradlew"@,
        PackageManager::Nuget | PackageManager::Dotnet => "dotnet"@,
        PackageManager::Mix => "mix"@,
        PackageManager::Unknown => ""@,
    }
}

/// The install command of each manager.  It is empty only for `Unknown`.
pub open spec fn spec_install_command(m: PackageManager) -> Seq<char> {
    match m {
        PackageManager::Npm => "npm install"@,
        PackageManager::Yarn | PackageManager::YarnBerry => "yarn install"@,
        PackageManager::Pnpm => "pnpm install"@,
        PackageManager::Bun => "bun install"@,
        PackageManager::Deno => "deno cache"@,
        PackageManager::Cargo => "cargo build"@,
        PackageManager::Pip => "pip install -r requirements.txt"@,
        PackageManager::Poetry => "poetry install"@,
        PackageManager::Pipenv => "pipenv install"@,
        PackageManager::Conda => "conda install"@,
        PackageManager::Uv => "uv sync"@,
        PackageManager::Composer => "composer install"@,
        PackageManager::Bundler => "bundle install"@,
        PackageManager::GoMod => "go mod download"@,
        PackageManager::Maven => "mvn install"@,
        PackageManager::Gradle => "./gradlew build"@,
        PackageManager::Nuget | PackageManager::Dotnet => "dotnet restore"@,
        PackageManager::Mix => "mix deps.get"@,
        PackageManager::Unknown => ""@,
    }
}

impl PackageManager {
    /// Get the run command prefix for this package manager.
    pub fn run_prefix(&self) -> (r: &'static str)
        ensures
            r@ == spec_run_prefix(*self),
    {
        match self {
            PackageManager::Npm => "npm run",
            PackageManager::Yarn | PackageManager::YarnBerry => "yarn",
            PackageManager::Pnpm => "pnpm",
            PackageManager::Bun => "bun run",
            PackageManager::Deno => "deno task",
            PackageManager::Cargo => "cargo",
            PackageManager::Pip
            | PackageManager::Poetry
            | PackageManager::Pipenv
            | PackageManager::Conda
            | PackageManager::Uv => "python",
            PackageManager::Composer => "composer",
            PackageManager::Bundler => "bundle exec",
            PackageManager::GoMod => "go",
            PackageManager::Maven => "mvn",
            PackageManager::Gradle => "./gradlew",
            PackageManager::Nuget | PackageManager::Dotnet => "dotnet",
            PackageManager::Mix => "mix",
            PackageManager::Unknown => "",
        }
    }

    /// Get the install command for this package manager.
    pub fn install_command(&self) -> (r: &'static str)
        ensures
            r@ == spec_install_command(*self),
    {
        match self {
            PackageManager::Npm => "npm install",
            PackageManager::Yarn | PackageManager::YarnBerry => "yarn install",
            PackageManager::Pnpm => "pnpm install",
            PackageManager::Bun => "bun install",
            PackageManager::Deno => "deno cache",
            PackageManager::Cargo => "cargo build",
            PackageManager::Pip => "pip install -r requirements.txt",
            PackageManager::Poetry => "poetry install",
            PackageManager::Pipenv => "pipenv install",
            PackageManager::Conda => "conda install",
            PackageManager::Uv => "uv sync",
            PackageManager::Composer => "composer install",
            PackageManager::Bundler => "bundle install",
            PackageManager::GoMod => "go mod download",
            PackageManager::Maven => "mvn install",
            PackageManager::Gradle => "./gradlew build",
            PackageManager::Nuget | PackageManager::Dotnet => "dotnet restore",
            PackageManager::Mix => "mix deps.get",
            PackageManager::Unknown => "",
        }
    }
}

/// Service category/type.
#[derive(Debug, Clone, Copy, PartialEq, Eq, Structural)]
pub enum ServiceCategory {
    Frontend,
    Backend,
    Fullstack,
    Desktop,
    Mobile,
    Api,
    Worker,
    Docker,
    Unknown,
}

/// The legacy two-way service-type label of each category.
pub open spec fn spec_service_type(c: ServiceCategory) -> Seq<char> {
    match c {
        ServiceCategory::Frontend => "frontend"@,
        ServiceCategory::Backend | ServiceCategory::Api | ServiceCategory::Worker => "backend"@,
        ServiceCategory::Fullstack => "backend"@,
        ServiceCategory::Desktop => "backend"@,
        ServiceCategory::Mobile => "frontend"@,
        ServiceCategory::Docker => "backend"@,
        ServiceCategory::Unknown => "backend"@,
    }
}

impl ServiceCategory {
    /// The coarse two-way label used by the persistence records.
    pub fn to_service_type(&self) -> (r: &'static str)
        ensures
            r@ == spec_service_type(*self),
    {
        match self {
            ServiceCategory::Frontend => "frontend",
            ServiceCategory::Backend | ServiceCategory::Api | ServiceCategory::Worker
                => "backend",
            ServiceCategory::Fullstack => "backend",
            ServiceCategory::Desktop => "backend",
            ServiceCategory::Mobile => "frontend",
            ServiceCategory::Docker => "backend",
            ServiceCategory::Unknown => "backend",
        }
    }
}

/// Monorepo tool detected.
#[derive(Debug, Clone, Copy, PartialEq, Eq, Structural)]
pub enum MonorepoTool {
    NpmWorkspaces,
    YarnWorkspaces,
    PnpmWorkspaces,
    BunWorkspaces,
    Turborepo,
    Nx,
    Lerna,
    Rush,
    CargoWorkspace,
    NoneTool,
}

/// The ghost shape of an optional string: its view, if any.
pub open spec fn view_opt_str(o: Option<String>) -> Option<Seq<char>> {
    match o {
        Some(s) => Some(s@),
        None => None,
    }
}

/// Ghost image of a detected service.
pub ghost struct ServiceView {
    pub name: Seq<char>,
    pub path: Seq<char>,
    pub relative_path: Seq<char>,
    pub category: ServiceCategory,
    pub framework: Framework,
    pub stack: Seq<char>,
    pub package_manager: PackageManager,
    pub port: Option<u16>,
    pub dev_command: Option<Seq<char>>,
    pub build_command: Option<Seq<char>>,
    pub start_command: Option<Seq<char>>,
    pub install_command: Option<Seq<char>>,
    pub is_docker_service: bool,
    pub docker_service_name: Option<Seq<char>>,
}

/// A detected service within a project.
#[derive(Debug, Clone)]
pub struct DetectedService {
    pub name: String,
    pub path: String,
    pub relative_path: String,
    pub category: ServiceCategory,
    pub framework: Framework,
    pub stack: String,
    pub package_manager: PackageManager,
    pub port: Option<u16>,
    pub dev_command: Option<String>,
    pub build_command: Option<String>,
    pub start_command: Option<String>,
    pub install_command: Option<String>,
    pub is_docker_service: bool,
    pub docker_service_name: Option<String>,
}

impl View for DetectedService {
    type V = ServiceView;

    open spec fn view(&self) -> ServiceView {
        ServiceView {
            name: self.name@,
            path: self.path@,
            relative_path: self.relative_path@,
            category: self.category,
            framework: self.framework,
            stack: self.stack@,
            package_manager: self.package_manager,
            port: self.port,
            dev_command: view_opt_str(self.dev_command),
            build_command: view_opt_str(self.build_command),
            start_command: view_opt_str(self.start_command),
            install_command: view_opt_str(self.install_command),
            is_docker_service: self.is_docker_service,
            docker_service_name: view_opt_str(self.docker_service_name),
        }
    }
}

/// The ghost image of a freshly constructed service: identity fields as
/// given, everything else at its default.
pub open spec fn spec_new_service(
    name: Seq<char>,
    path: Seq<char>,
    relative_path: Seq<char>,
) -> ServiceView {
    ServiceView {
        name: name,
        path: path,
        relative_path: relative_path,
        category: ServiceCategory::Unknown,
        framework: Framework::Unknown,
        stack: spec_stack(Framework::Unknown),
        package_manager: PackageManager::Unknown,
        port: None,
        dev_command: None,
        build_command: None,
        start_command: None,
        install_command: None,
        is_docker_service: false,
        docker_service_name: None,
    }
}

impl DetectedService {
    /// A service with its identity fields set and every classification
    /// still at its default.
    pub fn new(name: String, path: String, relative_path: String) -> (r: DetectedService)
        ensures
            r@ == spec_new_service(name@, path@, relative_path@),
    {
        let r = DetectedService {
            name,
            path,
            relative_path,
            category: ServiceCategory::Unknown,
            framework: Framework::Unknown,
            stack: String::new(),
            package_manager: PackageManager::Unknown,
            port: None,
            dev_command: None,
            build_command: None,
            start_command: None,
            install_command: None,
            is_docker_service: false,
            docker_service_name: None,
        };
        proof {
            reveal_strlit("");
            assert(r@.stack =~= spec_stack(Framework::Unknown));
        }
        r
    }

    /// Update stack from framework.
    pub fn update_stack_from_framework(&mut self)
        ensures
            final(self)@ == (ServiceView { stack: spec_stack(old(self).framework), ..old(self)@ }),
    {
        let s = self.framework.to_stack();
        self.stack = String::from_str(s);
    }

    /// Update port from framework if not already set.
    pub fn update_port_from_framework(&mut self)
        ensures
            final(self)@ == (ServiceView {
                port: if old(self).port is None {
                    spec_default_port(old(self).framework)
                } else {
                    old(self).port
                },
                ..old(self)@
            }),
    {
        if self.port.is_none() {
            self.port = self.framework.default_port();
        }
    }

    /// A field-for-field copy that keeps the ghost image.
    pub fn clone_service(&self) -> (r: DetectedService)
        ensures
            r@ == self@,
    {
        DetectedService {
            name: self.name.clone(),
            path: self.path.clone(),
            relative_path: self.relative_path.clone(),
            category: self.category,
            framework: self.framework,
            stack: self.stack.clone(),
            package_manager: self.package_manager,
            port: self.port,
            dev_command: clone_opt_str(&self.dev_command),
            build_command: clone_opt_str(&self.build_command),
            start_command: clone_opt_str(&self.start_command),
            install_command: clone_opt_str(&self.install_command),
            is_docker_service: self.is_docker_service,
            docker_service_name: clone_opt_str(&self.docker_service_name),
        }
    }

    /// Update install command from package manager if not already set.
    pub fn update_install_from_package_manager(&mut self)
        ensures
            final(self)@ == (ServiceView {
                install_command: if old(self).install_command is None && old(
                    self,
                ).package_manager != PackageManager::Unknown {
                    Some(spec_install_command(old(self).package_manager))
                } else {
                    view_opt_str(old(self).install_command)
                },
                ..old(self)@
            }),
    {
        if self.install_command.is_none() && !matches!(self.package_manager,
            PackageManager::Unknown) {
            self.install_command = Some(String::from_str(self.package_manager.install_command()));
        }
    }
}

/// A copy of an optional string, by contents.
pub fn clone_opt_str(v: &Option<String>) -> (r: Option<String>)
    ensures
        view_opt_str(r) == view_opt_str(*v),
{
    match v {
        Some(s) => Some(s.clone()),
        None => None,
    }
}

/// Ghost image of a detected project.
pub ghost struct ProjectView {
    pub name: Seq<char>,
    pub path: Seq<char>,
    pub is_monorepo: bool,
    pub monorepo_tool: MonorepoTool,
    pub is_tauri: bool,
    pub has_docker: bool,
    pub has_docker_compose: bool,
    pub root_package_manager: PackageManager,
    pub services: Seq<ServiceView>,
    pub workspaces: Seq<Seq<char>>,
}

/// A fully detected project with all its services.
#[derive(Debug, Clone)]
pub struct DetectedProject {
    pub name: String,
    pub path: String,
    pub is_monorepo: bool,
    pub monorepo_tool: MonorepoTool,
    pub is_tauri: bool,
    pub has_docker: bool,
    pub has_docker_compose: bool,
    pub root_package_manager: PackageManager,
    pub services: Vec<DetectedService>,
    pub workspaces: Vec<String>,
}

impl View for DetectedProject {
    type V = ProjectView;

    open spec fn view(&self) -> ProjectView {
        ProjectView {
            name: self.name@,
            path: self.path@,
            is_monorepo: self.is_monorepo,
            monorepo_tool: self.monorepo_tool,
            is_tauri: self.is_tauri,
            has_docker: self.has_docker,
            has_docker_compose: self.has_docker_compose,
            root_package_manager: self.root_package_manager,
            services: self.services@.map_values(|s: DetectedService| s@),
            workspaces: self.workspaces@.map_values(|w: String| w@),
        }
    }
}

/// The ghost image of a freshly constructed project.
pub open spec fn spec_new_project(name: Seq<char>, path: Seq<char>) -> ProjectView {
    ProjectView {
        name: name,
        path: path,
        is_monorepo: false,
        monorepo_tool: MonorepoTool::NoneTool,
        is_tauri: false,
        has_docker: false,
        has_docker_compose: false,
        root_package_manager: PackageManager::Unknown,
        services: Seq::empty(),
        workspaces: Seq::empty(),
    }
}

impl DetectedProject {
    /// A project with its identity fields set and no services yet.
    pub fn new(name: String, path: String) -> (r: DetectedProject)
        ensures
            r@ == spec_new_project(name@, path@),
    {
        let r = DetectedProject {
            name,
            path,
            is_monorepo: false,
            monorepo_tool: MonorepoTool::NoneTool,
            is_tauri: false,
            has_docker: false,
            has_docker_compose: false,
            root_package_manager: PackageManager::Unknown,
            services: Vec::new(),
            workspaces: Vec::new(),
        };
        proof {
            assert(r@.services =~= Seq::<ServiceView>::empty());
            assert(r@.workspaces =~= Seq::<Seq<char>>::empty());
        }
        r
    }
}

/// For all frameworks the two derived tables agree with their specs, and
/// `Unknown` alone has the empty stack and no port only where the tables
/// say so: the functions are total, with no `requires`, so no input can
/// make them panic.
pub proof fn lemma_framework_tables_total(f: Framework)
    ensures
        f == Framework::Unknown ==> spec_stack(f).len() == 0 && spec_default_port(f) is None,
        f != Framework::Unknown ==> spec_stack(f).len() > 0,
{
    reveal_strlit("react");
    reveal_strlit("vue");
    reveal_strlit("angular");
    reveal_strlit("svelte");
    reveal_strlit("next");
    reveal_strlit("node");
    reveal_strlit("express");
    reveal_strlit("nestjs");
    reveal_strlit("django");
    reveal_strlit("flask");
    reveal_strlit("laravel");
    reveal_strlit("php");
    reveal_strlit("rails");
    reveal_strlit("go");
    reveal_strlit("rust");
    reveal_strlit("other");
    reveal_strlit("");
}

/// Only `Unknown` has an empty run prefix or an empty install command.
pub proof fn lemma_package_manager_tables_total(m: PackageManager)
    ensures
        m == PackageManager::Unknown <==> spec_run_prefix(m).len() == 0,
        m == PackageManager::Unknown <==> spec_install_command(m).len() == 0,
{
    reveal_strlit("npm run");
    reveal_strlit("yarn");
    reveal_strlit("pnpm");
    reveal_strlit("bun run");
    reveal_strlit("deno task");
    reveal_strlit("cargo");
    reveal_strlit("python");
    reveal_strlit("composer");
    reveal_strlit("bundle exec");
    reveal_strlit("go");
    reveal_strlit("mvn");
    reveal_strlit("./gradlew");
    reveal_strlit("dotnet");
    reveal_strlit("mix");
    reveal_strlit("");
    reveal_strlit("npm install");
    reveal_strlit("yarn install");
    reveal_strlit("pnpm install");
    reveal_strlit("bun install");
    reveal_strlit("deno cache");
    reveal_strlit("cargo build");
    reveal_strlit("pip install -r requirements.txt");
    reveal_strlit("poetry install");
    reveal_strlit("pipenv install");
    reveal_strlit("conda install");
    reveal_strlit("uv sync");
    reveal_strlit("composer install");
    reveal_strlit("bundle install");
    reveal_strlit("go mod download");
    reveal_strlit("mvn install");
    reveal_strlit("./gradlew build");
    reveal_strlit("dotnet restore");
    reveal_strlit("mix deps.get");
}

} // verus!
