//! Command synthesis: dev/build/start/install command strings are derived
//! from the framework, the package manager and the manifests — they are
//! never executed.  The desktop shell and the native Rust toolchain
//! short-circuit to fixed invocations; a node manifest's scripts are
//! wrapped in the manager's run syntax; everything else falls back to a
//! framework-keyed table of idiomatic defaults.

use vstd::prelude::*;
use vstd::string::StringExecFns;
use crate::cargo_toml::{spec_ct_build_command, spec_ct_dev_command, CargoToml, CargoTomlView};
use crate::fstree::{spec_has_path, spec_root_tauri_conf, DirTree, DirTreeView};
use crate::models::{
    spec_install_command, spec_run_prefix, view_opt_str, Framework, PackageManager,
};
use crate::package_json::{
    spec_build_command, spec_dev_command, spec_start_command, PackageJson, PackageJsonView,
};
use crate::tauri_conf::{spec_frontend_build_command, spec_frontend_dev_command};

verus! {

/// Ghost image of a set of synthesized commands.
pub ghost struct CommandsView {
    pub dev: Option<Seq<char>>,
    pub build: Option<Seq<char>>,
    pub start: Option<Seq<char>>,
    pub install: Option<Seq<char>>,
}

/// The synthesized dev/build/start/install commands of one service.
#[derive(Debug, Clone)]
pub struct DetectedCommands {
    pub dev: Option<String>,
    pub build: Option<String>,
    pub start: Option<String>,
    pub install: Option<String>,
}

impl View for DetectedCommands {
    type V = CommandsView;

    open spec fn view(&self) -> CommandsView {
        CommandsView {
            dev: view_opt_str(self.dev),
            build: view_opt_str(self.build),
            start: view_opt_str(self.start),
            install: view_opt_str(self.install),
        }
    }
}

/// The run-syntax wrapper for the script called `name` under manager
/// `m`; managers without a known syntax prefix the bare name with their
/// run prefix.
pub open spec fn spec_format_npm(m: PackageManager, name: Seq<char>) -> Seq<char> {
    match m {
        PackageManager::Npm => "npm run "@ + name,
        PackageManager::Yarn | PackageManager::YarnBerry => "yarn "@ + name,
        PackageManager::Pnpm => "pnpm "@ + name,
        PackageManager::Bun => "bun run "@ + name,
        PackageManager::Deno => "deno task "@ + name,
        _ => spec_run_prefix(m) + " "@ + name,
    }
}

/// The commands of the desktop shell at a root: fixed invocations, gated
/// on the configuration naming frontend commands when one is readable.
pub open spec fn spec_tauri_commands(t: DirTreeView, install: Option<Seq<char>>) -> CommandsView {
    match spec_root_tauri_conf(t) {
        Some(conf) => CommandsView {
            dev: if spec_frontend_dev_command(conf) is Some {
                Some("cargo tauri dev"@)
            } else {
                None
            },
            build: if spec_frontend_build_command(conf) is Some {
                Some("cargo tauri build"@)
            } else {
                None
            },
            start: None,
            install,
        },
        None => CommandsView {
            dev: Some("cargo tauri dev"@),
            build: Some("cargo tauri build"@),
            start: None,
            install,
        },
    }
}

/// The commands a node manifest's scripts yield: each present script is
/// wrapped in the manager's run syntax, and a missing dev falls back to
/// start.
pub open spec fn spec_pkg_commands(
    pm: PackageManager,
    p: PackageJsonView,
    install: Option<Seq<char>>,
) -> CommandsView {
    let dev0 = if spec_dev_command(p) is Some {
        Some(spec_format_npm(pm, "dev"@))
    } else {
        None
    };
    let build = if spec_build_command(p) is Some {
        Some(spec_format_npm(pm, "build"@))
    } else {
        None
    };
    let start = if spec_start_command(p) is Some {
        Some(spec_format_npm(pm, "start"@))
    } else {
        None
    };
    let dev = if dev0 is None && start is Some {
        start
    } else {
        dev0
    };
    CommandsView { dev, build, start, install }
}

/// The framework-keyed table of idiomatic default commands, used when no
/// node manifest is present.
pub open spec fn spec_default_commands(
    t: DirTreeView,
    f: Framework,
    install: Option<Seq<char>>,
) -> CommandsView {
    match f {
        Framework::Django => CommandsView {
            dev: Some("python manage.py runserver"@),
            build: None,
            start: Some("python manage.py runserver"@),
            install,
        },
        Framework::Flask => CommandsView {
            dev: Some("flask run"@),
            build: None,
            start: Some("flask run"@),
            install,
        },
        Framework::FastApi => CommandsView {
            dev: Some("uvicorn main:app --reload"@),
            build: None,
            start: Some("uvicorn main:app"@),
            install,
        },
        Framework::Python => CommandsView {
            dev: Some("python main.py"@),
            build: None,
            start: Some("python main.py"@),
            install,
        },
        Framework::Laravel => CommandsView {
            dev: Some("php artisan serve"@),
            build: None,
            start: Some("php artisan serve"@),
            install,
        },
        Framework::Symfony => CommandsView {
            dev: Some("symfony serve"@),
            build: None,
            start: Some("symfony serve"@),
            install,
        },
        Framework::Php => CommandsView {
            dev: Some("php -S localhost:8000"@),
            build: None,
            start: None,
            install,
        },
        Framework::Rails => CommandsView {
            dev: Some("rails server"@),
            build: None,
            start: Some("rails server"@),
            install,
        },
        Framework::Sinatra => CommandsView {
            dev: Some("ruby app.rb"@),
            build: None,
            start: Some("ruby app.rb"@),
            install,
        },
        Framework::Ruby => CommandsView {
            dev: Some("ruby main.rb"@),
            build: None,
            start: None,
            install,
        },
        Framework::Gin | Framework::Echo | Framework::Fiber | Framework::Chi | Framework::Beego
        | Framework::Go => CommandsView {
            dev: Some("go run ."@),
            build: Some("go build -o app ."@),
            start: Some("./app"@),
            install,
        },
        Framework::Spring => {
            if spec_has_path(t, "mvnw"@) || spec_has_path(t, "mvnw.cmd"@) {
                CommandsView {
                    dev: Some("./mvnw spring-boot:run"@),
                    build: Some("./mvnw package"@),
                    start: None,
                    install,
                }
            } else if spec_has_path(t, "gradlew"@) || spec_has_path(t, "gradlew.bat"@) {
                CommandsView {
                    dev: Some("./gradlew bootRun"@),
                    build: Some("./gradlew build"@),
                    start: None,
                    install,
                }
            } else {
                CommandsView { dev: None, build: None, start: None, install }
            }
        },
        Framework::Quarkus => CommandsView {
            dev: Some("./mvnw quarkus:dev"@),
            build: Some("./mvnw package"@),
            start: None,
            install,
        },
        Framework::Ktor => CommandsView {
            dev: Some("./gradlew run"@),
            build: Some("./gradlew build"@),
            start: None,
            install,
        },
        Framework::AspNetCore | Framework::Blazor | Framework::CSharp => CommandsView {
            dev: Some("dotnet watch run"@),
            build: Some("dotnet build"@),
            start: Some("dotnet run"@),
            install,
        },
        Framework::Elixir => CommandsView {
            dev: Some("mix phx.server"@),
            build: None,
            start: Some("mix phx.server"@),
            install,
        },
        _ => CommandsView { dev: None, build: None, start: None, install },
    }
}

/// The full command synthesis for one unit.
pub open spec fn spec_detect_commands(
    t: DirTreeView,
    f: Framework,
    pm: PackageManager,
    pkg: Option<PackageJsonView>,
    ct: Option<CargoTomlView>,
) -> CommandsView {
    let install = Some(spec_install_command(pm));
    match f {
        Framework::Tauri => spec_tauri_commands(t, install),
        Framework::ActixWeb | Framework::Axum | Framework::Rocket | Framework::Warp
        | Framework::Tide | Framework::Rust => match ct {
            Some(cargo) => CommandsView {
                dev: Some(spec_ct_dev_command(cargo)),
                build: Some(spec_ct_build_command(cargo)),
                start: None,
                install,
            },
            None => CommandsView {
                dev: Some("cargo run"@),
                build: Some("cargo build --release"@),
                start: None,
                install,
            },
        },
        _ => match pkg {
            Some(p) => spec_pkg_commands(pm, p, install),
            None => spec_default_commands(t, f, install),
        },
    }
}

/// Synthesize the dev, build, start and install commands of one unit
/// from its framework, package manager and manifests.
pub fn detect_commands(
    t: &DirTree,
    framework: &Framework,
    package_manager: &PackageManager,
    package_json: Option<&PackageJson>,
    cargo_toml: Option<&CargoToml>,
) -> (r: DetectedCommands)
    ensures
        r@ == spec_detect_commands(
            t@,
            *framework,
            *package_manager,
            (match package_json {
                Some(p) => Some(p@),
                None => None,
            }),
            (match cargo_toml {
                Some(c) => Some(c@),
                None => None,
            }),
        ),
{
    let install = Some(String::from_str(package_manager.install_command()));
    match framework {
        Framework::Tauri => {
            match t.root_tauri_conf() {
                Some(conf) => {
                    let dev = if conf.get_frontend_dev_command().is_some() {
                        Some(String::from_str("cargo tauri dev"))
                    } else {
                        None
                    };
                    let build = if conf.get_frontend_build_command().is_some() {
                        Some(String::from_str("cargo tauri build"))
                    } else {
                        None
                    };
                    DetectedCommands { dev, build, start: None, install }
                },
                None => DetectedCommands {
                    dev: Some(String::from_str("cargo tauri dev")),
                    build: Some(String::from_str("cargo tauri build")),
                    start: None,
                    install,
                },
            }
        },
        Framework::ActixWeb | Framework::Axum | Framework::Rocket | Framework::Warp
        | Framework::Tide | Framework::Rust => {
            match cargo_toml {
                Some(cargo) => DetectedCommands {
                    dev: Some(cargo.get_dev_command()),
                    build: Some(cargo.get_build_command()),
                    start: None,
                    install,
                },
                None => DetectedCommands {
                    dev: Some(String::from_str("cargo run")),
                    build: Some(String::from_str("cargo build --release")),
                    start: None,
                    install,
                },
            }
        },
        _ => {
            match package_json {
                Some(pkg) => {
                    let dev0 = if pkg.get_dev_command().is_some() {
                        Some(format_npm_command(package_manager, "dev"))
                    } else {
                        None
                    };
                    let build = if pkg.get_build_command().is_some() {
                        Some(format_npm_command(package_manager, "build"))
                    } else {
                        None
                    };
                    let start = if pkg.get_start_command().is_some() {
                        Some(format_npm_command(package_manager, "start"))
                    } else {
                        None
                    };
                    let dev = if dev0.is_none() && start.is_some() {
                        match &start {
                            Some(s) => Some(s.clone()),
                            None => None,
                        }
                    } else {
                        dev0
                    };
                    DetectedCommands { dev, build, start, install }
                },
                None => default_commands(t, framework, install),
            }
        },
    }
}

/// The framework-keyed default-command table, at run time.
fn default_commands(t: &DirTree, framework: &Framework, install: Option<String>) -> (r:
    DetectedCommands)
    ensures
        r@ == spec_default_commands(t@, *framework, view_opt_str(install)),
{
    match framework {
        Framework::Django => DetectedCommands {
            dev: Some(String::from_str("python manage.py runserver")),
            build: None,
            start: Some(String::from_str("python manage.py runserver")),
            install,
        },
        Framework::Flask => DetectedCommands {
            dev: Some(String::from_str("flask run")),
            build: None,
            start: Some(String::from_str("flask run")),
            install,
        },
        Framework::FastApi => DetectedCommands {
            dev: Some(String::from_str("uvicorn main:app --reload")),
            build: None,
            start: Some(String::from_str("uvicorn main:app")),
            install,
        },
        Framework::Python => DetectedCommands {
            dev: Some(String::from_str("python main.py")),
            build: None,
            start: Some(String::from_str("python main.py")),
            install,
        },
        Framework::Laravel => DetectedCommands {
            dev: Some(String::from_str("php artisan serve")),
            build: None,
            start: Some(String::from_str("php artisan serve")),
            install,
        },
        Framework::Symfony => DetectedCommands {
            dev: Some(String::from_str("symfony serve")),
            build: None,
            start: Some(String::from_str("symfony serve")),
            install,
        },
        Framework::Php => DetectedCommands {
            dev: Some(String::from_str("php -S localhost:8000")),
            build: None,
            start: None,
            install,
        },
        Framework::Rails => DetectedCommands {
            dev: Some(String::from_str("rails server")),
            build: None,
            start: Some(String::from_str("rails server")),
            install,
        },
        Framework::Sinatra => DetectedCommands {
            dev: Some(String::from_str("ruby app.rb")),
            build: None,
            start: Some(String::from_str("ruby app.rb")),
            install,
        },
        Framework::Ruby => DetectedCommands {
            dev: Some(String::from_str("ruby main.rb")),
            build: None,
            start: None,
            install,
        },
        Framework::Gin | Framework::Echo | Framework::Fiber | Framework::Chi | Framework::Beego
        | Framework::Go => DetectedCommands {
            dev: Some(String::from_str("go run .")),
            build: Some(String::from_str("go build -o app .")),
            start: Some(String::from_str("./app")),
            install,
        },
        Framework::Spring => {
            if t.has_path("mvnw") || t.has_path("mvnw.cmd") {
                DetectedCommands {
                    dev: Some(String::from_str("./mvnw spring-boot:run")),
                    build: Some(String::from_str("./mvnw package")),
                    start: None,
                    install,
                }
            } else if t.has_path("gradlew") || t.has_path("gradlew.bat") {
                DetectedCommands {
                    dev: Some(String::from_str("./gradlew bootRun")),
                    build: Some(String::from_str("./gradlew build")),
                    start: None,
                    install,
                }
            } else {
                DetectedCommands { dev: None, build: None, start: None, install }
            }
        },
        Framework::Quarkus => DetectedCommands {
            dev: Some(String::from_str("./mvnw quarkus:dev")),
            build: Some(String::from_str("./mvnw package")),
            start: None,
            install,
        },
        Framework::Ktor => DetectedCommands {
            dev: Some(String::from_str("./gradlew run")),
            build: Some(String::from_str("./gradlew build")),
            start: None,
            install,
        },
        Framework::AspNetCore | Framework::Blazor | Framework::CSharp => DetectedCommands {
            dev: Some(String::from_str("dotnet watch run")),
            build: Some(String::from_str("dotnet build")),
            start: Some(String::from_str("dotnet run")),
            install,
        },
        Framework::Elixir => DetectedCommands {
            dev: Some(String::from_str("mix phx.server")),
            build: None,
            start: Some(String::from_str("mix phx.server")),
            install,
        },
        _ => DetectedCommands { dev: None, build: None, start: None, install },
    }
}

/// Wrap a script name in the manager's run syntax, at run time.
fn format_npm_command(package_manager: &PackageManager, script_name: &str) -> (r: String)
    ensures
        r@ == spec_format_npm(*package_manager, script_name@),
{
    match package_manager {
        PackageManager::Npm => String::from_str("npm run ").concat(script_name),
        PackageManager::Yarn | PackageManager::YarnBerry => String::from_str("yarn ").concat(
            script_name,
        ),
        PackageManager::Pnpm => String::from_str("pnpm ").concat(script_name),
        PackageManager::Bun => String::from_str("bun run ").concat(script_name),
        PackageManager::Deno => String::from_str("deno task ").concat(script_name),
        _ => {
            let mut s = String::from_str(package_manager.run_prefix());
            s.append(" ");
            s.append(script_name);
            s
        },
    }
}

/// The commands of the frontend half of a desktop-shell project: what the
/// shell configuration names, or the manager's own dev and build scripts.
pub open spec fn spec_tauri_frontend_commands(t: DirTreeView, pm: PackageManager) -> CommandsView {
    let install = Some(spec_install_command(pm));
    match spec_root_tauri_conf(t) {
        Some(conf) => CommandsView {
            dev: spec_frontend_dev_command(conf),
            build: spec_frontend_build_command(conf),
            start: None,
            install,
        },
        None => CommandsView {
            dev: Some(spec_run_prefix(pm) + " dev"@),
            build: Some(spec_run_prefix(pm) + " build"@),
            start: None,
            install,
        },
    }
}

/// The commands of the frontend half of a desktop-shell project.
pub fn get_tauri_frontend_commands(t: &DirTree, package_manager: &PackageManager) -> (r:
    DetectedCommands)
    ensures
        r@ == spec_tauri_frontend_commands(t@, *package_manager),
{
    let install = Some(String::from_str(package_manager.install_command()));
    match t.root_tauri_conf() {
        Some(conf) => DetectedCommands {
            dev: conf.get_frontend_dev_command(),
            build: conf.get_frontend_build_command(),
            start: None,
            install,
        },
        None => {
            let mut dev = String::from_str(package_manager.run_prefix());
            dev.append(" dev");
            let mut build = String::from_str(package_manager.run_prefix());
            build.append(" build");
            DetectedCommands { dev: Some(dev), build: Some(build), start: None, install }
        },
    }
}

/// The fixed commands of the native half of a desktop-shell project.
pub open spec fn spec_tauri_backend_commands() -> CommandsView {
    CommandsView {
        dev: Some("cargo tauri dev"@),
        build: Some("cargo tauri build"@),
        start: None,
        install: Some("cargo build"@),
    }
}

/// The fixed commands of the native half of a desktop-shell project.
pub fn get_tauri_backend_commands() -> (r: DetectedCommands)
    ensures
        r@ == spec_tauri_backend_commands(),
{
    DetectedCommands {
        dev: Some(String::from_str("cargo tauri dev")),
        build: Some(String::from_str("cargo tauri build")),
        start: None,
        install: Some(String::from_str("cargo build")),
    }
}

} // verus!
