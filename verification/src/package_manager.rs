//! Package-manager detection: a fixed-priority, first-match rule over
//! lockfiles and manifests.  Lockfiles are checked before bare manifests,
//! and more specific ecosystems before generic fallbacks.

use vstd::prelude::*;
use vstd::string::{StringExecFns, StrSliceExecFns};
use crate::fstree::{spec_content, spec_has_path, DirTree, DirTreeView};
use crate::models::PackageManager;
use crate::text::{chars_end_with, chars_of, seq_contains, seq_ends_with, str_contains_str};

verus! {

/// A path without '/' names a direct child of the root.
pub open spec fn is_top_level(p: Seq<char>) -> bool {
    forall|i: int| 0 <= i < p.len() ==> p[i] != '/'
}

/// Some direct child's name ends in one of the .NET project suffixes.
pub open spec fn spec_has_csproj_or_sln(t: DirTreeView) -> bool {
    exists|i: int|
        0 <= i < t.entries.len() && is_top_level((#[trigger] t.entries[i]).path) && (seq_ends_with(
            t.entries[i].path,
            ".csproj"@,
        ) || seq_ends_with(t.entries[i].path, ".fsproj"@) || seq_ends_with(
            t.entries[i].path,
            ".vbproj"@,
        ) || seq_ends_with(t.entries[i].path, ".sln"@))
}

/// The pyproject file names the poetry tool.
pub open spec fn spec_pyproject_is_poetry(t: DirTreeView) -> bool {
    match spec_content(t, "pyproject.toml"@) {
        Some(c) => seq_contains(c, "[tool.poetry]"@),
        None => false,
    }
}

/// The fixed-priority package-manager rule.
pub open spec fn spec_detect_package_manager(t: DirTreeView) -> PackageManager {
    if spec_has_path(t, "bun.lock"@) || spec_has_path(t, "bun.lockb"@) {
        PackageManager::Bun
    } else if spec_has_path(t, "pnpm-lock.yaml"@) {
        PackageManager::Pnpm
    } else if spec_has_path(t, "yarn.lock"@) {
        if spec_has_path(t, ".yarnrc.yml"@) || spec_has_path(t, ".yarnrc.yaml"@) {
            PackageManager::YarnBerry
        } else {
            PackageManager::Yarn
        }
    } else if spec_has_path(t, "package-lock.json"@) {
        PackageManager::Npm
    } else if spec_has_path(t, "deno.json"@) || spec_has_path(t, "deno.jsonc"@) {
        PackageManager::Deno
    } else if spec_has_path(t, "Cargo.lock"@) || spec_has_path(t, "Cargo.toml"@) {
        PackageManager::Cargo
    } else if spec_has_path(t, "uv.lock"@) {
        PackageManager::Uv
    } else if (spec_has_path(t, "poetry.lock"@) || spec_has_path(t, "pyproject.toml"@))
        && spec_pyproject_is_poetry(t) {
        PackageManager::Poetry
    } else if spec_has_path(t, "Pipfile.lock"@) || spec_has_path(t, "Pipfile"@) {
        PackageManager::Pipenv
    } else if spec_has_path(t, "conda.yaml"@) || spec_has_path(t, "environment.yml"@) {
        PackageManager::Conda
    } else if spec_has_path(t, "requirements.txt"@) {
        PackageManager::Pip
    } else if spec_has_path(t, "composer.lock"@) || spec_has_path(t, "composer.json"@) {
        PackageManager::Composer
    } else if spec_has_path(t, "Gemfile.lock"@) || spec_has_path(t, "Gemfile"@) {
        PackageManager::Bundler
    } else if spec_has_path(t, "go.sum"@) || spec_has_path(t, "go.mod"@) {
        PackageManager::GoMod
    } else if spec_has_path(t, "pom.xml"@) {
        PackageManager::Maven
    } else if spec_has_path(t, "build.gradle"@) || spec_has_path(t, "build.gradle.kts"@)
        || spec_has_path(t, "settings.gradle"@) || spec_has_path(t, "settings.gradle.kts"@) {
        PackageManager::Gradle
    } else if spec_has_csproj_or_sln(t) {
        PackageManager::Dotnet
    } else if spec_has_path(t, "mix.lock"@) || spec_has_path(t, "mix.exs"@) {
        PackageManager::Mix
    } else if spec_has_path(t, "package.json"@) {
        PackageManager::Npm
    } else {
        PackageManager::Unknown
    }
}

/// Detect the package manager used in a project, by the fixed priority
/// order over its lockfiles and manifests.
pub fn detect_package_manager(t: &DirTree) -> (r: PackageManager)
    ensures
        r == spec_detect_package_manager(t@),
{
    if t.has_path("bun.lock") || t.has_path("bun.lockb") {
        return PackageManager::Bun;
    }
    if t.has_path("pnpm-lock.yaml") {
        return PackageManager::Pnpm;
    }
    if t.has_path("yarn.lock") {
        if t.has_path(".yarnrc.yml") || t.has_path(".yarnrc.yaml") {
            return PackageManager::YarnBerry;
        }
        return PackageManager::Yarn;
    }
    if t.has_path("package-lock.json") {
        return PackageManager::Npm;
    }
    if t.has_path("deno.json") || t.has_path("deno.jsonc") {
        return PackageManager::Deno;
    }
    if t.has_path("Cargo.lock") || t.has_path("Cargo.toml") {
        return PackageManager::Cargo;
    }
    if t.has_path("uv.lock") {
        return PackageManager::Uv;
    }
    if t.has_path("poetry.lock") || t.has_path("pyproject.toml") {
        if let Some(c) = t.content_of("pyproject.toml") {
            if str_contains_str(c.as_str(), "[tool.poetry]") {
                return PackageManager::Poetry;
            }
        }
    }
    if t.has_path("Pipfile.lock") || t.has_path("Pipfile") {
        return PackageManager::Pipenv;
    }
    if t.has_path("conda.yaml") || t.has_path("environment.yml") {
        return PackageManager::Conda;
    }
    if t.has_path("requirements.txt") {
        return PackageManager::Pip;
    }
    if t.has_path("composer.lock") || t.has_path("composer.json") {
        return PackageManager::Composer;
    }
    if t.has_path("Gemfile.lock") || t.has_path("Gemfile") {
        return PackageManager::Bundler;
    }
    if t.has_path("go.sum") || t.has_path("go.mod") {
        return PackageManager::GoMod;
    }
    if t.has_path("pom.xml") {
        return PackageManager::Maven;
    }
    if t.has_path("build.gradle") || t.has_path("build.gradle.kts") || t.has_path("settings.gradle")
        || t.has_path("settings.gradle.kts") {
        return PackageManager::Gradle;
    }
    if has_csproj_or_sln(t) {
        return PackageManager::Dotnet;
    }
    if t.has_path("mix.lock") || t.has_path("mix.exs") {
        return PackageManager::Mix;
    }
    if t.has_path("package.json") {
        return PackageManager::Npm;
    }
    PackageManager::Unknown
}

/// Check if the root itself holds a .NET project or solution file.
fn has_csproj_or_sln(t: &DirTree) -> (r: bool)
    ensures
        r == spec_has_csproj_or_sln(t@),
{
    let n = t.entries.len();
    let mut i: usize = 0;
    while i < n
        invariant
            n == t.entries@.len(),
            i <= n,
            forall|j: int|
                0 <= j < i ==> !(is_top_level((#[trigger] t@.entries[j]).path) && (seq_ends_with(
                    t@.entries[j].path,
                    ".csproj"@,
                ) || seq_ends_with(t@.entries[j].path, ".fsproj"@) || seq_ends_with(
                    t@.entries[j].path,
                    ".vbproj"@,
                ) || seq_ends_with(t@.entries[j].path, ".sln"@))),
        decreases n - i,
    {
        proof {
            assert(t@.entries[i as int].path == t.entries@[i as int].path@);
        }
        let p = chars_of(t.entries[i].path.as_str());
        if top_level(&p) {
            let cs = chars_of(".csproj");
            let fs = chars_of(".fsproj");
            let vb = chars_of(".vbproj");
            let sl = chars_of(".sln");
            if chars_end_with(&p, &cs) || chars_end_with(&p, &fs) || chars_end_with(&p, &vb)
                || chars_end_with(&p, &sl) {
                return true;
            }
        }
        i = i + 1;
    }
    false
}

/// Does the path name a direct child (no '/')?
pub fn top_level(p: &Vec<char>) -> (r: bool)
    ensures
        r == is_top_level(p@),
{
    let n = p.len();
    let mut i: usize = 0;
    while i < n
        invariant
            n == p@.len(),
            i <= n,
            forall|j: int| 0 <= j < i ==> p@[j] != '/',
        decreases n - i,
    {
        if p[i] == '/' {
            return false;
        }
        i = i + 1;
    }
    true
}

/// The command that runs script `s` under manager `m`: the managers with a
/// run syntax wrap the script name; the others leave it bare.
pub open spec fn spec_run_command(m: PackageManager, s: Seq<char>) -> Seq<char> {
    match m {
        PackageManager::Npm => "npm run "@ + s,
        PackageManager::Yarn | PackageManager::YarnBerry => "yarn "@ + s,
        PackageManager::Pnpm => "pnpm "@ + s,
        PackageManager::Bun => "bun run "@ + s,
        PackageManager::Deno => "deno task "@ + s,
        _ => s,
    }
}

/// Get the run command for a script based on package manager.
pub fn get_run_command(package_manager: &PackageManager, script: &str) -> (r: String)
    ensures
        r@ == spec_run_command(*package_manager, script@),
{
    match package_manager {
        PackageManager::Npm => String::from_str("npm run ").concat(script),
        PackageManager::Yarn | PackageManager::YarnBerry => String::from_str("yarn ").concat(
            script,
        ),
        PackageManager::Pnpm => String::from_str("pnpm ").concat(script),
        PackageManager::Bun => String::from_str("bun run ").concat(script),
        PackageManager::Deno => String::from_str("deno task ").concat(script),
        _ => String::from_str(script),
    }
}

} // verus!
