//! The evidence-scoring framework classifier.  Instead of a first-match
//! chain, every per-ecosystem scorer accumulates evidence points for a
//! candidate framework, the candidates are pooled, and the candidate with
//! the highest total wins; ties go to the earlier candidate, and a best
//! score of zero yields `Unknown`.
//!
//! Weight guide: 10 marks an exclusive marker file, 7 a strong one, 5 a
//! good but occasionally shared one, 3 a weak one, and small additions
//! (1-5) corroborate (a lockfile next to a manifest).

use vstd::prelude::*;
use crate::cargo_toml::{spec_ct_has_dependency, CargoToml, CargoTomlView};
use crate::fstree::{spec_content, spec_has_path, DirTree, DirTreeView};
use crate::models::Framework;
use crate::package_json::{spec_has_dependency, PackageJson, PackageJsonView};
use crate::text::{chars_contain, chars_of, lower_seq, lower_vec, seq_contains, str_contains_str};

verus! {

/// One scorer's result: a framework and the evidence points behind it.
#[derive(Debug, Clone, Copy, PartialEq, Eq, Structural)]
pub struct Candidate {
    pub framework: Framework,
    pub score: u32,
}

impl Candidate {
    /// A candidate with the given framework and score.
    pub fn new(framework: Framework, score: u32) -> (r: Candidate)
        ensures
            r == (Candidate { framework, score }),
    {
        Candidate { framework, score }
    }
}

/// Shorthand for building a candidate.
pub fn c(framework: Framework, score: u32) -> (r: Candidate)
    ensures
        r == (Candidate { framework, score }),
{
    Candidate::new(framework, score)
}

/// Does the lowercased content of file `p` contain `needle`?
pub open spec fn content_has(t: DirTreeView, p: Seq<char>, needle: Seq<char>) -> bool {
    match spec_content(t, p) {
        Some(c) => seq_contains(lower_seq(c), needle),
        None => false,
    }
}

/// Does the raw content of file `p` contain `needle` (case-sensitive)?
pub open spec fn content_has_exact(t: DirTreeView, p: Seq<char>, needle: Seq<char>) -> bool {
    match spec_content(t, p) {
        Some(c) => seq_contains(c, needle),
        None => false,
    }
}

/// The desktop-shell marker: a `src-tauri` entry or a shell configuration
/// at either expected place.  It is the one unambiguous signal and
/// short-circuits the scoring.
pub open spec fn spec_is_tauri_marker(t: DirTreeView) -> bool {
    spec_has_path(t, "src-tauri"@) || spec_has_path(t, "tauri.conf.json"@) || spec_has_path(
        t,
        "src-tauri/tauri.conf.json"@,
    )
}

/// The Rust scorer: the manifest is exclusive (10), a lockfile
/// corroborates (3), and a known web-framework dependency refines the
/// candidate (7 more).
pub open spec fn spec_score_rust(t: DirTreeView, ct: Option<CargoTomlView>) -> Candidate {
    if !spec_has_path(t, "Cargo.toml"@) {
        Candidate { framework: Framework::Rust, score: 0 }
    } else {
        let bonus: u32 = if spec_has_path(t, "Cargo.lock"@) {
            3
        } else {
            0
        };
        match ct {
            Some(m) => if spec_ct_has_dependency(m, "actix-web"@) {
                Candidate { framework: Framework::ActixWeb, score: (17 + bonus) as u32 }
            } else if spec_ct_has_dependency(m, "axum"@) {
                Candidate { framework: Framework::Axum, score: (17 + bonus) as u32 }
            } else if spec_ct_has_dependency(m, "rocket"@) {
                Candidate { framework: Framework::Rocket, score: (17 + bonus) as u32 }
            } else if spec_ct_has_dependency(m, "warp"@) {
                Candidate { framework: Framework::Warp, score: (17 + bonus) as u32 }
            } else if spec_ct_has_dependency(m, "tide"@) {
                Candidate { framework: Framework::Tide, score: (17 + bonus) as u32 }
            } else {
                Candidate { framework: Framework::Rust, score: (10 + bonus) as u32 }
            },
            None => Candidate { framework: Framework::Rust, score: (10 + bonus) as u32 },
        }
    }
}

/// The PHP scorer: `artisan` is Laravel-exclusive; the Symfony, WordPress
/// and Drupal markers follow; otherwise the composer manifest's content
/// decides, a lockfile corroborating.
pub open spec fn spec_score_php(t: DirTreeView) -> Candidate {
    if spec_has_path(t, "artisan"@) {
        let b1: u32 = if spec_has_path(t, "composer.json"@) {
            7
        } else {
            0
        };
        let b2: u32 = if spec_has_path(t, "composer.lock"@) {
            5
        } else {
            0
        };
        Candidate { framework: Framework::Laravel, score: (10 + b1 + b2) as u32 }
    } else if spec_has_path(t, "symfony.lock"@) {
        Candidate { framework: Framework::Symfony, score: 15 }
    } else if spec_has_path(t, "bin/console"@) {
        Candidate { framework: Framework::Symfony, score: 10 }
    } else if spec_has_path(t, "wp-config.php"@) {
        Candidate { framework: Framework::WordPress, score: 10 }
    } else if spec_has_path(t, "wp-content"@) {
        Candidate { framework: Framework::WordPress, score: 7 }
    } else if spec_has_path(t, "core/lib/Drupal.php"@) {
        Candidate { framework: Framework::Drupal, score: 10 }
    } else if spec_content(t, "composer.json"@) is Some {
        let bonus: u32 = if spec_has_path(t, "composer.lock"@) {
            5
        } else {
            0
        };
        let fw = if content_has(t, "composer.json"@, "laravel/framework"@) {
            Framework::Laravel
        } else if content_has(t, "composer.json"@, "symfony/framework-bundle"@) {
            Framework::Symfony
        } else if content_has(t, "composer.json"@, "codeigniter"@) {
            Framework::CodeIgniter
        } else if content_has(t, "composer.json"@, "yiisoft/yii2"@) {
            Framework::Yii
        } else if content_has(t, "composer.json"@, "cakephp/cakephp"@) {
            Framework::CakePHP
        } else {
            Framework::Php
        };
        Candidate { framework: fw, score: (7 + bonus) as u32 }
    } else if spec_has_path(t, "composer.lock"@) {
        Candidate { framework: Framework::Php, score: 7 }
    } else {
        Candidate { framework: Framework::Php, score: 0 }
    }
}

/// The Python scorer: `manage.py` is Django-exclusive; otherwise the
/// requirements or pyproject content decides; generic entry files score
/// a strong generic candidate.
pub open spec fn spec_score_python(t: DirTreeView) -> Candidate {
    if spec_has_path(t, "manage.py"@) {
        Candidate { framework: Framework::Django, score: 13 }
    } else if spec_content(t, "requirements.txt"@) is Some {
        let fw = if content_has(t, "requirements.txt"@, "django"@) {
            Framework::Django
        } else if content_has(t, "requirements.txt"@, "flask"@) {
            Framework::Flask
        } else if content_has(t, "requirements.txt"@, "fastapi"@) {
            Framework::FastApi
        } else if content_has(t, "requirements.txt"@, "pyramid"@) {
            Framework::Pyramid
        } else if content_has(t, "requirements.txt"@, "tornado"@) {
            Framework::Tornado
        } else {
            Framework::Python
        };
        Candidate { framework: fw, score: 10 }
    } else if spec_content(t, "pyproject.toml"@) is Some {
        let fw = if content_has(t, "pyproject.toml"@, "django"@) {
            Framework::Django
        } else if content_has(t, "pyproject.toml"@, "flask"@) {
            Framework::Flask
        } else if content_has(t, "pyproject.toml"@, "fastapi"@) {
            Framework::FastApi
        } else {
            Framework::Python
        };
        Candidate { framework: fw, score: 10 }
    } else {
        let generic = spec_has_path(t, "app.py"@) || spec_has_path(t, "main.py"@) || spec_has_path(
            t,
            "setup.py"@,
        ) || spec_has_path(t, "Pipfile"@) || spec_has_path(t, "Pipfile.lock"@);
        Candidate {
            framework: Framework::Python,
            score: if generic {
                7
            } else {
                0
            },
        }
    }
}

/// The Ruby scorer: the Rails application markers, then the Gemfile
/// content, a lockfile corroborating.
pub open spec fn spec_score_ruby(t: DirTreeView) -> Candidate {
    if spec_has_path(t, "config/application.rb"@) || spec_has_path(t, "bin/rails"@) {
        Candidate { framework: Framework::Rails, score: 15 }
    } else if spec_content(t, "Gemfile"@) is Some {
        let bonus: u32 = if spec_has_path(t, "Gemfile.lock"@) {
            3
        } else {
            0
        };
        let fw = if content_has(t, "Gemfile"@, "rails"@) {
            Framework::Rails
        } else if content_has(t, "Gemfile"@, "sinatra"@) {
            Framework::Sinatra
        } else if content_has(t, "Gemfile"@, "hanami"@) {
            Framework::Hanami
        } else {
            Framework::Ruby
        };
        Candidate { framework: fw, score: (10 + bonus) as u32 }
    } else {
        Candidate {
            framework: Framework::Ruby,
            score: if spec_has_path(t, "Gemfile.lock"@) {
                7
            } else {
                0
            },
        }
    }
}

/// The Go scorer: the module file's content decides, its checksum file
/// corroborating.
pub open spec fn spec_score_go(t: DirTreeView) -> Candidate {
    if spec_content(t, "go.mod"@) is Some {
        let bonus: u32 = if spec_has_path(t, "go.sum"@) {
            3
        } else {
            0
        };
        let fw = if content_has(t, "go.mod"@, "github.com/gin-gonic/gin"@) {
            Framework::Gin
        } else if content_has(t, "go.mod"@, "github.com/labstack/echo"@) {
            Framework::Echo
        } else if content_has(t, "go.mod"@, "github.com/gofiber/fiber"@) {
            Framework::Fiber
        } else if content_has(t, "go.mod"@, "github.com/go-chi/chi"@) {
            Framework::Chi
        } else if content_has(t, "go.mod"@, "github.com/beego/beego"@) {
            Framework::Beego
        } else {
            Framework::Go
        };
        Candidate { framework: fw, score: (10 + bonus) as u32 }
    } else {
        Candidate {
            framework: Framework::Go,
            score: if spec_has_path(t, "go.sum"@) {
                7
            } else {
                0
            },
        }
    }
}

/// The Java/Kotlin scorer: a Maven or Gradle build file is exclusive, and
/// its content refines the candidate (these needles are matched
/// case-sensitively, as the build files write them).
pub open spec fn spec_score_java(t: DirTreeView) -> Candidate {
    if spec_has_path(t, "pom.xml"@) {
        let fw = match spec_content(t, "pom.xml"@) {
            Some(ct) => if seq_contains(ct, "spring-boot"@) {
                Framework::Spring
            } else if seq_contains(ct, "quarkus"@) {
                Framework::Quarkus
            } else if seq_contains(ct, "micronaut"@) {
                Framework::Micronaut
            } else {
                Framework::Java
            },
            None => Framework::Java,
        };
        Candidate { framework: fw, score: 10 }
    } else if spec_has_path(t, "build.gradle"@) {
        Candidate { framework: spec_gradle_framework(t, "build.gradle"@, false), score: 10 }
    } else if spec_has_path(t, "build.gradle.kts"@) {
        Candidate { framework: spec_gradle_framework(t, "build.gradle.kts"@, true), score: 10 }
    } else {
        Candidate { framework: Framework::Java, score: 0 }
    }
}

/// The framework a Gradle build file names.
pub open spec fn spec_gradle_framework(t: DirTreeView, p: Seq<char>, kts: bool) -> Framework {
    match spec_content(t, p) {
        Some(ct) => if seq_contains(ct, "spring-boot"@) || seq_contains(
            ct,
            "org.springframework"@,
        ) {
            Framework::Spring
        } else if seq_contains(ct, "quarkus"@) {
            Framework::Quarkus
        } else if seq_contains(ct, "micronaut"@) {
            Framework::Micronaut
        } else if seq_contains(ct, "io.ktor"@) {
            Framework::Ktor
        } else if kts {
            Framework::Kotlin
        } else {
            Framework::Java
        },
        None => Framework::Java,
    }
}

/// The first direct child whose name ends in `.csproj` or `.sln`,
/// searched from `i`: the .NET scorer reads the first project file it
/// meets.
pub open spec fn spec_dotnet_from(t: DirTreeView, i: int) -> Candidate
    decreases t.entries.len() - i,
        when 0 <= i <= t.entries.len()
{
    if i >= t.entries.len() {
        Candidate { framework: Framework::CSharp, score: 0 }
    } else if crate::package_manager::is_top_level(t.entries[i].path) && crate::text::seq_ends_with(
        t.entries[i].path,
        ".csproj"@,
    ) {
        let fw = match spec_content(t, t.entries[i].path) {
            Some(ct) => if seq_contains(ct, "Microsoft.NET.Sdk.Web"@) {
                Framework::AspNetCore
            } else if seq_contains(ct, "Microsoft.NET.Sdk.BlazorWebAssembly"@) || seq_contains(
                ct,
                "Blazor"@,
            ) {
                Framework::Blazor
            } else {
                Framework::CSharp
            },
            None => Framework::CSharp,
        };
        Candidate { framework: fw, score: 10 }
    } else if crate::package_manager::is_top_level(t.entries[i].path) && crate::text::seq_ends_with(
        t.entries[i].path,
        ".sln"@,
    ) {
        Candidate { framework: Framework::CSharp, score: 10 }
    } else {
        spec_dotnet_from(t, i + 1)
    }
}

/// The .NET scorer.
pub open spec fn spec_score_dotnet(t: DirTreeView) -> Candidate {
    spec_dotnet_from(t, 0)
}

/// The Elixir scorer: the mix manifest (10) plus its lockfile (5).
pub open spec fn spec_score_elixir(t: DirTreeView) -> Candidate {
    let a: u32 = if spec_has_path(t, "mix.exs"@) {
        10
    } else {
        0
    };
    let b: u32 = if spec_has_path(t, "mix.lock"@) {
        5
    } else {
        0
    };
    Candidate { framework: Framework::Elixir, score: (a + b) as u32 }
}

/// The Deno scorer.
pub open spec fn spec_score_deno(t: DirTreeView) -> Candidate {
    Candidate {
        framework: Framework::Deno,
        score: if spec_has_path(t, "deno.json"@) || spec_has_path(t, "deno.jsonc"@) {
            10
        } else {
            0
        },
    }
}

/// Generic Node.js presence: kept low so specific framework candidates
/// from the manifest always outweigh this fallback.
pub open spec fn spec_score_node(t: DirTreeView) -> Candidate {
    let a: u32 = if spec_has_path(t, "package.json"@) {
        3
    } else {
        0
    };
    let b: u32 = if spec_has_path(t, "package-lock.json"@) || spec_has_path(t, "yarn.lock"@)
        || spec_has_path(t, "pnpm-lock.yaml"@) || spec_has_path(t, "bun.lock"@) || spec_has_path(
        t,
        "bun.lockb"@,
    ) {
        5
    } else {
        0
    };
    Candidate { framework: Framework::Node, score: (a + b) as u32 }
}

/// The candidates kept: those with a positive score, in order.
pub open spec fn spec_positive(cs: Seq<Candidate>) -> Seq<Candidate>
    decreases cs.len(),
{
    if cs.len() == 0 {
        Seq::empty()
    } else {
        let init = spec_positive(cs.drop_last());
        if cs.last().score > 0 {
            init.push(cs.last())
        } else {
            init
        }
    }
}

/// Part of the node sub-framework candidate table.
pub open spec fn spec_nf_meta(pkg: PackageJsonView, t: DirTreeView) -> Seq<Candidate> {
    seq![
        Candidate { framework: Framework::NextJs, score: nf_score(spec_has_dependency(pkg, "next"@), 10) },
        Candidate { framework: Framework::NuxtJs, score: nf_score(spec_has_dependency(pkg, "nuxt"@) || spec_has_dependency(pkg, "nuxt3"@), 10) },
        Candidate { framework: Framework::Remix, score: nf_score(spec_has_dependency(pkg, "@remix-run/react"@) || spec_has_dependency(pkg, "@remix-run/node"@), 10) },
        Candidate { framework: Framework::Astro, score: nf_score(spec_has_dependency(pkg, "astro"@), 10) },
        Candidate { framework: Framework::Gatsby, score: nf_score(spec_has_dependency(pkg, "gatsby"@), 10) },
        Candidate { framework: Framework::SvelteKit, score: nf_score(spec_has_dependency(pkg, "@sveltejs/kit"@), 10) },
        Candidate { framework: Framework::Electron, score: nf_score(spec_has_dependency(pkg, "electron"@) || spec_has_dependency(pkg, "electron-builder"@), 10) },
        Candidate { framework: Framework::Neutralino, score: nf_score(spec_has_dependency(pkg, "@aspect/neutralino"@) || spec_has_path(t, "neutralino.config.json"@), 10) },
    ]
}

/// Part of the node sub-framework candidate table.
pub open spec fn spec_nf_mobile(pkg: PackageJsonView, t: DirTreeView) -> Seq<Candidate> {
    seq![
        Candidate { framework: Framework::ReactNative, score: nf_score(spec_has_dependency(pkg, "react-native"@), 10) },
        Candidate { framework: Framework::Expo, score: nf_score(spec_has_dependency(pkg, "expo"@), 10) },
        Candidate { framework: Framework::Ionic, score: nf_score(spec_has_dependency(pkg, "@ionic/core"@) || spec_has_dependency(pkg, "@ionic/react"@) || spec_has_dependency(pkg, "@ionic/vue"@) || spec_has_dependency(pkg, "@ionic/angular"@), 10) },
        Candidate { framework: Framework::Capacitor, score: nf_score(spec_has_dependency(pkg, "@capacitor/core"@), 10) },
        Candidate { framework: Framework::NestJs, score: nf_score(spec_has_dependency(pkg, "@nestjs/core"@), 10) },
        Candidate { framework: Framework::AdonisJs, score: nf_score(spec_has_dependency(pkg, "@adonisjs/core"@), 10) },
        Candidate { framework: Framework::Strapi, score: nf_score(spec_has_dependency(pkg, "strapi"@) || spec_has_dependency(pkg, "@strapi/strapi"@), 10) },
        Candidate { framework: Framework::Fastify, score: nf_score(spec_has_dependency(pkg, "fastify"@), 9) },
    ]
}

/// Part of the node sub-framework candidate table.
pub open spec fn spec_nf_backend(pkg: PackageJsonView, t: DirTreeView) -> Seq<Candidate> {
    seq![
        Candidate { framework: Framework::Koa, score: nf_score(spec_has_dependency(pkg, "koa"@), 9) },
        Candidate { framework: Framework::Hapi, score: nf_score(spec_has_dependency(pkg, "@hapi/hapi"@) || spec_has_dependency(pkg, "hapi"@), 9) },
        Candidate { framework: Framework::Express, score: nf_score(spec_has_dependency(pkg, "express"@), 8) },
        Candidate { framework: Framework::Angular, score: nf_score(spec_has_dependency(pkg, "@angular/core"@), 10) },
        Candidate { framework: Framework::Vue, score: nf_score(spec_has_dependency(pkg, "vue"@), 9) },
        Candidate { framework: Framework::Svelte, score: nf_score(spec_has_dependency(pkg, "svelte"@), 9) },
        Candidate { framework: Framework::Solid, score: nf_score(spec_has_dependency(pkg, "solid-js"@), 9) },
        Candidate { framework: Framework::Preact, score: nf_score(spec_has_dependency(pkg, "preact"@), 9) },
    ]
}

/// Part of the node sub-framework candidate table.
pub open spec fn spec_nf_frontend(pkg: PackageJsonView, t: DirTreeView) -> Seq<Candidate> {
    seq![
        Candidate { framework: Framework::Qwik, score: nf_score(spec_has_dependency(pkg, "@builder.io/qwik"@), 9) },
        Candidate { framework: Framework::React, score: nf_score(spec_has_dependency(pkg, "react"@) || spec_has_dependency(pkg, "react-dom"@), 8) },
        Candidate { framework: Framework::Vite, score: nf_score(spec_has_dependency(pkg, "vite"@) || spec_has_path(t, "vite.config.ts"@) || spec_has_path(t, "vite.config.js"@), 5) },
        Candidate { framework: Framework::Webpack, score: nf_score(spec_has_dependency(pkg, "webpack"@), 5) },
        Candidate { framework: Framework::Parcel, score: nf_score(spec_has_dependency(pkg, "parcel"@), 5) },
        Candidate { framework: Framework::Esbuild, score: nf_score(spec_has_dependency(pkg, "esbuild"@), 5) },
        Candidate { framework: Framework::Turbopack, score: nf_score(spec_has_dependency(pkg, "turbopack"@) || spec_has_dependency(pkg, "@vercel/turbopack"@), 5) },
        Candidate { framework: Framework::Bun, score: nf_score(spec_has_path(t, "bun.lock"@) || spec_has_path(t, "bun.lockb"@), 8) },
    ]
}

/// The fixed table of node sub-framework candidates, scored from the
/// manifest (and a few marker files); zero marks the absent ones.
pub open spec fn spec_nf_all(pkg: PackageJsonView, t: DirTreeView) -> Seq<Candidate> {
    spec_nf_meta(pkg, t) + spec_nf_mobile(pkg, t) + spec_nf_backend(pkg, t) + spec_nf_frontend(
        pkg,
        t,
    )
}

/// `w` when the marker holds, else zero.
pub open spec fn nf_score(has: bool, w: u32) -> u32 {
    if has {
        w
    } else {
        0
    }
}

/// One candidate per specific node framework the manifest names, in a
/// fixed order, so they compete head-to-head with the other ecosystems.
pub open spec fn spec_score_node_frameworks(pkg: PackageJsonView, t: DirTreeView) -> Seq<
    Candidate,
> {
    spec_positive(spec_nf_all(pkg, t))
}

/// All pooled candidates, in scorer order.
pub open spec fn spec_candidates(
    t: DirTreeView,
    pkg: Option<PackageJsonView>,
    ct: Option<CargoTomlView>,
) -> Seq<Candidate> {
    seq![
        spec_score_rust(t, ct),
        spec_score_php(t),
        spec_score_python(t),
        spec_score_ruby(t),
        spec_score_go(t),
        spec_score_java(t),
        spec_score_dotnet(t),
        spec_score_elixir(t),
        spec_score_deno(t),
        spec_score_node(t),
    ] + (match pkg {
        Some(p) => spec_score_node_frameworks(p, t),
        None => Seq::empty(),
    })
}

/// The best candidate of a pool: the highest score wins, and of two equal
/// scores the earlier candidate.
pub open spec fn spec_best(cs: Seq<Candidate>) -> Candidate
    decreases cs.len(),
{
    if cs.len() == 0 {
        Candidate { framework: Framework::Unknown, score: 0 }
    } else {
        let rest = spec_best(cs.drop_last());
        if rest.score >= cs.last().score {
            rest
        } else {
            cs.last()
        }
    }
}

/// The framework the classifier returns for this snapshot: the desktop
/// shell when its marker is present, else the best-scoring candidate, or
/// `Unknown` when no evidence at all was found.
pub open spec fn spec_detect_framework(
    t: DirTreeView,
    pkg: Option<PackageJsonView>,
    ct: Option<CargoTomlView>,
) -> Framework {
    if spec_is_tauri_marker(t) {
        Framework::Tauri
    } else {
        let b = spec_best(spec_candidates(t, pkg, ct));
        if b.score > 0 {
            b.framework
        } else {
            Framework::Unknown
        }
    }
}

/// Resolve the primary framework of one directory from the pooled
/// evidence of every ecosystem scorer.
pub fn detect_framework(
    t: &DirTree,
    package_json: Option<&PackageJson>,
    cargo_toml: Option<&CargoToml>,
) -> (r: Framework)
    ensures
        r == spec_detect_framework(
            t@,
            (match package_json {
                Some(p) => Some(p@),
                None => None,
            }),
            (match cargo_toml {
                Some(c) => Some(c@),
                None => None,
            }),
        ),
{
    if t.has_path("src-tauri") || t.has_path("tauri.conf.json") || t.has_path(
        "src-tauri/tauri.conf.json",
    ) {
        return Framework::Tauri;
    }
    let ghost pkgv: Option<PackageJsonView> = match package_json {
        Some(p) => Some(p@),
        None => None,
    };
    let ghost ctv: Option<CargoTomlView> = match cargo_toml {
        Some(c) => Some(c@),
        None => None,
    };
    let mut cands: Vec<Candidate> = Vec::new();
    cands.push(score_rust(t, cargo_toml));
    cands.push(score_php(t));
    cands.push(score_python(t));
    cands.push(score_ruby(t));
    cands.push(score_go(t));
    cands.push(score_java(t));
    cands.push(score_dotnet(t));
    cands.push(score_elixir(t));
    cands.push(score_deno(t));
    cands.push(score_node(t));
    if let Some(pkg) = package_json {
        score_node_frameworks(pkg, t, &mut cands);
    }
    proof {
        assert(cands@ =~= spec_candidates(t@, pkgv, ctv));
    }
    let mut best = Candidate { framework: Framework::Unknown, score: 0 };
    let n = cands.len();
    let mut i: usize = 0;
    while i < n
        invariant
            n == cands@.len(),
            i <= n,
            best == spec_best(cands@.subrange(0, i as int)),
        decreases n - i,
    {
        proof {
            assert(cands@.subrange(0, i + 1).drop_last() =~= cands@.subrange(0, i as int));
            assert(cands@.subrange(0, i + 1).last() == cands@[i as int]);
        }
        if cands[i].score > best.score {
            best = cands[i];
        }
        i = i + 1;
    }
    proof {
        assert(cands@.subrange(0, n as int) =~= cands@);
    }
    if best.score > 0 {
        best.framework
    } else {
        Framework::Unknown
    }
}

/// Rust ecosystem scorer.
fn score_rust(t: &DirTree, cargo_toml: Option<&CargoToml>) -> (r: Candidate)
    ensures
        r == spec_score_rust(
            t@,
            (match cargo_toml {
                Some(c) => Some(c@),
                None => None,
            }),
        ),
{
    if !t.has_path("Cargo.toml") {
        return c(Framework::Rust, 0);
    }
    let lock_bonus: u32 = if t.has_path("Cargo.lock") {
        3
    } else {
        0
    };
    if let Some(ct) = cargo_toml {
        if ct.has_dependency("actix-web") {
            return c(Framework::ActixWeb, 17 + lock_bonus);
        }
        if ct.has_dependency("axum") {
            return c(Framework::Axum, 17 + lock_bonus);
        }
        if ct.has_dependency("rocket") {
            return c(Framework::Rocket, 17 + lock_bonus);
        }
        if ct.has_dependency("warp") {
            return c(Framework::Warp, 17 + lock_bonus);
        }
        if ct.has_dependency("tide") {
            return c(Framework::Tide, 17 + lock_bonus);
        }
    }
    c(Framework::Rust, 10 + lock_bonus)
}

/// Does the lowercased content of `p` contain `needle`, at run time?
fn file_has(t: &DirTree, p: &str, needle: &str) -> (r: bool)
    ensures
        r == content_has(t@, p@, needle@),
{
    match t.content_of(p) {
        Some(content) => {
            let ch = chars_of(content.as_str());
            let low = lower_vec(&ch);
            let nd = chars_of(needle);
            chars_contain(&low, &nd)
        },
        None => false,
    }
}

/// Does the raw content of `p` contain `needle`, at run time?
fn file_has_exact(t: &DirTree, p: &str, needle: &str) -> (r: bool)
    ensures
        r == content_has_exact(t@, p@, needle@),
{
    match t.content_of(p) {
        Some(content) => str_contains_str(content.as_str(), needle),
        None => false,
    }
}

/// PHP ecosystem scorer.
fn score_php(t: &DirTree) -> (r: Candidate)
    ensures
        r == spec_score_php(t@),
{
    if t.has_path("artisan") {
        let b1: u32 = if t.has_path("composer.json") {
            7
        } else {
            0
        };
        let b2: u32 = if t.has_path("composer.lock") {
            5
        } else {
            0
        };
        return c(Framework::Laravel, 10 + b1 + b2);
    }
    if t.has_path("symfony.lock") {
        return c(Framework::Symfony, 15);
    }
    if t.has_path("bin/console") {
        return c(Framework::Symfony, 10);
    }
    if t.has_path("wp-config.php") {
        return c(Framework::WordPress, 10);
    }
    if t.has_path("wp-content") {
        return c(Framework::WordPress, 7);
    }
    if t.has_path("core/lib/Drupal.php") {
        return c(Framework::Drupal, 10);
    }
    if t.content_of("composer.json").is_some() {
        let lock_bonus: u32 = if t.has_path("composer.lock") {
            5
        } else {
            0
        };
        let framework = if file_has(t, "composer.json", "laravel/framework") {
            Framework::Laravel
        } else if file_has(t, "composer.json", "symfony/framework-bundle") {
            Framework::Symfony
        } else if file_has(t, "composer.json", "codeigniter") {
            Framework::CodeIgniter
        } else if file_has(t, "composer.json", "yiisoft/yii2") {
            Framework::Yii
        } else if file_has(t, "composer.json", "cakephp/cakephp") {
            Framework::CakePHP
        } else {
            Framework::Php
        };
        return c(framework, 7 + lock_bonus);
    }
    if t.has_path("composer.lock") {
        return c(Framework::Php, 7);
    }
    c(Framework::Php, 0)
}

/// Python ecosystem scorer.
fn score_python(t: &DirTree) -> (r: Candidate)
    ensures
        r == spec_score_python(t@),
{
    if t.has_path("manage.py") {
        return c(Framework::Django, 13);
    }
    if t.content_of("requirements.txt").is_some() {
        let framework = if file_has(t, "requirements.txt", "django") {
            Framework::Django
        } else if file_has(t, "requirements.txt", "flask") {
            Framework::Flask
        } else if file_has(t, "requirements.txt", "fastapi") {
            Framework::FastApi
        } else if file_has(t, "requirements.txt", "pyramid") {
            Framework::Pyramid
        } else if file_has(t, "requirements.txt", "tornado") {
            Framework::Tornado
        } else {
            Framework::Python
        };
        return c(framework, 10);
    }
    if t.content_of("pyproject.toml").is_some() {
        let framework = if file_has(t, "pyproject.toml", "django") {
            Framework::Django
        } else if file_has(t, "pyproject.toml", "flask") {
            Framework::Flask
        } else if file_has(t, "pyproject.toml", "fastapi") {
            Framework::FastApi
        } else {
            Framework::Python
        };
        return c(framework, 10);
    }
    let generic = t.has_path("app.py") || t.has_path("main.py") || t.has_path("setup.py")
        || t.has_path("Pipfile") || t.has_path("Pipfile.lock");
    c(
        Framework::Python,
        if generic {
            7
        } else {
            0
        },
    )
}

/// Ruby ecosystem scorer.
fn score_ruby(t: &DirTree) -> (r: Candidate)
    ensures
        r == spec_score_ruby(t@),
{
    if t.has_path("config/application.rb") || t.has_path("bin/rails") {
        return c(Framework::Rails, 15);
    }
    if t.content_of("Gemfile").is_some() {
        let lock_bonus: u32 = if t.has_path("Gemfile.lock") {
            3
        } else {
            0
        };
        let framework = if file_has(t, "Gemfile", "rails") {
            Framework::Rails
        } else if file_has(t, "Gemfile", "sinatra") {
            Framework::Sinatra
        } else if file_has(t, "Gemfile", "hanami") {
            Framework::Hanami
        } else {
            Framework::Ruby
        };
        return c(framework, 10 + lock_bonus);
    }
    c(
        Framework::Ruby,
        if t.has_path("Gemfile.lock") {
            7
        } else {
            0
        },
    )
}

/// Go ecosystem scorer.
fn score_go(t: &DirTree) -> (r: Candidate)
    ensures
        r == spec_score_go(t@),
{
    if t.content_of("go.mod").is_some() {
        let sum_bonus: u32 = if t.has_path("go.sum") {
            3
        } else {
            0
        };
        let framework = if file_has(t, "go.mod", "github.com/gin-gonic/gin") {
            Framework::Gin
        } else if file_has(t, "go.mod", "github.com/labstack/echo") {
            Framework::Echo
        } else if file_has(t, "go.mod", "github.com/gofiber/fiber") {
            Framework::Fiber
        } else if file_has(t, "go.mod", "github.com/go-chi/chi") {
            Framework::Chi
        } else if file_has(t, "go.mod", "github.com/beego/beego") {
            Framework::Beego
        } else {
            Framework::Go
        };
        return c(framework, 10 + sum_bonus);
    }
    c(
        Framework::Go,
        if t.has_path("go.sum") {
            7
        } else {
            0
        },
    )
}

/// Java/Kotlin ecosystem scorer.
fn score_java(t: &DirTree) -> (r: Candidate)
    ensures
        r == spec_score_java(t@),
{
    if t.has_path("pom.xml") {
        let framework = if file_has_exact(t, "pom.xml", "spring-boot") {
            Framework::Spring
        } else if file_has_exact(t, "pom.xml", "quarkus") {
            Framework::Quarkus
        } else if file_has_exact(t, "pom.xml", "micronaut") {
            Framework::Micronaut
        } else {
            Framework::Java
        };
        proof {
            if spec_content(t@, "pom.xml"@) is None {
                assert(framework == Framework::Java);
            }
        }
        return c(framework, 10);
    }
    if t.has_path("build.gradle") {
        return c(gradle_framework(t, "build.gradle", false), 10);
    }
    if t.has_path("build.gradle.kts") {
        return c(gradle_framework(t, "build.gradle.kts", true), 10);
    }
    c(Framework::Java, 0)
}

/// The framework a Gradle build file names, at run time.
fn gradle_framework(t: &DirTree, p: &str, kts: bool) -> (r: Framework)
    ensures
        r == spec_gradle_framework(t@, p@, kts),
{
    if t.content_of(p).is_some() {
        if file_has_exact(t, p, "spring-boot") || file_has_exact(t, p, "org.springframework") {
            Framework::Spring
        } else if file_has_exact(t, p, "quarkus") {
            Framework::Quarkus
        } else if file_has_exact(t, p, "micronaut") {
            Framework::Micronaut
        } else if file_has_exact(t, p, "io.ktor") {
            Framework::Ktor
        } else if kts {
            Framework::Kotlin
        } else {
            Framework::Java
        }
    } else {
        Framework::Java
    }
}

/// .NET ecosystem scorer: the first top-level project or solution file
/// decides.
fn score_dotnet(t: &DirTree) -> (r: Candidate)
    ensures
        r == spec_score_dotnet(t@),
{
    let n = t.entries.len();
    let mut i: usize = 0;
    while i < n
        invariant
            n == t.entries@.len(),
            i <= n,
            spec_dotnet_from(t@, 0) == spec_dotnet_from(t@, i as int),
        decreases n - i,
    {
        proof {
            assert(t@.entries[i as int].path == t.entries@[i as int].path@);
        }
        let p = chars_of(t.entries[i].path.as_str());
        let top = crate::package_manager::top_level(&p);
        if top {
            let cs = chars_of(".csproj");
            if crate::text::chars_end_with(&p, &cs) {
                let framework = if file_has_exact(
                    t,
                    t.entries[i].path.as_str(),
                    "Microsoft.NET.Sdk.Web",
                ) {
                    Framework::AspNetCore
                } else if file_has_exact(
                    t,
                    t.entries[i].path.as_str(),
                    "Microsoft.NET.Sdk.BlazorWebAssembly",
                ) || file_has_exact(t, t.entries[i].path.as_str(), "Blazor") {
                    Framework::Blazor
                } else {
                    Framework::CSharp
                };
                proof {
                    if spec_content(t@, t@.entries[i as int].path) is None {
                        assert(framework == Framework::CSharp);
                    }
                }
                return c(framework, 10);
            }
            let sl = chars_of(".sln");
            if crate::text::chars_end_with(&p, &sl) {
                return c(Framework::CSharp, 10);
            }
        }
        i = i + 1;
    }
    c(Framework::CSharp, 0)
}

/// Elixir ecosystem scorer.
fn score_elixir(t: &DirTree) -> (r: Candidate)
    ensures
        r == spec_score_elixir(t@),
{
    let mix_exs: u32 = if t.has_path("mix.exs") {
        10
    } else {
        0
    };
    let mix_lock: u32 = if t.has_path("mix.lock") {
        5
    } else {
        0
    };
    c(Framework::Elixir, mix_exs + mix_lock)
}

/// Deno ecosystem scorer.
fn score_deno(t: &DirTree) -> (r: Candidate)
    ensures
        r == spec_score_deno(t@),
{
    let score: u32 = if t.has_path("deno.json") || t.has_path("deno.jsonc") {
        10
    } else {
        0
    };
    c(Framework::Deno, score)
}

/// Generic Node.js scorer.
fn score_node(t: &DirTree) -> (r: Candidate)
    ensures
        r == spec_score_node(t@),
{
    let has_pkg: u32 = if t.has_path("package.json") {
        3
    } else {
        0
    };
    let has_lock: u32 = if t.has_path("package-lock.json") || t.has_path("yarn.lock") || t.has_path(
        "pnpm-lock.yaml",
    ) || t.has_path("bun.lock") || t.has_path("bun.lockb") {
        5
    } else {
        0
    };
    c(Framework::Node, has_pkg + has_lock)
}

/// Node sub-framework scorer: appends one candidate per framework the
/// manifest names.
fn score_node_frameworks(pkg: &PackageJson, t: &DirTree, out: &mut Vec<Candidate>)
    ensures
        final(out)@ == old(out)@ + spec_score_node_frameworks(pkg@, t@),
{
    let all = nf_all(pkg, t);
    let ghost base = out@;
    let n = all.len();
    let mut i: usize = 0;
    while i < n
        invariant
            n == all@.len(),
            i <= n,
            all@ == spec_nf_all(pkg@, t@),
            out@ == base + spec_positive(all@.subrange(0, i as int)),
        decreases n - i,
    {
        proof {
            assert(all@.subrange(0, i + 1).drop_last() =~= all@.subrange(0, i as int));
            assert(all@.subrange(0, i + 1).last() == all@[i as int]);
        }
        if all[i].score > 0 {
            out.push(all[i]);
            proof {
                assert(out@ =~= base + spec_positive(all@.subrange(0, i + 1)));
            }
        }
        i = i + 1;
    }
    proof {
        assert(all@.subrange(0, n as int) =~= all@);
    }
}

/// The full node sub-framework candidate table, at run time.
fn nf_all(pkg: &PackageJson, t: &DirTree) -> (r: Vec<Candidate>)
    ensures
        r@ == spec_nf_all(pkg@, t@),
{
    let mut r = nf_meta(pkg, t);
    let mut b = nf_mobile(pkg, t);
    r.append(&mut b);
    let mut cdl = nf_backend(pkg, t);
    r.append(&mut cdl);
    let mut d = nf_frontend(pkg, t);
    r.append(&mut d);
    r
}

/// Part of the node sub-framework candidate table, at run time.
fn nf_meta(pkg: &PackageJson, t: &DirTree) -> (r: Vec<Candidate>)
    ensures
        r@ == spec_nf_meta(pkg@, t@),
{
    let mut r: Vec<Candidate> = Vec::new();
    r.push(c(Framework::NextJs, w(pkg.has_dependency("next"), 10)));
    r.push(c(Framework::NuxtJs, w(pkg.has_dependency("nuxt") || pkg.has_dependency("nuxt3"), 10)));
    r.push(
        c(
            Framework::Remix,
            w(pkg.has_dependency("@remix-run/react") || pkg.has_dependency("@remix-run/node"), 10),
        ),
    );
    r.push(c(Framework::Astro, w(pkg.has_dependency("astro"), 10)));
    r.push(c(Framework::Gatsby, w(pkg.has_dependency("gatsby"), 10)));
    r.push(c(Framework::SvelteKit, w(pkg.has_dependency("@sveltejs/kit"), 10)));
    r.push(
        c(
            Framework::Electron,
            w(pkg.has_dependency("electron") || pkg.has_dependency("electron-builder"), 10),
        ),
    );
    r.push(
        c(
            Framework::Neutralino,
            w(pkg.has_dependency("@aspect/neutralino") || t.has_path("neutralino.config.json"), 10),
        ),
    );
    proof {
        assert(r@ =~= spec_nf_meta(pkg@, t@));
    }
    r
}

/// Part of the node sub-framework candidate table, at run time.
fn nf_mobile(pkg: &PackageJson, t: &DirTree) -> (r: Vec<Candidate>)
    ensures
        r@ == spec_nf_mobile(pkg@, t@),
{
    let mut r: Vec<Candidate> = Vec::new();
    r.push(c(Framework::ReactNative, w(pkg.has_dependency("react-native"), 10)));
    r.push(c(Framework::Expo, w(pkg.has_dependency("expo"), 10)));
    r.push(
        c(
            Framework::Ionic,
            w(
                pkg.has_dependency("@ionic/core") || pkg.has_dependency("@ionic/react")
                    || pkg.has_dependency("@ionic/vue") || pkg.has_dependency("@ionic/angular"),
                10,
            ),
        ),
    );
    r.push(c(Framework::Capacitor, w(pkg.has_dependency("@capacitor/core"), 10)));
    r.push(c(Framework::NestJs, w(pkg.has_dependency("@nestjs/core"), 10)));
    r.push(c(Framework::AdonisJs, w(pkg.has_dependency("@adonisjs/core"), 10)));
    r.push(
        c(
            Framework::Strapi,
            w(pkg.has_dependency("strapi") || pkg.has_dependency("@strapi/strapi"), 10),
        ),
    );
    r.push(c(Framework::Fastify, w(pkg.has_dependency("fastify"), 9)));
    proof {
        assert(r@ =~= spec_nf_mobile(pkg@, t@));
    }
    r
}

/// Part of the node sub-framework candidate table, at run time.
fn nf_backend(pkg: &PackageJson, t: &DirTree) -> (r: Vec<Candidate>)
    ensures
        r@ == spec_nf_backend(pkg@, t@),
{
    let mut r: Vec<Candidate> = Vec::new();
    r.push(c(Framework::Koa, w(pkg.has_dependency("koa"), 9)));
    r.push(
        c(Framework::Hapi, w(pkg.has_dependency("@hapi/hapi") || pkg.has_dependency("hapi"), 9)),
    );
    r.push(c(Framework::Express, w(pkg.has_dependency("express"), 8)));
    r.push(c(Framework::Angular, w(pkg.has_dependency("@angular/core"), 10)));
    r.push(c(Framework::Vue, w(pkg.has_dependency("vue"), 9)));
    r.push(c(Framework::Svelte, w(pkg.has_dependency("svelte"), 9)));
    r.push(c(Framework::Solid, w(pkg.has_dependency("solid-js"), 9)));
    r.push(c(Framework::Preact, w(pkg.has_dependency("preact"), 9)));
    proof {
        assert(r@ =~= spec_nf_backend(pkg@, t@));
    }
    r
}

/// Part of the node sub-framework candidate table, at run time.
fn nf_frontend(pkg: &PackageJson, t: &DirTree) -> (r: Vec<Candidate>)
    ensures
        r@ == spec_nf_frontend(pkg@, t@),
{
    let mut r: Vec<Candidate> = Vec::new();
    r.push(c(Framework::Qwik, w(pkg.has_dependency("@builder.io/qwik"), 9)));
    r.push(
        c(Framework::React, w(pkg.has_dependency("react") || pkg.has_dependency("react-dom"), 8)),
    );
    r.push(
        c(
            Framework::Vite,
            w(
                pkg.has_dependency("vite") || t.has_path("vite.config.ts") || t.has_path(
                    "vite.config.js",
                ),
                5,
            ),
        ),
    );
    r.push(c(Framework::Webpack, w(pkg.has_dependency("webpack"), 5)));
    r.push(c(Framework::Parcel, w(pkg.has_dependency("parcel"), 5)));
    r.push(c(Framework::Esbuild, w(pkg.has_dependency("esbuild"), 5)));
    r.push(
        c(
            Framework::Turbopack,
            w(pkg.has_dependency("turbopack") || pkg.has_dependency("@vercel/turbopack"), 5),
        ),
    );
    r.push(c(Framework::Bun, w(t.has_path("bun.lock") || t.has_path("bun.lockb"), 8)));
    proof {
        assert(r@ =~= spec_nf_frontend(pkg@, t@));
    }
    r
}

/// `weight` when the marker holds, else zero, at run time.
fn w(has: bool, weight: u32) -> (r: u32)
    ensures
        r == nf_score(has, weight),
{
    if has {
        weight
    } else {
        0
    }
}


/// No candidate beats the best: the pool's choice carries the maximal
/// score.
pub proof fn lemma_best_is_max(cs: Seq<Candidate>)
    ensures
        forall|i: int| 0 <= i < cs.len() ==> (#[trigger] cs[i]).score <= spec_best(cs).score,
    decreases cs.len(),
{
    if cs.len() > 0 {
        lemma_best_is_max(cs.drop_last());
        assert(forall|i: int|
            0 <= i < cs.len() - 1 ==> (#[trigger] cs[i]).score == cs.drop_last()[i].score);
    }
}

/// Tie-break determinism: when the best score is positive, the choice is
/// exactly the earliest candidate with that score — candidates of equal
/// score can never displace an earlier one, and the choice is a pure
/// function of the pool, the same on every run.
#[verifier::rlimit(50)]
pub proof fn lemma_winner_earliest_max(cs: Seq<Candidate>)
    requires
        spec_best(cs).score > 0,
    ensures
        exists|k: int|
            0 <= k < cs.len() && #[trigger] cs[k] == spec_best(cs) && (forall|j: int|
                0 <= j < k ==> (#[trigger] cs[j]).score < spec_best(cs).score),
    decreases cs.len(),
{
    if cs.len() > 0 {
        let rest = cs.drop_last();
        let last = cs.last();
        assert(forall|j: int| 0 <= j < rest.len() ==> #[trigger] cs[j] == rest[j]);
        if spec_best(rest).score >= last.score {
            lemma_winner_earliest_max(rest);
            let k = choose|k: int|
                0 <= k < rest.len() && #[trigger] rest[k] == spec_best(rest) && (forall|j: int|
                    0 <= j < k ==> (#[trigger] rest[j]).score < spec_best(rest).score);
            assert(cs[k] == spec_best(cs));
            assert(forall|j: int| 0 <= j < k ==> (#[trigger] cs[j]).score < spec_best(cs).score);
        } else {
            lemma_best_is_max(rest);
            let k = cs.len() - 1;
            assert(cs[k] == spec_best(cs));
            assert(forall|j: int| 0 <= j < k ==> (#[trigger] cs[j]).score < spec_best(cs).score);
        }
    }
}

/// Evidence monotonicity at the pool: when the candidates of one
/// framework only gain score and every other candidate keeps its score,
/// a winning framework keeps winning, with a score at least as high.
pub proof fn lemma_winner_monotone(cs1: Seq<Candidate>, cs2: Seq<Candidate>, f: Framework)
    requires
        cs1.len() == cs2.len(),
        forall|i: int|
            0 <= i < cs1.len() ==> (#[trigger] cs2[i]).framework == cs1[i].framework,
        forall|i: int|
            0 <= i < cs1.len() && (#[trigger] cs1[i]).framework == f ==> cs2[i].score
                >= cs1[i].score,
        forall|i: int|
            0 <= i < cs1.len() && (#[trigger] cs1[i]).framework != f ==> cs2[i].score
                == cs1[i].score,
        spec_best(cs1).score > 0,
        spec_best(cs1).framework == f,
    ensures
        spec_best(cs2).score >= spec_best(cs1).score,
        spec_best(cs2).framework == f,
{
    lemma_winner_earliest_max(cs1);
    let k1 = choose|k: int|
        0 <= k < cs1.len() && #[trigger] cs1[k] == spec_best(cs1) && (forall|j: int|
            0 <= j < k ==> (#[trigger] cs1[j]).score < spec_best(cs1).score);
    lemma_best_is_max(cs2);
    assert(cs2[k1].score >= cs1[k1].score);
    assert(spec_best(cs2).score >= spec_best(cs1).score);
    lemma_winner_earliest_max(cs2);
    let k2 = choose|k: int|
        0 <= k < cs2.len() && #[trigger] cs2[k] == spec_best(cs2) && (forall|j: int|
            0 <= j < k ==> (#[trigger] cs2[j]).score < spec_best(cs2).score);
    if cs2[k2].framework != f {
        assert(cs2[k2].score == cs1[k2].score);
        lemma_best_is_max(cs1);
        assert(cs1[k2].score <= spec_best(cs1).score);
        assert(spec_best(cs2).score == spec_best(cs1).score);
        assert(k2 != k1);
        if k2 < k1 {
            assert(cs1[k2].score < spec_best(cs1).score);
            assert(false);
        } else {
            assert(cs2[k1].score < spec_best(cs2).score);
            assert(false);
        }
    }
}

/// `t2` carries every marker path of `t1`.
pub open spec fn paths_superset(t1: DirTreeView, t2: DirTreeView) -> bool {
    forall|p: Seq<char>| spec_has_path(t1, p) ==> #[trigger] spec_has_path(t2, p)
}

/// Marker monotonicity of the purely path-driven scorers: adding marker
/// files never lowers the node, Elixir or Deno candidate's score.
pub proof fn lemma_marker_scorers_monotone(t1: DirTreeView, t2: DirTreeView)
    requires
        paths_superset(t1, t2),
    ensures
        spec_score_node(t2).score >= spec_score_node(t1).score,
        spec_score_elixir(t2).score >= spec_score_elixir(t1).score,
        spec_score_deno(t2).score >= spec_score_deno(t1).score,
{
}
} // verus!
