//! The framework knowledge base: descriptive records and advisory scores,
//! keyed by the exact, case-sensitive display name of a framework.

use vstd::prelude::*;

use crate::project_info::{details_of, texts_of, FrameworkDetails, FrameworkDetailsView};
use crate::text::{is_text, to_chars};

verus! {

/// The display names that the knowledge base has a record for.
pub open spec fn known_frameworks() -> Seq<Seq<char>> {
    seq![
        "Axum"@,
        "Actix Web"@,
        "Rocket"@,
        "Warp"@,
        "Bevy"@,
        "Clap (CLI)"@,
        "React"@,
        "Vue"@,
        "Angular"@,
        "Svelte"@,
        "Express"@,
        "Next.js"@,
        "Nuxt"@,
        "Gin"@,
        "Echo"@,
        "Fiber"@,
        "Gorilla Mux"@,
        "Django"@,
        "Flask"@,
        "FastAPI"@,
    ]
}

/// A record with a description.
pub open spec fn record(
    framework_type: Seq<char>,
    alternatives: Seq<Seq<char>>,
    is_popular: bool,
    description: Seq<char>,
) -> FrameworkDetailsView {
    FrameworkDetailsView { framework_type, alternatives, is_popular, description: Some(description) }
}

/// The record kept for `name`, if there is one.
pub open spec fn framework_record(name: Seq<char>) -> Option<FrameworkDetailsView> {
    if name == "Axum"@ {
        Some(
            record(
                "Web Framework"@,
                seq!["Actix Web"@, "Warp"@, "Rocket"@],
                true,
                "Fast, ergonomic web framework built on Tokio"@,
            ),
        )
    } else if name == "Actix Web"@ {
        Some(
            record(
                "Web Framework"@,
                seq!["Axum"@, "Warp"@, "Rocket"@],
                true,
                "Powerful, pragmatic, and extremely fast web framework"@,
            ),
        )
    } else if name == "Rocket"@ {
        Some(
            record(
                "Web Framework"@,
                seq!["Axum"@, "Actix Web"@, "Warp"@],
                true,
                "Type-safe, declarative web framework"@,
            ),
        )
    } else if name == "Warp"@ {
        Some(
            record(
                "Web Framework"@,
                seq!["Axum"@, "Actix Web"@, "Rocket"@],
                false,
                "Composable web framework with filters"@,
            ),
        )
    } else if name == "Bevy"@ {
        Some(
            record(
                "Game Engine"@,
                seq!["Amethyst"@, "ggez"@],
                true,
                "Data-driven game engine built in Rust"@,
            ),
        )
    } else if name == "Clap (CLI)"@ {
        Some(
            record(
                "CLI Framework"@,
                seq!["structopt"@, "argh"@],
                true,
                "Command line argument parser"@,
            ),
        )
    } else if name == "React"@ {
        Some(
            record(
                "Frontend Framework"@,
                seq!["Vue"@, "Angular"@, "Svelte"@],
                true,
                "JavaScript library for building user interfaces"@,
            ),
        )
    } else if name == "Vue"@ {
        Some(
            record(
                "Frontend Framework"@,
                seq!["React"@, "Angular"@, "Svelte"@],
                true,
                "Progressive JavaScript framework for building UIs"@,
            ),
        )
    } else if name == "Angular"@ {
        Some(
            record(
                "Frontend Framework"@,
                seq!["React"@, "Vue"@, "Svelte"@],
                true,
                "Platform for building mobile and desktop web applications"@,
            ),
        )
    } else if name == "Svelte"@ {
        Some(
            record(
                "Frontend Framework"@,
                seq!["React"@, "Vue"@, "Angular"@],
                true,
                "Compile-time framework that disappears into vanilla JS"@,
            ),
        )
    } else if name == "Express"@ {
        Some(
            record(
                "Backend Framework"@,
                seq!["Fastify"@, "Koa"@, "NestJS"@],
                true,
                "Fast, unopinionated, minimalist web framework for Node.js"@,
            ),
        )
    } else if name == "Next.js"@ {
        Some(
            record(
                "Full-stack Framework"@,
                seq!["Nuxt"@, "SvelteKit"@, "Remix"@],
                true,
                "React framework for production with hybrid static & server rendering"@,
            ),
        )
    } else if name == "Nuxt"@ {
        Some(
            record(
                "Full-stack Framework"@,
                seq!["Next.js"@, "SvelteKit"@, "Remix"@],
                true,
                "Intuitive Vue framework for creating universal applications"@,
            ),
        )
    } else if name == "Gin"@ {
        Some(
            record(
                "Web Framework"@,
                seq!["Echo"@, "Fiber"@, "Gorilla Mux"@],
                true,
                "Fast HTTP web framework written in Go"@,
            ),
        )
    } else if name == "Echo"@ {
        Some(
            record(
                "Web Framework"@,
                seq!["Gin"@, "Fiber"@, "Gorilla Mux"@],
                true,
                "High performance, extensible, minimalist Go web framework"@,
            ),
        )
    } else if name == "Fiber"@ {
        Some(
            record(
                "Web Framework"@,
                seq!["Gin"@, "Echo"@, "Gorilla Mux"@],
                true,
                "Express inspired web framework built on Fasthttp"@,
            ),
        )
    } else if name == "Gorilla Mux"@ {
        Some(
            record(
                "Web Framework"@,
                seq!["Gin"@, "Echo"@, "Fiber"@],
                false,
                "Powerful HTTP router and URL matcher for building Go web servers"@,
            ),
        )
    } else if name == "Django"@ {
        Some(
            record(
                "Web Framework"@,
                seq!["Flask"@, "FastAPI"@, "Pyramid"@],
                true,
                "High-level Python web framework that encourages rapid development"@,
            ),
        )
    } else if name == "Flask"@ {
        Some(
            record(
                "Web Framework"@,
                seq!["Django"@, "FastAPI"@, "Pyramid"@],
                true,
                "Lightweight WSGI web application framework"@,
            ),
        )
    } else if name == "FastAPI"@ {
        Some(
            record(
                "Web Framework"@,
                seq!["Django"@, "Flask"@, "Starlette"@],
                true,
                "Modern, fast web framework for building APIs with Python based on type hints"@,
            ),
        )
    } else {
        None
    }
}

/// The popularity score kept for `name`, from 1 to 10; 3 where none is kept.
pub open spec fn popularity_of(name: Seq<char>) -> u8 {
    if name == "React"@ || name == "Express"@ || name == "Django"@ || name == "Flask"@ {
        10
    } else if name == "Vue"@ || name == "Angular"@ || name == "Next.js"@ || name == "FastAPI"@ || name == "Gin"@ {
        9
    } else if name == "Svelte"@ || name == "Axum"@ || name == "Actix Web"@ || name == "Echo"@ || name == "Fiber"@ || name == "Nuxt"@ {
        8
    } else if name == "Rocket"@ || name == "Bevy"@ || name == "Clap (CLI)"@ {
        7
    } else if name == "Warp"@ || name == "Gorilla Mux"@ {
        5
    } else {
        3
    }
}

/// Whether `name` is on the list of frameworks held ready for enterprise use.
pub open spec fn enterprise_ready(name: Seq<char>) -> bool {
    name == "React"@
    || name == "Vue"@
    || name == "Angular"@
    || name == "Express"@
    || name == "Next.js"@
    || name == "Django"@
    || name == "Flask"@
    || name == "FastAPI"@
    || name == "Gin"@
    || name == "Echo"@
    || name == "Actix Web"@
    || name == "Axum"@
}

/// The learning difficulty kept for `name`, from 1 to 10; 5 where none is kept.
pub open spec fn difficulty_of(name: Seq<char>) -> u8 {
    if name == "Express"@ || name == "Flask"@ || name == "Gin"@ {
        2
    } else if name == "React"@ || name == "Vue"@ || name == "Echo"@ || name == "Axum"@ {
        3
    } else if name == "Next.js"@ || name == "Svelte"@ || name == "FastAPI"@ || name == "Fiber"@ {
        4
    } else if name == "Django"@ || name == "Actix Web"@ || name == "Rocket"@ {
        5
    } else if name == "Nuxt"@ {
        6
    } else if name == "Angular"@ {
        8
    } else if name == "Bevy"@ {
        7
    } else {
        5
    }
}

/// The use cases kept for `name`; one generic entry where none are kept.
pub open spec fn use_cases_of(name: Seq<char>) -> Seq<Seq<char>> {
    if name == "React"@ {
        seq![
            "Single Page Applications"@,
            "Mobile Apps (React Native)"@,
            "Desktop Apps (Electron)"@,
            "Static Sites"@,
        ]
    } else if name == "Vue"@ {
        seq![
            "Progressive Web Apps"@,
            "Single Page Applications"@,
            "Static Sites"@,
            "Mobile Apps"@,
        ]
    } else if name == "Angular"@ {
        seq![
            "Enterprise Applications"@,
            "Single Page Applications"@,
            "Progressive Web Apps"@,
            "Desktop Apps"@,
        ]
    } else if name == "Express"@ {
        seq![
            "REST APIs"@,
            "Web Applications"@,
            "Microservices"@,
            "Real-time Applications"@,
        ]
    } else if name == "Django"@ {
        seq![
            "Web Applications"@,
            "REST APIs"@,
            "CMS Systems"@,
            "E-commerce Sites"@,
        ]
    } else if name == "FastAPI"@ {
        seq![
            "REST APIs"@,
            "Microservices"@,
            "Machine Learning APIs"@,
            "Real-time Applications"@,
        ]
    } else if name == "Axum"@ {
        seq![
            "Web APIs"@,
            "Microservices"@,
            "High-performance Applications"@,
            "System Services"@,
        ]
    } else if name == "Bevy"@ {
        seq![
            "2D Games"@,
            "3D Games"@,
            "Simulations"@,
            "Interactive Applications"@,
        ]
    } else {
        seq!["Web Development"@]
    }
}

/// A name that is not known gets the default of every advisory table:
/// popularity 3, not enterprise-ready, difficulty 5, and the one generic use
/// case. It has no record.
pub proof fn lemma_unknown_defaults(name: Seq<char>)
    requires
        !known_frameworks().contains(name),
    ensures
        framework_record(name) is None,
        popularity_of(name) == 3,
        !enterprise_ready(name),
        difficulty_of(name) == 5,
        use_cases_of(name) == seq!["Web Development"@],
{
    let known = known_frameworks();
    assert(forall|i: int| 0 <= i < 20 ==> known[i] != name);
}

/// A name has a record exactly when it is one of the known display names:
/// every known name is found, and no other name is.
pub proof fn lemma_record_iff_known(name: Seq<char>)
    ensures
        framework_record(name) is Some <==> known_frameworks().contains(name),
{
    if !known_frameworks().contains(name) {
        lemma_unknown_defaults(name);
    }
}

/// A list of two names.
fn names2(a: &str, b: &str) -> (v: Vec<String>)
    ensures
        texts_of(v@) == seq![a@, b@],
{
    let mut v: Vec<String> = Vec::new();
    v.push(a.to_owned());
    v.push(b.to_owned());
    v
}

/// A list of three names.
fn names3(a: &str, b: &str, c: &str) -> (v: Vec<String>)
    ensures
        texts_of(v@) == seq![a@, b@, c@],
{
    let mut v: Vec<String> = Vec::new();
    v.push(a.to_owned());
    v.push(b.to_owned());
    v.push(c.to_owned());
    v
}

/// A list of four names.
fn names4(a: &str, b: &str, c: &str, d: &str) -> (v: Vec<String>)
    ensures
        texts_of(v@) == seq![a@, b@, c@, d@],
{
    let mut v: Vec<String> = Vec::new();
    v.push(a.to_owned());
    v.push(b.to_owned());
    v.push(c.to_owned());
    v.push(d.to_owned());
    v
}

/// A record with a description: see [`record`].
fn described(framework_type: &str, alternatives: Vec<String>, is_popular: bool, description: &str) -> (r:
    Option<FrameworkDetails>)
    ensures
        details_of(r) == Some(
            record(framework_type@, texts_of(alternatives@), is_popular, description@),
        ),
{
    Some(
        FrameworkDetails {
            framework_type: framework_type.to_owned(),
            alternatives,
            is_popular,
            description: Some(description.to_owned()),
        },
    )
}

/// Looks up the record of a framework by its display name. Names without a
/// record give `None`; that is no error.
pub fn get_framework_details(framework_name: &str) -> (r: Option<FrameworkDetails>)
    ensures
        details_of(r) == framework_record(framework_name@),
{
    let name = to_chars(framework_name);
    let name = name.as_slice();
    if is_text(name, "Axum") {
        described(
            "Web Framework",
            names3("Actix Web", "Warp", "Rocket"),
            true,
            "Fast, ergonomic web framework built on Tokio",
        )
    } else if is_text(name, "Actix Web") {
        described(
            "Web Framework",
            names3("Axum", "Warp", "Rocket"),
            true,
            "Powerful, pragmatic, and extremely fast web framework",
        )
    } else if is_text(name, "Rocket") {
        described(
            "Web Framework",
            names3("Axum", "Actix Web", "Warp"),
            true,
            "Type-safe, declarative web framework",
        )
    } else if is_text(name, "Warp") {
        described(
            "Web Framework",
            names3("Axum", "Actix Web", "Rocket"),
            false,
            "Composable web framework with filters",
        )
    } else if is_text(name, "Bevy") {
        described(
            "Game Engine",
            names2("Amethyst", "ggez"),
            true,
            "Data-driven game engine built in Rust",
        )
    } else if is_text(name, "Clap (CLI)") {
        described(
            "CLI Framework",
            names2("structopt", "argh"),
            true,
            "Command line argument parser",
        )
    } else if is_text(name, "React") {
        described(
            "Frontend Framework",
            names3("Vue", "Angular", "Svelte"),
            true,
            "JavaScript library for building user interfaces",
        )
    } else if is_text(name, "Vue") {
        described(
            "Frontend Framework",
            names3("React", "Angular", "Svelte"),
            true,
            "Progressive JavaScript framework for building UIs",
        )
    } else if is_text(name, "Angular") {
        described(
            "Frontend Framework",
            names3("React", "Vue", "Svelte"),
            true,
            "Platform for building mobile and desktop web applications",
        )
    } else if is_text(name, "Svelte") {
        described(
            "Frontend Framework",
            names3("React", "Vue", "Angular"),
            true,
            "Compile-time framework that disappears into vanilla JS",
        )
    } else if is_text(name, "Express") {
        described(
            "Backend Framework",
            names3("Fastify", "Koa", "NestJS"),
            true,
            "Fast, unopinionated, minimalist web framework for Node.js",
        )
    } else if is_text(name, "Next.js") {
        described(
            "Full-stack Framework",
            names3("Nuxt", "SvelteKit", "Remix"),
            true,
            "React framework for production with hybrid static & server rendering",
        )
    } else if is_text(name, "Nuxt") {
        described(
            "Full-stack Framework",
            names3("Next.js", "SvelteKit", "Remix"),
            true,
            "Intuitive Vue framework for creating universal applications",
        )
    } else if is_text(name, "Gin") {
        described(
            "Web Framework",
            names3("Echo", "Fiber", "Gorilla Mux"),
            true,
            "Fast HTTP web framework written in Go",
        )
    } else if is_text(name, "Echo") {
        described(
            "Web Framework",
            names3("Gin", "Fiber", "Gorilla Mux"),
            true,
            "High performance, extensible, minimalist Go web framework",
        )
    } else if is_text(name, "Fiber") {
        described(
            "Web Framework",
            names3("Gin", "Echo", "Gorilla Mux"),
            true,
            "Express inspired web framework built on Fasthttp",
        )
    } else if is_text(name, "Gorilla Mux") {
        described(
            "Web Framework",
            names3("Gin", "Echo", "Fiber"),
            false,
            "Powerful HTTP router and URL matcher for building Go web servers",
        )
    } else if is_text(name, "Django") {
        described(
            "Web Framework",
            names3("Flask", "FastAPI", "Pyramid"),
            true,
            "High-level Python web framework that encourages rapid development",
        )
    } else if is_text(name, "Flask") {
        described(
            "Web Framework",
            names3("Django", "FastAPI", "Pyramid"),
            true,
            "Lightweight WSGI web application framework",
        )
    } else if is_text(name, "FastAPI") {
        described(
            "Web Framework",
            names3("Django", "Flask", "Starlette"),
            true,
            "Modern, fast web framework for building APIs with Python based on type hints",
        )
    } else {
        None
    }
}

/// The popularity score of a framework, from 1 to 10, where 10 is the most
/// popular. Names without a score get 3.
pub fn get_framework_popularity(framework_name: &str) -> (r: u8)
    ensures
        r == popularity_of(framework_name@),
{
    let name = to_chars(framework_name);
    let name = name.as_slice();
    if is_text(name, "React") || is_text(name, "Express") || is_text(name, "Django") || is_text(name, "Flask") {
        10
    } else if is_text(name, "Vue") || is_text(name, "Angular") || is_text(name, "Next.js") || is_text(name, "FastAPI") || is_text(name, "Gin") {
        9
    } else if is_text(name, "Svelte") || is_text(name, "Axum") || is_text(name, "Actix Web") || is_text(name, "Echo") || is_text(name, "Fiber") || is_text(name, "Nuxt") {
        8
    } else if is_text(name, "Rocket") || is_text(name, "Bevy") || is_text(name, "Clap (CLI)") {
        7
    } else if is_text(name, "Warp") || is_text(name, "Gorilla Mux") {
        5
    } else {
        3
    }
}

/// Whether a framework is held ready for enterprise use.
pub fn is_enterprise_ready(framework_name: &str) -> (r: bool)
    ensures
        r == enterprise_ready(framework_name@),
{
    let name = to_chars(framework_name);
    let name = name.as_slice();
    is_text(name, "React")
        || is_text(name, "Vue")
        || is_text(name, "Angular")
        || is_text(name, "Express")
        || is_text(name, "Next.js")
        || is_text(name, "Django")
        || is_text(name, "Flask")
        || is_text(name, "FastAPI")
        || is_text(name, "Gin")
        || is_text(name, "Echo")
        || is_text(name, "Actix Web")
        || is_text(name, "Axum")
}

/// The learning difficulty of a framework, from 1 to 10, where 10 is the
/// hardest. Names without a score get 5.
pub fn get_learning_difficulty(framework_name: &str) -> (r: u8)
    ensures
        r == difficulty_of(framework_name@),
{
    let name = to_chars(framework_name);
    let name = name.as_slice();
    if is_text(name, "Express") || is_text(name, "Flask") || is_text(name, "Gin") {
        2
    } else if is_text(name, "React") || is_text(name, "Vue") || is_text(name, "Echo") || is_text(name, "Axum") {
        3
    } else if is_text(name, "Next.js") || is_text(name, "Svelte") || is_text(name, "FastAPI") || is_text(name, "Fiber") {
        4
    } else if is_text(name, "Django") || is_text(name, "Actix Web") || is_text(name, "Rocket") {
        5
    } else if is_text(name, "Nuxt") {
        6
    } else if is_text(name, "Angular") {
        8
    } else if is_text(name, "Bevy") {
        7
    } else {
        5
    }
}

/// The common use cases of a framework. Names without a list get the single
/// entry `Web Development`.
pub fn get_use_cases(framework_name: &str) -> (r: Vec<String>)
    ensures
        texts_of(r@) == use_cases_of(framework_name@),
{
    let name = to_chars(framework_name);
    let name = name.as_slice();
    if is_text(name, "React") {
        names4(
            "Single Page Applications",
            "Mobile Apps (React Native)",
            "Desktop Apps (Electron)",
            "Static Sites",
        )
    } else if is_text(name, "Vue") {
        names4(
            "Progressive Web Apps",
            "Single Page Applications",
            "Static Sites",
            "Mobile Apps",
        )
    } else if is_text(name, "Angular") {
        names4(
            "Enterprise Applications",
            "Single Page Applications",
            "Progressive Web Apps",
            "Desktop Apps",
        )
    } else if is_text(name, "Express") {
        names4(
            "REST APIs",
            "Web Applications",
            "Microservices",
            "Real-time Applications",
        )
    } else if is_text(name, "Django") {
        names4(
            "Web Applications",
            "REST APIs",
            "CMS Systems",
            "E-commerce Sites",
        )
    } else if is_text(name, "FastAPI") {
        names4(
            "REST APIs",
            "Microservices",
            "Machine Learning APIs",
            "Real-time Applications",
        )
    } else if is_text(name, "Axum") {
        names4(
            "Web APIs",
            "Microservices",
            "High-performance Applications",
            "System Services",
        )
    } else if is_text(name, "Bevy") {
        names4(
            "2D Games",
            "3D Games",
            "Simulations",
            "Interactive Applications",
        )
    } else {
        let mut v: Vec<String> = Vec::new();
        v.push("Web Development".to_owned());
        v
    }
}

} // verus!
