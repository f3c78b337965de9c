//! Framework detection: for each language the dependency declarations
//! that name a known framework, in order of precedence.

use vstd::prelude::*;
use vstd::slice::slice_subrange;

use crate::detector::files::{Manifests, ManifestsView, ProjectFiles, ProjectFilesView};
use crate::detector::probe::{or_else, text_under};
use crate::document::{member_of, text_in, tree_at, trees_of, Node, Tree};
use crate::project_info::{text_of, texts_of};
use crate::text::{
    bounds_of, contains, contains_text, is_text, lines, lowercase, split_bounds,
    starts_with, substring, to_chars, to_lowercase, trim, trim_bounds,
};

verus! {

/// A framework with its version, where one was found.
pub type Framework = (String, Option<String>);

/// The model of a detected framework.
pub open spec fn framework_of(found: Option<Framework>) -> Option<(Seq<char>, Option<Seq<char>>)> {
    match found {
        Some((name, version)) => Some((name@, text_of(version))),
        None => None,
    }
}

/// The first key of `table`, from position `from` on, that the dependency
/// table has: the display name that goes with it, and the value under it.
pub open spec fn first_dependency(
    dependencies: Option<Tree>,
    table: Seq<(Seq<char>, Seq<char>)>,
    from: nat,
) -> Option<(Seq<char>, Tree)>
    decreases table.len() - from,
{
    if from >= table.len() {
        None
    } else {
        match member_of(dependencies, table[from as int].0) {
            Some(value) => Some((table[from as int].1, value)),
            None => first_dependency(dependencies, table, from + 1),
        }
    }
}

/// The dependency keys that stand for a Rust framework, in order of
/// precedence, each with the display name of the framework.
pub open spec fn rust_frameworks() -> Seq<(Seq<char>, Seq<char>)> {
    seq![
        ("axum"@, "Axum"@),
        ("actix-web"@, "Actix Web"@),
        ("warp"@, "Warp"@),
        ("rocket"@, "Rocket"@),
        ("clap"@, "Clap (CLI)"@),
        ("bevy"@, "Bevy"@),
    ]
}

/// The version that a Cargo dependency declares: the value itself where it
/// is a string, its `version` where it is a table.
pub open spec fn dependency_version(dependency: Tree) -> Option<Seq<char>> {
    match dependency.text() {
        Some(version) => Some(version),
        None => text_in(dependency.member("version"@)),
    }
}

/// The Rust framework of a project: the first framework key among the
/// `dependencies` of `Cargo.toml`, with the version declared for it.
pub open spec fn rust_framework(manifests: ManifestsView) -> Option<(Seq<char>, Option<Seq<char>>)> {
    match first_dependency(member_of(manifests.cargo, "dependencies"@), rust_frameworks(), 0) {
        Some((name, value)) => Some((name, dependency_version(value))),
        None => None,
    }
}

/// The dependency keys that stand for a JavaScript framework, in order of
/// precedence, each with the display name of the framework.
pub open spec fn javascript_frameworks() -> Seq<(Seq<char>, Seq<char>)> {
    seq![
        ("react"@, "React"@),
        ("vue"@, "Vue"@),
        ("@angular/core"@, "Angular"@),
        ("svelte"@, "Svelte"@),
        ("express"@, "Express"@),
        ("next"@, "Next.js"@),
        ("nuxt"@, "Nuxt"@),
    ]
}

/// The JavaScript framework among one group of dependencies: the first
/// framework key, with its value where that is a string.
pub open spec fn javascript_framework_in(dependencies: Option<Tree>) -> Option<
    (Seq<char>, Option<Seq<char>>),
> {
    match first_dependency(dependencies, javascript_frameworks(), 0) {
        Some((name, value)) => Some((name, value.text())),
        None => None,
    }
}

/// The JavaScript framework of a project: the one among the `dependencies`
/// of `package.json`, else the one among its `devDependencies`. The two
/// groups are looked at one after the other, each with every key: a
/// framework of any key among the `dependencies` goes before every
/// framework among the `devDependencies`.
pub open spec fn javascript_framework(manifests: ManifestsView) -> Option<
    (Seq<char>, Option<Seq<char>>),
> {
    or_else(
        javascript_framework_in(member_of(manifests.package, "dependencies"@)),
        javascript_framework_in(member_of(manifests.package, "devDependencies"@)),
    )
}

/// The Go framework that a `go.mod` text names: the first of Gin, Gorilla
/// Mux, Echo and Fiber whose module path occurs in it.
pub open spec fn go_framework_in(text: Seq<char>) -> Option<Seq<char>> {
    if contains_text(text, "github.com/gin-gonic/gin"@) {
        Some("Gin"@)
    } else if contains_text(text, "github.com/gorilla/mux"@) {
        Some("Gorilla Mux"@)
    } else if contains_text(text, "github.com/labstack/echo"@) {
        Some("Echo"@)
    } else if contains_text(text, "github.com/gofiber/fiber"@) {
        Some("Fiber"@)
    } else {
        None
    }
}

/// The Go framework of a project, which never has a version.
pub open spec fn go_framework(project: ProjectFilesView) -> Option<(Seq<char>, Option<Seq<char>>)> {
    match project.content("go.mod"@) {
        Some(text) => match go_framework_in(text) {
            Some(name) => Some((name, None)),
            None => None,
        },
        None => None,
    }
}

/// The regular expression that finds the version in a requirement: a run
/// of comparison characters, then the version.
pub open spec fn version_pattern() -> Seq<char> {
    "[><=!]+(.+)"@
}

/// The text that capture group `group` of the regular expression `pattern`
/// has in the first match of the pattern in `text`, by the rules of the
/// `regex` crate; nothing where the pattern is malformed, does not match, or
/// the group took no part in the match.
pub uninterp spec fn regex_capture(pattern: Seq<char>, text: Seq<char>, group: nat) -> Option<
    Seq<char>,
>;

/// The version that a requirement states: what follows its first run of
/// comparison characters.
pub open spec fn requirement_version(requirement: Seq<char>) -> Option<Seq<char>> {
    regex_capture(version_pattern(), requirement, 1)
}

/// The prefixes by which a normalized requirement names a Python framework,
/// in order of precedence, each with the display name of the framework.
pub open spec fn python_frameworks() -> Seq<(Seq<char>, Seq<char>)> {
    seq![("django"@, "Django"@), ("flask"@, "Flask"@), ("fastapi"@, "FastAPI"@)]
}

/// The first of the requirements that begins with `key`.
pub open spec fn first_with_prefix(requirements: Seq<Seq<char>>, key: Seq<char>) -> Option<
    Seq<char>,
>
    decreases requirements.len(),
{
    if requirements.len() == 0 {
        None
    } else if key.is_prefix_of(requirements[0]) {
        Some(requirements[0])
    } else {
        first_with_prefix(requirements.drop_first(), key)
    }
}

/// The framework that normalized requirements name, looking from position
/// `from` of [`python_frameworks`] on: the first key that some requirement
/// begins with decides, whatever the order of the requirements; the version
/// is the one stated by the first requirement that begins with that key.
pub open spec fn framework_among(requirements: Seq<Seq<char>>, from: nat) -> Option<
    (Seq<char>, Option<Seq<char>>),
>
    decreases python_frameworks().len() - from,
{
    if from >= python_frameworks().len() {
        None
    } else {
        match first_with_prefix(requirements, python_frameworks()[from as int].0) {
            Some(requirement) => Some(
                (python_frameworks()[from as int].1, requirement_version(requirement)),
            ),
            None => framework_among(requirements, from + 1),
        }
    }
}

/// The requirements that the lines of a requirements file state, each
/// normalized: trimmed, then put in lowercase.
pub open spec fn normalized_lines(lines: Seq<Seq<char>>) -> Seq<Seq<char>> {
    Seq::new(lines.len(), |i: int| lowercase(trim(lines[i])))
}

/// The requirements that the items of a dependency list state, each put in
/// lowercase. Items that are no strings are passed over.
pub open spec fn normalized_items(items: Seq<Tree>) -> Seq<Seq<char>>
    decreases items.len(),
{
    if items.len() == 0 {
        Seq::empty()
    } else {
        match items.last().text() {
            Some(text) => normalized_items(items.drop_last()).push(lowercase(text)),
            None => normalized_items(items.drop_last()),
        }
    }
}

/// The framework that the lines of a requirements file name: see
/// [`framework_among`].
pub open spec fn framework_in_lines(lines: Seq<Seq<char>>) -> Option<(Seq<char>, Option<Seq<char>>)> {
    framework_among(normalized_lines(lines), 0)
}

/// The framework that the items of a dependency list name: see
/// [`framework_among`].
pub open spec fn framework_in_items(items: Seq<Tree>) -> Option<(Seq<char>, Option<Seq<char>>)> {
    framework_among(normalized_items(items), 0)
}

/// The framework among the lines of `requirements.txt`.
pub open spec fn required_framework(project: ProjectFilesView) -> Option<(Seq<char>, Option<Seq<char>>)> {
    match project.content("requirements.txt"@) {
        Some(text) => framework_in_lines(lines(text)),
        None => None,
    }
}

/// The framework among `project.dependencies` of `pyproject.toml`.
pub open spec fn declared_framework(manifests: ManifestsView) -> Option<(Seq<char>, Option<Seq<char>>)> {
    match member_of(member_of(manifests.pyproject, "project"@), "dependencies"@) {
        Some(dependencies) => match dependencies.items() {
            Some(items) => framework_in_items(items),
            None => None,
        },
        None => None,
    }
}

/// The Python framework of a project: the one that `requirements.txt`
/// names, else the one that `pyproject.toml` declares. The two files are
/// looked at one after the other, each with every key: a framework of any
/// key in `requirements.txt` goes before every framework in
/// `pyproject.toml`.
pub open spec fn python_framework(project: ProjectFilesView, manifests: ManifestsView) -> Option<
    (Seq<char>, Option<Seq<char>>),
> {
    or_else(required_framework(project), declared_framework(manifests))
}

/// The framework of a project of the given language. None is looked for in
/// a Java project, nor in one of a language without a probe.
pub open spec fn framework(project: ProjectFilesView, manifests: ManifestsView, language: Seq<char>) -> Option<
    (Seq<char>, Option<Seq<char>>),
> {
    if language == "Rust"@ {
        rust_framework(manifests)
    } else if language == "JavaScript"@ {
        javascript_framework(manifests)
    } else if language == "Go"@ {
        go_framework(project)
    } else if language == "Python"@ {
        python_framework(project, manifests)
    } else {
        None
    }
}

/// Among no dependencies no framework key is found.
proof fn lemma_no_dependency(table: Seq<(Seq<char>, Seq<char>)>, from: nat)
    ensures
        first_dependency(None, table, from) is None,
    decreases table.len() - from,
{
    if from < table.len() {
        lemma_no_dependency(table, from + 1);
    }
}

/// The entry of [`rust_frameworks`] at `position`.
fn rust_framework_entry(position: usize) -> (r: (&'static str, &'static str))
    requires
        position < 6,
    ensures
        (r.0@, r.1@) == rust_frameworks()[position as int],
{
    if position == 0 {
        ("axum", "Axum")
    } else if position == 1 {
        ("actix-web", "Actix Web")
    } else if position == 2 {
        ("warp", "Warp")
    } else if position == 3 {
        ("rocket", "Rocket")
    } else if position == 4 {
        ("clap", "Clap (CLI)")
    } else {
        ("bevy", "Bevy")
    }
}

/// The version that the dependency `dependency_name` declares in a table of
/// Cargo dependencies.
pub fn get_dependency_version(dependencies_table: &Node, dependency_name: &str) -> (r: Option<
    String,
>)
    ensures
        text_of(r) == match dependencies_table@.member(dependency_name@) {
            Some(dependency) => dependency_version(dependency),
            None => None,
        },
{
    match dependencies_table.get(dependency_name) {
        Some(dependency) => match dependency.as_text() {
            Some(version) => Some(version.clone()),
            None => text_under(dependency, "version"),
        },
        None => None,
    }
}

/// The Rust framework of a project: see [`rust_framework`].
pub fn detect_rust_framework(manifests: &Manifests) -> (r: Option<Framework>)
    ensures
        framework_of(r) == rust_framework(manifests@),
{
    let dependencies = match &manifests.cargo {
        Some(root) => root.get("dependencies"),
        None => None,
    };
    match dependencies {
        Some(table) => {
            let mut i: usize = 0;
            while i < 6
                invariant
                    i <= 6,
                    Some(table@) == member_of(manifests@.cargo, "dependencies"@),
                    first_dependency(Some(table@), rust_frameworks(), 0) == first_dependency(
                        Some(table@),
                        rust_frameworks(),
                        i as nat,
                    ),
                decreases 6 - i,
            {
                let (key, name) = rust_framework_entry(i);
                if table.get(key).is_some() {
                    return Some((name.to_owned(), get_dependency_version(table, key)));
                }
                i += 1;
            }
            None
        },
        None => {
            proof {
                lemma_no_dependency(rust_frameworks(), 0);
            }
            None
        },
    }
}

/// The entry of [`javascript_frameworks`] at `position`.
fn javascript_framework_entry(position: usize) -> (r: (&'static str, &'static str))
    requires
        position < 7,
    ensures
        (r.0@, r.1@) == javascript_frameworks()[position as int],
{
    if position == 0 {
        ("react", "React")
    } else if position == 1 {
        ("vue", "Vue")
    } else if position == 2 {
        ("@angular/core", "Angular")
    } else if position == 3 {
        ("svelte", "Svelte")
    } else if position == 4 {
        ("express", "Express")
    } else if position == 5 {
        ("next", "Next.js")
    } else {
        ("nuxt", "Nuxt")
    }
}

/// The JavaScript framework among one group of dependencies: see
/// [`javascript_framework_in`].
fn javascript_framework_among(dependencies: Option<&Node>) -> (r: Option<Framework>)
    ensures
        framework_of(r) == javascript_framework_in(tree_at(dependencies)),
{
    match dependencies {
        Some(table) => {
            let mut i: usize = 0;
            while i < 7
                invariant
                    i <= 7,
                    tree_at(dependencies) == Some(table@),
                    first_dependency(Some(table@), javascript_frameworks(), 0) == first_dependency(
                        Some(table@),
                        javascript_frameworks(),
                        i as nat,
                    ),
                decreases 7 - i,
            {
                let (key, name) = javascript_framework_entry(i);
                if table.get(key).is_some() {
                    return Some((name.to_owned(), text_under(table, key)));
                }
                i += 1;
            }
            None
        },
        None => {
            proof {
                lemma_no_dependency(javascript_frameworks(), 0);
            }
            None
        },
    }
}

/// The JavaScript framework of a project: see [`javascript_framework`].
pub fn detect_javascript_framework(manifests: &Manifests) -> (r: Option<Framework>)
    ensures
        framework_of(r) == javascript_framework(manifests@),
{
    match &manifests.package {
        Some(root) => match javascript_framework_among(root.get("dependencies")) {
            Some(found) => Some(found),
            None => javascript_framework_among(root.get("devDependencies")),
        },
        None => {
            proof {
                lemma_no_dependency(javascript_frameworks(), 0);
            }
            None
        },
    }
}

/// The Go framework of a project: see [`go_framework`].
pub fn detect_go_framework(project: &ProjectFiles) -> (r: Option<Framework>)
    ensures
        framework_of(r) == go_framework(project@),
{
    match project.read("go.mod") {
        Some(text) => {
            let chars = to_chars(text.as_str());
            let s = chars.as_slice();
            if contains(s, "github.com/gin-gonic/gin") {
                Some(("Gin".to_owned(), None))
            } else if contains(s, "github.com/gorilla/mux") {
                Some(("Gorilla Mux".to_owned(), None))
            } else if contains(s, "github.com/labstack/echo") {
                Some(("Echo".to_owned(), None))
            } else if contains(s, "github.com/gofiber/fiber") {
                Some(("Fiber".to_owned(), None))
            } else {
                None
            }
        },
        None => None,
    }
}

/// `regex::Regex::new`, then `Regex::captures`, `Captures::get` and
/// `Match::as_str`: the text of one capture group in the first match of a
/// pattern. The result depends on the pattern, the text and the group
/// alone; a malformed pattern gives `None`, as does a text without a match.
#[verifier::external_body]
fn capture(pattern: &str, text: &str, group: usize) -> (r: Option<String>)
    ensures
        text_of(r) == regex_capture(pattern@, text@, group as nat),
{
    let expression = regex::Regex::new(pattern).ok()?;
    expression.captures(text)?.get(group).map(|found| found.as_str().to_string())
}

/// The version that a requirement such as `django==4.2.0` states: see
/// [`requirement_version`].
pub fn extract_version_from_requirement(requirement: &str) -> (r: Option<String>)
    ensures
        text_of(r) == requirement_version(requirement@),
{
    capture("[><=!]+(.+)", requirement, 1)
}

/// Looking from any position up to that of the first key that some
/// requirement begins with, the framework found is the one of that key.
proof fn lemma_framework_among_from(requirements: Seq<Seq<char>>, from: nat, position: int)
    requires
        from <= position < python_frameworks().len(),
        first_with_prefix(requirements, python_frameworks()[position].0) is Some,
        forall|j: int|
            from <= j < position ==> first_with_prefix(
                requirements,
                #[trigger] python_frameworks()[j].0,
            ) is None,
    ensures
        framework_among(requirements, from) == Some(
            (
                python_frameworks()[position].1,
                requirement_version(
                    first_with_prefix(requirements, python_frameworks()[position].0)->0,
                ),
            ),
        ),
    decreases position - from,
{
    if from < position {
        lemma_framework_among_from(requirements, from + 1, position);
    }
}

/// The key that stands first in the table, among those that some
/// requirement begins with, decides the framework, whatever the order of
/// the requirements; the version is the one that the first requirement with
/// that key states.
pub proof fn lemma_first_key_wins(requirements: Seq<Seq<char>>, position: int)
    requires
        0 <= position < python_frameworks().len(),
        first_with_prefix(requirements, python_frameworks()[position].0) is Some,
        forall|j: int|
            0 <= j < position ==> first_with_prefix(
                requirements,
                #[trigger] python_frameworks()[j].0,
            ) is None,
    ensures
        framework_among(requirements, 0) == Some(
            (
                python_frameworks()[position].1,
                requirement_version(
                    first_with_prefix(requirements, python_frameworks()[position].0)->0,
                ),
            ),
        ),
{
    lemma_framework_among_from(requirements, 0, position);
}

/// The entry of [`python_frameworks`] at `position`.
fn python_framework_entry(position: usize) -> (r: (&'static str, &'static str))
    requires
        position < 3,
    ensures
        (r.0@, r.1@) == python_frameworks()[position as int],
{
    if position == 0 {
        ("django", "Django")
    } else if position == 1 {
        ("flask", "Flask")
    } else {
        ("fastapi", "FastAPI")
    }
}

/// The first of the requirements that begins with `key`.
fn first_beginning_with<'a>(requirements: &'a Vec<String>, key: &str) -> (r: Option<&'a String>)
    ensures
        match r {
            Some(requirement) => first_with_prefix(texts_of(requirements@), key@) == Some(
                requirement@,
            ),
            None => first_with_prefix(texts_of(requirements@), key@) is None,
        },
{
    let ghost all = texts_of(requirements@);
    let mut i: usize = 0;
    assert(all.skip(0) == all);
    while i < requirements.len()
        invariant
            i <= requirements.len(),
            all == texts_of(requirements@),
            first_with_prefix(all, key@) == first_with_prefix(all.skip(i as int), key@),
        decreases requirements.len() - i,
    {
        let chars = to_chars(requirements[i].as_str());
        if starts_with(chars.as_slice(), key) {
            return Some(&requirements[i]);
        }
        assert(all.skip(i as int).drop_first() == all.skip(i + 1));
        i += 1;
    }
    None
}

/// The Python framework that normalized requirements name. The keys are
/// tried in their order of precedence, each against every requirement, so
/// that `django` in a later requirement goes before `flask` in an earlier
/// one: see [`framework_among`].
pub fn framework_among_requirements(requirements: &Vec<String>) -> (r: Option<Framework>)
    ensures
        framework_of(r) == framework_among(texts_of(requirements@), 0),
{
    let mut k: usize = 0;
    while k < 3
        invariant
            k <= 3,
            framework_among(texts_of(requirements@), 0) == framework_among(
                texts_of(requirements@),
                k as nat,
            ),
        decreases 3 - k,
    {
        let (key, name) = python_framework_entry(k);
        match first_beginning_with(requirements, key) {
            Some(requirement) => {
                return Some(
                    (name.to_owned(), extract_version_from_requirement(requirement.as_str())),
                );
            },
            None => {},
        }
        k += 1;
    }
    None
}

/// The normalized requirements of a requirements file: see
/// [`normalized_lines`].
fn requirements_in_text(text: &str) -> (r: Vec<String>)
    ensures
        texts_of(r@) == normalized_lines(lines(text@)),
{
    let chars = to_chars(text);
    let s = chars.as_slice();
    let bounds = split_bounds(s, '\n');
    let ghost all = lines(text@);
    let mut found: Vec<String> = Vec::new();
    let mut i: usize = 0;
    while i < bounds.len()
        invariant
            i <= bounds.len(),
            s@ == text@,
            all == lines(text@),
            bounds_of(s@, bounds@, all),
            found@.len() == i,
            forall|j: int| 0 <= j < i ==> (#[trigger] found@[j])@ == lowercase(trim(all[j])),
        decreases bounds.len() - i,
    {
        let (start, end) = bounds[i];
        let line = slice_subrange(s, start, end);
        let (a, b) = trim_bounds(line);
        assert(s@.subrange(start + a, start + b) == line@.subrange(a as int, b as int));
        found.push(to_lowercase(substring(text, start + a, start + b).as_str()));
        i += 1;
    }
    found
}

/// The normalized requirements of a dependency list: see
/// [`normalized_items`].
fn requirements_in_list(items: &Vec<Node>) -> (r: Vec<String>)
    ensures
        texts_of(r@) == normalized_items(trees_of(items@)),
{
    let ghost all = trees_of(items@);
    let mut found: Vec<String> = Vec::new();
    let mut i: usize = 0;
    while i < items.len()
        invariant
            i <= items.len(),
            all == trees_of(items@),
            texts_of(found@) == normalized_items(all.take(i as int)),
        decreases items.len() - i,
    {
        assert(all.take(i + 1).drop_last() == all.take(i as int));
        match items[i].as_text() {
            Some(text) => {
                found.push(to_lowercase(text.as_str()));
            },
            None => {},
        }
        i += 1;
    }
    assert(all.take(items.len() as int) == all);
    found
}

/// The Python framework of a project: see [`python_framework`].
pub fn detect_python_framework(project: &ProjectFiles, manifests: &Manifests) -> (r: Option<
    Framework,
>)
    ensures
        framework_of(r) == python_framework(project@, manifests@),
{
    let required = match project.read("requirements.txt") {
        Some(text) => framework_among_requirements(&requirements_in_text(text.as_str())),
        None => None,
    };
    match required {
        Some(found) => Some(found),
        None => match &manifests.pyproject {
            Some(root) => match root.get("project") {
                Some(section) => match section.get("dependencies") {
                    Some(dependencies) => match dependencies.as_list() {
                        Some(items) => framework_among_requirements(&requirements_in_list(items)),
                        None => None,
                    },
                    None => None,
                },
                None => None,
            },
            None => None,
        },
    }
}

/// The Java framework of a project. None is looked for, so none is found.
pub fn detect_java_framework(_project: &ProjectFiles) -> (r: Option<Framework>)
    ensures
        r is None,
{
    None
}

/// The framework of a project of the given language: see [`framework`].
pub fn detect_framework(project: &ProjectFiles, manifests: &Manifests, detected_language: &str) -> (r:
    Option<Framework>)
    ensures
        framework_of(r) == framework(project@, manifests@, detected_language@),
{
    let language = to_chars(detected_language);
    let language = language.as_slice();
    if is_text(language, "Rust") {
        detect_rust_framework(manifests)
    } else if is_text(language, "JavaScript") {
        detect_javascript_framework(manifests)
    } else if is_text(language, "Go") {
        detect_go_framework(project)
    } else if is_text(language, "Python") {
        detect_python_framework(project, manifests)
    } else if is_text(language, "Java") {
        detect_java_framework(project)
    } else {
        None
    }
}

} // verus!
