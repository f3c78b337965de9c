//! Version detection: for each language the files that may state its
//! version, in order of precedence. The version is taken as it is written.

use vstd::prelude::*;

use crate::detector::files::{Manifests, ManifestsView, ProjectFiles, ProjectFilesView};
use crate::detector::probe::{
    directive, find_directive, or_else, text_at, text_in_section, trimmed_content, trimmed_file,
};
use crate::project_info::text_of;
use crate::text::{is_text, lines, to_chars};

verus! {

/// The Rust version of a project: `package.rust-version` of `Cargo.toml`,
/// else `toolchain.channel` of `rust-toolchain.toml`, else the trimmed text
/// of `rust-toolchain`.
pub open spec fn rust_version(project: ProjectFilesView, manifests: ManifestsView) -> Option<Seq<char>> {
    or_else(
        text_at(manifests.cargo, "package"@, "rust-version"@),
        or_else(
            text_at(manifests.toolchain, "toolchain"@, "channel"@),
            trimmed_content(project, "rust-toolchain"@),
        ),
    )
}

/// The Node.js version of a project: the trimmed text of `.nvmrc`, else
/// `engines.node` of `package.json`.
pub open spec fn node_version(project: ProjectFilesView, manifests: ManifestsView) -> Option<Seq<char>> {
    or_else(trimmed_content(project, ".nvmrc"@), text_at(manifests.package, "engines"@, "node"@))
}

/// The Go version of a project: what follows `go ` on the first line of
/// `go.mod` that begins with it.
pub open spec fn go_version(project: ProjectFilesView) -> Option<Seq<char>> {
    match project.content("go.mod"@) {
        Some(text) => directive(lines(text), "go "@),
        None => None,
    }
}

/// The Python version of a project: the trimmed text of `.python-version`,
/// else `project.requires-python` of `pyproject.toml`.
pub open spec fn python_version(project: ProjectFilesView, manifests: ManifestsView) -> Option<Seq<char>> {
    or_else(
        trimmed_content(project, ".python-version"@),
        text_at(manifests.pyproject, "project"@, "requires-python"@),
    )
}

/// The version of the language of a project, as its files state it. No
/// source is consulted for Java, nor for a language without a probe.
pub open spec fn language_version(
    project: ProjectFilesView,
    manifests: ManifestsView,
    language: Seq<char>,
) -> Option<Seq<char>> {
    if language == "Rust"@ {
        rust_version(project, manifests)
    } else if language == "JavaScript"@ {
        node_version(project, manifests)
    } else if language == "Go"@ {
        go_version(project)
    } else if language == "Python"@ {
        python_version(project, manifests)
    } else {
        None
    }
}

/// The Rust version of a project: see [`rust_version`].
pub fn detect_rust_version(project: &ProjectFiles, manifests: &Manifests) -> (r: Option<String>)
    ensures
        text_of(r) == rust_version(project@, manifests@),
{
    match text_in_section(&manifests.cargo, "package", "rust-version") {
        Some(version) => Some(version),
        None => match text_in_section(&manifests.toolchain, "toolchain", "channel") {
            Some(channel) => Some(channel),
            None => trimmed_file(project, "rust-toolchain"),
        },
    }
}

/// The Node.js version of a project: see [`node_version`].
pub fn detect_node_version(project: &ProjectFiles, manifests: &Manifests) -> (r: Option<String>)
    ensures
        text_of(r) == node_version(project@, manifests@),
{
    match trimmed_file(project, ".nvmrc") {
        Some(version) => Some(version),
        None => text_in_section(&manifests.package, "engines", "node"),
    }
}

/// The Go version of a project: see [`go_version`].
pub fn detect_go_version(project: &ProjectFiles) -> (r: Option<String>)
    ensures
        text_of(r) == go_version(project@),
{
    match project.read("go.mod") {
        Some(text) => find_directive(text.as_str(), "go "),
        None => None,
    }
}

/// The Python version of a project: see [`python_version`].
pub fn detect_python_version(project: &ProjectFiles, manifests: &Manifests) -> (r: Option<String>)
    ensures
        text_of(r) == python_version(project@, manifests@),
{
    match trimmed_file(project, ".python-version") {
        Some(version) => Some(version),
        None => text_in_section(&manifests.pyproject, "project", "requires-python"),
    }
}

/// The Java version of a project. No source is consulted, so none is found.
pub fn detect_java_version(_project: &ProjectFiles) -> (r: Option<String>)
    ensures
        r is None,
{
    None
}

/// The version of the language of a project: see [`language_version`].
pub fn detect_language_version(
    project: &ProjectFiles,
    manifests: &Manifests,
    detected_language: &str,
) -> (r: Option<String>)
    ensures
        text_of(r) == language_version(project@, manifests@, detected_language@),
{
    let language = to_chars(detected_language);
    let language = language.as_slice();
    if is_text(language, "Rust") {
        detect_rust_version(project, manifests)
    } else if is_text(language, "JavaScript") {
        detect_node_version(project, manifests)
    } else if is_text(language, "Go") {
        detect_go_version(project)
    } else if is_text(language, "Python") {
        detect_python_version(project, manifests)
    } else if is_text(language, "Java") {
        detect_java_version(project)
    } else {
        None
    }
}

} // verus!
