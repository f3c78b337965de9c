//! Project name detection: the name that the manifest declares, else the
//! final segment of the path.

use vstd::prelude::*;

use crate::detector::files::{Manifests, ManifestsView, ProjectFiles, ProjectFilesView};
use crate::detector::probe::{
    directive, find_directive, last_segment, or_else, text_at, text_in_section, text_under,
};
use crate::document::{member_of, text_in};
use crate::project_info::text_of;
use crate::text::{is_text, lines, split_on, to_chars};

verus! {

/// The name of a Go module: the last segment of the module path that
/// follows `module ` on the first line that begins with it.
pub open spec fn go_module(lines: Seq<Seq<char>>) -> Option<Seq<char>> {
    match directive(lines, "module "@) {
        Some(path) => Some(split_on(path, '/').last()),
        None => None,
    }
}

/// The name that the manifest of a project declares.
pub open spec fn manifest_name(
    project: ProjectFilesView,
    manifests: ManifestsView,
    language: Seq<char>,
) -> Option<Seq<char>> {
    if language == "Rust"@ {
        text_at(manifests.cargo, "package"@, "name"@)
    } else if language == "JavaScript"@ {
        text_in(member_of(manifests.package, "name"@))
    } else if language == "Go"@ {
        match project.content("go.mod"@) {
            Some(text) => go_module(lines(text)),
            None => None,
        }
    } else if language == "Python"@ {
        text_at(manifests.pyproject, "project"@, "name"@)
    } else {
        None
    }
}

/// The name of a project: the one its manifest declares, else the final
/// segment of its path.
pub open spec fn project_name(
    project: ProjectFilesView,
    manifests: ManifestsView,
    language: Seq<char>,
) -> Option<Seq<char>> {
    or_else(manifest_name(project, manifests, language), project.base_name)
}

/// The name of a project of the given language: see [`project_name`].
pub fn detect_project_name(
    project: &ProjectFiles,
    manifests: &Manifests,
    detected_language: &str,
) -> (r: Option<String>)
    ensures
        text_of(r) == project_name(project@, manifests@, detected_language@),
{
    let language = to_chars(detected_language);
    let language = language.as_slice();
    let declared = if is_text(language, "Rust") {
        text_in_section(&manifests.cargo, "package", "name")
    } else if is_text(language, "JavaScript") {
        match &manifests.package {
            Some(root) => text_under(root, "name"),
            None => None,
        }
    } else if is_text(language, "Go") {
        match project.read("go.mod") {
            Some(text) => match find_directive(text.as_str(), "module ") {
                Some(path) => Some(last_segment(path.as_str())),
                None => None,
            },
            None => None,
        }
    } else if is_text(language, "Python") {
        text_in_section(&manifests.pyproject, "project", "name")
    } else {
        None
    };
    match declared {
        Some(name) => Some(name),
        None => match &project.base_name {
            Some(name) => Some(name.clone()),
            None => None,
        },
    }
}

} // verus!
