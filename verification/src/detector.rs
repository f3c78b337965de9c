//! The detection pipeline.
//!
//! Detection works on a [`ProjectFiles`] value: what the top level of a
//! project directory was found to hold. From it the rules infer the
//! language, its version and status, the framework and the project name.
//! The steps are independent of each other but for the language, which
//! comes first and selects the probes of the later steps.

pub mod files;
pub mod framework;
pub mod language;
pub mod name;
pub mod probe;
pub mod version;

pub use self::files::{
    consulted_file_names, consulted_files, manifests_of, read_manifests, Manifests, ManifestsView,
    ProjectFiles, ProjectFilesView,
};
pub use self::framework::{
    detect_framework, detect_go_framework, detect_java_framework, detect_javascript_framework,
    detect_python_framework, detect_rust_framework, extract_version_from_requirement, framework,
    framework_among_requirements, framework_of, get_dependency_version, Framework,
};
pub use self::language::{
    detect_language, detected_language, language_by_extensions, language_by_manifest,
    language_undetected, manifest_file_names,
};
pub use self::name::{detect_project_name, project_name};
pub use self::probe::{find_directive, last_segment};
pub use self::version::{
    detect_go_version, detect_java_version, detect_language_version, detect_node_version,
    detect_python_version, detect_rust_version, language_version,
};

use vstd::prelude::*;
use vstd::string::StringExecFns;

use crate::frameworks::{framework_record, get_framework_details};
use crate::languages::{get_language_status, language_status};
use crate::project_info::{LanguageStatusView, ProjectInfo, ProjectInfoView};

use self::language::lemma_detected_language_named;

verus! {

/// The text of the error for a path that does not exist.
pub open spec fn path_not_found(path: Seq<char>) -> Seq<char> {
    "Path does not exist: "@ + path
}

/// What is known of a project of the given language.
pub open spec fn described(
    project: ProjectFilesView,
    manifests: ManifestsView,
    language: Seq<char>,
) -> ProjectInfoView {
    let version = language_version(project, manifests, language);
    let found = framework(project, manifests, language);
    ProjectInfoView {
        language,
        language_version: version,
        language_status: match version {
            Some(v) => language_status(language, v),
            None => LanguageStatusView::Unknown,
        },
        framework: match found {
            Some((name, _)) => Some(name),
            None => None,
        },
        framework_version: match found {
            Some((_, v)) => v,
            None => None,
        },
        framework_details: match found {
            Some((name, _)) => framework_record(name),
            None => None,
        },
        project_name: project_name(project, manifests, language),
        project_path: project.path,
    }
}

/// The outcome of detection: an error for a path that does not exist and
/// for a project whose language cannot be detected, else the description
/// of the project.
pub open spec fn analysis(project: ProjectFilesView, manifests: ManifestsView) -> Result<
    ProjectInfoView,
    Seq<char>,
> {
    if !project.exists {
        Err(path_not_found(project.path))
    } else {
        match detected_language(project) {
            Some(language) => Ok(described(project, manifests, language)),
            None => Err(language_undetected()),
        }
    }
}

/// The model of an outcome of detection.
pub open spec fn outcome_of(outcome: Result<ProjectInfo, String>) -> Result<ProjectInfoView, Seq<char>> {
    match outcome {
        Ok(info) => Ok(info@),
        Err(message) => Err(message@),
    }
}

/// Describes a project from what was found in its directory and from its
/// parsed manifests. The outcome is an error exactly for a path that does
/// not exist and for a project whose language cannot be detected; every
/// other finding that is missing is left out of the description.
pub fn analyze(project: &ProjectFiles, manifests: &Manifests) -> (r: Result<ProjectInfo, String>)
    ensures
        outcome_of(r) == analysis(project@, manifests@),
        !project.exists ==> r is Err,
        r matches Ok(info) ==> info.well_formed() && info.language@.len() > 0,
{
    proof {
        lemma_detected_language_named(project@);
    }
    if !project.exists {
        let mut message = "Path does not exist: ".to_owned();
        message.append(project.path.as_str());
        return Err(message);
    }
    let detected_language = match detect_language(project) {
        Ok(language) => language,
        Err(message) => {
            return Err(message);
        },
    };
    let language_version = detect_language_version(project, manifests, detected_language.as_str());
    let found = detect_framework(project, manifests, detected_language.as_str());
    let name = detect_project_name(project, manifests, detected_language.as_str());
    let mut info = ProjectInfo::new(detected_language, project.path.as_str());
    match language_version {
        Some(version) => {
            let status = get_language_status(info.language.as_str(), version.as_str());
            info = info.with_language_version(version).with_language_status(status);
        },
        None => {},
    }
    match found {
        Some((framework_name, framework_version)) => {
            let details = get_framework_details(framework_name.as_str());
            info = info.with_framework(framework_name, framework_version);
            match details {
                Some(record) => {
                    info = info.with_framework_details(record);
                },
                None => {},
            }
        },
        None => {},
    }
    match name {
        Some(project_name) => {
            info = info.with_project_name(project_name);
        },
        None => {},
    }
    Ok(info)
}

/// A path that does not exist gives the error of the missing path, whatever
/// else was found: never a description, and never the other error.
pub proof fn lemma_missing_path(project: ProjectFilesView, manifests: ManifestsView)
    requires
        !project.exists,
    ensures
        analysis(project, manifests) == Err::<ProjectInfoView, Seq<char>>(
            path_not_found(project.path),
        ),
{
}

/// A description never holds a framework version or a framework record
/// without a framework, and it holds a record exactly when the knowledge
/// base has one for the framework.
pub proof fn lemma_described_well_formed(
    project: ProjectFilesView,
    manifests: ManifestsView,
    language: Seq<char>,
)
    ensures
        described(project, manifests, language).well_formed(),
        described(project, manifests, language).framework matches Some(name) ==> described(
            project,
            manifests,
            language,
        ).framework_details == framework_record(name),
{
}

/// Detects the language, version, status, framework and name of a project
/// from what was found in its directory: see [`analysis`].
pub fn detect_project_info(project: &ProjectFiles) -> (r: Result<ProjectInfo, String>)
    ensures
        outcome_of(r) == analysis(project@, manifests_of(project@)),
        !project.exists ==> r is Err,
        r matches Ok(info) ==> info.well_formed() && info.language@.len() > 0,
{
    let manifests = read_manifests(project);
    analyze(project, &manifests)
}

} // verus!
