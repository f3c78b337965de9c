//! Fingerprints a source-code project: its primary language, the version
//! and lifecycle status of that language, its framework and its name.
//!
//! The caller collects what the top level of the project directory holds
//! into a [`ProjectFiles`] value and hands it to [`examine`].

pub mod detector;
pub mod document;
pub mod frameworks;
pub mod languages;
pub mod project_info;
pub mod text;

pub use crate::detector::ProjectFiles;
pub use crate::project_info::{FrameworkDetails, LanguageStatus, ProjectInfo};

use vstd::prelude::*;

use crate::detector::{analysis, detect_project_info, manifests_of, outcome_of};

verus! {

/// Examines a project and returns what was detected of it: see
/// [`analysis`]. The only errors are a path that does not exist and a
/// project whose language cannot be detected.
pub fn examine(project: &ProjectFiles) -> (r: Result<ProjectInfo, String>)
    ensures
        outcome_of(r) == analysis(project@, manifests_of(project@)),
        !project.exists ==> r is Err,
        r matches Ok(info) ==> info.well_formed() && info.language@.len() > 0,
{
    detect_project_info(project)
}

} // verus!
