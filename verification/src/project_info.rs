//! The result model: what is known about an analysed project.

use vstd::prelude::*;
use vstd::string::StringExecFns;

use crate::text::join;

verus! {

/// Complete information about a detected project.
#[derive(Debug, Clone)]
pub struct ProjectInfo {
    /// The primary language.
    pub language: String,
    /// The version of the language, as the project states it.
    pub language_version: Option<String>,
    /// The lifecycle status of that version; `Unknown` without a version.
    pub language_status: LanguageStatus,
    /// The display name of the framework.
    pub framework: Option<String>,
    /// The version of the framework; present only with a framework.
    pub framework_version: Option<String>,
    /// The record of the framework; present only with a framework.
    pub framework_details: Option<FrameworkDetails>,
    /// The name of the project.
    pub project_name: Option<String>,
    /// The path that was analysed, as it was given.
    pub project_path: String,
}

/// Lifecycle status of a language version.
#[derive(Debug, Clone, PartialEq)]
pub enum LanguageStatus {
    /// The version is maintained.
    Supported,
    /// Maintenance of the version ends on `date`, an ISO 8601 calendar date.
    EndingSoon { date: String },
    /// Maintenance of the version ended on `date`, an ISO 8601 calendar date.
    EndOfLife { date: String },
    /// Nothing is known of the version, or no version is known.
    Unknown,
}

/// Descriptive metadata of a detected framework.
#[derive(Debug, Clone)]
pub struct FrameworkDetails {
    /// The category of the framework, such as `Web Framework`.
    pub framework_type: String,
    /// The names of competing frameworks, in order.
    pub alternatives: Vec<String>,
    /// Whether the framework is widely used.
    pub is_popular: bool,
    /// One sentence on the framework.
    pub description: Option<String>,
}

/// Mathematical model of a [`LanguageStatus`].
pub enum LanguageStatusView {
    Supported,
    EndingSoon { date: Seq<char> },
    EndOfLife { date: Seq<char> },
    Unknown,
}

/// Mathematical model of a [`FrameworkDetails`].
pub struct FrameworkDetailsView {
    pub framework_type: Seq<char>,
    pub alternatives: Seq<Seq<char>>,
    pub is_popular: bool,
    pub description: Option<Seq<char>>,
}

/// Mathematical model of a [`ProjectInfo`].
pub struct ProjectInfoView {
    pub language: Seq<char>,
    pub language_version: Option<Seq<char>>,
    pub language_status: LanguageStatusView,
    pub framework: Option<Seq<char>>,
    pub framework_version: Option<Seq<char>>,
    pub framework_details: Option<FrameworkDetailsView>,
    pub project_name: Option<Seq<char>>,
    pub project_path: Seq<char>,
}

/// The text of an optional string.
pub open spec fn text_of(s: Option<String>) -> Option<Seq<char>> {
    match s {
        Some(t) => Some(t@),
        None => None,
    }
}

/// The texts of a list of strings.
pub open spec fn texts_of(v: Seq<String>) -> Seq<Seq<char>> {
    Seq::new(v.len(), |i: int| v[i]@)
}

impl View for LanguageStatus {
    type V = LanguageStatusView;

    open spec fn view(&self) -> LanguageStatusView {
        match *self {
            LanguageStatus::Supported => LanguageStatusView::Supported,
            LanguageStatus::EndingSoon { date } => LanguageStatusView::EndingSoon { date: date@ },
            LanguageStatus::EndOfLife { date } => LanguageStatusView::EndOfLife { date: date@ },
            LanguageStatus::Unknown => LanguageStatusView::Unknown,
        }
    }
}

impl View for FrameworkDetails {
    type V = FrameworkDetailsView;

    open spec fn view(&self) -> FrameworkDetailsView {
        FrameworkDetailsView {
            framework_type: self.framework_type@,
            alternatives: texts_of(self.alternatives@),
            is_popular: self.is_popular,
            description: text_of(self.description),
        }
    }
}

/// The model of an optional framework record.
pub open spec fn details_of(d: Option<FrameworkDetails>) -> Option<FrameworkDetailsView> {
    match d {
        Some(x) => Some(x@),
        None => None,
    }
}

impl View for ProjectInfo {
    type V = ProjectInfoView;

    open spec fn view(&self) -> ProjectInfoView {
        ProjectInfoView {
            language: self.language@,
            language_version: text_of(self.language_version),
            language_status: self.language_status@,
            framework: text_of(self.framework),
            framework_version: text_of(self.framework_version),
            framework_details: details_of(self.framework_details),
            project_name: text_of(self.project_name),
            project_path: self.project_path@,
        }
    }
}

impl LanguageStatusView {
    /// The text shown for a status: a marker, a label and, where the status
    /// carries one, its date in parentheses.
    pub open spec fn label(self) -> Seq<char> {
        match self {
            LanguageStatusView::Supported => "✅ Supported"@,
            LanguageStatusView::EndingSoon { date } => "⚠️ Ending Soon ("@ + date + ")"@,
            LanguageStatusView::EndOfLife { date } => "❌ End of Life ("@ + date + ")"@,
            LanguageStatusView::Unknown => "❓ Unknown"@,
        }
    }
}

impl LanguageStatus {
    /// Renders the status for display.
    pub fn to_string(&self) -> (r: String)
        ensures
            r@ == self@.label(),
    {
        match self {
            LanguageStatus::Supported => "✅ Supported".to_owned(),
            LanguageStatus::EndingSoon { date } => {
                let mut out = "⚠️ Ending Soon (".to_owned();
                out.append(date.as_str());
                out.append(")");
                out
            },
            LanguageStatus::EndOfLife { date } => {
                let mut out = "❌ End of Life (".to_owned();
                out.append(date.as_str());
                out.append(")");
                out
            },
            LanguageStatus::Unknown => "❓ Unknown".to_owned(),
        }
    }
}

impl ProjectInfoView {
    /// A framework version or a framework record is present only together
    /// with a framework.
    pub open spec fn well_formed(self) -> bool {
        self.framework is None ==> self.framework_version is None && self.framework_details is None
    }

    /// The parts of the summary, in order: the language; `v` and the
    /// version, if a version is known; the framework, followed by ` v` and
    /// its version where that is known, if a framework is known.
    pub open spec fn summary_parts(self) -> Seq<Seq<char>> {
        let version_part = match self.language_version {
            Some(v) => seq!["v"@ + v],
            None => Seq::empty(),
        };
        let framework_part = match self.framework {
            Some(f) => match self.framework_version {
                Some(v) => seq![f + " v"@ + v],
                None => seq![f],
            },
            None => Seq::empty(),
        };
        seq![self.language] + version_part + framework_part
    }

    /// The parts of the summary joined by `" + "`.
    pub open spec fn summary(self) -> Seq<char> {
        join(self.summary_parts(), " + "@)
    }
}

impl ProjectInfo {
    /// See [`ProjectInfoView::well_formed`].
    pub open spec fn well_formed(&self) -> bool {
        self@.well_formed()
    }

    /// A record that holds only the language and the analysed path.
    pub fn new(detected_language: String, analyzed_project_path: &str) -> (r: ProjectInfo)
        ensures
            r@ == (ProjectInfoView {
                language: detected_language@,
                language_version: None,
                language_status: LanguageStatusView::Unknown,
                framework: None,
                framework_version: None,
                framework_details: None,
                project_name: None,
                project_path: analyzed_project_path@,
            }),
            r.well_formed(),
    {
        ProjectInfo {
            language: detected_language,
            language_version: None,
            language_status: LanguageStatus::Unknown,
            framework: None,
            framework_version: None,
            framework_details: None,
            project_name: None,
            project_path: analyzed_project_path.to_owned(),
        }
    }

    /// Sets the language version.
    pub fn with_language_version(self, detected_version: String) -> (r: ProjectInfo)
        ensures
            r@ == (ProjectInfoView { language_version: Some(detected_version@), ..self@ }),
            self.well_formed() ==> r.well_formed(),
    {
        let mut info = self;
        info.language_version = Some(detected_version);
        info
    }

    /// Sets the language status.
    pub fn with_language_status(self, eol_status: LanguageStatus) -> (r: ProjectInfo)
        ensures
            r@ == (ProjectInfoView { language_status: eol_status@, ..self@ }),
            self.well_formed() ==> r.well_formed(),
    {
        let mut info = self;
        info.language_status = eol_status;
        info
    }

    /// Sets the framework and its version, replacing both.
    pub fn with_framework(
        self,
        detected_framework: String,
        detected_framework_version: Option<String>,
    ) -> (r: ProjectInfo)
        ensures
            r@ == (ProjectInfoView {
                framework: Some(detected_framework@),
                framework_version: text_of(detected_framework_version),
                ..self@
            }),
            r.well_formed(),
    {
        let mut info = self;
        info.framework = Some(detected_framework);
        info.framework_version = detected_framework_version;
        info
    }

    /// Attaches the framework record. A record without a framework is left
    /// as it is, so that no record ever stands without its framework.
    pub fn with_framework_details(self, additional_details: FrameworkDetails) -> (r: ProjectInfo)
        ensures
            self.framework is Some ==> r@ == (ProjectInfoView {
                framework_details: Some(additional_details@),
                ..self@
            }),
            self.framework is None ==> r@ == self@,
            self.well_formed() ==> r.well_formed(),
    {
        let mut info = self;
        if info.framework.is_some() {
            info.framework_details = Some(additional_details);
        }
        info
    }

    /// Sets the project name.
    pub fn with_project_name(self, detected_name: String) -> (r: ProjectInfo)
        ensures
            r@ == (ProjectInfoView { project_name: Some(detected_name@), ..self@ }),
            self.well_formed() ==> r.well_formed(),
    {
        let mut info = self;
        info.project_name = Some(detected_name);
        info
    }

    /// A one-line summary: the language, then `v` and the version if one is
    /// known, then the framework, with `v` and its version if one is known;
    /// the parts are joined by `" + "`.
    pub fn summary(&self) -> (r: String)
        ensures
            r@ == self@.summary(),
    {
        let mut out = self.language.clone();
        let ghost mut parts: Seq<Seq<char>> = seq![self.language@];
        proof {
            reveal_strlit(" + ");
            reveal_strlit(" + v");
            reveal_strlit("v");
            reveal_with_fuel(join, 3);
        }
        match &self.language_version {
            Some(version) => {
                out.append(" + v");
                out.append(version.as_str());
                proof {
                    let part = "v"@ + version@;
                    assert(out@ =~= join(parts.push(part), " + "@));
                    parts = parts.push(part);
                }
            },
            None => {},
        }
        match &self.framework {
            Some(framework_name) => {
                out.append(" + ");
                out.append(framework_name.as_str());
                match &self.framework_version {
                    Some(framework_version) => {
                        out.append(" v");
                        out.append(framework_version.as_str());
                    },
                    None => {},
                }
                proof {
                    let part = match text_of(self.framework_version) {
                        Some(v) => framework_name@ + " v"@ + v,
                        None => framework_name@,
                    };
                    assert(out@ =~= join(parts.push(part), " + "@));
                    parts = parts.push(part);
                }
            },
            None => {},
        }
        out
    }
}

} // verus!
