use examine::project_info::{FrameworkDetails, LanguageStatus, ProjectInfo};

#[test]
fn test_project_info_creation() {
    let project_info = ProjectInfo::new("Rust".to_string(), "/test/path");
    assert_eq!(project_info.language, "Rust");
    assert_eq!(project_info.project_path, "/test/path");
    assert!(project_info.language_version.is_none());
    assert_eq!(project_info.language_status, LanguageStatus::Unknown);
}

#[test]
fn test_project_info_builder() {
    let project_info = ProjectInfo::new("Rust".to_string(), "/test/path")
        .with_language_version("1.70.0".to_string())
        .with_language_status(LanguageStatus::Supported)
        .with_framework("Axum".to_string(), Some("0.7.0".to_string()))
        .with_project_name("my-app".to_string());

    assert_eq!(project_info.language_version, Some("1.70.0".to_string()));
    assert_eq!(project_info.language_status, LanguageStatus::Supported);
    assert_eq!(project_info.framework, Some("Axum".to_string()));
    assert_eq!(project_info.framework_version, Some("0.7.0".to_string()));
    assert_eq!(project_info.project_name, Some("my-app".to_string()));
}

#[test]
fn test_summary() {
    let project_info = ProjectInfo::new("JavaScript".to_string(), "/test")
        .with_language_version("18.0".to_string())
        .with_framework("React".to_string(), Some("18.2.0".to_string()));

    assert_eq!(project_info.summary(), "JavaScript + v18.0 + React v18.2.0");
}

#[test]
fn test_language_status_display() {
    assert_eq!(LanguageStatus::Supported.to_string(), "✅ Supported");
    assert_eq!(
        LanguageStatus::EndingSoon {
            date: "2024-12-31".to_string()
        }
        .to_string(),
        "⚠️ Ending Soon (2024-12-31)"
    );
    assert_eq!(
        LanguageStatus::EndOfLife {
            date: "2023-04-01".to_string()
        }
        .to_string(),
        "❌ End of Life (2023-04-01)"
    );
    assert_eq!(LanguageStatus::Unknown.to_string(), "❓ Unknown");
}

#[test]
fn test_framework_details() {
    let framework_details = FrameworkDetails {
        framework_type: "Web Framework".to_string(),
        alternatives: vec!["Express".to_string(), "Fastify".to_string()],
        is_popular: true,
        description: Some("Fast web framework".to_string()),
    };

    assert_eq!(framework_details.framework_type, "Web Framework");
    assert_eq!(framework_details.alternatives.len(), 2);
    assert!(framework_details.is_popular);
    assert!(framework_details.description.is_some());
}

fn sample_details() -> FrameworkDetails {
    FrameworkDetails {
        framework_type: "Web Framework".to_string(),
        alternatives: vec!["Warp".to_string()],
        is_popular: true,
        description: None,
    }
}

#[test]
fn new_record_holds_only_language_and_path() {
    let info = ProjectInfo::new("Go".to_string(), "some/dir");
    assert_eq!(info.language, "Go");
    assert_eq!(info.project_path, "some/dir");
    assert!(info.language_version.is_none());
    assert_eq!(info.language_status, LanguageStatus::Unknown);
    assert!(info.framework.is_none());
    assert!(info.framework_version.is_none());
    assert!(info.framework_details.is_none());
    assert!(info.project_name.is_none());
}

#[test]
fn summary_of_language_alone() {
    let info = ProjectInfo::new("Rust".to_string(), "/p");
    assert_eq!(info.summary(), "Rust");
}

#[test]
fn summary_with_version_only() {
    let info = ProjectInfo::new("Rust".to_string(), "/p").with_language_version("1.75".to_string());
    assert_eq!(info.summary(), "Rust + v1.75");
}

#[test]
fn summary_with_framework_without_version() {
    let info = ProjectInfo::new("Go".to_string(), "/p").with_framework("Gin".to_string(), None);
    assert_eq!(info.summary(), "Go + Gin");
}

#[test]
fn summary_with_framework_version_but_no_language_version() {
    let info = ProjectInfo::new("Python".to_string(), "/p")
        .with_framework("Django".to_string(), Some("4.2.0".to_string()));
    assert_eq!(info.summary(), "Python + Django v4.2.0");
}

#[test]
fn summary_keeps_texts_verbatim() {
    let info = ProjectInfo::new("".to_string(), "/p")
        .with_language_version("".to_string())
        .with_framework(" + ".to_string(), Some("".to_string()));
    assert_eq!(info.summary(), " + v +  +  v");
}

#[test]
fn summary_ignores_status_name_and_details() {
    let info = ProjectInfo::new("Rust".to_string(), "/p")
        .with_language_status(LanguageStatus::Supported)
        .with_project_name("demo".to_string())
        .with_framework("Axum".to_string(), None)
        .with_framework_details(sample_details());
    assert_eq!(info.summary(), "Rust + Axum");
}

#[test]
fn details_are_attached_to_a_framework() {
    let info = ProjectInfo::new("Rust".to_string(), "/p")
        .with_framework("Axum".to_string(), Some("0.7".to_string()))
        .with_framework_details(sample_details());
    let details = info.framework_details.unwrap();
    assert_eq!(details.framework_type, "Web Framework");
    assert_eq!(details.alternatives, vec!["Warp"]);
    assert_eq!(info.framework, Some("Axum".to_string()));
    assert_eq!(info.framework_version, Some("0.7".to_string()));
}

#[test]
fn details_without_a_framework_are_not_attached() {
    let info = ProjectInfo::new("Rust".to_string(), "/p")
        .with_language_version("1.75".to_string())
        .with_framework_details(sample_details());
    assert!(info.framework.is_none());
    assert!(info.framework_version.is_none());
    assert!(info.framework_details.is_none());
    assert_eq!(info.language_version, Some("1.75".to_string()));
    assert_eq!(info.language, "Rust");
}

#[test]
fn with_framework_replaces_name_and_version() {
    let info = ProjectInfo::new("Rust".to_string(), "/p")
        .with_framework("Axum".to_string(), Some("0.7".to_string()))
        .with_framework("Warp".to_string(), None);
    assert_eq!(info.framework, Some("Warp".to_string()));
    assert!(info.framework_version.is_none());
}

#[test]
fn builders_change_one_field_each() {
    let base = ProjectInfo::new("Rust".to_string(), "/p");
    let named = base.clone().with_project_name("n".to_string());
    assert_eq!(named.project_name, Some("n".to_string()));
    assert_eq!(named.language, base.language);
    assert_eq!(named.project_path, base.project_path);
    assert!(named.language_version.is_none());
    assert!(named.framework.is_none());

    let status = base.clone().with_language_status(LanguageStatus::EndOfLife {
        date: "2023-01-01".to_string(),
    });
    assert_eq!(
        status.language_status,
        LanguageStatus::EndOfLife {
            date: "2023-01-01".to_string()
        }
    );
    assert!(status.project_name.is_none());
    assert!(status.language_version.is_none());
}

#[test]
fn status_labels_carry_the_date_verbatim() {
    assert_eq!(
        LanguageStatus::EndingSoon { date: "".to_string() }.to_string(),
        "⚠️ Ending Soon ()"
    );
    assert_eq!(
        LanguageStatus::EndOfLife { date: "soon)".to_string() }.to_string(),
        "❌ End of Life (soon))"
    );
}
