use examine::languages::{
    clean_version_string, extract_major_version, get_go_status, get_java_status,
    get_language_status, get_node_status, get_python_status, get_rust_status,
};
use examine::project_info::LanguageStatus;

fn ending_soon(date: &str) -> LanguageStatus {
    LanguageStatus::EndingSoon {
        date: date.to_string(),
    }
}

fn end_of_life(date: &str) -> LanguageStatus {
    LanguageStatus::EndOfLife {
        date: date.to_string(),
    }
}

#[test]
fn test_clean_version_string() {
    assert_eq!(clean_version_string("v1.70.0"), "1.70.0");
    assert_eq!(clean_version_string(">=3.11"), "3.11");
    assert_eq!(clean_version_string("^18.0.0"), "18.0.0");
    assert_eq!(clean_version_string("~2.7.0"), "2.7.0");
    assert_eq!(clean_version_string("1.21"), "1.21");
}

#[test]
fn test_extract_major_version() {
    assert_eq!(extract_major_version("18.0.0"), 18);
    assert_eq!(extract_major_version("3.11.2"), 3);
    assert_eq!(extract_major_version("1.70"), 1);
    assert_eq!(extract_major_version("invalid"), 0);
}

#[test]
fn test_rust_status() {
    assert_eq!(get_rust_status("1.75.0"), LanguageStatus::Supported);
    assert_eq!(
        get_rust_status("1.70.0"),
        LanguageStatus::EndingSoon {
            date: "2024-12-31".to_string()
        }
    );
    assert!(matches!(
        get_rust_status("1.60.0"),
        LanguageStatus::EndOfLife { .. }
    ));
}

#[test]
fn test_node_status() {
    assert_eq!(get_node_status("20.0.0"), LanguageStatus::Supported);
    assert_eq!(get_node_status("18.0.0"), LanguageStatus::Supported);
    assert!(matches!(
        get_node_status("14.0.0"),
        LanguageStatus::EndOfLife { .. }
    ));
}

#[test]
fn test_python_status() {
    assert_eq!(get_python_status("3.12.0"), LanguageStatus::Supported);
    assert_eq!(get_python_status("3.11.5"), LanguageStatus::Supported);
    assert!(matches!(
        get_python_status("3.8.0"),
        LanguageStatus::EndOfLife { .. }
    ));
    assert!(matches!(
        get_python_status("2.7.18"),
        LanguageStatus::EndOfLife { .. }
    ));
}

#[test]
fn test_go_status() {
    assert_eq!(get_go_status("1.22.0"), LanguageStatus::Supported);
    assert_eq!(get_go_status("1.21.5"), LanguageStatus::Supported);
    assert!(matches!(
        get_go_status("1.19.0"),
        LanguageStatus::EndOfLife { .. }
    ));
}

#[test]
fn test_java_status() {
    assert_eq!(get_java_status("21"), LanguageStatus::Supported);
    assert_eq!(get_java_status("17"), LanguageStatus::Supported);
    assert_eq!(get_java_status("11"), LanguageStatus::Supported);
    assert!(matches!(
        get_java_status("8"),
        LanguageStatus::EndingSoon { .. }
    ));
}

#[test]
fn test_unknown_language() {
    assert_eq!(
        get_language_status("Unknown", "1.0.0"),
        LanguageStatus::Unknown
    );
}

#[test]
fn clean_strips_whitespace_at_both_ends() {
    assert_eq!(clean_version_string("  1.2.3  "), "1.2.3");
    assert_eq!(clean_version_string("\t1.2.3\r\n"), "1.2.3");
    assert_eq!(clean_version_string("\u{a0}1.2\u{3000}"), "1.2");
    assert_eq!(clean_version_string("\u{2003}v7\u{85}"), "7");
}

#[test]
fn clean_of_nothing_is_empty() {
    assert_eq!(clean_version_string(""), "");
    assert_eq!(clean_version_string("   "), "");
    assert_eq!(clean_version_string("v"), "");
    assert_eq!(clean_version_string(">="), "");
    assert_eq!(clean_version_string("vvv>=>=<="), "");
}

#[test]
fn clean_strips_each_marker_as_often_as_it_stands() {
    assert_eq!(clean_version_string("vv1.0"), "1.0");
    assert_eq!(clean_version_string(">=>=1.0"), "1.0");
    assert_eq!(clean_version_string("<=<=1.0"), "1.0");
    assert_eq!(clean_version_string("==1.0"), "1.0");
    assert_eq!(clean_version_string(">>1.0"), "1.0");
    assert_eq!(clean_version_string("<<1.0"), "1.0");
    assert_eq!(clean_version_string("^^1.0"), "1.0");
    assert_eq!(clean_version_string("~~1.0"), "1.0");
    assert_eq!(clean_version_string("<=1.0"), "1.0");
    assert_eq!(clean_version_string("=1.0"), "1.0");
    assert_eq!(clean_version_string(">1.0"), "1.0");
    assert_eq!(clean_version_string("<1.0"), "1.0");
}

#[test]
fn clean_strips_the_markers_in_their_order() {
    assert_eq!(clean_version_string("v>=<==><^~1.0"), "1.0");
    assert_eq!(clean_version_string("~=1.0"), "=1.0");
    assert_eq!(clean_version_string("^v1.0"), "v1.0");
    assert_eq!(clean_version_string("~^1.0"), "^1.0");
    assert_eq!(clean_version_string(">v1.0"), "v1.0");
    assert_eq!(clean_version_string("=>=1.0"), "=1.0");
    assert_eq!(clean_version_string("<>1.0"), ">1.0");
    assert_eq!(clean_version_string("><1.0"), "1.0");
    assert_eq!(clean_version_string(">=v1.0"), "v1.0");
}

#[test]
fn clean_keeps_the_first_token_only() {
    assert_eq!(clean_version_string(">=1.0 <2.0"), "1.0");
    assert_eq!(clean_version_string("1.0\t2.0"), "1.0");
    assert_eq!(clean_version_string("v 1.0"), "1.0");
    assert_eq!(clean_version_string(">= 3.11, < 4"), "3.11,");
    assert_eq!(clean_version_string("^ \n 18 19"), "18");
    assert_eq!(clean_version_string("stable"), "stable");
    assert_eq!(clean_version_string("lts/iron"), "lts/iron");
}

#[test]
fn clean_is_idempotent_on_results_without_a_marker() {
    for raw in [
        "v1.70.0",
        ">=3.11",
        "^18.0.0",
        "~2.7.0",
        "1.21",
        "",
        "   ",
        " >=1.0 <2.0 ",
        "stable",
        "v 1.0",
        "\u{a0}1.2\u{3000}",
    ] {
        let once = clean_version_string(raw);
        assert_eq!(clean_version_string(&once), once, "{:?}", raw);
    }
}

#[test]
fn clean_is_not_idempotent_where_a_marker_is_left() {
    assert_eq!(clean_version_string("~=1.0"), "=1.0");
    assert_eq!(clean_version_string("=1.0"), "1.0");
    assert_eq!(clean_version_string("^v2"), "v2");
    assert_eq!(clean_version_string("v2"), "2");
}

#[test]
fn major_version_reads_numbers_as_parse_does() {
    assert_eq!(extract_major_version(""), 0);
    assert_eq!(extract_major_version("."), 0);
    assert_eq!(extract_major_version(".5"), 0);
    assert_eq!(extract_major_version("7"), 7);
    assert_eq!(extract_major_version("007.1"), 7);
    assert_eq!(extract_major_version("+12.1"), 12);
    assert_eq!(extract_major_version("+"), 0);
    assert_eq!(extract_major_version("++1"), 0);
    assert_eq!(extract_major_version("-3.1"), 0);
    assert_eq!(extract_major_version(" 3.1"), 0);
    assert_eq!(extract_major_version("3 .1"), 0);
    assert_eq!(extract_major_version("3a.1"), 0);
    assert_eq!(extract_major_version("١٢.0"), 0);
    assert_eq!(extract_major_version("4294967295.0"), 4294967295);
    assert_eq!(extract_major_version("4294967296.0"), 0);
    assert_eq!(extract_major_version("00000000004294967295"), 4294967295);
    assert_eq!(extract_major_version("99999999999999999999999"), 0);
    assert_eq!(extract_major_version("0"), 0);
}

#[test]
fn major_version_agrees_with_parse() {
    for text in [
        "18", "+18", "-18", "", "+", "0018", "4294967295", "4294967296", "42949672950", "1_0", "1e3",
        "٣", " 1", "1 ", "12a", "a12", "+-1", "4294967299", "009", "3000000000", "5000000000",
    ] {
        assert_eq!(
            extract_major_version(text),
            text.parse::<u32>().unwrap_or(0),
            "{:?}",
            text
        );
    }
}

#[test]
fn rust_status_table() {
    for version in ["1.75", "1.76.1", "1.77.0", "1.78", "v1.75.0", ">=1.78", "1.750"] {
        assert_eq!(get_rust_status(version), LanguageStatus::Supported, "{}", version);
    }
    for version in ["1.70", "1.71.0", "1.72", "1.73", "1.74.9", " 1.74 "] {
        assert_eq!(get_rust_status(version), ending_soon("2024-12-31"), "{}", version);
    }
    for version in ["1.60.0", "1.6", "1.5", "1.56.1", "1.59", "1.69", "1.50"] {
        assert_eq!(get_rust_status(version), end_of_life("2023-01-01"), "{}", version);
    }
    for version in ["1.79", "1.80.0", "1.4", "2.0", "stable", "nightly", "", "1.7", "1"] {
        assert_eq!(get_rust_status(version), LanguageStatus::Unknown, "{}", version);
    }
}

#[test]
fn node_status_table() {
    assert_eq!(get_node_status("20"), LanguageStatus::Supported);
    assert_eq!(get_node_status("18.19.1"), LanguageStatus::Supported);
    assert_eq!(get_node_status("v21.0.0"), LanguageStatus::Supported);
    assert_eq!(get_node_status("22"), LanguageStatus::Supported);
    assert_eq!(get_node_status(">=18.0.0"), LanguageStatus::Supported);
    assert_eq!(get_node_status("16.20"), ending_soon("2024-04-30"));
    assert_eq!(get_node_status("14.0.0"), end_of_life("2023-04-30"));
    assert_eq!(get_node_status("12.22"), end_of_life("2022-04-30"));
    assert_eq!(get_node_status("19"), end_of_life("2022-01-01"));
    assert_eq!(get_node_status("17"), end_of_life("2022-01-01"));
    assert_eq!(get_node_status("15"), end_of_life("2022-01-01"));
    assert_eq!(get_node_status("13"), end_of_life("2022-01-01"));
    assert_eq!(get_node_status("10"), end_of_life("2022-01-01"));
    assert_eq!(get_node_status("0"), end_of_life("2022-01-01"));
    assert_eq!(get_node_status("4294967295"), LanguageStatus::Supported);
}

#[test]
fn node_version_that_cannot_be_read_is_unknown() {
    for version in ["invalid", "lts/iron", "", "v", "x.18", ".18", "18x", "-18", "4294967296", "١٨"] {
        assert_eq!(get_node_status(version), LanguageStatus::Unknown, "{:?}", version);
        assert_eq!(
            get_language_status("JavaScript", version),
            LanguageStatus::Unknown,
            "{:?}",
            version
        );
    }
    assert_eq!(get_node_status("+18"), LanguageStatus::Supported);
    assert_eq!(get_node_status("018.x"), LanguageStatus::Supported);
}

#[test]
fn go_status_table() {
    assert_eq!(get_go_status("1.22"), LanguageStatus::Supported);
    assert_eq!(get_go_status("1.21"), LanguageStatus::Supported);
    assert_eq!(get_go_status("1.20"), ending_soon("2024-08-01"));
    assert_eq!(get_go_status("1.20.3"), ending_soon("2024-08-01"));
    assert_eq!(get_go_status("1.19.0"), end_of_life("2024-02-01"));
    assert_eq!(get_go_status("1.18"), end_of_life("2023-08-01"));
    assert_eq!(get_go_status("1.17"), end_of_life("2023-01-01"));
    assert_eq!(get_go_status("1.23"), end_of_life("2023-01-01"));
    assert_eq!(get_go_status("1.2"), end_of_life("2023-01-01"));
    assert_eq!(get_go_status("1"), end_of_life("2023-01-01"));
    assert_eq!(get_go_status("2.0"), end_of_life("2023-01-01"));
    assert_eq!(get_go_status("1.x"), end_of_life("2023-01-01"));
}

#[test]
fn go_version_that_cannot_be_read_is_unknown() {
    for version in ["", "tip", "go1.21", "x.21", ".21", "1x.21", "devel"] {
        assert_eq!(get_go_status(version), LanguageStatus::Unknown, "{:?}", version);
        assert_eq!(get_language_status("Go", version), LanguageStatus::Unknown);
    }
}

#[test]
fn python_status_table() {
    assert_eq!(get_python_status("3.12"), LanguageStatus::Supported);
    assert_eq!(get_python_status("3.11"), LanguageStatus::Supported);
    assert_eq!(get_python_status("3.10.4"), LanguageStatus::Supported);
    assert_eq!(get_python_status(">=3.11"), LanguageStatus::Supported);
    assert_eq!(get_python_status("3.13"), LanguageStatus::Supported);
    assert_eq!(get_python_status("3.14.0"), LanguageStatus::Supported);
    assert_eq!(get_python_status("4.13"), LanguageStatus::Supported);
    assert_eq!(get_python_status("3.9"), ending_soon("2025-10-01"));
    assert_eq!(get_python_status("3.8.0"), end_of_life("2024-10-01"));
    assert_eq!(get_python_status("3.7"), end_of_life("2023-06-27"));
    assert_eq!(get_python_status("2.7.18"), end_of_life("2020-01-01"));
    assert_eq!(get_python_status("3.6"), end_of_life("2023-01-01"));
    assert_eq!(get_python_status("2.6"), end_of_life("2023-01-01"));
    assert_eq!(get_python_status("4.0"), end_of_life("2023-01-01"));
    assert_eq!(get_python_status("2.13"), end_of_life("2023-01-01"));
    assert_eq!(get_python_status("0.0"), end_of_life("2023-01-01"));
    assert_eq!(get_python_status("3.12.x"), LanguageStatus::Supported);
}

#[test]
fn python_version_that_cannot_be_read_is_unknown() {
    for version in ["3.x", "x.12", "3.", ".", ".12", "3.12rc1", "three.twelve", "3.4294967296"] {
        assert_eq!(get_python_status(version), LanguageStatus::Unknown, "{:?}", version);
        assert_eq!(get_language_status("Python", version), LanguageStatus::Unknown);
    }
}

#[test]
fn python_status_needs_two_parts() {
    assert_eq!(get_python_status("3"), LanguageStatus::Unknown);
    assert_eq!(get_python_status(""), LanguageStatus::Unknown);
    assert_eq!(get_python_status("pypy"), LanguageStatus::Unknown);
    assert_eq!(get_python_status("v3"), LanguageStatus::Unknown);
}

#[test]
fn java_status_table() {
    assert_eq!(get_java_status("21"), LanguageStatus::Supported);
    assert_eq!(get_java_status("17.0.2"), LanguageStatus::Supported);
    assert_eq!(get_java_status("11"), LanguageStatus::Supported);
    assert_eq!(get_java_status("22"), LanguageStatus::Supported);
    assert_eq!(get_java_status("25"), LanguageStatus::Supported);
    assert_eq!(get_java_status("8"), ending_soon("2025-12-31"));
    for major in [9u32, 10, 12, 13, 14, 15, 16, 18, 19, 20] {
        assert_eq!(
            get_java_status(&major.to_string()),
            end_of_life("2023-01-01"),
            "{}",
            major
        );
    }
    assert_eq!(get_java_status("7"), end_of_life("2022-01-01"));
    assert_eq!(get_java_status("1.8"), end_of_life("2022-01-01"));
    assert_eq!(get_java_status("0"), end_of_life("2022-01-01"));
}

#[test]
fn java_version_that_cannot_be_read_is_unknown() {
    for version in ["", "invalid", "openjdk-17", "x.8", "17-ea", "4294967296"] {
        assert_eq!(get_java_status(version), LanguageStatus::Unknown, "{:?}", version);
        assert_eq!(get_language_status("Java", version), LanguageStatus::Unknown);
    }
}

#[test]
fn rust_version_that_matches_no_prefix_is_unknown() {
    for version in ["", "invalid", "stable", "x.75"] {
        assert_eq!(get_language_status("Rust", version), LanguageStatus::Unknown);
    }
}

#[test]
fn language_status_goes_by_the_exact_language_name() {
    assert_eq!(get_language_status("Rust", "1.75.0"), LanguageStatus::Supported);
    assert_eq!(get_language_status("Rust", "v1.70"), ending_soon("2024-12-31"));
    assert_eq!(get_language_status("JavaScript", "^18.0.0"), LanguageStatus::Supported);
    assert_eq!(get_language_status("JavaScript", "14"), end_of_life("2023-04-30"));
    assert_eq!(get_language_status("Go", "1.20"), ending_soon("2024-08-01"));
    assert_eq!(get_language_status("Python", ">=3.9"), ending_soon("2025-10-01"));
    assert_eq!(get_language_status("Java", "8"), ending_soon("2025-12-31"));
    for language in ["rust", "RUST", "Node", "Node.js", "", "C++", "PHP", "Ruby", "Rust "] {
        assert_eq!(
            get_language_status(language, "1.75.0"),
            LanguageStatus::Unknown,
            "{}",
            language
        );
    }
}

#[test]
fn language_status_agrees_with_the_tables() {
    for version in ["1.75.0", "v1.21", ">=3.11", "8", "", "18.0.0", "~=1.0"] {
        assert_eq!(get_language_status("Rust", version), get_rust_status(version));
        assert_eq!(get_language_status("JavaScript", version), get_node_status(version));
        assert_eq!(get_language_status("Go", version), get_go_status(version));
        assert_eq!(get_language_status("Python", version), get_python_status(version));
        assert_eq!(get_language_status("Java", version), get_java_status(version));
    }
}
