//! Lifecycle status of language versions.
//!
//! A raw version string is first normalized, then classified by the table of
//! its language. The tables are policy data: they record which versions are
//! maintained, and since or until when.

use vstd::prelude::*;
use vstd::slice::slice_subrange;

use crate::project_info::{LanguageStatus, LanguageStatusView};
use crate::text::{
    first_token, is_text, lemma_first_token_no_blank, lemma_no_blank_fixed, lemma_split_on_parts,
    lemma_strip_effect, no_blank, parse_number, parse_u32, segment_end, split_on, starts_with,
    strip, strip_from, substring, to_chars, token_bounds, trim, trim_bounds,
};

verus! {

/// `s` without the version markers it begins with. The markers go in this
/// order, each as often as it stands at the start when its turn comes: `v`,
/// `>=`, `<=`, `=`, `>`, `<`, `^`, `~`.
pub open spec fn strip_markers(s: Seq<char>) -> Seq<char> {
    strip(
        strip(
            strip(strip(strip(strip(strip(strip(s, "v"@), ">="@), "<="@), "="@), ">"@), "<"@),
            "^"@,
        ),
        "~"@,
    )
}

/// The normalized form of a raw version string: the whitespace at both ends
/// goes, then the leading version markers, and of what is left only the first
/// whitespace-delimited token stays.
pub open spec fn clean_version(raw: Seq<char>) -> Seq<char> {
    first_token(strip_markers(trim(raw)))
}

/// The number before the first dot of a dotted version string, where a
/// number stands there.
pub open spec fn major_number(version: Seq<char>) -> Option<u32> {
    parse_u32(split_on(version, '.')[0])
}

/// The major version of a dotted version string: the number before the first
/// dot, or 0 where no number stands there.
pub open spec fn major_version(version: Seq<char>) -> u32 {
    match major_number(version) {
        Some(major) => major,
        None => 0,
    }
}

/// A status that took effect on `date`.
pub open spec fn end_of_life(date: Seq<char>) -> LanguageStatusView {
    LanguageStatusView::EndOfLife { date }
}

/// A status that takes effect on `date`.
pub open spec fn ending_soon(date: Seq<char>) -> LanguageStatusView {
    LanguageStatusView::EndingSoon { date }
}

/// The status of a normalized Rust version, by its dotted prefix.
pub open spec fn rust_status(version: Seq<char>) -> LanguageStatusView {
    if "1.75"@.is_prefix_of(version) || "1.76"@.is_prefix_of(version) || "1.77"@.is_prefix_of(
        version,
    ) || "1.78"@.is_prefix_of(version) {
        LanguageStatusView::Supported
    } else if "1.70"@.is_prefix_of(version) || "1.71"@.is_prefix_of(version) || "1.72"@.is_prefix_of(
        version,
    ) || "1.73"@.is_prefix_of(version) || "1.74"@.is_prefix_of(version) {
        ending_soon("2024-12-31"@)
    } else if "1.6"@.is_prefix_of(version) || "1.5"@.is_prefix_of(version) {
        end_of_life("2023-01-01"@)
    } else {
        LanguageStatusView::Unknown
    }
}

/// The status of a Node.js major version, by the table.
pub open spec fn node_status(major: u32) -> LanguageStatusView {
    if major == 20 || major == 18 {
        LanguageStatusView::Supported
    } else if major == 16 {
        ending_soon("2024-04-30"@)
    } else if major == 14 {
        end_of_life("2023-04-30"@)
    } else if major == 12 {
        end_of_life("2022-04-30"@)
    } else if major >= 21 {
        LanguageStatusView::Supported
    } else {
        end_of_life("2022-01-01"@)
    }
}

/// The status of a normalized Node.js version: that of its major version.
/// A version whose major version is no number has no known status.
pub open spec fn node_version_status(version: Seq<char>) -> LanguageStatusView {
    match major_number(version) {
        Some(major) => node_status(major),
        None => LanguageStatusView::Unknown,
    }
}

/// The status of a Go release, by the dotted prefix of its version.
pub open spec fn go_release_status(version: Seq<char>) -> LanguageStatusView {
    if "1.22"@.is_prefix_of(version) || "1.21"@.is_prefix_of(version) {
        LanguageStatusView::Supported
    } else if "1.20"@.is_prefix_of(version) {
        ending_soon("2024-08-01"@)
    } else if "1.19"@.is_prefix_of(version) {
        end_of_life("2024-02-01"@)
    } else if "1.18"@.is_prefix_of(version) {
        end_of_life("2023-08-01"@)
    } else {
        end_of_life("2023-01-01"@)
    }
}

/// The status of a normalized Go version: that of its release. A version
/// whose major version is no number has no known status.
pub open spec fn go_status(version: Seq<char>) -> LanguageStatusView {
    match major_number(version) {
        Some(_) => go_release_status(version),
        None => LanguageStatusView::Unknown,
    }
}

/// The status of a Python release, by major and minor version.
pub open spec fn python_release_status(major: u32, minor: u32) -> LanguageStatusView {
    if major == 3 && (minor == 12 || minor == 11 || minor == 10) {
        LanguageStatusView::Supported
    } else if major == 3 && minor == 9 {
        ending_soon("2025-10-01"@)
    } else if major == 3 && minor == 8 {
        end_of_life("2024-10-01"@)
    } else if major == 3 && minor == 7 {
        end_of_life("2023-06-27"@)
    } else if major == 2 && minor == 7 {
        end_of_life("2020-01-01"@)
    } else if major >= 3 && minor >= 13 {
        LanguageStatusView::Supported
    } else {
        end_of_life("2023-01-01"@)
    }
}

/// The status of a normalized Python version: that of the release that its
/// first two dotted parts name. A version with fewer than two dotted parts
/// has no known status, nor has one whose first or second part is no number.
pub open spec fn python_status(version: Seq<char>) -> LanguageStatusView {
    let parts = split_on(version, '.');
    if parts.len() >= 2 {
        match (parse_u32(parts[0]), parse_u32(parts[1])) {
            (Some(major), Some(minor)) => python_release_status(major, minor),
            _ => LanguageStatusView::Unknown,
        }
    } else {
        LanguageStatusView::Unknown
    }
}

/// The status of a Java major version, by the table.
pub open spec fn java_status(major: u32) -> LanguageStatusView {
    if major == 21 || major == 17 || major == 11 {
        LanguageStatusView::Supported
    } else if major == 8 {
        ending_soon("2025-12-31"@)
    } else if major >= 22 {
        LanguageStatusView::Supported
    } else if 9 <= major <= 20 {
        end_of_life("2023-01-01"@)
    } else {
        end_of_life("2022-01-01"@)
    }
}

/// The status of a normalized Java version: that of its major version. A
/// version whose major version is no number has no known status.
pub open spec fn java_version_status(version: Seq<char>) -> LanguageStatusView {
    match major_number(version) {
        Some(major) => java_status(major),
        None => LanguageStatusView::Unknown,
    }
}

/// The status of a raw version string of a language. A language without a
/// table has no known status, nor has a version that cannot be read.
pub open spec fn language_status(language: Seq<char>, version: Seq<char>) -> LanguageStatusView {
    let cleaned = clean_version(version);
    if language == "Rust"@ {
        rust_status(cleaned)
    } else if language == "JavaScript"@ {
        node_version_status(cleaned)
    } else if language == "Go"@ {
        go_status(cleaned)
    } else if language == "Python"@ {
        python_status(cleaned)
    } else if language == "Java"@ {
        java_version_status(cleaned)
    } else {
        LanguageStatusView::Unknown
    }
}

/// Whether a marker that normalization removes stands at the start of
/// `version`.
pub open spec fn begins_with_marker(version: Seq<char>) -> bool {
    version.len() > 0 && (version[0] == 'v' || version[0] == '>' || version[0] == '<'
        || version[0] == '=' || version[0] == '^' || version[0] == '~')
}

/// Removing the markers never makes a text longer. It leaves a text as it
/// is where no marker stands at its start, and makes it shorter where one
/// does.
pub proof fn lemma_strip_markers_effect(s: Seq<char>)
    ensures
        strip_markers(s).len() <= s.len(),
        !begins_with_marker(s) ==> strip_markers(s) == s,
        begins_with_marker(s) ==> strip_markers(s).len() < s.len(),
{
    reveal_strlit("v");
    reveal_strlit(">=");
    reveal_strlit("<=");
    reveal_strlit("=");
    reveal_strlit(">");
    reveal_strlit("<");
    reveal_strlit("^");
    reveal_strlit("~");
    let s1 = strip(s, "v"@);
    let s2 = strip(s1, ">="@);
    let s3 = strip(s2, "<="@);
    let s4 = strip(s3, "="@);
    let s5 = strip(s4, ">"@);
    let s6 = strip(s5, "<"@);
    let s7 = strip(s6, "^"@);
    lemma_strip_effect(s, "v"@);
    lemma_strip_effect(s1, ">="@);
    lemma_strip_effect(s2, "<="@);
    lemma_strip_effect(s3, "="@);
    lemma_strip_effect(s4, ">"@);
    lemma_strip_effect(s5, "<"@);
    lemma_strip_effect(s6, "^"@);
    lemma_strip_effect(s7, "~"@);
    assert("v"@[0] == 'v');
    assert(">="@[0] == '>');
    assert("<="@[0] == '<');
    assert("="@[0] == '=');
    assert(">"@[0] == '>');
    assert("<"@[0] == '<');
    assert("^"@[0] == '^');
    assert("~"@[0] == '~');
}

/// A normalized version holds no whitespace.
pub proof fn lemma_clean_version_no_blank(raw: Seq<char>)
    ensures
        no_blank(clean_version(raw)),
{
    lemma_first_token_no_blank(strip_markers(trim(raw)));
}

/// Normalizing once more changes nothing, unless a marker still stands at
/// the start of the normalized version, as it does in `=1.0`, the normalized
/// form of `~=1.0`: then normalizing once more removes it.
pub proof fn lemma_clean_version_idempotent(raw: Seq<char>)
    ensures
        clean_version(clean_version(raw)) == clean_version(raw) <==> !begins_with_marker(
            clean_version(raw),
        ),
{
    let once = clean_version(raw);
    lemma_clean_version_no_blank(raw);
    lemma_no_blank_fixed(once);
    lemma_strip_markers_effect(once);
    if begins_with_marker(once) {
        lemma_first_token_no_blank(strip_markers(once));
    }
}

/// The status of a version whose support ended on `date`.
fn ended(date: &str) -> (r: LanguageStatus)
    ensures
        r@ == end_of_life(date@),
{
    LanguageStatus::EndOfLife { date: date.to_owned() }
}

/// The status of a version whose support ends on `date`.
fn ending(date: &str) -> (r: LanguageStatus)
    ensures
        r@ == ending_soon(date@),
{
    LanguageStatus::EndingSoon { date: date.to_owned() }
}

/// The bounds of the normalized version inside `s`.
pub fn clean_bounds(s: &[char]) -> (r: (usize, usize))
    ensures
        r.0 <= r.1 <= s.len(),
        s@.subrange(r.0 as int, r.1 as int) == clean_version(s@),
{
    let (start, end) = trim_bounds(s);
    let t = slice_subrange(s, start, end);
    assert(t@.skip(0) == t@);
    let k = strip_from(t, 0, "v");
    let k = strip_from(t, k, ">=");
    let k = strip_from(t, k, "<=");
    let k = strip_from(t, k, "=");
    let k = strip_from(t, k, ">");
    let k = strip_from(t, k, "<");
    let k = strip_from(t, k, "^");
    let k = strip_from(t, k, "~");
    let u = slice_subrange(t, k, t.len());
    let (a, b) = token_bounds(u);
    (start + k + a, start + k + b)
}

/// Normalizes a raw version string: see [`clean_version`].
pub fn clean_version_string(raw_version: &str) -> (r: String)
    ensures
        r@ == clean_version(raw_version@),
{
    let chars = to_chars(raw_version);
    let (start, end) = clean_bounds(chars.as_slice());
    substring(raw_version, start, end)
}

/// The number before the first dot of a dotted version string: see
/// [`major_number`].
fn major_of(version: &[char]) -> (r: Option<u32>)
    ensures
        r == major_number(version@),
{
    let n = segment_end(version, '.');
    proof {
        lemma_split_on_parts(version@, '.');
    }
    parse_number(slice_subrange(version, 0, n))
}

/// The major version of a dotted version string: see [`major_version`].
pub fn extract_major_version(version_string: &str) -> (r: u32)
    ensures
        r == major_version(version_string@),
{
    let chars = to_chars(version_string);
    match major_of(chars.as_slice()) {
        Some(major) => major,
        None => 0,
    }
}

/// The status of a normalized Rust version: see [`rust_status`].
fn rust_status_of(version: &[char]) -> (r: LanguageStatus)
    ensures
        r@ == rust_status(version@),
{
    if starts_with(version, "1.75") || starts_with(version, "1.76") || starts_with(version, "1.77")
        || starts_with(version, "1.78") {
        LanguageStatus::Supported
    } else if starts_with(version, "1.70") || starts_with(version, "1.71") || starts_with(
        version,
        "1.72",
    ) || starts_with(version, "1.73") || starts_with(version, "1.74") {
        ending("2024-12-31")
    } else if starts_with(version, "1.6") || starts_with(version, "1.5") {
        ended("2023-01-01")
    } else {
        LanguageStatus::Unknown
    }
}

/// The status of a Node.js major version: see [`node_status`].
fn node_status_of(major: u32) -> (r: LanguageStatus)
    ensures
        r@ == node_status(major),
{
    if major == 20 || major == 18 {
        LanguageStatus::Supported
    } else if major == 16 {
        ending("2024-04-30")
    } else if major == 14 {
        ended("2023-04-30")
    } else if major == 12 {
        ended("2022-04-30")
    } else if major >= 21 {
        LanguageStatus::Supported
    } else {
        ended("2022-01-01")
    }
}

/// The status of a Go release: see [`go_release_status`].
fn go_release_status_of(version: &[char]) -> (r: LanguageStatus)
    ensures
        r@ == go_release_status(version@),
{
    if starts_with(version, "1.22") || starts_with(version, "1.21") {
        LanguageStatus::Supported
    } else if starts_with(version, "1.20") {
        ending("2024-08-01")
    } else if starts_with(version, "1.19") {
        ended("2024-02-01")
    } else if starts_with(version, "1.18") {
        ended("2023-08-01")
    } else {
        ended("2023-01-01")
    }
}

/// The status of a Python release: see [`python_release_status`].
fn python_release_status_of(major: u32, minor: u32) -> (r: LanguageStatus)
    ensures
        r@ == python_release_status(major, minor),
{
    if major == 3 && (minor == 12 || minor == 11 || minor == 10) {
        LanguageStatus::Supported
    } else if major == 3 && minor == 9 {
        ending("2025-10-01")
    } else if major == 3 && minor == 8 {
        ended("2024-10-01")
    } else if major == 3 && minor == 7 {
        ended("2023-06-27")
    } else if major == 2 && minor == 7 {
        ended("2020-01-01")
    } else if major >= 3 && minor >= 13 {
        LanguageStatus::Supported
    } else {
        ended("2023-01-01")
    }
}

/// The status of a normalized Python version: see [`python_status`].
fn python_status_of(version: &[char]) -> (r: LanguageStatus)
    ensures
        r@ == python_status(version@),
{
    let n = segment_end(version, '.');
    proof {
        lemma_split_on_parts(version@, '.');
    }
    if n < version.len() {
        let rest = slice_subrange(version, n + 1, version.len());
        let m = segment_end(rest, '.');
        match parse_number(slice_subrange(version, 0, n)) {
            Some(major) => match parse_number(slice_subrange(rest, 0, m)) {
                Some(minor) => python_release_status_of(major, minor),
                None => LanguageStatus::Unknown,
            },
            None => LanguageStatus::Unknown,
        }
    } else {
        LanguageStatus::Unknown
    }
}

/// The status of a Java major version: see [`java_status`].
fn java_status_of(major: u32) -> (r: LanguageStatus)
    ensures
        r@ == java_status(major),
{
    if major == 21 || major == 17 || major == 11 {
        LanguageStatus::Supported
    } else if major == 8 {
        ending("2025-12-31")
    } else if major >= 22 {
        LanguageStatus::Supported
    } else if 9 <= major && major <= 20 {
        ended("2023-01-01")
    } else {
        ended("2022-01-01")
    }
}

/// The status of a Rust version, given as a raw version string.
pub fn get_rust_status(version_string: &str) -> (r: LanguageStatus)
    ensures
        r@ == rust_status(clean_version(version_string@)),
{
    let chars = to_chars(version_string);
    let (start, end) = clean_bounds(chars.as_slice());
    rust_status_of(slice_subrange(chars.as_slice(), start, end))
}

/// The status of a Node.js version, given as a raw version string. A
/// version whose major version cannot be read has the status `Unknown`.
pub fn get_node_status(version_string: &str) -> (r: LanguageStatus)
    ensures
        r@ == node_version_status(clean_version(version_string@)),
{
    let chars = to_chars(version_string);
    let (start, end) = clean_bounds(chars.as_slice());
    match major_of(slice_subrange(chars.as_slice(), start, end)) {
        Some(major) => node_status_of(major),
        None => LanguageStatus::Unknown,
    }
}

/// The status of a Go version, given as a raw version string. A version
/// whose major version cannot be read has the status `Unknown`.
pub fn get_go_status(version_string: &str) -> (r: LanguageStatus)
    ensures
        r@ == go_status(clean_version(version_string@)),
{
    let chars = to_chars(version_string);
    let (start, end) = clean_bounds(chars.as_slice());
    let version = slice_subrange(chars.as_slice(), start, end);
    match major_of(version) {
        Some(_) => go_release_status_of(version),
        None => LanguageStatus::Unknown,
    }
}

/// The status of a Python version, given as a raw version string. A
/// version whose major or minor version cannot be read has the status
/// `Unknown`.
pub fn get_python_status(version_string: &str) -> (r: LanguageStatus)
    ensures
        r@ == python_status(clean_version(version_string@)),
{
    let chars = to_chars(version_string);
    let (start, end) = clean_bounds(chars.as_slice());
    python_status_of(slice_subrange(chars.as_slice(), start, end))
}

/// The status of a Java version, given as a raw version string. A version
/// whose major version cannot be read has the status `Unknown`.
pub fn get_java_status(version_string: &str) -> (r: LanguageStatus)
    ensures
        r@ == java_version_status(clean_version(version_string@)),
{
    let chars = to_chars(version_string);
    let (start, end) = clean_bounds(chars.as_slice());
    match major_of(slice_subrange(chars.as_slice(), start, end)) {
        Some(major) => java_status_of(major),
        None => LanguageStatus::Unknown,
    }
}

/// The lifecycle status of a version of a language. The version is a raw
/// version string; the language is compared by its exact name. A language
/// without a table has the status `Unknown`, and so has a version that
/// cannot be read.
pub fn get_language_status(language: &str, version: &str) -> (r: LanguageStatus)
    ensures
        r@ == language_status(language@, version@),
{
    let name = to_chars(language);
    let name = name.as_slice();
    if is_text(name, "Rust") {
        get_rust_status(version)
    } else if is_text(name, "JavaScript") {
        get_node_status(version)
    } else if is_text(name, "Go") {
        get_go_status(version)
    } else if is_text(name, "Python") {
        get_python_status(version)
    } else if is_text(name, "Java") {
        get_java_status(version)
    } else {
        LanguageStatus::Unknown
    }
}

} // verus!
