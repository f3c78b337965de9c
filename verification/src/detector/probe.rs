//! What the probes share: finding a text in a parsed manifest, trimming
//! the text of a file, and reading a directive from the lines of a file.

use vstd::prelude::*;
use vstd::slice::slice_subrange;
use vstd::string::StrSliceExecFns;

use crate::detector::files::{ProjectFiles, ProjectFilesView};
use crate::document::{member_of, text_in, tree_in, Node, Tree};
use crate::project_info::text_of;
use crate::text::{
    bounds_of, lemma_split_on_parts, lines, split_bounds, split_on, starts_with,
    substring, to_chars, trim, trim_bounds,
};

verus! {

/// The first of two findings that is present.
pub open spec fn or_else<T>(first: Option<T>, second: Option<T>) -> Option<T> {
    match first {
        Some(x) => Some(x),
        None => second,
    }
}

/// The text under `key` in the table under `section` of a document.
pub open spec fn text_at(doc: Option<Tree>, section: Seq<char>, key: Seq<char>) -> Option<Seq<char>> {
    text_in(member_of(member_of(doc, section), key))
}

/// The text of the file `name` without the whitespace at its ends.
pub open spec fn trimmed_content(project: ProjectFilesView, name: Seq<char>) -> Option<Seq<char>> {
    match project.content(name) {
        Some(text) => Some(trim(text)),
        None => None,
    }
}

/// What follows `keyword` on the first line that begins with it, without
/// the whitespace at its ends.
pub open spec fn directive(lines: Seq<Seq<char>>, keyword: Seq<char>) -> Option<Seq<char>>
    decreases lines.len(),
{
    if lines.len() == 0 {
        None
    } else if keyword.is_prefix_of(lines[0]) {
        Some(trim(lines[0].skip(keyword.len() as int)))
    } else {
        directive(lines.drop_first(), keyword)
    }
}

/// The text under `key` in a table, where there is one.
pub fn text_under(table: &Node, key: &str) -> (r: Option<String>)
    ensures
        text_of(r) == text_in(table@.member(key@)),
{
    match table.get(key) {
        Some(value) => match value.as_text() {
            Some(text) => Some(text.clone()),
            None => None,
        },
        None => None,
    }
}

/// The text under `key` in the table under `section` of a document, where
/// there is one: see [`text_at`].
pub fn text_in_section(doc: &Option<Node>, section: &str, key: &str) -> (r: Option<String>)
    ensures
        text_of(r) == text_at(tree_in(*doc), section@, key@),
{
    match doc {
        Some(root) => match root.get(section) {
            Some(table) => text_under(table, key),
            None => None,
        },
        None => None,
    }
}

/// The text of the file `name` without the whitespace at its ends, if the
/// file could be read.
pub fn trimmed_file(project: &ProjectFiles, name: &str) -> (r: Option<String>)
    ensures
        text_of(r) == trimmed_content(project@, name@),
{
    match project.read(name) {
        Some(text) => {
            let chars = to_chars(text.as_str());
            let (start, end) = trim_bounds(chars.as_slice());
            Some(substring(text.as_str(), start, end))
        },
        None => None,
    }
}

/// Finds the first line of `text` that begins with `keyword` and returns
/// what follows the keyword on it, trimmed.
pub fn find_directive(text: &str, keyword: &str) -> (r: Option<String>)
    ensures
        text_of(r) == directive(lines(text@), keyword@),
{
    let chars = to_chars(text);
    let s = chars.as_slice();
    let bounds = split_bounds(s, '\n');
    let k = keyword.unicode_len();
    let ghost all = lines(text@);
    let mut i: usize = 0;
    assert(all.skip(0) == all);
    while i < bounds.len()
        invariant
            i <= bounds.len(),
            s@ == text@,
            all == lines(text@),
            bounds_of(s@, bounds@, all),
            k == keyword@.len(),
            directive(all, keyword@) == directive(all.skip(i as int), keyword@),
        decreases bounds.len() - i,
    {
        let (start, end) = bounds[i];
        let line = slice_subrange(s, start, end);
        if starts_with(line, keyword) {
            let rest = slice_subrange(line, k, line.len());
            let (a, b) = trim_bounds(rest);
            return Some(substring(text, start + k + a, start + k + b));
        }
        assert(all.skip(i as int).drop_first() == all.skip(i + 1));
        i += 1;
    }
    None
}

/// The last of the parts of `path` between slashes.
pub fn last_segment(path: &str) -> (r: String)
    ensures
        r@ == split_on(path@, '/').last(),
{
    let chars = to_chars(path);
    let bounds = split_bounds(chars.as_slice(), '/');
    proof {
        lemma_split_on_parts(path@, '/');
    }
    let (start, end) = bounds[bounds.len() - 1];
    substring(path, start, end)
}

} // verus!
