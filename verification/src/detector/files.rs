//! What detection works on: the files found in a project directory, and
//! its structured manifests once they are parsed.

use vstd::prelude::*;

use crate::document::{json_tree, read_json, read_toml, toml_tree, tree_in, Node, Tree};
use crate::project_info::{text_of, texts_of};
use crate::text::{is_text, to_chars};

verus! {

/// What was found at the top level of a project directory.
#[derive(Debug, Clone)]
pub struct ProjectFiles {
    /// The path of the project, as it was given.
    pub path: String,
    /// Whether the path exists.
    pub exists: bool,
    /// The final segment of the path, where it has one.
    pub base_name: Option<String>,
    /// The names of the manifest files that exist.
    pub present: Vec<String>,
    /// The extension of each directory entry that has one, in listing order.
    pub extensions: Vec<String>,
    /// The files that could be read, each with its name and its text.
    pub contents: Vec<(String, String)>,
}

/// The mathematical model of a [`ProjectFiles`].
pub struct ProjectFilesView {
    /// The path of the project, as it was given.
    pub path: Seq<char>,
    /// Whether the path exists.
    pub exists: bool,
    /// The final segment of the path, where it has one.
    pub base_name: Option<Seq<char>>,
    /// The names of the manifest files that exist.
    pub present: Seq<Seq<char>>,
    /// The extension of each directory entry that has one, in listing order.
    pub extensions: Seq<Seq<char>>,
    /// The files that could be read, each with its name and its text.
    pub contents: Seq<(Seq<char>, Seq<char>)>,
}

impl View for ProjectFiles {
    type V = ProjectFilesView;

    open spec fn view(&self) -> ProjectFilesView {
        ProjectFilesView {
            path: self.path@,
            exists: self.exists,
            base_name: text_of(self.base_name),
            present: texts_of(self.present@),
            extensions: texts_of(self.extensions@),
            contents: Seq::new(
                self.contents@.len(),
                |i: int| (self.contents@[i].0@, self.contents@[i].1@),
            ),
        }
    }
}

/// The text of the first entry named `name`.
pub open spec fn find_text(entries: Seq<(Seq<char>, Seq<char>)>, name: Seq<char>) -> Option<
    Seq<char>,
>
    decreases entries.len(),
{
    if entries.len() == 0 {
        None
    } else if entries[0].0 == name {
        Some(entries[0].1)
    } else {
        find_text(entries.drop_first(), name)
    }
}

impl ProjectFilesView {
    /// Whether the manifest file `name` exists.
    pub open spec fn has_file(self, name: Seq<char>) -> bool {
        self.present.contains(name)
    }

    /// The text of the file `name`, if it could be read. Of several files
    /// of the name the first counts.
    pub open spec fn content(self, name: Seq<char>) -> Option<Seq<char>> {
        find_text(self.contents, name)
    }
}

impl ProjectFiles {
    /// Whether the manifest file `name` exists.
    pub fn is_present(&self, name: &str) -> (r: bool)
        ensures
            r == self@.has_file(name@),
    {
        let mut i: usize = 0;
        while i < self.present.len()
            invariant
                i <= self.present.len(),
                forall|j: int| 0 <= j < i ==> self@.present[j] != name@,
            decreases self.present.len() - i,
        {
            let entry = to_chars(self.present[i].as_str());
            if is_text(entry.as_slice(), name) {
                assert(self@.present[i as int] == name@);
                return true;
            }
            i += 1;
        }
        false
    }

    /// The text of the file `name`, if it could be read.
    pub fn read(&self, name: &str) -> (r: Option<&String>)
        ensures
            match r {
                Some(text) => self@.content(name@) == Some(text@),
                None => self@.content(name@) is None,
            },
    {
        let ghost modelled = self@.contents;
        let mut i: usize = 0;
        assert(modelled.skip(0) == modelled);
        while i < self.contents.len()
            invariant
                i <= self.contents.len(),
                modelled == self@.contents,
                self@.content(name@) == find_text(modelled.skip(i as int), name@),
            decreases self.contents.len() - i,
        {
            let entry = to_chars(self.contents[i].0.as_str());
            if is_text(entry.as_slice(), name) {
                return Some(&self.contents[i].1);
            }
            assert(modelled.skip(i as int).drop_first() == modelled.skip(i + 1));
            i += 1;
        }
        None
    }
}

/// The names of the files whose text detection reads.
pub open spec fn consulted_files() -> Seq<Seq<char>> {
    seq![
        "Cargo.toml"@,
        "rust-toolchain.toml"@,
        "rust-toolchain"@,
        "package.json"@,
        ".nvmrc"@,
        "go.mod"@,
        ".python-version"@,
        "pyproject.toml"@,
        "requirements.txt"@,
    ]
}

/// The names of the files whose text detection reads: what
/// [`ProjectFiles::contents`] is to be filled from.
pub fn consulted_file_names() -> (names: Vec<String>)
    ensures
        texts_of(names@) == consulted_files(),
{
    let mut names: Vec<String> = Vec::new();
    names.push("Cargo.toml".to_owned());
    names.push("rust-toolchain.toml".to_owned());
    names.push("rust-toolchain".to_owned());
    names.push("package.json".to_owned());
    names.push(".nvmrc".to_owned());
    names.push("go.mod".to_owned());
    names.push(".python-version".to_owned());
    names.push("pyproject.toml".to_owned());
    names.push("requirements.txt".to_owned());
    names
}

/// The structured manifests of a project, parsed: `Cargo.toml`,
/// `rust-toolchain.toml`, `package.json` and `pyproject.toml`. A manifest
/// that could not be read or is malformed is absent.
#[derive(Debug)]
pub struct Manifests {
    /// `Cargo.toml`.
    pub cargo: Option<Node>,
    /// `rust-toolchain.toml`.
    pub toolchain: Option<Node>,
    /// `package.json`.
    pub package: Option<Node>,
    /// `pyproject.toml`.
    pub pyproject: Option<Node>,
}

/// The mathematical model of a [`Manifests`].
pub struct ManifestsView {
    /// `Cargo.toml`.
    pub cargo: Option<Tree>,
    /// `rust-toolchain.toml`.
    pub toolchain: Option<Tree>,
    /// `package.json`.
    pub package: Option<Tree>,
    /// `pyproject.toml`.
    pub pyproject: Option<Tree>,
}

impl View for Manifests {
    type V = ManifestsView;

    open spec fn view(&self) -> ManifestsView {
        ManifestsView {
            cargo: tree_in(self.cargo),
            toolchain: tree_in(self.toolchain),
            package: tree_in(self.package),
            pyproject: tree_in(self.pyproject),
        }
    }
}

/// The tree of the TOML file `name`, if the file could be read and parsed.
pub open spec fn toml_file(project: ProjectFilesView, name: Seq<char>) -> Option<Tree> {
    match project.content(name) {
        Some(text) => toml_tree(text),
        None => None,
    }
}

/// The tree of the JSON file `name`, if the file could be read and parsed.
pub open spec fn json_file(project: ProjectFilesView, name: Seq<char>) -> Option<Tree> {
    match project.content(name) {
        Some(text) => json_tree(text),
        None => None,
    }
}

/// The parsed manifests of a project.
pub open spec fn manifests_of(project: ProjectFilesView) -> ManifestsView {
    ManifestsView {
        cargo: toml_file(project, "Cargo.toml"@),
        toolchain: toml_file(project, "rust-toolchain.toml"@),
        package: json_file(project, "package.json"@),
        pyproject: toml_file(project, "pyproject.toml"@),
    }
}

/// Parses the structured manifests of a project.
pub fn read_manifests(project: &ProjectFiles) -> (manifests: Manifests)
    ensures
        manifests@ == manifests_of(project@),
{
    let cargo = match project.read("Cargo.toml") {
        Some(text) => read_toml(text.as_str()),
        None => None,
    };
    let toolchain = match project.read("rust-toolchain.toml") {
        Some(text) => read_toml(text.as_str()),
        None => None,
    };
    let package = match project.read("package.json") {
        Some(text) => read_json(text.as_str()),
        None => None,
    };
    let pyproject = match project.read("pyproject.toml") {
        Some(text) => read_toml(text.as_str()),
        None => None,
    };
    Manifests { cargo, toolchain, package, pyproject }
}

} // verus!
