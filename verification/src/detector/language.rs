//! Language detection: the manifest file that stands first in the table of
//! precedence decides; without a manifest file the file extensions vote.

use vstd::prelude::*;

use crate::detector::files::{ProjectFiles, ProjectFilesView};
use crate::project_info::{text_of, texts_of};
use crate::text::{is_text, to_chars};

verus! {

/// The manifest files that identify a language, in order of precedence, each
/// with the language it stands for.
pub open spec fn manifest_files() -> Seq<(Seq<char>, Seq<char>)> {
    seq![
        ("Cargo.toml"@, "Rust"@),
        ("package.json"@, "JavaScript"@),
        ("go.mod"@, "Go"@),
        ("pyproject.toml"@, "Python"@),
        ("requirements.txt"@, "Python"@),
        ("pom.xml"@, "Java"@),
        ("build.gradle"@, "Java"@),
        ("composer.json"@, "PHP"@),
        ("Gemfile"@, "Ruby"@),
        ("Package.swift"@, "Swift"@),
        ("pubspec.yaml"@, "Dart"@),
        ("mix.exs"@, "Elixir"@),
        ("stack.yaml"@, "Haskell"@),
        ("project.clj"@, "Clojure"@),
        ("CMakeLists.txt"@, "C++"@),
        ("Makefile"@, "C++"@),
    ]
}

/// The names of the manifest files, in order of precedence.
pub open spec fn manifest_names() -> Seq<Seq<char>> {
    Seq::new(manifest_files().len(), |i: int| manifest_files()[i].0)
}

/// The language of the first manifest file that the project has, looking
/// from position `from` of the table on.
pub open spec fn manifest_language_from(project: ProjectFilesView, from: nat) -> Option<Seq<char>>
    decreases manifest_files().len() - from,
{
    if from >= manifest_files().len() {
        None
    } else if project.has_file(manifest_files()[from as int].0) {
        Some(manifest_files()[from as int].1)
    } else {
        manifest_language_from(project, from + 1)
    }
}

/// The language that the manifest files of the project identify: that of the
/// first file of the table that exists.
pub open spec fn manifest_language(project: ProjectFilesView) -> Option<Seq<char>> {
    manifest_language_from(project, 0)
}

/// The languages that file extensions can vote for, in the order in which
/// ties are decided.
pub open spec fn voted_languages() -> Seq<Seq<char>> {
    seq![
        "Rust"@,
        "JavaScript"@,
        "Go"@,
        "Python"@,
        "Java"@,
        "PHP"@,
        "Ruby"@,
        "Swift"@,
        "Dart"@,
        "Elixir"@,
        "Haskell"@,
        "Clojure"@,
        "C++"@,
        "C#"@,
    ]
}

/// The position in [`voted_languages`] of the language that a file
/// extension votes for, if it votes for any.
pub open spec fn extension_vote(extension: Seq<char>) -> Option<int> {
    if extension == "rs"@ {
        Some(0)
    } else if extension == "js"@ || extension == "ts"@ || extension == "jsx"@ || extension
        == "tsx"@ {
        Some(1)
    } else if extension == "go"@ {
        Some(2)
    } else if extension == "py"@ {
        Some(3)
    } else if extension == "java"@ {
        Some(4)
    } else if extension == "php"@ {
        Some(5)
    } else if extension == "rb"@ {
        Some(6)
    } else if extension == "swift"@ {
        Some(7)
    } else if extension == "dart"@ {
        Some(8)
    } else if extension == "ex"@ || extension == "exs"@ {
        Some(9)
    } else if extension == "hs"@ {
        Some(10)
    } else if extension == "clj"@ || extension == "cljs"@ {
        Some(11)
    } else if extension == "c"@ || extension == "cpp"@ || extension == "cc"@ || extension
        == "cxx"@ {
        Some(12)
    } else if extension == "cs"@ {
        Some(13)
    } else {
        None
    }
}

/// The number of votes among `extensions` for the language at `position`.
pub open spec fn tally(extensions: Seq<Seq<char>>, position: int) -> nat
    decreases extensions.len(),
{
    if extensions.len() == 0 {
        0
    } else {
        let earlier = tally(extensions.drop_last(), position);
        if extension_vote(extensions.last()) == Some(position) {
            earlier + 1
        } else {
            earlier
        }
    }
}

/// The position that leads among the first `count` languages: the one with
/// the most votes, and of several with the most votes the first.
pub open spec fn leader(extensions: Seq<Seq<char>>, count: nat) -> int
    decreases count,
{
    if count <= 1 {
        0
    } else {
        let best = leader(extensions, (count - 1) as nat);
        if tally(extensions, count - 1) > tally(extensions, best) {
            count - 1
        } else {
            best
        }
    }
}

/// Whether the language at `position` has a vote, has as many votes as any
/// language, and has more votes than every language that stands before it.
pub open spec fn leads(extensions: Seq<Seq<char>>, position: int) -> bool {
    &&& tally(extensions, position) > 0
    &&& forall|j: int|
        0 <= j < voted_languages().len() ==> #[trigger] tally(extensions, j) <= tally(
            extensions,
            position,
        )
    &&& forall|j: int|
        0 <= j < position ==> #[trigger] tally(extensions, j) < tally(extensions, position)
}

/// The language that the file extensions elect: the one with the most votes,
/// if there is any vote at all. Of several languages with the most votes the
/// one that stands first in [`voted_languages`] is elected.
pub open spec fn elected_language(extensions: Seq<Seq<char>>) -> Option<Seq<char>> {
    let best = leader(extensions, voted_languages().len());
    if tally(extensions, best) > 0 {
        Some(voted_languages()[best])
    } else {
        None
    }
}

/// The language of a project: the one its manifest files identify, else the
/// one its file extensions elect.
pub open spec fn detected_language(project: ProjectFilesView) -> Option<Seq<char>> {
    match manifest_language(project) {
        Some(language) => Some(language),
        None => elected_language(project.extensions),
    }
}

/// The text of the error for a project whose language cannot be detected.
pub open spec fn language_undetected() -> Seq<char> {
    "Could not detect project language"@
}

/// The entry of [`manifest_files`] at `position`.
fn manifest_entry(position: usize) -> (r: (&'static str, &'static str))
    requires
        position < 16,
    ensures
        (r.0@, r.1@) == manifest_files()[position as int],
{
    if position == 0 {
        ("Cargo.toml", "Rust")
    } else if position == 1 {
        ("package.json", "JavaScript")
    } else if position == 2 {
        ("go.mod", "Go")
    } else if position == 3 {
        ("pyproject.toml", "Python")
    } else if position == 4 {
        ("requirements.txt", "Python")
    } else if position == 5 {
        ("pom.xml", "Java")
    } else if position == 6 {
        ("build.gradle", "Java")
    } else if position == 7 {
        ("composer.json", "PHP")
    } else if position == 8 {
        ("Gemfile", "Ruby")
    } else if position == 9 {
        ("Package.swift", "Swift")
    } else if position == 10 {
        ("pubspec.yaml", "Dart")
    } else if position == 11 {
        ("mix.exs", "Elixir")
    } else if position == 12 {
        ("stack.yaml", "Haskell")
    } else if position == 13 {
        ("project.clj", "Clojure")
    } else if position == 14 {
        ("CMakeLists.txt", "C++")
    } else {
        ("Makefile", "C++")
    }
}

/// The names of the manifest files whose existence decides the language,
/// in order of precedence: what [`ProjectFiles::present`] is to be filled
/// from.
pub fn manifest_file_names() -> (names: Vec<String>)
    ensures
        texts_of(names@) == manifest_names(),
{
    let mut names: Vec<String> = Vec::new();
    let mut i: usize = 0;
    while i < 16
        invariant
            i <= 16,
            names@.len() == i,
            forall|j: int| 0 <= j < i ==> names@[j]@ == manifest_files()[j].0,
        decreases 16 - i,
    {
        let (file, _) = manifest_entry(i);
        names.push(file.to_owned());
        i += 1;
    }
    names
}

/// The language that the manifest files of a project identify.
pub fn language_by_manifest(project: &ProjectFiles) -> (r: Option<String>)
    ensures
        text_of(r) == manifest_language(project@),
{
    let mut i: usize = 0;
    while i < 16
        invariant
            i <= 16,
            manifest_language(project@) == manifest_language_from(project@, i as nat),
        decreases 16 - i,
    {
        let (file, language) = manifest_entry(i);
        if project.is_present(file) {
            return Some(language.to_owned());
        }
        i += 1;
    }
    None
}

/// The entry of [`voted_languages`] at `position`.
fn voted_language(position: usize) -> (r: &'static str)
    requires
        position < 14,
    ensures
        r@ == voted_languages()[position as int],
{
    if position == 0 {
        "Rust"
    } else if position == 1 {
        "JavaScript"
    } else if position == 2 {
        "Go"
    } else if position == 3 {
        "Python"
    } else if position == 4 {
        "Java"
    } else if position == 5 {
        "PHP"
    } else if position == 6 {
        "Ruby"
    } else if position == 7 {
        "Swift"
    } else if position == 8 {
        "Dart"
    } else if position == 9 {
        "Elixir"
    } else if position == 10 {
        "Haskell"
    } else if position == 11 {
        "Clojure"
    } else if position == 12 {
        "C++"
    } else {
        "C#"
    }
}

/// The position of the language that a file extension votes for: see
/// [`extension_vote`].
fn vote_of(extension: &str) -> (r: Option<usize>)
    ensures
        match r {
            Some(position) => position < 14 && extension_vote(extension@) == Some(position as int),
            None => extension_vote(extension@) is None,
        },
{
    let e = to_chars(extension);
    let e = e.as_slice();
    if is_text(e, "rs") {
        Some(0)
    } else if is_text(e, "js") || is_text(e, "ts") || is_text(e, "jsx") || is_text(e, "tsx") {
        Some(1)
    } else if is_text(e, "go") {
        Some(2)
    } else if is_text(e, "py") {
        Some(3)
    } else if is_text(e, "java") {
        Some(4)
    } else if is_text(e, "php") {
        Some(5)
    } else if is_text(e, "rb") {
        Some(6)
    } else if is_text(e, "swift") {
        Some(7)
    } else if is_text(e, "dart") {
        Some(8)
    } else if is_text(e, "ex") || is_text(e, "exs") {
        Some(9)
    } else if is_text(e, "hs") {
        Some(10)
    } else if is_text(e, "clj") || is_text(e, "cljs") {
        Some(11)
    } else if is_text(e, "c") || is_text(e, "cpp") || is_text(e, "cc") || is_text(e, "cxx") {
        Some(12)
    } else if is_text(e, "cs") {
        Some(13)
    } else {
        None
    }
}

/// The language that the file extensions of a project elect.
pub fn language_by_extensions(extensions: &Vec<String>) -> (r: Option<String>)
    ensures
        text_of(r) == elected_language(texts_of(extensions@)),
{
    let ghost all = texts_of(extensions@);
    let mut counts: Vec<usize> = Vec::new();
    let mut k: usize = 0;
    while k < 14
        invariant
            k <= 14,
            counts@.len() == k,
            forall|j: int| 0 <= j < k ==> counts@[j] == 0,
        decreases 14 - k,
    {
        counts.push(0);
        k += 1;
    }
    let mut i: usize = 0;
    while i < extensions.len()
        invariant
            i <= extensions.len(),
            all == texts_of(extensions@),
            counts@.len() == 14,
            forall|j: int| 0 <= j < 14 ==> counts@[j] == tally(all.take(i as int), j),
        decreases extensions.len() - i,
    {
        assert(all.take(i + 1).drop_last() == all.take(i as int));
        match vote_of(extensions[i].as_str()) {
            Some(position) => {
                proof {
                    lemma_tally_bound(all.take(i as int), position as int);
                }
                let votes: usize = counts[position];
                counts.set(position, votes + 1);
            },
            None => {},
        }
        i += 1;
    }
    assert(all.take(extensions.len() as int) == all);
    let mut best: usize = 0;
    let mut n: usize = 1;
    while n < 14
        invariant
            1 <= n <= 14,
            best < n,
            counts@.len() == 14,
            best == leader(all, n as nat),
            forall|j: int| 0 <= j < 14 ==> counts@[j] == tally(all, j),
        decreases 14 - n,
    {
        if counts[n] > counts[best] {
            best = n;
        }
        n += 1;
    }
    if counts[best] > 0 {
        Some(voted_language(best).to_owned())
    } else {
        None
    }
}

/// The language of a project: the one its manifest files identify, else
/// the one its file extensions elect. A project without either has no
/// detectable language, which is an error.
pub fn detect_language(project: &ProjectFiles) -> (r: Result<String, String>)
    ensures
        match r {
            Ok(language) => detected_language(project@) == Some(language@),
            Err(message) => detected_language(project@) is None && message@
                == language_undetected(),
        },
{
    match language_by_manifest(project) {
        Some(language) => Ok(language),
        None => match language_by_extensions(&project.extensions) {
            Some(language) => Ok(language),
            None => Err("Could not detect project language".to_owned()),
        },
    }
}

/// Looking from any position up to that of the first manifest file that
/// exists, the language found is the one of that file.
proof fn lemma_manifest_language_from(project: ProjectFilesView, from: nat, position: int)
    requires
        from <= position < manifest_files().len(),
        project.has_file(manifest_files()[position].0),
        forall|j: int| from <= j < position ==> !project.has_file(#[trigger] manifest_files()[j].0),
    ensures
        manifest_language_from(project, from) == Some(manifest_files()[position].1),
    decreases position - from,
{
    if from < position {
        lemma_manifest_language_from(project, from + 1, position);
    }
}

/// The first manifest file of the table that exists decides the language,
/// whatever else the directory holds.
pub proof fn lemma_first_manifest_wins(project: ProjectFilesView, position: int)
    requires
        0 <= position < manifest_files().len(),
        project.has_file(manifest_files()[position].0),
        forall|j: int| 0 <= j < position ==> !project.has_file(#[trigger] manifest_files()[j].0),
    ensures
        detected_language(project) == Some(manifest_files()[position].1),
{
    lemma_manifest_language_from(project, 0, position);
}

/// No two entries of the manifest table name the same file.
pub proof fn lemma_manifest_files_distinct()
    ensures
        forall|i: int, j: int|
            0 <= i < j < manifest_files().len() ==> #[trigger] manifest_files()[i].0
                != #[trigger] manifest_files()[j].0,
{
    reveal_strlit("Cargo.toml");
    reveal_strlit("package.json");
    reveal_strlit("go.mod");
    reveal_strlit("pyproject.toml");
    reveal_strlit("requirements.txt");
    reveal_strlit("pom.xml");
    reveal_strlit("build.gradle");
    reveal_strlit("composer.json");
    reveal_strlit("Gemfile");
    reveal_strlit("Package.swift");
    reveal_strlit("pubspec.yaml");
    reveal_strlit("mix.exs");
    reveal_strlit("stack.yaml");
    reveal_strlit("project.clj");
    reveal_strlit("CMakeLists.txt");
    reveal_strlit("Makefile");
    let files = manifest_files();
    assert forall|i: int, j: int| 0 <= i < j < files.len() implies #[trigger] files[i].0
        != #[trigger] files[j].0 by {
        let a = files[i].0;
        let b = files[j].0;
        if a.len() == b.len() {
            assert(a[0] != b[0] || a[1] != b[1]);
        }
    }
}

/// A directory that holds one manifest file of the table and no other is of
/// the language of that file.
pub proof fn lemma_only_manifest(project: ProjectFilesView, position: int)
    requires
        0 <= position < manifest_files().len(),
        forall|name: Seq<char>|
            project.has_file(name) <==> name == manifest_files()[position].0,
    ensures
        detected_language(project) == Some(manifest_files()[position].1),
{
    lemma_manifest_files_distinct();
    lemma_first_manifest_wins(project, position);
}

/// Of two manifest files in one directory the one that stands first in the
/// table decides the language.
pub proof fn lemma_manifest_precedence(project: ProjectFilesView, first: int, second: int)
    requires
        0 <= first < second < manifest_files().len(),
        forall|name: Seq<char>|
            project.has_file(name) <==> (name == manifest_files()[first].0 || name
                == manifest_files()[second].0),
    ensures
        detected_language(project) == Some(manifest_files()[first].1),
{
    lemma_manifest_files_distinct();
    lemma_first_manifest_wins(project, first);
}

/// Where no manifest file from `from` on exists, none is found.
proof fn lemma_no_manifest(project: ProjectFilesView, from: nat)
    requires
        forall|i: int|
            from <= i < manifest_files().len() ==> !project.has_file(
                #[trigger] manifest_files()[i].0,
            ),
    ensures
        manifest_language_from(project, from) is None,
    decreases manifest_files().len() - from,
{
    if from < manifest_files().len() {
        lemma_no_manifest(project, from + 1);
    }
}

/// No language has more votes than there are extensions.
pub proof fn lemma_tally_bound(extensions: Seq<Seq<char>>, position: int)
    ensures
        tally(extensions, position) <= extensions.len(),
    decreases extensions.len(),
{
    if extensions.len() > 0 {
        lemma_tally_bound(extensions.drop_last(), position);
    }
}

/// The leader among the first `count` languages is one of them, has at least
/// as many votes as each of them, and more than each that stands before it.
pub proof fn lemma_leader(extensions: Seq<Seq<char>>, count: nat)
    requires
        count >= 1,
    ensures
        0 <= leader(extensions, count) < count,
        forall|j: int|
            0 <= j < count ==> #[trigger] tally(extensions, j) <= tally(
                extensions,
                leader(extensions, count),
            ),
        forall|j: int|
            0 <= j < leader(extensions, count) ==> #[trigger] tally(extensions, j) < tally(
                extensions,
                leader(extensions, count),
            ),
    decreases count,
{
    if count > 1 {
        lemma_leader(extensions, (count - 1) as nat);
    }
}

/// The election is decided as stated: no language is elected exactly when
/// there is no vote; the elected language has a vote, has as many votes as
/// any language, and has more votes than every language that stands before
/// it in [`voted_languages`].
pub proof fn lemma_election(extensions: Seq<Seq<char>>)
    ensures
        elected_language(extensions) is None <==> forall|j: int|
            0 <= j < voted_languages().len() ==> #[trigger] tally(extensions, j) == 0,
        elected_language(extensions) is Some ==> exists|position: int|
            0 <= position < voted_languages().len() && elected_language(extensions) == Some(
                voted_languages()[position],
            ) && #[trigger] leads(extensions, position),
{
    let count = voted_languages().len();
    lemma_leader(extensions, count);
    let best = leader(extensions, count);
    if elected_language(extensions) is Some {
        assert(leads(extensions, best));
    }
}

/// A language with more votes than every other language is elected.
pub proof fn lemma_most_votes_wins(extensions: Seq<Seq<char>>, position: int)
    requires
        0 <= position < voted_languages().len(),
        forall|j: int|
            0 <= j < voted_languages().len() && j != position ==> #[trigger] tally(extensions, j)
                < tally(extensions, position),
    ensures
        elected_language(extensions) == Some(voted_languages()[position]),
{
    lemma_leader(extensions, voted_languages().len());
    let other = if position == 0 {
        1int
    } else {
        0int
    };
    assert(tally(extensions, other) < tally(extensions, position));
}

/// Where no manifest file exists, a language whose extensions are more
/// frequent than those of every other language is the language of the
/// project.
pub proof fn lemma_extension_majority(project: ProjectFilesView, position: int)
    requires
        forall|i: int|
            0 <= i < manifest_files().len() ==> !project.has_file(#[trigger] manifest_files()[i].0),
        0 <= position < voted_languages().len(),
        forall|j: int|
            0 <= j < voted_languages().len() && j != position ==> #[trigger] tally(
                project.extensions,
                j,
            ) < tally(project.extensions, position),
    ensures
        detected_language(project) == Some(voted_languages()[position]),
{
    lemma_no_manifest(project, 0);
    lemma_most_votes_wins(project.extensions, position);
}

/// Every language of the manifest table is one of the voted languages.
proof fn lemma_manifest_language_named(project: ProjectFilesView, from: nat)
    ensures
        manifest_language_from(project, from) matches Some(language) ==> voted_languages().contains(
            language,
        ),
    decreases manifest_files().len() - from,
{
    if from < manifest_files().len() && !project.has_file(manifest_files()[from as int].0) {
        lemma_manifest_language_named(project, from + 1);
    }
}

/// A detected language is one of the voted languages, and so its name is
/// not empty.
pub proof fn lemma_detected_language_named(project: ProjectFilesView)
    ensures
        detected_language(project) matches Some(language) ==> voted_languages().contains(language)
            && language.len() > 0,
{
    reveal_strlit("Rust");
    reveal_strlit("JavaScript");
    reveal_strlit("Go");
    reveal_strlit("Python");
    reveal_strlit("Java");
    reveal_strlit("PHP");
    reveal_strlit("Ruby");
    reveal_strlit("Swift");
    reveal_strlit("Dart");
    reveal_strlit("Elixir");
    reveal_strlit("Haskell");
    reveal_strlit("Clojure");
    reveal_strlit("C++");
    reveal_strlit("C#");
    lemma_manifest_language_named(project, 0);
    lemma_leader(project.extensions, voted_languages().len());
}

} // verus!
