//! The text of the report, and the libraries of an executable as the report
//! shows them.

use cargo_metadata::camino::Utf8Path;
use vstd::prelude::*;
use vstd::string::StringExecFns;

use crate::linked_libs::LinkedLibs;
use crate::name_set::NameSet;
use crate::names::{same_text, sorted_listing};

verus! {

/// The libraries of an executable as the report shows them: the libraries
/// that the executable records, each once and in ascending order, without
/// the name `self`, by which a file stands for itself.
pub open spec fn shown(recorded: Seq<Seq<char>>) -> Seq<Seq<char>> {
    sorted_listing(recorded.to_set().remove("self"@))
}

/// One line for each library: ` - ` and the library's name.
pub open spec fn bullets(libraries: Seq<Seq<char>>) -> Seq<char>
    decreases libraries.len(),
{
    if libraries.len() == 0 {
        Seq::empty()
    } else {
        bullets(libraries.drop_last()) + " - "@ + libraries.last() + "\n"@
    }
}

/// The part of the report on one executable: a line that names the
/// executable's file, and a line for each of the libraries.
pub open spec fn section(file_name: Seq<char>, libraries: Seq<Seq<char>>) -> Seq<char> {
    "Libraries linked to executable `"@ + file_name + "`:\n"@ + bullets(libraries)
}

/// The first part of the report: a heading, the libraries that the build
/// scripts declared, and an empty line.
pub open spec fn declared_part(rendered: Seq<char>) -> Seq<char> {
    "Libraries linked by rustc:\n"@ + rendered + "\n"@
}

/// Prepares the libraries that an executable records for the report.
pub fn shown_dependencies(recorded: &Vec<String>) -> (libraries: Vec<String>)
    ensures
        libraries.deep_view() == shown(recorded.deep_view()),
{
    let mut kept = NameSet::new();
    let mut at: usize = 0;
    let ghost names = recorded.deep_view();
    assert(names.take(0).to_set().remove("self"@) =~= Set::<Seq<char>>::empty());
    while at < recorded.len()
        invariant
            at <= recorded.len(),
            names == recorded.deep_view(),
            kept@ == names.take(at as int).to_set().remove("self"@),
        decreases recorded.len() - at,
    {
        let name = recorded[at].clone();
        assert(name@ == names[at as int]);
        proof {
            let before = names.take(at as int);
            let after = names.take(at + 1);
            assert(after =~= before.push(names[at as int]));
            before.lemma_push_to_set_commute(names[at as int]);
            assert(after.to_set().remove("self"@) =~= if names[at as int] == "self"@ {
                before.to_set().remove("self"@)
            } else {
                before.to_set().remove("self"@).insert(names[at as int])
            });
        }
        if !same_text(name.as_str(), "self") {
            kept.insert(name);
        }
        at += 1;
    }
    assert(names.take(at as int) =~= names);
    kept.names()
}

/// Writes the part of the report on one executable.
pub fn section_text(file_name: &str, libraries: &Vec<String>) -> (text: String)
    ensures
        text@ == section(file_name@, libraries.deep_view()),
{
    let mut text = String::from_str("Libraries linked to executable `");
    text.append(file_name);
    text.append("`:\n");
    let ghost head = text@;
    let ghost names = libraries.deep_view();
    let mut at: usize = 0;
    assert(names.take(0) =~= Seq::<Seq<char>>::empty());
    assert(text@ =~= head + bullets(names.take(0)));
    while at < libraries.len()
        invariant
            at <= libraries.len(),
            names == libraries.deep_view(),
            text@ == head + bullets(names.take(at as int)),
        decreases libraries.len() - at,
    {
        let ghost so_far = text@;
        text.append(" - ");
        text.append(libraries[at].as_str());
        text.append("\n");
        proof {
            assert(names.take(at + 1).drop_last() =~= names.take(at as int));
            assert(names.take(at + 1).last() == names[at as int]);
            assert(text@ =~= head + bullets(names.take(at + 1)));
        }
        at += 1;
    }
    assert(names.take(at as int) =~= names);
    text
}

/// Writes the first part of the report.
pub fn declared_text(libs: &LinkedLibs) -> (text: String)
    ensures
        text@ == declared_part(libs@.rendered()),
{
    let mut text = String::from_str("Libraries linked by rustc:\n");
    let rendered = libs.render();
    text.append(rendered.as_str());
    text.append("\n");
    text
}

/// Calls `file_name` of `camino::Utf8Path`: the last component of a path,
/// if the path has one. What counts as a component depends on the system
/// that the program is built for, so nothing is said of the outcome.
#[verifier::external_body]
fn file_name(path: &str) -> (name: Option<String>) {
    Utf8Path::new(path).file_name().map(String::from)
}

/// Writes the part of the report on the executable at `path`: the section
/// under the name of the file that the path ends in, if it ends in one.
pub fn executable_section(path: &str, recorded: &Vec<String>) -> (text: Option<String>)
    ensures
        exists|file_name: Option<Seq<char>>|
            text.deep_view() == #[trigger] named_section(file_name, recorded.deep_view()),
{
    let name = file_name(path);
    let text = section_under(name, recorded);
    assert(text.deep_view() == named_section(name.deep_view(), recorded.deep_view()));
    text
}

/// The part of the report on an executable, given the name of its file:
/// the section under that name, with the libraries as the report shows
/// them. A path that names no file gives no section.
pub open spec fn named_section(file_name: Option<Seq<char>>, recorded: Seq<Seq<char>>) -> Option<
    Seq<char>,
> {
    match file_name {
        Some(name) => Some(section(name, shown(recorded))),
        None => None,
    }
}

/// Writes the part of the report on an executable whose file has the name
/// `file_name`, if it has one, and which records the libraries `recorded`.
pub fn section_under(file_name: Option<String>, recorded: &Vec<String>) -> (text: Option<String>)
    ensures
        text.deep_view() == named_section(file_name.deep_view(), recorded.deep_view()),
{
    match file_name {
        Some(name) => {
            let libraries = shown_dependencies(recorded);
            Some(section_text(name.as_str(), &libraries))
        },
        None => None,
    }
}

} // verus!
