//! The libraries that the build scripts of one build declared.

use vstd::prelude::*;
use vstd::string::StringExecFns;

use crate::kind::LibraryType;
use crate::name_set::{braced, set_to_string, NameSet};
use crate::names::sorted_listing;

verus! {

/// What a [`LinkedLibs`] holds: for each kind under which a library was
/// declared the names declared under it, and the names declared without a
/// kind.
#[verifier::ext_equal]
pub struct LinkedLibsView {
    pub known: Map<LibraryType, Set<Seq<char>>>,
    pub unknown: Set<Seq<char>>,
}

/// One line of a report: a label, the names that belong to it, and the end
/// of the line.
pub open spec fn line(label: Seq<char>, names: Seq<Seq<char>>) -> Seq<char> {
    label + ": "@ + braced(names) + "\n"@
}

impl LinkedLibsView {
    /// The collection in which nothing was declared.
    pub open spec fn empty() -> LinkedLibsView {
        LinkedLibsView { known: Map::empty(), unknown: Set::empty() }
    }

    /// The names declared under a kind, or without one.
    pub open spec fn bucket(self, kind: Option<LibraryType>) -> Set<Seq<char>> {
        match kind {
            Some(k) => if self.known.dom().contains(k) {
                self.known[k]
            } else {
                Set::empty()
            },
            None => self.unknown,
        }
    }

    /// Whether a name was declared under a kind, or without one.
    pub open spec fn holds(self, kind: Option<LibraryType>, name: Seq<char>) -> bool {
        self.bucket(kind).contains(name)
    }

    /// The collection after one more declaration.
    pub open spec fn with(self, kind: Option<LibraryType>, name: Seq<char>) -> LinkedLibsView {
        match kind {
            Some(k) => LinkedLibsView {
                known: self.known.insert(k, self.bucket(kind).insert(name)),
                unknown: self.unknown,
            },
            None => LinkedLibsView { known: self.known, unknown: self.unknown.insert(name) },
        }
    }

    /// Whether nothing was declared at all.
    pub open spec fn is_empty(self) -> bool {
        self.known.dom() =~= Set::empty() && self.unknown =~= Set::empty()
    }

    /// What every collection keeps: finitely many names, and under each kind
    /// that it knows at least one.
    pub open spec fn valid(self) -> bool {
        &&& self.unknown.finite()
        &&& forall|kind: LibraryType| #[trigger]
            self.known.dom().contains(kind) ==> self.known[kind].finite() && !(self.known[kind]
                =~= Set::empty())
    }

    /// The line of a kind: its names in ascending order, or nothing if no
    /// library was declared under it.
    pub open spec fn kind_line(self, kind: LibraryType) -> Seq<char> {
        if self.known.dom().contains(kind) {
            line(kind.name(), sorted_listing(self.known[kind]))
        } else {
            Seq::empty()
        }
    }

    /// The report of the collection: nothing if it is empty; else a line for
    /// each kind that it knows, in the order static, dylib, framework, and a
    /// last line for the names without a kind, which is there even if there
    /// is no such name.
    pub open spec fn rendered(self) -> Seq<char> {
        if self.is_empty() {
            Seq::empty()
        } else {
            self.kind_line(LibraryType::Static) + self.kind_line(LibraryType::Dynamic)
                + self.kind_line(LibraryType::Framework) + line(
                "unknown"@,
                sorted_listing(self.unknown),
            )
        }
    }
}

/// The libraries that build scripts declared, each `(kind, name)` pair once.
/// Names declared without a kind are kept apart from the others.
#[derive(Debug)]
pub struct LinkedLibs {
    static_libs: NameSet,
    dynamic_libs: NameSet,
    frameworks: NameSet,
    unknown: NameSet,
}

impl View for LinkedLibs {
    type V = LinkedLibsView;

    closed spec fn view(&self) -> LinkedLibsView {
        LinkedLibsView {
            known: Map::new(
                |kind: LibraryType| !(self.shelf(kind)@ =~= Set::empty()),
                |kind: LibraryType| self.shelf(kind)@,
            ),
            unknown: self.unknown@,
        }
    }
}

impl LinkedLibs {
    spec fn shelf(&self, kind: LibraryType) -> NameSet {
        match kind {
            LibraryType::Static => self.static_libs,
            LibraryType::Dynamic => self.dynamic_libs,
            LibraryType::Framework => self.frameworks,
        }
    }

    /// Every collection is valid.
    pub proof fn lemma_valid(self)
        ensures
            self@.valid(),
    {
        self.static_libs.lemma_finite();
        self.dynamic_libs.lemma_finite();
        self.frameworks.lemma_finite();
        self.unknown.lemma_finite();
    }

    /// A collection in which nothing is declared yet.
    pub fn new() -> (libs: LinkedLibs)
        ensures
            libs@ == LinkedLibsView::empty(),
    {
        let libs = LinkedLibs {
            static_libs: NameSet::new(),
            dynamic_libs: NameSet::new(),
            frameworks: NameSet::new(),
            unknown: NameSet::new(),
        };
        assert(libs@ =~= LinkedLibsView::empty());
        libs
    }

    /// Records that a library was declared under a kind, or without one, and
    /// says whether that had not been recorded before.
    pub fn add(&mut self, lib_type: Option<LibraryType>, lib_name: String) -> (fresh: bool)
        ensures
            final(self)@ == old(self)@.with(lib_type, lib_name@),
            fresh == !old(self)@.holds(lib_type, lib_name@),
    {
        let fresh = match lib_type {
            Some(LibraryType::Static) => self.static_libs.insert(lib_name),
            Some(LibraryType::Dynamic) => self.dynamic_libs.insert(lib_name),
            Some(LibraryType::Framework) => self.frameworks.insert(lib_name),
            None => self.unknown.insert(lib_name),
        };
        proof {
            let before = old(self)@;
            let after = self@;
            let wanted = before.with(lib_type, lib_name@);
            assert(after.unknown =~= wanted.unknown);
            assert forall|kind: LibraryType| after.known.dom().contains(kind) <==> wanted.known.dom().contains(kind) by {
                if lib_type == Some(kind) {
                    assert(self.shelf(kind)@.contains(lib_name@));
                }
            }
            assert(after.known.dom() =~= wanted.known.dom());
            assert(after.known =~= wanted.known);
            assert(after =~= wanted);
        }
        fresh
    }

    /// Whether nothing was declared at all, under any kind or without one.
    pub fn all_empty(&self) -> (empty: bool)
        ensures
            empty == self@.is_empty(),
    {
        let empty = self.static_libs.is_empty() && self.dynamic_libs.is_empty()
            && self.frameworks.is_empty() && self.unknown.is_empty();
        proof {
            if self.static_libs@ =~= Set::empty() && self.dynamic_libs@ =~= Set::empty()
                && self.frameworks@ =~= Set::empty() {
                assert forall|kind: LibraryType| !self@.known.dom().contains(kind) by {
                    assert(self.shelf(kind)@ =~= Set::empty());
                }
                assert(self@.known.dom() =~= Set::empty());
            } else {
                if !(self.static_libs@ =~= Set::empty()) {
                    assert(self@.known.dom().contains(LibraryType::Static));
                } else if !(self.dynamic_libs@ =~= Set::empty()) {
                    assert(self@.known.dom().contains(LibraryType::Dynamic));
                } else {
                    assert(self@.known.dom().contains(LibraryType::Framework));
                }
            }
        }
        empty
    }

    /// The names declared under a kind, or without one, in ascending order.
    pub fn names(&self, kind: Option<LibraryType>) -> (listed: Vec<String>)
        ensures
            listed.deep_view() == sorted_listing(self@.bucket(kind)),
    {
        match kind {
            Some(LibraryType::Static) => self.static_libs.names(),
            Some(LibraryType::Dynamic) => self.dynamic_libs.names(),
            Some(LibraryType::Framework) => self.frameworks.names(),
            None => self.unknown.names(),
        }
    }

    /// The report of the collection as text.
    pub fn render(&self) -> (text: String)
        ensures
            text@ == self@.rendered(),
    {
        let mut text = String::new();
        if self.all_empty() {
            return text;
        }
        if !self.static_libs.is_empty() {
            push_line(&mut text, LibraryType::Static.as_str(), &self.static_libs);
        }
        if !self.dynamic_libs.is_empty() {
            push_line(&mut text, LibraryType::Dynamic.as_str(), &self.dynamic_libs);
        }
        if !self.frameworks.is_empty() {
            push_line(&mut text, LibraryType::Framework.as_str(), &self.frameworks);
        }
        push_line(&mut text, "unknown", &self.unknown);
        assert(text@ =~= self@.rendered());
        text
    }
}

/// Adds one line to a report.
fn push_line(text: &mut String, label: &str, set: &NameSet)
    ensures
        final(text)@ == old(text)@ + line(label@, sorted_listing(set@)),
{
    text.append(label);
    text.append(": ");
    let names = set_to_string(set);
    text.append(names.as_str());
    text.append("\n");
    assert(text@ =~= old(text)@ + line(label@, sorted_listing(set@)));
}

impl Clone for LinkedLibs {
    fn clone(&self) -> (copy: LinkedLibs)
        ensures
            copy@ == self@,
    {
        let copy = LinkedLibs {
            static_libs: self.static_libs.clone(),
            dynamic_libs: self.dynamic_libs.clone(),
            frameworks: self.frameworks.clone(),
            unknown: self.unknown.clone(),
        };
        proof {
            assert forall|kind: LibraryType| copy.shelf(kind)@ == self.shelf(kind)@ by {}
            assert(copy@.known =~= self@.known);
            assert(copy@ =~= self@);
        }
        copy
    }
}

impl Default for LinkedLibs {
    fn default() -> (libs: LinkedLibs)
        ensures
            libs@ == LinkedLibsView::empty(),
    {
        LinkedLibs::new()
    }
}

} // verus!
