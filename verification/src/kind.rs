//! The kinds of native library that a link declaration can name.

use vstd::prelude::*;
use vstd::string::StringExecFns;

use crate::names::same_text;

verus! {

/// How a native library is linked.
#[derive(Debug, Clone, Copy, PartialEq, Eq, Hash, PartialOrd, Ord, Structural)]
pub enum LibraryType {
    Static,
    Dynamic,
    Framework,
}

impl LibraryType {
    /// The canonical name of the kind, as it is written in a link declaration
    /// and shown in a report.
    pub open spec fn name(self) -> Seq<char> {
        match self {
            LibraryType::Static => "static"@,
            LibraryType::Dynamic => "dylib"@,
            LibraryType::Framework => "framework"@,
        }
    }

    /// The kind that a name stands for, if it is the canonical name of one.
    pub open spec fn named(text: Seq<char>) -> Option<LibraryType> {
        if text == LibraryType::Static.name() {
            Some(LibraryType::Static)
        } else if text == LibraryType::Dynamic.name() {
            Some(LibraryType::Dynamic)
        } else if text == LibraryType::Framework.name() {
            Some(LibraryType::Framework)
        } else {
            None
        }
    }

    /// The canonical name of the kind.
    pub fn as_str(&self) -> (text: &'static str)
        ensures
            text@ == self.name(),
    {
        match self {
            LibraryType::Static => "static",
            LibraryType::Dynamic => "dylib",
            LibraryType::Framework => "framework",
        }
    }

    /// Reads a kind from its canonical name. Any other text is handed back
    /// as the error.
    pub fn from_str(s: &str) -> (parsed: Result<LibraryType, String>)
        ensures
            match parsed {
                Ok(kind) => LibraryType::named(s@) == Some(kind),
                Err(text) => LibraryType::named(s@) is None && text@ == s@,
            },
    {
        if same_text(s, "static") {
            Ok(LibraryType::Static)
        } else if same_text(s, "dylib") {
            Ok(LibraryType::Dynamic)
        } else if same_text(s, "framework") {
            Ok(LibraryType::Framework)
        } else {
            Err(String::from_str(s))
        }
    }
}

/// The three canonical names are pairwise different, so a kind can be read
/// back from its name.
pub proof fn lemma_names_distinct()
    ensures
        forall|kind: LibraryType| #[trigger] LibraryType::named(kind.name()) == Some(kind),
        forall|a: LibraryType, b: LibraryType| a.name() == b.name() ==> a == b,
{
    reveal_strlit("static");
    reveal_strlit("dylib");
    reveal_strlit("framework");
    assert("static"@.len() == 6);
    assert("dylib"@.len() == 5);
    assert("framework"@.len() == 9);
}

} // verus!
