//! Link declarations of the form `[kind=]name`.

use vstd::prelude::*;
use vstd::std_specs::iter::IteratorSpec;
use vstd::string::StrSliceExecFns;
use vstd::string::StringExecFns;

use crate::kind::{lemma_names_distinct, LibraryType};

verus! {

/// What stands before the first `=` of a declaration, if it has one.
pub open spec fn kind_text(token: Seq<char>) -> Option<Seq<char>> {
    match token.index_of_first('=') {
        Some(at) => Some(token.take(at)),
        None => None,
    }
}

/// The library that a declaration names: what follows the first `=`, or the
/// whole declaration if it has none. Only the first `=` counts, so a name
/// may hold further ones.
pub open spec fn declared_name(token: Seq<char>) -> Seq<char> {
    match token.index_of_first('=') {
        Some(at) => token.skip(at + 1),
        None => token,
    }
}

/// The kind that a declaration gives, if it gives one.
pub open spec fn declared_kind(token: Seq<char>) -> Option<LibraryType> {
    match kind_text(token) {
        Some(text) => LibraryType::named(text),
        None => None,
    }
}

/// Whether a declaration can be read: what stands before its first `=`, if
/// anything, is the name of a kind.
pub open spec fn well_formed(token: Seq<char>) -> bool {
    kind_text(token) matches Some(text) ==> LibraryType::named(text) is Some
}

/// A place is the first at which a character occurs exactly if
/// `index_of_first` gives that place.
pub proof fn lemma_first_place(text: Seq<char>, sign: char, at: int)
    requires
        0 <= at < text.len(),
        text[at] == sign,
        forall|j: int| 0 <= j < at ==> text[j] != sign,
    ensures
        text.index_of_first(sign) == Some(at),
{
    text.index_of_first_ensures(sign);
    assert(text.contains(sign));
}

/// The place of the first `=` in a text, counted in characters.
pub fn find_equals(text: &str) -> (found: Option<usize>)
    ensures
        found matches Some(at) ==> at < text@.len() && text@.index_of_first('=') == Some(
            at as int,
        ),
        found is None ==> text@.index_of_first('=') is None,
{
    let total = text.unicode_len();
    let mut rest = text.chars();
    let mut at: usize = 0;
    assert(text@.skip(0) == text@);
    loop
        invariant
            at <= total,
            total == text@.len(),
            rest.remaining() == text@.skip(at as int),
            forall|j: int| 0 <= j < at ==> text@[j] != '=',
        decreases total - at,
    {
        match rest.next() {
            None => {
                proof {
                    text@.index_of_first_ensures('=');
                }
                return None;
            },
            Some(c) => {
                assert(c == text@[at as int]);
                if c == '=' {
                    proof {
                        lemma_first_place(text@, '=', at as int);
                    }
                    return Some(at);
                }
                assert(text@.skip(at as int).drop_first() == text@.skip(at + 1));
                at += 1;
            },
        }
    }
}

/// Reads a declaration of the form `[kind=]name`. One whose kind is not
/// known is refused, and what stood in the kind's place is handed back.
pub fn try_parse_library_output(s: String) -> (parsed: Result<(Option<LibraryType>, String), String>)
    ensures
        match parsed {
            Ok(link) => well_formed(s@) && link.0 == declared_kind(s@) && link.1@
                == declared_name(s@),
            Err(text) => !well_formed(s@) && kind_text(s@) == Some(text@),
        },
{
    let text = s.as_str();
    match find_equals(text) {
        None => Ok((None, s)),
        Some(at) => {
            let total = text.unicode_len();
            let before = text.substring_char(0, at);
            let after = text.substring_char(at + 1, total);
            assert(before@ == s@.take(at as int));
            assert(after@ == s@.skip(at + 1));
            match LibraryType::from_str(before) {
                Ok(kind) => Ok((Some(kind), String::from_str(after))),
                Err(unknown) => Err(unknown),
            }
        },
    }
}

/// Reads a declaration of the form `[kind=]name`:
/// `dylib=z` gives the kind `Dynamic` and the name `z`, and `z` alone gives
/// no kind and the name `z`.
pub fn parse_library_output(s: String) -> (link: (Option<LibraryType>, String))
    requires
        well_formed(s@),
    ensures
        link.0 == declared_kind(s@),
        link.1@ == declared_name(s@),
{
    match try_parse_library_output(s) {
        Ok(link) => link,
        Err(_) => vstd::pervasive::unreached(),
    }
}

/// A declaration made of a kind's name, `=` and a library name is read as
/// that kind and that name, whatever the name holds.
pub proof fn lemma_kind_and_name(kind: LibraryType, name: Seq<char>)
    ensures
        well_formed(kind.name() + "="@ + name),
        declared_kind(kind.name() + "="@ + name) == Some(kind),
        declared_name(kind.name() + "="@ + name) == name,
{
    let token = kind.name() + "="@ + name;
    let at = kind.name().len() as int;
    reveal_strlit("=");
    reveal_strlit("static");
    reveal_strlit("dylib");
    reveal_strlit("framework");
    lemma_names_distinct();
    assert(token[at] == '=');
    assert forall|j: int| 0 <= j < at implies token[j] != '=' by {
        assert(token[j] == kind.name()[j]);
    }
    lemma_first_place(token, '=', at);
    assert(token.take(at) =~= kind.name());
    assert(token.skip(at + 1) =~= name);
}

/// A declaration without `=` gives no kind, and names the library by the
/// whole of its text.
pub proof fn lemma_bare_name(token: Seq<char>)
    requires
        !token.contains('='),
    ensures
        well_formed(token),
        declared_kind(token) is None,
        declared_name(token) == token,
{
    token.index_of_first_ensures('=');
}

} // verus!
