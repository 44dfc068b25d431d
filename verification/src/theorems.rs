//! What holds of a collection of libraries whatever is added to it, and in
//! whatever order.

use vstd::prelude::*;

use crate::descriptor::{declared_kind, declared_name, lemma_kind_and_name};
use crate::kind::{lemma_names_distinct, LibraryType};
use crate::linked_libs::{line, LinkedLibsView};
use crate::name_set::{braced, joined};
use crate::names::{lemma_listing_exists, lemma_listing_is, lists, sorted_listing};

verus! {

/// A collection after a list of additions, made one after the other.
pub open spec fn after_adds(
    libs: LinkedLibsView,
    adds: Seq<(Option<LibraryType>, Seq<char>)>,
) -> LinkedLibsView
    decreases adds.len(),
{
    if adds.len() == 0 {
        libs
    } else {
        after_adds(libs, adds.drop_last()).with(adds.last().0, adds.last().1)
    }
}

/// An addition keeps a collection valid, and the collection then holds what
/// was added.
pub proof fn lemma_add_keeps_valid(libs: LinkedLibsView, kind: Option<LibraryType>, name: Seq<char>)
    requires
        libs.valid(),
    ensures
        libs.with(kind, name).valid(),
        libs.with(kind, name).holds(kind, name),
        !libs.with(kind, name).is_empty(),
{
    let after = libs.with(kind, name);
    match kind {
        Some(k) => {
            assert(after.known.dom().contains(k));
            assert(after.known[k].contains(name));
        },
        None => {
            assert(after.unknown.contains(name));
        },
    }
}

/// A collection is empty exactly as long as nothing was added to it.
pub proof fn lemma_empty_until_first_add(adds: Seq<(Option<LibraryType>, Seq<char>)>)
    ensures
        after_adds(LinkedLibsView::empty(), adds).valid(),
        after_adds(LinkedLibsView::empty(), adds).is_empty() <==> adds.len() == 0,
    decreases adds.len(),
{
    if adds.len() > 0 {
        lemma_empty_until_first_add(adds.drop_last());
        lemma_add_keeps_valid(
            after_adds(LinkedLibsView::empty(), adds.drop_last()),
            adds.last().0,
            adds.last().1,
        );
    }
}

/// Adding what a collection already holds changes nothing: the collection
/// says that it held it, and it is shown as before.
pub proof fn lemma_add_twice(libs: LinkedLibsView, kind: Option<LibraryType>, name: Seq<char>)
    ensures
        libs.with(kind, name).holds(kind, name),
        libs.with(kind, name).with(kind, name) == libs.with(kind, name),
        libs.with(kind, name).with(kind, name).rendered() == libs.with(kind, name).rendered(),
{
    let once = libs.with(kind, name);
    let twice = once.with(kind, name);
    match kind {
        Some(k) => {
            assert(once.known.dom().contains(k));
            assert(once.bucket(kind).insert(name) =~= once.bucket(kind));
            assert(twice.known =~= once.known);
        },
        None => {
            assert(twice.unknown =~= once.unknown);
        },
    }
    assert(twice =~= once);
}

/// The order of two additions does not matter, so neither does the order of
/// any number of them: what a collection shows depends on what was added
/// and not on when.
pub proof fn lemma_adds_commute(
    libs: LinkedLibsView,
    kind: Option<LibraryType>,
    name: Seq<char>,
    other_kind: Option<LibraryType>,
    other_name: Seq<char>,
)
    ensures
        libs.with(kind, name).with(other_kind, other_name) == libs.with(other_kind, other_name).with(
            kind,
            name,
        ),
{
    let one = libs.with(kind, name).with(other_kind, other_name);
    let other = libs.with(other_kind, other_name).with(kind, name);
    assert(one.unknown =~= other.unknown);
    match (kind, other_kind) {
        (Some(k), Some(o)) => {
            if k == o {
                assert(libs.with(kind, name).known.dom().contains(k));
                assert(libs.with(other_kind, other_name).known.dom().contains(k));
                assert(one.known[k] =~= other.known[k]);
            } else {
                assert(libs.with(kind, name).bucket(other_kind) =~= libs.bucket(other_kind));
                assert(libs.with(other_kind, other_name).bucket(kind) =~= libs.bucket(kind));
            }
            assert(one.known =~= other.known);
        },
        _ => {
            assert(one.known =~= other.known);
        },
    }
    assert(one =~= other);
}

/// The names that a valid collection shows under a kind, and those that it
/// shows without one, are all the names that it holds there, each once and
/// in ascending order.
pub proof fn lemma_shown_in_order(libs: LinkedLibsView, kind: Option<LibraryType>)
    requires
        libs.valid(),
    ensures
        lists(sorted_listing(libs.bucket(kind)), libs.bucket(kind)),
{
    match kind {
        Some(k) => {
            if libs.known.dom().contains(k) {
                lemma_listing_exists(libs.known[k]);
            } else {
                lemma_listing_exists(Set::<Seq<char>>::empty());
            }
        },
        None => {
            lemma_listing_exists(libs.unknown);
        },
    }
}

/// A collection that holds nothing but what one declaration with a kind
/// gave is shown as the kind's line with the one name, and the line of the
/// names without a kind.
pub proof fn lemma_declared_then_shown(kind: LibraryType, name: Seq<char>)
    ensures
        ({
            let token = kind.name() + "="@ + name;
            LinkedLibsView::empty().with(declared_kind(token), declared_name(token)).rendered()
                == kind.name() + ": { "@ + name + " }\n"@ + "unknown: \n"@
        }),
{
    let token = kind.name() + "="@ + name;
    lemma_kind_and_name(kind, name);
    lemma_names_distinct();
    let libs = LinkedLibsView::empty().with(Some(kind), name);
    let only = seq![name];
    assert(only[0] == name);
    assert(only.to_set() =~= Set::<Seq<char>>::empty().insert(name));
    assert(libs.known.dom().contains(kind));
    assert(libs.known[kind] =~= only.to_set());
    lemma_listing_is(only, libs.known[kind]);
    let none = Seq::<Seq<char>>::empty();
    assert(none.to_set() =~= Set::<Seq<char>>::empty());
    lemma_listing_is(none, libs.unknown);
    assert(joined(only) == name);
    assert(braced(none) == Seq::<char>::empty());
    reveal_strlit(": ");
    reveal_strlit("{ ");
    reveal_strlit(" }");
    reveal_strlit("\n");
    reveal_strlit(": { ");
    reveal_strlit(" }\n");
    reveal_strlit("unknown");
    reveal_strlit("unknown: \n");
    assert(line(kind.name(), only) =~= kind.name() + ": { "@ + name + " }\n"@);
    assert(line("unknown"@, none) =~= "unknown: \n"@);
    assert forall|other: LibraryType| other != kind implies libs.kind_line(other) == Seq::<
        char,
    >::empty() by {
        assert(!libs.known.dom().contains(other));
    }
    assert(libs.kind_line(kind) == line(kind.name(), only));
    assert(libs.rendered() =~= kind.name() + ": { "@ + name + " }\n"@ + "unknown: \n"@);
}

} // verus!
