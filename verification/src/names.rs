//! The order in which library names are kept and shown.

use vstd::prelude::*;
use vstd::std_specs::iter::IteratorSpec;
use vstd::string::StringExecFns;

verus! {

/// Whether two string slices hold the same characters.
pub fn same_text(a: &str, b: &str) -> (same: bool)
    ensures
        same == (a@ == b@),
{
    let left = String::from_str(a);
    let right = String::from_str(b);
    left == right
}

/// Whether `a` comes before `b` when the two are read character by
/// character: at the first place where they differ the smaller character
/// decides, and a text comes before every longer text that starts with it.
pub open spec fn precedes(a: Seq<char>, b: Seq<char>) -> bool
    decreases a.len(),
{
    if b.len() == 0 {
        false
    } else if a.len() == 0 {
        true
    } else if a[0] == b[0] {
        precedes(a.drop_first(), b.drop_first())
    } else {
        (a[0] as u32) < (b[0] as u32)
    }
}

/// Decides [`precedes`] for two string slices.
pub fn comes_before(a: &str, b: &str) -> (before: bool)
    ensures
        before == precedes(a@, b@),
{
    let mut left = a.chars();
    let mut right = b.chars();
    let ghost mut seen: int = 0;
    assert(a@.skip(0) == a@ && b@.skip(0) == b@);
    loop
        invariant
            0 <= seen <= a@.len(),
            seen <= b@.len(),
            left.remaining() == a@.skip(seen),
            right.remaining() == b@.skip(seen),
            precedes(a@, b@) == precedes(a@.skip(seen), b@.skip(seen)),
        decreases a@.len() - seen,
    {
        let y = right.next();
        let x = left.next();
        match (x, y) {
            (_, None) => {
                return false;
            },
            (None, Some(_)) => {
                return true;
            },
            (Some(c), Some(d)) => {
                if c != d {
                    return (c as u32) < (d as u32);
                }
                proof {
                    assert(a@.skip(seen).drop_first() == a@.skip(seen + 1));
                    assert(b@.skip(seen).drop_first() == b@.skip(seen + 1));
                    seen = seen + 1;
                }
            },
        }
    }
}

/// Whether every name of a list comes before all the names after it. Such a
/// list holds no name twice.
pub open spec fn ascending(names: Seq<Seq<char>>) -> bool {
    forall|i: int, j: int| 0 <= i < j < names.len() ==> precedes(#[trigger] names[i], #[trigger] names[j])
}

/// Whether `names` lists exactly the members of `set`, in ascending order.
pub open spec fn lists(names: Seq<Seq<char>>, set: Set<Seq<char>>) -> bool {
    ascending(names) && names.to_set() == set
}

/// The members of a finite set of names, in ascending order.
pub open spec fn sorted_listing(set: Set<Seq<char>>) -> Seq<Seq<char>> {
    choose|names: Seq<Seq<char>>| lists(names, set)
}

/// No text comes before itself.
pub proof fn lemma_precedes_irreflexive(a: Seq<char>)
    ensures
        !precedes(a, a),
    decreases a.len(),
{
    if a.len() > 0 {
        lemma_precedes_irreflexive(a.drop_first());
    }
}

/// The order is transitive.
pub proof fn lemma_precedes_transitive(a: Seq<char>, b: Seq<char>, c: Seq<char>)
    requires
        precedes(a, b),
        precedes(b, c),
    ensures
        precedes(a, c),
    decreases a.len(),
{
    if a.len() > 0 && a[0] == b[0] && b[0] == c[0] {
        lemma_precedes_transitive(a.drop_first(), b.drop_first(), c.drop_first());
    }
}

/// Of two different texts one comes before the other.
pub proof fn lemma_precedes_total(a: Seq<char>, b: Seq<char>)
    requires
        a != b,
    ensures
        precedes(a, b) || precedes(b, a),
    decreases a.len(),
{
    if a.len() > 0 && b.len() > 0 && a[0] == b[0] {
        if a.drop_first() == b.drop_first() {
            assert(a =~= seq![a[0]] + a.drop_first());
            assert(b =~= seq![b[0]] + b.drop_first());
        }
        lemma_precedes_total(a.drop_first(), b.drop_first());
    } else if a.len() == 0 && b.len() == 0 {
        assert(a =~= b);
    } else if a.len() > 0 && b.len() > 0 {
        vstd::utf8::char_u32_cast(a[0], a[0] as u32);
        vstd::utf8::char_u32_cast(b[0], b[0] as u32);
    }
}

/// An ascending list holds each of its names once.
pub proof fn lemma_ascending_no_duplicates(names: Seq<Seq<char>>)
    requires
        ascending(names),
    ensures
        names.no_duplicates(),
{
    assert forall|i: int, j: int| 0 <= i < names.len() && 0 <= j < names.len() && i != j implies names[i] != names[j] by {
        lemma_precedes_irreflexive(names[i]);
        if i < j {
            assert(precedes(names[i], names[j]));
        } else {
            assert(precedes(names[j], names[i]));
        }
    }
}

/// The first place in an ascending list whose name does not come before
/// `name`: the place where `name` belongs.
pub proof fn lemma_slot(names: Seq<Seq<char>>, name: Seq<char>) -> (slot: int)
    requires
        ascending(names),
    ensures
        0 <= slot <= names.len(),
        forall|j: int| 0 <= j < slot ==> precedes(#[trigger] names[j], name),
        slot < names.len() ==> !precedes(names[slot], name),
    decreases names.len(),
{
    if names.len() == 0 {
        0
    } else if precedes(names.last(), name) {
        assert forall|j: int| 0 <= j < names.len() implies precedes(#[trigger] names[j], name) by {
            if j < names.len() - 1 {
                assert(precedes(names[j], names[names.len() - 1]));
                lemma_precedes_transitive(names[j], names.last(), name);
            }
        }
        names.len() as int
    } else {
        let shorter = names.drop_last();
        assert forall|i: int, j: int| 0 <= i < j < shorter.len() implies precedes(#[trigger] shorter[i], #[trigger] shorter[j]) by {
            assert(precedes(names[i], names[j]));
        }
        let slot = lemma_slot(shorter, name);
        assert forall|j: int| 0 <= j < slot implies precedes(#[trigger] names[j], name) by {
            assert(precedes(shorter[j], name));
        }
        if slot < shorter.len() {
            assert(shorter[slot] == names[slot]);
        }
        slot
    }
}

/// Putting a new name into its place keeps a list ascending, and adds the
/// name to what the list holds.
pub proof fn lemma_insert_ascending(names: Seq<Seq<char>>, slot: int, name: Seq<char>)
    requires
        ascending(names),
        0 <= slot <= names.len(),
        forall|j: int| 0 <= j < slot ==> precedes(#[trigger] names[j], name),
        slot < names.len() ==> precedes(name, names[slot]),
    ensures
        ascending(names.insert(slot, name)),
        names.insert(slot, name).to_set() == names.to_set().insert(name),
{
    let longer = names.insert(slot, name);
    assert forall|i: int, j: int| 0 <= i < j < longer.len() implies precedes(#[trigger] longer[i], #[trigger] longer[j]) by {
        if j < slot {
            assert(precedes(names[i], names[j]));
        } else if j == slot {
            assert(precedes(names[i], name));
        } else if i < slot {
            assert(precedes(names[i], names[j - 1]));
        } else if i == slot {
            if j - 1 > slot {
                assert(precedes(names[slot], names[j - 1]));
                lemma_precedes_transitive(name, names[slot], names[j - 1]);
            }
        } else {
            assert(precedes(names[i - 1], names[j - 1]));
        }
    }
    assert forall|text: Seq<char>| longer.to_set().contains(text) <==> names.to_set().insert(name).contains(text) by {
        if longer.to_set().contains(text) {
            let k = choose|k: int| 0 <= k < longer.len() && longer[k] == text;
            if k < slot {
                assert(names[k] == text);
            } else if k > slot {
                assert(names[k - 1] == text);
            }
        }
        if names.to_set().contains(text) {
            let k = choose|k: int| 0 <= k < names.len() && names[k] == text;
            if k < slot {
                assert(longer[k] == text);
            } else {
                assert(longer[k + 1] == text);
            }
        }
        if text == name {
            assert(longer[slot] == text);
        }
    }
    assert(longer.to_set() =~= names.to_set().insert(name));
}

/// Every finite set of names has an ascending list of its members.
pub proof fn lemma_listing_exists(set: Set<Seq<char>>)
    requires
        set.finite(),
    ensures
        lists(sorted_listing(set), set),
    decreases set.len(),
{
    if set.len() == 0 {
        let none = Seq::<Seq<char>>::empty();
        assert(none.to_set() =~= set);
        assert(lists(none, set));
    } else {
        let name = set.choose();
        let rest = set.remove(name);
        lemma_listing_exists(rest);
        let names = sorted_listing(rest);
        let slot = lemma_slot(names, name);
        if slot < names.len() {
            assert(names.to_set().contains(names[slot]));
            lemma_precedes_total(names[slot], name);
        }
        lemma_insert_ascending(names, slot, name);
        assert(rest.insert(name) =~= set);
        assert(lists(names.insert(slot, name), set));
    }
}

/// A set of names has only one ascending list: whatever the order in which
/// the names arrived, they are listed in the same way.
pub proof fn lemma_listing_unique(a: Seq<Seq<char>>, b: Seq<Seq<char>>)
    requires
        ascending(a),
        ascending(b),
        a.to_set() == b.to_set(),
    ensures
        a == b,
    decreases a.len(),
{
    lemma_ascending_no_duplicates(a);
    lemma_ascending_no_duplicates(b);
    a.unique_seq_to_set();
    b.unique_seq_to_set();
    if a.len() > 0 {
        assert(a.to_set().contains(a[0]));
        assert(b.to_set().contains(b[0]));
        let i = choose|i: int| 0 <= i < a.len() && a[i] == b[0];
        let j = choose|j: int| 0 <= j < b.len() && b[j] == a[0];
        if a[0] != b[0] {
            assert(precedes(a[0], a[i]));
            assert(precedes(b[0], b[j]));
            lemma_precedes_transitive(a[0], b[0], a[0]);
            lemma_precedes_irreflexive(a[0]);
        }
        let rest_a = a.drop_first();
        let rest_b = b.drop_first();
        assert forall|i: int, j: int| 0 <= i < j < rest_a.len() implies precedes(#[trigger] rest_a[i], #[trigger] rest_a[j]) by {
            assert(precedes(a[i + 1], a[j + 1]));
        }
        assert forall|i: int, j: int| 0 <= i < j < rest_b.len() implies precedes(#[trigger] rest_b[i], #[trigger] rest_b[j]) by {
            assert(precedes(b[i + 1], b[j + 1]));
        }
        assert forall|text: Seq<char>| rest_a.to_set().contains(text) <==> rest_b.to_set().contains(text) by {
            if rest_a.to_set().contains(text) {
                let k = choose|k: int| 0 <= k < rest_a.len() && rest_a[k] == text;
                assert(a[k + 1] == text);
                assert(a.to_set().contains(text));
                let m = choose|m: int| 0 <= m < b.len() && b[m] == text;
                assert(m != 0);
                assert(rest_b[m - 1] == text);
            }
            if rest_b.to_set().contains(text) {
                let k = choose|k: int| 0 <= k < rest_b.len() && rest_b[k] == text;
                assert(b[k + 1] == text);
                assert(b.to_set().contains(text));
                let m = choose|m: int| 0 <= m < a.len() && a[m] == text;
                assert(m != 0);
                assert(rest_a[m - 1] == text);
            }
        }
        assert(rest_a.to_set() =~= rest_b.to_set());
        lemma_listing_unique(rest_a, rest_b);
        assert(a =~= seq![a[0]] + rest_a);
        assert(b =~= seq![b[0]] + rest_b);
    } else {
        assert(a =~= b);
    }
}

/// An ascending list of a set's members is the set's sorted listing.
pub proof fn lemma_listing_is(names: Seq<Seq<char>>, set: Set<Seq<char>>)
    requires
        lists(names, set),
    ensures
        sorted_listing(set) == names,
{
    lemma_listing_unique(sorted_listing(set), names);
}

} // verus!
