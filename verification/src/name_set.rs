//! A set of library names that is kept in ascending order.

use vstd::prelude::*;
use vstd::string::StringExecFns;

use crate::names::{
    ascending, comes_before, lemma_insert_ascending, lemma_listing_is,
    lemma_precedes_irreflexive, lemma_precedes_total, precedes, sorted_listing,
};

verus! {

/// A finite set of names. Each name is held once, and the names are stored
/// in ascending order, so that they are always shown in the same way.
#[derive(Debug)]
pub struct NameSet {
    names: Vec<String>,
}

impl View for NameSet {
    type V = Set<Seq<char>>;

    closed spec fn view(&self) -> Set<Seq<char>> {
        self.names.deep_view().to_set()
    }
}

/// The names of a list, separated by a comma and a space.
pub open spec fn joined(names: Seq<Seq<char>>) -> Seq<char>
    decreases names.len(),
{
    if names.len() == 0 {
        Seq::empty()
    } else if names.len() == 1 {
        names[0]
    } else {
        names[0] + ", "@ + joined(names.drop_first())
    }
}

/// How a list of names is shown: between braces, separated by commas. An
/// empty list is shown as nothing at all, without braces.
pub open spec fn braced(names: Seq<Seq<char>>) -> Seq<char> {
    if names.len() == 0 {
        Seq::empty()
    } else {
        "{ "@ + joined(names) + " }"@
    }
}

impl NameSet {
    #[verifier::type_invariant]
    spec fn in_order(&self) -> bool {
        ascending(self.names.deep_view())
    }

    /// A set holds finitely many names.
    pub proof fn lemma_finite(self)
        ensures
            self@.finite(),
    {
        vstd::seq_lib::seq_to_set_is_finite(self.names.deep_view());
    }

    /// A set without names.
    pub fn new() -> (set: NameSet)
        ensures
            set@ == Set::<Seq<char>>::empty(),
    {
        let set = NameSet { names: Vec::new() };
        assert(set.names.deep_view() =~= Seq::empty());
        assert(set@ =~= Set::<Seq<char>>::empty());
        set
    }

    /// Adds a name, and says whether the set did not hold it before.
    pub fn insert(&mut self, name: String) -> (fresh: bool)
        ensures
            final(self)@ == old(self)@.insert(name@),
            fresh == !old(self)@.contains(name@),
    {
        proof {
            use_type_invariant(&*self);
        }
        let ghost listed = self.names.deep_view();
        let mut slot: usize = 0;
        while slot < self.names.len() && comes_before(self.names[slot].as_str(), name.as_str())
            invariant
                slot <= self.names.len(),
                listed == self.names.deep_view(),
                forall|j: int| 0 <= j < slot ==> precedes(#[trigger] listed[j], name@),
            decreases self.names.len() - slot,
        {
            slot += 1;
        }
        if slot < self.names.len() && self.names[slot] == name {
            proof {
                assert(listed[slot as int] == name@);
                assert(listed.to_set().contains(name@));
                assert(listed.to_set().insert(name@) =~= listed.to_set());
            }
            return false;
        }
        proof {
            if slot < listed.len() {
                assert(listed[slot as int] != name@);
                lemma_precedes_total(listed[slot as int], name@);
            }
            lemma_insert_ascending(listed, slot as int, name@);
            if listed.to_set().contains(name@) {
                let k = choose|k: int| 0 <= k < listed.len() && listed[k] == name@;
                lemma_precedes_irreflexive(name@);
                if k < slot {
                    assert(precedes(listed[k], name@));
                } else if k > slot {
                    assert(precedes(listed[slot as int], listed[k]));
                }
            }
        }
        let ghost text = name@;
        let mut names: Vec<String> = Vec::new();
        proof {
            assert(names.deep_view() =~= Seq::<Seq<char>>::empty());
        }
        std::mem::swap(&mut names, &mut self.names);
        names.insert(slot, name);
        proof {
            assert(names.deep_view() =~= listed.insert(slot as int, text));
        }
        self.names = names;
        true
    }

    /// Whether the set holds no name.
    pub fn is_empty(&self) -> (empty: bool)
        ensures
            empty == (self@ == Set::<Seq<char>>::empty()),
    {
        proof {
            let listed = self.names.deep_view();
            if listed.len() > 0 {
                assert(listed.to_set().contains(listed[0]));
            } else {
                assert(listed.to_set() =~= Set::<Seq<char>>::empty());
            }
        }
        self.names.is_empty()
    }

    /// The names of the set, in ascending order.
    pub fn names(&self) -> (listed: Vec<String>)
        ensures
            listed.deep_view() == sorted_listing(self@),
    {
        proof {
            use_type_invariant(&*self);
            lemma_listing_is(self.names.deep_view(), self@);
        }
        let mut listed: Vec<String> = Vec::new();
        let mut at: usize = 0;
        while at < self.names.len()
            invariant
                at <= self.names.len(),
                listed@.len() == at,
                forall|i: int| 0 <= i < at ==> (#[trigger] listed@[i])@ == self.names@[i]@,
            decreases self.names.len() - at,
        {
            let name = self.names[at].clone();
            listed.push(name);
            at += 1;
        }
        assert(listed.deep_view() =~= self.names.deep_view());
        listed
    }
}

impl Clone for NameSet {
    fn clone(&self) -> (copy: NameSet)
        ensures
            copy@ == self@,
    {
        proof {
            use_type_invariant(self);
            lemma_listing_is(self.names.deep_view(), self@);
        }
        NameSet { names: self.names() }
    }
}

/// Shows the names of a set in ascending order, between braces and
/// separated by commas: `{ a, b, c }`. An empty set gives an empty string.
pub fn set_to_string(set: &NameSet) -> (text: String)
    ensures
        text@ == braced(sorted_listing(set@)),
{
    proof {
        use_type_invariant(set);
        lemma_listing_is(set.names.deep_view(), set@);
    }
    let ghost listed = set.names.deep_view();
    if set.names.len() == 0 {
        return String::new();
    }
    let mut text = String::from_str("{ ");
    let last: usize = set.names.len() - 1;
    let mut at: usize = 0;
    assert(listed.skip(0) =~= listed);
    while at < last
        invariant
            at <= last,
            last + 1 == set.names.len(),
            listed == set.names.deep_view(),
            text@ + joined(listed.skip(at as int)) == "{ "@ + joined(listed),
        decreases last - at,
    {
        let ghost so_far = text@;
        text.append(set.names[at].as_str());
        text.append(", ");
        proof {
            let rest = listed.skip(at as int);
            assert(rest.drop_first() =~= listed.skip(at + 1));
            assert(rest[0] == listed[at as int]);
            assert(text@ + joined(listed.skip(at + 1)) =~= so_far + joined(rest));
        }
        at += 1;
    }
    let ghost so_far = text@;
    text.append(set.names[last].as_str());
    text.append(" }");
    proof {
        assert(listed.skip(last as int).len() == 1);
        assert(listed.skip(last as int)[0] == listed[last as int]);
        assert(text@ =~= so_far + joined(listed.skip(last as int)) + " }"@);
    }
    text
}

} // verus!
