//! The set of named flags.

use vstd::prelude::*;

verus! {

/// The names that `names` holds, each once.
pub open spec fn names_of(names: Seq<String>) -> Set<Seq<char>> {
    Set::new(|name: Seq<char>| exists|i: int| 0 <= i < names.len() && #[trigger] names[i]@ == name)
}

pub struct FlagSet {
    names: Vec<String>,
}

impl View for FlagSet {
    type V = Set<Seq<char>>;

    closed spec fn view(&self) -> Set<Seq<char>> {
        names_of(self.names@)
    }
}

impl FlagSet {
    /// A set without flags.
    pub fn new() -> (r: FlagSet)
        ensures
            r@ == Set::<Seq<char>>::empty(),
    {
        let r = FlagSet { names: Vec::new() };
        assert(r@ =~= Set::<Seq<char>>::empty());
        r
    }

    /// Whether the flag `name` is set.
    pub fn contains(&self, name: &String) -> (b: bool)
        ensures
            b == self@.contains(name@),
    {
        let mut i: usize = 0;
        while i < self.names.len()
            invariant
                i <= self.names@.len(),
                forall|j: int| 0 <= j < i ==> self.names@[j]@ != name@,
            decreases self.names@.len() - i,
        {
            if self.names[i] == *name {
                return true;
            }
            i = i + 1;
        }
        false
    }

    /// Sets the flag `name`. The answer says whether it was newly set.
    pub fn insert(&mut self, name: String) -> (added: bool)
        ensures
            added == !old(self)@.contains(name@),
            final(self)@ == old(self)@.insert(name@),
    {
        if self.contains(&name) {
            assert(self@ =~= old(self)@.insert(name@));
            false
        } else {
            proof {
                lemma_names_of_push(self.names@, name);
            }
            self.names.push(name);
            true
        }
    }

    /// Clears the flag `name`. The answer says whether it was set.
    pub fn remove(&mut self, name: &String) -> (removed: bool)
        ensures
            removed == old(self)@.contains(name@),
            final(self)@ == old(self)@.remove(name@),
    {
        let mut kept: Vec<String> = Vec::new();
        let mut removed = false;
        let mut i: usize = 0;
        while i < self.names.len()
            invariant
                i <= self.names@.len(),
                self.names@ == old(self).names@,
                names_of(kept@) == names_of(self.names@.take(i as int)).remove(name@),
                removed == names_of(self.names@.take(i as int)).contains(name@),
            decreases self.names@.len() - i,
        {
            proof {
                let seen = self.names@.take(i as int);
                assert(self.names@.take(i + 1) =~= seen.push(self.names@[i as int]));
                lemma_names_of_push(seen, self.names@[i as int]);
            }
            if self.names[i] == *name {
                removed = true;
                proof {
                    assert(names_of(kept@) =~= names_of(self.names@.take(i + 1)).remove(name@));
                }
            } else {
                proof {
                    lemma_names_of_push(kept@, self.names@[i as int]);
                }
                kept.push(self.names[i].clone());
                proof {
                    assert(names_of(kept@) =~= names_of(self.names@.take(i + 1)).remove(name@));
                }
            }
            i = i + 1;
        }
        proof {
            assert(self.names@.take(i as int) =~= self.names@);
        }
        self.names = kept;
        removed
    }
}

/// The names of a sequence with one more string at its end are the names of
/// the sequence and the name of that string.
proof fn lemma_names_of_push(names: Seq<String>, name: String)
    ensures
        names_of(names.push(name)) == names_of(names).insert(name@),
{
    let grown = names.push(name);
    assert forall|n: Seq<char>| names_of(grown).contains(n) == names_of(names).insert(
        name@,
    ).contains(n) by {
        if names_of(names).contains(n) {
            let j = choose|j: int| 0 <= j < names.len() && #[trigger] names[j]@ == n;
            assert(grown[j]@ == n);
        }
        if n == name@ {
            assert(grown[names.len() as int]@ == n);
        }
        if names_of(grown).contains(n) && n != name@ {
            let j = choose|j: int| 0 <= j < grown.len() && #[trigger] grown[j]@ == n;
            assert(names[j]@ == n);
        }
    }
    assert(names_of(grown) =~= names_of(names).insert(name@));
}

} // verus!
