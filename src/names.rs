//! A set of names: the allowed environments, services or namespaces of a
//! token.

use vstd::prelude::*;
use vstd::string::*;

verus! {

/// A finite set of names, compared by their characters.
#[derive(Debug, PartialEq, Eq)]
pub struct NameSet {
    items: Vec<String>,
}

impl View for NameSet {
    type V = Set<Seq<char>>;

    closed spec fn view(&self) -> Set<Seq<char>> {
        Set::new(|n: Seq<char>| exists|i: int| 0 <= i < self.items@.len() && #[trigger] self.items@[i]@ == n)
    }
}

impl Clone for NameSet {
    fn clone(&self) -> (r: Self)
        ensures
            r@ == self@,
    {
        let r = NameSet { items: self.items.clone() };
        assert(forall|i: int| 0 <= i < self.items@.len() ==> r.items@[i] == self.items@[i]);
        assert(r@ =~= self@);
        r
    }
}

impl NameSet {
    /// The empty set: a constraint that admits nothing.
    pub fn new() -> (r: Self)
        ensures
            r@ == Set::<Seq<char>>::empty(),
    {
        let r = NameSet { items: Vec::new() };
        assert(r@ =~= Set::<Seq<char>>::empty());
        r
    }

    /// The set of the given names.
    pub fn from_names(names: Vec<String>) -> (r: Self)
        ensures
            forall|n: Seq<char>| #[trigger] r@.contains(n) <==> exists|i: int|
                0 <= i < names@.len() && names@[i]@ == n,
    {
        NameSet { items: names }
    }

    /// Adds a name.
    pub fn insert(&mut self, name: String)
        ensures
            final(self)@ == old(self)@.insert(name@),
    {
        let ghost n = name@;
        self.items.push(name);
        assert forall|m: Seq<char>| #[trigger] final(self)@.contains(m) == old(self)@.insert(n).contains(m) by {
            if m == n {
                assert(self.items@[self.items@.len() - 1]@ == n);
            }
            if old(self)@.contains(m) {
                let i = choose|i: int| 0 <= i < old(self).items@.len() && #[trigger] old(self).items@[i]@ == m;
                assert(self.items@[i]@ == m);
            }
        }
        assert(final(self)@ =~= old(self)@.insert(n));
    }

    /// Whether `name` is in the set.
    pub fn contains(&self, name: &str) -> (r: bool)
        ensures
            r == self@.contains(name@),
    {
        let n = String::from_str(name);
        let mut i: usize = 0;
        while i < self.items.len()
            invariant
                n@ == name@,
                i <= self.items@.len(),
                forall|j: int| 0 <= j < i ==> #[trigger] self.items@[j]@ != name@,
            decreases self.items@.len() - i,
        {
            if self.items[i] == n {
                assert(self.items@[i as int]@ == name@);
                return true;
            }
            i = i + 1;
        }
        assert(!self@.contains(name@));
        false
    }

    /// The names, each once or more, in no particular order.
    pub fn names(&self) -> (r: Vec<String>)
        ensures
            forall|n: Seq<char>| #[trigger] self@.contains(n) <==> exists|i: int|
                0 <= i < r@.len() && r@[i]@ == n,
    {
        let r = self.items.clone();
        assert(forall|i: int| 0 <= i < self.items@.len() ==> r@[i] == self.items@[i]);
        r
    }
}

} // verus!
