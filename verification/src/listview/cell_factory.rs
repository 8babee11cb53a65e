//! The vendors of a list view's rows, by identifier.

use vstd::prelude::*;

verus! {

#[derive(Debug)]
struct CellVendor<V> {
    identifier: String,
    vendor: V,
}

/// Keeps one vendor per identifier. A vendor makes the behaviour of a new
/// row when the toolkit has none to reuse.
#[derive(Debug)]
pub struct CellFactory<V> {
    vendors: Vec<CellVendor<V>>,
}

impl<V> CellFactory<V> {
    #[verifier::type_invariant]
    spec fn distinct_identifiers(self) -> bool {
        forall|i: int, j: int|
            0 <= i < j < self.vendors.len() ==> (#[trigger] self.vendors[i]).identifier@ != (
            #[trigger] self.vendors[j]).identifier@
    }

    spec fn holds(self, identifier: Seq<char>, i: int) -> bool {
        0 <= i < self.vendors.len() && self.vendors[i].identifier@ == identifier
    }

    pub closed spec fn view(&self) -> Map<Seq<char>, V> {
        Map::new(
            |identifier: Seq<char>| exists|i: int| self.holds(identifier, i),
            |identifier: Seq<char>| self.vendors[choose|i: int| self.holds(identifier, i)].vendor,
        )
    }

    /// The entry that holds an identifier is the one the view speaks of.
    proof fn found_at(self, identifier: Seq<char>, i: int)
        requires
            self.distinct_identifiers(),
            self.holds(identifier, i),
        ensures
            self@.contains_key(identifier),
            self@[identifier] == self.vendors[i].vendor,
    {
        let chosen = choose|j: int| self.holds(identifier, j);
        assert(self.holds(identifier, chosen));
        assert(chosen == i);
    }

    /// Putting an entry at `at`, in place of the entry there or behind the
    /// last, leaves every other identifier as it was.
    proof fn kept_at(self, before: CellFactory<V>, at: int, identifier: Seq<char>)
        requires
            before.distinct_identifiers(),
            self.distinct_identifiers(),
            self.placed(before, at),
            identifier != self.vendors[at].identifier@,
        ensures
            self@.contains_key(identifier) == before@.contains_key(identifier),
            self@.contains_key(identifier) ==> self@[identifier] == before@[identifier],
    {
        if self@.contains_key(identifier) {
            let i = choose|i: int| self.holds(identifier, i);
            assert(self.holds(identifier, i));
            assert(before.holds(identifier, i));
            before.found_at(identifier, i);
            self.found_at(identifier, i);
        }
        if before@.contains_key(identifier) {
            let i = choose|i: int| before.holds(identifier, i);
            assert(before.holds(identifier, i));
            assert(self.holds(identifier, i));
            before.found_at(identifier, i);
            self.found_at(identifier, i);
        }
    }

    /// The entries of `self` are those of `before`, but for the entry at
    /// `at`, which stands in place of one of the same identifier or, where
    /// no entry of `before` has that identifier, behind the last.
    spec fn placed(self, before: CellFactory<V>, at: int) -> bool {
        &&& 0 <= at < self.vendors.len()
        &&& at <= before.vendors.len()
        &&& self.vendors.len() == (if at == before.vendors.len() {
            before.vendors.len() + 1
        } else {
            before.vendors.len() as int
        })
        &&& at < before.vendors.len() ==> before.vendors[at].identifier@ == self.vendors[at].identifier@
        &&& forall|i: int| 0 <= i < self.vendors.len() && i != at ==> self.vendors[i] == before.vendors[i]
        &&& forall|i: int|
            0 <= i < before.vendors.len() && i != at ==> !before.holds(self.vendors[at].identifier@, i)
    }

    /// Putting an entry at `at` is an insert into the view.
    proof fn placed_is_insert(self, before: CellFactory<V>, at: int)
        requires
            before.distinct_identifiers(),
            self.placed(before, at),
        ensures
            self.distinct_identifiers(),
            self@ == before@.insert(self.vendors[at].identifier@, self.vendors[at].vendor),
    {
        let identifier = self.vendors[at].identifier@;
        assert forall|i: int, j: int| 0 <= i < j < self.vendors.len() implies (
        #[trigger] self.vendors[i]).identifier@ != (#[trigger] self.vendors[j]).identifier@ by {
            if i == at {
                assert(!before.holds(identifier, j));
            } else if j == at {
                assert(!before.holds(identifier, i));
            } else {
                assert(self.vendors[i] == before.vendors[i]);
                assert(self.vendors[j] == before.vendors[j]);
            }
        }
        assert(self.holds(identifier, at));
        self.found_at(identifier, at);
        let grown = before@.insert(identifier, self.vendors[at].vendor);
        assert forall|other: Seq<char>| #[trigger]
            self@.contains_key(other) <==> grown.contains_key(other) by {
            if other != identifier {
                self.kept_at(before, at, other);
            }
        }
        assert forall|other: Seq<char>| #[trigger] self@.contains_key(other) implies self@[other]
            == grown[other] by {
            if other != identifier {
                self.kept_at(before, at, other);
            }
        }
        assert(self@ =~= grown);
    }

    /// A factory without vendors.
    pub fn new() -> (factory: CellFactory<V>)
        ensures
            factory@ == Map::<Seq<char>, V>::empty(),
    {
        let factory = CellFactory { vendors: Vec::new() };
        assert(factory@ =~= Map::<Seq<char>, V>::empty());
        factory
    }

    fn position(&self, identifier: &str) -> (found: Option<usize>)
        ensures
            match found {
                Some(i) => self.holds(identifier@, i as int),
                None => forall|i: int| !self.holds(identifier@, i),
            },
    {
        let wanted: String = identifier.to_owned();
        let mut i: usize = 0;
        while i < self.vendors.len()
            invariant
                i <= self.vendors.len(),
                wanted@ == identifier@,
                forall|j: int| 0 <= j < i ==> !self.holds(identifier@, j),
            decreases self.vendors.len() - i,
        {
            if self.vendors[i].identifier == wanted {
                return Some(i);
            }
            i += 1;
        }
        None
    }

    /// Keeps `vendor` for `identifier`, in place of the vendor kept for it
    /// before, if there was one.
    pub fn insert(&mut self, identifier: &str, vendor: V)
        ensures
            final(self)@ == old(self)@.insert(identifier@, vendor),
    {
        proof {
            use_type_invariant(&*self);
        }
        let ghost before = *self;
        let found = self.position(identifier);
        let entry = CellVendor { identifier: identifier.to_owned(), vendor };
        let mut vendors: Vec<CellVendor<V>> = Vec::new();
        std::mem::swap(&mut vendors, &mut self.vendors);
        let ghost at: int = match found {
            Some(i) => i as int,
            None => before.vendors.len() as int,
        };
        match found {
            Some(i) => {
                vendors.set(i, entry);
            },
            None => {
                vendors.push(entry);
            },
        }
        proof {
            let after = CellFactory { vendors };
            assert(after.vendors[at] == entry);
            assert forall|i: int| 0 <= i < before.vendors.len() && i != at implies !before.holds(
                identifier@,
                i,
            ) by {
                if before.holds(identifier@, i) {
                    assert(found is Some);
                    assert(before.holds(identifier@, at));
                }
            }
            assert(after.placed(before, at));
            after.placed_is_insert(before, at);
        }
        self.vendors = vendors;
    }

    /// The vendor kept for `identifier`, if there is one.
    pub fn get(&self, identifier: &str) -> (vendor: Option<&V>)
        ensures
            vendor is Some <==> self@.contains_key(identifier@),
            vendor is Some ==> *vendor->0 == self@[identifier@],
    {
        proof {
            use_type_invariant(self);
        }
        match self.position(identifier) {
            Some(i) => {
                proof {
                    self.found_at(identifier@, i as int);
                }
                Some(&self.vendors[i].vendor)
            },
            None => None,
        }
    }
}

} // verus!
