use vstd::prelude::*;

use crate::models::{views_of, Customer, CustomerView};

verus! {

/// True when `s` holds some record whose guid is `g`.
pub open spec fn contains_guid(s: Seq<CustomerView>, g: Seq<char>) -> bool {
    exists|i: int| 0 <= i < s.len() && s[i].guid == g
}

/// True when no two records of `s` share a guid.
pub open spec fn distinct_guids(s: Seq<CustomerView>) -> bool {
    forall|i: int, j: int| 0 <= i < j < s.len() ==> s[i].guid != s[j].guid
}

/// The in-memory collection of customer records, insertion order preserved.
/// At most one record with a given guid is ever present.
pub struct Store {
    customers: Vec<Customer>,
}

impl View for Store {
    type V = Seq<CustomerView>;

    closed spec fn view(&self) -> Seq<CustomerView> {
        views_of(self.customers@)
    }
}

impl Store {
    /// The store's invariant: guids are unique across the collection.
    pub open spec fn wf(&self) -> bool {
        distinct_guids(self@)
    }

    /// An empty store.
    pub fn new() -> (s: Store)
        ensures
            s@ == Seq::<CustomerView>::empty(),
            s.wf(),
    {
        let s = Store { customers: Vec::new() };
        proof {
            assert(s@ =~= Seq::<CustomerView>::empty());
        }
        s
    }

    /// The position of the first record whose guid equals `guid`, if any.
    fn find_index(&self, guid: &String) -> (r: Option<usize>)
        ensures
            match r {
                Some(i) => 0 <= i < self@.len() && self@[i as int].guid == guid@ && forall|k: int|
                    0 <= k < i ==> self@[k].guid != guid@,
                None => !contains_guid(self@, guid@),
            },
    {
        let mut i: usize = 0;
        while i < self.customers.len()
            invariant
                i <= self.customers.len(),
                forall|k: int| 0 <= k < i ==> self@[k].guid != guid@,
            decreases self.customers.len() - i,
        {
            if self.customers[i].guid == *guid {
                return Some(i);
            }
            i = i + 1;
        }
        None
    }

    /// The first record with the given guid, if one is present; under the
    /// store's invariant it is also the only one.
    pub fn find(&self, guid: &String) -> (r: Option<&Customer>)
        ensures
            r is Some <==> contains_guid(self@, guid@),
            r matches Some(c) ==> exists|i: int|
                0 <= i < self@.len() && self@[i].guid == guid@ && c@ == self@[i] && forall|k: int|
                    0 <= k < i ==> self@[k].guid != guid@,
    {
        match self.find_index(guid) {
            Some(i) => Some(&self.customers[i]),
            None => None,
        }
    }

    /// Appends `new_customer` unless a record with its guid already exists;
    /// on a duplicate guid the store is left untouched and `false` comes back.
    pub fn insert(&mut self, new_customer: Customer) -> (ok: bool)
        requires
            old(self).wf(),
        ensures
            final(self).wf(),
            ok <==> !contains_guid(old(self)@, new_customer@.guid),
            ok ==> final(self)@ == old(self)@.push(new_customer@),
            !ok ==> final(self)@ == old(self)@,
    {
        if self.find_index(&new_customer.guid).is_some() {
            return false;
        }
        self.customers.push(new_customer);
        proof {
            assert(self@ =~= old(self)@.push(new_customer@));
        }
        true
    }

    /// A store seeded from the given records, attempted in order: a record
    /// whose guid was already taken by an earlier one is not admitted, so the
    /// guid-uniqueness invariant holds from the start.
    pub fn from_customers(customers: Vec<Customer>) -> (s: Store)
        ensures
            s.wf(),
            s@ == spec_create_all(Seq::<CustomerView>::empty(), views_of(customers@)),
    {
        let ghost all = views_of(customers@);
        let mut s = Store::new();
        let mut i: usize = 0;
        while i < customers.len()
            invariant
                i <= customers.len(),
                s.wf(),
                all == views_of(customers@),
                s@ == spec_create_all(Seq::<CustomerView>::empty(), all.subrange(0, i as int)),
            decreases customers.len() - i,
        {
            proof {
                assert(all.subrange(0, i + 1 as int) =~= all.subrange(0, i as int).push(all[i as int]));
                lemma_create_all_snoc(
                    Seq::<CustomerView>::empty(),
                    all.subrange(0, i as int),
                    all[i as int],
                );
            }
            s.insert(customers[i].clone());
            i = i + 1;
        }
        proof {
            assert(all.subrange(0, customers@.len() as int) =~= all);
        }
        s
    }

    /// A copy of the whole collection, in insertion order.
    pub fn list(&self) -> (r: Vec<Customer>)
        ensures
            views_of(r@) == self@,
    {
        let mut out: Vec<Customer> = Vec::new();
        let mut i: usize = 0;
        while i < self.customers.len()
            invariant
                i <= self.customers.len(),
                out@.len() == i,
                views_of(out@) =~= self@.subrange(0, i as int),
            decreases self.customers.len() - i,
        {
            out.push(self.customers[i].clone());
            proof {
                assert(views_of(out@) =~= self@.subrange(0, i + 1 as int));
            }
            i = i + 1;
        }
        proof {
            assert(views_of(out@) =~= self@);
        }
        out
    }

    /// Overwrites the name, email and address fields of the record whose guid
    /// equals `updated.guid`, leaving the guid itself in place; reports
    /// whether such a record was found. An absent guid leaves the store
    /// unchanged.
    pub fn replace_fields(&mut self, updated: &Customer) -> (found: bool)
        requires
            old(self).wf(),
        ensures
            final(self).wf(),
            found <==> contains_guid(old(self)@, updated@.guid),
            !found ==> final(self)@ == old(self)@,
            found ==> exists|i: int|
                0 <= i < old(self)@.len() && old(self)@[i].guid == updated@.guid
                    && final(self)@ == old(self)@.update(i, updated@),
    {
        match self.find_index(&updated.guid) {
            Some(i) => {
                let fresh = updated.clone();
                self.customers.remove(i);
                self.customers.insert(i, fresh);
                proof {
                    assert(self@ =~= old(self)@.update(i as int, updated@));
                    assert forall|p: int, q: int|
                        0 <= p < q < self@.len() implies self@[p].guid != self@[q].guid by {
                        assert(old(self)@[p].guid != old(self)@[q].guid);
                        if p != i && q != i {
                        } else if p == i {
                            assert(self@[q].guid == old(self)@[q].guid);
                        } else {
                            assert(self@[p].guid == old(self)@[p].guid);
                        }
                    }
                }
                true
            },
            None => false,
        }
    }

    /// Removes the record with the given guid, if present; reports whether a
    /// removal happened. Afterwards no record with that guid remains.
    pub fn delete(&mut self, guid: &String) -> (deleted: bool)
        requires
            old(self).wf(),
        ensures
            final(self).wf(),
            deleted <==> contains_guid(old(self)@, guid@),
            !deleted ==> final(self)@ == old(self)@,
            deleted ==> final(self)@.len() == old(self)@.len() - 1,
            deleted ==> exists|i: int|
                0 <= i < old(self)@.len() && old(self)@[i].guid == guid@
                    && final(self)@ == old(self)@.remove(i),
            !contains_guid(final(self)@, guid@),
    {
        match self.find_index(guid) {
            Some(i) => {
                self.customers.remove(i);
                proof {
                    assert(self@ =~= old(self)@.remove(i as int));
                    assert forall|k: int| 0 <= k < self@.len() implies self@[k].guid != guid@ by {
                        if k < i {
                            assert(self@[k] == old(self)@[k]);
                            assert(old(self)@[k].guid != old(self)@[i as int].guid);
                        } else {
                            assert(self@[k] == old(self)@[k + 1]);
                            assert(old(self)@[i as int].guid != old(self)@[k + 1].guid);
                        }
                    }
                }
                true
            },
            None => false,
        }
    }
}

/// What one create attempt leaves in the store: the record is appended
/// unless its guid is already present, in which case nothing changes.
pub open spec fn spec_create(s: Seq<CustomerView>, c: CustomerView) -> Seq<CustomerView> {
    if contains_guid(s, c.guid) {
        s
    } else {
        s.push(c)
    }
}

/// The store contents after attempting to create each record of `cs` in
/// order, starting from `init`.
pub open spec fn spec_create_all(init: Seq<CustomerView>, cs: Seq<CustomerView>) -> Seq<
    CustomerView,
>
    decreases cs.len(),
{
    if cs.len() == 0 {
        init
    } else {
        spec_create_all(spec_create(init, cs.first()), cs.drop_first())
    }
}

/// Attempting the creates of `cs` and then one more of `c` is the same as
/// attempting `c` on the store the creates of `cs` left behind.
pub proof fn lemma_create_all_snoc(init: Seq<CustomerView>, cs: Seq<CustomerView>, c: CustomerView)
    ensures
        spec_create_all(init, cs.push(c)) == spec_create(spec_create_all(init, cs), c),
    decreases cs.len(),
{
    let snoc = cs.push(c);
    if cs.len() == 0 {
        assert(snoc.first() == c);
        assert(snoc.drop_first() =~= Seq::<CustomerView>::empty());
        assert(spec_create_all(init, snoc) == spec_create_all(spec_create(init, c), snoc.drop_first()));
        assert(spec_create_all(spec_create(init, c), snoc.drop_first()) == spec_create(init, c));
        assert(spec_create_all(init, cs) == init);
    } else {
        assert(snoc.first() == cs.first());
        assert(snoc.drop_first() =~= cs.drop_first().push(c));
        assert(spec_create_all(init, snoc) == spec_create_all(
            spec_create(init, cs.first()),
            cs.drop_first().push(c),
        ));
        lemma_create_all_snoc(spec_create(init, cs.first()), cs.drop_first(), c);
        assert(spec_create_all(init, cs) == spec_create_all(
            spec_create(init, cs.first()),
            cs.drop_first(),
        ));
    }
}

/// Creating records whose guids are pairwise distinct and absent from the
/// starting store makes every create succeed: the records are all appended,
/// in the order they were given.
pub proof fn lemma_create_all_distinct(init: Seq<CustomerView>, cs: Seq<CustomerView>)
    requires
        distinct_guids(cs),
        forall|i: int| 0 <= i < cs.len() ==> !contains_guid(init, cs[i].guid),
    ensures
        spec_create_all(init, cs) == init + cs,
    decreases cs.len(),
{
    if cs.len() == 0 {
        assert(init + cs =~= init);
    } else {
        let c = cs.first();
        assert(!contains_guid(init, cs[0].guid));
        let next = init.push(c);
        assert(spec_create(init, c) == next);
        let rest = cs.drop_first();
        assert forall|i: int| 0 <= i < rest.len() implies !contains_guid(next, rest[i].guid) by {
            assert(rest[i] == cs[i + 1]);
            assert(!contains_guid(init, cs[i + 1].guid));
            assert(cs[0].guid != cs[i + 1].guid);
            assert forall|k: int| 0 <= k < next.len() implies next[k].guid != rest[i].guid by {
                if k < init.len() {
                    assert(next[k] == init[k]);
                } else {
                    assert(next[k] == c);
                }
            }
        }
        lemma_create_all_distinct(next, rest);
        assert(next + rest =~= init + cs);
    }
}

/// Starting from an empty store, creating records with pairwise distinct
/// guids leaves exactly those records, in insertion order, so a subsequent
/// list returns them all: no create is lost and none is refused.
pub proof fn lemma_creates_then_list(cs: Seq<CustomerView>)
    requires
        distinct_guids(cs),
    ensures
        spec_create_all(Seq::<CustomerView>::empty(), cs) == cs,
{
    lemma_create_all_distinct(Seq::<CustomerView>::empty(), cs);
    assert(Seq::<CustomerView>::empty() + cs =~= cs);
}

} // verus!

