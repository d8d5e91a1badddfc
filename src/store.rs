use vstd::prelude::*;

verus! {

/// One billable obligation: a name that identifies it and an amount.
/// The amount type is left to the caller (the console program uses `f64`).
pub struct Bill<A> {
    name: String,
    amount: A,
}

impl<A> View for Bill<A> {
    type V = (Seq<char>, A);

    closed spec fn view(&self) -> (Seq<char>, A) {
        (self.name@, self.amount)
    }
}

impl<A> Bill<A> {
    pub fn new(name: String, amount: A) -> (b: Self)
        ensures
            b@ == (name@, amount),
    {
        Bill { name, amount }
    }

    pub fn name(&self) -> (r: &str)
        ensures
            r@ == self@.0,
    {
        self.name.as_str()
    }

    pub fn amount(&self) -> (r: &A)
        ensures
            *r == self@.1,
    {
        &self.amount
    }
}

/// `r` holds each bill of `m` exactly once, as (name, amount) pairs, in no
/// particular order.
pub open spec fn lists<A>(r: Seq<(Seq<char>, A)>, m: Map<Seq<char>, A>) -> bool {
    &&& forall|i: int| 0 <= i < r.len() ==> #[trigger] m.contains_key(r[i].0) && m[r[i].0] == r[i].1
    &&& forall|i: int, j: int|
        0 <= i < r.len() && 0 <= j < r.len() && i != j ==> #[trigger] r[i].0 != #[trigger] r[j].0
    &&& forall|k: Seq<char>| #[trigger] m.contains_key(k) ==> exists|i: int| 0 <= i < r.len() && #[trigger] r[i].0 == k
}

/// The (name, amount) pairs of a listing.
pub open spec fn entries<A>(r: Seq<&Bill<A>>) -> Seq<(Seq<char>, A)> {
    r.map_values(|b: &Bill<A>| b@)
}

/// Each listed bill is in the map with its amount.
spec fn agrees<A>(items: Seq<Bill<A>>, m: Map<Seq<char>, A>) -> bool {
    forall|i: int|
        0 <= i < items.len() ==> #[trigger] m.contains_key(items[i]@.0) && m[items[i]@.0]
            == items[i]@.1
}

/// No two listed bills share a name.
spec fn names_distinct<A>(items: Seq<Bill<A>>) -> bool {
    forall|i: int, j: int|
        0 <= i < items.len() && 0 <= j < items.len() && i != j ==> #[trigger] items[i]@.0
            != #[trigger] items[j]@.0
}

/// Every name of the map is listed.
spec fn covers<A>(items: Seq<Bill<A>>, m: Map<Seq<char>, A>) -> bool {
    forall|k: Seq<char>|
        #[trigger] m.contains_key(k) ==> exists|i: int| 0 <= i < items.len() && #[trigger] items[i]@.0 == k
}

spec fn consistent<A>(items: Seq<Bill<A>>, m: Map<Seq<char>, A>) -> bool {
    agrees(items, m) && names_distinct(items) && covers(items, m)
}

/// The store: at most one bill per name, viewed as a map from name to amount.
pub struct Bills<A> {
    items: Vec<Bill<A>>,
    model: Ghost<Map<Seq<char>, A>>,
}

impl<A> View for Bills<A> {
    type V = Map<Seq<char>, A>;

    closed spec fn view(&self) -> Map<Seq<char>, A> {
        self.model@
    }
}

impl<A> Bills<A> {
    #[verifier::type_invariant]
    closed spec fn well_formed(&self) -> bool {
        consistent(self.items@, self.model@)
    }

    pub fn new() -> (s: Self)
        ensures
            s@ == Map::<Seq<char>, A>::empty(),
    {
        Bills { items: Vec::new(), model: Ghost(Map::empty()) }
    }

    /// Stores `bill` under its name, replacing whole any bill of that name.
    pub fn add(&mut self, bill: Bill<A>)
        ensures
            final(self)@ == old(self)@.insert(bill@.0, bill@.1),
    {
        proof {
            use_type_invariant(&*self);
        }
        let pos = self.position(&bill.name);
        let mut this = Bills::new();
        std::mem::swap(self, &mut this);
        proof {
            use_type_invariant(&this);
        }
        let Bills { mut items, model } = this;
        let ghost m = model@.insert(bill@.0, bill@.1);
        let ghost before = items@;
        match pos {
            Some(i) => {
                items[i] = bill;
                assert forall|k: Seq<char>| #[trigger] m.contains_key(k) implies exists|j: int|
                    0 <= j < items@.len() && #[trigger] items@[j]@.0 == k by {
                    if k != items@[i as int]@.0 {
                        let j = choose|j: int| 0 <= j < before.len() && #[trigger] before[j]@.0 == k;
                        assert(items@[j]@.0 == k);
                    }
                }
            },
            None => {
                items.push(bill);
                assert forall|k: Seq<char>| #[trigger] m.contains_key(k) implies exists|j: int|
                    0 <= j < items@.len() && #[trigger] items@[j]@.0 == k by {
                    if k == bill@.0 {
                        assert(items@[before.len() as int]@.0 == k);
                    } else {
                        let j = choose|j: int| 0 <= j < before.len() && #[trigger] before[j]@.0 == k;
                        assert(items@[j]@.0 == k);
                    }
                }
            },
        }
        assert(agrees(items@, m));
        assert(names_distinct(items@));
        assert(covers(items@, m));
        *self = Bills { items, model: Ghost(m) };
    }

    /// Deletes the bill named `name`; tells whether there was one.
    pub fn remove(&mut self, name: &str) -> (found: bool)
        ensures
            found == old(self)@.contains_key(name@),
            final(self)@ == old(self)@.remove(name@),
    {
        proof {
            use_type_invariant(&*self);
        }
        let key = name.to_owned();
        let pos = self.position(&key);
        match pos {
            None => {
                assert(self@.remove(name@) =~= self@);
                false
            },
            Some(i) => {
                let mut this = Bills::new();
                std::mem::swap(self, &mut this);
                proof {
                    use_type_invariant(&this);
                }
                let Bills { mut items, model } = this;
                let ghost m = model@.remove(name@);
                let ghost before = items@;
                items.remove(i);
                assert forall|k: Seq<char>| #[trigger] m.contains_key(k) implies exists|j: int|
                    0 <= j < items@.len() && #[trigger] items@[j]@.0 == k by {
                    let j = choose|j: int| 0 <= j < before.len() && #[trigger] before[j]@.0 == k;
                    if j < i {
                        assert(items@[j]@.0 == k);
                    } else {
                        assert(items@[j - 1]@.0 == k);
                    }
                }
                assert(agrees(items@, m));
        assert(names_distinct(items@));
        assert(covers(items@, m));
        *self = Bills { items, model: Ghost(m) };
                true
            },
        }
    }

    /// Sets the amount of the bill named `name`, if there is one; tells whether
    /// there was. Without such a bill the store is left as it was.
    pub fn update(&mut self, name: &str, amount: A) -> (found: bool)
        ensures
            found == old(self)@.contains_key(name@),
            final(self)@ == if found {
                old(self)@.insert(name@, amount)
            } else {
                old(self)@
            },
    {
        proof {
            use_type_invariant(&*self);
        }
        let key = name.to_owned();
        let pos = self.position(&key);
        match pos {
            None => false,
            Some(i) => {
                let mut this = Bills::new();
                std::mem::swap(self, &mut this);
                proof {
                    use_type_invariant(&this);
                }
                let Bills { mut items, model } = this;
                let ghost m = model@.insert(name@, amount);
                let ghost before = items@;
                let old_bill = items.remove(i);
                items.insert(i, Bill { name: old_bill.name, amount });
                assert(items@ =~= before.update(i as int, items@[i as int]));
                assert forall|k: Seq<char>| #[trigger] m.contains_key(k) implies exists|j: int|
                    0 <= j < items@.len() && #[trigger] items@[j]@.0 == k by {
                    let j = choose|j: int| 0 <= j < before.len() && #[trigger] before[j]@.0 == k;
                    assert(items@[j]@.0 == k);
                }
                assert(agrees(items@, m));
        assert(names_distinct(items@));
        assert(covers(items@, m));
        *self = Bills { items, model: Ghost(m) };
                true
            },
        }
    }

    /// Every bill of the store, each once.
    pub fn list(&self) -> (r: Vec<&Bill<A>>)
        ensures
            lists(entries(r@), self@),
    {
        proof {
            use_type_invariant(self);
        }
        let mut r: Vec<&Bill<A>> = Vec::new();
        let mut i: usize = 0;
        while i < self.items.len()
            invariant
                i <= self.items@.len(),
                r@.len() == i,
                forall|j: int| 0 <= j < i ==> #[trigger] r@[j]@ == self.items@[j]@,
            decreases self.items@.len() - i,
        {
            r.push(&self.items[i]);
            i = i + 1;
        }
        let ghost e = entries(r@);
        assert forall|j: int| 0 <= j < e.len() implies e[j] == #[trigger] self.items@[j]@ by {}
        assert forall|k: Seq<char>| #[trigger] self@.contains_key(k) implies exists|j: int|
            0 <= j < e.len() && #[trigger] e[j].0 == k by {
            let j = choose|j: int| 0 <= j < self.items@.len() && #[trigger] self.items@[j]@.0 == k;
            assert(e[j].0 == k);
        }
        r
    }

    /// The index of the bill named `name`, if there is one.
    fn position(&self, name: &String) -> (r: Option<usize>)
        ensures
            match r {
                Some(i) => i < self.items@.len() && self.items@[i as int]@.0 == name@,
                None => !self@.contains_key(name@),
            },
    {
        proof {
            use_type_invariant(self);
        }
        let mut i: usize = 0;
        while i < self.items.len()
            invariant
                i <= self.items@.len(),
                forall|j: int| 0 <= j < i ==> #[trigger] self.items@[j]@.0 != name@,
            decreases self.items@.len() - i,
        {
            if self.items[i].name == *name {
                return Some(i);
            }
            i = i + 1;
        }
        None
    }
}

impl<A> Default for Bills<A> {
    fn default() -> (s: Self)
        ensures
            s@ == Map::<Seq<char>, A>::empty(),
    {
        Bills::new()
    }
}

/// Adding two bills under one name, one after the other, leaves exactly one
/// record of that name in any listing of the store, and it carries the amount
/// of the later bill.
pub proof fn add_twice_keeps_last<A>(
    m: Map<Seq<char>, A>,
    name: Seq<char>,
    first: A,
    second: A,
    r: Seq<(Seq<char>, A)>,
)
    requires
        lists(r, m.insert(name, first).insert(name, second)),
    ensures
        exists|i: int| 0 <= i < r.len() && r[i] == (name, second),
        forall|i: int, j: int|
            0 <= i < r.len() && 0 <= j < r.len() && r[i].0 == name && r[j].0 == name ==> i == j,
{
    let after = m.insert(name, first).insert(name, second);
    assert(after.contains_key(name));
    let i = choose|i: int| 0 <= i < r.len() && #[trigger] r[i].0 == name;
    assert(r[i] == (name, second));
}

/// Once a name has been removed, no listing of the store shows it.
pub proof fn removed_is_not_listed<A>(m: Map<Seq<char>, A>, name: Seq<char>, r: Seq<(Seq<char>, A)>)
    requires
        lists(r, m.remove(name)),
    ensures
        forall|i: int| 0 <= i < r.len() ==> r[i].0 != name,
{
    assert forall|i: int| 0 <= i < r.len() implies r[i].0 != name by {
        assert(m.remove(name).contains_key(r[i].0));
    }
}

/// Two listings of one store hold the same records.
pub proof fn listing_is_stable<A>(m: Map<Seq<char>, A>, r1: Seq<(Seq<char>, A)>, r2: Seq<(Seq<char>, A)>)
    requires
        lists(r1, m),
        lists(r2, m),
    ensures
        r1.to_set() == r2.to_set(),
{
    listed_in(m, r1, r2);
    listed_in(m, r2, r1);
    assert(r1.to_set() =~= r2.to_set());
}

proof fn listed_in<A>(m: Map<Seq<char>, A>, r1: Seq<(Seq<char>, A)>, r2: Seq<(Seq<char>, A)>)
    requires
        lists(r1, m),
        lists(r2, m),
    ensures
        forall|x: (Seq<char>, A)| r1.contains(x) ==> r2.contains(x),
{
    assert forall|x: (Seq<char>, A)| r1.contains(x) implies r2.contains(x) by {
        let i = choose|i: int| 0 <= i < r1.len() && r1[i] == x;
        assert(m.contains_key(r1[i].0));
        let j = choose|j: int| 0 <= j < r2.len() && #[trigger] r2[j].0 == x.0;
        assert(r2[j] == x);
    }
}

} // verus!
