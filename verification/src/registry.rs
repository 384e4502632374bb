//! Things by name.
use crate::text;
use vstd::prelude::*;

verus! {

/// Things by name, each name once.
pub struct Registry<P> {
    entries: Vec<(String, P)>,
}

/// The position of a name in the list, or the length of the list.
spec fn place<P>(v: Seq<(String, P)>, id: Seq<char>) -> int
    decreases v.len(),
{
    if v.len() == 0 {
        0
    } else if v[0].0@ == id {
        0
    } else {
        1 + place(v.drop_first(), id)
    }
}

proof fn lemma_place<P>(v: Seq<(String, P)>, id: Seq<char>)
    ensures
        0 <= place(v, id) <= v.len(),
        place(v, id) < v.len() ==> v[place(v, id)].0@ == id,
        forall|i: int| 0 <= i < place(v, id) ==> (#[trigger] v[i]).0@ != id,
    decreases v.len(),
{
    if v.len() > 0 && v[0].0@ != id {
        let w = v.drop_first();
        lemma_place(w, id);
        assert forall|i: int| 0 <= i < place(v, id) implies (#[trigger] v[i]).0@ != id by {
            if i > 0 {
                assert(w[i - 1] == v[i]);
            }
        }
        if place(v, id) < v.len() {
            assert(w[place(w, id)] == v[place(v, id)]);
        }
    }
}

proof fn lemma_place_unique<P>(v: Seq<(String, P)>, id: Seq<char>, i: int)
    requires
        0 <= i < v.len(),
        v[i].0@ == id,
        forall|j: int, k: int|
            0 <= j < k < v.len() ==> (#[trigger] v[j]).0@ != (#[trigger] v[k]).0@,
    ensures
        place(v, id) == i,
{
    lemma_place(v, id);
}

impl<P> Registry<P> {
    /// No name occurs twice.
    #[verifier::type_invariant]
    spec fn distinct(self) -> bool {
        forall|j: int, k: int|
            0 <= j < k < self.entries@.len() ==> (#[trigger] self.entries@[j]).0@ != (
            #[trigger] self.entries@[k]).0@
    }

    /// The thing of a name.
    pub closed spec fn entry(self, id: Seq<char>) -> Option<P> {
        let i = place(self.entries@, id);
        if i < self.entries@.len() {
            Some(self.entries@[i].1)
        } else {
            None
        }
    }

    /// A registry without entries.
    pub fn new() -> (r: Self)
        ensures
            forall|id: Seq<char>| #[trigger] r.entry(id) is None,
    {
        let entries: Vec<(String, P)> = Vec::new();
        Registry { entries }
    }

    fn find(&self, id: &str) -> (r: usize)
        ensures
            r == place(self.entries@, id@),
            r <= self.entries@.len(),
    {
        let ghost v = self.entries@;
        let mut i: usize = 0;
        assert(v.skip(0) =~= v);
        while i < self.entries.len()
            invariant
                i <= self.entries@.len(),
                v == self.entries@,
                place(v, id@) == i + place(v.skip(i as int), id@),
            decreases self.entries@.len() - i,
        {
            assert(v.skip(i as int)[0] == v[i as int]);
            assert(v.skip(i as int).drop_first() =~= v.skip(i as int + 1));
            if text::same(self.entries[i].0.as_str(), id) {
                return i;
            }
            i += 1;
        }
        assert(v.skip(i as int).len() == 0);
        i
    }

    /// Puts a thing under a name, in place of the one that was there.
    pub fn register(&mut self, id: &str, thing: P)
        ensures
            final(self).entry(id@) == Some(thing),
            forall|x: Seq<char>| #[trigger]
                final(self).entry(x) == if x == id@ {
                    Some(thing)
                } else {
                    old(self).entry(x)
                },
    {
        proof {
            use_type_invariant(&*self);
        }
        let ghost before = self.entries@;
        let i = self.find(id);
        proof {
            lemma_place(before, id@);
        }
        let n = self.entries.len();
        let entry = (id.to_string(), thing);
        let mut entries: Vec<(String, P)> = Vec::new();
        std::mem::swap(&mut entries, &mut self.entries);
        if i < n {
            entries.set(i, entry);
        } else {
            entries.push(entry);
        }
        let ghost after = entries@;
        proof {
            assert forall|j: int, k: int| 0 <= j < k < after.len() implies (
            #[trigger] after[j]).0@ != (#[trigger] after[k]).0@ by {
                if j < before.len() {
                    assert(before[j].0@ == before[j].0@);
                }
                if k < before.len() {
                    assert(before[k].0@ == before[k].0@);
                }
            }
        }
        self.entries = entries;
        proof {
            assert forall|x: Seq<char>| #[trigger]
                self.entry(x) == if x == id@ {
                    Some(thing)
                } else {
                    old(self).entry(x)
                } by {
                lemma_place(before, x);
                lemma_place(after, x);
                let p = place(before, x);
                let q = place(after, x);
                if x == id@ {
                    lemma_place_unique(after, x, i as int);
                } else if p < before.len() {
                    assert(after[p].0@ == x);
                    lemma_place_unique(after, x, p);
                } else if q < after.len() {
                    assert(q != i);
                    assert(before[q].0@ == x);
                }
            }
        }
    }

    /// The thing of a name.
    pub fn get(&self, id: &str) -> (r: Option<&P>)
        ensures
            match r {
                Some(p) => self.entry(id@) == Some(*p),
                None => self.entry(id@) is None,
            },
    {
        let i = self.find(id);
        if i < self.entries.len() {
            Some(&self.entries[i].1)
        } else {
            None
        }
    }

    /// The entries with their names, each name once, in no order that callers
    /// may rely on.
    pub fn entries(&self) -> (r: Vec<(&str, &P)>)
        ensures
            forall|i: int, j: int|
                0 <= i < j < r@.len() ==> (#[trigger] r@[i]).0@ != (#[trigger] r@[j]).0@,
            forall|i: int|
                0 <= i < r@.len() ==> self.entry((#[trigger] r@[i]).0@) == Some(*r@[i].1),
            forall|id: Seq<char>| #[trigger]
                self.entry(id) is Some ==> exists|i: int|
                    0 <= i < r@.len() && (#[trigger] r@[i]).0@ == id,
    {
        proof {
            use_type_invariant(self);
        }
        let mut r: Vec<(&str, &P)> = Vec::new();
        let mut i: usize = 0;
        while i < self.entries.len()
            invariant
                i <= self.entries@.len(),
                r@.len() == i,
                forall|k: int|
                    0 <= k < i ==> (#[trigger] r@[k]).0@ == self.entries@[k].0@ && *r@[k].1
                        == self.entries@[k].1,
            decreases self.entries@.len() - i,
        {
            r.push((self.entries[i].0.as_str(), &self.entries[i].1));
            i += 1;
        }
        proof {
            let v = self.entries@;
            assert forall|a: int, b: int| 0 <= a < b < r@.len() implies (
            #[trigger] r@[a]).0@ != (#[trigger] r@[b]).0@ by {
                assert(v[a].0@ != v[b].0@);
            }
            assert forall|k: int| 0 <= k < r@.len() implies self.entry((#[trigger] r@[k]).0@)
                == Some(*r@[k].1) by {
                lemma_place_unique(v, v[k].0@, k);
            }
            assert forall|id: Seq<char>| #[trigger] self.entry(id) is Some implies exists|k: int|
                0 <= k < r@.len() && (#[trigger] r@[k]).0@ == id by {
                lemma_place(v, id);
                let k = place(v, id);
                assert(r@[k].0@ == id);
            }
        }
        r
    }
}

/// What was put under a name is found there, in place of what was there before;
/// under every other name nothing changes.
pub proof fn law_registered_things_are_found<P>(
    reg: &mut Registry<P>,
    id: &str,
    thing: P,
    name: &str,
    before: Option<&P>,
    after: Option<&P>,
)
    requires
        call_ensures(Registry::<P>::register, (reg, id, thing), ()),
        call_ensures(Registry::<P>::get, (&*old(reg), name), before),
        call_ensures(Registry::<P>::get, (&*final(reg), name), after),
    ensures
        name@ == id@ ==> after == Some(&thing),
        name@ != id@ ==> after == before,
{
    assert(final(reg).entry(name@) == if name@ == id@ {
        Some(thing)
    } else {
        old(reg).entry(name@)
    });
}

/// A fresh registry has nothing under any name.
pub proof fn law_a_fresh_registry_is_empty<P>(
    reg: Registry<P>,
    id: &str,
    r: Option<&P>,
    all: Vec<(&str, &P)>,
)
    requires
        call_ensures(Registry::<P>::new, (), reg),
        call_ensures(Registry::<P>::get, (&reg, id), r),
        call_ensures(Registry::<P>::entries, (&reg,), all),
    ensures
        r is None,
        all@.len() == 0,
{
    if all@.len() > 0 {
        assert(reg.entry(all@[0].0@) is Some);
    }
}

/// The list of entries has what is found under each name, and each name once.
pub proof fn law_entries_are_what_is_found<P>(
    reg: Registry<P>,
    all: Vec<(&str, &P)>,
    name: &str,
    r: Option<&P>,
    i: int,
)
    requires
        call_ensures(Registry::<P>::entries, (&reg,), all),
        call_ensures(Registry::<P>::get, (&reg, name), r),
        0 <= i < all@.len(),
    ensures
        all@[i].0@ == name@ ==> r == Some(all@[i].1),
        forall|j: int| 0 <= j < all@.len() && j != i ==> (#[trigger] all@[j]).0@ != all@[i].0@,
{
    assert forall|j: int| 0 <= j < all@.len() && j != i implies (#[trigger] all@[j]).0@
        != all@[i].0@ by {
        if j < i {
            assert(all@[j].0@ != all@[i].0@);
        } else {
            assert(all@[i].0@ != all@[j].0@);
        }
    }
}

} // verus!
