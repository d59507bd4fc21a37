//! An interning cache: at most one long-lived value per type identity,
//! installed on first use and never replaced.

use crate::type_id::TypeId;
use vstd::prelude::*;

verus! {

/// Calls `Box::leak`, which gives up ownership of the boxed value and returns
/// a reference to it that stays valid for the rest of the process.
#[verifier::external_body]
pub(crate) fn leak<T: 'static>(value: Box<T>) -> (leaked: &'static T)
    ensures
        *leaked == *value,
{
    Box::leak(value)
}

/// The map that a sequence of entries stands for: each entry binds its key,
/// later entries over earlier ones.
spec fn entries_map<T>(entries: Seq<(TypeId<'static>, &'static T)>) -> Map<
    TypeId<'static>,
    T,
>
    decreases entries.len(),
{
    if entries.len() == 0 {
        Map::empty()
    } else {
        entries_map(entries.drop_last()).insert(entries.last().0, *entries.last().1)
    }
}

/// Whether no key occurs twice among the entries.
spec fn distinct_keys<T>(entries: Seq<(TypeId<'static>, &'static T)>) -> bool {
    forall|i: int, j: int|
        0 <= i < j < entries.len() ==> (#[trigger] entries[i]).0 != (#[trigger] entries[j]).0
}

/// Whether some entry holds the key.
spec fn holds_key<T>(entries: Seq<(TypeId<'static>, &'static T)>, key: TypeId<'static>) -> bool
{
    exists|i: int| 0 <= i < entries.len() && (#[trigger] entries[i]).0 == key
}

/// A key is bound by the map of some entries exactly when one of them holds
/// it, and with distinct keys it is bound to that entry's value.
proof fn lemma_entries_map<T>(entries: Seq<(TypeId<'static>, &'static T)>)
    ensures
        forall|key: TypeId<'static>|
            #![trigger entries_map(entries).contains_key(key)]
            entries_map(entries).contains_key(key) <==> holds_key(entries, key),
        distinct_keys(entries) ==> forall|i: int|
            0 <= i < entries.len() ==> entries_map(entries)[(#[trigger] entries[i]).0]
                == *entries[i].1,
    decreases entries.len(),
{
    if entries.len() > 0 {
        let init = entries.drop_last();
        let last = entries.last();
        lemma_entries_map(init);
        assert forall|key: TypeId<'static>|
            #![trigger entries_map(entries).contains_key(key)]
            entries_map(entries).contains_key(key) <==> holds_key(entries, key) by {
            if entries_map(entries).contains_key(key) {
                if key == last.0 {
                    assert(entries[entries.len() - 1].0 == key);
                } else {
                    assert(entries_map(init).contains_key(key));
                    assert(holds_key(init, key));
                    let i = choose|i: int| 0 <= i < init.len() && (#[trigger] init[i]).0 == key;
                    assert(entries[i].0 == key);
                }
            }
            if holds_key(entries, key) {
                let i = choose|i: int| 0 <= i < entries.len() && (#[trigger] entries[i]).0 == key;
                if i < init.len() {
                    assert(init[i].0 == key);
                    assert(holds_key(init, key));
                    assert(entries_map(init).contains_key(key));
                }
            }
        }
        if distinct_keys(entries) {
            assert forall|i: int, j: int| 0 <= i < j < init.len() implies (#[trigger] init[i]).0
                != (#[trigger] init[j]).0 by {
                assert(entries[i].0 != entries[j].0);
            }
            assert forall|i: int| 0 <= i < entries.len() implies entries_map(entries)[(
                #[trigger] entries[i]).0] == *entries[i].1 by {
                if i < init.len() {
                    assert(init[i].0 == entries[i].0);
                    assert(entries[i].0 != entries[entries.len() - 1].0);
                    assert(entries_map(init)[init[i].0] == *init[i].1);
                }
            }
        }
    } else {
        assert forall|key: TypeId<'static>|
            #![trigger entries_map(entries).contains_key(key)]
            !holds_key(entries, key) by {}
    }
}

/// How a request for `key` that yields `value` takes the installed values from
/// `before` to `after`: an installed key yields its value and changes nothing,
/// a new key is installed with the value that the request yields.
pub open spec fn requested<T>(
    before: Map<TypeId<'static>, T>,
    key: TypeId<'static>,
    value: T,
    after: Map<TypeId<'static>, T>,
) -> bool {
    if before.contains_key(key) {
        value == before[key] && after == before
    } else {
        after == before.insert(key, value)
    }
}

/// Of two requests for one key, the second yields the value of the first and
/// leaves the cache as the first left it, whatever it would have computed.
pub proof fn lemma_first_request_wins<T>(
    before: Map<TypeId<'static>, T>,
    between: Map<TypeId<'static>, T>,
    after: Map<TypeId<'static>, T>,
    key: TypeId<'static>,
    first: T,
    second: T,
)
    requires
        requested(before, key, first, between),
        requested(between, key, second, after),
    ensures
        second == first,
        after == between,
        after.contains_key(key),
        after[key] == first,
{
}

/// Whether `values` are what a run of requests for one key yields, one after
/// the other, with `caches[i]` the installed values before request `i` and
/// `caches[i + 1]` those after it.
pub open spec fn run_of_requests<T>(
    caches: Seq<Map<TypeId<'static>, T>>,
    key: TypeId<'static>,
    values: Seq<T>,
) -> bool {
    &&& caches.len() == values.len() + 1
    &&& forall|i: int|
        0 <= i < values.len() ==> requested(#[trigger] caches[i], key, values[i], caches[i + 1])
}

/// However many requests are made for one key, one after the other, every
/// one of them yields the value that the first one yielded, and the cache
/// stays as the first one left it.
pub proof fn lemma_all_requests_observe_the_first<T>(
    caches: Seq<Map<TypeId<'static>, T>>,
    key: TypeId<'static>,
    values: Seq<T>,
    n: int,
)
    requires
        run_of_requests(caches, key, values),
        0 <= n < values.len(),
    ensures
        values[n] == values[0],
        caches[n + 1] == caches[1],
        caches[n + 1].contains_key(key),
        caches[n + 1][key] == values[0],
    decreases n,
{
    assert(requested(caches[0], key, values[0], caches[1]));
    if n > 0 {
        lemma_all_requests_observe_the_first(caches, key, values, n - 1);
        assert(requested(caches[n], key, values[n], caches[n + 1]));
    }
}

/// A request never removes a key and never changes the value of a key that
/// was installed before it.
pub proof fn lemma_request_keeps_installed<T>(
    before: Map<TypeId<'static>, T>,
    after: Map<TypeId<'static>, T>,
    key: TypeId<'static>,
    value: T,
    other: TypeId<'static>,
)
    requires
        requested(before, key, value, after),
        before.contains_key(other),
    ensures
        after.contains_key(other),
        after[other] == before[other],
{
}

/// The refusal to install a value under a key that already has one.
#[derive(Clone, Copy, Debug, PartialEq, Eq, Structural)]
pub struct Reinitialized;

/// An interning cache keyed by type identity. A key, once installed, keeps its
/// value for as long as the cache lives.
pub struct StaticTypeMap<T: 'static> {
    entries: Vec<(TypeId<'static>, &'static T)>,
}

impl<T: 'static> StaticTypeMap<T> {
    #[verifier::type_invariant]
    spec fn distinct(&self) -> bool {
        distinct_keys(self.entries@)
    }

    /// The installed values by key.
    pub closed spec fn view(&self) -> Map<TypeId<'static>, T> {
        entries_map(self.entries@)
    }

    /// An empty cache.
    pub fn new() -> (map: Self)
        ensures
            map@ == Map::<TypeId<'static>, T>::empty(),
    {
        StaticTypeMap { entries: Vec::new() }
    }

    /// The value installed under a key, if there is one.
    pub fn get(&self, key: &TypeId<'static>) -> (found: Option<&'static T>)
        ensures
            found is Some <==> self@.contains_key(*key),
            found is Some ==> *found.unwrap() == self@[*key],
    {
        let mut i: usize = 0;
        while i < self.entries.len()
            invariant
                i <= self.entries@.len(),
                forall|k: int| 0 <= k < i ==> (#[trigger] self.entries@[k]).0 != *key,
            decreases self.entries@.len() - i,
        {
            if self.entries[i].0 == *key {
                proof {
                    use_type_invariant(self);
                    lemma_entries_map(self.entries@);
                    assert(self.entries@[i as int].0 == *key);
                    assert(holds_key(self.entries@, *key));
                }
                return Some(self.entries[i].1);
            }
            i += 1;
        }
        proof {
            lemma_entries_map(self.entries@);
        }
        None
    }

    /// Installs a value under a key that has none.
    fn add(&mut self, key: TypeId<'static>, value: T) -> (installed: &'static T)
        requires
            !old(self)@.contains_key(key),
        ensures
            *installed == value,
            final(self)@ == old(self)@.insert(key, value),
    {
        let installed = leak(Box::new(value));
        proof {
            use_type_invariant(&*self);
            lemma_entries_map(self.entries@);
        }
        let mut entries = Vec::new();
        core::mem::swap(&mut entries, &mut self.entries);
        entries.push((key, installed));
        assert(entries@.drop_last() == old(self).entries@);
        self.entries = entries;
        installed
    }

    /// Installs a value under a key that has none, and returns the installed
    /// value. A key that has a value keeps it: the attempt is refused and the
    /// cache is left as it is.
    pub fn install(&mut self, key: TypeId<'static>, value: T) -> (installed: Result<
        &'static T,
        Reinitialized,
    >)
        ensures
            installed is Ok <==> !old(self)@.contains_key(key),
            installed is Ok ==> *installed.unwrap() == value && final(self)@ == old(self)@.insert(
                key,
                value,
            ),
            installed is Err ==> final(self)@ == old(self)@,
    {
        match self.get(&key) {
            Some(_) => Err(Reinitialized),
            None => Ok(self.add(key, value)),
        }
    }

    /// Returns the value installed under the key. The first request for a key
    /// computes the value with `f` and installs it; every later request
    /// returns that value and leaves the cache as it is.
    pub fn call_once<F: FnOnce() -> T>(&mut self, key: TypeId<'static>, f: F) -> (value:
        &'static T)
        requires
            f.requires(()),
        ensures
            requested(old(self)@, key, *value, final(self)@),
            !old(self)@.contains_key(key) ==> f.ensures((), *value),
    {
        match self.get(&key) {
            Some(value) => value,
            None => self.add(key, f()),
        }
    }
}

impl<T: 'static> Default for StaticTypeMap<T> {
    fn default() -> (map: Self)
        ensures
            map@ == Map::<TypeId<'static>, T>::empty(),
    {
        StaticTypeMap::new()
    }
}

} // verus!
