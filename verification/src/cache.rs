//! The in-process cache that compiled algorithms and constraint graphs
//! publish into.
//!
//! Entries are keyed by a stable string plus a tenant prefix. Publication
//! is the only mutation: a push prepends the new entry, so a reader always
//! observes the newest published value for a key and older entries become
//! unreachable. A value is published whole or not at all; partial
//! compilations never become visible.

use vstd::prelude::*;

verus! {

/// A cache key: the stable per-entry string and the tenant's prefix.
#[derive(Debug)]
pub struct CacheKey {
    pub prefix: String,
    pub key: String,
}

/// The newest value published under a prefix and key.
pub open spec fn cache_lookup<V>(
    entries: Seq<(CacheKey, V)>,
    prefix: Seq<char>,
    key: Seq<char>,
) -> Option<V>
    decreases entries.len(),
{
    if entries.len() == 0 {
        None
    } else if entries[0].0.prefix@ == prefix && entries[0].0.key@ == key {
        Some(entries[0].1)
    } else {
        cache_lookup(entries.drop_first(), prefix, key)
    }
}

/// A process-wide cache. Values are built once, published whole and then
/// only read.
#[derive(Debug)]
pub struct InMemoryCache<V> {
    pub entries: Vec<(CacheKey, V)>,
}

impl<V> InMemoryCache<V> {
    pub fn new() -> (r: Self)
        ensures
            r.entries@.len() == 0,
    {
        InMemoryCache { entries: Vec::new() }
    }

    /// The cached value for this key, if one was published.
    #[verifier::loop_isolation(false)]
    pub fn get_val<'a>(&'a self, k: &CacheKey) -> (r: Option<&'a V>)
        ensures
            match r {
                Some(v) => cache_lookup(self.entries@, k.prefix@, k.key@) == Some(*v),
                None => cache_lookup(self.entries@, k.prefix@, k.key@) is None,
            },
    {
        proof {
            assert(self.entries@.subrange(0, self.entries@.len() as int) =~= self.entries@);
        }
        let mut i: usize = 0;
        while i < self.entries.len()
            invariant
                i <= self.entries@.len(),
                cache_lookup(self.entries@, k.prefix@, k.key@) == cache_lookup(
                    self.entries@.subrange(i as int, self.entries@.len() as int),
                    k.prefix@,
                    k.key@,
                ),
            decreases self.entries@.len() - i,
        {
            let ghost rest = self.entries@.subrange(i as int, self.entries@.len() as int);
            proof {
                assert(rest.drop_first() =~= self.entries@.subrange(
                    i as int + 1,
                    self.entries@.len() as int,
                ));
                assert(rest[0] == self.entries@[i as int]);
            }
            if self.entries[i].0.prefix == k.prefix && self.entries[i].0.key == k.key {
                return Some(&self.entries[i].1);
            }
            i += 1;
        }
        proof {
            assert(self.entries@.subrange(self.entries@.len() as int, self.entries@.len() as int)
                =~= Seq::<(CacheKey, V)>::empty());
        }
        None
    }

    /// Publishes a value under a key. The new value shadows anything
    /// published before it; every other key keeps its value.
    pub fn push(&mut self, k: CacheKey, v: V)
        ensures
            final(self).entries@ == old(self).entries@.insert(0, (k, v)),
            cache_lookup(final(self).entries@, k.prefix@, k.key@) == Some(v),
            forall|p2: Seq<char>, k2: Seq<char>|
                !(p2 == k.prefix@ && k2 == k.key@) ==> #[trigger] cache_lookup(
                    final(self).entries@,
                    p2,
                    k2,
                ) == cache_lookup(old(self).entries@, p2, k2),
    {
        let ghost gp = k.prefix@;
        let ghost gk = k.key@;
        let ghost gv = v;
        self.entries.insert(0, (k, v));
        proof {
            assert(self.entries@.drop_first() =~= old(self).entries@);
            assert(self.entries@[0].0.prefix@ == gp && self.entries@[0].0.key@ == gk);
        }
    }
}

/// Cache coherence: after a publication the next read of that key
/// observes the newly published value, and a read of any other key
/// observes what it observed before.
pub proof fn lemma_cache_coherence<V>(
    entries: Seq<(CacheKey, V)>,
    k: CacheKey,
    v: V,
    p2: Seq<char>,
    k2: Seq<char>,
)
    ensures
        cache_lookup(entries.insert(0, (k, v)), k.prefix@, k.key@) == Some(v),
        !(p2 == k.prefix@ && k2 == k.key@) ==> cache_lookup(entries.insert(0, (k, v)), p2, k2)
            == cache_lookup(entries, p2, k2),
{
    let pushed = entries.insert(0, (k, v));
    assert(pushed[0] == (k, v));
    assert(pushed.drop_first() =~= entries);
}

} // verus!
