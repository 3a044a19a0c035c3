//! A scoped membership tracker: an [`Observer`] records that an item is
//! currently being visited, and the [`Observation`] token it hands out
//! un-registers the item when it is given back. Callers use it to detect
//! cycles while walking recursive or graph-like structures: notice a node
//! before descending, and release the token when backtracking out.

use vstd::prelude::*;

pub mod laws;

verus! {

/// Whether `notice` grants a token for `item` against a registry holding
/// exactly the items in `registry`: it does if and only if the item is not
/// currently registered.
pub open spec fn notice_grants(registry: Set<u64>, item: u64) -> bool {
    !registry.contains(item)
}

/// The registry after `notice` of `item`: the item is added exactly when a
/// token is granted, and nothing else changes.
pub open spec fn after_notice(registry: Set<u64>, item: u64) -> Set<u64> {
    if notice_grants(registry, item) {
        registry.insert(item)
    } else {
        registry
    }
}

/// The registry after the token for `item` is released: the item is no
/// longer registered, and nothing else changes.
pub open spec fn after_release(registry: Set<u64>, item: u64) -> Set<u64> {
    registry.remove(item)
}

/// A token proving that one item is currently registered with the
/// [`Observer`] that issued it. It is created only by a successful
/// [`Observer::notice`] and is consumed, exactly once, by
/// [`Observer::release`], which removes its item from the registry.
#[derive(Debug)]
pub struct Observation {
    item: u64,
}

impl View for Observation {
    type V = u64;

    closed spec fn view(&self) -> u64 {
        self.item
    }
}

impl Observation {
    /// The item this token stands for.
    pub fn item(&self) -> (r: u64)
        ensures
            r == self@,
    {
        self.item
    }
}

/// Records which items are currently under observation. `notice` registers
/// an item unless it is already registered; giving the returned token back
/// to `release` forgets the item again, so registration lasts exactly as
/// long as the caller keeps the token.
#[derive(Debug)]
pub struct Observer {
    registry: Vec<u64>,
}

impl View for Observer {
    type V = Set<u64>;

    /// The registry, abstractly: the set of items currently registered.
    closed spec fn view(&self) -> Set<u64> {
        self.registry@.to_set()
    }
}

impl Default for Observer {
    /// Same as [`Observer::new`]: an observer with an empty registry.
    fn default() -> (r: Observer)
        ensures
            r@ == Set::<u64>::empty(),
            r.wf(),
    {
        Observer::new()
    }
}

impl Observer {
    /// The registry never holds an item twice.
    pub closed spec fn wf(&self) -> bool {
        self.registry@.no_duplicates()
    }

    /// Constructs an `Observer` with an empty registry.
    pub fn new() -> (r: Observer)
        ensures
            r@ == Set::<u64>::empty(),
            r.wf(),
    {
        let r = Observer { registry: Vec::new() };
        proof {
            assert(r@ =~= Set::<u64>::empty());
        }
        r
    }

    /// Whether `item` is currently registered. Introspection only: the
    /// registry is not changed.
    pub fn currently_noticed(&self, item: u64) -> (r: bool)
        ensures
            r == self@.contains(item),
    {
        let mut i: usize = 0;
        while i < self.registry.len()
            invariant
                i <= self.registry.len(),
                forall|j: int| 0 <= j < i ==> self.registry@[j] != item,
            decreases self.registry.len() - i,
        {
            if self.registry[i] == item {
                proof {
                    assert(self.registry@.contains(item));
                }
                return true;
            }
            i += 1;
        }
        proof {
            assert(!self.registry@.contains(item));
        }
        false
    }

    /// Registers `item` and returns a token for it, unless the item is
    /// already registered, in which case the registry is left unchanged and
    /// no token is returned. Absence of a token is the sole failure signal;
    /// the caller interprets it (for instance as "cycle detected").
    pub fn notice(&mut self, item: u64) -> (r: Option<Observation>)
        requires
            old(self).wf(),
        ensures
            final(self).wf(),
            r is Some <==> notice_grants(old(self)@, item),
            final(self)@ == after_notice(old(self)@, item),
            r is Some ==> r->Some_0@ == item,
            final(self)@.contains(item),
    {
        if self.currently_noticed(item) {
            None
        } else {
            proof {
                lemma_registry_push(self.registry@, item);
            }
            self.registry.push(item);
            Some(Observation { item })
        }
    }

    /// Gives an [`Observation`] back, un-registering its item. The token is
    /// consumed, so each item is forgotten exactly once per token; other
    /// registered items are untouched, whatever order tokens come back in.
    pub fn release(&mut self, observation: Observation)
        requires
            old(self).wf(),
        ensures
            final(self).wf(),
            final(self)@ == after_release(old(self)@, observation@),
    {
        let item = observation.item;
        let mut i: usize = 0;
        while i < self.registry.len()
            invariant
                i <= self.registry.len(),
                self.wf(),
                self.registry@ == old(self).registry@,
                item == observation@,
                forall|j: int| 0 <= j < i ==> self.registry@[j] != item,
            decreases self.registry.len() - i,
        {
            if self.registry[i] == item {
                proof {
                    lemma_registry_remove(self.registry@, i as int, item);
                }
                self.registry.remove(i);
                return;
            }
            i += 1;
        }
        proof {
            assert(!self.registry@.contains(item));
            assert(self@ =~= after_release(old(self)@, item));
        }
    }
}

/// Pushing an item that a duplicate-free registry lacks keeps it
/// duplicate-free and adds exactly that item to the registered set.
proof fn lemma_registry_push(s: Seq<u64>, item: u64)
    requires
        s.no_duplicates(),
        !s.contains(item),
    ensures
        s.push(item).no_duplicates(),
        s.push(item).to_set() == s.to_set().insert(item),
{
    assert forall|i: int, j: int|
        0 <= i < s.push(item).len() && 0 <= j < s.push(item).len() && i != j implies s.push(
        item,
    )[i] != s.push(item)[j] by {
        if i < s.len() && j < s.len() {
        } else if j == s.len() {
            assert(s.push(item)[i] == s[i]);
        } else {
            assert(s.push(item)[j] == s[j]);
        }
    }
    s.lemma_push_to_set_commute(item);
}

/// Removing the one position holding `item` from a duplicate-free registry
/// keeps it duplicate-free and removes exactly that item from the
/// registered set.
proof fn lemma_registry_remove(s: Seq<u64>, i: int, item: u64)
    requires
        s.no_duplicates(),
        0 <= i < s.len(),
        s[i] == item,
    ensures
        s.remove(i).no_duplicates(),
        s.remove(i).to_set() == s.to_set().remove(item),
{
    let t = s.remove(i);
    s.remove_ensures(i);
    assert forall|k: int, l: int| 0 <= k < t.len() && 0 <= l < t.len() && k != l implies t[k]
        != t[l] by {
        let k1: int = if k < i { k } else { k + 1 };
        let l1: int = if l < i { l } else { l + 1 };
        assert(t[k] == s[k1] && t[l] == s[l1]);
    }
    assert forall|y: u64| t.to_set().contains(y) implies s.to_set().remove(item).contains(y) by {
        let k = choose|k: int| 0 <= k < t.len() && t[k] == y;
        let k1: int = if k < i { k } else { k + 1 };
        assert(s[k1] == y);
        assert(y != item);
    }
    assert forall|y: u64| s.to_set().remove(item).contains(y) implies t.to_set().contains(y) by {
        let k = choose|k: int| 0 <= k < s.len() && s[k] == y;
        if k < i {
            assert(t[k] == y);
        } else {
            assert(t[k - 1] == y);
        }
    }
    assert(t.to_set() =~= s.to_set().remove(item));
}

} // verus!
