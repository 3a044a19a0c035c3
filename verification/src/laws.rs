//! Laws of the observation cycle, stated over the registry model —
//! [`notice_grants`], [`after_notice`] and [`after_release`] — that the
//! contracts of [`Observer::notice`](crate::Observer::notice) and
//! [`Observer::release`](crate::Observer::release) are written with.

use vstd::prelude::*;

use crate::after_notice;
use crate::after_release;
use crate::notice_grants;

verus! {

/// An item that is not currently registered is granted a token, and while
/// that token is outstanding a second notice of the same item is refused.
pub proof fn law_notice_grants_once(registry: Set<u64>, item: u64)
    requires
        !registry.contains(item),
    ensures
        notice_grants(registry, item),
        !notice_grants(after_notice(registry, item), item),
{
}

/// Releasing the token granted for an item restores the registry exactly as
/// it was, so a subsequent notice of the same item is granted again.
pub proof fn law_release_restores(registry: Set<u64>, item: u64)
    requires
        !registry.contains(item),
    ensures
        after_release(after_notice(registry, item), item) == registry,
        notice_grants(after_release(after_notice(registry, item), item), item),
{
    assert(after_release(after_notice(registry, item), item) =~= registry);
}

/// Distinct unregistered items are noticed independently: both notices are
/// granted in either order, the resulting registry is the same either way,
/// and releasing one item's token leaves the registry exactly as if only
/// the other had been noticed.
pub proof fn law_distinct_items_independent(registry: Set<u64>, x: u64, y: u64)
    requires
        x != y,
        !registry.contains(x),
        !registry.contains(y),
    ensures
        notice_grants(registry, x),
        notice_grants(registry, y),
        notice_grants(after_notice(registry, x), y),
        notice_grants(after_notice(registry, y), x),
        after_notice(after_notice(registry, x), y) == after_notice(after_notice(registry, y), x),
        after_release(after_notice(after_notice(registry, x), y), x) == after_notice(registry, y),
        after_notice(after_notice(registry, x), y).contains(x),
        after_release(after_notice(after_notice(registry, x), y), x).contains(y),
{
    assert(after_notice(after_notice(registry, x), y) =~= after_notice(
        after_notice(registry, y),
        x,
    ));
    assert(after_release(after_notice(after_notice(registry, x), y), x) =~= after_notice(
        registry,
        y,
    ));
}

/// Nested scopes over a stack of distinct items: each inner notice of a
/// fresh item is granted; while all three tokens are alive, a notice of any
/// of the three is refused; releasing the innermost token makes its item
/// noticeable again while both ancestors stay registered.
pub proof fn law_nested_scopes(registry: Set<u64>, x1: u64, x2: u64, x3: u64)
    requires
        x1 != x2,
        x1 != x3,
        x2 != x3,
        !registry.contains(x1),
        !registry.contains(x2),
        !registry.contains(x3),
    ensures
        notice_grants(registry, x1),
        notice_grants(after_notice(registry, x1), x2),
        notice_grants(after_notice(after_notice(registry, x1), x2), x3),
        !notice_grants(after_notice(after_notice(after_notice(registry, x1), x2), x3), x1),
        !notice_grants(after_notice(after_notice(after_notice(registry, x1), x2), x3), x2),
        !notice_grants(after_notice(after_notice(after_notice(registry, x1), x2), x3), x3),
        notice_grants(
            after_release(after_notice(after_notice(after_notice(registry, x1), x2), x3), x3),
            x3,
        ),
        !notice_grants(
            after_release(after_notice(after_notice(after_notice(registry, x1), x2), x3), x3),
            x1,
        ),
        !notice_grants(
            after_release(after_notice(after_notice(after_notice(registry, x1), x2), x3), x3),
            x2,
        ),
{
}

/// The registry after `n` complete observation cycles of `item`: each cycle
/// notices the item and then releases the granted token.
pub open spec fn after_cycles(registry: Set<u64>, item: u64, n: nat) -> Set<u64>
    decreases n,
{
    if n == 0 {
        registry
    } else {
        after_release(after_notice(after_cycles(registry, item, (n - 1) as nat), item), item)
    }
}

/// Observation cycles are idempotent: an item not currently registered can
/// be noticed and released arbitrarily many times; every cycle leaves the
/// registry as it was, and the next notice is always granted.
pub proof fn law_cycles_idempotent(registry: Set<u64>, item: u64, n: nat)
    requires
        !registry.contains(item),
    ensures
        after_cycles(registry, item, n) == registry,
        notice_grants(after_cycles(registry, item, n), item),
    decreases n,
{
    if n > 0 {
        law_cycles_idempotent(registry, item, (n - 1) as nat);
        assert(after_release(after_notice(registry, item), item) =~= registry);
    }
}

} // verus!
