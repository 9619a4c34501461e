//! The addresses the blocklist starts out with.

use crate::blocklist::{admits, after_insert, Blocklist, Marker, StoreError};
use crate::headers::{be32, load_be32};
use vstd::prelude::*;

verus! {

/// The marker stored with every address of the initial set.
pub const SEED_MARKER: Marker = 0;

/// The first address of the initial set, 34.193.132.77.
pub open spec fn first_blocked_ip() -> u32 {
    be32(34, 193, 132, 77)
}

/// The second address of the initial set, 3.230.204.70.
pub open spec fn second_blocked_ip() -> u32 {
    be32(3, 230, 204, 70)
}

/// The key under which the address `a.b.c.d` is stored and looked up: the
/// address as a number in host byte order.
pub fn ipv4_key(a: u8, b: u8, c: u8, d: u8) -> (key: u32)
    ensures
        key == be32(a, b, c, d),
{
    load_be32(a, b, c, d)
}

/// The keys of the initial set, in the order in which they are inserted.
pub fn blocked_ips() -> (keys: [u32; 2])
    ensures
        keys[0] == first_blocked_ip(),
        keys[1] == second_blocked_ip(),
{
    [ipv4_key(34, 193, 132, 77), ipv4_key(3, 230, 204, 70)]
}

/// Inserts the initial set into `store`, first address first, and stops at
/// the first insert that the store turns down.
pub fn seed_blocklist(store: &mut Blocklist) -> (done: Result<(), StoreError>)
    ensures
        final(store).spec_max_entries() == old(store).spec_max_entries(),
        ({
            let max_entries = old(store).spec_max_entries();
            let first = after_insert(old(store)@, max_entries, first_blocked_ip(), SEED_MARKER);
            if !admits(old(store)@, max_entries, first_blocked_ip()) {
                &&& done == Err::<(), StoreError>(StoreError::CapacityExceeded)
                &&& final(store)@ == old(store)@
            } else {
                &&& done is Ok <==> admits(first, max_entries, second_blocked_ip())
                &&& done matches Err(e) ==> e == StoreError::CapacityExceeded
                &&& final(store)@ == after_insert(
                    first,
                    max_entries,
                    second_blocked_ip(),
                    SEED_MARKER,
                )
            }
        }),
{
    let keys = blocked_ips();
    store.insert(keys[0], SEED_MARKER)?;
    store.insert(keys[1], SEED_MARKER)?;
    Ok(())
}

} // verus!
