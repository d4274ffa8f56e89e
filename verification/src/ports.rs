//! Choosing the port that a service listens on.
//!
//! The caller tries to bind the preferred port; while that fails it moves
//! on to the port that `next_candidate` names. `first_free_port` is the
//! same search over a known set of occupied ports.

use vstd::prelude::*;

verus! {

/// The port tried after `port` was found occupied: the next higher one,
/// or `None` when `port` is the highest port there is.
pub fn next_candidate(port: u16) -> (r: Option<u16>)
    ensures
        r == (if port < u16::MAX {
            Some((port + 1) as u16)
        } else {
            None::<u16>
        }),
{
    if port < u16::MAX {
        Some(port + 1)
    } else {
        None
    }
}

/// The lowest port from `preferred` upwards that is not occupied, if there
/// is one.
pub open spec fn first_free_port_spec(preferred: u16, occupied: Seq<u16>) -> Option<u16> {
    if exists|p: u16| preferred <= p && !occupied.contains(p) {
        Some(
            choose|p: u16|
                preferred <= p && !occupied.contains(p) && forall|q: u16|
                    preferred <= q < p ==> occupied.contains(q),
        )
    } else {
        None
    }
}

fn is_occupied(occupied: &Vec<u16>, port: u16) -> (r: bool)
    ensures
        r == occupied@.contains(port),
{
    let mut i: usize = 0;
    while i < occupied.len()
        invariant
            i <= occupied.len(),
            forall|j: int| 0 <= j < i ==> occupied@[j] != port,
        decreases occupied.len() - i,
    {
        if occupied[i] == port {
            return true;
        }
        i += 1;
    }
    false
}

/// Searches upwards from `preferred` for a port that is not in `occupied`.
pub fn first_free_port(preferred: u16, occupied: &Vec<u16>) -> (r: Option<u16>)
    ensures
        r == first_free_port_spec(preferred, occupied@),
        match r {
            Some(p) => preferred <= p && !occupied@.contains(p) && forall|q: u16|
                preferred <= q < p ==> occupied@.contains(q),
            None => forall|q: u16| preferred <= q ==> occupied@.contains(q),
        },
{
    let mut port: u16 = preferred;
    loop
        invariant
            preferred <= port,
            forall|q: u16| preferred <= q < port ==> occupied@.contains(q),
        decreases u16::MAX - port,
    {
        if !is_occupied(occupied, port) {
            proof {
                let chosen = choose|p: u16|
                    preferred <= p && !occupied@.contains(p) && forall|q: u16|
                        preferred <= q < p ==> occupied@.contains(q);
                assert(chosen == port);
            }
            return Some(port);
        }
        match next_candidate(port) {
            Some(next) => {
                port = next;
            },
            None => {
                return None;
            },
        }
    }
}

} // verus!
