//! Leader security gate: a connection is privileged ("leader") exactly when
//! its transport-layer peer address is a loopback address. There is no
//! stronger authentication.

use vstd::prelude::*;

verus! {

/// A transport-layer peer address, as the listener reports it: either an
/// IPv4 address given by its four octets or an IPv6 address given by its
/// eight 16-bit segments.
pub enum PeerAddr {
    V4 { a: u8, b: u8, c: u8, d: u8 },
    V6 { segments: [u16; 8] },
}

/// An IPv4 address is loopback when it lies in 127.0.0.0/8; an IPv6 address
/// only when it is ::1.
pub open spec fn is_loopback(addr: PeerAddr) -> bool {
    match addr {
        PeerAddr::V4 { a, .. } => a == 127,
        PeerAddr::V6 { segments } => {
            &&& forall|i: int| 0 <= i < 7 ==> segments[i] == 0
            &&& segments[7] == 1
        },
    }
}

/// A peer is a leader exactly when its address is known and is loopback;
/// a connection without a reported peer address is never privileged.
pub open spec fn spec_is_leader(peer: Option<PeerAddr>) -> bool {
    match peer {
        Some(addr) => is_loopback(addr),
        None => false,
    }
}

/// Decides whether `addr` is a loopback address.
pub fn loopback(addr: &PeerAddr) -> (r: bool)
    ensures
        r == is_loopback(*addr),
{
    match addr {
        PeerAddr::V4 { a, .. } => *a == 127,
        PeerAddr::V6 { segments } => {
            let mut i: usize = 0;
            let mut all_zero = true;
            while i < 7
                invariant
                    i <= 7,
                    all_zero == forall|j: int| 0 <= j < i ==> segments[j] == 0,
                decreases 7 - i,
            {
                if segments[i] != 0 {
                    all_zero = false;
                }
                i += 1;
            }
            all_zero && segments[7] == 1
        },
    }
}

/// Classifies an inbound connection as privileged ("leader") solely from its
/// network peer address, evaluated once at connection-establishment time.
pub fn is_leader(peer: &Option<PeerAddr>) -> (r: bool)
    ensures
        r == spec_is_leader(*peer),
{
    match peer {
        Some(addr) => loopback(addr),
        None => false,
    }
}

} // verus!
