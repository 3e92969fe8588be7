//! Values set in fields that the caller left unset, so that a packet built here can be
//! recognised later.
use vstd::prelude::*;

verus! {

/// TTL given to an IPv4 header whose TTL is unset.
pub const MAGIC_IPV4_TTL: u8 = 170;

/// Priority code point reserved for VLAN tags built here.
pub const MAGIC_VLAN_PRIO: u8 = 6;

} // verus!
