//! The names and addresses that the host network is built from.

use vstd::prelude::*;

verus! {

/// The host bridge that guests are attached to.
pub const BRIDGE_DEV: &'static str = "fcbr0";

/// The bridge's address, which guests use as router and resolver.
pub const BRIDGE_IP: &'static str = "172.16.0.1";

/// The prefix length of the guests' network.
pub const MASK_SHORT: &'static str = "/24";

/// The MAC address of a guest that asks for none.
pub const FC_MAC: &'static str = "06:00:AC:10:00:02";

/// The API socket of a guest that asks for none.
pub const FIRECRACKER_SOCKET: &'static str = "/tmp/firecracker.sock";

} // verus!
