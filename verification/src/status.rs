use vstd::prelude::*;

verus! {

/// Connection status of the VPN tunnel lifecycle.
///
/// `Invalid` is reserved for a detected inconsistent state; no operation of
/// this library ever produces it.
#[derive(Clone, Copy, Debug, PartialEq, Eq, Structural)]
pub enum VpnConnectionStatus {
    Disconnected,
    Connecting,
    Connected,
    Disconnecting,
    Invalid,
}

impl VpnConnectionStatus {
    /// True while an enable or disable operation is in flight.
    pub open spec fn is_transitional(self) -> bool {
        self == VpnConnectionStatus::Connecting || self == VpnConnectionStatus::Disconnecting
    }
}

} // verus!
