use vstd::prelude::*;

verus! {

/// Status report on a host without tunnel support.
#[derive(Clone, Copy, Debug, PartialEq, Eq, Structural)]
pub struct VpnStatus {
    pub supported: bool,
}

/// The status reported on a host without tunnel support: nothing but the
/// fact that it is unsupported.
pub fn vpn_extension_status() -> (st: VpnStatus)
    ensures
        !st.supported,
{
    VpnStatus { supported: false }
}

} // verus!
