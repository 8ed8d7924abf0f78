use vstd::prelude::*;
use crate::manager::VpnManager;
use crate::status::VpnConnectionStatus;

verus! {

/// Status report handed to external callers.
#[derive(Clone, Debug)]
pub struct VpnExtensionStatus {
    /// Whether the host supports the tunnel extension at all.
    pub supported: bool,
    /// Whether the one-time OS registration has been performed.
    pub installed: bool,
    /// The connection status, as its lower-case label.
    pub status: String,
    /// The node name of the stored configuration, absent before the first
    /// successful enable.
    pub node_name: Option<String>,
    /// The proxy port of the stored configuration, absent before the first
    /// successful enable.
    pub clash_port: Option<u16>,
}

/// The lower-case label a status is reported under.
pub open spec fn status_label_chars(s: VpnConnectionStatus) -> Seq<char> {
    match s {
        VpnConnectionStatus::Disconnected => "disconnected"@,
        VpnConnectionStatus::Connecting => "connecting"@,
        VpnConnectionStatus::Connected => "connected"@,
        VpnConnectionStatus::Disconnecting => "disconnecting"@,
        VpnConnectionStatus::Invalid => "invalid"@,
    }
}

/// Render the lower-case label a status is reported under.
pub fn status_label(s: VpnConnectionStatus) -> (r: String)
    ensures
        r@ == status_label_chars(s),
{
    match s {
        VpnConnectionStatus::Disconnected => "disconnected".to_owned(),
        VpnConnectionStatus::Connecting => "connecting".to_owned(),
        VpnConnectionStatus::Connected => "connected".to_owned(),
        VpnConnectionStatus::Disconnecting => "disconnecting".to_owned(),
        VpnConnectionStatus::Invalid => "invalid".to_owned(),
    }
}

/// The status report for the manager's current state on a supporting host:
/// the status label, the install flag, and the stored configuration's node
/// name and port when one is stored.
pub fn vpn_extension_status(manager: &VpnManager) -> (st: VpnExtensionStatus)
    ensures
        st.supported,
        st.installed == manager@.installed,
        st.status@ == status_label_chars(manager@.status),
        manager@.config matches Some(c) ==> (st.node_name matches Some(n) && n@ == c.node_name)
            && st.clash_port == Some(c.clash_port),
        manager@.config is None ==> st.node_name is None && st.clash_port is None,
    {
    let status = status_label(manager.get_status());
    let (node_name, clash_port) = match manager.current_config() {
        Some(c) => (Some(c.node_name.clone()), Some(c.clash_port)),
        None => (None, None),
    };
    VpnExtensionStatus {
        supported: true,
        installed: manager.is_installed(),
        status,
        node_name,
        clash_port,
    }
}

} // verus!
