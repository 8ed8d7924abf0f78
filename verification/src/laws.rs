use vstd::prelude::*;
use crate::config::ConfigView;
use crate::config::DEFAULT_PROXY_PORT;
use crate::config::SettingsView;
use crate::config::derived_config;
use crate::config::effective_node;
use crate::config::effective_port;
use crate::manager::ManagerView;
use crate::status::VpnConnectionStatus;

verus! {

/// The status is always one of the five defined values by type; beyond that,
/// no lifecycle transition ever produces `Invalid`: a fresh manager starts
/// `Disconnected`, and from any state whose status is not `Invalid`, every
/// transition of an enable or disable operation leaves a status that is not
/// `Invalid`.
pub proof fn lemma_status_never_invalid(m: ManagerView, c: ConfigView)
    ensures
        ManagerView::init().status == VpnConnectionStatus::Disconnected,
        m.mark_installed().status == m.status,
        m.connected(c).status == VpnConnectionStatus::Connected,
        m.disconnecting().status == VpnConnectionStatus::Disconnecting,
        m.disconnected().status == VpnConnectionStatus::Disconnected,
        m.status != VpnConnectionStatus::Invalid ==> m.mark_installed().status
            != VpnConnectionStatus::Invalid,
        m.connected(c).status != VpnConnectionStatus::Invalid,
        m.disconnecting().status != VpnConnectionStatus::Invalid,
        m.disconnected().status != VpnConnectionStatus::Invalid,
{
}

/// An enable followed immediately by a disable always ends `Disconnected`,
/// whatever the enable did: nothing (it aborted before any mutation), only
/// recording the install flag (it aborted after the install call), or the
/// full commit to `Connected`.
pub proof fn lemma_disable_converges(m: ManagerView, c: ConfigView)
    ensures
        m.disconnecting().disconnected().status == VpnConnectionStatus::Disconnected,
        m.mark_installed().disconnecting().disconnected().status
            == VpnConnectionStatus::Disconnected,
        m.mark_installed().connected(c).disconnecting().disconnected().status
            == VpnConnectionStatus::Disconnected,
{
}

/// After a successful enable, the stored configuration is exactly the one
/// derived from the proxy core's live settings at the time of the call: its
/// port is the live SOCKS port, or the mixed port when no SOCKS port is
/// advertised, or the documented fallback when neither is; its node name is
/// the live selection or the catch-all group.
pub proof fn lemma_enable_stores_live_config(m: ManagerView, s: SettingsView)
    ensures
        m.mark_installed().connected(derived_config(s)).config == Some(derived_config(s)),
        derived_config(s).clash_port == effective_port(s),
        derived_config(s).node_name == effective_node(s),
        s.socks_port matches Some(p) ==> effective_port(s) == p,
        s.socks_port is None ==> (s.mixed_port matches Some(p) ==> effective_port(s) == p),
        s.socks_port is None && s.mixed_port is None ==> effective_port(s) == DEFAULT_PROXY_PORT,
{
}

/// The one-time install flag becomes true on the first successful install
/// and stays true through any later enable or disable transition: none of
/// them ever resets it.
pub proof fn lemma_installed_is_sticky(m: ManagerView, c: ConfigView)
    ensures
        m.mark_installed().installed,
        m.connected(c).installed == m.installed,
        m.disconnecting().installed == m.installed,
        m.disconnected().installed == m.installed,
        m.mark_installed().connected(c).disconnecting().disconnected().installed,
{
}

} // verus!
