use vstd::prelude::*;

verus! {

/// Port probed and used for the tunnel when the proxy core's live settings
/// offer neither a SOCKS port nor a mixed port.
pub const DEFAULT_PROXY_PORT: u16 = 7890;

/// Tunnel configuration handed to the privileged helper.
///
/// Derived fresh from the proxy core's live settings on every enable; a new
/// value replaces the old one, it is never mutated in place.
#[derive(Clone, Debug)]
pub struct VpnConfig {
    pub clash_host: String,
    pub clash_port: u16,
    pub node_name: String,
}

/// Mathematical view of a `VpnConfig`.
pub ghost struct ConfigView {
    pub clash_host: Seq<char>,
    pub clash_port: u16,
    pub node_name: Seq<char>,
}

impl View for VpnConfig {
    type V = ConfigView;

    open spec fn view(&self) -> ConfigView {
        ConfigView {
            clash_host: self.clash_host@,
            clash_port: self.clash_port,
            node_name: self.node_name@,
        }
    }
}

/// What could be read from the proxy core's live settings: its SOCKS listener
/// port, its mixed listener port, and the currently selected node, each absent
/// when the corresponding query gave nothing.
#[derive(Clone, Debug)]
pub struct ProxySettings {
    pub socks_port: Option<u16>,
    pub mixed_port: Option<u16>,
    pub node_name: Option<String>,
}

/// Mathematical view of `ProxySettings`.
pub ghost struct SettingsView {
    pub socks_port: Option<u16>,
    pub mixed_port: Option<u16>,
    pub node_name: Option<Seq<char>>,
}

impl View for ProxySettings {
    type V = SettingsView;

    open spec fn view(&self) -> SettingsView {
        SettingsView {
            socks_port: self.socks_port,
            mixed_port: self.mixed_port,
            node_name: match self.node_name {
                Some(n) => Some(n@),
                None => None,
            },
        }
    }
}

/// The port the tunnel points at: the live SOCKS port when the proxy core
/// advertises one, else its mixed port, else the fixed default.
pub open spec fn effective_port(s: SettingsView) -> u16 {
    if s.socks_port is Some {
        s.socks_port->0
    } else if s.mixed_port is Some {
        s.mixed_port->0
    } else {
        DEFAULT_PROXY_PORT
    }
}

/// The node name recorded in the configuration: the live selection when one
/// could be queried, else the catch-all group.
pub open spec fn effective_node(s: SettingsView) -> Seq<char> {
    if s.node_name is Some {
        s.node_name->0
    } else {
        "GLOBAL"@
    }
}

/// The configuration derived from the proxy core's live settings: loopback
/// host, effective port, effective node name.
pub open spec fn derived_config(s: SettingsView) -> ConfigView {
    ConfigView {
        clash_host: "127.0.0.1"@,
        clash_port: effective_port(s),
        node_name: effective_node(s),
    }
}

impl VpnConfig {
    /// Derive the tunnel configuration from the proxy core's live settings.
    pub fn derive(s: &ProxySettings) -> (c: VpnConfig)
        ensures
            c@ == derived_config(s@),
    {
        let clash_port: u16 = match s.socks_port {
            Some(p) => p,
            None => match s.mixed_port {
                Some(p) => p,
                None => DEFAULT_PROXY_PORT,
            },
        };
        let node_name: String = match &s.node_name {
            Some(n) => n.clone(),
            None => "GLOBAL".to_owned(),
        };
        VpnConfig { clash_host: "127.0.0.1".to_owned(), clash_port, node_name }
    }
}

} // verus!
