use vpn_manager::EnableFlow;
use vpn_manager::HelperOutcome;
use vpn_manager::ProxySettings;
use vpn_manager::VpnManager;
use vpn_manager::platform;
use vpn_manager::vpn_extension_status;

#[test]
fn fresh_manager_reports_disconnected_and_uninstalled() {
    let m = VpnManager::new();
    let st = vpn_extension_status(&m);
    assert!(st.supported);
    assert!(!st.installed);
    assert_eq!(st.status, "disconnected");
    assert!(st.node_name.is_none());
    assert!(st.clash_port.is_none());
}

#[test]
fn connected_manager_reports_stored_config() {
    let mut m = VpnManager::new();
    let s = ProxySettings {
        socks_port: Some(7895),
        mixed_port: None,
        node_name: Some("node-b".to_string()),
    };
    let (flow, _a) = EnableFlow::begin(&m);
    let (flow, _a) = flow.on_core_running(true);
    let (flow, _a) = flow.on_settings(&s);
    let (flow, _r) = flow.on_probe(true);
    let (flow, _a) = flow.on_tun_flag(false, &m);
    let (flow, r) = flow.on_config_helper(HelperOutcome::Succeeded, &mut m);
    r.unwrap();
    flow.on_start_helper(HelperOutcome::Succeeded, &mut m).unwrap();

    let st = vpn_extension_status(&m);
    assert!(st.supported);
    assert!(st.installed);
    assert_eq!(st.status, "connected");
    assert_eq!(st.node_name.as_deref(), Some("node-b"));
    assert_eq!(st.clash_port, Some(7895));
}

#[test]
fn unsupported_host_reports_unsupported() {
    let st = platform::vpn_extension_status();
    assert!(!st.supported);
}
