use vpn_manager::EnableAction;
use vpn_manager::EnableFlow;
use vpn_manager::EnablePhase;
use vpn_manager::HelperAction;
use vpn_manager::HelperOutcome;
use vpn_manager::HelperRequest;
use vpn_manager::ProxySettings;
use vpn_manager::VpnConnectionStatus;
use vpn_manager::VpnError;
use vpn_manager::VpnManager;

fn settings(socks: Option<u16>, mixed: Option<u16>, node: Option<&str>) -> ProxySettings {
    ProxySettings {
        socks_port: socks,
        mixed_port: mixed,
        node_name: node.map(|n| n.to_string()),
    }
}

fn expect_helper(a: EnableAction) -> HelperRequest {
    match a {
        EnableAction::RunHelper(req) => req,
        other => panic!("expected a helper invocation, got {:?}", other),
    }
}

/// Drive one enable operation to the install/update dispatch, with the proxy
/// core already running and reachable and no TUN conflict.
fn drive_to_config_helper(m: &VpnManager, s: &ProxySettings) -> (EnableFlow, HelperRequest) {
    let (flow, a) = EnableFlow::begin(m);
    assert!(matches!(a, EnableAction::QueryCoreRunning));
    let (flow, a) = flow.on_core_running(true);
    assert!(matches!(a, EnableAction::ReadProxySettings));
    let (flow, a) = flow.on_settings(s);
    assert!(matches!(a, EnableAction::ProbePort(_)));
    let (flow, r) = flow.on_probe(true);
    assert!(matches!(r, Ok(EnableAction::ReadTunFlag)));
    let (flow, a) = flow.on_tun_flag(false, m);
    let req = expect_helper(a);
    (flow, req)
}

/// Drive one enable operation to full success.
fn enable_successfully(m: &mut VpnManager, s: &ProxySettings) {
    let (flow, _req) = drive_to_config_helper(m, s);
    let (flow, r) = flow.on_config_helper(HelperOutcome::Succeeded, m);
    let start = expect_helper(r.expect("install must succeed"));
    assert_eq!(start.action, HelperAction::Start);
    flow.on_start_helper(HelperOutcome::Succeeded, m).expect("start must succeed");
}

#[test]
fn fresh_manager_is_disconnected() {
    let m = VpnManager::new();
    assert_eq!(m.get_status(), VpnConnectionStatus::Disconnected);
    assert!(!m.is_installed());
    assert!(m.current_config().is_none());
}

#[test]
fn successful_enable_connects_and_stores_live_port() {
    let mut m = VpnManager::new();
    let s = settings(Some(7891), Some(7892), Some("node-a"));
    enable_successfully(&mut m, &s);
    assert_eq!(m.get_status(), VpnConnectionStatus::Connected);
    assert!(m.is_installed());
    let c = m.current_config().as_ref().expect("config must be stored");
    assert_eq!(c.clash_host, "127.0.0.1");
    assert_eq!(c.clash_port, 7891);
    assert_eq!(c.node_name, "node-a");
}

#[test]
fn port_falls_back_to_mixed_then_default() {
    let mut m = VpnManager::new();
    enable_successfully(&mut m, &settings(None, Some(7893), None));
    assert_eq!(m.current_config().as_ref().unwrap().clash_port, 7893);
    assert_eq!(m.current_config().as_ref().unwrap().node_name, "GLOBAL");

    let mut m2 = VpnManager::new();
    enable_successfully(&mut m2, &settings(None, None, None));
    assert_eq!(m2.current_config().as_ref().unwrap().clash_port, 7890);
}

#[test]
fn first_enable_installs_second_updates() {
    let mut m = VpnManager::new();
    let s = settings(Some(7891), None, None);
    let (flow, req) = drive_to_config_helper(&m, &s);
    assert_eq!(req.action, HelperAction::Install);
    let (flow, r) = flow.on_config_helper(HelperOutcome::Succeeded, &mut m);
    assert!(m.is_installed());
    expect_helper(r.unwrap());
    flow.on_start_helper(HelperOutcome::Succeeded, &mut m).unwrap();

    // installed stays true across a disable/enable cycle, so the second
    // enable dispatches `update` instead of `install`.
    let req = m.begin_disable();
    assert_eq!(req.action, HelperAction::Stop);
    m.finish_disable(HelperOutcome::Succeeded).unwrap();
    assert!(m.is_installed());
    let (_flow, req) = drive_to_config_helper(&m, &s);
    assert_eq!(req.action, HelperAction::Update);
}

#[test]
fn enable_then_disable_always_ends_disconnected() {
    // succeeded enable, then disable
    let mut m = VpnManager::new();
    enable_successfully(&mut m, &settings(Some(7891), None, None));
    m.begin_disable();
    m.finish_disable(HelperOutcome::Succeeded).unwrap();
    assert_eq!(m.get_status(), VpnConnectionStatus::Disconnected);

    // enable that failed partway (helper missing), then disable
    let mut m = VpnManager::new();
    let (flow, _req) = drive_to_config_helper(&m, &settings(Some(7891), None, None));
    let (_flow, r) = flow.on_config_helper(HelperOutcome::NotFound, &mut m);
    assert!(r.is_err());
    m.begin_disable();
    m.finish_disable(HelperOutcome::Succeeded).unwrap();
    assert_eq!(m.get_status(), VpnConnectionStatus::Disconnected);
}

#[test]
fn helper_not_found_fails_and_leaves_disconnected() {
    let mut m = VpnManager::new();
    let (flow, _req) = drive_to_config_helper(&m, &settings(Some(7891), None, None));
    let (flow, r) = flow.on_config_helper(HelperOutcome::NotFound, &mut m);
    assert!(matches!(r, Err(VpnError::HelperNotFound)));
    assert_eq!(flow.current_phase(), EnablePhase::Finished);
    assert_eq!(m.get_status(), VpnConnectionStatus::Disconnected);
    assert!(!m.is_installed());
    assert!(m.current_config().is_none());
}

#[test]
fn helper_failure_carries_stderr_and_commits_nothing() {
    let mut m = VpnManager::new();
    let (flow, _req) = drive_to_config_helper(&m, &settings(Some(7891), None, None));
    let (flow, r) = flow.on_config_helper(HelperOutcome::Succeeded, &mut m);
    let _start = expect_helper(r.unwrap());
    let r = flow.on_start_helper(
        HelperOutcome::Failed("tunnel start rejected".to_string()),
        &mut m,
    );
    match r {
        Err(VpnError::HelperExecutionFailed(stderr)) => {
            assert_eq!(stderr, "tunnel start rejected");
        }
        other => panic!("expected HelperExecutionFailed, got {:?}", other),
    }
    // the failed start aborts: no config stored, status unchanged; only the
    // one-time install flag was recorded by the successful install.
    assert_eq!(m.get_status(), VpnConnectionStatus::Disconnected);
    assert!(m.current_config().is_none());
    assert!(m.is_installed());
}

#[test]
fn unreachable_default_port_fails_with_proxy_core_unavailable() {
    let m = VpnManager::new();
    let (flow, _a) = EnableFlow::begin(&m);
    let (flow, _a) = flow.on_core_running(true);
    let (flow, a) = flow.on_settings(&settings(None, None, None));
    // with no live settings the probe targets the fixed default port
    assert!(matches!(a, EnableAction::ProbePort(7890)));
    let (flow, r) = flow.on_probe(false);
    assert!(matches!(r, Err(VpnError::ProxyCoreUnavailable)));
    assert_eq!(flow.current_phase(), EnablePhase::Finished);
    assert_eq!(m.get_status(), VpnConnectionStatus::Disconnected);
}

#[test]
fn core_not_running_is_started_first() {
    let m = VpnManager::new();
    let (flow, _a) = EnableFlow::begin(&m);
    let (flow, a) = flow.on_core_running(false);
    assert!(matches!(a, EnableAction::StartProxyCore));
    let (_flow, r) = flow.on_core_started(true);
    assert!(matches!(r, Ok(EnableAction::ReadProxySettings)));

    // a failed start aborts the operation
    let (flow, _a) = EnableFlow::begin(&m);
    let (flow, _a) = flow.on_core_running(false);
    let (flow, r) = flow.on_core_started(false);
    assert!(matches!(r, Err(VpnError::ProxyCoreUnavailable)));
    assert_eq!(flow.current_phase(), EnablePhase::Finished);
}

#[test]
fn tun_conflict_is_auto_disabled_before_helper_runs() {
    let mut m = VpnManager::new();
    // the persisted TUN flag, as the surrounding program would hold it
    let mut tun_flag = true;
    let (flow, _a) = EnableFlow::begin(&m);
    let (flow, _a) = flow.on_core_running(true);
    let (flow, _a) = flow.on_settings(&settings(Some(7891), None, None));
    let (flow, r) = flow.on_probe(true);
    assert!(matches!(r, Ok(EnableAction::ReadTunFlag)));
    let (flow, a) = flow.on_tun_flag(tun_flag, &m);
    assert!(matches!(a, EnableAction::DisableTunFlag));
    // perform the action: write the flag false and persist it
    tun_flag = false;
    let (flow, r) = flow.on_tun_persisted(true, &m);
    let req = expect_helper(r.unwrap());
    assert_eq!(req.action, HelperAction::Install);
    let (flow, r) = flow.on_config_helper(HelperOutcome::Succeeded, &mut m);
    expect_helper(r.unwrap());
    flow.on_start_helper(HelperOutcome::Succeeded, &mut m).unwrap();
    assert_eq!(m.get_status(), VpnConnectionStatus::Connected);
    assert!(!tun_flag);
}

#[test]
fn tun_persist_failure_aborts() {
    let m = VpnManager::new();
    let (flow, _a) = EnableFlow::begin(&m);
    let (flow, _a) = flow.on_core_running(true);
    let (flow, _a) = flow.on_settings(&settings(Some(7891), None, None));
    let (flow, _r) = flow.on_probe(true);
    let (flow, _a) = flow.on_tun_flag(true, &m);
    let (flow, r) = flow.on_tun_persisted(false, &m);
    assert!(matches!(r, Err(VpnError::ConfigPersistFailed)));
    assert_eq!(flow.current_phase(), EnablePhase::Finished);
    assert_eq!(m.get_status(), VpnConnectionStatus::Disconnected);
}

#[test]
fn stop_failure_still_disconnects() {
    let mut m = VpnManager::new();
    enable_successfully(&mut m, &settings(Some(7891), None, None));
    assert_eq!(m.get_status(), VpnConnectionStatus::Connected);
    let req = m.begin_disable();
    assert_eq!(req.action, HelperAction::Stop);
    assert_eq!(m.get_status(), VpnConnectionStatus::Disconnecting);
    let r = m.finish_disable(HelperOutcome::Failed("already torn down".to_string()));
    assert!(matches!(r, Err(VpnError::HelperExecutionFailed(_))));
    assert_eq!(m.get_status(), VpnConnectionStatus::Disconnected);
    // the stored config survives for a later re-enable
    assert!(m.current_config().is_some());
}

#[test]
fn disable_without_stored_config_sends_empty_body() {
    let mut m = VpnManager::new();
    let req = m.begin_disable();
    assert_eq!(req.action, HelperAction::Stop);
    assert_eq!(req.body, "{}");
    m.finish_disable(HelperOutcome::Succeeded).unwrap();
    assert_eq!(m.get_status(), VpnConnectionStatus::Disconnected);
}

#[test]
fn status_is_always_a_defined_value_and_never_invalid() {
    // walk every transition of a full cycle and watch the status
    let mut m = VpnManager::new();
    let mut seen = vec![m.get_status()];
    let s = settings(Some(7891), None, None);
    let (flow, _req) = drive_to_config_helper(&m, &s);
    seen.push(m.get_status());
    let (flow, r) = flow.on_config_helper(HelperOutcome::Succeeded, &mut m);
    seen.push(m.get_status());
    expect_helper(r.unwrap());
    flow.on_start_helper(HelperOutcome::Succeeded, &mut m).unwrap();
    seen.push(m.get_status());
    m.begin_disable();
    seen.push(m.get_status());
    m.finish_disable(HelperOutcome::Succeeded).unwrap();
    seen.push(m.get_status());
    for st in seen {
        assert!(matches!(
            st,
            VpnConnectionStatus::Disconnected
                | VpnConnectionStatus::Connecting
                | VpnConnectionStatus::Connected
                | VpnConnectionStatus::Disconnecting
        ));
        assert_ne!(st, VpnConnectionStatus::Invalid);
    }
}
