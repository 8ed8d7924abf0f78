use vstd::prelude::*;
use vstd::pervasive::unreached;
use crate::config::ConfigView;
use crate::config::ProxySettings;
use crate::config::VpnConfig;
use crate::config::derived_config;
use crate::config::effective_port;
use crate::encode::config_json;
use crate::error::VpnError;
use crate::helper::HelperAction;
use crate::helper::HelperOutcome;
use crate::helper::HelperRequest;
use crate::manager::ManagerView;
use crate::manager::VpnManager;

verus! {

/// What the caller must do next to advance an in-flight enable operation.
/// The caller performs the action against the outside world and hands the
/// outcome back to the matching `EnableFlow` method.
#[derive(Clone, Debug)]
pub enum EnableAction {
    /// Ask the proxy core's supervisor whether the core is running.
    QueryCoreRunning,
    /// Start the proxy core and wait its settle delay.
    StartProxyCore,
    /// Read the proxy core's live settings.
    ReadProxySettings,
    /// Attempt a bounded-timeout TCP connection to this loopback port.
    ProbePort(u16),
    /// Read the persisted TUN-mode flag.
    ReadTunFlag,
    /// Write the TUN-mode flag false, persist it, and wait the settle delay.
    DisableTunFlag,
    /// Run the privileged helper with this request.
    RunHelper(HelperRequest),
}

/// Where an in-flight enable operation stands: which outcome it waits for.
#[derive(Clone, Copy, Debug, PartialEq, Eq, Structural)]
pub enum EnablePhase {
    AwaitCoreRunning,
    AwaitCoreStart,
    AwaitSettings,
    AwaitProbe,
    AwaitTunFlag,
    AwaitTunPersist,
    AwaitConfigHelper,
    AwaitStartHelper,
    Finished,
}

/// Mathematical view of an in-flight enable operation.
pub ghost struct FlowView {
    pub phase: EnablePhase,
    pub config: Option<ConfigView>,
}

/// One enable operation in flight: the readiness check, configuration
/// derivation, conflict resolution, and helper invocations, sequenced so that
/// no failure path commits any manager state.
///
/// Every step is failure-abortive: the first step that fails finishes the
/// flow with an error and leaves the manager exactly as it was (except the
/// one-time install flag, recorded as soon as the `install` call succeeds).
pub struct EnableFlow {
    phase: EnablePhase,
    config: Option<VpnConfig>,
}

impl View for EnableFlow {
    type V = FlowView;

    closed spec fn view(&self) -> FlowView {
        FlowView {
            phase: self.phase,
            config: match self.config {
                Some(c) => Some(c@),
                None => None,
            },
        }
    }
}

/// Whether `a` is the helper invocation that installs or updates the tunnel
/// configuration `c`: `install` on first use, `update` once installed, always
/// carrying the full configuration body.
pub open spec fn is_config_request(a: EnableAction, m: ManagerView, c: ConfigView) -> bool {
    &&& a matches EnableAction::RunHelper(req)
    &&& req.action == (if m.installed {
        HelperAction::Update
    } else {
        HelperAction::Install
    })
    &&& req.body@ == config_json(c)
}

/// Whether `a` is the helper invocation that starts the tunnel, carrying the
/// full configuration body.
pub open spec fn is_start_request(a: EnableAction, c: ConfigView) -> bool {
    &&& a matches EnableAction::RunHelper(req)
    &&& req.action == HelperAction::Start
    &&& req.body@ == config_json(c)
}

impl EnableFlow {
    /// From the probe onward the derived configuration is present.
    pub open spec fn wf(self) -> bool {
        (self@.phase == EnablePhase::AwaitProbe || self@.phase == EnablePhase::AwaitTunFlag
            || self@.phase == EnablePhase::AwaitTunPersist || self@.phase
            == EnablePhase::AwaitConfigHelper || self@.phase == EnablePhase::AwaitStartHelper)
            ==> self@.config is Some
    }

    /// Which outcome the flow waits for, as an executable read.
    pub fn current_phase(&self) -> (p: EnablePhase)
        ensures
            p == self@.phase,
    {
        self.phase
    }

    /// Begin an enable operation. The manager must not already be
    /// mid-transition; nothing is mutated before the flow fully succeeds.
    /// The first step asks whether the proxy core is running.
    pub fn begin(m: &VpnManager) -> (r: (EnableFlow, EnableAction))
        requires
            !m@.status.is_transitional(),
        ensures
            r.0@.phase == EnablePhase::AwaitCoreRunning,
            r.0@.config is None,
            r.0.wf(),
            r.1 is QueryCoreRunning,
    {
        (
            EnableFlow { phase: EnablePhase::AwaitCoreRunning, config: None },
            EnableAction::QueryCoreRunning,
        )
    }

    /// The supervisor answered whether the proxy core is running. A core
    /// that is not running is started first; a running core's live settings
    /// are read next.
    pub fn on_core_running(self, running: bool) -> (r: (EnableFlow, EnableAction))
        requires
            self@.phase == EnablePhase::AwaitCoreRunning,
        ensures
            r.0@.config == self@.config,
            r.0.wf(),
            running ==> r.0@.phase == EnablePhase::AwaitSettings && r.1 is ReadProxySettings,
            !running ==> r.0@.phase == EnablePhase::AwaitCoreStart && r.1 is StartProxyCore,
    {
        if running {
            (
                EnableFlow { phase: EnablePhase::AwaitSettings, ..self },
                EnableAction::ReadProxySettings,
            )
        } else {
            (
                EnableFlow { phase: EnablePhase::AwaitCoreStart, ..self },
                EnableAction::StartProxyCore,
            )
        }
    }

    /// The proxy core start attempt finished. A failed start leaves the core
    /// unavailable, which aborts the operation before any state mutation.
    pub fn on_core_started(self, ok: bool) -> (r: (EnableFlow, Result<EnableAction, VpnError>))
        requires
            self@.phase == EnablePhase::AwaitCoreStart,
        ensures
            r.0@.config == self@.config,
            r.0.wf(),
            ok ==> r.0@.phase == EnablePhase::AwaitSettings && (r.1 matches Ok(a)
                && a is ReadProxySettings),
            !ok ==> r.0@.phase == EnablePhase::Finished && (r.1 matches Err(e)
                && e is ProxyCoreUnavailable),
    {
        if ok {
            (
                EnableFlow { phase: EnablePhase::AwaitSettings, ..self },
                Ok(EnableAction::ReadProxySettings),
            )
        } else {
            (
                EnableFlow { phase: EnablePhase::Finished, ..self },
                Err(VpnError::ProxyCoreUnavailable),
            )
        }
    }

    /// The proxy core's live settings were read: derive the configuration
    /// and probe its effective port next.
    pub fn on_settings(self, s: &ProxySettings) -> (r: (EnableFlow, EnableAction))
        requires
            self@.phase == EnablePhase::AwaitSettings,
        ensures
            r.0@.phase == EnablePhase::AwaitProbe,
            r.0@.config == Some(derived_config(s@)),
            r.0.wf(),
            r.1 == EnableAction::ProbePort(effective_port(s@)),
    {
        let c = VpnConfig::derive(s);
        let port = c.clash_port;
        (
            EnableFlow { phase: EnablePhase::AwaitProbe, config: Some(c) },
            EnableAction::ProbePort(port),
        )
    }

    /// The probe finished. An unreachable port aborts the operation before
    /// any state mutation; a reachable one proceeds to conflict resolution.
    pub fn on_probe(self, reachable: bool) -> (r: (EnableFlow, Result<EnableAction, VpnError>))
        requires
            self@.phase == EnablePhase::AwaitProbe,
            self.wf(),
        ensures
            r.0@.config == self@.config,
            r.0.wf(),
            reachable ==> r.0@.phase == EnablePhase::AwaitTunFlag && (r.1 matches Ok(a)
                && a is ReadTunFlag),
            !reachable ==> r.0@.phase == EnablePhase::Finished && (r.1 matches Err(e)
                && e is ProxyCoreUnavailable),
    {
        if reachable {
            (EnableFlow { phase: EnablePhase::AwaitTunFlag, ..self }, Ok(EnableAction::ReadTunFlag))
        } else {
            (
                EnableFlow { phase: EnablePhase::Finished, ..self },
                Err(VpnError::ProxyCoreUnavailable),
            )
        }
    }

    /// The persisted TUN-mode flag was read. An enabled flag conflicts with
    /// the tunnel and is switched off before the helper runs; otherwise the
    /// configuration is installed (first use) or updated.
    pub fn on_tun_flag(self, enabled: bool, m: &VpnManager) -> (r: (EnableFlow, EnableAction))
        requires
            self@.phase == EnablePhase::AwaitTunFlag,
            self.wf(),
        ensures
            r.0@.config == self@.config,
            r.0.wf(),
            enabled ==> r.0@.phase == EnablePhase::AwaitTunPersist && r.1 is DisableTunFlag,
            !enabled ==> r.0@.phase == EnablePhase::AwaitConfigHelper && is_config_request(
                r.1,
                m@,
                self@.config->0,
            ),
    {
        if enabled {
            (
                EnableFlow { phase: EnablePhase::AwaitTunPersist, ..self },
                EnableAction::DisableTunFlag,
            )
        } else {
            self.dispatch_config_helper(m)
        }
    }

    /// The TUN flag write finished. A persist failure aborts the operation;
    /// success proceeds to the helper invocation.
    pub fn on_tun_persisted(self, ok: bool, m: &VpnManager) -> (r: (
        EnableFlow,
        Result<EnableAction, VpnError>,
    ))
        requires
            self@.phase == EnablePhase::AwaitTunPersist,
            self.wf(),
        ensures
            r.0@.config == self@.config,
            r.0.wf(),
            ok ==> r.0@.phase == EnablePhase::AwaitConfigHelper && (r.1 matches Ok(a)
                && is_config_request(a, m@, self@.config->0)),
            !ok ==> r.0@.phase == EnablePhase::Finished && (r.1 matches Err(e)
                && e is ConfigPersistFailed),
    {
        if ok {
            let (flow, a) = self.dispatch_config_helper(m);
            (flow, Ok(a))
        } else {
            (EnableFlow { phase: EnablePhase::Finished, ..self }, Err(VpnError::ConfigPersistFailed))
        }
    }

    /// Dispatch the `install` or `update` helper call for the derived
    /// configuration: `install` on first use, `update` once installed.
    fn dispatch_config_helper(self, m: &VpnManager) -> (r: (EnableFlow, EnableAction))
        requires
            self@.config is Some,
        ensures
            r.0@.config == self@.config,
            r.0@.phase == EnablePhase::AwaitConfigHelper,
            is_config_request(r.1, m@, self@.config->0),
    {
        let action = if m.is_installed() {
            HelperAction::Update
        } else {
            HelperAction::Install
        };
        let req = match &self.config {
            Some(c) => HelperRequest::for_config(action, c),
            None => unreached(),
        };
        (
            EnableFlow { phase: EnablePhase::AwaitConfigHelper, ..self },
            EnableAction::RunHelper(req),
        )
    }

    /// The `install`/`update` helper call finished. On success the one-time
    /// install flag is recorded and the `start` call follows; any failure
    /// aborts, leaving the manager untouched.
    pub fn on_config_helper(self, outcome: HelperOutcome, m: &mut VpnManager) -> (r: (
        EnableFlow,
        Result<EnableAction, VpnError>,
    ))
        requires
            self@.phase == EnablePhase::AwaitConfigHelper,
            self.wf(),
        ensures
            r.0@.config == self@.config,
            r.0.wf(),
            outcome is Succeeded ==> final(m)@ == old(m)@.mark_installed() && r.0@.phase
                == EnablePhase::AwaitStartHelper && (r.1 matches Ok(a) && is_start_request(
                a,
                self@.config->0,
            )),
            outcome is NotFound ==> final(m)@ == old(m)@ && r.0@.phase == EnablePhase::Finished && (
            r.1 matches Err(e) && e is HelperNotFound),
            outcome matches HelperOutcome::Failed(stderr) ==> final(m)@ == old(m)@ && r.0@.phase
                == EnablePhase::Finished && (r.1 matches Err(e) && (
            e matches VpnError::HelperExecutionFailed(t) && t == stderr)),
    {
        match outcome {
            HelperOutcome::Succeeded => {
                m.record_installed();
                let req = match &self.config {
                    Some(c) => HelperRequest::for_config(HelperAction::Start, c),
                    None => unreached(),
                };
                (
                    EnableFlow { phase: EnablePhase::AwaitStartHelper, ..self },
                    Ok(EnableAction::RunHelper(req)),
                )
            },
            HelperOutcome::NotFound => {
                (EnableFlow { phase: EnablePhase::Finished, ..self }, Err(VpnError::HelperNotFound))
            },
            HelperOutcome::Failed(stderr) => {
                (
                    EnableFlow { phase: EnablePhase::Finished, ..self },
                    Err(VpnError::HelperExecutionFailed(stderr)),
                )
            },
        }
    }

    /// The `start` helper call finished. On success the derived
    /// configuration is stored and the status becomes `Connected`; any
    /// failure aborts, leaving the status as it was before the call.
    pub fn on_start_helper(self, outcome: HelperOutcome, m: &mut VpnManager) -> (r: Result<
        (),
        VpnError,
    >)
        requires
            self@.phase == EnablePhase::AwaitStartHelper,
            self.wf(),
        ensures
            outcome is Succeeded ==> final(m)@ == old(m)@.connected(self@.config->0) && r is Ok,
            outcome is NotFound ==> final(m)@ == old(m)@ && (r matches Err(e)
                && e is HelperNotFound),
            outcome matches HelperOutcome::Failed(stderr) ==> final(m)@ == old(m)@ && (
            r matches Err(e) && (e matches VpnError::HelperExecutionFailed(t) && t == stderr)),
    {
        match outcome {
            HelperOutcome::Succeeded => {
                match self.config {
                    Some(c) => {
                        m.commit_connected(c);
                        Ok(())
                    },
                    None => unreached(),
                }
            },
            HelperOutcome::NotFound => Err(VpnError::HelperNotFound),
            HelperOutcome::Failed(stderr) => Err(VpnError::HelperExecutionFailed(stderr)),
        }
    }
}

} // verus!
