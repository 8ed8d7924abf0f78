use vstd::prelude::*;
use crate::config::ConfigView;
use crate::config::VpnConfig;
use crate::encode::config_json;
use crate::encode::empty_json;
use crate::error::VpnError;
use crate::helper::HelperAction;
use crate::helper::HelperOutcome;
use crate::helper::HelperRequest;
use crate::helper::outcome_result;
use crate::helper::outcome_to_result;
use crate::status::VpnConnectionStatus;

verus! {

/// Mathematical view of the lifecycle manager's state: the last stored
/// configuration, the current status, and the one-time install flag.
pub ghost struct ManagerView {
    pub config: Option<ConfigView>,
    pub status: VpnConnectionStatus,
    pub installed: bool,
}

impl ManagerView {
    /// The state a fresh manager starts in: no configuration, disconnected,
    /// nothing installed.
    pub open spec fn init() -> ManagerView {
        ManagerView { config: None, status: VpnConnectionStatus::Disconnected, installed: false }
    }

    /// The state after the one-time OS registration succeeded: only the
    /// install flag changes, and only ever to true.
    pub open spec fn mark_installed(self) -> ManagerView {
        ManagerView { installed: true, ..self }
    }

    /// The state after an enable operation fully succeeded: the derived
    /// configuration is stored and the status becomes `Connected`.
    pub open spec fn connected(self, c: ConfigView) -> ManagerView {
        ManagerView { config: Some(c), status: VpnConnectionStatus::Connected, ..self }
    }

    /// The state at the start of a disable operation.
    pub open spec fn disconnecting(self) -> ManagerView {
        ManagerView { status: VpnConnectionStatus::Disconnecting, ..self }
    }

    /// The state once a disable operation's stop attempt has completed: the
    /// stored configuration and the install flag are preserved for a later
    /// re-enable.
    pub open spec fn disconnected(self) -> ManagerView {
        ManagerView { status: VpnConnectionStatus::Disconnected, ..self }
    }
}

/// The VPN lifecycle manager. It owns the last stored configuration, the
/// current connection status, and the flag recording whether the one-time
/// OS-level registration has been performed.
///
/// Construct one instance at process startup and pass it by reference to
/// every caller; callers that may overlap must serialize whole operations
/// around it.
pub struct VpnManager {
    config: Option<VpnConfig>,
    status: VpnConnectionStatus,
    installed: bool,
}

impl View for VpnManager {
    type V = ManagerView;

    closed spec fn view(&self) -> ManagerView {
        ManagerView {
            config: match self.config {
                Some(c) => Some(c@),
                None => None,
            },
            status: self.status,
            installed: self.installed,
        }
    }
}

impl VpnManager {
    /// A fresh manager: disconnected, no configuration, nothing installed.
    pub fn new() -> (m: VpnManager)
        ensures
            m@ == ManagerView::init(),
    {
        VpnManager {
            config: None,
            status: VpnConnectionStatus::Disconnected,
            installed: false,
        }
    }

    /// Current status: a pure read, no side effects.
    pub fn get_status(&self) -> (s: VpnConnectionStatus)
        ensures
            s == self@.status,
    {
        self.status
    }

    /// Whether the one-time OS registration has been performed.
    pub fn is_installed(&self) -> (b: bool)
        ensures
            b == self@.installed,
    {
        self.installed
    }

    /// The stored configuration, if an enable has succeeded before.
    pub fn current_config(&self) -> (c: &Option<VpnConfig>)
        ensures
            (self@.config is Some <==> c is Some),
            (c matches Some(cv) ==> self@.config == Some(cv@)),
    {
        &self.config
    }

    /// Record that the one-time OS registration succeeded.
    pub(crate) fn record_installed(&mut self)
        ensures
            final(self)@ == old(self)@.mark_installed(),
    {
        self.installed = true;
    }

    /// Commit a fully successful enable: store the derived configuration and
    /// become `Connected`.
    pub(crate) fn commit_connected(&mut self, c: VpnConfig)
        ensures
            final(self)@ == old(self)@.connected(c@),
    {
        self.config = Some(c);
        self.status = VpnConnectionStatus::Connected;
    }

    /// Begin a disable operation: the status becomes `Disconnecting`, and the
    /// returned request is the helper `stop` invocation to perform, carrying
    /// the stored configuration (or the empty body when none is stored).
    pub fn begin_disable(&mut self) -> (req: HelperRequest)
        ensures
            final(self)@ == old(self)@.disconnecting(),
            req.action == HelperAction::Stop,
            (old(self)@.config matches Some(c) ==> req.body@ == config_json(c)),
            (old(self)@.config is None ==> req.body@ == empty_json()),
    {
        self.status = VpnConnectionStatus::Disconnecting;
        match &self.config {
            Some(c) => HelperRequest::for_config(HelperAction::Stop, c),
            None => HelperRequest::without_config(HelperAction::Stop),
        }
    }

    /// Finish a disable operation once the stop attempt has completed: the
    /// status becomes `Disconnected` whatever the helper reported — teardown
    /// is best-effort, the tunnel may already be gone — while a helper
    /// failure is still reported to the caller. Configuration and install
    /// flag are preserved.
    pub fn finish_disable(&mut self, outcome: HelperOutcome) -> (r: Result<(), VpnError>)
        ensures
            final(self)@ == old(self)@.disconnected(),
            r == outcome_result(outcome),
    {
        self.status = VpnConnectionStatus::Disconnected;
        outcome_to_result(outcome)
    }
}

} // verus!
