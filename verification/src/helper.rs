use vstd::prelude::*;
use vstd::string::StringExecFns;
use crate::config::VpnConfig;
use crate::encode::config_json;
use crate::encode::config_request_body;
use crate::encode::empty_json;
use crate::encode::empty_request_body;
use crate::error::VpnError;

verus! {

/// One action the privileged helper performs: one-time OS registration of the
/// tunnel, an update of its configuration, or starting or stopping it.
#[derive(Clone, Copy, Debug, PartialEq, Eq, Structural)]
pub enum HelperAction {
    Install,
    Update,
    Start,
    Stop,
}

/// The argument word passed to the helper binary for an action.
pub open spec fn action_name_chars(a: HelperAction) -> Seq<char> {
    match a {
        HelperAction::Install => "install"@,
        HelperAction::Update => "update"@,
        HelperAction::Start => "start"@,
        HelperAction::Stop => "stop"@,
    }
}

/// Render the argument word passed to the helper binary for an action.
pub fn action_name(a: HelperAction) -> (s: String)
    ensures
        s@ == action_name_chars(a),
{
    match a {
        HelperAction::Install => "install".to_owned(),
        HelperAction::Update => "update".to_owned(),
        HelperAction::Start => "start".to_owned(),
        HelperAction::Stop => "stop".to_owned(),
    }
}

/// What one attempt to run the privileged helper reported back.
#[derive(Clone, Debug)]
pub enum HelperOutcome {
    /// The helper binary was absent from its expected path; nothing ran.
    NotFound,
    /// The subprocess ran and exited with a failing status; carries its
    /// captured standard-error text.
    Failed(String),
    /// The subprocess exited with the success status.
    Succeeded,
}

/// The result an operation reports for a helper outcome: success exactly when
/// the subprocess succeeded, and otherwise the matching error, carrying the
/// helper's standard-error text verbatim.
pub open spec fn outcome_result(o: HelperOutcome) -> Result<(), VpnError> {
    match o {
        HelperOutcome::Succeeded => Ok(()),
        HelperOutcome::NotFound => Err(VpnError::HelperNotFound),
        HelperOutcome::Failed(stderr) => Err(VpnError::HelperExecutionFailed(stderr)),
    }
}

/// Turn a helper outcome into the result surfaced to the caller.
pub fn outcome_to_result(o: HelperOutcome) -> (r: Result<(), VpnError>)
    ensures
        r == outcome_result(o),
{
    match o {
        HelperOutcome::Succeeded => Ok(()),
        HelperOutcome::NotFound => Err(VpnError::HelperNotFound),
        HelperOutcome::Failed(stderr) => Err(VpnError::HelperExecutionFailed(stderr)),
    }
}

/// A fully formed helper invocation: the action word for the command line and
/// the JSON body to write to the subprocess's standard input. Every action
/// carries the full current configuration, or the empty body when none is
/// stored.
#[derive(Clone, Debug)]
pub struct HelperRequest {
    pub action: HelperAction,
    pub body: String,
}

impl HelperRequest {
    /// Build the helper invocation for an action carrying a configuration.
    pub fn for_config(action: HelperAction, c: &VpnConfig) -> (r: HelperRequest)
        ensures
            r.action == action,
            r.body@ == config_json(c@),
    {
        HelperRequest { action, body: config_request_body(c) }
    }

    /// Build the helper invocation for an action with no stored configuration.
    pub fn without_config(action: HelperAction) -> (r: HelperRequest)
        ensures
            r.action == action,
            r.body@ == empty_json(),
    {
        HelperRequest { action, body: empty_request_body() }
    }
}

/// The service name under which the tunnel is registered with the host, as
/// used by the networksetup-based helper client.
pub fn vpn_service_name(node: &str) -> (s: String)
    ensures
        s@ == "Clash Nyanpasu - "@ + node@,
{
    let mut out = "Clash Nyanpasu - ".to_owned();
    out.append(node);
    out
}

} // verus!
