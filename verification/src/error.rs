use vstd::prelude::*;
use vstd::string::StringExecFns;

verus! {

/// Why an enable or disable operation failed. Every failure is local to a
/// single call; nothing is retried.
#[derive(Clone, Debug)]
pub enum VpnError {
    /// The proxy core's listener stayed unreachable after any startup and
    /// settle attempt.
    ProxyCoreUnavailable,
    /// The privileged helper binary was absent from its expected path.
    HelperNotFound,
    /// The helper subprocess exited with a failure status; carries the
    /// helper's captured standard-error text.
    HelperExecutionFailed(String),
    /// Persisting the TUN-mode flag to configuration failed.
    ConfigPersistFailed,
}

impl VpnError {
    /// The human-readable message surfaced to callers. The helper's
    /// standard-error text is carried verbatim.
    pub open spec fn message_chars(self) -> Seq<char> {
        match self {
            VpnError::ProxyCoreUnavailable => "proxy core port unavailable, make sure the proxy core is running"@,
            VpnError::HelperNotFound => "VPN helper tool not found next to the executable"@,
            VpnError::HelperExecutionFailed(stderr) => "VPN helper operation failed: "@ + stderr@,
            VpnError::ConfigPersistFailed => "failed to persist the TUN mode setting"@,
        }
    }

    /// Render the human-readable message for this failure.
    pub fn message(&self) -> (s: String)
        ensures
            s@ == self.message_chars(),
    {
        match self {
            VpnError::ProxyCoreUnavailable => "proxy core port unavailable, make sure the proxy core is running".to_owned(),
            VpnError::HelperNotFound => "VPN helper tool not found next to the executable".to_owned(),
            VpnError::HelperExecutionFailed(stderr) => {
                let mut out = "VPN helper operation failed: ".to_owned();
                out.append(stderr.as_str());
                out
            },
            VpnError::ConfigPersistFailed => "failed to persist the TUN mode setting".to_owned(),
        }
    }
}

} // verus!
