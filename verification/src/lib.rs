#![allow(unused_imports)]

pub mod commands;
pub mod config;
pub mod encode;
pub mod error;
pub mod flow;
pub mod helper;
pub mod laws;
pub mod manager;
pub mod platform;
pub mod status;

pub use commands::VpnExtensionStatus;
pub use commands::status_label;
pub use commands::status_label_chars;
pub use commands::vpn_extension_status;
pub use laws::lemma_disable_converges;
pub use laws::lemma_enable_stores_live_config;
pub use laws::lemma_installed_is_sticky;
pub use laws::lemma_status_never_invalid;
pub use platform::VpnStatus;

pub use config::ConfigView;
pub use config::DEFAULT_PROXY_PORT;
pub use config::ProxySettings;
pub use config::SettingsView;
pub use config::VpnConfig;
pub use config::derived_config;
pub use config::effective_node;
pub use config::effective_port;
pub use encode::config_json;
pub use encode::config_request_body;
pub use encode::dec_rep;
pub use encode::empty_json;
pub use encode::empty_request_body;
pub use encode::json_escape;
pub use encode::loopback_addr;
pub use encode::u16_decimal;
pub use error::VpnError;
pub use flow::EnableAction;
pub use flow::EnableFlow;
pub use flow::EnablePhase;
pub use flow::FlowView;
pub use flow::is_config_request;
pub use flow::is_start_request;
pub use helper::HelperAction;
pub use helper::HelperOutcome;
pub use helper::HelperRequest;
pub use helper::action_name;
pub use helper::action_name_chars;
pub use helper::outcome_result;
pub use helper::outcome_to_result;
pub use helper::vpn_service_name;
pub use manager::ManagerView;
pub use manager::VpnManager;
pub use status::VpnConnectionStatus;
