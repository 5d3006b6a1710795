//! A bookmark manager for remote shell targets: named connection
//! records with host, user, port, credential material and tags; the
//! store they live in; the command lists handed to the system's own
//! client and copy tool; and the interactive terminal relay that
//! carries a session over the linked protocol implementation, with the
//! guarantee that a terminal switched into raw mode is restored on
//! every exit path.

use vstd::prelude::*;

mod cli;
mod config;
mod cp;
mod listing;
mod params;
mod relay;
mod session;
mod sshcmd;
mod tags;
mod terminal;
mod text;

pub use cli::Cli;
pub use cli::Commands;
pub use cli::TemplateAction;
pub use config::Config;
pub use config::ConfigError;
pub use config::ConfigManager;
pub use config::ConfigView;
pub use config::default_path_suffix;
pub use config::find_session;
pub use config::find_template;
pub use config::has_session_name;
pub use config::has_template_name;
pub use config::lemma_find_session_some;
pub use config::lemma_find_template_some;
pub use config::search_matches;
pub use cp::CopyError;
pub use cp::CopyPlan;
pub use cp::CpError;
pub use cp::find_colon;
pub use cp::generate_scp_uri;
pub use cp::handle_cp;
pub use cp::named_session;
pub use cp::parse_path;
pub use cp::plan_copy;
pub use cp::scp_args_view;
pub use cp::scp_uri_view;
pub use listing::TagAction;
pub use listing::TagError;
pub use listing::join_tags;
pub use listing::joined_tags;
pub use listing::lower_ascii;
pub use listing::matches_lowered;
pub use listing::parse_tag_action;
pub use listing::session_label;
pub use listing::session_label_view;
pub use listing::sessions_with_any_tag;
pub use listing::tag_action_of;
pub use listing::tag_edit_view;
pub use listing::tag_suffix_view;
pub use listing::tags_intersect;
pub use listing::updated_tags;
pub use params::ParamsError;
pub use params::SessionAddition;
pub use params::SessionModification;
pub use params::SessionParams;
pub use params::auth_of;
pub use params::merged_password;
pub use relay::Action;
pub use relay::AuthFailure;
pub use relay::ConnectFailure;
pub use relay::ConnectionDescriptor;
pub use relay::Coordinator;
pub use relay::Credential;
pub use relay::Event;
pub use relay::Phase;
pub use relay::RelayEnd;
pub use relay::Ssh2Connector;
pub use relay::before_raw_attempt;
pub use relay::concat_bytes;
pub use relay::delivering_data;
pub use relay::lemma_bytes_deep_view;
pub use relay::lemma_concat_bytes_push;
pub use relay::lemma_early_failure_terminal_untouched;
pub use relay::lemma_eof_ends_relay;
pub use relay::lemma_local_input_preserved;
pub use relay::lemma_remote_output_in_order;
pub use relay::lemma_terminal_restored;
pub use relay::relay_active;
pub use session::AuthType;
pub use session::Session;
pub use session::SessionBuilder;
pub use session::SessionError;
pub use session::SessionView;
pub use session::Template;
pub use session::TemplateView;
pub use session::opt_string_view;
pub use sshcmd::CommandSpec;
pub use sshcmd::SshCmdError;
pub use sshcmd::SystemSshConnector;
pub use sshcmd::connect_ssh_args;
pub use sshcmd::connect_ssh_args_view;
pub use sshcmd::control_path_for;
pub use sshcmd::control_path_view;
pub use sshcmd::identity_args;
pub use sshcmd::master_close_args;
pub use sshcmd::master_close_args_view;
pub use sshcmd::master_create_args;
pub use sshcmd::master_create_args_view;
pub use sshcmd::password_missing;
pub use sshcmd::password_prefix_args;
pub use sshcmd::port_user_args;
pub use sshcmd::ssh_program_view;
pub use sshcmd::system_connect_args_view;
pub use sshcmd::target_view;
pub use tags::normalize_tags;
pub use tags::parse_tags;
pub use tags::parse_tags_view;
pub use tags::split_segments;
pub use terminal::TermAttrs;
pub use terminal::TerminalModeGuard;
pub use terminal::lemma_raw_mode_disables;
pub use terminal::raw_mode;
pub use terminal::raw_mode_view;
pub use text::contains_seq;
pub use text::contains_substr;
pub use text::dec_rep;
pub use text::is_space_char;
pub use text::str_eq;
pub use text::trim_str;
pub use text::trimmed_view;
pub use text::u16_to_dec;
pub use text::vec_contains_str;

verus! {

} // verus!
