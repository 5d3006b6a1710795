//! The command surface as plain data: what was asked on the command
//! line, after parsing, and how the add and modify commands fold their
//! flags into record fields.

use vstd::prelude::*;

use crate::params::SessionParams;

verus! {

/// One template subcommand.
pub enum TemplateAction {
    List,
    Delete { name: String },
    Add { name: String, session: String },
}

/// One parsed command.
pub enum Commands {
    Version,
    List { detailed: bool, tags: Option<String> },
    Add {
        name: Option<String>,
        host: Option<String>,
        user: Option<String>,
        port: Option<u16>,
        auth_type: Option<String>,
        key_path: Option<String>,
        password: Option<String>,
        tags: Option<String>,
        template: Option<String>,
    },
    Delete { names: Vec<String>, tag: Option<String> },
    Modify {
        name: String,
        host: Option<String>,
        user: Option<String>,
        port: Option<u16>,
        auth_type: Option<String>,
        key_path: Option<String>,
        password: Option<String>,
        tags: Option<String>,
    },
    Login { name: Option<String>, tags: Option<String> },
    Tag { name: String, action: String, tags: Option<String> },
    Template { action: TemplateAction },
    Cp { paths: Vec<String>, src: Option<String>, dst: Option<String>, recursive: bool },
}

/// The whole parsed command line.
pub struct Cli {
    pub command: Commands,
}

impl Commands {
    /// The record fields an add or modify command carries; nothing for
    /// the other commands. A modify carries its record name as the
    /// target name.
    pub fn session_params(self) -> (r: Option<SessionParams>)
        ensures
            match self {
                Commands::Add {
                    name,
                    host,
                    user,
                    port,
                    auth_type,
                    key_path,
                    password,
                    tags,
                    template,
                } => r == Some(
                    SessionParams { name, host, user, port, auth_type, key_path, password, tags },
                ),
                Commands::Modify { name, host, user, port, auth_type, key_path, password, tags } => r
                    == Some(
                    SessionParams {
                        name: Some(name),
                        host,
                        user,
                        port,
                        auth_type,
                        key_path,
                        password,
                        tags,
                    },
                ),
                _ => r is None,
            },
    {
        match self {
            Commands::Add {
                name,
                host,
                user,
                port,
                auth_type,
                key_path,
                password,
                tags,
                template: _,
            } => Some(SessionParams { name, host, user, port, auth_type, key_path, password, tags }),
            Commands::Modify { name, host, user, port, auth_type, key_path, password, tags } => Some(
                SessionParams {
                    name: Some(name),
                    host,
                    user,
                    port,
                    auth_type,
                    key_path,
                    password,
                    tags,
                },
            ),
            _ => None,
        }
    }
}

} // verus!
