//! The fields a command line hands over when a record is added or
//! modified, and how they become a record: missing fields fall back to
//! the record being modified, the credential kind is parsed from text,
//! and the tag text is parsed into a tag list.

use vstd::prelude::*;

use crate::session::AuthType;
use crate::session::Session;
use crate::session::SessionView;
use crate::session::opt_string_view;
use crate::tags::parse_tags;
use crate::tags::parse_tags_view;

verus! {

/// Why a record could not be made from the given fields.
#[derive(Clone, Copy, Debug, PartialEq, Eq, Structural)]
pub enum ParamsError {
    InvalidAuthType,
}

/// What `AuthType::from_name` makes of a credential-kind text.
pub open spec fn auth_of(s: Seq<char>) -> Option<AuthType> {
    if s == "key"@ {
        Some(AuthType::Key)
    } else if s == "password"@ {
        Some(AuthType::Password)
    } else {
        None
    }
}

/// The record fields as a command line supplies them: every one
/// optional, the credential kind and the tags still plain text.
pub struct SessionParams {
    pub name: Option<String>,
    pub host: Option<String>,
    pub user: Option<String>,
    pub port: Option<u16>,
    pub auth_type: Option<String>,
    pub key_path: Option<String>,
    pub password: Option<String>,
    pub tags: Option<String>,
}

impl SessionParams {
    pub fn new(
        name: Option<String>,
        host: Option<String>,
        user: Option<String>,
        port: Option<u16>,
        auth_type: Option<String>,
        key_path: Option<String>,
        password: Option<String>,
        tags: Option<String>,
    ) -> (p: SessionParams)
        ensures
            p == (SessionParams { name, host, user, port, auth_type, key_path, password, tags }),
    {
        SessionParams { name, host, user, port, auth_type, key_path, password, tags }
    }

    /// Every field named on the command line: the branch that skips the
    /// interactive prompts when a record is added.
    pub open spec fn names_target(self) -> bool {
        &&& self.name is Some
        &&& self.host is Some
        &&& self.user is Some
    }

    /// The view of the record these fields describe on their own.
    pub open spec fn new_session_view(self) -> SessionView {
        SessionView {
            name: self.name->0@,
            host: self.host->0@,
            user: self.user->0@,
            port: self.port->0,
            auth_type: auth_of(self.auth_type->0@)->0,
            private_key_path: opt_string_view(self.key_path),
            password: opt_string_view(self.password),
            tags: match self.tags {
                Some(t) => parse_tags_view(t@),
                None => Seq::<Seq<char>>::empty(),
            },
        }
    }

    /// Makes a fresh record out of the fields alone. The required fields
    /// must be present, and a record that the credential-kind text lets
    /// through must pass validation; an unknown credential kind is the
    /// one reported failure.
    pub fn build_session(self) -> (r: Result<Session, ParamsError>)
        requires
            self.names_target(),
            self.auth_type is Some,
            self.port is Some,
            auth_of(self.auth_type->0@) is Some ==> self.new_session_view().valid(),
        ensures
            r is Ok <==> auth_of(self.auth_type->0@) is Some,
            r is Ok ==> r->Ok_0@ == self.new_session_view(),
            r is Err ==> r->Err_0 == ParamsError::InvalidAuthType,
    {
        let auth_text = match self.auth_type {
            Some(a) => a,
            None => {
                return Err(ParamsError::InvalidAuthType);
            },
        };
        let auth = match AuthType::from_name(auth_text.as_str()) {
            Some(a) => a,
            None => {
                return Err(ParamsError::InvalidAuthType);
            },
        };
        let name = self.name.unwrap();
        let host = self.host.unwrap();
        let user = self.user.unwrap();
        let port = self.port.unwrap();
        let tags = parse_tags(self.tags.as_ref());
        Ok(
            Session::new(
                name,
                host,
                user,
                port,
                auth,
                self.key_path,
                self.password,
                Some(tags),
            ),
        )
    }

    /// The view of the record that modifying `base` with these fields
    /// produces: the name stays, every given field replaces its
    /// counterpart, credential material falls back to what the record
    /// held, and a given tag text replaces the tag list.
    pub open spec fn modified_view(self, base: SessionView) -> SessionView {
        SessionView {
            name: base.name,
            host: if self.host is Some {
                self.host->0@
            } else {
                base.host
            },
            user: if self.user is Some {
                self.user->0@
            } else {
                base.user
            },
            port: if self.port is Some {
                self.port->0
            } else {
                base.port
            },
            auth_type: auth_of(self.auth_type->0@)->0,
            private_key_path: if self.key_path is Some {
                opt_string_view(self.key_path)
            } else {
                base.private_key_path
            },
            password: if self.password is Some {
                opt_string_view(self.password)
            } else {
                base.password
            },
            tags: match self.tags {
                Some(t) => parse_tags_view(t@),
                None => base.tags,
            },
        }
    }

    /// Modifies `base` with the given fields. The credential-kind text
    /// must be present, and a record that it lets through must pass
    /// validation; an unknown credential kind is the one reported
    /// failure.
    pub fn apply_to(self, base: &Session) -> (r: Result<Session, ParamsError>)
        requires
            self.auth_type is Some,
            auth_of(self.auth_type->0@) is Some ==> self.modified_view(base@).valid(),
        ensures
            r is Ok <==> auth_of(self.auth_type->0@) is Some,
            r is Ok ==> r->Ok_0@ == self.modified_view(base@),
            r is Err ==> r->Err_0 == ParamsError::InvalidAuthType,
    {
        let auth_text = match self.auth_type {
            Some(a) => a,
            None => {
                return Err(ParamsError::InvalidAuthType);
            },
        };
        let auth = match AuthType::from_name(auth_text.as_str()) {
            Some(a) => a,
            None => {
                return Err(ParamsError::InvalidAuthType);
            },
        };
        let name = base.name.clone();
        let host = match self.host {
            Some(h) => h,
            None => base.host.clone(),
        };
        let user = match self.user {
            Some(u) => u,
            None => base.user.clone(),
        };
        let port = match self.port {
            Some(p) => p,
            None => base.port,
        };
        let key_path = match self.key_path {
            Some(k) => Some(k),
            None => crate::session::clone_opt_string(&base.private_key_path),
        };
        let password = match self.password {
            Some(p) => Some(p),
            None => crate::session::clone_opt_string(&base.password),
        };
        let tags = match self.tags.as_ref() {
            Some(t) => parse_tags(Some(t)),
            None => crate::session::clone_string_vec(&base.tags),
        };
        Ok(Session::new(name, host, user, port, auth, key_path, password, Some(tags)))
    }
}

/// What a password prompt that may be left empty settles on: the typed
/// text, or the previous password when nothing was typed.
pub fn merged_password(entered: String, previous: Option<String>) -> (r: Option<String>)
    ensures
        entered@.len() == 0 ==> opt_string_view(r) == opt_string_view(previous),
        entered@.len() > 0 ==> r == Some(entered),
{
    if entered.as_str().is_empty() {
        previous
    } else {
        Some(entered)
    }
}

/// The add command's fields gathered builder-style, one call per flag.
pub struct SessionAddition {
    pub name: Option<String>,
    pub host: Option<String>,
    pub user: Option<String>,
    pub port: Option<u16>,
    pub auth_type: Option<String>,
    pub key_path: Option<String>,
    pub password: Option<String>,
    pub tags: Option<String>,
}

impl SessionAddition {
    pub fn new() -> (a: SessionAddition)
        ensures
            a == (SessionAddition {
                name: None::<String>,
                host: None::<String>,
                user: None::<String>,
                port: None::<u16>,
                auth_type: None::<String>,
                key_path: None::<String>,
                password: None::<String>,
                tags: None::<String>,
            }),
    {
        SessionAddition {
            name: None,
            host: None,
            user: None,
            port: None,
            auth_type: None,
            key_path: None,
            password: None,
            tags: None,
        }
    }

    pub fn with_name(self, name: Option<String>) -> (a: SessionAddition)
        ensures
            a == (SessionAddition { name, ..self }),
    {
        SessionAddition { name, ..self }
    }

    pub fn with_host(self, host: Option<String>) -> (a: SessionAddition)
        ensures
            a == (SessionAddition { host, ..self }),
    {
        SessionAddition { host, ..self }
    }

    pub fn with_user(self, user: Option<String>) -> (a: SessionAddition)
        ensures
            a == (SessionAddition { user, ..self }),
    {
        SessionAddition { user, ..self }
    }

    pub fn with_port(self, port: Option<u16>) -> (a: SessionAddition)
        ensures
            a == (SessionAddition { port, ..self }),
    {
        SessionAddition { port, ..self }
    }

    pub fn with_auth_type(self, auth_type: Option<String>) -> (a: SessionAddition)
        ensures
            a == (SessionAddition { auth_type, ..self }),
    {
        SessionAddition { auth_type, ..self }
    }

    pub fn with_key_path(self, key_path: Option<String>) -> (a: SessionAddition)
        ensures
            a == (SessionAddition { key_path, ..self }),
    {
        SessionAddition { key_path, ..self }
    }

    pub fn with_password(self, password: Option<String>) -> (a: SessionAddition)
        ensures
            a == (SessionAddition { password, ..self }),
    {
        SessionAddition { password, ..self }
    }

    pub fn with_tags(self, tags: Option<String>) -> (a: SessionAddition)
        ensures
            a == (SessionAddition { tags, ..self }),
    {
        SessionAddition { tags, ..self }
    }

    /// The gathered fields as command parameters.
    pub fn params(self) -> (p: SessionParams)
        ensures
            p == (SessionParams {
                name: self.name,
                host: self.host,
                user: self.user,
                port: self.port,
                auth_type: self.auth_type,
                key_path: self.key_path,
                password: self.password,
                tags: self.tags,
            }),
    {
        SessionParams {
            name: self.name,
            host: self.host,
            user: self.user,
            port: self.port,
            auth_type: self.auth_type,
            key_path: self.key_path,
            password: self.password,
            tags: self.tags,
        }
    }
}

/// The modify command's fields gathered builder-style; the record name
/// is named separately, so there is no name field here.
pub struct SessionModification {
    pub host: Option<String>,
    pub user: Option<String>,
    pub port: Option<u16>,
    pub auth_type: Option<String>,
    pub key_path: Option<String>,
    pub password: Option<String>,
    pub tags: Option<String>,
}

impl SessionModification {
    pub fn new() -> (m: SessionModification)
        ensures
            m == (SessionModification {
                host: None::<String>,
                user: None::<String>,
                port: None::<u16>,
                auth_type: None::<String>,
                key_path: None::<String>,
                password: None::<String>,
                tags: None::<String>,
            }),
    {
        SessionModification {
            host: None,
            user: None,
            port: None,
            auth_type: None,
            key_path: None,
            password: None,
            tags: None,
        }
    }

    pub fn with_host(self, host: Option<String>) -> (m: SessionModification)
        ensures
            m == (SessionModification { host, ..self }),
    {
        SessionModification { host, ..self }
    }

    pub fn with_user(self, user: Option<String>) -> (m: SessionModification)
        ensures
            m == (SessionModification { user, ..self }),
    {
        SessionModification { user, ..self }
    }

    pub fn with_port(self, port: Option<u16>) -> (m: SessionModification)
        ensures
            m == (SessionModification { port, ..self }),
    {
        SessionModification { port, ..self }
    }

    pub fn with_auth_type(self, auth_type: Option<String>) -> (m: SessionModification)
        ensures
            m == (SessionModification { auth_type, ..self }),
    {
        SessionModification { auth_type, ..self }
    }

    pub fn with_key_path(self, key_path: Option<String>) -> (m: SessionModification)
        ensures
            m == (SessionModification { key_path, ..self }),
    {
        SessionModification { key_path, ..self }
    }

    pub fn with_password(self, password: Option<String>) -> (m: SessionModification)
        ensures
            m == (SessionModification { password, ..self }),
    {
        SessionModification { password, ..self }
    }

    pub fn with_tags(self, tags: Option<String>) -> (m: SessionModification)
        ensures
            m == (SessionModification { tags, ..self }),
    {
        SessionModification { tags, ..self }
    }

    /// The gathered fields as command parameters, aimed at the named
    /// record.
    pub fn params(self, name: String) -> (p: SessionParams)
        ensures
            p == (SessionParams {
                name: Some(name),
                host: self.host,
                user: self.user,
                port: self.port,
                auth_type: self.auth_type,
                key_path: self.key_path,
                password: self.password,
                tags: self.tags,
            }),
    {
        SessionParams {
            name: Some(name),
            host: self.host,
            user: self.user,
            port: self.port,
            auth_type: self.auth_type,
            key_path: self.key_path,
            password: self.password,
            tags: self.tags,
        }
    }
}

} // verus!
