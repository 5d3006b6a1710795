//! Connection records: a named target with host, user, port, credential
//! material and free-form tags, together with the builder that assembles
//! one and the validation rules a record must meet before it is stored
//! or used for a connection.

use vstd::prelude::*;
use vstd::string::StringExecFns;

verus! {

/// How a connection to the target proves identity: with key material read
/// from a file, or with a password.
#[derive(Clone, Copy, Debug, PartialEq, Eq, Structural)]
pub enum AuthType {
    Key,
    Password,
}

impl AuthType {
    /// The textual name of the variant, as it appears in configuration
    /// files and on the command line.
    pub fn as_name(&self) -> (r: String)
        ensures
            *self == AuthType::Key ==> r@ == "key"@,
            *self == AuthType::Password ==> r@ == "password"@,
    {
        match self {
            AuthType::Key => String::from_str("key"),
            AuthType::Password => String::from_str("password"),
        }
    }

    /// Parses the textual name back into a variant; any string other than
    /// the two variant names is rejected with `None`.
    pub fn from_name(s: &str) -> (r: Option<AuthType>)
        ensures
            r == (if s@ == "key"@ {
                Some(AuthType::Key)
            } else if s@ == "password"@ {
                Some(AuthType::Password)
            } else {
                None::<AuthType>
            }),
    {
        let owned = s.to_owned();
        if owned == String::from_str("key") {
            Some(AuthType::Key)
        } else if owned == String::from_str("password") {
            Some(AuthType::Password)
        } else {
            None
        }
    }
}

/// Everything that can go wrong while assembling or validating a record:
/// a field missing from the builder, or a stored field that breaks the
/// validation rules.
#[derive(Clone, Copy, Debug, PartialEq, Eq, Structural)]
pub enum SessionError {
    NameRequired,
    HostRequired,
    UserRequired,
    AuthTypeRequired,
    EmptyName,
    EmptyHost,
    EmptyUser,
    ZeroPort,
    KeyPathRequired,
    PasswordRequired,
}

/// The mathematical content of a record: every text as a sequence of
/// characters.
pub struct SessionView {
    pub name: Seq<char>,
    pub host: Seq<char>,
    pub user: Seq<char>,
    pub port: u16,
    pub auth_type: AuthType,
    pub private_key_path: Option<Seq<char>>,
    pub password: Option<Seq<char>>,
    pub tags: Seq<Seq<char>>,
}

impl SessionView {
    /// A record is fit for storage and connection when its identifying
    /// fields are non-empty, the port is in range, and the material its
    /// credential kind calls for is present.
    pub open spec fn valid(self) -> bool {
        &&& self.name.len() > 0
        &&& self.host.len() > 0
        &&& self.user.len() > 0
        &&& self.port != 0
        &&& (self.auth_type == AuthType::Key ==> self.private_key_path is Some)
        &&& (self.auth_type == AuthType::Password ==> self.password is Some)
    }

    /// The first rule a record breaks, in the order the checks run.
    pub open spec fn first_violation(self) -> SessionError {
        if self.name.len() == 0 {
            SessionError::EmptyName
        } else if self.host.len() == 0 {
            SessionError::EmptyHost
        } else if self.user.len() == 0 {
            SessionError::EmptyUser
        } else if self.port == 0 {
            SessionError::ZeroPort
        } else if self.auth_type == AuthType::Key && self.private_key_path is None {
            SessionError::KeyPathRequired
        } else {
            SessionError::PasswordRequired
        }
    }
}

pub open spec fn opt_string_view(s: Option<String>) -> Option<Seq<char>> {
    match s {
        Some(p) => Some(p@),
        None => None,
    }
}

/// A stored connection record.
#[derive(Debug)]
pub struct Session {
    pub name: String,
    pub host: String,
    pub user: String,
    pub port: u16,
    pub auth_type: AuthType,
    pub private_key_path: Option<String>,
    pub password: Option<String>,
    pub tags: Vec<String>,
}

impl View for Session {
    type V = SessionView;

    open spec fn view(&self) -> SessionView {
        SessionView {
            name: self.name@,
            host: self.host@,
            user: self.user@,
            port: self.port,
            auth_type: self.auth_type,
            private_key_path: opt_string_view(self.private_key_path),
            password: opt_string_view(self.password),
            tags: self.tags.deep_view(),
        }
    }
}

impl DeepView for Session {
    type V = SessionView;

    open spec fn deep_view(&self) -> SessionView {
        self.view()
    }
}

/// A named template: it points at an existing record whose fields seed
/// the prompts when a new record is created from it.
#[derive(Debug)]
pub struct Template {
    pub name: String,
    pub session: String,
}

/// The mathematical content of a template.
pub struct TemplateView {
    pub name: Seq<char>,
    pub session: Seq<char>,
}

impl View for Template {
    type V = TemplateView;

    open spec fn view(&self) -> TemplateView {
        TemplateView { name: self.name@, session: self.session@ }
    }
}

impl DeepView for Template {
    type V = TemplateView;

    open spec fn deep_view(&self) -> TemplateView {
        self.view()
    }
}

impl Clone for Template {
    fn clone(&self) -> (res: Template)
        ensures
            res@ == self@,
    {
        Template { name: self.name.clone(), session: self.session.clone() }
    }
}

pub(crate) fn clone_opt_string(s: &Option<String>) -> (res: Option<String>)
    ensures
        opt_string_view(res) == opt_string_view(*s),
{
    match s {
        Some(p) => Some(p.clone()),
        None => None,
    }
}

pub(crate) fn clone_string_vec(v: &Vec<String>) -> (res: Vec<String>)
    ensures
        res.deep_view() == v.deep_view(),
{
    let mut out: Vec<String> = Vec::new();
    let mut i: usize = 0;
    while i < v.len()
        invariant
            i <= v.len(),
            out@.len() == i,
            forall|j: int| 0 <= j < i ==> #[trigger] out@[j]@ == v@[j]@,
        decreases v.len() - i,
    {
        let item = v[i].clone();
        out.push(item);
        i = i + 1;
    }
    proof {
        assert forall|j: int| 0 <= j < v@.len() implies out.deep_view()[j] == v.deep_view()[j] by {
            assert(out@[j]@ == v@[j]@);
        }
        assert(out.deep_view() =~= v.deep_view());
    }
    out
}

impl Clone for Session {
    fn clone(&self) -> (res: Session)
        ensures
            res@ == self@,
    {
        Session {
            name: self.name.clone(),
            host: self.host.clone(),
            user: self.user.clone(),
            port: self.port,
            auth_type: self.auth_type,
            private_key_path: clone_opt_string(&self.private_key_path),
            password: clone_opt_string(&self.password),
            tags: clone_string_vec(&self.tags),
        }
    }
}

impl Session {
    /// Checks the validation rules; reports the first broken one.
    pub fn validate(&self) -> (r: Result<(), SessionError>)
        ensures
            r is Ok <==> self@.valid(),
            r is Err ==> r->Err_0 == self@.first_violation(),
    {
        if self.name.as_str().is_empty() {
            return Err(SessionError::EmptyName);
        }
        if self.host.as_str().is_empty() {
            return Err(SessionError::EmptyHost);
        }
        if self.user.as_str().is_empty() {
            return Err(SessionError::EmptyUser);
        }
        if self.port == 0 {
            return Err(SessionError::ZeroPort);
        }
        match self.auth_type {
            AuthType::Key => {
                if self.private_key_path.is_none() {
                    return Err(SessionError::KeyPathRequired);
                }
            },
            AuthType::Password => {
                if self.password.is_none() {
                    return Err(SessionError::PasswordRequired);
                }
            },
        }
        Ok(())
    }

    /// Assembles a record from its parts. The parts must already satisfy
    /// the validation rules; `SessionBuilder::build` is the checked path.
    pub fn new(
        name: String,
        host: String,
        user: String,
        port: u16,
        auth_type: AuthType,
        private_key_path: Option<String>,
        password: Option<String>,
        tags: Option<Vec<String>>,
    ) -> (s: Session)
        requires
            name@.len() > 0,
            host@.len() > 0,
            user@.len() > 0,
            port != 0,
            auth_type == AuthType::Key ==> private_key_path is Some,
            auth_type == AuthType::Password ==> password is Some,
        ensures
            s@ == (SessionView {
                name: name@,
                host: host@,
                user: user@,
                port: port,
                auth_type: auth_type,
                private_key_path: opt_string_view(private_key_path),
                password: opt_string_view(password),
                tags: match tags {
                    Some(t) => t.deep_view(),
                    None => Seq::<Seq<char>>::empty(),
                },
            }),
            s@.valid(),
    {
        let s = Session {
            name,
            host,
            user,
            port,
            auth_type,
            private_key_path,
            password,
            tags: match tags {
                Some(t) => t,
                None => Vec::new(),
            },
        };
        proof {
            if s.tags@.len() == 0 {
                assert(s.tags.deep_view() =~= Seq::<Seq<char>>::empty());
            }
        }
        s
    }

    /// The blank record that seeds the prompts when a new record is
    /// created from nothing: empty texts, the default port, key
    /// authentication and no credential material. It does not pass
    /// validation; it only supplies defaults.
    pub fn empty_template() -> (s: Session)
        ensures
            s@ == (SessionView {
                name: Seq::<char>::empty(),
                host: Seq::<char>::empty(),
                user: Seq::<char>::empty(),
                port: 22u16,
                auth_type: AuthType::Key,
                private_key_path: None::<Seq<char>>,
                password: None::<Seq<char>>,
                tags: Seq::<Seq<char>>::empty(),
            }),
    {
        let s = Session {
            name: String::new(),
            host: String::new(),
            user: String::new(),
            port: 22,
            auth_type: AuthType::Key,
            private_key_path: None,
            password: None,
            tags: Vec::new(),
        };
        proof {
            assert(s.tags.deep_view() =~= Seq::<Seq<char>>::empty());
            assert(s.name@ =~= Seq::<char>::empty());
            assert(s.host@ =~= Seq::<char>::empty());
            assert(s.user@ =~= Seq::<char>::empty());
        }
        s
    }
}

/// Assembles a `Session` step by step; `build` checks that the required
/// fields were given and that the result passes validation.
pub struct SessionBuilder {
    pub name: Option<String>,
    pub host: Option<String>,
    pub user: Option<String>,
    pub port: Option<u16>,
    pub auth_type: Option<AuthType>,
    pub private_key_path: Option<String>,
    pub password: Option<String>,
    pub tags: Option<Vec<String>>,
}

impl SessionBuilder {
    /// Every field a record cannot be assembled without has been set.
    pub open spec fn complete(self) -> bool {
        &&& self.name is Some
        &&& self.host is Some
        &&& self.user is Some
        &&& self.auth_type is Some
    }

    /// The port the built record will carry: the default when none was set.
    pub open spec fn effective_port(self) -> u16 {
        if self.port is Some {
            self.port->0
        } else {
            22
        }
    }

    /// The view of the record the builder describes, once every required
    /// field is present: the port defaults to 22 and the tags to nothing.
    pub open spec fn built_view(self) -> SessionView {
        SessionView {
            name: self.name->0@,
            host: self.host->0@,
            user: self.user->0@,
            port: self.effective_port(),
            auth_type: self.auth_type->0,
            private_key_path: opt_string_view(self.private_key_path),
            password: opt_string_view(self.password),
            tags: match self.tags {
                Some(t) => t.deep_view(),
                None => Seq::<Seq<char>>::empty(),
            },
        }
    }

    /// The missing required field, or the rule the assembled record
    /// breaks, in the order the checks run.
    pub open spec fn build_error(self) -> SessionError {
        if self.name is None {
            SessionError::NameRequired
        } else if self.host is None {
            SessionError::HostRequired
        } else if self.user is None {
            SessionError::UserRequired
        } else if self.auth_type is None {
            SessionError::AuthTypeRequired
        } else {
            self.built_view().first_violation()
        }
    }

    pub fn new() -> (b: SessionBuilder)
        ensures
            b == (SessionBuilder {
                name: None::<String>,
                host: None::<String>,
                user: None::<String>,
                port: None::<u16>,
                auth_type: None::<AuthType>,
                private_key_path: None::<String>,
                password: None::<String>,
                tags: None::<Vec<String>>,
            }),
    {
        SessionBuilder {
            name: None,
            host: None,
            user: None,
            port: None,
            auth_type: None,
            private_key_path: None,
            password: None,
            tags: None,
        }
    }

    pub fn name(self, name: String) -> (b: SessionBuilder)
        ensures
            b == (SessionBuilder { name: Some(name), ..self }),
    {
        SessionBuilder { name: Some(name), ..self }
    }

    pub fn host(self, host: String) -> (b: SessionBuilder)
        ensures
            b == (SessionBuilder { host: Some(host), ..self }),
    {
        SessionBuilder { host: Some(host), ..self }
    }

    pub fn user(self, user: String) -> (b: SessionBuilder)
        ensures
            b == (SessionBuilder { user: Some(user), ..self }),
    {
        SessionBuilder { user: Some(user), ..self }
    }

    pub fn port(self, port: u16) -> (b: SessionBuilder)
        ensures
            b == (SessionBuilder { port: Some(port), ..self }),
    {
        SessionBuilder { port: Some(port), ..self }
    }

    pub fn auth_type(self, auth_type: AuthType) -> (b: SessionBuilder)
        ensures
            b == (SessionBuilder { auth_type: Some(auth_type), ..self }),
    {
        SessionBuilder { auth_type: Some(auth_type), ..self }
    }

    pub fn private_key_path(self, path: Option<String>) -> (b: SessionBuilder)
        ensures
            b == (SessionBuilder { private_key_path: path, ..self }),
    {
        SessionBuilder { private_key_path: path, ..self }
    }

    pub fn password(self, password: Option<String>) -> (b: SessionBuilder)
        ensures
            b == (SessionBuilder { password: password, ..self }),
    {
        SessionBuilder { password, ..self }
    }

    pub fn tags(self, tags: Option<Vec<String>>) -> (b: SessionBuilder)
        ensures
            b == (SessionBuilder { tags: tags, ..self }),
    {
        SessionBuilder { tags, ..self }
    }

    /// Produces the record, or the first reason none can be produced:
    /// a required field that was never set, then the first validation
    /// rule the assembled record breaks.
    pub fn build(self) -> (r: Result<Session, SessionError>)
        ensures
            r is Ok <==> self.complete() && self.built_view().valid(),
            r is Ok ==> r->Ok_0@ == self.built_view(),
            r is Err ==> r->Err_0 == self.build_error(),
    {
        let name = match self.name {
            Some(n) => n,
            None => {
                return Err(SessionError::NameRequired);
            },
        };
        let host = match self.host {
            Some(h) => h,
            None => {
                return Err(SessionError::HostRequired);
            },
        };
        let user = match self.user {
            Some(u) => u,
            None => {
                return Err(SessionError::UserRequired);
            },
        };
        let auth_type = match self.auth_type {
            Some(a) => a,
            None => {
                return Err(SessionError::AuthTypeRequired);
            },
        };
        let port = match self.port {
            Some(p) => p,
            None => 22,
        };
        let tags = match self.tags {
            Some(t) => t,
            None => Vec::new(),
        };
        let session = Session {
            name,
            host,
            user,
            port,
            auth_type,
            private_key_path: self.private_key_path,
            password: self.password,
            tags,
        };
        proof {
            if self.tags is None {
                assert(session.tags.deep_view() =~= Seq::<Seq<char>>::empty());
            }
            assert(session@ == self.built_view());
        }
        match session.validate() {
            Ok(()) => Ok(session),
            Err(e) => Err(e),
        }
    }
}

} // verus!
