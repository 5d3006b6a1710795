//! The exact argument lists handed to the system's remote-shell and
//! copy tools: one list per command, each pinned word for word, so the
//! caller only spawns what is planned here.

use vstd::prelude::*;
use vstd::string::StrSliceExecFns;
use vstd::string::StringExecFns;

use crate::session::AuthType;
use crate::session::Session;
use crate::session::SessionView;
use crate::text::dec_rep;
use crate::text::u16_to_dec;

verus! {

/// A program to spawn and the arguments to hand it.
#[derive(Debug)]
pub struct CommandSpec {
    pub program: String,
    pub args: Vec<String>,
}

/// Why no command could be planned: the record authenticates with a
/// password but holds none.
#[derive(Clone, Copy, Debug, PartialEq, Eq, Structural)]
pub enum SshCmdError {
    PasswordMissing,
}

/// The program that carries the connection: the password helper when a
/// password is used, else the plain client.
pub open spec fn ssh_program_view(s: SessionView) -> Seq<char> {
    if s.auth_type == AuthType::Password {
        "sshpass"@
    } else {
        "ssh"@
    }
}

/// The leading arguments when the password helper is used: the password
/// and the client to run.
pub open spec fn password_prefix_args(s: SessionView) -> Seq<Seq<char>> {
    if s.auth_type == AuthType::Password {
        seq!["-p"@, s.password->0, "ssh"@]
    } else {
        Seq::<Seq<char>>::empty()
    }
}

/// The port and login-name arguments.
pub open spec fn port_user_args(s: SessionView) -> Seq<Seq<char>> {
    seq!["-p"@, dec_rep(s.port as int), "-l"@, s.user]
}

/// The identity-file arguments: present only for key authentication
/// with a key path on record.
pub open spec fn identity_args(s: SessionView) -> Seq<Seq<char>> {
    if s.auth_type == AuthType::Key && s.private_key_path is Some {
        seq!["-i"@, s.private_key_path->0]
    } else {
        Seq::<Seq<char>>::empty()
    }
}

/// The record cannot be carried out as a command: it wants password
/// authentication but holds no password.
pub open spec fn password_missing(s: SessionView) -> bool {
    s.auth_type == AuthType::Password && s.password is None
}

fn push_text(v: &mut Vec<String>, t: &str)
    ensures
        final(v).deep_view() == old(v).deep_view().push(t@),
{
    v.push(t.to_owned());
    proof {
        assert(v.deep_view() =~= old(v).deep_view().push(t@));
    }
}

fn push_string(v: &mut Vec<String>, t: String)
    ensures
        final(v).deep_view() == old(v).deep_view().push(t@),
{
    v.push(t);
    proof {
        assert(v.deep_view() =~= old(v).deep_view().push(t@));
    }
}

/// Pushes the password-helper prefix, the port and login name.
fn push_common_head(v: &mut Vec<String>, session: &Session)
    requires
        !password_missing(session@),
        old(v).deep_view().len() == 0,
    ensures
        final(v).deep_view() == password_prefix_args(session@) + port_user_args(session@),
{
    match session.auth_type {
        AuthType::Password => {
            push_text(v, "-p");
            match session.password.as_ref() {
                Some(pw) => push_string(v, pw.clone()),
                None => {
                    proof {
                        assert(false);
                    }
                },
            }
            push_text(v, "ssh");
        },
        AuthType::Key => {
        },
    }
    push_text(v, "-p");
    push_string(v, u16_to_dec(session.port));
    push_text(v, "-l");
    push_string(v, session.user.clone());
    proof {
        assert(v.deep_view() =~= password_prefix_args(session@) + port_user_args(session@));
    }
}

/// Pushes the identity-file arguments and the host.
fn push_identity_and_host(v: &mut Vec<String>, session: &Session)
    ensures
        final(v).deep_view() == old(v).deep_view() + identity_args(session@) + seq![session@.host],
{
    if let AuthType::Key = session.auth_type {
        match session.private_key_path.as_ref() {
            Some(k) => {
                push_text(v, "-i");
                push_string(v, k.clone());
            },
            None => {
            },
        }
    }
    push_string(v, session.host.clone());
    proof {
        assert(v.deep_view() =~= old(v).deep_view() + identity_args(session@) + seq![
            session@.host,
        ]);
    }
}

/// The whole argument list of an interactive login through the system
/// client, host checking relaxed for first contact.
pub open spec fn connect_ssh_args_view(s: SessionView) -> Seq<Seq<char>> {
    password_prefix_args(s) + port_user_args(s) + seq![
        "-o"@,
        "StrictHostKeyChecking=accept-new"@,
    ] + identity_args(s) + seq![s.host]
}

/// Plans the interactive login command over the system client; a record
/// that wants password authentication without a password is refused.
pub fn connect_ssh_args(session: &Session) -> (r: Result<CommandSpec, SshCmdError>)
    ensures
        r is Err <==> password_missing(session@),
        r is Err ==> r->Err_0 == SshCmdError::PasswordMissing,
        r is Ok ==> r->Ok_0.program@ == ssh_program_view(session@) && r->Ok_0.args.deep_view()
            == connect_ssh_args_view(session@),
{
    if password_required_but_absent(session) {
        return Err(SshCmdError::PasswordMissing);
    }
    let program = ssh_program(session);
    let mut args: Vec<String> = Vec::new();
    proof {
        assert(args.deep_view() =~= Seq::<Seq<char>>::empty());
    }
    push_common_head(&mut args, session);
    push_text(&mut args, "-o");
    push_text(&mut args, "StrictHostKeyChecking=accept-new");
    push_identity_and_host(&mut args, session);
    proof {
        assert(args.deep_view() =~= connect_ssh_args_view(session@));
    }
    Ok(CommandSpec { program, args })
}

fn password_required_but_absent(session: &Session) -> (r: bool)
    ensures
        r == password_missing(session@),
{
    match session.auth_type {
        AuthType::Password => session.password.is_none(),
        AuthType::Key => false,
    }
}

fn ssh_program(session: &Session) -> (r: String)
    ensures
        r@ == ssh_program_view(session@),
{
    match session.auth_type {
        AuthType::Password => String::from_str("sshpass"),
        AuthType::Key => String::from_str("ssh"),
    }
}

/// Where the control connection of a record is kept:
/// `~/.ssh/<record name>`.
pub open spec fn control_path_view(s: SessionView) -> Seq<char> {
    "~/.ssh/"@ + s.name
}

/// Writes the control path of a record's control connection.
pub fn control_path_for(session: &Session) -> (r: String)
    ensures
        r@ == control_path_view(session@),
{
    let mut out = String::from_str("~/.ssh/");
    out.append(session.name.as_str());
    out
}

/// The whole argument list that opens a background control connection:
/// master mode, no remote command, first-contact host checking, exit on
/// forwarding failure, and the record's control path.
pub open spec fn master_create_args_view(s: SessionView) -> Seq<Seq<char>> {
    password_prefix_args(s) + seq![
        "-M"@,
        "-fN"@,
        "-o"@,
        "StrictHostKeyChecking=accept-new"@,
        "-o"@,
        "ExitOnForwardFailure=yes"@,
        "-o"@,
        "ControlPath=~/.ssh/"@ + s.name,
        "-p"@,
        dec_rep(s.port as int),
        "-l"@,
        s.user,
    ] + identity_args(s) + seq![s.host]
}

/// Plans the command that opens a background control connection; a
/// record that wants password authentication without a password is
/// refused.
pub fn master_create_args(session: &Session) -> (r: Result<CommandSpec, SshCmdError>)
    ensures
        r is Err <==> password_missing(session@),
        r is Err ==> r->Err_0 == SshCmdError::PasswordMissing,
        r is Ok ==> r->Ok_0.program@ == ssh_program_view(session@) && r->Ok_0.args.deep_view()
            == master_create_args_view(session@),
{
    if password_required_but_absent(session) {
        return Err(SshCmdError::PasswordMissing);
    }
    let program = ssh_program(session);
    let mut args: Vec<String> = Vec::new();
    proof {
        assert(args.deep_view() =~= Seq::<Seq<char>>::empty());
    }
    match session.auth_type {
        AuthType::Password => {
            push_text(&mut args, "-p");
            match session.password.as_ref() {
                Some(pw) => push_string(&mut args, pw.clone()),
                None => {
                    proof {
                        assert(false);
                    }
                },
            }
            push_text(&mut args, "ssh");
        },
        AuthType::Key => {
        },
    }
    push_text(&mut args, "-M");
    push_text(&mut args, "-fN");
    push_text(&mut args, "-o");
    push_text(&mut args, "StrictHostKeyChecking=accept-new");
    push_text(&mut args, "-o");
    push_text(&mut args, "ExitOnForwardFailure=yes");
    push_text(&mut args, "-o");
    let mut control = String::from_str("ControlPath=~/.ssh/");
    control.append(session.name.as_str());
    push_string(&mut args, control);
    push_text(&mut args, "-p");
    push_string(&mut args, u16_to_dec(session.port));
    push_text(&mut args, "-l");
    push_string(&mut args, session.user.clone());
    proof {
        assert("ControlPath=~/.ssh/"@ + session@.name == ("ControlPath=~/.ssh/"@
            + session@.name));
    }
    push_identity_and_host(&mut args, session);
    proof {
        assert(args.deep_view() =~= master_create_args_view(session@));
    }
    Ok(CommandSpec { program, args })
}

/// The `user@host:port` way of naming the record's endpoint.
pub open spec fn target_view(s: SessionView) -> Seq<char> {
    s.user + "@"@ + s.host + ":"@ + dec_rep(s.port as int)
}

/// The whole argument list that closes the background control
/// connection over its control path.
pub open spec fn master_close_args_view(s: SessionView) -> Seq<Seq<char>> {
    seq!["-S"@, control_path_view(s), "-O"@, "exit"@, target_view(s)]
}

/// Plans the command that closes the background control connection.
pub fn master_close_args(session: &Session) -> (r: CommandSpec)
    ensures
        r.program@ == "ssh"@,
        r.args.deep_view() == master_close_args_view(session@),
{
    let program = String::from_str("ssh");
    let mut args: Vec<String> = Vec::new();
    proof {
        assert(args.deep_view() =~= Seq::<Seq<char>>::empty());
    }
    push_text(&mut args, "-S");
    push_string(&mut args, control_path_for(session));
    push_text(&mut args, "-O");
    push_text(&mut args, "exit");
    let mut target = session.user.clone();
    target.append("@");
    target.append(session.host.as_str());
    target.append(":");
    let port = u16_to_dec(session.port);
    target.append(port.as_str());
    push_string(&mut args, target);
    proof {
        assert(args.deep_view() =~= master_close_args_view(session@));
    }
    CommandSpec { program, args }
}

/// Logs in through the system's own client; the connection itself is a
/// spawned process, so this type only plans the command line.
pub struct SystemSshConnector;

/// The whole argument list of the system-client login as this connector
/// spawns it: no host-checking option, otherwise as the login command.
pub open spec fn system_connect_args_view(s: SessionView) -> Seq<Seq<char>> {
    password_prefix_args(s) + port_user_args(s) + identity_args(s) + seq![s.host]
}

impl SystemSshConnector {
    /// Plans the login command; a record that wants password
    /// authentication without a password is refused.
    pub fn connect_args(&self, session: &Session) -> (r: Result<CommandSpec, SshCmdError>)
        ensures
            r is Err <==> password_missing(session@),
            r is Err ==> r->Err_0 == SshCmdError::PasswordMissing,
            r is Ok ==> r->Ok_0.program@ == ssh_program_view(session@) && r->Ok_0.args.deep_view()
                == system_connect_args_view(session@),
    {
        if password_required_but_absent(session) {
            return Err(SshCmdError::PasswordMissing);
        }
        let program = ssh_program(session);
        let mut args: Vec<String> = Vec::new();
        proof {
            assert(args.deep_view() =~= Seq::<Seq<char>>::empty());
        }
        push_common_head(&mut args, session);
        push_identity_and_host(&mut args, session);
        proof {
            assert(args.deep_view() =~= system_connect_args_view(session@));
        }
        Ok(CommandSpec { program, args })
    }
}

} // verus!
