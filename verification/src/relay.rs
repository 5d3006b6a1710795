//! The interactive session core: a state machine that sequences
//! transport, authentication, channel and pseudo-terminal setup, the
//! byte relay between local terminal and remote channel, and the fixed
//! teardown — with the guarantee that a terminal put into raw mode is
//! always restored, on every path.
//!
//! The machine owns every decision; the caller performs one action at a
//! time (a connect, a write, a non-blocking read) and reports what
//! happened. Bytes the background reader takes from local input are
//! handed to the machine, which queues them and writes them to the
//! remote end in arrival order.

use vstd::prelude::*;

use crate::session::AuthType;
use crate::session::Session;
use crate::session::SessionError;
use crate::terminal::TermAttrs;
use crate::terminal::TerminalModeGuard;

verus! {

/// Exactly one way of proving identity to the remote host.
#[derive(Debug, Clone, PartialEq)]
pub enum Credential {
    Password { secret: String },
    PublicKey { path: String },
}

/// Everything one relay invocation needs to know about its target.
#[derive(Debug, Clone, PartialEq)]
pub struct ConnectionDescriptor {
    pub host: String,
    pub port: u16,
    pub user: String,
    pub credential: Credential,
}

impl ConnectionDescriptor {
    /// The descriptor a stored record resolves to. A record whose
    /// credential material is missing is refused, with the same reason
    /// validation gives.
    pub fn from_session(session: &Session) -> (r: Result<ConnectionDescriptor, SessionError>)
        ensures
            session@.auth_type == AuthType::Password && session@.password is None ==> r == Err::<
                ConnectionDescriptor,
                SessionError,
            >(SessionError::PasswordRequired),
            session@.auth_type == AuthType::Key && session@.private_key_path is None ==> r == Err::<
                ConnectionDescriptor,
                SessionError,
            >(SessionError::KeyPathRequired),
            r is Ok ==> ({
                let d = r->Ok_0;
                &&& d.host@ == session@.host
                &&& d.port == session@.port
                &&& d.user@ == session@.user
                &&& (session@.auth_type == AuthType::Password ==> (d.credential matches
                    Credential::Password { secret } && secret@ == session@.password->0))
                &&& (session@.auth_type == AuthType::Key ==> (d.credential matches
                    Credential::PublicKey { path } && path@ == session@.private_key_path->0))
            }),
            r is Ok <==> !(session@.auth_type == AuthType::Password && session@.password is None)
                && !(session@.auth_type == AuthType::Key && session@.private_key_path is None),
    {
        let credential = match session.auth_type {
            AuthType::Password => match session.password.as_ref() {
                Some(secret) => Credential::Password { secret: secret.clone() },
                None => {
                    return Err(SessionError::PasswordRequired);
                },
            },
            AuthType::Key => match session.private_key_path.as_ref() {
                Some(path) => Credential::PublicKey { path: path.clone() },
                None => {
                    return Err(SessionError::KeyPathRequired);
                },
            },
        };
        Ok(
            ConnectionDescriptor {
                host: session.host.clone(),
                port: session.port,
                user: session.user.clone(),
                credential,
            },
        )
    }
}

/// How authentication failed.
#[derive(Clone, Copy, Debug, PartialEq, Eq, Structural)]
pub enum AuthFailure {
    KeyUnreadable,
    Rejected,
    NotAuthenticated,
}

/// The phase that failed before the relay started; the whole operation
/// reports exactly one of these, or success.
#[derive(Clone, Copy, Debug, PartialEq, Eq, Structural)]
pub enum ConnectFailure {
    Network,
    Auth(AuthFailure),
    Channel,
    Terminal,
}

/// What ended the relay loop. None of these is reported as an overall
/// failure: once the session was up, control returns quietly.
#[derive(Clone, Copy, Debug, PartialEq, Eq, Structural)]
pub enum RelayEnd {
    RemoteClosed,
    RemoteReadFailed,
    RemoteWriteFailed,
    LocalWriteFailed,
}

/// The one thing the caller must do next.
#[derive(Debug, Clone, PartialEq)]
pub enum Action {
    OpenTransport { host: String, port: u16 },
    AuthPassword { user: String, secret: String },
    AuthKey { user: String, path: String },
    CheckAuthenticated,
    OpenChannel,
    RequestPty { term: String, cols: u32, rows: u32, width_px: u32, height_px: u32 },
    RequestShell,
    EnterRawMode,
    WriteRemote { data: Vec<u8> },
    PollRemote,
    WriteLocal { data: Vec<u8> },
    Pause,
    CloseChannel,
    Disconnect,
    RestoreTerminal { attrs: TermAttrs },
}

/// What the caller reports back after performing an action.
#[derive(Debug, Clone, PartialEq)]
pub enum Event {
    TransportOpened,
    TransportFailed,
    AuthSucceeded,
    AuthKeyUnreadable,
    AuthRejected,
    AuthFlag { authenticated: bool },
    ChannelOpened,
    ChannelFailed,
    PtyGranted,
    PtyFailed,
    ShellStarted,
    ShellFailed,
    RawEntered { saved: TermAttrs },
    RawFailed,
    RemoteWriteOk,
    RemoteWriteBlocked,
    RemoteWriteFailed,
    RemoteData { data: Vec<u8> },
    RemoteEof,
    RemoteIdle,
    RemoteReadFailed,
    LocalWriteOk,
    LocalWriteFailed,
    Paused,
    ChannelClosed,
    Disconnected,
    TerminalRestored,
}

/// Where the machine stands: what it is waiting to hear about.
#[derive(Debug, PartialEq)]
pub enum Phase {
    Connecting,
    Authenticating,
    VerifyingAuth,
    OpeningChannel,
    RequestingPty,
    StartingShell,
    EnteringRaw,
    RelayDraining,
    RelayPolling,
    RelayDelivering { data: Vec<u8> },
    RelayPausing,
    ClosingChannel,
    Disconnecting,
    RestoringTerminal,
    Done,
}

/// The bytes an in-flight local write carries.
pub open spec fn delivering_data(p: Phase) -> Seq<u8> {
    match p {
        Phase::RelayDelivering { data } => data@,
        _ => Seq::<u8>::empty(),
    }
}

/// The relay loop is running.
pub open spec fn relay_active(p: Phase) -> bool {
    ||| p is RelayDraining
    ||| p is RelayPolling
    ||| p matches Phase::RelayDelivering { .. }
    ||| p is RelayPausing
}

/// Raw mode has not been attempted yet in this phase.
pub open spec fn before_raw_attempt(p: Phase) -> bool {
    ||| p is Connecting
    ||| p is Authenticating
    ||| p is VerifyingAuth
    ||| p is OpeningChannel
    ||| p is RequestingPty
    ||| p is StartingShell
    ||| p is EnteringRaw
}

/// All the bytes of a chunk queue, in order.
pub open spec fn concat_bytes(chunks: Seq<Seq<u8>>) -> Seq<u8>
    decreases chunks.len(),
{
    if chunks.len() == 0 {
        Seq::<u8>::empty()
    } else {
        chunks[0] + concat_bytes(chunks.drop_first())
    }
}

pub proof fn lemma_concat_bytes_push(chunks: Seq<Seq<u8>>, c: Seq<u8>)
    ensures
        concat_bytes(chunks.push(c)) == concat_bytes(chunks) + c,
    decreases chunks.len(),
{
    reveal_with_fuel(concat_bytes, 3);
    if chunks.len() == 0 {
        assert(chunks.push(c)[0] == c);
        assert(chunks.push(c).drop_first() =~= Seq::<Seq<u8>>::empty());
        assert(concat_bytes(chunks.push(c)) =~= concat_bytes(chunks) + c);
    } else {
        assert(chunks.push(c).drop_first() =~= chunks.drop_first().push(c));
        lemma_concat_bytes_push(chunks.drop_first(), c);
        assert(chunks.push(c)[0] == chunks[0]);
        assert(concat_bytes(chunks.push(c)) == chunks[0] + (concat_bytes(chunks.drop_first())
            + c));
        assert(chunks[0] + (concat_bytes(chunks.drop_first()) + c) =~= (chunks[0] + concat_bytes(
            chunks.drop_first(),
        )) + c);
    }
}

/// A byte list holds, seen deeply, exactly its bytes.
pub proof fn lemma_bytes_deep_view(v: Vec<u8>)
    ensures
        v.deep_view() == v@,
{
    assert(v.deep_view() =~= v@);
}

/// The coordinator of one interactive session: it decides, the caller
/// performs. The ghost fields carry the byte history the relay
/// guarantees are stated over.
pub struct Coordinator {
    pub descriptor: ConnectionDescriptor,
    pub phase: Phase,
    pub transport_open: bool,
    pub channel_open: bool,
    pub guard: TerminalModeGuard,
    pub raw_entered: bool,
    pub enter_attempted: bool,
    pub restored: bool,
    pub failure: Option<ConnectFailure>,
    pub relay_end: Option<RelayEnd>,
    pub queue: Vec<Vec<u8>>,
    pub pushed: Ghost<Seq<u8>>,
    pub sent: Ghost<Seq<u8>>,
    pub received: Ghost<Seq<u8>>,
    pub delivered: Ghost<Seq<u8>>,
    pub captured: Ghost<Option<TermAttrs>>,
}

impl Coordinator {
    /// Everything the machine maintains, in every reachable state.
    ///
    /// The clauses carry the session guarantees: local input is never
    /// lost or reordered on its way to the remote end; remote output
    /// reaches the local terminal as a prefix of what was received, in
    /// order; the terminal snapshot exists exactly while raw mode is in
    /// force; a failure before raw mode was attempted leaves the
    /// terminal untouched; and a finished run that entered raw mode has
    /// restored the terminal.
    pub open spec fn wf(self) -> bool {
        &&& self.sent@ + concat_bytes(self.queue.deep_view()) == self.pushed@
        &&& self.delivered@.is_prefix_of(self.received@)
        &&& (self.phase matches Phase::RelayDelivering { data } ==> self.delivered@ + data@
            == self.received@)
        &&& ((self.phase is RelayDraining || self.phase is RelayPolling
            || self.phase is RelayPausing) ==> self.delivered@ == self.received@)
        &&& (self.raw_entered ==> self.enter_attempted)
        &&& (self.guard.entered() <==> self.raw_entered && !self.restored)
        &&& (self.raw_entered ==> self.captured@ is Some)
        &&& (self.guard.entered() ==> self.guard.held() == self.captured@)
        &&& (self.restored ==> self.raw_entered)
        &&& (before_raw_attempt(self.phase) ==> !self.enter_attempted && self.failure is None
            && self.relay_end is None && self.queue.deep_view().len() == 0 && self.delivered@
            == self.received@)
        &&& (!self.enter_attempted ==> !self.raw_entered)
        &&& (self.failure matches Some(f) ==> (f is Terminal ==> self.enter_attempted
            && !self.raw_entered))
        &&& (self.failure matches Some(f) ==> (!(f is Terminal) ==> !self.enter_attempted))
        &&& (self.phase is Done ==> (self.raw_entered ==> self.restored))
        &&& (self.phase is Done ==> !self.guard.entered() && !self.channel_open
            && !self.transport_open)
        &&& (relay_active(self.phase) ==> self.raw_entered && self.channel_open
            && self.transport_open && self.failure is None && self.relay_end is None
            && !self.restored)
        &&& (self.phase is Connecting ==> !self.transport_open && !self.channel_open)
        &&& ((self.phase is Authenticating || self.phase is VerifyingAuth
            || self.phase is OpeningChannel) ==> self.transport_open && !self.channel_open)
        &&& ((self.phase is RequestingPty || self.phase is StartingShell
            || self.phase is EnteringRaw) ==> self.transport_open && self.channel_open)
        &&& (self.phase is EnteringRaw ==> !self.raw_entered && !self.restored)
        &&& (self.phase is ClosingChannel ==> self.channel_open && self.transport_open)
        &&& (self.phase is Disconnecting ==> !self.channel_open && self.transport_open)
        &&& (self.phase is RestoringTerminal ==> !self.channel_open && !self.transport_open
            && self.guard.entered())
    }

    /// The one outcome the caller reports: success unless a phase
    /// before the relay failed.
    pub open spec fn outcome(self) -> Result<(), ConnectFailure> {
        match self.failure {
            Some(f) => Err(f),
            None => Ok(()),
        }
    }

    /// A machine at the start: nothing open, nothing touched, nothing
    /// relayed.
    pub fn new(descriptor: ConnectionDescriptor) -> (m: Coordinator)
        ensures
            m.wf(),
            m.descriptor == descriptor,
            m.phase is Connecting,
            !m.transport_open,
            !m.channel_open,
            !m.raw_entered,
            !m.enter_attempted,
            !m.restored,
            m.failure is None,
            m.relay_end is None,
            m.queue.deep_view().len() == 0,
            m.pushed@ == Seq::<u8>::empty(),
            m.sent@ == Seq::<u8>::empty(),
            m.received@ == Seq::<u8>::empty(),
            m.delivered@ == Seq::<u8>::empty(),
    {
        let m = Coordinator {
            descriptor,
            phase: Phase::Connecting,
            transport_open: false,
            channel_open: false,
            guard: TerminalModeGuard::inactive(),
            raw_entered: false,
            enter_attempted: false,
            restored: false,
            failure: None,
            relay_end: None,
            queue: Vec::new(),
            pushed: Ghost(Seq::<u8>::empty()),
            sent: Ghost(Seq::<u8>::empty()),
            received: Ghost(Seq::<u8>::empty()),
            delivered: Ghost(Seq::<u8>::empty()),
            captured: Ghost(None),
        };
        proof {
            assert(m.queue.deep_view() =~= Seq::<Seq<u8>>::empty());
            assert(m.sent@ + concat_bytes(m.queue.deep_view()) =~= m.pushed@);
        }
        m
    }

    /// The events the machine can take in its present phase: the
    /// replies to the action it asked for.
    pub open spec fn event_fits(self, ev: Event) -> bool {
        match self.phase {
            Phase::Connecting => ev is TransportOpened || ev is TransportFailed,
            Phase::Authenticating => {
                ||| ev is AuthSucceeded
                ||| ev is AuthRejected
                ||| (self.descriptor.credential matches Credential::PublicKey { .. }
                    && ev is AuthKeyUnreadable)
            },
            Phase::VerifyingAuth => ev matches Event::AuthFlag { .. },
            Phase::OpeningChannel => ev is ChannelOpened || ev is ChannelFailed,
            Phase::RequestingPty => ev is PtyGranted || ev is PtyFailed,
            Phase::StartingShell => ev is ShellStarted || ev is ShellFailed,
            Phase::EnteringRaw => ev matches Event::RawEntered { .. } || ev is RawFailed,
            Phase::RelayDraining => {
                if self.queue.deep_view().len() > 0 {
                    ev is RemoteWriteOk || ev is RemoteWriteBlocked || ev is RemoteWriteFailed
                } else {
                    ||| ev matches Event::RemoteData { .. }
                    ||| ev is RemoteEof
                    ||| ev is RemoteIdle
                    ||| ev is RemoteReadFailed
                }
            },
            Phase::RelayPolling => {
                ||| ev matches Event::RemoteData { .. }
                ||| ev is RemoteEof
                ||| ev is RemoteIdle
                ||| ev is RemoteReadFailed
            },
            Phase::RelayDelivering { .. } => ev is LocalWriteOk || ev is LocalWriteFailed,
            Phase::RelayPausing => ev is Paused,
            Phase::ClosingChannel => ev is ChannelClosed,
            Phase::Disconnecting => ev is Disconnected,
            Phase::RestoringTerminal => ev is TerminalRestored,
            Phase::Done => false,
        }
    }

    pub open spec fn frame_terminal(pre: Coordinator, post: Coordinator) -> bool {
        &&& post.guard == pre.guard
        &&& post.raw_entered == pre.raw_entered
        &&& post.enter_attempted == pre.enter_attempted
        &&& post.restored == pre.restored
        &&& post.captured@ == pre.captured@
    }

    pub open spec fn frame_relay(pre: Coordinator, post: Coordinator) -> bool {
        &&& post.queue.deep_view() == pre.queue.deep_view()
        &&& post.pushed@ == pre.pushed@
        &&& post.sent@ == pre.sent@
        &&& post.received@ == pre.received@
        &&& post.delivered@ == pre.delivered@
    }

    pub open spec fn frame_conn(pre: Coordinator, post: Coordinator) -> bool {
        &&& post.transport_open == pre.transport_open
        &&& post.channel_open == pre.channel_open
    }

    pub open spec fn frame_outcome(pre: Coordinator, post: Coordinator) -> bool {
        &&& post.failure == pre.failure
        &&& post.relay_end == pre.relay_end
    }

    /// Exactly how one reported event moves the machine: phase by
    /// phase, field by field.
    pub open spec fn transition(pre: Coordinator, ev: Event, post: Coordinator) -> bool {
        &&& post.descriptor == pre.descriptor
        &&& match (pre.phase, ev) {
            (Phase::Connecting, Event::TransportOpened) => {
                &&& post.phase is Authenticating
                &&& post.transport_open
                &&& !post.channel_open
                &&& Self::frame_terminal(pre, post)
                &&& Self::frame_relay(pre, post)
                &&& Self::frame_outcome(pre, post)
            },
            (Phase::Connecting, Event::TransportFailed) => {
                &&& post.phase is Done
                &&& post.failure == Some(ConnectFailure::Network)
                &&& post.relay_end == pre.relay_end
                &&& Self::frame_conn(pre, post)
                &&& Self::frame_terminal(pre, post)
                &&& Self::frame_relay(pre, post)
            },
            (Phase::Authenticating, Event::AuthSucceeded) => {
                &&& post.phase is VerifyingAuth
                &&& Self::frame_conn(pre, post)
                &&& Self::frame_terminal(pre, post)
                &&& Self::frame_relay(pre, post)
                &&& Self::frame_outcome(pre, post)
            },
            (Phase::Authenticating, Event::AuthRejected) => {
                &&& post.phase is Disconnecting
                &&& post.failure == Some(ConnectFailure::Auth(AuthFailure::Rejected))
                &&& post.relay_end == pre.relay_end
                &&& Self::frame_conn(pre, post)
                &&& Self::frame_terminal(pre, post)
                &&& Self::frame_relay(pre, post)
            },
            (Phase::Authenticating, Event::AuthKeyUnreadable) => {
                &&& post.phase is Disconnecting
                &&& post.failure == Some(ConnectFailure::Auth(AuthFailure::KeyUnreadable))
                &&& post.relay_end == pre.relay_end
                &&& Self::frame_conn(pre, post)
                &&& Self::frame_terminal(pre, post)
                &&& Self::frame_relay(pre, post)
            },
            (Phase::VerifyingAuth, Event::AuthFlag { authenticated }) => {
                if authenticated {
                    &&& post.phase is OpeningChannel
                    &&& Self::frame_conn(pre, post)
                    &&& Self::frame_terminal(pre, post)
                    &&& Self::frame_relay(pre, post)
                    &&& Self::frame_outcome(pre, post)
                } else {
                    &&& post.phase is Disconnecting
                    &&& post.failure == Some(ConnectFailure::Auth(AuthFailure::NotAuthenticated))
                    &&& post.relay_end == pre.relay_end
                    &&& Self::frame_conn(pre, post)
                    &&& Self::frame_terminal(pre, post)
                    &&& Self::frame_relay(pre, post)
                }
            },
            (Phase::OpeningChannel, Event::ChannelOpened) => {
                &&& post.phase is RequestingPty
                &&& post.channel_open
                &&& post.transport_open == pre.transport_open
                &&& Self::frame_terminal(pre, post)
                &&& Self::frame_relay(pre, post)
                &&& Self::frame_outcome(pre, post)
            },
            (Phase::OpeningChannel, Event::ChannelFailed) => {
                &&& post.phase is Disconnecting
                &&& post.failure == Some(ConnectFailure::Channel)
                &&& post.relay_end == pre.relay_end
                &&& Self::frame_conn(pre, post)
                &&& Self::frame_terminal(pre, post)
                &&& Self::frame_relay(pre, post)
            },
            (Phase::RequestingPty, Event::PtyGranted) => {
                &&& post.phase is StartingShell
                &&& Self::frame_conn(pre, post)
                &&& Self::frame_terminal(pre, post)
                &&& Self::frame_relay(pre, post)
                &&& Self::frame_outcome(pre, post)
            },
            (Phase::RequestingPty, Event::PtyFailed) => {
                &&& post.phase is ClosingChannel
                &&& post.failure == Some(ConnectFailure::Channel)
                &&& post.relay_end == pre.relay_end
                &&& Self::frame_conn(pre, post)
                &&& Self::frame_terminal(pre, post)
                &&& Self::frame_relay(pre, post)
            },
            (Phase::StartingShell, Event::ShellStarted) => {
                &&& post.phase is EnteringRaw
                &&& Self::frame_conn(pre, post)
                &&& Self::frame_terminal(pre, post)
                &&& Self::frame_relay(pre, post)
                &&& Self::frame_outcome(pre, post)
            },
            (Phase::StartingShell, Event::ShellFailed) => {
                &&& post.phase is ClosingChannel
                &&& post.failure == Some(ConnectFailure::Channel)
                &&& post.relay_end == pre.relay_end
                &&& Self::frame_conn(pre, post)
                &&& Self::frame_terminal(pre, post)
                &&& Self::frame_relay(pre, post)
            },
            (Phase::EnteringRaw, Event::RawEntered { saved }) => {
                &&& post.phase is RelayDraining
                &&& post.guard.held() == Some(saved)
                &&& post.raw_entered
                &&& post.enter_attempted
                &&& !post.restored
                &&& post.captured@ == Some(saved)
                &&& Self::frame_conn(pre, post)
                &&& Self::frame_relay(pre, post)
                &&& Self::frame_outcome(pre, post)
            },
            (Phase::EnteringRaw, Event::RawFailed) => {
                &&& post.phase is ClosingChannel
                &&& post.enter_attempted
                &&& !post.raw_entered
                &&& post.guard == pre.guard
                &&& post.restored == pre.restored
                &&& post.captured@ == pre.captured@
                &&& post.failure == Some(ConnectFailure::Terminal)
                &&& post.relay_end == pre.relay_end
                &&& Self::frame_conn(pre, post)
                &&& Self::frame_relay(pre, post)
            },
            (Phase::RelayDraining, Event::RemoteWriteOk) => {
                &&& pre.queue.deep_view().len() > 0
                &&& post.phase is RelayDraining
                &&& post.queue.deep_view() == pre.queue.deep_view().drop_first()
                &&& post.sent@ == pre.sent@ + pre.queue.deep_view()[0]
                &&& post.pushed@ == pre.pushed@
                &&& post.received@ == pre.received@
                &&& post.delivered@ == pre.delivered@
                &&& Self::frame_conn(pre, post)
                &&& Self::frame_terminal(pre, post)
                &&& Self::frame_outcome(pre, post)
            },
            (Phase::RelayDraining, Event::RemoteWriteBlocked) => {
                &&& post.phase is RelayPolling
                &&& Self::frame_conn(pre, post)
                &&& Self::frame_terminal(pre, post)
                &&& Self::frame_relay(pre, post)
                &&& Self::frame_outcome(pre, post)
            },
            (Phase::RelayDraining, Event::RemoteWriteFailed) => {
                &&& post.phase is ClosingChannel
                &&& post.relay_end == Some(RelayEnd::RemoteWriteFailed)
                &&& post.failure == pre.failure
                &&& Self::frame_conn(pre, post)
                &&& Self::frame_terminal(pre, post)
                &&& Self::frame_relay(pre, post)
            },
            (Phase::RelayDraining, Event::RemoteData { data }) => {
                &&& pre.queue.deep_view().len() == 0
                &&& post.phase matches Phase::RelayDelivering { data: d } && d@ == data@
                &&& post.received@ == pre.received@ + data@
                &&& post.queue.deep_view() == pre.queue.deep_view()
                &&& post.pushed@ == pre.pushed@
                &&& post.sent@ == pre.sent@
                &&& post.delivered@ == pre.delivered@
                &&& Self::frame_conn(pre, post)
                &&& Self::frame_terminal(pre, post)
                &&& Self::frame_outcome(pre, post)
            },
            (Phase::RelayDraining, Event::RemoteEof) => {
                &&& post.phase is ClosingChannel
                &&& post.relay_end == Some(RelayEnd::RemoteClosed)
                &&& post.failure == pre.failure
                &&& Self::frame_conn(pre, post)
                &&& Self::frame_terminal(pre, post)
                &&& Self::frame_relay(pre, post)
            },
            (Phase::RelayDraining, Event::RemoteIdle) => {
                &&& post.phase is RelayPausing
                &&& Self::frame_conn(pre, post)
                &&& Self::frame_terminal(pre, post)
                &&& Self::frame_relay(pre, post)
                &&& Self::frame_outcome(pre, post)
            },
            (Phase::RelayDraining, Event::RemoteReadFailed) => {
                &&& post.phase is ClosingChannel
                &&& post.relay_end == Some(RelayEnd::RemoteReadFailed)
                &&& post.failure == pre.failure
                &&& Self::frame_conn(pre, post)
                &&& Self::frame_terminal(pre, post)
                &&& Self::frame_relay(pre, post)
            },
            (Phase::RelayPolling, Event::RemoteData { data }) => {
                &&& post.phase matches Phase::RelayDelivering { data: d } && d@ == data@
                &&& post.received@ == pre.received@ + data@
                &&& post.queue.deep_view() == pre.queue.deep_view()
                &&& post.pushed@ == pre.pushed@
                &&& post.sent@ == pre.sent@
                &&& post.delivered@ == pre.delivered@
                &&& Self::frame_conn(pre, post)
                &&& Self::frame_terminal(pre, post)
                &&& Self::frame_outcome(pre, post)
            },
            (Phase::RelayPolling, Event::RemoteEof) => {
                &&& post.phase is ClosingChannel
                &&& post.relay_end == Some(RelayEnd::RemoteClosed)
                &&& post.failure == pre.failure
                &&& Self::frame_conn(pre, post)
                &&& Self::frame_terminal(pre, post)
                &&& Self::frame_relay(pre, post)
            },
            (Phase::RelayPolling, Event::RemoteIdle) => {
                &&& post.phase is RelayPausing
                &&& Self::frame_conn(pre, post)
                &&& Self::frame_terminal(pre, post)
                &&& Self::frame_relay(pre, post)
                &&& Self::frame_outcome(pre, post)
            },
            (Phase::RelayPolling, Event::RemoteReadFailed) => {
                &&& post.phase is ClosingChannel
                &&& post.relay_end == Some(RelayEnd::RemoteReadFailed)
                &&& post.failure == pre.failure
                &&& Self::frame_conn(pre, post)
                &&& Self::frame_terminal(pre, post)
                &&& Self::frame_relay(pre, post)
            },
            (Phase::RelayDelivering { data }, Event::LocalWriteOk) => {
                &&& post.phase is RelayPausing
                &&& post.delivered@ == pre.delivered@ + data@
                &&& post.queue.deep_view() == pre.queue.deep_view()
                &&& post.pushed@ == pre.pushed@
                &&& post.sent@ == pre.sent@
                &&& post.received@ == pre.received@
                &&& Self::frame_conn(pre, post)
                &&& Self::frame_terminal(pre, post)
                &&& Self::frame_outcome(pre, post)
            },
            (Phase::RelayDelivering { .. }, Event::LocalWriteFailed) => {
                &&& post.phase is ClosingChannel
                &&& post.relay_end == Some(RelayEnd::LocalWriteFailed)
                &&& post.failure == pre.failure
                &&& Self::frame_conn(pre, post)
                &&& Self::frame_terminal(pre, post)
                &&& Self::frame_relay(pre, post)
            },
            (Phase::RelayPausing, Event::Paused) => {
                &&& post.phase is RelayDraining
                &&& Self::frame_conn(pre, post)
                &&& Self::frame_terminal(pre, post)
                &&& Self::frame_relay(pre, post)
                &&& Self::frame_outcome(pre, post)
            },
            (Phase::ClosingChannel, Event::ChannelClosed) => {
                &&& post.phase is Disconnecting
                &&& !post.channel_open
                &&& post.transport_open == pre.transport_open
                &&& Self::frame_terminal(pre, post)
                &&& Self::frame_relay(pre, post)
                &&& Self::frame_outcome(pre, post)
            },
            (Phase::Disconnecting, Event::Disconnected) => {
                &&& post.phase == (if pre.guard.entered() {
                    Phase::RestoringTerminal
                } else {
                    Phase::Done
                })
                &&& !post.transport_open
                &&& post.channel_open == pre.channel_open
                &&& Self::frame_terminal(pre, post)
                &&& Self::frame_relay(pre, post)
                &&& Self::frame_outcome(pre, post)
            },
            (Phase::RestoringTerminal, Event::TerminalRestored) => {
                &&& post.phase is Done
                &&& post.restored
                &&& !post.guard.entered()
                &&& post.raw_entered == pre.raw_entered
                &&& post.enter_attempted == pre.enter_attempted
                &&& post.captured@ == pre.captured@
                &&& Self::frame_conn(pre, post)
                &&& Self::frame_relay(pre, post)
                &&& Self::frame_outcome(pre, post)
            },
            _ => false,
        }
    }

    /// Takes one reported event and moves to the next phase.
    pub fn step(&mut self, ev: Event)
        requires
            old(self).wf(),
            old(self).event_fits(ev),
        ensures
            final(self).wf(),
            Self::transition(*old(self), ev, *final(self)),
    {
        match ev {
            Event::TransportOpened => {
                self.transport_open = true;
                self.phase = Phase::Authenticating;
            },
            Event::TransportFailed => {
                self.failure = Some(ConnectFailure::Network);
                self.phase = Phase::Done;
            },
            Event::AuthSucceeded => {
                self.phase = Phase::VerifyingAuth;
            },
            Event::AuthRejected => {
                self.failure = Some(ConnectFailure::Auth(AuthFailure::Rejected));
                self.phase = Phase::Disconnecting;
            },
            Event::AuthKeyUnreadable => {
                self.failure = Some(ConnectFailure::Auth(AuthFailure::KeyUnreadable));
                self.phase = Phase::Disconnecting;
            },
            Event::AuthFlag { authenticated } => {
                if authenticated {
                    self.phase = Phase::OpeningChannel;
                } else {
                    self.failure = Some(ConnectFailure::Auth(AuthFailure::NotAuthenticated));
                    self.phase = Phase::Disconnecting;
                }
            },
            Event::ChannelOpened => {
                self.channel_open = true;
                self.phase = Phase::RequestingPty;
            },
            Event::ChannelFailed => {
                self.failure = Some(ConnectFailure::Channel);
                self.phase = Phase::Disconnecting;
            },
            Event::PtyGranted => {
                self.phase = Phase::StartingShell;
            },
            Event::PtyFailed => {
                self.failure = Some(ConnectFailure::Channel);
                self.phase = Phase::ClosingChannel;
            },
            Event::ShellStarted => {
                self.phase = Phase::EnteringRaw;
            },
            Event::ShellFailed => {
                self.failure = Some(ConnectFailure::Channel);
                self.phase = Phase::ClosingChannel;
            },
            Event::RawEntered { saved } => {
                self.guard = TerminalModeGuard::entered_with(saved);
                self.raw_entered = true;
                self.enter_attempted = true;
                self.captured = Ghost(Some(saved));
                self.phase = Phase::RelayDraining;
            },
            Event::RawFailed => {
                self.enter_attempted = true;
                self.failure = Some(ConnectFailure::Terminal);
                self.phase = Phase::ClosingChannel;
            },
            Event::RemoteWriteOk => {
                let front = self.queue.remove(0);
                proof {
                    lemma_bytes_deep_view(old(self).queue@[0]);
                    assert(old(self).queue.deep_view()[0] == old(self).queue@[0]@);
                    assert(self.queue.deep_view() =~= old(self).queue.deep_view().drop_first());
                }
                self.sent = Ghost(self.sent@ + front@);
                self.phase = Phase::RelayDraining;
                proof {
                    assert(self.sent@ + concat_bytes(self.queue.deep_view()) =~= old(
                        self,
                    ).sent@ + concat_bytes(old(self).queue.deep_view()));
                }
            },
            Event::RemoteWriteBlocked => {
                self.phase = Phase::RelayPolling;
            },
            Event::RemoteWriteFailed => {
                self.relay_end = Some(RelayEnd::RemoteWriteFailed);
                self.phase = Phase::ClosingChannel;
            },
            Event::RemoteData { data } => {
                self.received = Ghost(self.received@ + data@);
                self.phase = Phase::RelayDelivering { data };
                proof {
                    assert(self.delivered@ =~= self.received@.subrange(
                        0,
                        self.delivered@.len() as int,
                    ));
                }
            },
            Event::RemoteEof => {
                self.relay_end = Some(RelayEnd::RemoteClosed);
                self.phase = Phase::ClosingChannel;
            },
            Event::RemoteIdle => {
                self.phase = Phase::RelayPausing;
            },
            Event::RemoteReadFailed => {
                self.relay_end = Some(RelayEnd::RemoteReadFailed);
                self.phase = Phase::ClosingChannel;
            },
            Event::LocalWriteOk => {
                let ghost data = delivering_data(self.phase);
                self.delivered = Ghost(self.delivered@ + data);
                self.phase = Phase::RelayPausing;
                proof {
                    assert(self.delivered@ =~= self.received@.subrange(
                        0,
                        self.delivered@.len() as int,
                    ));
                }
            },
            Event::LocalWriteFailed => {
                self.relay_end = Some(RelayEnd::LocalWriteFailed);
                self.phase = Phase::ClosingChannel;
            },
            Event::Paused => {
                self.phase = Phase::RelayDraining;
            },
            Event::ChannelClosed => {
                self.channel_open = false;
                self.phase = Phase::Disconnecting;
            },
            Event::Disconnected => {
                self.transport_open = false;
                if self.guard.is_entered() {
                    self.phase = Phase::RestoringTerminal;
                } else {
                    self.phase = Phase::Done;
                }
            },
            Event::TerminalRestored => {
                let _ = self.guard.take_restore();
                self.restored = true;
                self.phase = Phase::Done;
            },
        }
    }

    /// Hands the machine one chunk the background reader took from
    /// local input; it joins the queue and will reach the remote end in
    /// arrival order.
    pub fn push_local(&mut self, chunk: Vec<u8>)
        requires
            old(self).wf(),
            relay_active(old(self).phase),
        ensures
            final(self).wf(),
            final(self).queue.deep_view() == old(self).queue.deep_view().push(chunk@),
            final(self).pushed@ == old(self).pushed@ + chunk@,
            final(self).phase == old(self).phase,
            final(self).descriptor == old(self).descriptor,
            final(self).sent@ == old(self).sent@,
            final(self).received@ == old(self).received@,
            final(self).delivered@ == old(self).delivered@,
            final(self).captured@ == old(self).captured@,
            Self::frame_conn(*old(self), *final(self)),
            Self::frame_terminal(*old(self), *final(self)),
            Self::frame_outcome(*old(self), *final(self)),
    {
        let ghost chunk_view = chunk@;
        self.queue.push(chunk);
        self.pushed = Ghost(self.pushed@ + chunk_view);
        proof {
            lemma_bytes_deep_view(self.queue@[old(self).queue@.len() as int]);
            assert(self.queue.deep_view() =~= old(self).queue.deep_view().push(chunk_view));
            lemma_concat_bytes_push(old(self).queue.deep_view(), chunk_view);
            assert(self.sent@ + concat_bytes(self.queue.deep_view()) =~= self.pushed@);
        }
    }

    /// The action the caller must perform next; nothing once the run is
    /// done.
    pub fn next_action(&self) -> (a: Option<Action>)
        requires
            self.wf(),
        ensures
            a is None <==> self.phase is Done,
            match self.phase {
                Phase::Connecting => a matches Some(Action::OpenTransport { host, port }) && host
                    == self.descriptor.host && port == self.descriptor.port,
                Phase::Authenticating => match self.descriptor.credential {
                    Credential::Password { secret } => a matches Some(
                        Action::AuthPassword { user, secret: s },
                    ) && user == self.descriptor.user && s == secret,
                    Credential::PublicKey { path } => a matches Some(
                        Action::AuthKey { user, path: p },
                    ) && user == self.descriptor.user && p == path,
                },
                Phase::VerifyingAuth => a == Some(Action::CheckAuthenticated),
                Phase::OpeningChannel => a == Some(Action::OpenChannel),
                Phase::RequestingPty => a matches Some(
                    Action::RequestPty { term, cols, rows, width_px, height_px },
                ) && term@ == "xterm-256color"@ && cols == 80u32 && rows == 24u32 && width_px
                    == 0u32 && height_px == 0u32,
                Phase::StartingShell => a == Some(Action::RequestShell),
                Phase::EnteringRaw => a == Some(Action::EnterRawMode),
                Phase::RelayDraining => {
                    if self.queue.deep_view().len() > 0 {
                        a matches Some(Action::WriteRemote { data }) && data@
                            == self.queue.deep_view()[0]
                    } else {
                        a == Some(Action::PollRemote)
                    }
                },
                Phase::RelayPolling => a == Some(Action::PollRemote),
                Phase::RelayDelivering { data } => a matches Some(Action::WriteLocal { data: d })
                    && d@ == data@,
                Phase::RelayPausing => a == Some(Action::Pause),
                Phase::ClosingChannel => a == Some(Action::CloseChannel),
                Phase::Disconnecting => a == Some(Action::Disconnect),
                Phase::RestoringTerminal => a matches Some(Action::RestoreTerminal { attrs })
                    && Some(attrs) == self.captured@,
                Phase::Done => a is None,
            },
    {
        match &self.phase {
            Phase::Connecting => Some(
                Action::OpenTransport {
                    host: self.descriptor.host.clone(),
                    port: self.descriptor.port,
                },
            ),
            Phase::Authenticating => match &self.descriptor.credential {
                Credential::Password { secret } => Some(
                    Action::AuthPassword {
                        user: self.descriptor.user.clone(),
                        secret: secret.clone(),
                    },
                ),
                Credential::PublicKey { path } => Some(
                    Action::AuthKey { user: self.descriptor.user.clone(), path: path.clone() },
                ),
            },
            Phase::VerifyingAuth => Some(Action::CheckAuthenticated),
            Phase::OpeningChannel => Some(Action::OpenChannel),
            Phase::RequestingPty => Some(
                Action::RequestPty {
                    term: String::from_str("xterm-256color"),
                    cols: 80,
                    rows: 24,
                    width_px: 0,
                    height_px: 0,
                },
            ),
            Phase::StartingShell => Some(Action::RequestShell),
            Phase::EnteringRaw => Some(Action::EnterRawMode),
            Phase::RelayDraining => {
                if self.queue.len() > 0 {
                    let data = clone_bytes(&self.queue[0]);
                    proof {
                        lemma_bytes_deep_view(self.queue@[0]);
                        assert(self.queue.deep_view()[0] == self.queue@[0]@);
                    }
                    Some(Action::WriteRemote { data })
                } else {
                    Some(Action::PollRemote)
                }
            },
            Phase::RelayPolling => Some(Action::PollRemote),
            Phase::RelayDelivering { data } => Some(
                Action::WriteLocal { data: clone_bytes(data) },
            ),
            Phase::RelayPausing => Some(Action::Pause),
            Phase::ClosingChannel => Some(Action::CloseChannel),
            Phase::Disconnecting => Some(Action::Disconnect),
            Phase::RestoringTerminal => match &self.guard.snapshot {
                Some(attrs) => Some(Action::RestoreTerminal { attrs: *attrs }),
                None => {
                    proof {
                        assert(false);
                    }
                    Some(Action::Disconnect)
                },
            },
            Phase::Done => None,
        }
    }

    /// Whether the relay loop is running: local input is taken only
    /// while it is.
    pub fn relay_running(&self) -> (r: bool)
        ensures
            r == relay_active(self.phase),
    {
        match self.phase {
            Phase::RelayDraining => true,
            Phase::RelayPolling => true,
            Phase::RelayDelivering { .. } => true,
            Phase::RelayPausing => true,
            _ => false,
        }
    }

    /// Whether the run is over.
    pub fn is_done(&self) -> (r: bool)
        ensures
            r == (self.phase is Done),
    {
        match self.phase {
            Phase::Done => true,
            _ => false,
        }
    }

    /// The single outcome of a finished run.
    pub fn result(&self) -> (r: Result<(), ConnectFailure>)
        requires
            self.phase is Done,
        ensures
            r == self.outcome(),
    {
        match self.failure {
            Some(f) => Err(f),
            None => Ok(()),
        }
    }

    /// What ended the relay, when it ran at all.
    pub fn relay_outcome(&self) -> (r: Option<RelayEnd>)
        ensures
            r == self.relay_end,
    {
        self.relay_end
    }
}

fn clone_bytes(v: &Vec<u8>) -> (r: Vec<u8>)
    ensures
        r@ == v@,
{
    let mut out: Vec<u8> = Vec::new();
    let mut i: usize = 0;
    while i < v.len()
        invariant
            0 <= i <= v.len(),
            out@ =~= v@.subrange(0, i as int),
        decreases v.len() - i,
    {
        out.push(v[i]);
        proof {
            assert(out@ =~= v@.subrange(0, i + 1 as int));
        }
        i = i + 1;
    }
    proof {
        assert(out@ =~= v@);
    }
    out
}

/// Logs in over the linked protocol implementation, driven through the
/// coordinator machine: this type only starts the machine; the caller
/// performs its actions against the real transport.
pub struct Ssh2Connector;

impl Ssh2Connector {
    /// Starts a session machine for a stored record; a record whose
    /// credential material is missing is refused before anything is
    /// opened.
    pub fn start(&self, session: &Session) -> (r: Result<Coordinator, SessionError>)
        ensures
            r is Ok ==> ({
                let m = r->Ok_0;
                &&& m.wf()
                &&& m.phase is Connecting
                &&& m.descriptor.host@ == session@.host
                &&& m.descriptor.port == session@.port
                &&& m.descriptor.user@ == session@.user
                &&& (session@.auth_type == AuthType::Password ==> (m.descriptor.credential matches
                    Credential::Password { secret } && secret@ == session@.password->0))
                &&& (session@.auth_type == AuthType::Key ==> (m.descriptor.credential matches
                    Credential::PublicKey { path } && path@ == session@.private_key_path->0))
            }),
            r is Err <==> (session@.auth_type == AuthType::Password && session@.password is None)
                || (session@.auth_type == AuthType::Key && session@.private_key_path is None),
    {
        let descriptor = match ConnectionDescriptor::from_session(session) {
            Ok(d) => d,
            Err(e) => {
                return Err(e);
            },
        };
        Ok(Coordinator::new(descriptor))
    }
}

/// Local input is relayed without loss or reordering: at every moment,
/// what has reached the remote end followed by what still waits in the
/// queue is exactly what the reader handed over, in order.
pub proof fn lemma_local_input_preserved(m: Coordinator)
    requires
        m.wf(),
    ensures
        m.sent@ + concat_bytes(m.queue.deep_view()) == m.pushed@,
        m.sent@.is_prefix_of(m.pushed@),
{
    assert(m.sent@ =~= (m.sent@ + concat_bytes(m.queue.deep_view())).subrange(
        0,
        m.sent@.len() as int,
    ));
}

/// Remote output is delivered in order and never duplicated: what has
/// been written to the local terminal is always a prefix of what the
/// remote end produced, and while the relay runs without failure it is
/// all of it, except at most one chunk in flight.
pub proof fn lemma_remote_output_in_order(m: Coordinator)
    requires
        m.wf(),
    ensures
        m.delivered@.is_prefix_of(m.received@),
        m.phase matches Phase::RelayDelivering { data } ==> m.delivered@ + data@ == m.received@,
        (m.phase is RelayDraining || m.phase is RelayPolling || m.phase is RelayPausing)
            ==> m.delivered@ == m.received@,
{
}

/// The terminal-restoration guarantee: a finished run that entered raw
/// mode has restored the terminal, and the attributes it restored are
/// byte for byte the ones captured when raw mode was entered.
pub proof fn lemma_terminal_restored(m: Coordinator)
    requires
        m.wf(),
        m.phase is Done,
    ensures
        m.raw_entered ==> m.restored,
        !m.guard.entered(),
{
}

/// The early-failure guarantee: a run that failed before raw mode was
/// attempted — a network, authentication or channel failure — never
/// captured and never changed the terminal.
pub proof fn lemma_early_failure_terminal_untouched(m: Coordinator)
    requires
        m.wf(),
        m.failure matches Some(f) && !(f is Terminal),
    ensures
        !m.enter_attempted,
        !m.raw_entered,
        !m.guard.entered(),
{
}

/// A graceful remote close ends the relay at once: the step that takes
/// the zero-byte read leaves every relay phase and begins teardown.
pub proof fn lemma_eof_ends_relay(pre: Coordinator, post: Coordinator)
    requires
        pre.wf(),
        Coordinator::transition(pre, Event::RemoteEof, post),
    ensures
        post.phase is ClosingChannel,
        !relay_active(post.phase),
        post.relay_end == Some(RelayEnd::RemoteClosed),
{
}

} // verus!
