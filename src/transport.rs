//! The transport's own decisions: the connect procedure as a state machine
//! driven by the outcomes of network work, host-key checking against a
//! known-hosts list, and the ownership of the connection handle.
use vstd::prelude::*;
use vstd::string::*;
use crate::ssh::{AuthMethod, SshConfig, SshError};

verus! {

/// Where a connection attempt stands.
pub enum ConnectPhase {
    Handshaking,
    LoadingKey,
    Authenticating,
    Finished,
}

/// The next piece of outside work a connection attempt asks for, or its end.
pub enum ConnectStep {
    /// Open the network connection and run the protocol handshake. This and
    /// each authentication step give up after `timeout_seconds`; the
    /// established connection closes itself after `inactivity_seconds`
    /// without traffic.
    Handshake { host: String, port: u16, timeout_seconds: u64, inactivity_seconds: u64 },
    /// Read and decode the private key at `key_path`.
    LoadKey { key_path: String, passphrase: Option<String> },
    /// Offer a password.
    SendPassword { username: String, password: String },
    /// Offer the key that was loaded.
    SendPublicKey { username: String },
    /// The attempt is over.
    Finished(Result<(), SshError>),
}

/// The outcome of a piece of outside work.
pub enum ConnectEvent {
    HandshakeDone,
    HandshakeFailed(String),
    /// The handshake or an authentication step outlasted the timeout.
    TimedOut,
    HostKeyRejected,
    KeyLoaded,
    KeyFailed(String),
    AuthAnswered(bool),
    ProtocolError(String),
}

/// Inactivity limit of an established connection: twice the connect
/// timeout, saturating.
pub open spec fn inactivity_limit(timeout_seconds: u64) -> u64 {
    if timeout_seconds <= u64::MAX / 2 {
        (2 * timeout_seconds) as u64
    } else {
        u64::MAX
    }
}

/// Text of the error given for an event that the current phase does not expect.
pub open spec fn out_of_order_text() -> Seq<char> {
    "unexpected event during connection setup"@
}

/// Whether `r` ends the attempt with the out-of-order error.
pub open spec fn is_out_of_order(r: ConnectStep) -> bool {
    match r {
        ConnectStep::Finished(Err(SshError::ConnectionFailed(m))) => m@ == out_of_order_text(),
        _ => false,
    }
}

/// The views of two optional strings agree.
pub open spec fn same_opt_text(a: Option<String>, b: Option<String>) -> bool {
    match (a, b) {
        (Some(x), Some(y)) => x@ == y@,
        (None, None) => true,
        _ => false,
    }
}

/// The step that follows `ev` in `phase`, for a user and a method.
pub open spec fn is_next_step(
    phase: ConnectPhase,
    username: Seq<char>,
    auth: AuthMethod,
    ev: ConnectEvent,
    r: ConnectStep,
) -> bool {
    match (phase, ev) {
        (ConnectPhase::Finished, _) => is_out_of_order(r),
        (_, ConnectEvent::ProtocolError(m)) => r == ConnectStep::Finished(Err(SshError::Russh(m))),
        (_, ConnectEvent::TimedOut) => r == ConnectStep::Finished(Err(SshError::Timeout)),
        (ConnectPhase::Handshaking, ConnectEvent::HandshakeDone) => match auth {
            AuthMethod::Password(p) => match r {
                ConnectStep::SendPassword { username: u, password: q } => u@ == username && q@
                    == p@,
                _ => false,
            },
            AuthMethod::PrivateKey { key_path, passphrase } => match r {
                ConnectStep::LoadKey { key_path: k, passphrase: q } => k@ == key_path@
                    && same_opt_text(q, passphrase),
                _ => false,
            },
            AuthMethod::Agent => match r {
                ConnectStep::Finished(Err(SshError::UnsupportedAuthMethod(m))) => m@ == "agent"@,
                _ => false,
            },
        },
        (ConnectPhase::Handshaking, ConnectEvent::HandshakeFailed(m)) => r == ConnectStep::Finished(
            Err(SshError::ConnectionFailed(m)),
        ),
        (ConnectPhase::Handshaking, ConnectEvent::HostKeyRejected) => r == ConnectStep::Finished(
            Err(SshError::AuthenticationFailed),
        ),
        (ConnectPhase::LoadingKey, ConnectEvent::KeyLoaded) => match r {
            ConnectStep::SendPublicKey { username: u } => u@ == username,
            _ => false,
        },
        (ConnectPhase::LoadingKey, ConnectEvent::KeyFailed(m)) => r == ConnectStep::Finished(
            Err(SshError::KeyError(m)),
        ),
        (ConnectPhase::Authenticating, ConnectEvent::AuthAnswered(true)) => r
            == ConnectStep::Finished(Ok(())),
        (ConnectPhase::Authenticating, ConnectEvent::AuthAnswered(false)) => r
            == ConnectStep::Finished(Err(SshError::AuthenticationFailed)),
        _ => is_out_of_order(r),
    }
}

/// The phase that a step leads to.
pub open spec fn phase_of_step(r: ConnectStep) -> ConnectPhase {
    match r {
        ConnectStep::Handshake { .. } => ConnectPhase::Handshaking,
        ConnectStep::LoadKey { .. } => ConnectPhase::LoadingKey,
        ConnectStep::SendPassword { .. } => ConnectPhase::Authenticating,
        ConnectStep::SendPublicKey { .. } => ConnectPhase::Authenticating,
        ConnectStep::Finished(_) => ConnectPhase::Finished,
    }
}

/// Whether a step ends the attempt successfully.
pub open spec fn step_succeeds(r: ConnectStep) -> bool {
    r == ConnectStep::Finished(Ok(()))
}

/// A connection attempt: handshake, then, by authentication method, a
/// password or a key (loaded first), then the server's answer. The agent
/// method is refused explicitly.
pub struct ConnectFlow {
    username: String,
    auth: AuthMethod,
    phase: ConnectPhase,
}

impl ConnectFlow {
    pub closed spec fn phase(&self) -> ConnectPhase {
        self.phase
    }

    pub closed spec fn username(&self) -> Seq<char> {
        self.username@
    }

    pub closed spec fn auth(&self) -> AuthMethod {
        self.auth
    }

    /// Begins an attempt for `config`: the first step is always the handshake.
    pub fn start(config: SshConfig) -> (r: (ConnectFlow, ConnectStep))
        ensures
            r.0.phase() is Handshaking,
            r.0.username() == config.username@,
            r.0.auth() == config.auth_method,
            match r.1 {
                ConnectStep::Handshake { host, port, timeout_seconds, inactivity_seconds } => {
                    &&& host@ == config.host@
                    &&& port == config.port
                    &&& timeout_seconds == config.timeout_seconds
                    &&& inactivity_seconds == inactivity_limit(config.timeout_seconds)
                },
                _ => false,
            },
    {
        let inactivity = if config.timeout_seconds <= u64::MAX / 2 {
            2 * config.timeout_seconds
        } else {
            u64::MAX
        };
        let flow = ConnectFlow {
            username: config.username,
            auth: config.auth_method,
            phase: ConnectPhase::Handshaking,
        };
        let step = ConnectStep::Handshake {
            host: config.host,
            port: config.port,
            timeout_seconds: config.timeout_seconds,
            inactivity_seconds: inactivity,
        };
        (flow, step)
    }
    /// Takes in the outcome of the outside work last asked for and returns
    /// what to do next.
    pub fn next(&mut self, ev: ConnectEvent) -> (r: ConnectStep)
        ensures
            final(self).username() == old(self).username(),
            final(self).auth() == old(self).auth(),
            final(self).phase() == phase_of_step(r),
            is_next_step(old(self).phase(), old(self).username(), old(self).auth(), ev, r),
    {
        let r = match (&self.phase, ev) {
            (ConnectPhase::Finished, _) => out_of_order(),
            (_, ConnectEvent::ProtocolError(m)) => ConnectStep::Finished(Err(SshError::Russh(m))),
            (_, ConnectEvent::TimedOut) => ConnectStep::Finished(Err(SshError::Timeout)),
            (ConnectPhase::Handshaking, ConnectEvent::HandshakeDone) => match &self.auth {
                AuthMethod::Password(p) => ConnectStep::SendPassword {
                    username: self.username.clone(),
                    password: p.clone(),
                },
                AuthMethod::PrivateKey { key_path, passphrase } => {
                    let pass = match passphrase {
                        Some(p) => Some(p.clone()),
                        None => None,
                    };
                    ConnectStep::LoadKey { key_path: key_path.clone(), passphrase: pass }
                },
                AuthMethod::Agent => ConnectStep::Finished(
                    Err(SshError::UnsupportedAuthMethod(String::from_str("agent"))),
                ),
            },
            (ConnectPhase::Handshaking, ConnectEvent::HandshakeFailed(m)) => ConnectStep::Finished(
                Err(SshError::ConnectionFailed(m)),
            ),
            (ConnectPhase::Handshaking, ConnectEvent::HostKeyRejected) => ConnectStep::Finished(
                Err(SshError::AuthenticationFailed),
            ),
            (ConnectPhase::LoadingKey, ConnectEvent::KeyLoaded) => ConnectStep::SendPublicKey {
                username: self.username.clone(),
            },
            (ConnectPhase::LoadingKey, ConnectEvent::KeyFailed(m)) => ConnectStep::Finished(
                Err(SshError::KeyError(m)),
            ),
            (ConnectPhase::Authenticating, ConnectEvent::AuthAnswered(accepted)) => if accepted {
                ConnectStep::Finished(Ok(()))
            } else {
                ConnectStep::Finished(Err(SshError::AuthenticationFailed))
            },
            _ => out_of_order(),
        };
        self.phase = match &r {
            ConnectStep::Handshake { .. } => ConnectPhase::Handshaking,
            ConnectStep::LoadKey { .. } => ConnectPhase::LoadingKey,
            ConnectStep::SendPassword { .. } => ConnectPhase::Authenticating,
            ConnectStep::SendPublicKey { .. } => ConnectPhase::Authenticating,
            ConnectStep::Finished(_) => ConnectPhase::Finished,
        };
        r
    }
}

/// Ends an attempt with the out-of-order error.
fn out_of_order() -> (r: ConnectStep)
    ensures
        is_out_of_order(r),
{
    ConnectStep::Finished(
        Err(SshError::ConnectionFailed(String::from_str("unexpected event during connection setup"))),
    )
}


/// What a known-hosts list says of the key a server presented.
#[derive(Debug, Clone, Copy, PartialEq, Eq, Structural)]
pub enum HostKeyVerdict {
    /// The list holds this key for this host and port.
    Trusted,
    /// The list holds other keys for this host and port, not this one.
    Mismatch,
    /// The list holds nothing for this host and port.
    Unknown,
}

impl HostKeyVerdict {
    /// Whether the connection may go on: a trusted key always, an unknown
    /// host only where the caller trusts first use, a mismatch never.
    pub fn accepts(&self, trust_unknown: bool) -> (r: bool)
        ensures
            r == (self is Trusted || (self is Unknown && trust_unknown)),
    {
        match self {
            HostKeyVerdict::Trusted => true,
            HostKeyVerdict::Mismatch => false,
            HostKeyVerdict::Unknown => trust_unknown,
        }
    }
}

/// One entry of a known-hosts list: a host, a port and a key fingerprint.
#[derive(Debug, Clone)]
pub struct KnownHost {
    pub host: String,
    pub port: u16,
    pub fingerprint: String,
}

/// A known-hosts list, as an allow-list of fingerprints per host and port.
pub struct KnownHosts {
    entries: Vec<KnownHost>,
}

/// Whether an entry is for this host and port.
pub open spec fn is_for(e: KnownHost, host: Seq<char>, port: u16) -> bool {
    e.host@ == host && e.port == port
}

impl KnownHosts {
    /// The entries, in the order they were added.
    pub closed spec fn entries(&self) -> Seq<KnownHost> {
        self.entries@
    }

    /// Whether the list holds `fingerprint` for this host and port.
    pub open spec fn trusts(&self, host: Seq<char>, port: u16, fingerprint: Seq<char>) -> bool {
        exists|i: int|
            0 <= i < self.entries().len() && is_for(#[trigger] self.entries()[i], host, port)
                && self.entries()[i].fingerprint@ == fingerprint
    }

    /// Whether the list holds any entry for this host and port.
    pub open spec fn knows(&self, host: Seq<char>, port: u16) -> bool {
        exists|i: int| 0 <= i < self.entries().len() && is_for(#[trigger] self.entries()[i], host, port)
    }

    pub fn new() -> (r: Self)
        ensures
            r.entries().len() == 0,
    {
        KnownHosts { entries: Vec::new() }
    }

    /// Adds an entry at the end.
    pub fn add(&mut self, entry: KnownHost)
        ensures
            final(self).entries() == old(self).entries().push(entry),
    {
        self.entries.push(entry);
    }

    /// Checks the key a server presented against the list.
    pub fn verdict(&self, host: &String, port: u16, fingerprint: &String) -> (r: HostKeyVerdict)
        ensures
            r is Trusted <==> self.trusts(host@, port, fingerprint@),
            r is Mismatch <==> self.knows(host@, port) && !self.trusts(host@, port, fingerprint@),
            r is Unknown <==> !self.knows(host@, port),
    {
        let mut known = false;
        let mut i: usize = 0;
        while i < self.entries.len()
            invariant
                i <= self.entries@.len(),
                known <==> exists|j: int| 0 <= j < i && is_for(#[trigger] self.entries@[j], host@, port),
                forall|j: int|
                    0 <= j < i && is_for(#[trigger] self.entries@[j], host@, port)
                        ==> self.entries@[j].fingerprint@ != fingerprint@,
            decreases self.entries@.len() - i,
        {
            let e = &self.entries[i];
            if e.port == port && e.host == *host {
                if e.fingerprint == *fingerprint {
                    proof {
                        assert(is_for(self.entries()[i as int], host@, port));
                    }
                    return HostKeyVerdict::Trusted;
                }
                known = true;
            }
            i = i + 1;
        }
        proof {
            assert(self.entries() == self.entries@);
            if known {
                let j = choose|j: int| 0 <= j < i && is_for(#[trigger] self.entries@[j], host@, port);
                assert(is_for(self.entries()[j], host@, port));
            }
        }
        if known {
            HostKeyVerdict::Mismatch
        } else {
            HostKeyVerdict::Unknown
        }
    }
}

/// Relies on `uuid::Uuid::new_v4`: a random identifier, returned as its
/// 128-bit value. Nothing is promised of the value.
#[verifier::external_body]
pub(crate) fn fresh_id() -> (r: u128) {
    uuid::Uuid::new_v4().as_u128()
}

/// The connection side of a transport: the session id, the settings, and
/// the handle of the live connection, present only while connected. The
/// handle's type is the SSH engine's; nothing here looks inside it.
pub struct SshClient<H> {
    id: u128,
    config: SshConfig,
    handle: Option<H>,
}

impl<H> SshClient<H> {
    pub closed spec fn handle(&self) -> Option<H> {
        self.handle
    }

    /// The same client holding handle `h`.
    pub closed spec fn with_handle(self, h: H) -> SshClient<H> {
        SshClient { handle: Some(h), ..self }
    }

    pub closed spec fn sid(&self) -> u128 {
        self.id
    }

    pub closed spec fn settings(&self) -> SshConfig {
        self.config
    }

    /// The session id this transport belongs to.
    pub fn id(&self) -> (r: u128)
        ensures
            r == self.sid(),
    {
        self.id
    }

    /// The connection settings.
    pub fn config(&self) -> (r: &SshConfig)
        ensures
            *r == self.settings(),
    {
        &self.config
    }

    /// A client with a fresh random id, not connected.
    pub fn new(config: SshConfig) -> (r: Self)
        ensures
            r.settings() == config,
            r.handle() is None,
    {
        Self::new_with_id(fresh_id(), config)
    }

    /// A client that is not connected.
    pub fn new_with_id(id: u128, config: SshConfig) -> (r: Self)
        ensures
            r.sid() == id,
            r.settings() == config,
            r.handle() is None,
    {
        SshClient { id, config, handle: None }
    }

    /// Whether a connection handle is held.
    pub fn is_connected(&self) -> (r: bool)
        ensures
            r == self.handle() is Some,
    {
        self.handle.is_some()
    }

    /// Records the handle of a connection that has been set up and
    /// authenticated; hands back the one it replaces, if any.
    pub fn attach(&mut self, handle: H) -> (r: Option<H>)
        ensures
            final(self).handle() == Some(handle),
            r == old(self).handle(),
            final(self).sid() == old(self).sid(),
            final(self).settings() == old(self).settings(),
    {
        let prev = self.handle.take();
        self.handle = Some(handle);
        prev
    }

    /// Gives the handle for use, or `NotConnected`.
    pub fn handle_mut(&mut self) -> (r: Result<&mut H, SshError>)
        ensures
            r is Err <==> old(self).handle() is None,
            r is Err ==> r->Err_0 is NotConnected && *final(self) == *old(self),
            r is Ok ==> old(self).handle() == Some(*r->Ok_0),
            r is Ok ==> final(self).handle() == Some(*final(r->Ok_0)),
            r is Ok ==> *final(self) == old(self).with_handle(*final(r->Ok_0)),
            final(self).sid() == old(self).sid(),
            final(self).settings() == old(self).settings(),
    {
        match &mut self.handle {
            Some(h) => Ok(h),
            None => Err(SshError::NotConnected),
        }
    }

    /// Ends a connect attempt: with the handle of a connection that was set
    /// up and authenticated the client is connected; with an error it keeps
    /// the handle it had and the error is returned.
    pub fn conclude(&mut self, outcome: Result<H, SshError>) -> (r: Result<(), SshError>)
        ensures
            r is Ok <==> outcome is Ok,
            outcome matches Ok(h) ==> final(self).handle() == Some(h),
            outcome matches Err(e) ==> r == Err::<(), SshError>(e) && *final(self) == *old(self),
            final(self).sid() == old(self).sid(),
            final(self).settings() == old(self).settings(),
    {
        match outcome {
            Ok(h) => {
                self.attach(h);
                Ok(())
            },
            Err(e) => Err(e),
        }
    }

    /// Begins a disconnect: the handle leaves the transport whatever the
    /// close that follows does, so the transport can connect afresh.
    pub fn disconnect(&mut self) -> (r: Option<H>)
        ensures
            final(self).handle() is None,
            r == old(self).handle(),
            final(self).sid() == old(self).sid(),
            final(self).settings() == old(self).settings(),
    {
        self.handle.take()
    }
}

} // verus!
