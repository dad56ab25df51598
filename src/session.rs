//! A terminal session: one transport and the queue of one multiplexer loop,
//! with the display geometry and the session's connection state.
use vstd::prelude::*;
use vstd::string::*;
use crate::mux::LocalOp;
use crate::ssh::{AuthMethod, SshConfig, SshError};
use crate::terminal::{TerminalError, TerminalInfo};
use crate::transport::SshClient;

verus! {

/// Columns of a new session's display.
pub const DEFAULT_COLS: u32 = 80;

/// Rows of a new session's display.
pub const DEFAULT_ROWS: u32 = 24;

/// The abstract state of a session.
pub struct SessionView<H, Q> {
    pub id: u128,
    pub host_id: u128,
    pub host_name: Seq<char>,
    pub cols: u32,
    pub rows: u32,
    pub transport: Option<SshClient<H>>,
    pub queue: Option<Q>,
}

impl<H, Q> SessionView<H, Q> {
    /// A multiplexer loop runs exactly while its queue is held, and a loop
    /// never runs without a transport that holds a live connection.
    pub open spec fn wf(self) -> bool {
        self.queue is Some ==> (self.transport matches Some(t) && t.handle() is Some)
    }

    /// Connected: the shell is open and its loop runs.
    pub open spec fn connected(self) -> bool {
        self.queue is Some
    }
}

/// Whether a snapshot describes a session.
pub open spec fn describes<H, Q>(info: TerminalInfo, v: SessionView<H, Q>) -> bool {
    &&& info.id == v.id
    &&& info.host_id == v.host_id
    &&& info.host_name@ == v.host_name
    &&& info.cols == v.cols
    &&& info.rows == v.rows
    &&& info.connected == (v.transport matches Some(t) && t.handle() is Some)
}

/// The state after a disconnect, and the transport it hands out to be
/// closed: the queue is dropped, which stops the loop, and the transport
/// leaves the session.
pub open spec fn after_disconnect<H, Q>(v: SessionView<H, Q>) -> (SessionView<H, Q>, Option<
    SshClient<H>,
>) {
    (SessionView { transport: None, queue: None, ..v }, v.transport)
}

/// One terminal session. `H` is the SSH engine's connection handle and `Q`
/// the sending end of the multiplexer's local queue.
pub struct TerminalSession<H, Q> {
    id: u128,
    host_id: u128,
    host_name: String,
    cols: u32,
    rows: u32,
    transport: Option<SshClient<H>>,
    queue: Option<Q>,
}

impl<H, Q> TerminalSession<H, Q> {
    pub closed spec fn view(&self) -> SessionView<H, Q> {
        SessionView {
            id: self.id,
            host_id: self.host_id,
            host_name: self.host_name@,
            cols: self.cols,
            rows: self.rows,
            transport: self.transport,
            queue: self.queue,
        }
    }

    /// A session that is not connected, with the default geometry.
    pub fn new_with_id(id: u128, host_id: u128, host_name: String) -> (r: Self)
        ensures
            r.view() == (SessionView::<H, Q> {
                id,
                host_id,
                host_name: host_name@,
                cols: DEFAULT_COLS,
                rows: DEFAULT_ROWS,
                transport: None,
                queue: None,
            }),
    {
        TerminalSession {
            id,
            host_id,
            host_name,
            cols: DEFAULT_COLS,
            rows: DEFAULT_ROWS,
            transport: None,
            queue: None,
        }
    }

    /// A session with a fresh random id, not connected, with the default
    /// geometry.
    pub fn new(host_id: u128, host_name: String) -> (r: Self)
        ensures
            r.view().host_id == host_id,
            r.view().host_name == host_name@,
            r.view().cols == DEFAULT_COLS,
            r.view().rows == DEFAULT_ROWS,
            r.view().transport is None,
            r.view().queue is None,
    {
        Self::new_with_id(crate::transport::fresh_id(), host_id, host_name)
    }

    pub fn id(&self) -> (r: u128)
        ensures
            r == self.view().id,
    {
        self.id
    }

    /// The display geometry, as (columns, rows).
    pub fn geometry(&self) -> (r: (u32, u32))
        ensures
            r == (self.view().cols, self.view().rows),
    {
        (self.cols, self.rows)
    }

    /// Whether the shell is open and its loop runs.
    pub fn is_connected(&self) -> (r: bool)
        ensures
            r == self.view().connected(),
    {
        self.queue.is_some()
    }

    /// A snapshot for the consumer; `connected` tells whether the session
    /// holds a transport with a live connection.
    pub fn info(&self) -> (r: TerminalInfo)
        ensures
            describes(r, self.view()),
    {
        let connected = match &self.transport {
            Some(t) => t.is_connected(),
            None => false,
        };
        TerminalInfo {
            id: self.id,
            host_id: self.host_id,
            host_name: self.host_name.clone(),
            connected,
            cols: self.cols,
            rows: self.rows,
        }
    }

    /// Ends a connect attempt. With a transport and the queue of a started
    /// loop the session is connected; with an error it is left unconnected,
    /// holding neither, and the error is returned. Either way the transport
    /// it held before is handed back, to be closed.
    pub fn finish_connect(&mut self, outcome: Result<(SshClient<H>, Q), TerminalError>) -> (r: (
        Result<(), TerminalError>,
        Option<SshClient<H>>,
    ))
        requires
            outcome matches Ok((t, _)) ==> t.handle() is Some,
        ensures
            final(self).view().wf(),
            (r.0 is Ok && final(self).view().connected()) || (r.0 is Err
                && !final(self).view().connected() && final(self).view().transport is None),
            r.1 == old(self).view().transport,
            final(self).view().id == old(self).view().id,
            final(self).view().host_id == old(self).view().host_id,
            final(self).view().host_name == old(self).view().host_name,
            final(self).view().cols == old(self).view().cols,
            final(self).view().rows == old(self).view().rows,
            match outcome {
                Ok((t, q)) => {
                    &&& r.0 is Ok
                    &&& final(self).view().connected()
                    &&& final(self).view().transport == Some(t)
                    &&& final(self).view().queue == Some(q)
                },
                Err(e) => {
                    &&& r.0 == Err::<(), TerminalError>(e)
                    &&& final(self).view().transport is None
                    &&& final(self).view().queue is None
                },
            },
    {
        let prev = self.transport.take();
        self.queue = None;
        match outcome {
            Ok((t, q)) => {
                self.transport = Some(t);
                self.queue = Some(q);
                (Ok(()), prev)
            },
            Err(e) => (Err(e), prev),
        }
    }

    /// Queues input for the remote side: the queue and the operation to put
    /// on it, or `NotConnected` when no loop runs.
    pub fn write(&self, data: Vec<u8>) -> (r: Result<(&Q, LocalOp), TerminalError>)
        ensures
            r is Err <==> !self.view().connected(),
            r is Err ==> r->Err_0 is NotConnected,
            r matches Ok((q, op)) ==> self.view().queue == Some(*q) && op == LocalOp::Input(data),
    {
        match &self.queue {
            Some(q) => Ok((q, LocalOp::Input(data))),
            None => Err(TerminalError::NotConnected),
        }
    }

    /// Records a new geometry, which a later connect also uses; gives the
    /// queue and the window change to put on it, or `NotConnected` when no
    /// loop runs.
    pub fn resize(&mut self, cols: u32, rows: u32) -> (r: Result<(&Q, LocalOp), TerminalError>)
        ensures
            final(self).view() == (SessionView { cols, rows, ..old(self).view() }),
            r is Err <==> !old(self).view().connected(),
            r is Err ==> r->Err_0 is NotConnected,
            r matches Ok((q, op)) ==> old(self).view().queue == Some(*q) && op
                == LocalOp::Resize(cols, rows),
    {
        self.cols = cols;
        self.rows = rows;
        match &self.queue {
            Some(q) => Ok((q, LocalOp::Resize(cols, rows))),
            None => Err(TerminalError::NotConnected),
        }
    }

    /// Records that the loop has stopped: its queue is dropped.
    pub fn loop_stopped(&mut self)
        ensures
            final(self).view() == (SessionView { queue: None, ..old(self).view() }),
    {
        self.queue = None;
    }

    /// Disconnects: drops the queue, which stops the loop, and hands out the
    /// transport to be closed. On a session that is not connected this
    /// changes nothing and hands out nothing.
    pub fn disconnect(&mut self) -> (r: Option<SshClient<H>>)
        ensures
            (final(self).view(), r) == after_disconnect(old(self).view()),
    {
        self.queue = None;
        self.transport.take()
    }

    /// The live connection, for one-shot commands and latency probes; these
    /// use channels of their own and leave the shell channel alone. The
    /// connection stays with the session.
    pub fn connection_mut(&mut self) -> (r: Result<&mut H, TerminalError>)
        ensures
            r is Err <==> !(old(self).view().transport matches Some(t) && t.handle() is Some),
            r is Err ==> r->Err_0 is NotConnected && final(self).view() == old(self).view(),
            r is Ok ==> old(self).view().transport->0.handle() == Some(*r->Ok_0),
            r is Ok ==> final(self).view() == (SessionView {
                transport: Some(old(self).view().transport->0.with_handle(*final(r->Ok_0))),
                ..old(self).view()
            }),
    {
        match &mut self.transport {
            Some(t) => match t.handle_mut() {
                Ok(h) => Ok(h),
                Err(_) => Err(TerminalError::NotConnected),
            },
            None => Err(TerminalError::NotConnected),
        }
    }
}

/// A second disconnect changes nothing and hands out nothing.
pub proof fn lemma_disconnect_idempotent<H, Q>(v: SessionView<H, Q>)
    ensures
        after_disconnect(after_disconnect(v).0) == (after_disconnect(v).0, None::<SshClient<H>>),
        after_disconnect(v).0.wf(),
        !after_disconnect(v).0.connected(),
{
}

/// Whether two texts are the same.
fn text_is(a: &str, b: &str) -> (r: bool)
    ensures
        r == (a@ == b@),
{
    a.to_owned() == b.to_owned()
}

/// The text of a missing optional value: empty.
fn text_or_empty(s: Option<String>) -> (r: String)
    ensures
        r@ == match s {
            Some(t) => t@,
            None => Seq::<char>::empty(),
        },
{
    match s {
        Some(t) => t,
        None => String::new(),
    }
}

/// The method that a consumer names by a tag (`password`, `private_key` or
/// `agent`); a missing password or key path counts as empty. Any other tag
/// is refused.
pub open spec fn auth_from_parts(
    auth_type: Seq<char>,
    password: Option<String>,
    key_path: Option<String>,
    passphrase: Option<String>,
    r: Result<AuthMethod, TerminalError>,
) -> bool {
    if auth_type == "password"@ {
        r matches Ok(AuthMethod::Password(p)) && p@ == match password {
            Some(t) => t@,
            None => Seq::<char>::empty(),
        }
    } else if auth_type == "private_key"@ {
        r matches Ok(AuthMethod::PrivateKey { key_path: k, passphrase: q }) && q == passphrase
            && k@ == match key_path {
            Some(t) => t@,
            None => Seq::<char>::empty(),
        }
    } else if auth_type == "agent"@ {
        r == Ok::<AuthMethod, TerminalError>(AuthMethod::Agent)
    } else {
        r matches Err(TerminalError::ConnectionFailed(m)) && m@ == "Invalid auth type"@
    }
}

/// Settings for a terminal connection from the parts a consumer sends, with
/// the default timeout.
pub fn terminal_config(
    host: String,
    port: u16,
    username: String,
    auth_type: &str,
    password: Option<String>,
    key_path: Option<String>,
    passphrase: Option<String>,
) -> (r: Result<SshConfig, TerminalError>)
    ensures
        auth_from_parts(
            auth_type@,
            password,
            key_path,
            passphrase,
            match r {
                Ok(c) => Ok(c.auth_method),
                Err(e) => Err(e),
            },
        ),
        r matches Ok(c) ==> c.host == host && c.port == port && c.username == username
            && c.timeout_seconds == 30,
{
    let auth = if text_is(auth_type, "password") {
        AuthMethod::Password(text_or_empty(password))
    } else if text_is(auth_type, "private_key") {
        AuthMethod::PrivateKey { key_path: text_or_empty(key_path), passphrase }
    } else if text_is(auth_type, "agent") {
        AuthMethod::Agent
    } else {
        return Err(TerminalError::ConnectionFailed(String::from_str("Invalid auth type")));
    };
    Ok(SshConfig {
        host,
        port,
        username,
        auth_method: auth,
        timeout_seconds: crate::ssh::default_timeout(),
    })
}

/// A measured round trip in whole milliseconds, saturating at the largest
/// value a latency event carries.
pub fn latency_ms(elapsed_millis: u128) -> (r: u32)
    ensures
        r as u128 == if elapsed_millis <= u32::MAX as u128 {
            elapsed_millis
        } else {
            u32::MAX as u128
        },
{
    if elapsed_millis <= u32::MAX as u128 {
        elapsed_millis as u32
    } else {
        u32::MAX
    }
}

/// The error a session reports when setting up its connection failed: a
/// timeout and a refused authentication keep their kind; any other failure
/// is a connection failure with the transport's text.
pub fn connect_failure(e: &SshError) -> (r: TerminalError)
    ensures
        match e {
            SshError::Timeout => r is Timeout,
            SshError::AuthenticationFailed => r is AuthenticationFailed,
            _ => r matches TerminalError::ConnectionFailed(m) && m@ == e.text(),
        },
{
    match e {
        SshError::Timeout => TerminalError::Timeout,
        SshError::AuthenticationFailed => TerminalError::AuthenticationFailed,
        _ => TerminalError::ConnectionFailed(e.message()),
    }
}

/// The error a session reports when opening its shell failed.
pub fn shell_failure(e: &SshError) -> (r: TerminalError)
    ensures
        r matches TerminalError::Ssh(m) && m@ == e.text(),
{
    TerminalError::Ssh(e.message())
}

} // verus!
