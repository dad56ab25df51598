//! SSH transport vocabulary: connection settings, authentication methods,
//! the error taxonomy, channel messages, and command-output collection.
use vstd::prelude::*;
use vstd::string::*;

verus! {

/// Connection settings of one SSH transport. Immutable once a connection
/// attempt starts.
#[derive(Debug, Clone)]
pub struct SshConfig {
    pub host: String,
    pub port: u16,
    pub username: String,
    pub auth_method: AuthMethod,
    pub timeout_seconds: u64,
}

/// How the client proves its identity to the server.
#[derive(Debug, Clone)]
pub enum AuthMethod {
    Password(String),
    PrivateKey { key_path: String, passphrase: Option<String> },
    Agent,
}

/// Output of a running command or shell, as handed to an output sink.
#[derive(Debug, Clone)]
pub enum TerminalOutput {
    Stdout(String),
    Stderr(String),
    Exit(i32),
    Error(String),
}

/// The collected result of one non-interactive command.
#[derive(Debug, Clone)]
pub struct CommandOutput {
    pub stdout: String,
    pub stderr: String,
    pub exit_code: i32,
}

/// Errors of the transport layer.
#[derive(Debug)]
pub enum SshError {
    NotConnected,
    ConnectionFailed(String),
    AuthenticationFailed,
    UnsupportedAuthMethod(String),
    CommandFailed(String),
    ChannelError(String),
    KeyError(String),
    Io(String),
    Russh(String),
    Timeout,
}

/// Text of a message: its fixed prefix followed by a detail.
pub open spec fn with_detail(prefix: Seq<char>, detail: Seq<char>) -> Seq<char> {
    prefix + detail
}

impl SshError {
    /// The human-readable text of each error.
    pub open spec fn text(&self) -> Seq<char> {
        match self {
            SshError::NotConnected => "Not connected to server"@,
            SshError::ConnectionFailed(m) => with_detail("Connection failed: "@, m@),
            SshError::AuthenticationFailed => "Authentication failed"@,
            SshError::UnsupportedAuthMethod(m) => with_detail(
                "Unsupported authentication method: "@,
                m@,
            ),
            SshError::CommandFailed(m) => with_detail("Command execution failed: "@, m@),
            SshError::ChannelError(m) => with_detail("Channel error: "@, m@),
            SshError::KeyError(m) => with_detail("Key error: "@, m@),
            SshError::Io(m) => with_detail("IO error: "@, m@),
            SshError::Russh(m) => with_detail("SSH error: "@, m@),
            SshError::Timeout => "Timeout"@,
        }
    }

    /// Renders the error as text.
    pub fn message(&self) -> (r: String)
        ensures
            r@ == self.text(),
    {
        match self {
            SshError::NotConnected => String::from_str("Not connected to server"),
            SshError::ConnectionFailed(m) => prefixed("Connection failed: ", m),
            SshError::AuthenticationFailed => String::from_str("Authentication failed"),
            SshError::UnsupportedAuthMethod(m) => prefixed(
                "Unsupported authentication method: ",
                m,
            ),
            SshError::CommandFailed(m) => prefixed("Command execution failed: ", m),
            SshError::ChannelError(m) => prefixed("Channel error: ", m),
            SshError::KeyError(m) => prefixed("Key error: ", m),
            SshError::Io(m) => prefixed("IO error: ", m),
            SshError::Russh(m) => prefixed("SSH error: ", m),
            SshError::Timeout => String::from_str("Timeout"),
        }
    }
}

/// A new string made of `prefix` followed by `detail`.
pub fn prefixed(prefix: &str, detail: &String) -> (r: String)
    ensures
        r@ == with_detail(prefix@, detail@),
{
    let mut r = String::from_str(prefix);
    r.append(detail.as_str());
    r
}

/// Default connection timeout, in seconds.
pub fn default_timeout() -> (r: u64)
    ensures
        r == 30,
{
    30
}

/// The text that `String::from_utf8_lossy` makes of a byte sequence.
pub uninterp spec fn utf8_lossy(b: Seq<u8>) -> Seq<char>;

/// Relies on `String::from_utf8_lossy`: decodes UTF-8, replacing each invalid
/// sequence by U+FFFD; the result depends on the bytes alone, and no bytes
/// give the empty text.
#[verifier::external_body]
pub(crate) fn lossy_text(b: &[u8]) -> (r: String)
    ensures
        r@ == utf8_lossy(b@),
        b@.len() == 0 ==> r@.len() == 0,
{
    String::from_utf8_lossy(b).into_owned()
}

/// One message read from an SSH channel. `Closed` stands for the end of the
/// message stream; `Other` for any message that carries nothing collected here
/// (window adjustments, success replies, ...).
#[derive(Debug)]
pub enum ChannelMessage {
    Data(Vec<u8>),
    ExtendedData { ext: u32, data: Vec<u8> },
    ExitStatus(u32),
    Eof,
    Closed,
    Other,
}

/// Extended-data stream tag of standard error.
pub const STDERR_EXT: u32 = 1;

/// The abstract state of command-output collection.
pub struct ExecState {
    pub stdout: Seq<u8>,
    pub stderr: Seq<u8>,
    pub exit_code: i32,
    pub done: bool,
}

/// Collection before any message.
pub open spec fn exec_initial() -> ExecState {
    ExecState { stdout: Seq::empty(), stderr: Seq::empty(), exit_code: 0, done: false }
}

/// Effect of one channel message on command-output collection. Once done,
/// nothing changes. Standard output and standard error grow by their chunks;
/// an exit status, an end-of-file or the end of the stream completes the
/// command, and only an exit status sets the exit code.
pub open spec fn exec_step(s: ExecState, m: ChannelMessage) -> ExecState {
    if s.done {
        s
    } else {
        match m {
            ChannelMessage::Data(d) => ExecState { stdout: s.stdout + d@, ..s },
            ChannelMessage::ExtendedData { ext, data } => if ext == STDERR_EXT {
                ExecState { stderr: s.stderr + data@, ..s }
            } else {
                s
            },
            ChannelMessage::ExitStatus(code) => ExecState {
                exit_code: code as i32,
                done: true,
                ..s
            },
            ChannelMessage::Eof => ExecState { done: true, ..s },
            ChannelMessage::Closed => ExecState { done: true, ..s },
            ChannelMessage::Other => s,
        }
    }
}

/// Collection after a whole sequence of channel messages, in order.
pub open spec fn exec_run(ms: Seq<ChannelMessage>) -> ExecState
    decreases ms.len(),
{
    if ms.len() == 0 {
        exec_initial()
    } else {
        exec_step(exec_run(ms.drop_last()), ms.last())
    }
}

/// Drains the channel of one command: gathers standard output and standard
/// error until the command completes.
pub struct ExecCollector {
    stdout: Vec<u8>,
    stderr: Vec<u8>,
    exit_code: i32,
    done: bool,
}

impl ExecCollector {
    pub closed spec fn state(&self) -> ExecState {
        ExecState {
            stdout: self.stdout@,
            stderr: self.stderr@,
            exit_code: self.exit_code,
            done: self.done,
        }
    }

    pub fn new() -> (r: Self)
        ensures
            r.state() == exec_initial(),
    {
        ExecCollector { stdout: Vec::new(), stderr: Vec::new(), exit_code: 0, done: false }
    }

    /// Whether the command has completed.
    pub fn is_done(&self) -> (r: bool)
        ensures
            r == self.state().done,
    {
        self.done
    }

    /// Takes in one channel message; returns whether the command has now
    /// completed.
    pub fn feed(&mut self, m: ChannelMessage) -> (finished: bool)
        ensures
            final(self).state() == exec_step(old(self).state(), m),
            finished == final(self).state().done,
    {
        if self.done {
            return true;
        }
        match m {
            ChannelMessage::Data(d) => {
                let mut d = d;
                self.stdout.append(&mut d);
            },
            ChannelMessage::ExtendedData { ext, data } => {
                if ext == STDERR_EXT {
                    let mut data = data;
                    self.stderr.append(&mut data);
                }
            },
            ChannelMessage::ExitStatus(code) => {
                self.exit_code = code as i32;
                self.done = true;
            },
            ChannelMessage::Eof => {
                self.done = true;
            },
            ChannelMessage::Closed => {
                self.done = true;
            },
            ChannelMessage::Other => {},
        }
        self.done
    }

    /// The command's output: both streams decoded as UTF-8 with replacement,
    /// and the exit code (0 where the server sent none).
    pub fn finish(self) -> (r: CommandOutput)
        ensures
            r.stdout@ == utf8_lossy(self.state().stdout),
            r.stderr@ == utf8_lossy(self.state().stderr),
            r.exit_code == self.state().exit_code,
    {
        let stdout = lossy_text(self.stdout.as_slice());
        let stderr = lossy_text(self.stderr.as_slice());
        CommandOutput { stdout, stderr, exit_code: self.exit_code }
    }
}


/// What an output sink is handed for a channel message: standard output and
/// standard error as text; nothing for any other message.
pub fn output_for(m: ChannelMessage) -> (r: Option<TerminalOutput>)
    ensures
        match m {
            ChannelMessage::Data(d) => r matches Some(TerminalOutput::Stdout(s)) && s@ == utf8_lossy(
                d@,
            ),
            ChannelMessage::ExtendedData { ext, data } => if ext == STDERR_EXT {
                r matches Some(TerminalOutput::Stderr(s)) && s@ == utf8_lossy(data@)
            } else {
                r is None
            },
            _ => r is None,
        },
{
    match m {
        ChannelMessage::Data(d) => Some(TerminalOutput::Stdout(lossy_text(d.as_slice()))),
        ChannelMessage::ExtendedData { ext, data } => {
            if ext == STDERR_EXT {
                Some(TerminalOutput::Stderr(lossy_text(data.as_slice())))
            } else {
                None
            }
        },
        _ => None,
    }
}

} // verus!
