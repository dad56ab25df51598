//! The abilities that the AI-integration middleware may ask for, and the
//! permission rules that gate them.
use vstd::prelude::*;
use vstd::string::*;

verus! {

/// Settings of the AI-integration server.
pub struct McpConfig {
    pub enabled: bool,
    pub port: u16,
    pub require_approval: bool,
    pub allowed_providers: Vec<AiProvider>,
}

/// Port the AI-integration server listens on by default.
pub const DEFAULT_MCP_PORT: u16 = 9742;

impl Default for McpConfig {
    fn default() -> (r: Self)
        ensures
            !r.enabled,
            r.port == DEFAULT_MCP_PORT,
            r.require_approval,
            r.allowed_providers@.len() == 0,
    {
        McpConfig {
            enabled: false,
            port: DEFAULT_MCP_PORT,
            require_approval: true,
            allowed_providers: Vec::new(),
        }
    }
}

/// An AI provider.
#[derive(Debug, Clone)]
pub enum AiProvider {
    Anthropic,
    ChatGPT,
    Ollama,
    Custom(String),
}

/// An ability that the middleware may ask for.
#[derive(Debug, Clone, Copy, PartialEq, Eq, Structural)]
pub enum McpAbility {
    ServerList,
    SshConnect,
    SshExecute,
    SshUpload,
    SshDownload,
    DatasphereGet,
    DatasphereSet,
    LogsStream,
    AiInvoke,
}

/// The wire name of each ability.
pub open spec fn ability_name(a: McpAbility) -> Seq<char> {
    match a {
        McpAbility::ServerList => "nexus.server.list"@,
        McpAbility::SshConnect => "nexus.ssh.connect"@,
        McpAbility::SshExecute => "nexus.ssh.execute"@,
        McpAbility::SshUpload => "nexus.ssh.upload"@,
        McpAbility::SshDownload => "nexus.ssh.download"@,
        McpAbility::DatasphereGet => "nexus.datasphere.get"@,
        McpAbility::DatasphereSet => "nexus.datasphere.set"@,
        McpAbility::LogsStream => "nexus.logs.stream"@,
        McpAbility::AiInvoke => "nexus.ai.invoke"@,
    }
}

/// Every ability, in declaration order.
pub open spec fn all_abilities() -> Seq<McpAbility> {
    seq![
        McpAbility::ServerList,
        McpAbility::SshConnect,
        McpAbility::SshExecute,
        McpAbility::SshUpload,
        McpAbility::SshDownload,
        McpAbility::DatasphereGet,
        McpAbility::DatasphereSet,
        McpAbility::LogsStream,
        McpAbility::AiInvoke,
    ]
}

impl McpAbility {
    /// The wire name.
    pub fn as_str(&self) -> (r: &'static str)
        ensures
            r@ == ability_name(*self),
    {
        match self {
            McpAbility::ServerList => "nexus.server.list",
            McpAbility::SshConnect => "nexus.ssh.connect",
            McpAbility::SshExecute => "nexus.ssh.execute",
            McpAbility::SshUpload => "nexus.ssh.upload",
            McpAbility::SshDownload => "nexus.ssh.download",
            McpAbility::DatasphereGet => "nexus.datasphere.get",
            McpAbility::DatasphereSet => "nexus.datasphere.set",
            McpAbility::LogsStream => "nexus.logs.stream",
            McpAbility::AiInvoke => "nexus.ai.invoke",
        }
    }

    /// Every ability, in declaration order.
    pub fn all() -> (r: Vec<McpAbility>)
        ensures
            r@ == all_abilities(),
    {
        let r = vec![
            McpAbility::ServerList,
            McpAbility::SshConnect,
            McpAbility::SshExecute,
            McpAbility::SshUpload,
            McpAbility::SshDownload,
            McpAbility::DatasphereGet,
            McpAbility::DatasphereSet,
            McpAbility::LogsStream,
            McpAbility::AiInvoke,
        ];
        proof {
            assert(r@ =~= all_abilities());
        }
        r
    }
}

/// The description shown to the user when an ability awaits approval.
pub open spec fn ability_description(a: McpAbility) -> Seq<char> {
    match a {
        McpAbility::ServerList => "List available servers"@,
        McpAbility::SshConnect => "Connect to an SSH server"@,
        McpAbility::SshExecute => "Execute a command on a server"@,
        McpAbility::SshUpload => "Upload a file to a server"@,
        McpAbility::SshDownload => "Download a file from a server"@,
        McpAbility::DatasphereGet => "Read data from DataSphere"@,
        McpAbility::DatasphereSet => "Write data to DataSphere"@,
        McpAbility::LogsStream => "Stream logs from a session"@,
        McpAbility::AiInvoke => "Invoke AI processing"@,
    }
}

/// Describes an ability for an approval prompt.
pub fn describe_ability(a: &McpAbility) -> (r: String)
    ensures
        r@ == ability_description(*a),
{
    let text = match a {
        McpAbility::ServerList => "List available servers",
        McpAbility::SshConnect => "Connect to an SSH server",
        McpAbility::SshExecute => "Execute a command on a server",
        McpAbility::SshUpload => "Upload a file to a server",
        McpAbility::SshDownload => "Download a file from a server",
        McpAbility::DatasphereGet => "Read data from DataSphere",
        McpAbility::DatasphereSet => "Write data to DataSphere",
        McpAbility::LogsStream => "Stream logs from a session",
        McpAbility::AiInvoke => "Invoke AI processing",
    };
    String::from_str(text)
}

/// The ability with this wire name, if any.
pub fn parse_ability(method: &str) -> (r: Option<McpAbility>)
    ensures
        r matches Some(a) ==> ability_name(a) == method@,
        r is None ==> forall|a: McpAbility| ability_name(a) != method@,
{
    let all = McpAbility::all();
    let mut i: usize = 0;
    while i < all.len()
        invariant
            i <= all@.len(),
            all@ == all_abilities(),
            forall|j: int| 0 <= j < i ==> ability_name(#[trigger] all@[j]) != method@,
        decreases all@.len() - i,
    {
        if method.to_owned() == all[i].as_str().to_owned() {
            return Some(all[i]);
        }
        i = i + 1;
    }
    proof {
        assert forall|a: McpAbility| ability_name(a) != method@ by {
            let j: int = match a {
                McpAbility::ServerList => 0,
                McpAbility::SshConnect => 1,
                McpAbility::SshExecute => 2,
                McpAbility::SshUpload => 3,
                McpAbility::SshDownload => 4,
                McpAbility::DatasphereGet => 5,
                McpAbility::DatasphereSet => 6,
                McpAbility::LogsStream => 7,
                McpAbility::AiInvoke => 8,
            };
            assert(all@[j] == a);
        }
    }
    None
}

/// What `{:?}` makes of a text: the text quoted, with escapes.
pub uninterp spec fn str_debug(s: Seq<char>) -> Seq<char>;

/// Relies on `<str as Debug>::fmt` through `format!("{:?}")`: the quoted,
/// escaped form depends on the characters alone.
#[verifier::external_body]
fn debug_quoted(s: &str) -> (r: String)
    ensures
        r@ == str_debug(s@),
{
    format!("{:?}", s)
}

/// The debug form of a provider.
pub open spec fn provider_debug(p: AiProvider) -> Seq<char> {
    match p {
        AiProvider::Anthropic => "Anthropic"@,
        AiProvider::ChatGPT => "ChatGPT"@,
        AiProvider::Ollama => "Ollama"@,
        AiProvider::Custom(s) => "Custom("@ + str_debug(s@) + ")"@,
    }
}

/// The debug form of a provider, as text.
pub fn provider_debug_text(p: &AiProvider) -> (r: String)
    ensures
        r@ == provider_debug(*p),
{
    match p {
        AiProvider::Anthropic => String::from_str("Anthropic"),
        AiProvider::ChatGPT => String::from_str("ChatGPT"),
        AiProvider::Ollama => String::from_str("Ollama"),
        AiProvider::Custom(s) => {
            let mut d = String::from_str("Custom(");
            let q = debug_quoted(s.as_str());
            d.append(q.as_str());
            d.append(")");
            d
        },
    }
}

/// Errors of the AI-integration server.
pub enum McpError {
    NotEnabled,
    PermissionDenied(String),
    InvalidRequest(String),
    ProviderNotAllowed(AiProvider),
    ExecutionError(String),
}

impl McpError {
    /// The human-readable text of each error.
    pub open spec fn text(&self) -> Seq<char> {
        match self {
            McpError::NotEnabled => "MCP server not enabled"@,
            McpError::PermissionDenied(m) => "Permission denied for ability: "@ + m@,
            McpError::InvalidRequest(m) => "Invalid request: "@ + m@,
            McpError::ProviderNotAllowed(p) => "Provider not allowed: "@ + provider_debug(*p),
            McpError::ExecutionError(m) => "Execution error: "@ + m@,
        }
    }

    /// The code a client sees for each error.
    pub open spec fn code(&self) -> Seq<char> {
        match self {
            McpError::NotEnabled => "NOT_ENABLED"@,
            McpError::PermissionDenied(_) => "PERMISSION_DENIED"@,
            McpError::InvalidRequest(_) => "INVALID_REQUEST"@,
            McpError::ProviderNotAllowed(_) => "PROVIDER_NOT_ALLOWED"@,
            McpError::ExecutionError(_) => "EXECUTION_ERROR"@,
        }
    }

    /// Renders the error as text.
    pub fn message(&self) -> (r: String)
        ensures
            r@ == self.text(),
    {
        match self {
            McpError::NotEnabled => String::from_str("MCP server not enabled"),
            McpError::PermissionDenied(m) => crate::ssh::prefixed("Permission denied for ability: ", m),
            McpError::InvalidRequest(m) => crate::ssh::prefixed("Invalid request: ", m),
            McpError::ProviderNotAllowed(p) => {
                let d = provider_debug_text(p);
                crate::ssh::prefixed("Provider not allowed: ", &d)
            },
            McpError::ExecutionError(m) => crate::ssh::prefixed("Execution error: ", m),
        }
    }
}

/// The capabilities a server announces.
pub struct CapabilitiesMessage {
    pub version: String,
    pub abilities: Vec<String>,
}

/// Version of the capabilities announcement.
pub open spec fn protocol_version() -> Seq<char> {
    "1.0.0"@
}

impl CapabilitiesMessage {
    /// The announcement of this server: its version and the wire name of
    /// every ability, in declaration order.
    pub fn new() -> (r: Self)
        ensures
            r.version@ == protocol_version(),
            r.abilities@.len() == all_abilities().len(),
            forall|i: int|
                0 <= i < r.abilities@.len() ==> (#[trigger] r.abilities@[i])@ == ability_name(
                    all_abilities()[i],
                ),
    {
        let all = McpAbility::all();
        let mut names: Vec<String> = Vec::new();
        let mut i: usize = 0;
        while i < all.len()
            invariant
                i <= all@.len(),
                all@ == all_abilities(),
                names@.len() == i,
                forall|j: int|
                    0 <= j < i ==> (#[trigger] names@[j])@ == ability_name(all_abilities()[j]),
            decreases all@.len() - i,
        {
            names.push(String::from_str(all[i].as_str()));
            i = i + 1;
        }
        CapabilitiesMessage { version: String::from_str("1.0.0"), abilities: names }
    }
}

impl Default for CapabilitiesMessage {
    fn default() -> (r: Self)
        ensures
            r.version@ == protocol_version(),
            r.abilities@.len() == all_abilities().len(),
            forall|i: int|
                0 <= i < r.abilities@.len() ==> (#[trigger] r.abilities@[i])@ == ability_name(
                    all_abilities()[i],
                ),
    {
        Self::new()
    }
}

/// An error as sent to a client: a code and a message.
pub struct ErrorMessage {
    pub code: String,
    pub message: String,
}

impl ErrorMessage {
    /// The message a client is sent for an error: its code and its text.
    pub fn from_error(err: McpError) -> (r: Self)
        ensures
            r.code@ == err.code(),
            r.message@ == err.text(),
    {
        let code = match &err {
            McpError::NotEnabled => "NOT_ENABLED",
            McpError::PermissionDenied(_) => "PERMISSION_DENIED",
            McpError::InvalidRequest(_) => "INVALID_REQUEST",
            McpError::ProviderNotAllowed(_) => "PROVIDER_NOT_ALLOWED",
            McpError::ExecutionError(_) => "EXECUTION_ERROR",
        };
        ErrorMessage { code: String::from_str(code), message: err.message() }
    }
}

} // verus!
