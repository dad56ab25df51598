//! Records shared with the collaborators around the core: application
//! settings, host authentication kinds, plugin manifests, session status,
//! audit actions and file-transfer errors.
use vstd::prelude::*;
use vstd::string::*;

verus! {

/// How a stored host authenticates.
#[derive(Debug, Clone, Copy, PartialEq, Eq, Structural)]
pub enum AuthType {
    Password,
    PrivateKey,
    Agent,
}

/// Colour theme of the application.
#[derive(Debug, Clone, Copy, PartialEq, Eq, Structural)]
pub enum Theme {
    Light,
    Dark,
    System,
}

/// Cursor shape of the terminal.
#[derive(Debug, Clone, Copy, PartialEq, Eq, Structural)]
pub enum CursorStyle {
    Block,
    Underline,
    Bar,
}

/// Where settings are synchronised to.
pub enum SyncProvider {
    WebDAV { url: String, username: String },
    S3 { bucket: String, region: String },
    Nextcloud { url: String, username: String },
}

/// Application settings.
pub struct Settings {
    pub theme: Theme,
    pub font_size: u8,
    pub font_family: String,
    pub terminal_cursor_style: CursorStyle,
    pub terminal_cursor_blink: bool,
    pub auto_reconnect: bool,
    pub show_latency: bool,
    pub sync_enabled: bool,
    pub sync_provider: Option<SyncProvider>,
}

impl Default for Settings {
    fn default() -> (r: Self)
        ensures
            r.theme == Theme::System,
            r.font_size == 14,
            r.font_family@ == "SF Mono"@,
            r.terminal_cursor_style == CursorStyle::Block,
            r.terminal_cursor_blink,
            r.auto_reconnect,
            r.show_latency,
            !r.sync_enabled,
            r.sync_provider is None,
    {
        Settings {
            theme: Theme::System,
            font_size: 14,
            font_family: String::from_str("SF Mono"),
            terminal_cursor_style: CursorStyle::Block,
            terminal_cursor_blink: true,
            auto_reconnect: true,
            show_latency: true,
            sync_enabled: false,
            sync_provider: None,
        }
    }
}

/// What a plugin may do.
#[derive(Debug, Clone, Copy, PartialEq, Eq, Structural)]
pub enum PluginPermission {
    ReadHosts,
    WriteHosts,
    ExecuteCommands,
    FileAccess,
    NetworkAccess,
    SystemInfo,
}

/// The manifest of a plugin.
pub struct PluginManifest {
    pub id: String,
    pub name: String,
    pub version: String,
    pub description: Option<String>,
    pub author: Option<String>,
    pub homepage: Option<String>,
    pub permissions: Vec<PluginPermission>,
}

/// Connection status of a session, as shown to the user.
#[derive(Debug, Clone, Copy, PartialEq, Eq, Structural)]
pub enum SessionStatus {
    Disconnected,
    Connecting,
    Connected,
    Reconnecting,
    Error,
}

/// Errors of the session catalog shown to the user.
pub enum SessionError {
    NotFound(String),
    General(String),
}

/// Kinds of audited actions.
#[derive(Debug, Clone, Copy, PartialEq, Eq, Structural)]
pub enum AuditAction {
    Connect,
    Disconnect,
    CommandExecuted,
    FileUploaded,
    FileDownloaded,
    FileDeleted,
    SettingsChanged,
    HostAdded,
    HostRemoved,
}

/// Errors of the file-transfer collaborator.
pub enum SftpError {
    NotConnected,
    PathNotFound(String),
    PermissionDenied(String),
    AlreadyExists(String),
    NotDirectory(String),
    NotFile(String),
    Io(String),
    TransferFailed(String),
    Ssh(String),
}

} // verus!
