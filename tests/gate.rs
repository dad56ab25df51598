use nexus_ssh::mcp::{
    describe_ability, parse_ability, AiProvider, CapabilitiesMessage, ErrorMessage, McpAbility, McpConfig, McpError,
};
use nexus_ssh::models::{CursorStyle, Settings, Theme};
use nexus_ssh::permissions::{
    gate_request, provider_key_of, GateDecision, PermissionManager, PermissionResult,
    ProviderPermission,
};
use nexus_ssh::text::decimal_u8;
use nexus_ssh::vault::{DataSphereError, EncryptedData, VaultFile};

fn vault(magic: &str, version: u8) -> VaultFile {
    VaultFile {
        magic: magic.to_string(),
        version,
        salt: "c2FsdA==".to_string(),
        data: EncryptedData {
            ciphertext: String::new(),
            nonce: String::new(),
            salt: None,
            version: 1,
        },
    }
}

#[test]
fn ability_names_round_trip() {
    let all = McpAbility::all();
    assert_eq!(all.len(), 9);
    assert_eq!(McpAbility::SshExecute.as_str(), "nexus.ssh.execute");
    assert_eq!(McpAbility::AiInvoke.as_str(), "nexus.ai.invoke");
    for a in all {
        assert_eq!(parse_ability(a.as_str()), Some(a));
    }
    assert_eq!(parse_ability("nexus.ssh.reboot"), None);
    assert_eq!(parse_ability(""), None);
}

#[test]
fn capabilities_list_every_ability() {
    let caps = CapabilitiesMessage::new();
    assert_eq!(caps.version, "1.0.0");
    assert_eq!(caps.abilities.len(), 9);
    assert_eq!(caps.abilities[0], "nexus.server.list");
    assert_eq!(caps.abilities[8], "nexus.ai.invoke");
}

#[test]
fn mcp_config_defaults() {
    let c = McpConfig::default();
    assert!(!c.enabled);
    assert_eq!(c.port, 9742);
    assert!(c.require_approval);
    assert!(c.allowed_providers.is_empty());
}

#[test]
fn provider_keys_are_lower_case_debug_forms() {
    assert_eq!(provider_key_of(&AiProvider::Anthropic), "anthropic");
    assert_eq!(provider_key_of(&AiProvider::ChatGPT), "chatgpt");
    assert_eq!(provider_key_of(&AiProvider::Custom("MyBot".to_string())), "custom(\"mybot\")");
}

#[test]
fn permission_rules_in_order() {
    let mut m = PermissionManager::default();
    let exec = McpAbility::SshExecute;
    assert_eq!(m.check_permission(&AiProvider::Anthropic, &exec), PermissionResult::RequiresApproval);

    m.provider_permissions.push((
        "anthropic".to_string(),
        ProviderPermission {
            allowed_abilities: vec!["nexus.ssh.execute".to_string()],
            blocked_abilities: vec!["nexus.ssh.upload".to_string()],
        },
    ));
    assert_eq!(m.check_permission(&AiProvider::Anthropic, &exec), PermissionResult::Allowed);
    assert_eq!(m.check_permission(&AiProvider::Ollama, &exec), PermissionResult::RequiresApproval);
    assert_eq!(
        m.check_permission(&AiProvider::Anthropic, &McpAbility::SshUpload),
        PermissionResult::Denied
    );

    m.block(&exec);
    assert_eq!(m.check_permission(&AiProvider::Anthropic, &exec), PermissionResult::Denied);
    assert_eq!(m.blocked, vec!["nexus.ssh.execute".to_string()]);

    m.grant(&exec);
    assert_eq!(m.check_permission(&AiProvider::Ollama, &exec), PermissionResult::Allowed);
    assert!(m.blocked.is_empty());
    m.grant(&exec);
    assert_eq!(m.auto_approve, vec!["nexus.ssh.execute".to_string()]);

    m.block(&exec);
    assert!(m.auto_approve.is_empty());
    assert_eq!(m.check_permission(&AiProvider::Anthropic, &exec), PermissionResult::Denied);
}

#[test]
fn vault_file_validation() {
    assert!(vault("NEXUS_VAULT", 1).validate().is_ok());
    match vault("OTHER", 1).validate() {
        Err(DataSphereError::Decryption(m)) => assert_eq!(m, "Invalid vault file"),
        _ => panic!("bad magic"),
    }
    match vault("NEXUS_VAULT", 2).validate() {
        Err(DataSphereError::Decryption(m)) => assert_eq!(m, "Unsupported vault version: 2"),
        _ => panic!("bad version"),
    }
    match vault("NEXUS_VAULT", 255).validate() {
        Err(DataSphereError::Decryption(m)) => assert_eq!(m, "Unsupported vault version: 255"),
        _ => panic!("bad version"),
    }
}

#[test]
fn decimal_text_of_bytes() {
    assert_eq!(decimal_u8(0), "0");
    assert_eq!(decimal_u8(9), "9");
    assert_eq!(decimal_u8(10), "10");
    assert_eq!(decimal_u8(42), "42");
    assert_eq!(decimal_u8(100), "100");
    assert_eq!(decimal_u8(207), "207");
}

#[test]
fn settings_defaults() {
    let s = Settings::default();
    assert_eq!(s.theme, Theme::System);
    assert_eq!(s.font_size, 14);
    assert_eq!(s.font_family, "SF Mono");
    assert_eq!(s.terminal_cursor_style, CursorStyle::Block);
    assert!(s.terminal_cursor_blink && s.auto_reconnect && s.show_latency);
    assert!(!s.sync_enabled);
    assert!(s.sync_provider.is_none());
}

#[test]
fn gate_decisions() {
    let mut config = McpConfig::default();
    let mut m = PermissionManager::default();
    let list = McpAbility::ServerList;
    assert_eq!(gate_request(&config, &m, &AiProvider::Ollama, &list), GateDecision::ProviderNotAllowed);
    config.allowed_providers.push(AiProvider::Ollama);
    config.allowed_providers.push(AiProvider::Custom("bot".to_string()));
    assert_eq!(gate_request(&config, &m, &AiProvider::Ollama, &list), GateDecision::AwaitApproval);
    assert_eq!(
        gate_request(&config, &m, &AiProvider::Custom("other".to_string()), &list),
        GateDecision::ProviderNotAllowed
    );
    assert_eq!(
        gate_request(&config, &m, &AiProvider::Custom("bot".to_string()), &list),
        GateDecision::AwaitApproval
    );
    config.require_approval = false;
    assert_eq!(gate_request(&config, &m, &AiProvider::Ollama, &list), GateDecision::Execute);
    m.block(&list);
    assert_eq!(gate_request(&config, &m, &AiProvider::Ollama, &list), GateDecision::Denied);
    m.grant(&list);
    config.require_approval = true;
    assert_eq!(gate_request(&config, &m, &AiProvider::Ollama, &list), GateDecision::Execute);
}

#[test]
fn mcp_error_messages() {
    let e = ErrorMessage::from_error(McpError::ProviderNotAllowed(AiProvider::Custom("x\"y".to_string())));
    assert_eq!(e.code, "PROVIDER_NOT_ALLOWED");
    assert_eq!(e.message, "Provider not allowed: Custom(\"x\\\"y\")");
    let d = ErrorMessage::from_error(McpError::PermissionDenied("nexus.ssh.execute".to_string()));
    assert_eq!(d.code, "PERMISSION_DENIED");
    assert_eq!(d.message, "Permission denied for ability: nexus.ssh.execute");
    assert_eq!(McpError::NotEnabled.message(), "MCP server not enabled");
    assert_eq!(ErrorMessage::from_error(McpError::NotEnabled).code, "NOT_ENABLED");
    assert_eq!(McpError::InvalidRequest("q".to_string()).message(), "Invalid request: q");
    assert_eq!(McpError::ExecutionError("boom".to_string()).message(), "Execution error: boom");
    assert_eq!(
        McpError::ProviderNotAllowed(AiProvider::Anthropic).message(),
        format!("Provider not allowed: {:?}", AiProvider::Anthropic)
    );
}

#[test]
fn ability_descriptions() {
    assert_eq!(describe_ability(&McpAbility::SshExecute), "Execute a command on a server");
    assert_eq!(describe_ability(&McpAbility::LogsStream), "Stream logs from a session");
    assert_eq!(CapabilitiesMessage::default().abilities.len(), 9);
}
