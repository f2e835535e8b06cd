use agent_core::config::{
    expand_env_var_string, AppConfig, LlmProfile, MCPConfig, MCPServerConfig, PromptConfig,
    PromptManager,
};

fn env() -> Vec<(String, String)> {
    vec![
        ("HOME_DIR".to_string(), "/home/me".to_string()),
        ("TOKEN".to_string(), "SECRET-REDACTED".to_string()),
    ]
}

#[test]
fn test_expand_env_var_string() {
    let env = env();
    assert_eq!(expand_env_var_string("${env:HOME_DIR}/bin", &env), "/home/me/bin");
    assert_eq!(expand_env_var_string("plain text", &env), "plain text");
    assert_eq!(expand_env_var_string("a ${env:HOME_DIR} b ${env:HOME_DIR}", &env), "a /home/me b /home/me");
    // a missing variable expands to the empty text
    assert_eq!(expand_env_var_string("x${env:MISSING}y", &env), "xy");
    // an unclosed placeholder stays as it is
    assert_eq!(expand_env_var_string("${env:HOME_DIR", &env), "${env:HOME_DIR");
    assert_eq!(expand_env_var_string("", &env), "");
}

#[test]
fn test_server_config_expansion() {
    let cfg = MCPServerConfig {
        command: "${env:HOME_DIR}/server".to_string(),
        args: vec!["--token".to_string(), "${env:TOKEN}".to_string()],
        env: vec![("PATH_HINT".to_string(), "${env:HOME_DIR}".to_string())],
    };
    let expanded = cfg.expand_env_vars(&env());
    assert_eq!(expanded.command, "/home/me/server");
    assert_eq!(expanded.args[0], "--token");
    assert_eq!(expanded.args[1], "SECRET-REDACTED");
    assert_eq!(expanded.env[0].0, "PATH_HINT");
    assert_eq!(expanded.env[0].1, "/home/me");
}

#[test]
fn test_mcp_config_expansion() {
    let cfg = MCPConfig {
        servers: vec![(
            "files".to_string(),
            MCPServerConfig {
                command: "${env:HOME_DIR}/srv".to_string(),
                args: Vec::new(),
                env: Vec::new(),
            },
        )],
    };
    let expanded = cfg.expand_env_vars(&env());
    assert_eq!(expanded.servers.len(), 1);
    assert_eq!(expanded.servers[0].0, "files");
    assert_eq!(expanded.servers[0].1.command, "/home/me/srv");
}

#[test]
fn test_profile_defaults() {
    let profile = LlmProfile::default();
    assert_eq!(profile.backend, "openai");
    assert_eq!(profile.model, "gpt-3.5-turbo");
    assert_eq!(profile.get_context_window_size(), 128000);
    assert_eq!(profile.get_summarize_threshold_permille(), 700);
    assert_eq!(profile.get_max_retries(), 3);
    assert_eq!(profile.get_retry_backoff_base(), 2);
}

#[test]
fn test_provider_window_defaults() {
    let mut profile = LlmProfile::default();
    profile.context_window_size = None;
    profile.rate_limit_tpm = None;

    profile.backend = "anthropic".to_string();
    assert_eq!(profile.get_context_window_size(), 200000);
    assert_eq!(profile.get_rate_limit_tpm(), Some(100000));

    profile.backend = "gemini".to_string();
    assert_eq!(profile.get_context_window_size(), 1000000);

    profile.backend = "ollama".to_string();
    assert_eq!(profile.get_context_window_size(), 32000);
    assert_eq!(profile.get_rate_limit_tpm(), None);

    profile.backend = "unheard-of".to_string();
    assert_eq!(profile.get_context_window_size(), 128000);
    assert_eq!(profile.get_rate_limit_tpm(), Some(100000));
}

#[test]
fn test_prompt_manager() {
    let loaded = PromptManager::new(Some("  be kind \n".to_string()));
    assert_eq!(loaded.get_system_prompt(), Some("be kind"));
    let missing = PromptManager::new(None);
    assert_eq!(missing.get_system_prompt(), None);
}

#[test]
fn test_prompt_config_paths() {
    let cfg = PromptConfig::for_data_dir("/data/agent");
    assert_eq!(cfg.system_prompt_file.as_deref(), Some("/data/agent/system_prompt.md"));
    assert_eq!(cfg.user_prompt_file.as_deref(), Some("/data/agent/user_prompt.md"));
    let none = PromptConfig::default();
    assert!(none.system_prompt_file.is_none());
}

#[test]
fn test_default_profile_lookup() {
    let config = AppConfig {
        default: "work".to_string(),
        profiles: vec![
            ("home".to_string(), LlmProfile::default()),
            ("work".to_string(), {
                let mut p = LlmProfile::default();
                p.model = "large-model-x".to_string();
                p
            }),
        ],
        prompts: PromptConfig::default(),
        mcp: MCPConfig::default(),
    };
    let profile = config.get_default_profile().expect("the default profile exists");
    assert_eq!(profile.model, "large-model-x");

    let orphan = AppConfig {
        default: "gone".to_string(),
        profiles: Vec::new(),
        prompts: PromptConfig::default(),
        mcp: MCPConfig::default(),
    };
    assert!(orphan.get_default_profile().is_none());

    // with two entries of the same name, the first one is returned
    let doubled = AppConfig {
        default: "work".to_string(),
        profiles: vec![
            ("work".to_string(), {
                let mut p = LlmProfile::default();
                p.model = "first-entry".to_string();
                p
            }),
            ("work".to_string(), {
                let mut p = LlmProfile::default();
                p.model = "second-entry".to_string();
                p
            }),
        ],
        prompts: PromptConfig::default(),
        mcp: MCPConfig::default(),
    };
    let first = doubled.get_default_profile().expect("the doubled name resolves");
    assert_eq!(first.model, "first-entry");
}
