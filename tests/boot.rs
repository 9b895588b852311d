use deepflow_agent::boot::{
    choose_config, mirrors_to_stderr, needs_cluster_id_lookup, needs_fallback, standalone_config,
    stderr_mirroring, ConfigError,
};
use deepflow_agent::config::{RunningMode, StaticConfig};
use deepflow_agent::version::{edition_name, VersionInfo};

fn base() -> StaticConfig {
    StaticConfig {
        controller_ips: vec![],
        controller_domain_names: vec!["ctrl".to_string()],
        controller_port: 30035,
        controller_tls_port: 30135,
        log_file: "/var/log/default.log".to_string(),
        agent_mode: RunningMode::Managed,
        kubernetes_cluster_id: String::new(),
    }
}

#[test]
fn fallback_only_on_invalid_yaml() {
    let invalid: Result<u32, ConfigError> = Err(ConfigError::YamlConfigInvalid("bad".to_string()));
    assert!(needs_fallback(&invalid));
    assert!(matches!(choose_config(invalid, Some(Ok(7))), Ok(7)));
    let invalid: Result<u32, ConfigError> = Err(ConfigError::YamlConfigInvalid("bad".to_string()));
    match choose_config(invalid, Some(Err(ConfigError::Other("missing".to_string())))) {
        Err(ConfigError::YamlConfigInvalid(m)) => assert_eq!(m, "bad"),
        r => panic!("unexpected {:?}", r),
    }
    let other: Result<u32, ConfigError> = Err(ConfigError::Other("io".to_string()));
    assert!(!needs_fallback(&other));
    assert!(matches!(choose_config(other, Some(Ok(7))), Err(ConfigError::Other(_))));
    assert!(matches!(choose_config(Ok(1u32), Some(Ok(7))), Ok(1)));
}

#[test]
fn standalone_config_uses_local_controller() {
    let c = standalone_config(base(), "/tmp/agent.log".to_string());
    assert_eq!(c.controller_ips, vec!["127.0.0.1".to_string()]);
    assert_eq!(c.log_file, "/tmp/agent.log");
    assert_eq!(c.agent_mode, RunningMode::Standalone);
    assert_eq!(c.controller_domain_names, vec!["ctrl".to_string()]);
    assert_eq!(c.controller_port, 30035);
}

#[test]
fn stderr_is_mirrored_unless_parent_is_init() {
    assert!(!mirrors_to_stderr(1));
    assert!(mirrors_to_stderr(1234));
    let (pid, mirrored) = stderr_mirroring();
    assert_eq!(mirrored, pid != 1);
    assert!(pid >= 0);
}

#[test]
fn cluster_id_lookup_only_in_managed_container() {
    assert!(needs_cluster_id_lookup(RunningMode::Managed, true, &String::new()));
    assert!(!needs_cluster_id_lookup(RunningMode::Managed, true, &"c".to_string()));
    assert!(!needs_cluster_id_lookup(RunningMode::Managed, false, &String::new()));
    assert!(!needs_cluster_id_lookup(RunningMode::Standalone, true, &String::new()));
    assert_eq!(RunningMode::default(), RunningMode::Managed);
}

#[test]
fn version_banner_for_known_editions() {
    let v = VersionInfo {
        name: "deepflow-agent-ce",
        branch: "main",
        commit_id: "abc123",
        rev_count: "42",
        compiler: "rustc 1.70",
        compile_time: "2023-01-01",
        revision: "r",
    };
    assert_eq!(
        v.banner().unwrap(),
        "42-abc123\nName: deepflow-agent community edition\nBranch: main\nCommitId: abc123\nRevCount: 42\nCompiler: rustc 1.70\nCompileTime: 2023-01-01"
    );
    let e = VersionInfo { name: "deepflow-agent-ee", ..v };
    assert!(e.banner().unwrap().contains("Name: deepflow-agent enterprise edition\n"));
    let u = VersionInfo { name: "other", ..v };
    assert_eq!(u.banner(), None);
    assert_eq!(edition_name("deepflow-agent-ee"), Some("deepflow-agent enterprise edition"));
}

#[test]
fn only_managed_agents_export_stats() {
    assert!(deepflow_agent::boot::exports_stats(RunningMode::Managed));
    assert!(!deepflow_agent::boot::exports_stats(RunningMode::Standalone));
}
