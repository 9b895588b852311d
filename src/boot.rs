//! Decisions taken while the agent boots.
use vstd::prelude::*;

use crate::config::{RunningMode, StaticConfig};

verus! {

/// Why a configuration file could not be loaded.
#[derive(Clone, Debug)]
pub enum ConfigError {
    /// The file is not valid YAML for this agent.
    YamlConfigInvalid(String),
    /// Any other failure, such as a file that cannot be read.
    Other(String),
}

/// Whether the legacy configuration file is to be tried: only when the
/// primary file failed as invalid YAML.
pub fn needs_fallback<C>(primary: &Result<C, ConfigError>) -> (r: bool)
    ensures
        r == (primary matches Err(ConfigError::YamlConfigInvalid(_))),
{
    match primary {
        Err(ConfigError::YamlConfigInvalid(_)) => true,
        _ => false,
    }
}

/// Picks the configuration to run with: the primary one when it loaded;
/// the legacy one when the primary failed as invalid YAML and the legacy
/// one loaded; otherwise the primary error.
pub fn choose_config<C>(primary: Result<C, ConfigError>, fallback: Option<Result<C, ConfigError>>) -> (r:
    Result<C, ConfigError>)
    ensures
        ({
            let use_fallback = primary matches Err(ConfigError::YamlConfigInvalid(_))
                && fallback matches Some(Ok(_));
            &&& use_fallback ==> r == fallback->0
            &&& !use_fallback ==> r == primary
        }),
{
    let use_fallback = needs_fallback(&primary) && match &fallback {
        Some(Ok(_)) => true,
        _ => false,
    };
    if use_fallback {
        match fallback {
            Some(f) => f,
            None => primary,
        }
    } else {
        primary
    }
}

/// The controller address of a standalone agent.
pub const STANDALONE_CONTROLLER: &'static str = "127.0.0.1";

/// The static configuration of a standalone agent: the defaults in `base`,
/// with the local controller address, the log file of the runtime
/// configuration, and the standalone mode.
pub fn standalone_config(base: StaticConfig, log_file: String) -> (r: StaticConfig)
    ensures
        r.controller_ips.deep_view() == seq![STANDALONE_CONTROLLER@],
        r.log_file@ == log_file@,
        r.agent_mode == RunningMode::Standalone,
        r.controller_domain_names == base.controller_domain_names,
        r.controller_port == base.controller_port,
        r.controller_tls_port == base.controller_tls_port,
        r.kubernetes_cluster_id == base.kubernetes_cluster_id,
{
    let controller_ips = vec![String::from_str(STANDALONE_CONTROLLER)];
    proof {
        assert(controller_ips.deep_view() =~= seq![STANDALONE_CONTROLLER@]);
    }
    StaticConfig {
        controller_ips,
        controller_domain_names: base.controller_domain_names,
        controller_port: base.controller_port,
        controller_tls_port: base.controller_tls_port,
        log_file,
        agent_mode: RunningMode::Standalone,
        kubernetes_cluster_id: base.kubernetes_cluster_id,
    }
}

/// Whether the Kubernetes cluster identifier is to be asked of the
/// controller: a managed agent in a container that has none configured.
pub fn needs_cluster_id_lookup(mode: RunningMode, in_container: bool, cluster_id: &String) -> (r:
    bool)
    ensures
        r == (mode == RunningMode::Managed && in_container && cluster_id@.len() == 0),
{
    mode == RunningMode::Managed && in_container && cluster_id.unicode_len() == 0
}

/// Whether the stats collector exports its counters: only a managed agent
/// has a controller-side ingester to export to.
pub fn exports_stats(mode: RunningMode) -> (r: bool)
    ensures
        r == (mode == RunningMode::Managed),
{
    mode == RunningMode::Managed
}

/// Whether the log is mirrored to stderr: only when the parent process is
/// not init.
pub fn mirrors_to_stderr(parent_pid: i32) -> (r: bool)
    ensures
        r == (parent_pid != 1),
{
    parent_pid != 1
}

/// Relies on `nix::unistd::getppid`, which always succeeds; what it returns
/// depends on the process tree.
#[verifier::external_body]
fn parent_pid() -> (r: i32) {
    nix::unistd::getppid().as_raw()
}

/// Asks for the parent process and decides from it whether the log is
/// mirrored to stderr; returns the parent's pid with the decision.
pub fn stderr_mirroring() -> (r: (i32, bool))
    ensures
        r.1 == (r.0 != 1),
{
    let pid = parent_pid();
    (pid, mirrors_to_stderr(pid))
}

} // verus!
