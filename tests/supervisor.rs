use deepflow_agent::config::{
    DispatcherConfig, IfMacSource, RemoteLogSettings, RuntimeConfig, TapMode, TapType, Tuning,
    YamlConfig,
};
use deepflow_agent::supervisor::{
    ApplyStep, ChangedConfig, Decision, State, Supervisor, RESTART_DELAY_SECS, RESTART_EXIT_CODE,
};

fn tuning() -> Tuning {
    Tuning {
        first_path_level: 0,
        fast_path_map_size: 1024,
        flow_queue_size: 65536,
        quadruple_queue_size: 262144,
        flow_sender_queue_size: 65536,
        collector_sender_queue_size: 65536,
        packet_sequence_queue_size: 65536,
        external_metrics_sender_queue_size: 65536,
        aggr_queue_size: 65535,
        hash_slots: 131072,
        packet_delay: 1,
        flush_interval: 1,
        second_flow_extra_delay: 0,
        vxlan_port: 4789,
        vxlan_flags: 0xff,
        default_tap_type: 3,
        mirror_traffic_pcp: 0,
        analyzer_dedup_disabled: false,
    }
}

fn yaml() -> YamlConfig {
    YamlConfig {
        src_interfaces: vec![],
        feature_flags: vec![],
        log_file: "/var/log/agent.log".to_string(),
        tap_mac_script: String::new(),
        tuning: tuning(),
        others: "ebpf: {}".to_string(),
    }
}

fn runtime(mode: TapMode, yaml_config: YamlConfig) -> RuntimeConfig {
    RuntimeConfig {
        tap_mode: mode,
        yaml_config,
        dispatcher: DispatcherConfig {
            tap_interface_regex: "eth.*".to_string(),
            extra_netns_regex: String::new(),
            if_mac_source: IfMacSource::IfMac,
            agent_type: 1,
            global_pps_threshold: 200000,
            capture_packet_size: 65535,
            analyzer_port: 30033,
            proxy_controller_port: 30035,
        },
        pcap_queue_size: 4096,
        l7_log_collect_nps_threshold: 10000,
        npb_bps_threshold: 1000000000,
        metric_server_enabled: true,
        remote_log: RemoteLogSettings { enabled: true, threshold: 300, hostname: String::new() },
    }
}

fn changed(rc: RuntimeConfig, cluster_id: Option<&str>, tap_types: Vec<TapType>) -> State {
    State::ConfigChanged(ChangedConfig {
        runtime_config: rc,
        blacklist: vec![],
        vm_mac_addrs: vec![0x0a0b0c0d0e0f],
        kubernetes_cluster_id: cluster_id.map(|s| s.to_string()),
        tap_types,
    })
}

#[test]
fn running_state_waits() {
    let mut s = Supervisor::new(String::new());
    assert!(matches!(s.next(State::Running), Decision::Wait));
    assert!(!s.is_finished());
}

#[test]
fn first_config_builds_pipeline() {
    let mut s = Supervisor::new(String::new());
    match s.next(changed(runtime(TapMode::Local, yaml()), None, vec![])) {
        Decision::Build { steps, cluster_id, change } => {
            assert_eq!(steps, vec![ApplyStep::BuildPipeline, ApplyStep::StartPipeline, ApplyStep::RunCallbacks]);
            assert_eq!(cluster_id, "");
            assert_eq!(change.vm_mac_addrs, vec![0x0a0b0c0d0e0f]);
        }
        d => panic!("unexpected decision {:?}", d),
    }
}

#[test]
fn analyzer_build_parses_tap_types() {
    let mut s = Supervisor::new(String::new());
    match s.next(changed(runtime(TapMode::Analyzer, yaml()), None, vec![])) {
        Decision::Build { steps, .. } => assert_eq!(steps.last(), Some(&ApplyStep::ParseTapTypes)),
        d => panic!("unexpected decision {:?}", d),
    }
}

#[test]
fn same_yaml_reconfigures_without_exit() {
    let mut s = Supervisor::new(String::new());
    assert!(matches!(
        s.next(changed(runtime(TapMode::Local, yaml()), None, vec![])),
        Decision::Build { .. }
    ));
    match s.next(changed(runtime(TapMode::Local, yaml()), None, vec![])) {
        Decision::Reconfigure { steps, .. } => assert_eq!(
            steps,
            vec![
                ApplyStep::StartPipeline,
                ApplyStep::UpdateConfig,
                ApplyStep::FanOutListeners,
                ApplyStep::RunCallbacks,
                ApplyStep::PushDispatcherConfig,
            ]
        ),
        d => panic!("unexpected decision {:?}", d),
    }
    assert!(!s.is_finished());
}

#[test]
fn yaml_topology_change_restarts() {
    let mut s = Supervisor::new(String::new());
    s.next(changed(runtime(TapMode::Local, yaml()), None, vec![]));
    let mut bigger = yaml();
    bigger.tuning.quadruple_queue_size += 1;
    match s.next(changed(runtime(TapMode::Local, bigger), None, vec![])) {
        Decision::Restart { stop_pipeline, delay_secs, exit_code } => {
            assert!(stop_pipeline);
            assert_eq!(delay_secs, 1);
            assert_eq!(delay_secs, RESTART_DELAY_SECS);
            assert_eq!(exit_code, RESTART_EXIT_CODE);
            assert_ne!(exit_code, 0);
        }
        d => panic!("unexpected decision {:?}", d),
    }
    assert!(s.is_finished());
}

#[test]
fn source_interface_change_restarts() {
    let mut s = Supervisor::new(String::new());
    s.next(changed(runtime(TapMode::Local, yaml()), None, vec![]));
    let mut other = yaml();
    other.src_interfaces = vec!["eth1".to_string()];
    assert!(matches!(
        s.next(changed(runtime(TapMode::Local, other), None, vec![])),
        Decision::Restart { .. }
    ));
}

#[test]
fn disable_then_enable_builds_fresh_pipeline() {
    let mut s = Supervisor::new(String::new());
    s.next(changed(runtime(TapMode::Local, yaml()), None, vec![]));
    match s.next(State::Disabled) {
        Decision::Disable { stop_pipeline } => assert!(stop_pipeline),
        d => panic!("unexpected decision {:?}", d),
    }
    assert!(!s.is_finished());
    match s.next(State::Disabled) {
        Decision::Disable { stop_pipeline } => assert!(!stop_pipeline),
        d => panic!("unexpected decision {:?}", d),
    }
    assert!(matches!(
        s.next(changed(runtime(TapMode::Local, yaml()), None, vec![])),
        Decision::Build { .. }
    ));
}

#[test]
fn terminated_shuts_down() {
    let mut s = Supervisor::new(String::new());
    s.next(changed(runtime(TapMode::Local, yaml()), None, vec![]));
    s.next(State::Running);
    match s.next(State::Terminated) {
        Decision::Shutdown { stop_pipeline } => assert!(stop_pipeline),
        d => panic!("unexpected decision {:?}", d),
    }
    assert!(s.is_finished());
}

#[test]
fn terminated_without_pipeline() {
    let mut s = Supervisor::new(String::new());
    match s.next(State::Terminated) {
        Decision::Shutdown { stop_pipeline } => assert!(!stop_pipeline),
        d => panic!("unexpected decision {:?}", d),
    }
}

#[test]
fn cluster_id_is_kept_once_set() {
    let mut s = Supervisor::new(String::new());
    s.next(changed(runtime(TapMode::Local, yaml()), Some("c-1"), vec![]));
    assert_eq!(s.cluster_id(), "c-1");
    match s.next(changed(runtime(TapMode::Local, yaml()), None, vec![])) {
        Decision::Reconfigure { cluster_id, .. } => assert_eq!(cluster_id, "c-1"),
        d => panic!("unexpected decision {:?}", d),
    }
}

#[test]
fn unwrap_config_returns_payload() {
    let st = changed(runtime(TapMode::Mirror, yaml()), Some("k"), vec![]);
    let c = st.unwrap_config();
    assert_eq!(c.kubernetes_cluster_id.as_deref(), Some("k"));
    assert_eq!(c.runtime_config.tap_mode, TapMode::Mirror);
}

#[test]
fn yaml_equality_compares_every_field() {
    let a = yaml();
    let b = a.duplicate();
    assert!(a == b);
    let mut c = yaml();
    c.log_file = "/tmp/other.log".to_string();
    assert!(a != c);
    let mut d = yaml();
    d.tuning.packet_delay = 2;
    assert!(a != d);
}

#[test]
fn any_sequence_ending_in_terminated_finishes() {
    let mut s = Supervisor::new(String::new());
    let states = vec![
        State::Running,
        State::Disabled,
        changed(runtime(TapMode::Local, yaml()), None, vec![]),
        State::Running,
        changed(runtime(TapMode::Local, yaml()), Some("c"), vec![]),
        State::Disabled,
        changed(runtime(TapMode::Local, yaml()), None, vec![]),
    ];
    for st in states {
        s.next(st);
        assert!(!s.is_finished());
    }
    match s.next(State::Terminated) {
        Decision::Shutdown { stop_pipeline } => assert!(stop_pipeline),
        d => panic!("unexpected decision {:?}", d),
    }
    assert!(s.is_finished());
}

#[test]
fn feature_flag_change_restarts() {
    let mut s = Supervisor::new(String::new());
    s.next(changed(runtime(TapMode::Local, yaml()), None, vec![]));
    let mut other = yaml();
    other.feature_flags = vec!["FEATURE_X".to_string()];
    assert!(matches!(
        s.next(changed(runtime(TapMode::Local, other), None, vec![])),
        Decision::Restart { .. }
    ));
}

#[test]
fn tap_mac_script_change_restarts() {
    let mut s = Supervisor::new(String::new());
    s.next(changed(runtime(TapMode::Local, yaml()), None, vec![]));
    let mut other = yaml();
    other.tap_mac_script = "/usr/bin/mac.sh".to_string();
    assert!(matches!(
        s.next(changed(runtime(TapMode::Local, other), None, vec![])),
        Decision::Restart { .. }
    ));
}

#[test]
fn other_section_change_restarts() {
    let mut s = Supervisor::new(String::new());
    s.next(changed(runtime(TapMode::Local, yaml()), None, vec![]));
    let mut other = yaml();
    other.others = "ebpf: {disabled: true}".to_string();
    assert!(matches!(
        s.next(changed(runtime(TapMode::Local, other), None, vec![])),
        Decision::Restart { .. }
    ));
}
