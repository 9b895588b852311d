use deepflow_agent::config::{
    DispatcherConfig, IfMacSource, RemoteLogSettings, RunningMode, RuntimeConfig, StaticConfig,
    TapMode, Tuning, YamlConfig,
};
use deepflow_agent::graph::{
    capture_units, BuildError, CaptureUnit, Components, EnvCheck, MetricsType, Netns, QueueName,
    QueueSpec, SenderSpec, COMMON_DELAY,
};
use deepflow_agent::lifecycle::{Component, Pipeline};
use deepflow_agent::names::{select_links, Link};

fn tuning() -> Tuning {
    Tuning {
        first_path_level: 0,
        fast_path_map_size: 1024,
        flow_queue_size: 100,
        quadruple_queue_size: 200,
        flow_sender_queue_size: 300,
        collector_sender_queue_size: 400,
        packet_sequence_queue_size: 500,
        external_metrics_sender_queue_size: 600,
        aggr_queue_size: 700,
        hash_slots: 1024,
        packet_delay: 1,
        flush_interval: 1,
        second_flow_extra_delay: 0,
        vxlan_port: 4789,
        vxlan_flags: 0xff,
        default_tap_type: 3,
        mirror_traffic_pcp: 0,
        analyzer_dedup_disabled: false,
    }
}

fn runtime(mode: TapMode, src_interfaces: Vec<String>) -> RuntimeConfig {
    RuntimeConfig {
        tap_mode: mode,
        yaml_config: YamlConfig {
            src_interfaces,
            feature_flags: vec![],
            log_file: "/var/log/agent.log".to_string(),
            tap_mac_script: String::new(),
            tuning: tuning(),
            others: "ebpf: {}".to_string(),
        },
        dispatcher: DispatcherConfig {
            tap_interface_regex: "eth.*".to_string(),
            extra_netns_regex: String::new(),
            if_mac_source: IfMacSource::IfMac,
            agent_type: 1,
            global_pps_threshold: 200000,
            capture_packet_size: 65535,
            analyzer_port: 30033,
            proxy_controller_port: 30035,
        },
        pcap_queue_size: 800,
        l7_log_collect_nps_threshold: 10000,
        npb_bps_threshold: 1000000000,
        metric_server_enabled: true,
        remote_log: RemoteLogSettings { enabled: true, threshold: 300, hostname: "h".to_string() },
    }
}

fn static_config() -> StaticConfig {
    StaticConfig {
        controller_ips: vec!["10.0.0.1".to_string()],
        controller_domain_names: vec![],
        controller_port: 30035,
        controller_tls_port: 30135,
        log_file: "/var/log/agent.log".to_string(),
        agent_mode: RunningMode::Managed,
        kubernetes_cluster_id: String::new(),
    }
}

fn link(if_index: u32, name: &str) -> Link {
    Link { if_index, name: name.to_string(), mac: if_index as u64 }
}

fn pipeline(units: usize) -> Pipeline {
    Pipeline {
        agent_mode: RunningMode::Managed,
        tap_mode: TapMode::Local,
        cluster_id_set: false,
        metric_server_enabled: true,
        kernel_features: true,
        has_ebpf: true,
        units,
        running: false,
        stats_running: false,
    }
}

#[test]
fn collector_windows_follow_formula() {
    let c = Components::new_collector(tuning(), 0, MetricsType { second: true, minute: true }).unwrap();
    assert_eq!(c.second_delay, 1 + 1 + 1 + 5);
    assert_eq!(c.minute_delay, 60 + 1 + 1 + 1 + 5);
    assert_eq!(c.second_window, Some(13));
    assert_eq!(c.minute_window, Some(73));
    assert_eq!(c.second_window, Some((c.second_delay + COMMON_DELAY) as u32));
    assert_eq!(c.connection_lru_capacity, 1024 << 3);
    assert_eq!(c.possible_host_size, 1 << 18);
}

#[test]
fn collector_extra_second_delay() {
    let mut t = tuning();
    t.second_flow_extra_delay = 10;
    t.packet_delay = 3;
    t.flush_interval = 2;
    let c = Components::new_collector(t, 4, MetricsType { second: true, minute: true }).unwrap();
    assert_eq!(c.second_delay, 3 + 1 + 2 + 5 + 10);
    assert_eq!(c.minute_delay, 60 + 3 + 1 + 2 + 5);
    assert_eq!(c.second_window, Some(26));
    assert_eq!(c.minute_window, Some(76));
    assert_eq!(c.id, 4);
}

#[test]
fn collector_skips_absent_levels() {
    let c = Components::new_collector(tuning(), 0, MetricsType { second: false, minute: true }).unwrap();
    assert_eq!(c.second_window, None);
    assert_eq!(c.minute_window, Some(73));
    let c = Components::new_collector(tuning(), 0, MetricsType { second: true, minute: false }).unwrap();
    assert_eq!(c.minute_window, None);
}

#[test]
fn collector_window_out_of_range() {
    let mut t = tuning();
    t.packet_delay = u32::MAX as u64;
    let r = Components::new_collector(t, 0, MetricsType { second: true, minute: true });
    assert_eq!(r, Err(BuildError::DelayOutOfRange));
}

#[test]
fn boot_managed_local_one_dispatcher_on_eth0() {
    let rc = runtime(TapMode::Local, vec![]);
    let units = capture_units(&rc.yaml_config.src_interfaces, &rc.dispatcher.extra_netns_regex, &vec![]).unwrap();
    assert_eq!(units.len(), 1);
    assert_eq!(units[0].src_interface, "");
    assert!(matches!(units[0].netns, Netns::Root));
    let links = vec![vec![link(1, "lo"), link(2, "eth0")]];
    let c = Components::new(&rc, &static_config(), &String::new(), true, true, &units, &links).unwrap();
    assert_eq!(c.units.len(), 1);
    assert_eq!(c.units[0].tap_interfaces.len(), 1);
    assert_eq!(c.units[0].tap_interfaces[0].name, "eth0");
    assert_eq!(c.watch_ips, vec!["10.0.0.1".to_string()]);
    assert!(!c.pipeline.running);
    assert_eq!(c.checks, vec![EnvCheck::AgentUniqueness, EnvCheck::ControllerIps, EnvCheck::FreeDisk]);
}

#[test]
fn plan_registers_every_queue_with_owner_index() {
    let rc = runtime(TapMode::Local, vec!["eth0".to_string(), "eth1".to_string()]);
    let units = capture_units(&rc.yaml_config.src_interfaces, &String::new(), &vec![]).unwrap();
    let links = vec![vec![], vec![]];
    let c = Components::new(&rc, &static_config(), &String::new(), true, true, &units, &links).unwrap();
    assert_eq!(c.policy_shards, 2);
    assert_eq!(c.queues[0], QueueSpec { name: QueueName::Pcap, index: 0, capacity: 800 });
    assert_eq!(c.queues[3], QueueSpec { name: QueueName::ProtoLog, index: 2, capacity: 300 });
    for s in c.senders.iter() {
        assert!(c.queues.iter().any(|q| q.name == s.queue && q.index == s.id));
    }
    assert_eq!(c.senders[3], SenderSpec { id: 6, queue: QueueName::PacketSequence });
    for (i, u) in c.units.iter().enumerate() {
        assert_eq!(u.id, i);
        assert_eq!(u.queues.len(), 6);
        assert!(u.queues.iter().all(|q| q.index == i));
        assert_eq!(u.collector.id, i);
    }
    assert_eq!(c.units[1].unit.src_interface, "eth1");
    assert_eq!(c.units[1].queues[5], QueueSpec { name: QueueName::SecondToMinute, index: 1, capacity: 700 });
    assert_eq!(QueueName::Flow.module(), "1-tagged-flow-to-quadruple-generator");
}

#[test]
fn analyzer_plan_is_unlimited_and_checks_kernel() {
    let rc = runtime(TapMode::Analyzer, vec![]);
    let units = vec![CaptureUnit { src_interface: String::new(), netns: Netns::Root }];
    let c = Components::new(&rc, &static_config(), &String::new(), true, false, &units, &vec![vec![]]).unwrap();
    assert_eq!(c.rx_pps_limit, None);
    assert_eq!(c.policy_shards, 1);
    assert_eq!(
        c.checks,
        vec![EnvCheck::AgentUniqueness, EnvCheck::ControllerIps, EnvCheck::FreeDisk, EnvCheck::Kernel, EnvCheck::TapInterfaces]
    );
    let rc = runtime(TapMode::Mirror, vec![]);
    let c = Components::new(&rc, &static_config(), &String::new(), true, false, &units, &vec![vec![]]).unwrap();
    assert_eq!(c.rx_pps_limit, Some(200000));
    assert_eq!(c.checks.last(), Some(&EnvCheck::Kernel));
}

#[test]
fn plan_with_out_of_range_delay_fails() {
    let mut rc = runtime(TapMode::Local, vec![]);
    rc.yaml_config.tuning.flush_interval = u64::MAX;
    let units = vec![CaptureUnit { src_interface: String::new(), netns: Netns::Root }];
    let r = Components::new(&rc, &static_config(), &String::new(), true, false, &units, &vec![vec![]]);
    assert!(matches!(r, Err(BuildError::DelayOutOfRange)));
}

#[test]
fn namespaces_are_sorted_and_deduplicated() {
    let names = vec!["ns-b".to_string(), "ns-a".to_string(), "other".to_string(), "ns-a".to_string()];
    let units = capture_units(&vec!["eth0".to_string()], &"^ns-".to_string(), &names).unwrap();
    assert_eq!(units.len(), 3);
    assert_eq!(units[0].src_interface, "eth0");
    match (&units[1].netns, &units[2].netns) {
        (Netns::Named(a), Netns::Named(b)) => {
            assert_eq!(a, "ns-a");
            assert_eq!(b, "ns-b");
        }
        _ => panic!("expected named namespaces"),
    }
}

#[test]
fn invalid_netns_regex_is_rejected() {
    let r = capture_units(&vec![], &"(".to_string(), &vec!["ns".to_string()]);
    assert!(matches!(r, Err(BuildError::InvalidNetnsRegex)));
}

#[test]
fn invalid_interface_regex_selects_nothing() {
    assert!(select_links(&"[".to_string(), &vec![link(1, "eth0")]).is_empty());
    let r = select_links(&"^eth".to_string(), &vec![link(1, "eth0"), link(2, "veth1"), link(3, "eth2")]);
    let names: Vec<&str> = r.iter().map(|l| l.name.as_str()).collect();
    assert_eq!(names, vec!["eth0", "eth2"]);
}

#[test]
fn start_is_idempotent() {
    let mut p = pipeline(2);
    let first = p.start(true);
    assert!(!first.is_empty());
    assert!(p.running);
    let second = p.start(true);
    assert!(second.is_empty());
    assert!(p.running);
}

#[test]
fn stop_is_idempotent() {
    let mut p = pipeline(1);
    assert!(p.stop().is_empty());
    p.start(true);
    assert!(!p.stop().is_empty());
    assert!(p.stop().is_empty());
    assert!(!p.running);
}

#[test]
fn graceful_stop_stops_each_component_once_in_order() {
    let mut p = pipeline(2);
    p.start(true);
    let stopped = p.stop();
    for (i, c) in stopped.iter().enumerate() {
        assert!(!stopped[i + 1..].contains(c), "{:?} stopped twice", c);
    }
    assert_eq!(&stopped[0..2], &[Component::Dispatcher(0), Component::Dispatcher(1)]);
    assert_eq!(stopped[2], Component::PlatformSync);
    assert_eq!(stopped[stopped.len() - 2], Component::PcapManager);
    assert_eq!(stopped.last(), Some(&Component::StatsSender));
    let started = {
        let mut q = pipeline(2);
        q.start(true)
    };
    for c in started.iter() {
        if !matches!(c, Component::KubernetesPoller) {
            assert!(stopped.contains(c), "{:?} started but never stopped", c);
        }
    }
    assert!(stopped.contains(&Component::PacketSequenceParser(0)));
    assert!(stopped.contains(&Component::PacketSequenceParser(1)));
    let pos = |c: Component| stopped.iter().position(|x| *x == c).unwrap();
    assert!(pos(Component::Collector(1)) < pos(Component::LogParser(0)));
    assert!(pos(Component::LogParser(1)) < pos(Component::Sender(QueueName::L4FlowAggr)));
    assert!(pos(Component::DomainWatcher) < pos(Component::HandlerBuilders(0)));
}

#[test]
fn start_order_and_memory_gate() {
    let mut p = pipeline(1);
    assert!(p.needs_memory_check());
    let started = p.start(false);
    assert!(!started.contains(&Component::Dispatcher(0)));
    assert_eq!(&started[0..6], &[
        Component::StatsSender,
        Component::Extractor,
        Component::PcapManager,
        Component::PlatformSync,
        Component::ApiWatcher,
        Component::KubernetesPoller,
    ]);
    assert_eq!(started.last(), Some(&Component::HandlerBuilders(0)));
    let mut q = pipeline(1);
    q.tap_mode = TapMode::Analyzer;
    assert!(!q.needs_memory_check());
    assert!(q.start(false).contains(&Component::Dispatcher(0)));
}

#[test]
fn standalone_start_skips_managed_services() {
    let mut p = pipeline(1);
    p.agent_mode = RunningMode::Standalone;
    p.kernel_features = false;
    let started = p.start(true);
    assert!(!started.contains(&Component::PlatformSync));
    assert!(!started.contains(&Component::MetricServer));
    assert!(!started.contains(&Component::Sender(QueueName::Otel)));
    assert!(!started.contains(&Component::Ebpf));
    assert!(started.contains(&Component::Dispatcher(0)));
}

#[test]
fn components_start_and_stop_delegate() {
    let rc = runtime(TapMode::Local, vec![]);
    let units = vec![CaptureUnit { src_interface: String::new(), netns: Netns::Root }];
    let mut c = Components::new(&rc, &static_config(), &"cluster".to_string(), true, true, &units, &vec![vec![]]).unwrap();
    assert!(c.pipeline.cluster_id_set);
    assert!(c.start(false).contains(&Component::Dispatcher(0)));
    assert!(c.start(false).is_empty());
    assert!(c.stop().contains(&Component::Dispatcher(0)));
    assert!(c.stop().is_empty());
}

#[test]
fn collector_stage_queues_are_tagged_with_unit() {
    let c = Components::new_collector(tuning(), 3, MetricsType { second: true, minute: true }).unwrap();
    assert_eq!(c.second_queue, QueueSpec { name: QueueName::SecondCollector, index: 3, capacity: 200 });
    assert_eq!(c.minute_queue, QueueSpec { name: QueueName::MinuteCollector, index: 3, capacity: 200 });
    assert_eq!(c.l4_log_queue, QueueSpec { name: QueueName::SecondToMinute, index: 3, capacity: 700 });
}

#[test]
fn queue_module_tags() {
    assert_eq!(QueueName::Pcap.module(), "1-mini-meta-packet-to-pcap");
    assert_eq!(QueueName::L4FlowAggr.module(), "3-flow-to-collector-sender");
    assert_eq!(QueueName::Metrics.module(), "2-doc-to-collector-sender");
    assert_eq!(QueueName::ProtoLog.module(), "3-protolog-to-collector-sender");
    assert_eq!(QueueName::PacketSequence.module(), "packet_sequence_block-to-sender");
    assert_eq!(QueueName::SecondToMinute.module(), "2-second-flow-to-minute-aggrer");
    assert_eq!(QueueName::CompressedOtel.module(), "compressed-otel-to-sender");
}

#[test]
fn repeated_start_and_stop_keep_the_plan() {
    let rc = runtime(TapMode::Local, vec!["eth0".to_string()]);
    let units = capture_units(&rc.yaml_config.src_interfaces, &String::new(), &vec![]).unwrap();
    let mut c = Components::new(&rc, &static_config(), &String::new(), true, true, &units, &vec![vec![]]).unwrap();
    assert!(c.cur_tap_types.is_empty());
    c.start(true);
    let shards = c.policy_shards;
    let ips = c.watch_ips.clone();
    let checks = c.checks.clone();
    assert!(c.start(true).is_empty());
    assert_eq!(c.policy_shards, shards);
    assert_eq!(c.watch_ips, ips);
    assert_eq!(c.checks, checks);
    assert_eq!(c.rx_pps_limit, Some(200000));
    c.stop();
    assert!(c.stop().is_empty());
    assert_eq!(c.policy_shards, shards);
    assert_eq!(c.remote_log.hostname, "h");
}

#[test]
fn stats_sender_starts_once_ahead_of_the_instance() {
    let mut p = pipeline(1);
    assert!(p.start_stats_sender());
    assert!(!p.start_stats_sender());
    let started = p.start(true);
    assert!(!started.contains(&Component::StatsSender));
    let stopped = p.stop();
    assert_eq!(stopped.iter().filter(|c| **c == Component::StatsSender).count(), 1);
    assert!(!p.stats_running);
}
