//! Planning of a pipeline instance: capture units, queues with their stats
//! tags, senders, collector windows and rate limits.
use vstd::prelude::*;

use crate::config::{RemoteLogSettings, RuntimeConfig, StaticConfig, TapMode, TapType, Tuning};
use crate::lifecycle::{start_result, stop_result, Component, Pipeline};
use crate::names::{compile, matching_names_sorted, regex_match, regex_valid, select_links, selected_links, strictly_sorted, Link};

verus! {

/// Seconds added for processing delays between flow generation and the
/// collectors.
pub const COMMON_DELAY: u64 = 5;

/// Seconds in a minute window.
pub const MINUTE_SECS: u64 = 60;

/// Number of hosts the quadruple generator is sized for.
pub const POSSIBLE_HOST_SIZE: usize = 262144;

/// The queues of a pipeline, each under its stats module name.
#[derive(Clone, Copy, PartialEq, Eq, Debug, Structural)]
pub enum QueueName {
    Pcap,
    L4FlowAggr,
    Metrics,
    ProtoLog,
    PacketSequence,
    Flow,
    AppProtoLog,
    UnitPacketSequence,
    SecondCollector,
    MinuteCollector,
    SecondToMinute,
    Otel,
    Prometheus,
    Telegraf,
    CompressedOtel,
}

/// The module tag of a queue.
pub open spec fn module_name(q: QueueName) -> Seq<char> {
    match q {
        QueueName::Pcap => "1-mini-meta-packet-to-pcap"@,
        QueueName::L4FlowAggr => "3-flow-to-collector-sender"@,
        QueueName::Metrics => "2-doc-to-collector-sender"@,
        QueueName::ProtoLog => "3-protolog-to-collector-sender"@,
        QueueName::PacketSequence => "packet_sequence_block-to-sender"@,
        QueueName::Flow => "1-tagged-flow-to-quadruple-generator"@,
        QueueName::AppProtoLog => "1-tagged-flow-to-app-protocol-logs"@,
        QueueName::UnitPacketSequence => "1-packet-sequence-block-to-uniform-collect-sender"@,
        QueueName::SecondCollector => "2-flow-with-meter-to-second-collector"@,
        QueueName::MinuteCollector => "2-flow-with-meter-to-minute-collector"@,
        QueueName::SecondToMinute => "2-second-flow-to-minute-aggrer"@,
        QueueName::Otel => "otel-to-sender"@,
        QueueName::Prometheus => "prometheus-to-sender"@,
        QueueName::Telegraf => "telegraf-to-sender"@,
        QueueName::CompressedOtel => "compressed-otel-to-sender"@,
    }
}

impl QueueName {
    /// The module tag under which the queue's counter is registered.
    pub fn module(&self) -> (r: &'static str)
        ensures
            r@ == module_name(*self),
    {
        match self {
            QueueName::Pcap => "1-mini-meta-packet-to-pcap",
            QueueName::L4FlowAggr => "3-flow-to-collector-sender",
            QueueName::Metrics => "2-doc-to-collector-sender",
            QueueName::ProtoLog => "3-protolog-to-collector-sender",
            QueueName::PacketSequence => "packet_sequence_block-to-sender",
            QueueName::Flow => "1-tagged-flow-to-quadruple-generator",
            QueueName::AppProtoLog => "1-tagged-flow-to-app-protocol-logs",
            QueueName::UnitPacketSequence => "1-packet-sequence-block-to-uniform-collect-sender",
            QueueName::SecondCollector => "2-flow-with-meter-to-second-collector",
            QueueName::MinuteCollector => "2-flow-with-meter-to-minute-collector",
            QueueName::SecondToMinute => "2-second-flow-to-minute-aggrer",
            QueueName::Otel => "otel-to-sender",
            QueueName::Prometheus => "prometheus-to-sender",
            QueueName::Telegraf => "telegraf-to-sender",
            QueueName::CompressedOtel => "compressed-otel-to-sender",
        }
    }
}

/// A bounded queue to allocate. Its counter is registered under
/// `module = name.module()` and `index = index` before its handles are
/// handed out.
#[derive(Clone, Copy, PartialEq, Eq, Debug, Structural)]
pub struct QueueSpec {
    pub name: QueueName,
    pub index: usize,
    pub capacity: usize,
}

/// A uniform sender that drains one queue.
#[derive(Clone, Copy, PartialEq, Eq, Debug, Structural)]
pub struct SenderSpec {
    pub id: usize,
    pub queue: QueueName,
}

/// An environment check run while the pipeline is built.
#[derive(Clone, Copy, PartialEq, Eq, Debug, Structural)]
pub enum EnvCheck {
    AgentUniqueness,
    ControllerIps,
    FreeDisk,
    Kernel,
    TapInterfaces,
}

/// Which metric levels the collectors produce.
#[derive(Clone, Copy, PartialEq, Eq, Debug, Structural)]
pub struct MetricsType {
    pub second: bool,
    pub minute: bool,
}

/// The network namespace a capture unit lives in.
#[derive(Clone, Debug)]
pub enum Netns {
    Root,
    Named(String),
}

/// A capture source: an interface in a namespace.
#[derive(Clone, Debug)]
pub struct CaptureUnit {
    pub src_interface: String,
    pub netns: Netns,
}

/// The collector stage of one capture unit.
#[derive(Clone, Copy, PartialEq, Eq, Debug, Structural)]
pub struct CollectorPlan {
    pub id: usize,
    pub connection_lru_capacity: u64,
    pub possible_host_size: usize,
    /// Seconds the quadruple generator waits for late second-level flows.
    pub second_delay: u64,
    /// Seconds the quadruple generator waits for late minute-level flows.
    pub minute_delay: u64,
    /// The second collector's window, when that level is produced.
    pub second_window: Option<u32>,
    /// The minute collector's window, when that level is produced.
    pub minute_window: Option<u32>,
    /// The three queues below are the last three of the unit's queues in
    /// `UnitPlan::queues`, listed here with the stage that drains them; each
    /// is allocated and registered once.
    /// Queue from the quadruple generator to the second collector.
    pub second_queue: QueueSpec,
    /// Queue from the quadruple generator to the minute collector.
    pub minute_queue: QueueSpec,
    /// Queue from the quadruple generator to the flow aggregator.
    pub l4_log_queue: QueueSpec,
}

/// Why a pipeline could not be planned.
#[derive(Clone, Copy, PartialEq, Eq, Debug, Structural)]
pub enum BuildError {
    /// The extra namespace pattern does not compile.
    InvalidNetnsRegex,
    /// A collector window does not fit in 32 bits.
    DelayOutOfRange,
}

/// The second-level tolerable delay of the quadruple generator.
pub open spec fn second_delay_of(t: Tuning) -> int {
    t.packet_delay + 1 + t.flush_interval + COMMON_DELAY + t.second_flow_extra_delay
}

/// The minute-level tolerable delay of the quadruple generator.
pub open spec fn minute_delay_of(t: Tuning) -> int {
    MINUTE_SECS + t.packet_delay + 1 + t.flush_interval + COMMON_DELAY
}

/// Both collector windows fit in 32 bits.
pub open spec fn windows_fit(t: Tuning) -> bool {
    &&& second_delay_of(t) + COMMON_DELAY <= u32::MAX
    &&& minute_delay_of(t) + COMMON_DELAY <= u32::MAX
}

/// The collector stage that a capture unit gets.
pub open spec fn collector_of(t: Tuning, id: usize, metrics: MetricsType) -> CollectorPlan {
    CollectorPlan {
        id,
        connection_lru_capacity: (t.hash_slots * 8) as u64,
        possible_host_size: POSSIBLE_HOST_SIZE,
        second_delay: second_delay_of(t) as u64,
        minute_delay: minute_delay_of(t) as u64,
        second_window: if metrics.second {
            Some((second_delay_of(t) + COMMON_DELAY) as u32)
        } else {
            None
        },
        minute_window: if metrics.minute {
            Some((minute_delay_of(t) + COMMON_DELAY) as u32)
        } else {
            None
        },
        second_queue: QueueSpec { name: QueueName::SecondCollector, index: id, capacity: t.quadruple_queue_size },
        minute_queue: QueueSpec { name: QueueName::MinuteCollector, index: id, capacity: t.quadruple_queue_size },
        l4_log_queue: QueueSpec { name: QueueName::SecondToMinute, index: id, capacity: t.aggr_queue_size },
    }
}

/// What a capture unit holds: its source interface, and its namespace's
/// name when it is not the root namespace.
pub open spec fn unit_view(u: CaptureUnit) -> (Seq<char>, Option<Seq<char>>) {
    (u.src_interface@, match u.netns {
        Netns::Root => None,
        Netns::Named(n) => Some(n@),
    })
}

/// The capture units of the configured source interfaces: one per interface
/// in the root namespace, or a single unnamed one when none is configured.
pub open spec fn interface_units(src_interfaces: Seq<Seq<char>>) -> Seq<(Seq<char>, Option<Seq<char>>)> {
    if src_interfaces.len() == 0 {
        seq![(Seq::<char>::empty(), None)]
    } else {
        src_interfaces.map_values(|s: Seq<char>| (s, None::<Seq<char>>))
    }
}

impl CaptureUnit {
    pub fn duplicate(&self) -> (r: CaptureUnit)
        ensures
            unit_view(r) == unit_view(*self),
    {
        CaptureUnit {
            src_interface: self.src_interface.clone(),
            netns: match &self.netns {
                Netns::Root => Netns::Root,
                Netns::Named(n) => Netns::Named(n.clone()),
            },
        }
    }
}

/// Enumerates the capture units: those of the source interfaces, then, when
/// `netns_regex` is not empty, one unnamed unit for each namespace in
/// `netns_names` that it matches, in increasing order of name and without
/// repeats.
pub fn capture_units(
    src_interfaces: &Vec<String>,
    netns_regex: &String,
    netns_names: &Vec<String>,
) -> (r: Result<Vec<CaptureUnit>, BuildError>)
    ensures
        r is Err <==> (netns_regex@.len() > 0 && !regex_valid(netns_regex@)),
        r matches Err(e) ==> e == BuildError::InvalidNetnsRegex,
        r matches Ok(units) ==> {
            let base = interface_units(src_interfaces.deep_view());
            &&& units@.len() >= base.len()
            &&& forall|i: int| 0 <= i < base.len() ==> unit_view(#[trigger] units@[i]) == base[i]
            &&& netns_regex@.len() == 0 ==> units@.len() == base.len()
            &&& forall|i: int| base.len() <= i < units@.len() ==> (#[trigger] units@[i]).src_interface@.len() == 0
                && units@[i].netns is Named
            &&& strictly_sorted(Seq::new((units@.len() - base.len()) as nat, |k: int| unit_view(units@[base.len() + k]).1->0))
            &&& forall|x: Seq<char>| (exists|i: int| base.len() <= i < units@.len() && unit_view(#[trigger] units@[i]).1 == Some(x))
                <==> (netns_regex@.len() > 0 && netns_names.deep_view().contains(x) && regex_match(netns_regex@, x))
        },
{
    let mut units: Vec<CaptureUnit> = Vec::new();
    let mut i: usize = 0;
    while i < src_interfaces.len()
        invariant
            i <= src_interfaces.len(),
            units@.len() == i,
            forall|k: int| 0 <= k < i ==> unit_view(#[trigger] units@[k]) == (src_interfaces@[k]@, None::<Seq<char>>),
        decreases src_interfaces.len() - i,
    {
        units.push(CaptureUnit { src_interface: src_interfaces[i].clone(), netns: Netns::Root });
        i = i + 1;
    }
    if units.len() == 0 {
        units.push(CaptureUnit { src_interface: String::new(), netns: Netns::Root });
    }
    let ghost base = interface_units(src_interfaces.deep_view());
    proof {
        assert(units@.len() == base.len());
        assert forall|k: int| 0 <= k < base.len() implies unit_view(#[trigger] units@[k]) == base[k] by {
            if src_interfaces@.len() > 0 {
                assert(src_interfaces.deep_view()[k] == src_interfaces@[k]@);
            }
        }
    }
    if netns_regex.unicode_len() == 0 {
        proof {
            assert(Seq::new((units@.len() - base.len()) as nat, |k: int| unit_view(units@[base.len() + k]).1->0) =~= Seq::<Seq<char>>::empty());
        }
        return Ok(units);
    }
    let re = match compile(netns_regex) {
        Some(re) => re,
        None => {
            return Err(BuildError::InvalidNetnsRegex);
        },
    };
    let names = matching_names_sorted(&re, netns_names);
    let ghost n0 = units@.len();
    let mut j: usize = 0;
    while j < names.len()
        invariant
            j <= names.len(),
            n0 == base.len(),
            units@.len() == n0 + j,
            forall|k: int| 0 <= k < n0 ==> unit_view(#[trigger] units@[k]) == base[k],
            forall|k: int| 0 <= k < j ==> unit_view(#[trigger] units@[n0 + k]) == (Seq::<char>::empty(), Some(names@[k]@)),
        decreases names.len() - j,
    {
        units.push(CaptureUnit { src_interface: String::new(), netns: Netns::Named(names[j].clone()) });
        proof {
            assert(unit_view(units@[n0 + j]) == (Seq::<char>::empty(), Some(names@[j as int]@)));
        }
        j = j + 1;
    }
    proof {
        let tail = Seq::new((units@.len() - base.len()) as nat, |k: int| unit_view(units@[base.len() + k]).1->0);
        assert(tail =~= names.deep_view());
        assert forall|i: int| base.len() <= i < units@.len() implies (#[trigger] units@[i]).src_interface@.len() == 0
            && units@[i].netns is Named by {
            assert(unit_view(units@[n0 + (i - n0)]) == (Seq::<char>::empty(), Some(names@[i - n0]@)));
        }
        assert forall|x: Seq<char>| (exists|i: int| base.len() <= i < units@.len() && unit_view(#[trigger] units@[i]).1 == Some(x))
            <==> (netns_regex@.len() > 0 && netns_names.deep_view().contains(x) && regex_match(netns_regex@, x)) by {
            if exists|i: int| base.len() <= i < units@.len() && unit_view(#[trigger] units@[i]).1 == Some(x) {
                let i = choose|i: int| base.len() <= i < units@.len() && unit_view(#[trigger] units@[i]).1 == Some(x);
                assert(unit_view(units@[n0 + (i - n0)]) == (Seq::<char>::empty(), Some(names@[i - n0]@)));
                assert(names.deep_view()[i - n0] == x);
            }
            if names.deep_view().contains(x) {
                let k = choose|k: int| 0 <= k < names.deep_view().len() && names.deep_view()[k] == x;
                assert(unit_view(units@[n0 + k]) == (Seq::<char>::empty(), Some(names@[k]@)));
            }
        }
    }
    Ok(units)
}

/// The environment checks that a capture mode asks for.
pub open spec fn checks_for(mode: TapMode) -> Seq<EnvCheck> {
    seq![EnvCheck::AgentUniqueness, EnvCheck::ControllerIps, EnvCheck::FreeDisk] + match mode {
        TapMode::Analyzer => seq![EnvCheck::Kernel, EnvCheck::TapInterfaces],
        TapMode::Mirror => seq![EnvCheck::Kernel],
        _ => Seq::empty(),
    }
}

/// The pipeline-wide queues, in allocation order.
pub open spec fn trunk_queues(t: Tuning, pcap_queue_size: usize) -> Seq<QueueSpec> {
    seq![
        QueueSpec { name: QueueName::Pcap, index: 0, capacity: pcap_queue_size },
        QueueSpec { name: QueueName::L4FlowAggr, index: 0, capacity: t.flow_sender_queue_size },
        QueueSpec { name: QueueName::Metrics, index: 1, capacity: t.collector_sender_queue_size },
        QueueSpec { name: QueueName::ProtoLog, index: 2, capacity: t.flow_sender_queue_size },
        QueueSpec { name: QueueName::PacketSequence, index: 6, capacity: t.packet_sequence_queue_size },
        QueueSpec { name: QueueName::Otel, index: 3, capacity: t.external_metrics_sender_queue_size },
        QueueSpec { name: QueueName::Prometheus, index: 4, capacity: t.external_metrics_sender_queue_size },
        QueueSpec { name: QueueName::Telegraf, index: 5, capacity: t.external_metrics_sender_queue_size },
        QueueSpec { name: QueueName::CompressedOtel, index: 6, capacity: t.external_metrics_sender_queue_size },
    ]
}

/// The uniform senders, in construction order.
pub open spec fn trunk_senders() -> Seq<SenderSpec> {
    seq![
        SenderSpec { id: 0, queue: QueueName::L4FlowAggr },
        SenderSpec { id: 1, queue: QueueName::Metrics },
        SenderSpec { id: 2, queue: QueueName::ProtoLog },
        SenderSpec { id: 6, queue: QueueName::PacketSequence },
        SenderSpec { id: 3, queue: QueueName::Otel },
        SenderSpec { id: 4, queue: QueueName::Prometheus },
        SenderSpec { id: 5, queue: QueueName::Telegraf },
        SenderSpec { id: 6, queue: QueueName::CompressedOtel },
    ]
}

/// The queues of capture unit `i`, in allocation order.
pub open spec fn unit_queues(t: Tuning, i: usize) -> Seq<QueueSpec> {
    seq![
        QueueSpec { name: QueueName::Flow, index: i, capacity: t.flow_queue_size },
        QueueSpec { name: QueueName::AppProtoLog, index: i, capacity: t.flow_queue_size },
        QueueSpec { name: QueueName::UnitPacketSequence, index: i, capacity: t.packet_sequence_queue_size },
        QueueSpec { name: QueueName::SecondCollector, index: i, capacity: t.quadruple_queue_size },
        QueueSpec { name: QueueName::MinuteCollector, index: i, capacity: t.quadruple_queue_size },
        QueueSpec { name: QueueName::SecondToMinute, index: i, capacity: t.aggr_queue_size },
    ]
}

/// The collector windows of every capture unit follow the delay formulas:
/// the second window is `packet_delay + 1 + flush_interval + COMMON_DELAY +
/// second_flow_extra_delay`, the minute window `60 + packet_delay + 1 +
/// flush_interval + COMMON_DELAY`, each extended by `COMMON_DELAY`.
pub proof fn lemma_collector_windows(t: Tuning, id: usize)
    requires
        windows_fit(t),
    ensures
        ({
            let c = collector_of(t, id, both_levels());
            &&& c.second_delay == t.packet_delay + 1 + t.flush_interval + 5 + t.second_flow_extra_delay
            &&& c.minute_delay == 60 + t.packet_delay + 1 + t.flush_interval + 5
            &&& c.second_window == Some((t.packet_delay + 1 + t.flush_interval + 5 + t.second_flow_extra_delay + 5) as u32)
            &&& c.minute_window == Some((60 + t.packet_delay + 1 + t.flush_interval + 5 + 5) as u32)
            &&& c.connection_lru_capacity == t.hash_slots * 8
            &&& c.id == id
        }),
{
}

/// A unit's collector stage omits each level that is not requested.
pub proof fn lemma_absent_levels_skipped(t: Tuning, id: usize, metrics: MetricsType)
    ensures
        !metrics.second ==> collector_of(t, id, metrics).second_window is None,
        !metrics.minute ==> collector_of(t, id, metrics).minute_window is None,
        metrics.second ==> collector_of(t, id, metrics).second_window is Some,
        metrics.minute ==> collector_of(t, id, metrics).minute_window is Some,
{
}

/// Both metric levels.
pub open spec fn both_levels() -> MetricsType {
    MetricsType { second: true, minute: true }
}

/// The part of a pipeline that belongs to one capture unit.
#[derive(Debug)]
pub struct UnitPlan {
    pub id: usize,
    pub unit: CaptureUnit,
    pub queues: Vec<QueueSpec>,
    pub collector: CollectorPlan,
    /// The interfaces the unit's dispatcher captures on at first.
    pub tap_interfaces: Vec<Link>,
}

/// Everything a pipeline instance is built from, in construction order.
#[derive(Debug)]
pub struct Components {
    pub checks: Vec<EnvCheck>,
    /// Fast-path shards of the policy.
    pub policy_shards: usize,
    /// Inbound packets per second; `None` when unlimited.
    pub rx_pps_limit: Option<u64>,
    pub l7_log_limit: u64,
    pub npb_bps_limit: u64,
    /// Pipeline-wide queues, each registered under its name and index.
    pub queues: Vec<QueueSpec>,
    pub senders: Vec<SenderSpec>,
    pub units: Vec<UnitPlan>,
    pub remote_log: RemoteLogSettings,
    /// Controller domain names that the watcher resolves.
    pub watch_domains: Vec<String>,
    /// Controller addresses the watcher starts from.
    pub watch_ips: Vec<String>,
    /// The tap types last handed to the tap typer; empty in a fresh
    /// instance.
    pub cur_tap_types: Vec<TapType>,
    /// The lifecycle of the instance, not yet started.
    pub pipeline: Pipeline,
}

/// Every queue is tagged with the identifier of what drains it: unit
/// queues with their unit, sender queues with their sender.
pub open spec fn tags_match(p: &Components) -> bool {
    &&& forall|i: int, k: int| 0 <= i < p.units@.len() && 0 <= k < p.units@[i].queues@.len()
        ==> (#[trigger] p.units@[i].queues@[k]).index == i && p.units@[i].id == i
    &&& forall|s: int| 0 <= s < p.senders@.len() ==> exists|q: int| 0 <= q < p.queues@.len()
        && (#[trigger] p.queues@[q]).name == (#[trigger] p.senders@[s]).queue
        && p.queues@[q].index == p.senders@[s].id
}

fn unit_queue_vec(t: Tuning, i: usize) -> (r: Vec<QueueSpec>)
    ensures
        r@ == unit_queues(t, i),
{
    let r = vec![
        QueueSpec { name: QueueName::Flow, index: i, capacity: t.flow_queue_size },
        QueueSpec { name: QueueName::AppProtoLog, index: i, capacity: t.flow_queue_size },
        QueueSpec { name: QueueName::UnitPacketSequence, index: i, capacity: t.packet_sequence_queue_size },
        QueueSpec { name: QueueName::SecondCollector, index: i, capacity: t.quadruple_queue_size },
        QueueSpec { name: QueueName::MinuteCollector, index: i, capacity: t.quadruple_queue_size },
        QueueSpec { name: QueueName::SecondToMinute, index: i, capacity: t.aggr_queue_size },
    ];
    proof {
        assert(r@ =~= unit_queues(t, i));
    }
    r
}

fn check_vec(mode: TapMode) -> (r: Vec<EnvCheck>)
    ensures
        r@ == checks_for(mode),
{
    let mut r = vec![EnvCheck::AgentUniqueness, EnvCheck::ControllerIps, EnvCheck::FreeDisk];
    match mode {
        TapMode::Analyzer => {
            r.push(EnvCheck::Kernel);
            r.push(EnvCheck::TapInterfaces);
        },
        TapMode::Mirror => {
            r.push(EnvCheck::Kernel);
        },
        _ => {},
    }
    proof {
        assert(r@ =~= checks_for(mode));
    }
    r
}

fn copy_strings(v: &Vec<String>) -> (r: Vec<String>)
    ensures
        r.deep_view() == v.deep_view(),
{
    let r = v.clone();
    proof {
        assert(r.deep_view() =~= v.deep_view());
    }
    r
}

impl Components {
/// Plans a pipeline instance for a configuration: the environment checks,
/// the rate limits, the queues with their stats tags, the senders, and for
/// each capture unit its queues, its collector stage with both metric
/// levels, and the tap interfaces that `tap_interface_regex` selects among
/// `unit_links[i]`, the links visible from that unit's namespace. The
/// returned pipeline is not started, its stats sender included: that sender
/// is started first (`Pipeline::start_stats_sender`), before the checks run
/// and the queues are registered.
pub fn new(
    config: &RuntimeConfig,
    static_config: &StaticConfig,
    cluster_id: &String,
    kernel_features: bool,
    has_ebpf: bool,
    units: &Vec<CaptureUnit>,
    unit_links: &Vec<Vec<Link>>,
) -> (r: Result<Components, BuildError>)
    requires
        unit_links@.len() == units@.len(),
    ensures
        r is Err <==> (units@.len() > 0 && !windows_fit(config.yaml_config.tuning)),
        r matches Err(e) ==> e == BuildError::DelayOutOfRange,
        r matches Ok(p) ==> {
            let t = config.yaml_config.tuning;
            &&& p.checks@ == checks_for(config.tap_mode)
            &&& p.policy_shards == if config.yaml_config.src_interfaces@.len() == 0 { 1 } else { config.yaml_config.src_interfaces@.len() }
            &&& p.rx_pps_limit == if config.tap_mode == TapMode::Analyzer { None } else { Some(config.dispatcher.global_pps_threshold) }
            &&& p.l7_log_limit == config.l7_log_collect_nps_threshold
            &&& p.npb_bps_limit == config.npb_bps_threshold
            &&& p.queues@ == trunk_queues(t, config.pcap_queue_size)
            &&& p.senders@ == trunk_senders()
            &&& p.units@.len() == units@.len()
            &&& forall|i: int| 0 <= i < units@.len() ==> {
                let u = #[trigger] p.units@[i];
                &&& u.id == i
                &&& unit_view(u.unit) == unit_view(units@[i])
                &&& u.queues@ == unit_queues(t, i as usize)
                &&& u.collector == collector_of(t, i as usize, both_levels())
                &&& u.tap_interfaces@ == selected_links(config.dispatcher.tap_interface_regex@, unit_links@[i]@)
            }
            &&& p.remote_log.enabled == config.remote_log.enabled
            &&& p.remote_log.threshold == config.remote_log.threshold
            &&& p.remote_log.hostname@ == config.remote_log.hostname@
            &&& p.watch_domains.deep_view() == static_config.controller_domain_names.deep_view()
            &&& p.watch_ips.deep_view() == static_config.controller_ips.deep_view()
            &&& p.pipeline == Pipeline {
                agent_mode: static_config.agent_mode,
                tap_mode: config.tap_mode,
                cluster_id_set: cluster_id@.len() > 0,
                metric_server_enabled: config.metric_server_enabled,
                kernel_features,
                has_ebpf,
                units: units@.len() as usize,
                running: false,
                stats_running: false,
            }
            &&& p.cur_tap_types@.len() == 0
            &&& tags_match(&p)
        },
{
    let t = config.yaml_config.tuning;
    let checks = check_vec(config.tap_mode);
    let n_src = config.yaml_config.src_interfaces.len();
    let policy_shards: usize = if n_src == 0 { 1 } else { n_src };
    let rx_pps_limit = match config.tap_mode {
        TapMode::Analyzer => None,
        _ => Some(config.dispatcher.global_pps_threshold),
    };
    let queues = vec![
        QueueSpec { name: QueueName::Pcap, index: 0, capacity: config.pcap_queue_size },
        QueueSpec { name: QueueName::L4FlowAggr, index: 0, capacity: t.flow_sender_queue_size },
        QueueSpec { name: QueueName::Metrics, index: 1, capacity: t.collector_sender_queue_size },
        QueueSpec { name: QueueName::ProtoLog, index: 2, capacity: t.flow_sender_queue_size },
        QueueSpec { name: QueueName::PacketSequence, index: 6, capacity: t.packet_sequence_queue_size },
        QueueSpec { name: QueueName::Otel, index: 3, capacity: t.external_metrics_sender_queue_size },
        QueueSpec { name: QueueName::Prometheus, index: 4, capacity: t.external_metrics_sender_queue_size },
        QueueSpec { name: QueueName::Telegraf, index: 5, capacity: t.external_metrics_sender_queue_size },
        QueueSpec { name: QueueName::CompressedOtel, index: 6, capacity: t.external_metrics_sender_queue_size },
    ];
    let senders = vec![
        SenderSpec { id: 0, queue: QueueName::L4FlowAggr },
        SenderSpec { id: 1, queue: QueueName::Metrics },
        SenderSpec { id: 2, queue: QueueName::ProtoLog },
        SenderSpec { id: 6, queue: QueueName::PacketSequence },
        SenderSpec { id: 3, queue: QueueName::Otel },
        SenderSpec { id: 4, queue: QueueName::Prometheus },
        SenderSpec { id: 5, queue: QueueName::Telegraf },
        SenderSpec { id: 6, queue: QueueName::CompressedOtel },
    ];
    proof {
        assert(queues@ =~= trunk_queues(t, config.pcap_queue_size));
        assert(senders@ =~= trunk_senders());
    }
    let both = MetricsType { second: true, minute: true };
    let mut plans: Vec<UnitPlan> = Vec::new();
    let mut i: usize = 0;
    while i < units.len()
        invariant
            i <= units@.len(),
            unit_links@.len() == units@.len(),
            both == both_levels(),
            t == config.yaml_config.tuning,
            plans@.len() == i,
            i > 0 ==> windows_fit(t),
            forall|k: int| 0 <= k < i ==> {
                let u = #[trigger] plans@[k];
                &&& u.id == k
                &&& unit_view(u.unit) == unit_view(units@[k])
                &&& u.queues@ == unit_queues(t, k as usize)
                &&& u.collector == collector_of(t, k as usize, both_levels())
                &&& u.tap_interfaces@ == selected_links(config.dispatcher.tap_interface_regex@, unit_links@[k]@)
            },
        decreases units@.len() - i,
    {
        let collector = match Components::new_collector(t, i, both) {
            Ok(c) => c,
            Err(e) => {
                return Err(e);
            },
        };
        let tap_interfaces = select_links(&config.dispatcher.tap_interface_regex, &unit_links[i]);
        plans.push(UnitPlan {
            id: i,
            unit: units[i].duplicate(),
            queues: unit_queue_vec(t, i),
            collector,
            tap_interfaces,
        });
        i = i + 1;
    }
    let plan = Components {
        checks,
        policy_shards,
        rx_pps_limit,
        l7_log_limit: config.l7_log_collect_nps_threshold,
        npb_bps_limit: config.npb_bps_threshold,
        queues,
        senders,
        units: plans,
        remote_log: RemoteLogSettings {
            enabled: config.remote_log.enabled,
            threshold: config.remote_log.threshold,
            hostname: config.remote_log.hostname.clone(),
        },
        watch_domains: copy_strings(&static_config.controller_domain_names),
        watch_ips: copy_strings(&static_config.controller_ips),
        cur_tap_types: Vec::new(),
        pipeline: Pipeline {
            agent_mode: static_config.agent_mode,
            tap_mode: config.tap_mode,
            cluster_id_set: cluster_id.unicode_len() > 0,
            metric_server_enabled: config.metric_server_enabled,
            kernel_features,
            has_ebpf,
            units: units.len(),
            running: false,
            stats_running: false,
        },
    };
    proof {
        assert forall|s: int| 0 <= s < plan.senders@.len() implies exists|q: int| 0 <= q < plan.queues@.len()
            && (#[trigger] plan.queues@[q]).name == (#[trigger] plan.senders@[s]).queue
            && plan.queues@[q].index == plan.senders@[s].id by {
            if s == 0 { assert(plan.queues@[1].name == plan.senders@[s].queue); }
            else if s == 1 { assert(plan.queues@[2].name == plan.senders@[s].queue); }
            else if s == 2 { assert(plan.queues@[3].name == plan.senders@[s].queue); }
            else if s == 3 { assert(plan.queues@[4].name == plan.senders@[s].queue); }
            else if s == 4 { assert(plan.queues@[5].name == plan.senders@[s].queue); }
            else if s == 5 { assert(plan.queues@[6].name == plan.senders@[s].queue); }
            else if s == 6 { assert(plan.queues@[7].name == plan.senders@[s].queue); }
            else { assert(plan.queues@[8].name == plan.senders@[s].queue); }
        }
        assert forall|i: int, k: int| 0 <= i < plan.units@.len() && 0 <= k < plan.units@[i].queues@.len()
            implies (#[trigger] plan.units@[i].queues@[k]).index == i && plan.units@[i].id == i by {
            assert(plan.units@[i].queues@ == unit_queues(t, i as usize));
        }
    }
    Ok(plan)
}


/// Plans the collector stage of capture unit `id`: a quadruple generator
/// with its tolerable delays, and a collector for each requested level whose
/// window adds `COMMON_DELAY` to the delay.
pub fn new_collector(t: Tuning, id: usize, metrics: MetricsType) -> (r: Result<
    CollectorPlan,
    BuildError,
>)
    ensures
        r is Err <==> !windows_fit(t),
        r matches Ok(c) ==> c == collector_of(t, id, metrics),
        r matches Err(e) ==> e == BuildError::DelayOutOfRange,
{
    let max: u64 = u32::MAX as u64;
    if t.packet_delay > max || t.flush_interval > max || t.second_flow_extra_delay > max {
        return Err(BuildError::DelayOutOfRange);
    }
    let second_delay: u64 = t.packet_delay + 1 + t.flush_interval + COMMON_DELAY
        + t.second_flow_extra_delay;
    let minute_delay: u64 = MINUTE_SECS + t.packet_delay + 1 + t.flush_interval + COMMON_DELAY;
    if second_delay + COMMON_DELAY > max || minute_delay + COMMON_DELAY > max {
        return Err(BuildError::DelayOutOfRange);
    }
    let second_window: Option<u32> = if metrics.second {
        Some((second_delay + COMMON_DELAY) as u32)
    } else {
        None
    };
    let minute_window: Option<u32> = if metrics.minute {
        Some((minute_delay + COMMON_DELAY) as u32)
    } else {
        None
    };
    Ok(CollectorPlan {
        id,
        connection_lru_capacity: t.hash_slots as u64 * 8,
        possible_host_size: POSSIBLE_HOST_SIZE,
        second_delay,
        minute_delay,
        second_window,
        minute_window,
        second_queue: QueueSpec { name: QueueName::SecondCollector, index: id, capacity: t.quadruple_queue_size },
        minute_queue: QueueSpec { name: QueueName::MinuteCollector, index: id, capacity: t.quadruple_queue_size },
        l4_log_queue: QueueSpec { name: QueueName::SecondToMinute, index: id, capacity: t.aggr_queue_size },
    })
}

/// Starts the instance; see `Pipeline::start`.
pub fn start(&mut self, free_memory_ok: bool) -> (r: Vec<Component>)
    ensures
        (final(self).pipeline, r@) == start_result(old(self).pipeline, free_memory_ok),
        *final(self) == (Components { pipeline: final(self).pipeline, ..*old(self) }),
{
    self.pipeline.start(free_memory_ok)
}

/// Stops the instance; see `Pipeline::stop`.
pub fn stop(&mut self) -> (r: Vec<Component>)
    ensures
        (final(self).pipeline, r@) == stop_result(old(self).pipeline),
        *final(self) == (Components { pipeline: final(self).pipeline, ..*old(self) }),
{
    self.pipeline.stop()
}
}

} // verus!
