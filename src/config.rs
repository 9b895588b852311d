//! Configuration values that the supervisor and the pipeline planner read.
use vstd::prelude::*;

verus! {

/// Whether the agent is driven by a remote controller or by its
/// configuration file alone.
#[derive(Clone, Copy, PartialEq, Eq, Debug, Structural)]
pub enum RunningMode {
    Managed,
    Standalone,
}

impl Default for RunningMode {
    fn default() -> (r: Self)
        ensures
            r == RunningMode::Managed,
    {
        RunningMode::Managed
    }
}

/// Packet-ingress strategy of the capture units.
#[derive(Clone, Copy, PartialEq, Eq, Debug, Structural)]
pub enum TapMode {
    Local,
    Mirror,
    Analyzer,
    Decap,
}

/// Where a dispatcher takes the MAC address of a tap interface from.
#[derive(Clone, Copy, PartialEq, Eq, Debug, Structural)]
pub enum IfMacSource {
    IfMac,
    IfName,
    IfLibvirtXml,
}

/// A tap-type descriptor used in analyzer mode.
#[derive(Clone, Copy, PartialEq, Eq, Debug, Structural)]
pub struct TapType {
    pub tap_type: u32,
    pub packet_type: u32,
    pub vlan: u32,
    pub source_ip: u32,
    pub tap_port: u64,
}

/// Scalar settings of the topology configuration.
#[derive(Clone, Copy, PartialEq, Eq, Debug, Structural)]
pub struct Tuning {
    pub first_path_level: u32,
    pub fast_path_map_size: usize,
    pub flow_queue_size: usize,
    pub quadruple_queue_size: usize,
    pub flow_sender_queue_size: usize,
    pub collector_sender_queue_size: usize,
    pub packet_sequence_queue_size: usize,
    pub external_metrics_sender_queue_size: usize,
    pub aggr_queue_size: usize,
    pub hash_slots: u32,
    /// Seconds.
    pub packet_delay: u64,
    /// Seconds.
    pub flush_interval: u64,
    /// Seconds.
    pub second_flow_extra_delay: u64,
    pub vxlan_port: u16,
    pub vxlan_flags: u8,
    pub default_tap_type: u32,
    pub mirror_traffic_pcp: u16,
    pub analyzer_dedup_disabled: bool,
}

/// The part of the configuration that shapes the pipeline's topology. It
/// cannot change during the life of a pipeline: any difference in any field
/// asks for a restart.
#[derive(Clone, Debug)]
pub struct YamlConfig {
    pub src_interfaces: Vec<String>,
    /// Feature flags that the policy is built with.
    pub feature_flags: Vec<String>,
    pub log_file: String,
    /// Script that maps tap interfaces to MAC addresses.
    pub tap_mac_script: String,
    pub tuning: Tuning,
    /// Every other setting of the section (the eBPF, flow, pcap and sender
    /// settings among them) in one canonical serialized form, so that two
    /// sections with the same settings hold the same text.
    pub others: String,
}

/// What a topology configuration holds.
pub struct YamlView {
    pub src_interfaces: Seq<Seq<char>>,
    pub feature_flags: Seq<Seq<char>>,
    pub log_file: Seq<char>,
    pub tap_mac_script: Seq<char>,
    pub tuning: Tuning,
    pub others: Seq<char>,
}

impl View for YamlConfig {
    type V = YamlView;

    open spec fn view(&self) -> YamlView {
        YamlView {
            src_interfaces: self.src_interfaces.deep_view(),
            feature_flags: self.feature_flags.deep_view(),
            log_file: self.log_file@,
            tap_mac_script: self.tap_mac_script@,
            tuning: self.tuning,
            others: self.others@,
        }
    }
}

impl YamlConfig {
    /// A copy that holds the same values.
    pub fn duplicate(&self) -> (r: YamlConfig)
        ensures
            r@ == self@,
    {
        let src_interfaces = self.src_interfaces.clone();
        let feature_flags = self.feature_flags.clone();
        proof {
            assert(src_interfaces.deep_view() =~= self.src_interfaces.deep_view());
            assert(feature_flags.deep_view() =~= self.feature_flags.deep_view());
        }
        YamlConfig {
            src_interfaces,
            feature_flags,
            log_file: self.log_file.clone(),
            tap_mac_script: self.tap_mac_script.clone(),
            tuning: self.tuning,
            others: self.others.clone(),
        }
    }
}

/// Whether two lists of strings hold the same strings in the same order.
pub fn same_strings(a: &Vec<String>, b: &Vec<String>) -> (r: bool)
    ensures
        r == (a.deep_view() == b.deep_view()),
{
    if a.len() != b.len() {
        proof {
            assert(a.deep_view().len() != b.deep_view().len());
        }
        return false;
    }
    let mut i: usize = 0;
    while i < a.len()
        invariant
            a.len() == b.len(),
            i <= a.len(),
            forall|j: int| 0 <= j < i ==> a@[j]@ == b@[j]@,
        decreases a.len() - i,
    {
        if a[i] != b[i] {
            proof {
                assert(a.deep_view()[i as int] != b.deep_view()[i as int]);
            }
            return false;
        }
        i = i + 1;
    }
    proof {
        assert(a.deep_view() =~= b.deep_view());
    }
    true
}

impl PartialEq for YamlConfig {
    fn eq(&self, o: &YamlConfig) -> (r: bool) {
        same_strings(&self.src_interfaces, &o.src_interfaces) && same_strings(
            &self.feature_flags,
            &o.feature_flags,
        ) && self.log_file == o.log_file && self.tap_mac_script == o.tap_mac_script
            && self.tuning == o.tuning && self.others == o.others
    }
}

impl vstd::std_specs::cmp::PartialEqSpecImpl for YamlConfig {
    open spec fn obeys_eq_spec() -> bool {
        true
    }

    open spec fn eq_spec(&self, o: &YamlConfig) -> bool {
        self@ == o@
    }
}

/// Live settings of the capture dispatchers.
#[derive(Clone, Debug)]
pub struct DispatcherConfig {
    pub tap_interface_regex: String,
    pub extra_netns_regex: String,
    pub if_mac_source: IfMacSource,
    pub agent_type: u32,
    pub global_pps_threshold: u64,
    pub capture_packet_size: u32,
    pub analyzer_port: u16,
    pub proxy_controller_port: u16,
}

/// Settings of the log shipped to the controller.
#[derive(Clone, Debug)]
pub struct RemoteLogSettings {
    pub enabled: bool,
    pub threshold: u32,
    pub hostname: String,
}

/// Live-tunable configuration delivered by the controller, together with
/// the topology configuration it was derived from.
#[derive(Clone, Debug)]
pub struct RuntimeConfig {
    pub tap_mode: TapMode,
    pub yaml_config: YamlConfig,
    pub dispatcher: DispatcherConfig,
    pub pcap_queue_size: usize,
    pub l7_log_collect_nps_threshold: u64,
    pub npb_bps_threshold: u64,
    pub metric_server_enabled: bool,
    pub remote_log: RemoteLogSettings,
}

/// Configuration fixed for the life of the process.
#[derive(Clone, Debug)]
pub struct StaticConfig {
    pub controller_ips: Vec<String>,
    pub controller_domain_names: Vec<String>,
    pub controller_port: u16,
    pub controller_tls_port: u16,
    pub log_file: String,
    pub agent_mode: RunningMode,
    pub kubernetes_cluster_id: String,
}

} // verus!
