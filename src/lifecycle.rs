//! Start and stop order of a pipeline instance, guarded by its running flag.
use vstd::prelude::*;

use crate::config::{RunningMode, TapMode};
use crate::graph::QueueName;

verus! {

/// A component of a pipeline, as started or stopped.
#[derive(Clone, Copy, PartialEq, Eq, Debug, Structural)]
pub enum Component {
    Extractor,
    PcapManager,
    PlatformSync,
    ApiWatcher,
    KubernetesPoller,
    Debugger,
    /// The sender that drains the stats registry's own queue.
    StatsSender,
    Sender(QueueName),
    PacketSequenceParser(usize),
    Dispatcher(usize),
    LogParser(usize),
    Collector(usize),
    Ebpf,
    Cgroups,
    MetricServer,
    DomainWatcher,
    HandlerBuilders(usize),
}

/// The components that each capture unit has one of.
#[derive(Clone, Copy, PartialEq, Eq, Debug, Structural)]
pub enum UnitKind {
    PacketSequenceParser,
    Dispatcher,
    LogParser,
    Collector,
    HandlerBuilders,
}

pub open spec fn unit_component(kind: UnitKind, i: usize) -> Component {
    match kind {
        UnitKind::PacketSequenceParser => Component::PacketSequenceParser(i),
        UnitKind::Dispatcher => Component::Dispatcher(i),
        UnitKind::LogParser => Component::LogParser(i),
        UnitKind::Collector => Component::Collector(i),
        UnitKind::HandlerBuilders => Component::HandlerBuilders(i),
    }
}

/// The components of one kind of all `n` capture units, in unit order.
pub open spec fn per_unit(kind: UnitKind, n: usize) -> Seq<Component> {
    Seq::new(n as nat, |i: int| unit_component(kind, i as usize))
}

fn push_units(v: &mut Vec<Component>, kind: UnitKind, n: usize)
    ensures
        final(v)@ == old(v)@ + per_unit(kind, n),
{
    let ghost start = v@;
    let mut i: usize = 0;
    while i < n
        invariant
            i <= n,
            v@ == start + Seq::new(i as nat, |k: int| unit_component(kind, k as usize)),
        decreases n - i,
    {
        let c = match kind {
            UnitKind::PacketSequenceParser => Component::PacketSequenceParser(i),
            UnitKind::Dispatcher => Component::Dispatcher(i),
            UnitKind::LogParser => Component::LogParser(i),
            UnitKind::Collector => Component::Collector(i),
            UnitKind::HandlerBuilders => Component::HandlerBuilders(i),
        };
        v.push(c);
        proof {
            assert(Seq::new((i + 1) as nat, |k: int| unit_component(kind, k as usize)) =~= Seq::new(
                i as nat,
                |k: int| unit_component(kind, k as usize),
            ).push(c));
        }
        i = i + 1;
    }
}

/// The lifecycle of one pipeline instance: what it holds, and whether it
/// runs.
#[derive(Clone, Copy, PartialEq, Eq, Debug, Structural)]
pub struct Pipeline {
    pub agent_mode: RunningMode,
    pub tap_mode: TapMode,
    /// A Kubernetes cluster identifier is known.
    pub cluster_id_set: bool,
    pub metric_server_enabled: bool,
    /// The platform offers an API watcher, a Kubernetes poller, cgroups and
    /// an eBPF collector.
    pub kernel_features: bool,
    /// The eBPF collector could be built.
    pub has_ebpf: bool,
    /// Number of capture units.
    pub units: usize,
    pub running: bool,
    /// The stats sender runs. It starts before anything else of the
    /// instance, so that counter registrations have a drain.
    pub stats_running: bool,
}

/// Whether the dispatchers may start only after a free-memory check.
pub open spec fn memory_gated(p: Pipeline) -> bool {
    p.tap_mode != TapMode::Analyzer && !p.cluster_id_set
}

pub open spec fn when(c: bool, s: Seq<Component>) -> Seq<Component> {
    if c {
        s
    } else {
        Seq::empty()
    }
}

/// The services started ahead of the capture units.
pub open spec fn start_head(p: Pipeline) -> Seq<Component> {
    let managed = p.agent_mode == RunningMode::Managed;
    seq![Component::Extractor, Component::PcapManager]
        + when(managed, seq![Component::PlatformSync])
        + when(managed && p.kernel_features, seq![Component::ApiWatcher])
        + when(p.kernel_features, seq![Component::KubernetesPoller])
        + seq![
            Component::Debugger,
            Component::Sender(QueueName::Metrics),
            Component::Sender(QueueName::ProtoLog),
            Component::Sender(QueueName::L4FlowAggr),
            Component::Sender(QueueName::PacketSequence),
        ]
}

/// The components of the capture units, in start order.
pub open spec fn start_units(p: Pipeline, free_memory_ok: bool) -> Seq<Component> {
    per_unit(UnitKind::PacketSequenceParser, p.units)
        + when(!memory_gated(p) || free_memory_ok, per_unit(UnitKind::Dispatcher, p.units))
        + per_unit(UnitKind::LogParser, p.units)
        + per_unit(UnitKind::Collector, p.units)
}

/// The services started after the capture units.
pub open spec fn start_tail(p: Pipeline) -> Seq<Component> {
    let managed = p.agent_mode == RunningMode::Managed;
    when(p.kernel_features && p.has_ebpf, seq![Component::Ebpf])
        + when(managed, seq![
            Component::Sender(QueueName::Otel),
            Component::Sender(QueueName::CompressedOtel),
            Component::Sender(QueueName::Prometheus),
            Component::Sender(QueueName::Telegraf),
        ])
        + when(managed && p.metric_server_enabled, seq![Component::MetricServer])
        + seq![Component::DomainWatcher]
        + per_unit(UnitKind::HandlerBuilders, p.units)
}

/// The components that a stopped pipeline starts, in order.
pub open spec fn start_steps(p: Pipeline, free_memory_ok: bool) -> Seq<Component> {
    when(!p.stats_running, seq![Component::StatsSender]) + start_head(p) + start_units(
        p,
        free_memory_ok,
    ) + start_tail(p)
}

/// The components that a running pipeline stops, in order: each one
/// upstream of what it feeds.
pub open spec fn stop_steps(p: Pipeline) -> Seq<Component> {
    per_unit(UnitKind::Dispatcher, p.units)
        + seq![Component::PlatformSync]
        + when(p.kernel_features, seq![Component::ApiWatcher])
        + per_unit(UnitKind::Collector, p.units)
        + per_unit(UnitKind::LogParser, p.units)
        + per_unit(UnitKind::PacketSequenceParser, p.units)
        + seq![
            Component::Sender(QueueName::L4FlowAggr),
            Component::Sender(QueueName::Metrics),
            Component::Sender(QueueName::ProtoLog),
            Component::Extractor,
            Component::Debugger,
        ]
        + when(p.kernel_features && p.has_ebpf, seq![Component::Ebpf])
        + when(p.kernel_features, seq![Component::Cgroups])
        + seq![
            Component::MetricServer,
            Component::Sender(QueueName::Otel),
            Component::Sender(QueueName::CompressedOtel),
            Component::Sender(QueueName::Prometheus),
            Component::Sender(QueueName::Telegraf),
            Component::Sender(QueueName::PacketSequence),
            Component::DomainWatcher,
        ]
        + per_unit(UnitKind::HandlerBuilders, p.units)
        + seq![Component::PcapManager]
        + when(p.stats_running, seq![Component::StatsSender])
}

/// The pipeline and the components started by a `start` call.
pub open spec fn start_result(p: Pipeline, free_memory_ok: bool) -> (Pipeline, Seq<Component>) {
    if p.running {
        (p, Seq::empty())
    } else {
        (Pipeline { running: true, stats_running: true, ..p }, start_steps(p, free_memory_ok))
    }
}

/// The pipeline and the components stopped by a `stop` call.
pub open spec fn stop_result(p: Pipeline) -> (Pipeline, Seq<Component>) {
    if p.running {
        (Pipeline { running: false, stats_running: false, ..p }, stop_steps(p))
    } else {
        (p, Seq::empty())
    }
}

fn push_if(v: &mut Vec<Component>, c: bool, x: Component)
    ensures
        final(v)@ == old(v)@ + when(c, seq![x]),
{
    if c {
        v.push(x);
    }
    proof {
        assert(final(v)@ =~= old(v)@ + when(c, seq![x]));
    }
}

impl Pipeline {
    /// Starts the stats sender ahead of the rest of the instance. Returns
    /// whether it is to be started: not when it already runs.
    pub fn start_stats_sender(&mut self) -> (r: bool)
        ensures
            r == !old(self).stats_running,
            *final(self) == (Pipeline { stats_running: true, ..*old(self) }),
    {
        let r = !self.stats_running;
        self.stats_running = true;
        r
    }

    /// Whether the dispatchers start only after a free-memory check passes.
    pub fn needs_memory_check(&self) -> (r: bool)
        ensures
            r == memory_gated(*self),
    {
        self.tap_mode != TapMode::Analyzer && !self.cluster_id_set
    }

    /// Marks the pipeline running and lists, in order, the components to
    /// start; lists none when it already runs. The dispatchers are left out
    /// when they are gated on free memory and `free_memory_ok` is false.
    pub fn start(&mut self, free_memory_ok: bool) -> (r: Vec<Component>)
        ensures
            (*final(self), r@) == start_result(*old(self), free_memory_ok),
    {
        let mut v: Vec<Component> = Vec::new();
        if self.running {
            proof {
                assert(v@ =~= Seq::<Component>::empty());
            }
            return v;
        }
        let p = *self;
        push_if(&mut v, !p.stats_running, Component::StatsSender);
        p.push_start_head(&mut v);
        p.push_start_units(&mut v, free_memory_ok);
        p.push_start_tail(&mut v);
        self.running = true;
        self.stats_running = true;
        proof {
            assert(v@ =~= start_steps(p, free_memory_ok));
        }
        v
    }

    fn push_start_head(&self, v: &mut Vec<Component>)
        ensures
            final(v)@ == old(v)@ + start_head(*self),
    {
        let managed = self.agent_mode == RunningMode::Managed;
        let ghost v0 = v@;
        v.push(Component::Extractor);
        v.push(Component::PcapManager);
        push_if(v, managed, Component::PlatformSync);
        push_if(v, managed && self.kernel_features, Component::ApiWatcher);
        push_if(v, self.kernel_features, Component::KubernetesPoller);
        v.push(Component::Debugger);
        v.push(Component::Sender(QueueName::Metrics));
        v.push(Component::Sender(QueueName::ProtoLog));
        v.push(Component::Sender(QueueName::L4FlowAggr));
        v.push(Component::Sender(QueueName::PacketSequence));
        proof {
            assert(v@ =~= v0 + start_head(*self));
        }
    }

    fn push_start_units(&self, v: &mut Vec<Component>, free_memory_ok: bool)
        ensures
            final(v)@ == old(v)@ + start_units(*self, free_memory_ok),
    {
        let ghost v0 = v@;
        push_units(v, UnitKind::PacketSequenceParser, self.units);
        let ghost b = v@;
        if !self.needs_memory_check() || free_memory_ok {
            push_units(v, UnitKind::Dispatcher, self.units);
        }
        proof {
            assert(v@ =~= b + when(!memory_gated(*self) || free_memory_ok, per_unit(UnitKind::Dispatcher, self.units)));
        }
        push_units(v, UnitKind::LogParser, self.units);
        push_units(v, UnitKind::Collector, self.units);
        proof {
            assert(v@ =~= v0 + start_units(*self, free_memory_ok));
        }
    }

    fn push_start_tail(&self, v: &mut Vec<Component>)
        ensures
            final(v)@ == old(v)@ + start_tail(*self),
    {
        let managed = self.agent_mode == RunningMode::Managed;
        let ghost v0 = v@;
        push_if(v, self.kernel_features && self.has_ebpf, Component::Ebpf);
        let ghost d = v@;
        if managed {
            v.push(Component::Sender(QueueName::Otel));
            v.push(Component::Sender(QueueName::CompressedOtel));
            v.push(Component::Sender(QueueName::Prometheus));
            v.push(Component::Sender(QueueName::Telegraf));
        }
        proof {
            assert(v@ =~= d + when(managed, seq![
                Component::Sender(QueueName::Otel),
                Component::Sender(QueueName::CompressedOtel),
                Component::Sender(QueueName::Prometheus),
                Component::Sender(QueueName::Telegraf),
            ]));
        }
        push_if(v, managed && self.metric_server_enabled, Component::MetricServer);
        v.push(Component::DomainWatcher);
        push_units(v, UnitKind::HandlerBuilders, self.units);
        proof {
            assert(v@ =~= v0 + start_tail(*self));
        }
    }

    /// Marks the pipeline stopped and lists, in order, the components to
    /// stop; lists none when it does not run.
    pub fn stop(&mut self) -> (r: Vec<Component>)
        ensures
            (*final(self), r@) == stop_result(*old(self)),
    {
        let mut v: Vec<Component> = Vec::new();
        if !self.running {
            proof {
                assert(v@ =~= Seq::<Component>::empty());
            }
            return v;
        }
        let p = *self;
        push_units(&mut v, UnitKind::Dispatcher, self.units);
        v.push(Component::PlatformSync);
        push_if(&mut v, self.kernel_features, Component::ApiWatcher);
        push_units(&mut v, UnitKind::Collector, self.units);
        push_units(&mut v, UnitKind::LogParser, self.units);
        push_units(&mut v, UnitKind::PacketSequenceParser, self.units);
        v.push(Component::Sender(QueueName::L4FlowAggr));
        v.push(Component::Sender(QueueName::Metrics));
        v.push(Component::Sender(QueueName::ProtoLog));
        v.push(Component::Extractor);
        v.push(Component::Debugger);
        push_if(&mut v, self.kernel_features && self.has_ebpf, Component::Ebpf);
        push_if(&mut v, self.kernel_features, Component::Cgroups);
        v.push(Component::MetricServer);
        v.push(Component::Sender(QueueName::Otel));
        v.push(Component::Sender(QueueName::CompressedOtel));
        v.push(Component::Sender(QueueName::Prometheus));
        v.push(Component::Sender(QueueName::Telegraf));
        v.push(Component::Sender(QueueName::PacketSequence));
        v.push(Component::DomainWatcher);
        push_units(&mut v, UnitKind::HandlerBuilders, self.units);
        v.push(Component::PcapManager);
        push_if(&mut v, self.stats_running, Component::StatsSender);
        self.running = false;
        self.stats_running = false;
        proof {
            assert(v@ =~= stop_steps(p));
        }
        v
    }
}

/// Starting a pipeline twice starts it once: the second call starts
/// nothing and leaves the pipeline as the first left it. Stopping twice
/// stops once, likewise.
pub proof fn lemma_start_stop_idempotent(p: Pipeline, first_ok: bool, second_ok: bool)
    ensures
        ({
            let (p1, s1) = start_result(p, first_ok);
            let (p2, s2) = start_result(p1, second_ok);
            p2 == p1 && s2.len() == 0
        }),
        ({
            let (p1, s1) = stop_result(p);
            let (p2, s2) = stop_result(p1);
            p2 == p1 && s2.len() == 0
        }),
{
}

/// A stop after a start stops the components of the stop order of the
/// started instance, the stats sender last, and leaves the instance as it
/// was before the start, with the stats sender stopped too.
pub proof fn lemma_stop_after_start(p: Pipeline, free_memory_ok: bool)
    requires
        !p.running,
    ensures
        ({
            let (p1, _) = start_result(p, free_memory_ok);
            let (p2, s2) = stop_result(p1);
            &&& p2 == Pipeline { stats_running: false, ..p }
            &&& s2 == stop_steps(p1)
            &&& s2.last() == Component::StatsSender
        }),
{
}

} // verus!
