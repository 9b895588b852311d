//! The top-level state machine: from the state posted by the synchronizer to
//! what the supervisor thread does next.
use vstd::prelude::*;

use crate::config::{RuntimeConfig, TapMode, TapType, YamlView};

verus! {

/// Exit code that asks the process wrapper to launch the agent again.
pub const RESTART_EXIT_CODE: i32 = 3;

/// Seconds the supervisor waits between stopping the pipeline and exiting
/// for a restart.
pub const RESTART_DELAY_SECS: u64 = 1;

/// Configuration delivered with a `ConfigChanged` state.
#[derive(Clone, Debug)]
pub struct ChangedConfig {
    pub runtime_config: RuntimeConfig,
    /// Interface identifiers to exclude from capture.
    pub blacklist: Vec<u64>,
    /// MAC addresses of the local virtual machines.
    pub vm_mac_addrs: Vec<u64>,
    pub kubernetes_cluster_id: Option<String>,
    pub tap_types: Vec<TapType>,
}

/// The shared state cell that the synchronizer writes and the supervisor
/// consumes.
#[derive(Clone, Debug)]
pub enum State {
    Running,
    ConfigChanged(ChangedConfig),
    Terminated,
    Disabled,
}

/// What a state says to the supervisor, with the parts of a configuration
/// that its decisions read.
pub enum Event {
    Running,
    Disabled,
    Terminated,
    Changed { yaml: YamlView, cluster_id: Option<Seq<char>> },
}

impl State {
    pub open spec fn event(&self) -> Event {
        match self {
            State::Running => Event::Running,
            State::Disabled => Event::Disabled,
            State::Terminated => Event::Terminated,
            State::ConfigChanged(c) => Event::Changed {
                yaml: c.runtime_config.yaml_config@,
                cluster_id: match c.kubernetes_cluster_id {
                    Some(id) => Some(id@),
                    None => None,
                },
            },
        }
    }

    /// The configuration carried by a `ConfigChanged` state.
    pub fn unwrap_config(self) -> (c: ChangedConfig)
        requires
            self is ConfigChanged,
        ensures
            self == State::ConfigChanged(c),
    {
        match self {
            State::ConfigChanged(c) => c,
            _ => { proof { assert(false); } unreached() },
        }
    }
}

/// The kind of a supervisor decision.
#[derive(Clone, Copy, PartialEq, Eq, Debug, Structural)]
pub enum Outcome {
    /// Nothing new: block on the state cell again.
    Wait,
    /// Stop and discard the pipeline, then wait for re-enable or termination.
    Disable,
    /// Stop the pipeline, the guard and the monitor, and return.
    Shutdown,
    /// Stop the pipeline, sleep, and exit with the restart code.
    Restart,
    /// Build a fresh pipeline and start it.
    Build,
    /// Apply the configuration to the running pipeline.
    Reconfigure,
}

/// What the supervisor knows between two states.
pub struct SupervisorModel {
    /// The topology configuration of the current pipeline generation.
    pub yaml: Option<YamlView>,
    pub cluster_id: Seq<char>,
    /// A pipeline exists and runs.
    pub has_pipeline: bool,
    /// The supervisor has returned or the process is exiting.
    pub finished: bool,
}

/// The supervisor's reaction to one event.
pub open spec fn step(m: SupervisorModel, e: Event) -> (SupervisorModel, Outcome) {
    match e {
        Event::Running => (m, Outcome::Wait),
        Event::Disabled => (SupervisorModel { has_pipeline: false, ..m }, Outcome::Disable),
        Event::Terminated => (
            SupervisorModel { has_pipeline: false, finished: true, ..m },
            Outcome::Shutdown,
        ),
        Event::Changed { yaml, cluster_id } => {
            if m.yaml is Some && m.yaml->0 != yaml {
                (SupervisorModel { has_pipeline: false, finished: true, ..m }, Outcome::Restart)
            } else {
                let next = SupervisorModel {
                    yaml: Some(yaml),
                    cluster_id: match cluster_id {
                        Some(id) => id,
                        None => m.cluster_id,
                    },
                    has_pipeline: true,
                    finished: false,
                };
                (next, if m.has_pipeline { Outcome::Reconfigure } else { Outcome::Build })
            }
        },
    }
}

/// The supervisor after a sequence of events; events that come after it has
/// finished are not consumed.
pub open spec fn run(m: SupervisorModel, events: Seq<Event>) -> SupervisorModel
    decreases events.len(),
{
    if events.len() == 0 || m.finished {
        m
    } else {
        run(step(m, events[0]).0, events.drop_first())
    }
}

/// Every sequence of states that ends in `Terminated` leaves the supervisor
/// finished with its pipeline stopped, whatever came before.
pub proof fn lemma_terminated_shuts_down(m: SupervisorModel, events: Seq<Event>)
    requires
        events.len() > 0,
        events.last() is Terminated,
        m.finished ==> !m.has_pipeline,
    ensures
        run(m, events).finished,
        !run(m, events).has_pipeline,
    decreases events.len(),
{
    if m.finished {
        assert(run(m, events) == m);
    } else {
        let n = step(m, events[0]).0;
        assert(run(m, events) == run(n, events.drop_first()));
        assert(n.finished ==> !n.has_pipeline);
        if events.len() == 1 {
            assert(events[0] is Terminated);
            assert(run(n, events.drop_first()) == n);
        } else {
            assert(events.drop_first().last() == events.last());
            lemma_terminated_shuts_down(n, events.drop_first());
        }
    }
}

/// At most one pipeline exists: a pipeline is built only when none exists.
/// While a pipeline lives, its topology configuration does not change.
pub proof fn lemma_single_pipeline(m: SupervisorModel, e: Event)
    requires
        !m.finished,
        m.has_pipeline ==> m.yaml is Some,
    ensures
        ({
            let (m1, o) = step(m, e);
            &&& o == Outcome::Build ==> !m.has_pipeline && m1.has_pipeline
            &&& m.has_pipeline && m1.has_pipeline ==> m1.yaml == m.yaml
            &&& m1.has_pipeline ==> m1.yaml is Some
        }),
{
}

/// Two `ConfigChanged` states with the same topology configuration never
/// make the process exit: the second one reconfigures the pipeline that the
/// first one built or kept.
pub proof fn lemma_same_yaml_keeps_pipeline(
    m: SupervisorModel,
    yaml: YamlView,
    first_id: Option<Seq<char>>,
    second_id: Option<Seq<char>>,
)
    requires
        !m.finished,
        m.yaml is Some ==> m.yaml->0 == yaml,
    ensures
        ({
            let (m1, o1) = step(m, Event::Changed { yaml, cluster_id: first_id });
            let (m2, o2) = step(m1, Event::Changed { yaml, cluster_id: second_id });
            &&& o1 != Outcome::Restart
            &&& o2 == Outcome::Reconfigure
            &&& !m1.finished && !m2.finished
            &&& m1.has_pipeline && m2.has_pipeline
        }),
{
}

/// A `ConfigChanged` state whose topology configuration differs from the
/// current one stops the pipeline and exits for a restart.
pub proof fn lemma_changed_yaml_restarts(
    m: SupervisorModel,
    yaml: YamlView,
    cluster_id: Option<Seq<char>>,
)
    requires
        m.yaml is Some,
        m.yaml->0 != yaml,
    ensures
        ({
            let (m1, o1) = step(m, Event::Changed { yaml, cluster_id });
            &&& o1 == Outcome::Restart
            &&& m1.finished
            &&& !m1.has_pipeline
        }),
{
}

/// One step of applying a configuration.
#[derive(Clone, Copy, PartialEq, Eq, Debug, Structural)]
pub enum ApplyStep {
    /// Plan and construct a fresh pipeline instance.
    BuildPipeline,
    /// Start the pipeline; a no-op when it runs.
    StartPipeline,
    /// Make the new candidate configuration the pipeline's configuration.
    UpdateConfig,
    /// Fan the new interfaces, VM MACs and tap types out to the dispatcher
    /// listeners.
    FanOutListeners,
    /// Fire the per-module configuration callbacks.
    RunCallbacks,
    /// Compare the tap types with the cached ones, notifying the tap typer of
    /// a change.
    ParseTapTypes,
    /// Push the new dispatcher configuration into every listener.
    PushDispatcherConfig,
}

/// The steps of the first configuration of a pipeline, in order.
pub open spec fn build_steps(analyzer: bool) -> Seq<ApplyStep> {
    seq![ApplyStep::BuildPipeline, ApplyStep::StartPipeline, ApplyStep::RunCallbacks] + if analyzer {
        seq![ApplyStep::ParseTapTypes]
    } else {
        Seq::empty()
    }
}

/// The steps of a hot reconfiguration, in order.
pub open spec fn reconfigure_steps() -> Seq<ApplyStep> {
    seq![
        ApplyStep::StartPipeline,
        ApplyStep::UpdateConfig,
        ApplyStep::FanOutListeners,
        ApplyStep::RunCallbacks,
        ApplyStep::PushDispatcherConfig,
    ]
}

/// What the supervisor asks of the program that runs it.
#[derive(Debug)]
pub enum Decision {
    Wait,
    Disable { stop_pipeline: bool },
    Shutdown { stop_pipeline: bool },
    Restart { stop_pipeline: bool, delay_secs: u64, exit_code: i32 },
    /// Build a pipeline for `change` and apply it, taking `steps` in order.
    Build { change: ChangedConfig, cluster_id: String, steps: Vec<ApplyStep> },
    /// Apply `change` to the existing pipeline, taking `steps` in order.
    Reconfigure { change: ChangedConfig, cluster_id: String, steps: Vec<ApplyStep> },
}

impl Decision {
    pub open spec fn outcome(&self) -> Outcome {
        match self {
            Decision::Wait => Outcome::Wait,
            Decision::Disable { .. } => Outcome::Disable,
            Decision::Shutdown { .. } => Outcome::Shutdown,
            Decision::Restart { .. } => Outcome::Restart,
            Decision::Build { .. } => Outcome::Build,
            Decision::Reconfigure { .. } => Outcome::Reconfigure,
        }
    }
}

/// The top-level state machine that drives the pipeline.
pub struct Supervisor {
    yaml: Option<crate::config::YamlConfig>,
    cluster_id: String,
    has_pipeline: bool,
    finished: bool,
}

impl View for Supervisor {
    type V = SupervisorModel;

    closed spec fn view(&self) -> SupervisorModel {
        SupervisorModel {
            yaml: match self.yaml {
                Some(y) => Some(y@),
                None => None,
            },
            cluster_id: self.cluster_id@,
            has_pipeline: self.has_pipeline,
            finished: self.finished,
        }
    }
}

/// The supervisor before its first state.
pub open spec fn initial_model(cluster_id: Seq<char>) -> SupervisorModel {
    SupervisorModel { yaml: None, cluster_id, has_pipeline: false, finished: false }
}

impl Supervisor {
    /// A supervisor with no pipeline yet, for a static cluster identifier.
    pub fn new(cluster_id: String) -> (s: Supervisor)
        ensures
            s@ == initial_model(cluster_id@),
    {
        Supervisor { yaml: None, cluster_id, has_pipeline: false, finished: false }
    }

    /// Whether the supervisor has returned or the process is exiting.
    pub fn is_finished(&self) -> (r: bool)
        ensures
            r == self@.finished,
    {
        self.finished
    }

    /// The cluster identifier that the next pipeline is built with.
    pub fn cluster_id(&self) -> (r: &String)
        ensures
            r@ == self@.cluster_id,
    {
        &self.cluster_id
    }

    /// Consumes one state of the cell and decides what to do.
    pub fn next(&mut self, state: State) -> (d: Decision)
        requires
            !old(self)@.finished,
        ensures
            (final(self)@, d.outcome()) == step(old(self)@, state.event()),
            d matches Decision::Disable { stop_pipeline } ==> stop_pipeline == old(self)@.has_pipeline,
            d matches Decision::Shutdown { stop_pipeline } ==> stop_pipeline == old(self)@.has_pipeline,
            d matches Decision::Restart { stop_pipeline, delay_secs, exit_code } ==> {
                &&& stop_pipeline == old(self)@.has_pipeline
                &&& delay_secs == RESTART_DELAY_SECS
                &&& exit_code == RESTART_EXIT_CODE
            },
            d matches Decision::Build { change, cluster_id, steps } ==> {
                &&& state == State::ConfigChanged(change)
                &&& cluster_id@ == final(self)@.cluster_id
                &&& steps@ == build_steps(change.runtime_config.tap_mode == TapMode::Analyzer)
            },
            d matches Decision::Reconfigure { change, cluster_id, steps } ==> {
                &&& state == State::ConfigChanged(change)
                &&& cluster_id@ == final(self)@.cluster_id
                &&& steps@ == reconfigure_steps()
            },
    {
        match state {
            State::Running => Decision::Wait,
            State::Disabled => {
                let stop_pipeline = self.has_pipeline;
                self.has_pipeline = false;
                Decision::Disable { stop_pipeline }
            },
            State::Terminated => {
                let stop_pipeline = self.has_pipeline;
                self.has_pipeline = false;
                self.finished = true;
                Decision::Shutdown { stop_pipeline }
            },
            State::ConfigChanged(change) => {
                let differs = match &self.yaml {
                    Some(y) => *y != change.runtime_config.yaml_config,
                    None => false,
                };
                if differs {
                    let stop_pipeline = self.has_pipeline;
                    self.has_pipeline = false;
                    self.finished = true;
                    return Decision::Restart {
                        stop_pipeline,
                        delay_secs: RESTART_DELAY_SECS,
                        exit_code: RESTART_EXIT_CODE,
                    };
                }
                self.yaml = Some(change.runtime_config.yaml_config.duplicate());
                match &change.kubernetes_cluster_id {
                    Some(id) => {
                        self.cluster_id = id.clone();
                    },
                    None => {},
                }
                let cluster_id = self.cluster_id.clone();
                if self.has_pipeline {
                    let steps = vec![
                        ApplyStep::StartPipeline,
                        ApplyStep::UpdateConfig,
                        ApplyStep::FanOutListeners,
                        ApplyStep::RunCallbacks,
                        ApplyStep::PushDispatcherConfig,
                    ];
                    proof {
                        assert(steps@ =~= reconfigure_steps());
                    }
                    Decision::Reconfigure { change, cluster_id, steps }
                } else {
                    self.has_pipeline = true;
                    let mut steps = vec![
                        ApplyStep::BuildPipeline,
                        ApplyStep::StartPipeline,
                        ApplyStep::RunCallbacks,
                    ];
                    let analyzer = change.runtime_config.tap_mode == TapMode::Analyzer;
                    if analyzer {
                        steps.push(ApplyStep::ParseTapTypes);
                    }
                    proof {
                        assert(steps@ =~= build_steps(analyzer));
                    }
                    Decision::Build { change, cluster_id, steps }
                }
            },
        }
    }
}

} // verus!
