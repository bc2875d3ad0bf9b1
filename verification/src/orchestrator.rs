//! The dual-server lifecycle orchestrator. It is a state machine over the
//! process lifetime: the primary application server is started first and
//! yields the node identity; the persistence strategy is then bound and
//! registered for that identity; the secondary vote server is started only
//! when a binding exists and the configuration does not disable it; and on
//! shutdown both servers are stopped and awaited before the node reports
//! completion. Each call of [`TvsNodeRunner::step`] consumes one event of
//! the outside world and returns the one action the caller must perform
//! next; the transition itself — including the registry update — is
//! verified against [`spec_step`].

use vstd::prelude::*;

use crate::config::EnvSnapshot;
use crate::config::EnvSnapshotV;
use crate::config::TvsNodeConfig;
use crate::config::TvsNodeConfigV;
use crate::config::TvsServerConfig;
use crate::config::TvsServerConfigV;
use crate::config::view_opt_tvs;
use crate::errors::BindError;
use crate::errors::NodeError;
use crate::errors::OrchestratorError;
use crate::errors::RegistryError;
use crate::numeric::parse_u16;
use crate::numeric::spec_parse_u16;
use crate::registry::NodeIdentity;
use crate::registry::ServiceRegistry;
use crate::services::ServiceBindingV;
use crate::services::Strategy;
use crate::services::plan_binding;
use crate::services::spec_plan_binding;

verus! {

/// Where the node stands in its lifetime.
#[derive(Clone, Copy, Debug, PartialEq, Eq, Structural)]
pub enum LifecycleState {
    /// Nothing started yet.
    Unconfigured,
    /// The primary server has been asked to start.
    PrimaryStarting,
    /// The primary server runs and yielded the node identity; the
    /// persistence backend is being prepared.
    BindingServices { node: u64 },
    /// Services are bound and registered; the secondary server has been
    /// asked to start.
    SecondaryStarting { node: u64 },
    /// Both servers run.
    BothRunning { node: u64 },
    /// Only the primary server runs; no secondary server was started.
    PrimaryOnlyRunning { node: u64 },
    /// A stop was requested or one server ended; the others drain.
    ShuttingDown { primary_running: bool, secondary_running: bool },
    /// Both servers have terminated.
    Stopped,
    /// A fatal startup failure; the node must exit.
    Failed { error: NodeError },
}

/// One observation of the outside world, handed to the orchestrator.
#[derive(Clone, Copy, Debug, PartialEq, Eq, Structural)]
pub enum Event {
    /// Begin the lifecycle.
    Start,
    /// The primary server reports readiness and the node's identity.
    PrimaryReady { node: u64 },
    /// The primary server could not start.
    PrimaryFailed,
    /// The persistence backend is ready (schema initialized for the
    /// durable strategy, adapter built for the ephemeral one).
    StorageReady,
    /// The persistence backend could not be prepared.
    StorageFailed { error: BindError },
    /// The secondary vote server reports it is listening.
    SecondaryReady,
    /// The secondary vote server could not bind its port.
    SecondaryFailed,
    /// An external shutdown trigger fired.
    Shutdown,
    /// The primary server has fully terminated.
    PrimaryStopped,
    /// The secondary vote server has fully terminated.
    SecondaryStopped,
}

/// What the caller must do next.
#[derive(Debug)]
pub enum Action {
    /// Start the primary application server.
    StartPrimary,
    /// Prepare the persistence backend for the given strategy.
    PrepareStorage { strategy: Strategy },
    /// Start the secondary vote server on the resolved address.
    StartSecondary { host: String, port: u16 },
    /// Wait on the running servers for the next event.
    AwaitServers,
    /// Propagate a stop request to every still-running server.
    StopServers,
    /// Abort startup with this fatal error.
    Fail { error: NodeError },
    /// Both servers have stopped; the lifecycle is complete.
    Done,
    /// The event does not concern the current state; nothing to do.
    Idle,
}

/// Mathematical value of an [`Action`].
pub ghost enum ActionV {
    StartPrimary,
    PrepareStorage { strategy: Strategy },
    StartSecondary { host: Seq<char>, port: u16 },
    AwaitServers,
    StopServers,
    Fail { error: NodeError },
    Done,
    Idle,
}

impl View for Action {
    type V = ActionV;

    open spec fn view(&self) -> ActionV {
        match self {
            Action::StartPrimary => ActionV::StartPrimary,
            Action::PrepareStorage { strategy } => ActionV::PrepareStorage { strategy: *strategy },
            Action::StartSecondary { host, port } => ActionV::StartSecondary {
                host: host@,
                port: *port,
            },
            Action::AwaitServers => ActionV::AwaitServers,
            Action::StopServers => ActionV::StopServers,
            Action::Fail { error } => ActionV::Fail { error: *error },
            Action::Done => ActionV::Done,
            Action::Idle => ActionV::Idle,
        }
    }
}

/// The host of the secondary vote server: environment override first, then
/// the document value, then the compiled default.
pub open spec fn spec_secondary_host(tvs: Option<TvsServerConfigV>, env: EnvSnapshotV) -> Seq<
    char,
> {
    match env.tvs_vote_host {
        Some(h) => h,
        None => match tvs {
            Some(t) => t.vote_host,
            None => "127.0.0.1"@,
        },
    }
}

/// The port of the secondary vote server: a parsable environment override
/// first, then the document value, then the compiled default.
pub open spec fn spec_secondary_port(tvs: Option<TvsServerConfigV>, env: EnvSnapshotV) -> u16 {
    let fallback: u16 = match tvs {
        Some(t) => t.vote_port,
        None => 8090u16,
    };
    match env.tvs_vote_port {
        Some(s) => match spec_parse_u16(s) {
            Some(p) => p,
            None => fallback,
        },
        None => fallback,
    }
}

/// Resolve the address the secondary vote server binds, with precedence
/// environment override over document value over compiled default.
pub fn resolve_secondary_addr(tvs: &Option<TvsServerConfig>, env: &EnvSnapshot) -> (r: (
    String,
    u16,
))
    ensures
        r.0@ == spec_secondary_host(view_opt_tvs(*tvs), env@),
        r.1 == spec_secondary_port(view_opt_tvs(*tvs), env@),
{
    let host: String = match &env.tvs_vote_host {
        Some(h) => h.clone(),
        None => match tvs {
            Some(t) => t.vote_host.clone(),
            None => "127.0.0.1".to_owned(),
        },
    };
    let fallback: u16 = match tvs {
        Some(t) => t.vote_port,
        None => 8090,
    };
    let port: u16 = match &env.tvs_vote_port {
        Some(s) => match parse_u16(s.as_str()) {
            Some(p) => p,
            None => fallback,
        },
        None => fallback,
    };
    (host, port)
}

/// A parsable environment override of the vote port takes precedence over
/// whatever the document gives, and over the compiled default.
pub proof fn lemma_env_vote_port_precedence(
    tvs: Option<TvsServerConfigV>,
    env: EnvSnapshotV,
    p: u16,
)
    requires
        env.tvs_vote_port matches Some(s) && spec_parse_u16(s) == Some(p),
    ensures
        spec_secondary_port(tvs, env) == p,
{
}

/// The orchestrator: the resolved configuration and environment snapshot,
/// the deployment's persistence strategy (absent when no persistence
/// feature is selected, a valid reduced state), the service registry, and
/// the lifecycle state.
pub struct TvsNodeRunner {
    pub config: TvsNodeConfig,
    pub env: EnvSnapshot,
    pub strategy: Option<Strategy>,
    pub registry: ServiceRegistry,
    pub state: LifecycleState,
}

/// Mathematical value of a [`TvsNodeRunner`].
pub ghost struct TvsNodeRunnerV {
    pub config: TvsNodeConfigV,
    pub env: EnvSnapshotV,
    pub strategy: Option<Strategy>,
    pub registry: Map<u64, ServiceBindingV>,
    pub state: LifecycleState,
}

impl View for TvsNodeRunner {
    type V = TvsNodeRunnerV;

    open spec fn view(&self) -> TvsNodeRunnerV {
        TvsNodeRunnerV {
            config: self.config@,
            env: self.env@,
            strategy: self.strategy,
            registry: self.registry@,
            state: self.state,
        }
    }
}

/// The outcome of one transition: the next state, the registry after it,
/// and the action owed to the caller.
pub ghost struct StepV {
    pub state: LifecycleState,
    pub registry: Map<u64, ServiceBindingV>,
    pub action: ActionV,
}

/// An unchanged orchestrator with nothing to do.
pub open spec fn spec_idle(o: TvsNodeRunnerV) -> StepV {
    StepV { state: o.state, registry: o.registry, action: ActionV::Idle }
}

/// A transition into the fatal state.
pub open spec fn spec_fail(o: TvsNodeRunnerV, error: NodeError) -> StepV {
    StepV {
        state: LifecycleState::Failed { error },
        registry: o.registry,
        action: ActionV::Fail { error },
    }
}

/// The secondary-server decision, taken once services are bound for
/// `node`: when no binding is registered the secondary server is not
/// started; when the document's vote section is present but disabled it is
/// not started either; otherwise it is started on the resolved address.
pub open spec fn spec_secondary_decision(
    o: TvsNodeRunnerV,
    node: u64,
    reg: Map<u64, ServiceBindingV>,
) -> StepV {
    if !reg.contains_key(node) {
        StepV {
            state: LifecycleState::PrimaryOnlyRunning { node },
            registry: reg,
            action: ActionV::AwaitServers,
        }
    } else {
        let disabled = match o.config.tvs {
            Some(t) => !t.enabled,
            None => false,
        };
        if disabled {
            StepV {
                state: LifecycleState::PrimaryOnlyRunning { node },
                registry: reg,
                action: ActionV::AwaitServers,
            }
        } else {
            StepV {
                state: LifecycleState::SecondaryStarting { node },
                registry: reg,
                action: ActionV::StartSecondary {
                    host: spec_secondary_host(o.config.tvs, o.env),
                    port: spec_secondary_port(o.config.tvs, o.env),
                },
            }
        }
    }
}

/// The transition relation of the lifecycle: given the orchestrator's value
/// and one event, the next state, the registry after the transition, and
/// the action owed to the caller. Events that do not concern the current
/// state change nothing.
pub open spec fn spec_step(o: TvsNodeRunnerV, ev: Event) -> StepV {
    match (o.state, ev) {
        (LifecycleState::Unconfigured, Event::Start) => StepV {
            state: LifecycleState::PrimaryStarting,
            registry: o.registry,
            action: ActionV::StartPrimary,
        },
        (LifecycleState::PrimaryStarting, Event::PrimaryReady { node }) => match o.strategy {
            Some(strategy) => StepV {
                state: LifecycleState::BindingServices { node },
                registry: o.registry,
                action: ActionV::PrepareStorage { strategy },
            },
            None => spec_secondary_decision(o, node, o.registry),
        },
        (LifecycleState::PrimaryStarting, Event::PrimaryFailed) => spec_fail(
            o,
            NodeError::Orchestrator(OrchestratorError::PrimaryStartFailed),
        ),
        (LifecycleState::BindingServices { node }, Event::StorageReady) => match o.strategy {
            Some(strategy) => {
                if o.registry.contains_key(node) {
                    spec_fail(o, NodeError::Registry(RegistryError::AlreadyConfigured))
                } else {
                    spec_secondary_decision(
                        o,
                        node,
                        o.registry.insert(node, spec_plan_binding(strategy, o.env)),
                    )
                }
            },
            None => spec_idle(o),
        },
        (LifecycleState::BindingServices { node: _ }, Event::StorageFailed { error }) => spec_fail(
            o,
            NodeError::Bind(error),
        ),
        (LifecycleState::SecondaryStarting { node }, Event::SecondaryReady) => StepV {
            state: LifecycleState::BothRunning { node },
            registry: o.registry,
            action: ActionV::AwaitServers,
        },
        (LifecycleState::SecondaryStarting { node: _ }, Event::SecondaryFailed) => spec_fail(
            o,
            NodeError::Orchestrator(OrchestratorError::SecondaryStartFailed),
        ),
        (LifecycleState::BothRunning { node: _ }, Event::Shutdown) => StepV {
            state: LifecycleState::ShuttingDown { primary_running: true, secondary_running: true },
            registry: o.registry,
            action: ActionV::StopServers,
        },
        (LifecycleState::BothRunning { node: _ }, Event::PrimaryStopped) => StepV {
            state: LifecycleState::ShuttingDown { primary_running: false, secondary_running: true },
            registry: o.registry,
            action: ActionV::StopServers,
        },
        (LifecycleState::BothRunning { node: _ }, Event::SecondaryStopped) => StepV {
            state: LifecycleState::ShuttingDown { primary_running: true, secondary_running: false },
            registry: o.registry,
            action: ActionV::StopServers,
        },
        (LifecycleState::PrimaryOnlyRunning { node: _ }, Event::Shutdown) => StepV {
            state: LifecycleState::ShuttingDown { primary_running: true, secondary_running: false },
            registry: o.registry,
            action: ActionV::StopServers,
        },
        (LifecycleState::PrimaryOnlyRunning { node: _ }, Event::PrimaryStopped) => StepV {
            state: LifecycleState::Stopped,
            registry: o.registry,
            action: ActionV::Done,
        },
        (
            LifecycleState::ShuttingDown { primary_running: _, secondary_running },
            Event::PrimaryStopped,
        ) => {
            if secondary_running {
                StepV {
                    state: LifecycleState::ShuttingDown {
                        primary_running: false,
                        secondary_running: true,
                    },
                    registry: o.registry,
                    action: ActionV::AwaitServers,
                }
            } else {
                StepV { state: LifecycleState::Stopped, registry: o.registry, action: ActionV::Done }
            }
        },
        (
            LifecycleState::ShuttingDown { primary_running, secondary_running: _ },
            Event::SecondaryStopped,
        ) => {
            if primary_running {
                StepV {
                    state: LifecycleState::ShuttingDown {
                        primary_running: true,
                        secondary_running: false,
                    },
                    registry: o.registry,
                    action: ActionV::AwaitServers,
                }
            } else {
                StepV { state: LifecycleState::Stopped, registry: o.registry, action: ActionV::Done }
            }
        },
        _ => spec_idle(o),
    }
}

impl TvsNodeRunner {
    /// The registry behind the orchestrator is well formed.
    pub open spec fn wf(&self) -> bool {
        self.registry.wf()
    }

    /// Build an orchestrator over a resolved configuration, an environment
    /// snapshot and the deployment's persistence strategy. Nothing has
    /// started yet and no identity has a binding.
    pub fn build_with_config(
        config: TvsNodeConfig,
        env: EnvSnapshot,
        strategy: Option<Strategy>,
    ) -> (r: TvsNodeRunner)
        ensures
            r@.config == config@,
            r@.env == env@,
            r@.strategy == strategy,
            r@.registry == Map::<u64, ServiceBindingV>::empty(),
            r@.state == LifecycleState::Unconfigured,
            r.wf(),
    {
        TvsNodeRunner {
            config,
            env,
            strategy,
            registry: ServiceRegistry::new(),
            state: LifecycleState::Unconfigured,
        }
    }

    /// The secondary-server decision for `node`, against the live registry.
    fn decide_secondary(&mut self, node: u64) -> (a: Action)
        requires
            old(self).wf(),
        ensures
            final(self).wf(),
            final(self)@.config == old(self)@.config,
            final(self)@.env == old(self)@.env,
            final(self)@.strategy == old(self)@.strategy,
            final(self)@.registry == old(self)@.registry,
            final(self)@.state == spec_secondary_decision(old(self)@, node, old(self)@.registry).state,
            a@ == spec_secondary_decision(old(self)@, node, old(self)@.registry).action,
    {
        let id = NodeIdentity { raw: node };
        match self.registry.lookup(&id) {
            None => {
                self.state = LifecycleState::PrimaryOnlyRunning { node };
                Action::AwaitServers
            },
            Some(_) => {
                let disabled = match &self.config.tvs {
                    Some(t) => !t.enabled,
                    None => false,
                };
                if disabled {
                    self.state = LifecycleState::PrimaryOnlyRunning { node };
                    Action::AwaitServers
                } else {
                    let (host, port) = resolve_secondary_addr(&self.config.tvs, &self.env);
                    self.state = LifecycleState::SecondaryStarting { node };
                    Action::StartSecondary { host, port }
                }
            },
        }
    }

    /// Consume one event and take the transition [`spec_step`] prescribes:
    /// the state and the registry move to the prescribed values, and the
    /// returned action is the one the caller must perform next.
    pub fn step(&mut self, ev: Event) -> (a: Action)
        requires
            old(self).wf(),
        ensures
            final(self).wf(),
            final(self)@.config == old(self)@.config,
            final(self)@.env == old(self)@.env,
            final(self)@.strategy == old(self)@.strategy,
            final(self)@.state == spec_step(old(self)@, ev).state,
            final(self)@.registry == spec_step(old(self)@, ev).registry,
            a@ == spec_step(old(self)@, ev).action,
    {
        match (self.state, ev) {
            (LifecycleState::Unconfigured, Event::Start) => {
                self.state = LifecycleState::PrimaryStarting;
                Action::StartPrimary
            },
            (LifecycleState::PrimaryStarting, Event::PrimaryReady { node }) => {
                match self.strategy {
                    Some(strategy) => {
                        self.state = LifecycleState::BindingServices { node };
                        Action::PrepareStorage { strategy }
                    },
                    None => self.decide_secondary(node),
                }
            },
            (LifecycleState::PrimaryStarting, Event::PrimaryFailed) => {
                let error = NodeError::Orchestrator(OrchestratorError::PrimaryStartFailed);
                self.state = LifecycleState::Failed { error };
                Action::Fail { error }
            },
            (LifecycleState::BindingServices { node }, Event::StorageReady) => {
                match self.strategy {
                    Some(strategy) => {
                        let id = NodeIdentity { raw: node };
                        let binding = plan_binding(strategy, &self.env);
                        match self.registry.configure(&id, binding) {
                            Err(e) => {
                                let error = NodeError::Registry(e);
                                self.state = LifecycleState::Failed { error };
                                Action::Fail { error }
                            },
                            Ok(_) => self.decide_secondary(node),
                        }
                    },
                    None => Action::Idle,
                }
            },
            (LifecycleState::BindingServices { node: _ }, Event::StorageFailed { error }) => {
                let fatal = NodeError::Bind(error);
                self.state = LifecycleState::Failed { error: fatal };
                Action::Fail { error: fatal }
            },
            (LifecycleState::SecondaryStarting { node }, Event::SecondaryReady) => {
                self.state = LifecycleState::BothRunning { node };
                Action::AwaitServers
            },
            (LifecycleState::SecondaryStarting { node: _ }, Event::SecondaryFailed) => {
                let error = NodeError::Orchestrator(OrchestratorError::SecondaryStartFailed);
                self.state = LifecycleState::Failed { error };
                Action::Fail { error }
            },
            (LifecycleState::BothRunning { node: _ }, Event::Shutdown) => {
                self.state = LifecycleState::ShuttingDown {
                    primary_running: true,
                    secondary_running: true,
                };
                Action::StopServers
            },
            (LifecycleState::BothRunning { node: _ }, Event::PrimaryStopped) => {
                self.state = LifecycleState::ShuttingDown {
                    primary_running: false,
                    secondary_running: true,
                };
                Action::StopServers
            },
            (LifecycleState::BothRunning { node: _ }, Event::SecondaryStopped) => {
                self.state = LifecycleState::ShuttingDown {
                    primary_running: true,
                    secondary_running: false,
                };
                Action::StopServers
            },
            (LifecycleState::PrimaryOnlyRunning { node: _ }, Event::Shutdown) => {
                self.state = LifecycleState::ShuttingDown {
                    primary_running: true,
                    secondary_running: false,
                };
                Action::StopServers
            },
            (LifecycleState::PrimaryOnlyRunning { node: _ }, Event::PrimaryStopped) => {
                self.state = LifecycleState::Stopped;
                Action::Done
            },
            (
                LifecycleState::ShuttingDown { primary_running: _, secondary_running },
                Event::PrimaryStopped,
            ) => {
                if secondary_running {
                    self.state = LifecycleState::ShuttingDown {
                        primary_running: false,
                        secondary_running: true,
                    };
                    Action::AwaitServers
                } else {
                    self.state = LifecycleState::Stopped;
                    Action::Done
                }
            },
            (
                LifecycleState::ShuttingDown { primary_running, secondary_running: _ },
                Event::SecondaryStopped,
            ) => {
                if primary_running {
                    self.state = LifecycleState::ShuttingDown {
                        primary_running: true,
                        secondary_running: false,
                    };
                    Action::AwaitServers
                } else {
                    self.state = LifecycleState::Stopped;
                    Action::Done
                }
            },
            _ => Action::Idle,
        }
    }
}

/// When the document's vote section is present with `enabled` false, no
/// transition of the lifecycle ever starts the secondary server, whatever
/// the state, the event and the other fields hold.
pub proof fn lemma_disabled_secondary_never_started(o: TvsNodeRunnerV, ev: Event)
    requires
        match o.config.tvs {
            Some(t) => !t.enabled,
            None => false,
        },
    ensures
        !(spec_step(o, ev).action is StartSecondary),
{
}

/// Service binding strictly precedes the secondary server: whenever the
/// lifecycle stands at or beyond the start of the secondary server, the
/// registry holds a binding for the node — and every transition preserves
/// this, so no vote traffic is ever accepted against an unbound backend.
pub open spec fn spec_binding_before_secondary(o: TvsNodeRunnerV) -> bool {
    match o.state {
        LifecycleState::SecondaryStarting { node } => o.registry.contains_key(node),
        LifecycleState::BothRunning { node } => o.registry.contains_key(node),
        _ => true,
    }
}

/// Every transition preserves [`spec_binding_before_secondary`], and a
/// `StartSecondary` action is only ever issued in a transition whose
/// target state records a registered binding for the node.
pub proof fn lemma_binding_before_secondary(o: TvsNodeRunnerV, ev: Event)
    requires
        spec_binding_before_secondary(o),
    ensures
        spec_binding_before_secondary(
            TvsNodeRunnerV {
                registry: spec_step(o, ev).registry,
                state: spec_step(o, ev).state,
                ..o
            },
        ),
        spec_step(o, ev).action is StartSecondary ==> spec_step(o, ev).state is SecondaryStarting,
{
}

/// Joint shutdown: the lifecycle reports completion only in the `Stopped`
/// state, and never while the other server is still draining — whichever
/// server stops first, the orchestrator keeps waiting for the second.
pub proof fn lemma_joint_shutdown(o: TvsNodeRunnerV, ev: Event)
    ensures
        spec_step(o, ev).action is Done ==> spec_step(o, ev).state is Stopped,
        (o.state matches LifecycleState::ShuttingDown { secondary_running: true, .. } && ev
            is PrimaryStopped) ==> !(spec_step(o, ev).action is Done),
        (o.state matches LifecycleState::ShuttingDown { primary_running: true, .. } && ev
            is SecondaryStopped) ==> !(spec_step(o, ev).action is Done),
{
}

} // verus!
