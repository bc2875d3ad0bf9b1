//! Selection of the persistence backend: the deployment chooses a strategy
//! once, and the selector turns it — together with the root-URL override
//! from the environment — into the service binding registered for the
//! node. The selector itself is stateless; registering the binding exactly
//! once is the registry's business.

use vstd::prelude::*;

use crate::config::EnvSnapshot;
use crate::config::EnvSnapshotV;

verus! {

/// The persistence strategy behind the vote services, chosen per
/// deployment: a durable relational store, or an ephemeral in-memory one.
#[derive(Clone, Copy, Debug, PartialEq, Eq, Structural)]
pub enum Strategy {
    /// Relational store with a schema scoped to the node identity.
    Durable,
    /// In-memory store over the running application interface.
    Ephemeral,
}

/// The pair of capabilities bound for one node identity: a vote service
/// and a vote-URL service, both backed by the same strategy, the latter
/// seeded with its root URL. Created once at startup and never mutated.
#[derive(Clone, Debug)]
pub struct ServiceBinding {
    pub strategy: Strategy,
    pub root_url: String,
}

/// Mathematical value of a [`ServiceBinding`].
pub ghost struct ServiceBindingV {
    pub strategy: Strategy,
    pub root_url: Seq<char>,
}

impl View for ServiceBinding {
    type V = ServiceBindingV;

    open spec fn view(&self) -> ServiceBindingV {
        ServiceBindingV { strategy: self.strategy, root_url: self.root_url@ }
    }
}

/// The root URL the vote-URL service is seeded with: the environment
/// override when it is present and non-empty, else the compiled default.
pub open spec fn spec_root_url(env: EnvSnapshotV) -> Seq<char> {
    match env.tvs_root_url {
        Some(u) => if u.len() > 0 {
            u
        } else {
            "http://localhost:8081/vote"@
        },
        None => "http://localhost:8081/vote"@,
    }
}

/// Resolve the root URL of the vote-URL service from the environment
/// snapshot. The value is fixed at bind time and not re-read afterwards.
pub fn resolve_root_url(env: &EnvSnapshot) -> (r: String)
    ensures
        r@ == spec_root_url(env@),
{
    match &env.tvs_root_url {
        Some(u) => {
            if u.as_str().is_empty() {
                "http://localhost:8081/vote".to_owned()
            } else {
                u.clone()
            }
        },
        None => "http://localhost:8081/vote".to_owned(),
    }
}

/// The binding a strategy and an environment snapshot denote.
pub open spec fn spec_plan_binding(strategy: Strategy, env: EnvSnapshotV) -> ServiceBindingV {
    ServiceBindingV { strategy, root_url: spec_root_url(env) }
}

/// Plan the service binding for one node: the chosen strategy, and the
/// root URL resolved once from the environment. Idempotent: calling it
/// again with the same inputs plans the same binding.
pub fn plan_binding(strategy: Strategy, env: &EnvSnapshot) -> (r: ServiceBinding)
    ensures
        r@ == spec_plan_binding(strategy, env@),
{
    ServiceBinding { strategy, root_url: resolve_root_url(env) }
}

} // verus!
