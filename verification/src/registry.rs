//! The node-identity-keyed service registry: it maps a node identity to the
//! service binding configured for it, accepts each identity exactly once,
//! and never overwrites an existing binding.

use vstd::prelude::*;

use crate::errors::RegistryError;
use crate::services::ServiceBinding;
use crate::services::ServiceBindingV;

verus! {

/// The opaque token identifying one running node of the cluster, assigned
/// by the primary server at startup.
#[derive(Clone, Copy, Debug, PartialEq, Eq, Structural)]
pub struct NodeIdentity {
    pub raw: u64,
}

/// The registry of service bindings, keyed by node identity. Its value is
/// the map from identity to binding.
pub struct ServiceRegistry {
    entries: Vec<(u64, ServiceBinding)>,
}

/// The map a sequence of registry entries denotes; a later entry for the
/// same key would win, though the registry never creates one.
pub open spec fn entries_map(s: Seq<(u64, ServiceBinding)>) -> Map<u64, ServiceBindingV>
    decreases s.len(),
{
    if s.len() == 0 {
        Map::empty()
    } else {
        entries_map(s.drop_last()).insert(s.last().0, s.last().1@)
    }
}

/// No two entries share a key.
pub open spec fn entries_unique(s: Seq<(u64, ServiceBinding)>) -> bool {
    forall|i: int, j: int| 0 <= i < j < s.len() ==> (#[trigger] s[i]).0 != (#[trigger] s[j]).0
}

/// An entry's key is in the denoted map, and when keys are unique the map
/// holds that entry's binding.
proof fn lemma_entries_map_get(s: Seq<(u64, ServiceBinding)>, j: int)
    requires
        0 <= j < s.len(),
        entries_unique(s),
    ensures
        entries_map(s).contains_key(s[j].0),
        entries_map(s)[s[j].0] == s[j].1@,
    decreases s.len(),
{
    if j < s.len() - 1 {
        assert(s.drop_last()[j] == s[j]);
        lemma_entries_map_get(s.drop_last(), j);
    }
}

/// A key held by no entry is not in the denoted map.
proof fn lemma_entries_map_absent(s: Seq<(u64, ServiceBinding)>, k: u64)
    requires
        forall|j: int| 0 <= j < s.len() ==> (#[trigger] s[j]).0 != k,
    ensures
        !entries_map(s).contains_key(k),
    decreases s.len(),
{
    if s.len() > 0 {
        lemma_entries_map_absent(s.drop_last(), k);
    }
}

impl View for ServiceRegistry {
    type V = Map<u64, ServiceBindingV>;

    closed spec fn view(&self) -> Map<u64, ServiceBindingV> {
        entries_map(self.entries@)
    }
}

impl ServiceRegistry {
    /// The entries never share a key.
    pub closed spec fn wf(&self) -> bool {
        entries_unique(self.entries@)
    }

    /// An empty registry: no identity has a binding.
    pub fn new() -> (r: Self)
        ensures
            r@ == Map::<u64, ServiceBindingV>::empty(),
            r.wf(),
    {
        let entries: Vec<(u64, ServiceBinding)> = Vec::new();
        proof {
            assert(entries_map(entries@) == Map::<u64, ServiceBindingV>::empty());
        }
        ServiceRegistry { entries }
    }

    /// The binding registered for `id`, if any. `None` is an expected
    /// state: a node may deliberately have no vote service configured.
    pub fn lookup(&self, id: &NodeIdentity) -> (r: Option<&ServiceBinding>)
        requires
            self.wf(),
        ensures
            match r {
                Some(b) => self@.contains_key(id.raw) && self@[id.raw] == b@,
                None => !self@.contains_key(id.raw),
            },
    {
        let n = self.entries.len();
        let mut i: usize = 0;
        while i < n
            invariant
                0 <= i <= n,
                n == self.entries@.len(),
                entries_unique(self.entries@),
                self@ == entries_map(self.entries@),
                forall|j: int| 0 <= j < i ==> (#[trigger] self.entries@[j]).0 != id.raw,
            decreases n - i,
        {
            if self.entries[i].0 == id.raw {
                proof {
                    lemma_entries_map_get(self.entries@, i as int);
                }
                return Some(&self.entries[i].1);
            }
            i = i + 1;
        }
        proof {
            lemma_entries_map_absent(self.entries@, id.raw);
        }
        None
    }

    /// Register the binding for `id`, exactly once: when a binding for the
    /// same identity already exists, the call fails with
    /// `AlreadyConfigured` and the registry is left unchanged.
    pub fn configure(&mut self, id: &NodeIdentity, binding: ServiceBinding) -> (r: Result<
        (),
        RegistryError,
    >)
        requires
            old(self).wf(),
        ensures
            final(self).wf(),
            old(self)@.contains_key(id.raw) ==> {
                &&& r == Err::<(), RegistryError>(RegistryError::AlreadyConfigured)
                &&& final(self)@ == old(self)@
            },
            !old(self)@.contains_key(id.raw) ==> {
                &&& r == Ok::<(), RegistryError>(())
                &&& final(self)@ == old(self)@.insert(id.raw, binding@)
            },
    {
        match self.lookup(id) {
            Some(_) => Err(RegistryError::AlreadyConfigured),
            None => {
                proof {
                    assert forall|j: int| 0 <= j < self.entries@.len() implies (
                    #[trigger] self.entries@[j]).0 != id.raw by {
                        if self.entries@[j].0 == id.raw {
                            lemma_entries_map_get(self.entries@, j);
                        }
                    }
                }
                let ghost before = self.entries@;
                self.entries.push((id.raw, binding));
                proof {
                    assert(self.entries@.drop_last() == before);
                    assert(entries_map(self.entries@) == entries_map(before).insert(
                        id.raw,
                        self.entries@.last().1@,
                    ));
                }
                Ok(())
            },
        }
    }
}

/// The configure-once law. Before any registration an identity has no
/// binding, so `lookup` returns `None` for it; once a binding is
/// registered the identity holds it, so by the contract of `configure` a
/// second registration for the same identity must return
/// `AlreadyConfigured` and leave the first binding in place.
pub proof fn lemma_configure_once(m0: Map<u64, ServiceBindingV>, id: u64, b1: ServiceBindingV)
    requires
        !m0.contains_key(id),
    ensures
        !Map::<u64, ServiceBindingV>::empty().contains_key(id),
        m0.insert(id, b1).contains_key(id),
        m0.insert(id, b1)[id] == b1,
{
}

} // verus!
