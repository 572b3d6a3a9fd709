use vstd::prelude::*;

use crate::error::BackendError;

verus! {

/// The logical access state of a GPU resource.
#[derive(Debug, Clone, Copy, PartialEq, Eq, Structural)]
pub enum ResourceState {
    /// Ready to be handed to the presentation engine.
    Present,
    /// Bound as a render target.
    RenderTarget,
    /// Readable by the GPU from an upload heap (the vertex buffer's only state).
    GenericRead,
}

/// A declared state change of one resource.
#[derive(Debug, Clone, Copy, PartialEq, Eq, Structural)]
pub struct Barrier {
    pub resource: usize,
    pub before: ResourceState,
    pub after: ResourceState,
}

/// The tracked states after transitioning `resource` from `before` to
/// `after`, or `None` when `before` is not the recorded state.
pub open spec fn transition_spec(
    states: Seq<ResourceState>,
    resource: int,
    before: ResourceState,
    after: ResourceState,
) -> Option<Seq<ResourceState>> {
    if 0 <= resource < states.len() && states[resource] == before {
        Some(states.update(resource, after))
    } else {
        None
    }
}

/// Records the one current logical state of every registered resource.
/// Resources are identified by the order in which they were registered.
pub struct ResourceStateTracker {
    states: Vec<ResourceState>,
}

impl View for ResourceStateTracker {
    type V = Seq<ResourceState>;

    closed spec fn view(&self) -> Seq<ResourceState> {
        self.states@
    }
}

impl ResourceStateTracker {
    /// A tracker that knows no resource.
    pub fn new() -> (r: Self)
        ensures
            r@ == Seq::<ResourceState>::empty(),
    {
        ResourceStateTracker { states: Vec::new() }
    }

    /// Registers a resource in its initial state and returns its identifier.
    pub fn register(&mut self, initial: ResourceState) -> (id: usize)
        requires
            old(self)@.len() < usize::MAX,
        ensures
            id == old(self)@.len(),
            final(self)@ == old(self)@.push(initial),
    {
        let id = self.states.len();
        self.states.push(initial);
        id
    }

    /// The number of registered resources.
    pub fn len(&self) -> (n: usize)
        ensures
            n == self@.len(),
    {
        self.states.len()
    }

    /// The recorded state of `resource`, if it is registered.
    pub fn state_of(&self, resource: usize) -> (r: Option<ResourceState>)
        ensures
            r == (if resource < self@.len() {
                Some(self@[resource as int])
            } else {
                None
            }),
    {
        if resource < self.states.len() {
            Some(self.states[resource])
        } else {
            None
        }
    }

    /// Declares that `resource` moves from `before` to `after`. The barrier is
    /// accepted only when `before` is the state last recorded for it;
    /// otherwise nothing changes and the transition is rejected.
    pub fn transition(
        &mut self,
        resource: usize,
        before: ResourceState,
        after: ResourceState,
    ) -> (r: Result<Barrier, BackendError>)
        requires
            resource < old(self)@.len(),
        ensures
            transition_spec(old(self)@, resource as int, before, after) matches Some(s) ==> {
                &&& r == Ok::<Barrier, BackendError>(Barrier { resource, before, after })
                &&& final(self)@ == s
            },
            transition_spec(old(self)@, resource as int, before, after) is None ==> {
                &&& r == Err::<Barrier, BackendError>(
                    BackendError::InvalidTransition {
                        resource,
                        recorded: old(self)@[resource as int],
                        claimed: before,
                    },
                )
                &&& final(self)@ == old(self)@
            },
    {
        let recorded = self.states[resource];
        if recorded == before {
            self.states.set(resource, after);
            Ok(Barrier { resource, before, after })
        } else {
            Err(BackendError::InvalidTransition { resource, recorded, claimed: before })
        }
    }
}

/// A transition followed at once by its reverse leaves the recorded state
/// of the resource (and of every other resource) as it was.
pub proof fn lemma_transition_round_trip(
    states: Seq<ResourceState>,
    resource: int,
    a: ResourceState,
    b: ResourceState,
)
    requires
        0 <= resource < states.len(),
        states[resource] == a,
    ensures
        transition_spec(states, resource, a, b) matches Some(mid) && transition_spec(
            mid,
            resource,
            b,
            a,
        ) == Some(states),
{
    let mid = states.update(resource, b);
    assert(mid.update(resource, a) =~= states);
}

/// A transition whose claimed prior state differs from the recorded one is
/// rejected.
pub proof fn lemma_stale_transition_rejected(
    states: Seq<ResourceState>,
    resource: int,
    claimed: ResourceState,
    after: ResourceState,
)
    requires
        0 <= resource < states.len(),
        states[resource] != claimed,
    ensures
        transition_spec(states, resource, claimed, after) is None,
{
}

} // verus!
