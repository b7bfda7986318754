//! The deferred-release region: a scope in which transient objects are
//! registered as they are created and released together when it is drained.

use vstd::prelude::*;

verus! {

/// What kind of object a registration stands for.
#[derive(Clone, Copy, Debug, PartialEq, Eq, Structural)]
pub enum ObjectKind {
    MenuBar,
    Menu,
    MenuItem,
    Window,
}

/// Why a registration was refused.
#[derive(Clone, Copy, Debug, PartialEq, Eq, Structural)]
pub enum RegionError {
    /// The region has been drained: nothing can be registered in it any more.
    Drained,
}

/// The state of a region as contracts see it.
pub ghost struct RegionState {
    /// The objects that are registered and not yet released. The handle of an
    /// object is its position here.
    pub registered: Seq<ObjectKind>,
    /// Whether the region has been drained.
    pub drained: bool,
}

impl RegionState {
    /// The state of a region that has just been opened.
    pub open spec fn opened() -> RegionState {
        RegionState { registered: Seq::empty(), drained: false }
    }

    /// A drained region holds no object.
    pub open spec fn wf(self) -> bool {
        self.drained ==> self.registered.len() == 0
    }

    /// Whether `handle` names an object that has not been released.
    pub open spec fn live(self, handle: int) -> bool {
        !self.drained && 0 <= handle < self.registered.len()
    }

    /// The state after an attempt to register an object of `kind`.
    pub open spec fn after_register(self, kind: ObjectKind) -> RegionState {
        if self.drained {
            self
        } else {
            RegionState { registered: self.registered.push(kind), drained: false }
        }
    }

    /// The objects that a drain releases, by handle.
    pub open spec fn released_by_drain(self) -> Seq<ObjectKind> {
        if self.drained {
            Seq::empty()
        } else {
            self.registered
        }
    }

    /// The state after a drain.
    pub open spec fn after_drain(self) -> RegionState {
        RegionState { registered: Seq::empty(), drained: true }
    }
}

/// A scope that owns the final release of the objects registered in it.
///
/// A handle is the position of its object among the registrations of the
/// region, so two objects of one region never share a handle.
pub struct ResourceRegion {
    objects: Vec<ObjectKind>,
    drained: bool,
}

impl View for ResourceRegion {
    type V = RegionState;

    closed spec fn view(&self) -> RegionState {
        RegionState {
            registered: if self.drained {
                Seq::empty()
            } else {
                self.objects@
            },
            drained: self.drained,
        }
    }
}

impl ResourceRegion {
    /// The state of every region is well formed.
    pub proof fn lemma_wf(&self)
        ensures
            self@.wf(),
    {
    }

    /// Opens an empty region.
    pub fn open() -> (region: ResourceRegion)
        ensures
            region@ == RegionState::opened(),
    {
        ResourceRegion { objects: Vec::new(), drained: false }
    }

    /// Registers a new object of the given kind and returns its handle. A
    /// drained region refuses and stays as it was.
    pub fn register(&mut self, kind: ObjectKind) -> (r: Result<usize, RegionError>)
        ensures
            final(self)@ == old(self)@.after_register(kind),
            match r {
                Ok(handle) => !old(self)@.drained && handle == old(self)@.registered.len(),
                Err(e) => old(self)@.drained && e == RegionError::Drained,
            },
    {
        if self.drained {
            return Err(RegionError::Drained);
        }
        let handle: usize = self.objects.len();
        self.objects.push(kind);
        Ok(handle)
    }

    /// Whether the region has been drained.
    pub fn is_drained(&self) -> (b: bool)
        ensures
            b == self@.drained,
    {
        self.drained
    }

    /// The number of objects that are registered and not yet released.
    pub fn len(&self) -> (n: usize)
        ensures
            n == self@.registered.len(),
    {
        if self.drained {
            0
        } else {
            self.objects.len()
        }
    }

    /// Whether `handle` names an object that has not been released.
    pub fn is_live(&self, handle: usize) -> (b: bool)
        ensures
            b == self@.live(handle as int),
    {
        !self.drained && handle < self.objects.len()
    }

    /// The kind of the object that `handle` names, if it is live.
    pub fn kind_of(&self, handle: usize) -> (k: Option<ObjectKind>)
        ensures
            k == (if self@.live(handle as int) {
                Some(self@.registered[handle as int])
            } else {
                None
            }),
    {
        if !self.drained && handle < self.objects.len() {
            Some(self.objects[handle])
        } else {
            None
        }
    }

    /// Releases every registered object and closes the region. The result
    /// holds the released objects by handle. Draining a drained region
    /// releases nothing and changes nothing.
    pub fn drain(&mut self) -> (released: Vec<ObjectKind>)
        ensures
            final(self)@ == old(self)@.after_drain(),
            released@ == old(self)@.released_by_drain(),
    {
        let mut released: Vec<ObjectKind> = Vec::new();
        if !self.drained {
            std::mem::swap(&mut self.objects, &mut released);
            self.drained = true;
        }
        released
    }
}

/// Every state that a region can reach is well formed, and no live handle
/// survives a drain.
pub proof fn lemma_region_steps_keep_wf(state: RegionState, kind: ObjectKind)
    requires
        state.wf(),
    ensures
        RegionState::opened().wf(),
        state.after_register(kind).wf(),
        state.after_drain().wf(),
        forall|handle: int| !state.after_drain().live(handle),
{
}

/// Over two drains in a row every registered object is released exactly once:
/// the first drain releases them all, each under its own handle, the second
/// releases nothing and leaves the region as the first left it.
pub proof fn lemma_drain_releases_once(state: RegionState)
    requires
        state.wf(),
        !state.drained,
    ensures
        state.released_by_drain() == state.registered,
        state.after_drain().released_by_drain() == Seq::<ObjectKind>::empty(),
        state.after_drain().after_drain() == state.after_drain(),
        state.released_by_drain() + state.after_drain().released_by_drain() == state.registered,
{
    assert(state.registered + Seq::<ObjectKind>::empty() =~= state.registered);
}

/// Draining a region that is already drained is a no-op.
pub proof fn lemma_drain_is_idempotent(state: RegionState)
    requires
        state.wf(),
        state.drained,
    ensures
        state.after_drain() == state,
        state.released_by_drain().len() == 0,
{
    assert(state.registered =~= Seq::<ObjectKind>::empty());
}

} // verus!
