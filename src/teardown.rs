//! Reverse-of-creation destruction of device-level objects.

use vstd::prelude::*;

verus! {

/// The kinds of object the application creates and must destroy.
#[derive(Clone, Copy, Debug, PartialEq, Eq, Structural)]
pub enum ResourceKind {
    Instance,
    DebugMessenger,
    Surface,
    Device,
    RenderPass,
    DescriptorSetLayout,
    PipelineLayout,
    Pipeline,
    CommandPool,
    Buffer,
    DeviceMemory,
    DescriptorPool,
    Semaphore,
    Fence,
}

/// One created object: its kind and raw handle.
#[derive(Clone, Copy, Debug, PartialEq, Eq, Structural)]
pub struct Resource {
    pub kind: ResourceKind,
    pub handle: u64,
}

/// Objects in the order they were created; destroyed in the reverse order.
pub struct TeardownList {
    created: Vec<Resource>,
}

impl View for TeardownList {
    type V = Seq<Resource>;

    closed spec fn view(&self) -> Seq<Resource> {
        self.created@
    }
}

impl TeardownList {
    pub fn new() -> (r: Self)
        ensures
            r@ == Seq::<Resource>::empty(),
    {
        TeardownList { created: Vec::new() }
    }

    /// Notes that `resource` was just created.
    pub fn record(&mut self, resource: Resource)
        ensures
            final(self)@ == old(self)@.push(resource),
    {
        self.created.push(resource);
    }

    pub fn len(&self) -> (r: usize)
        ensures
            r == self@.len(),
    {
        self.created.len()
    }

    /// Every recorded object, the last created first.
    pub fn teardown_order(&self) -> (r: Vec<Resource>)
        ensures
            r@ == self@.reverse(),
    {
        let mut out: Vec<Resource> = Vec::new();
        let mut i: usize = self.created.len();
        while i > 0
            invariant
                i <= self.created@.len(),
                out@ == self.created@.subrange(i as int, self.created@.len() as int).reverse(),
            decreases i,
        {
            i = i - 1;
            out.push(self.created[i]);
            assert(out@ =~= self.created@.subrange(i as int, self.created@.len() as int).reverse());
        }
        assert(self.created@.subrange(0, self.created@.len() as int) =~= self.created@);
        out
    }
}

} // verus!
