//! Segment/stack table: the processor's segment descriptor table with its
//! task-state structure, which reserves dedicated memory regions as
//! alternate stacks for specific fault vectors. The double-fault entry of
//! the dispatch table references a stack here by index, so this table is
//! built and loaded first.

use vstd::prelude::*;

verus! {

/// Index of the dedicated double-fault stack in the interrupt stack table.
pub const DOUBLE_FAULT_IST_INDEX: usize = 0;
/// Number of slots of the interrupt stack table.
pub const IST_SLOTS: usize = 7;
/// Size in bytes of the dedicated fault-recovery stack.
pub const STACK_SIZE: usize = 4096 * 5;

/// A statically reserved memory region used exclusively as an alternate
/// stack for a fault handler.
#[derive(Clone, Copy, Debug, PartialEq, Eq, Structural)]
pub struct StackRegion {
    pub base: usize,
    pub size: usize,
}

impl StackRegion {
    /// A usable region: non-empty, addressable up to its top.
    pub open spec fn wf(self) -> bool {
        0 < self.size && self.base + self.size <= usize::MAX
    }

    /// The top address of the region; the stack grows downward from it.
    pub open spec fn top_spec(self) -> int {
        self.base + self.size
    }

    /// The top address recorded in the task-state structure.
    pub fn top(self) -> (t: usize)
        requires
            self.wf(),
        ensures
            t == self.top_spec(),
    {
        self.base + self.size
    }
}

/// The task-state structure: a fixed table of optional dedicated stacks,
/// referenced by index from fault dispatch entries.
pub struct TaskStateTable {
    ist: Vec<Option<StackRegion>>,
}

impl View for TaskStateTable {
    type V = Seq<Option<StackRegion>>;

    closed spec fn view(&self) -> Seq<Option<StackRegion>> {
        self.ist@
    }
}

impl TaskStateTable {
    /// All slots present, every reserved region usable.
    pub open spec fn wf(&self) -> bool {
        &&& self@.len() == IST_SLOTS
        &&& forall|i: int|
            0 <= i < IST_SLOTS ==> (#[trigger] self@[i] matches Some(r) ==> r.wf())
    }

    /// An empty table: no dedicated stacks reserved.
    pub fn new() -> (t: TaskStateTable)
        ensures
            t.wf(),
            forall|i: int| 0 <= i < IST_SLOTS ==> t@[i] is None,
    {
        let mut ist: Vec<Option<StackRegion>> = Vec::new();
        let mut i: usize = 0;
        while i < IST_SLOTS
            invariant
                i <= IST_SLOTS,
                ist@.len() == i,
                forall|j: int| 0 <= j < i ==> ist@[j] is None,
            decreases IST_SLOTS - i,
        {
            ist.push(None);
            i += 1;
        }
        TaskStateTable { ist }
    }

    /// Records a dedicated stack at a slot.
    pub fn set_stack(&mut self, index: usize, region: StackRegion)
        requires
            old(self).wf(),
            index < IST_SLOTS,
            region.wf(),
        ensures
            final(self).wf(),
            final(self)@ == old(self)@.update(index as int, Some(region)),
    {
        self.ist[index] = Some(region);
    }

    /// The stack recorded at a slot.
    pub fn stack(&self, index: usize) -> (r: Option<StackRegion>)
        requires
            self.wf(),
            index < IST_SLOTS,
        ensures
            r == self@[index as int],
    {
        self.ist[index]
    }
}

/// The segment descriptor table together with its task-state structure, and
/// whether it has been loaded into the processor. Loading is one-way: once
/// loaded the table stays active for the rest of execution.
pub struct Gdt {
    tss: TaskStateTable,
    loaded: bool,
}

impl Gdt {
    /// The interrupt stack table held by the task-state structure.
    pub closed spec fn tss_view(&self) -> Seq<Option<StackRegion>> {
        self.tss@
    }

    /// Whether the table has been loaded into the processor.
    pub closed spec fn loaded(&self) -> bool {
        self.loaded
    }

    /// The table is complete and its reserved regions are usable.
    pub open spec fn wf(&self) -> bool {
        &&& self.tss_view().len() == IST_SLOTS
        &&& forall|i: int|
            0 <= i < IST_SLOTS ==> (#[trigger] self.tss_view()[i] matches Some(r) ==> r.wf())
    }

    /// Whether the table has been loaded, as a value.
    pub fn is_loaded(&self) -> (b: bool)
        ensures
            b == self.loaded(),
    {
        self.loaded
    }

    /// The stack recorded at a slot of the interrupt stack table.
    pub fn stack(&self, index: usize) -> (r: Option<StackRegion>)
        requires
            self.wf(),
            index < IST_SLOTS,
        ensures
            r == self.tss_view()[index as int],
    {
        self.tss.stack(index)
    }
}

/// Builds and loads the segment/stack table, once, at startup: a code
/// segment, and a task-state structure whose double-fault slot records the
/// dedicated recovery stack. Construction is infallible. The embedding
/// supplies the base address of the statically reserved stack memory.
pub fn init(stack_base: usize) -> (g: Gdt)
    requires
        stack_base + STACK_SIZE <= usize::MAX,
    ensures
        g.wf(),
        g.loaded(),
        g.tss_view()[DOUBLE_FAULT_IST_INDEX as int] == Some(
            StackRegion { base: stack_base, size: STACK_SIZE },
        ),
        forall|i: int|
            0 <= i < IST_SLOTS && i != DOUBLE_FAULT_IST_INDEX ==> g.tss_view()[i] is None,
{
    let mut tss = TaskStateTable::new();
    tss.set_stack(DOUBLE_FAULT_IST_INDEX, StackRegion { base: stack_base, size: STACK_SIZE });
    Gdt { tss, loaded: true }
}

} // verus!
