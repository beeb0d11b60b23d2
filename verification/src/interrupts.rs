//! Fault dispatch table: the 256-slot exception/interrupt vector table, the
//! binding of the breakpoint and double-fault vectors, the stack-switch
//! directive that sends the double-fault handler onto the dedicated stack
//! reserved by the segment/stack table, and the remap of the legacy
//! interrupt controller away from the CPU exception range.

use vstd::prelude::*;
use crate::gdt;

verus! {

/// Vector of the debug breakpoint exception.
pub const BREAKPOINT_VECTOR: usize = 3;
/// Vector of the double fault exception.
pub const DOUBLE_FAULT_VECTOR: usize = 8;
/// Number of slots of the dispatch table.
pub const IDT_SLOTS: usize = 256;
/// Vector base of the primary legacy interrupt controller after remapping.
pub const PIC_1_OFFSET: u8 = 32;
/// Vector base of the secondary legacy interrupt controller after remapping.
pub const PIC_2_OFFSET: u8 = PIC_1_OFFSET + 8;

/// The handlers this kernel binds: the breakpoint handler logs and returns,
/// the double-fault handler never returns.
#[derive(Clone, Copy, Debug, PartialEq, Eq, Structural)]
pub enum HandlerKind {
    Breakpoint,
    DoubleFault,
}

/// A populated dispatch slot: the handler, and optionally the index of the
/// dedicated stack to switch to before the handler runs.
#[derive(Clone, Copy, Debug, PartialEq, Eq)]
pub struct IdtEntry {
    pub handler: HandlerKind,
    pub stack_index: Option<usize>,
}

/// Mathematical state of the dispatch table: its 256 slots and whether it
/// has been loaded into the processor.
#[verifier::ext_equal]
pub struct IdtView {
    pub entries: Seq<Option<IdtEntry>>,
    pub loaded: bool,
}

/// The fault dispatch table. Unloaded when built; loading makes it active
/// for the remainder of execution, with no further transitions, so slots can
/// only be bound before the load.
pub struct Idt {
    entries: Vec<Option<IdtEntry>>,
    loaded: bool,
}

impl View for Idt {
    type V = IdtView;

    closed spec fn view(&self) -> IdtView {
        IdtView { entries: self.entries@, loaded: self.loaded }
    }
}

impl Idt {
    /// All 256 slots are present.
    pub open spec fn wf(&self) -> bool {
        self@.entries.len() == IDT_SLOTS
    }

    /// A fresh table: every vector unbound, not yet loaded.
    pub fn new() -> (t: Idt)
        ensures
            t.wf(),
            !t@.loaded,
            forall|i: int| 0 <= i < IDT_SLOTS ==> t@.entries[i] is None,
    {
        let mut entries: Vec<Option<IdtEntry>> = Vec::new();
        let mut i: usize = 0;
        while i < IDT_SLOTS
            invariant
                i <= IDT_SLOTS,
                entries@.len() == i,
                forall|j: int| 0 <= j < i ==> entries@[j] is None,
            decreases IDT_SLOTS - i,
        {
            entries.push(None);
            i += 1;
        }
        Idt { entries, loaded: false }
    }

    /// Binds a vector to a handler, with no stack-switch directive.
    pub fn set_handler(&mut self, vector: usize, handler: HandlerKind)
        requires
            old(self).wf(),
            !old(self)@.loaded,
            vector < IDT_SLOTS,
        ensures
            final(self).wf(),
            !final(self)@.loaded,
            final(self)@.entries == old(self)@.entries.update(
                vector as int,
                Some(IdtEntry { handler, stack_index: None }),
            ),
    {
        self.entries[vector] = Some(IdtEntry { handler, stack_index: None });
    }

    /// Flags a bound vector to switch to a dedicated stack before its
    /// handler runs.
    pub fn set_stack_index(&mut self, vector: usize, index: usize)
        requires
            old(self).wf(),
            !old(self)@.loaded,
            vector < IDT_SLOTS,
            old(self)@.entries[vector as int] is Some,
            index < gdt::IST_SLOTS,
        ensures
            final(self).wf(),
            !final(self)@.loaded,
            final(self)@.entries == old(self)@.entries.update(
                vector as int,
                Some(
                    IdtEntry {
                        handler: old(self)@.entries[vector as int]->0.handler,
                        stack_index: Some(index),
                    },
                ),
            ),
    {
        let handler = match self.entries[vector] {
            Some(e) => e.handler,
            None => HandlerKind::Breakpoint,
        };
        self.entries[vector] = Some(IdtEntry { handler, stack_index: Some(index) });
    }

    /// Loads the table into the processor: its bindings become active and
    /// final.
    pub fn load(&mut self)
        requires
            old(self).wf(),
        ensures
            final(self).wf(),
            final(self)@.loaded,
            final(self)@.entries == old(self)@.entries,
    {
        self.loaded = true;
    }

    /// Whether the table has been loaded, as a value.
    pub fn is_loaded(&self) -> (b: bool)
        ensures
            b == self@.loaded,
    {
        self.loaded
    }

    /// The binding of a vector.
    pub fn entry(&self, vector: usize) -> (r: Option<IdtEntry>)
        requires
            self.wf(),
            vector < IDT_SLOTS,
        ensures
            r == self@.entries[vector as int],
    {
        self.entries[vector]
    }

    /// What the processor does when a vector fires on a loaded table: a
    /// bound vector enters its handler, switching to the flagged dedicated
    /// stack first; an unbound vector escalates and halts the machine.
    pub fn dispatch(&self, vector: usize) -> (d: FaultDispatch)
        requires
            self.wf(),
            self@.loaded,
            vector < IDT_SLOTS,
        ensures
            self@.entries[vector as int] matches Some(e) ==> d == (FaultDispatch::Handled {
                handler: e.handler,
                stack_index: e.stack_index,
            }),
            self@.entries[vector as int] is None ==> d is Unhandled,
    {
        match self.entry(vector) {
            Some(e) => FaultDispatch::Handled { handler: e.handler, stack_index: e.stack_index },
            None => FaultDispatch::Unhandled,
        }
    }
}

/// Outcome of delivering a fault vector.
#[derive(Clone, Copy, Debug, PartialEq, Eq)]
pub enum FaultDispatch {
    /// The bound handler runs; with a stack index, it runs on that dedicated
    /// stack instead of the possibly corrupted current one.
    Handled { handler: HandlerKind, stack_index: Option<usize> },
    /// No handler is bound: the fault escalates and the processor halts.
    Unhandled,
}

/// Builds and loads the kernel's dispatch table: the breakpoint vector bound
/// to the handler that logs and returns, the double-fault vector bound to
/// the non-returning handler and flagged to run on the dedicated stack of
/// the segment/stack table; every other vector left unbound.
pub fn init_itd() -> (t: Idt)
    ensures
        t.wf(),
        t@.loaded,
        t@.entries[BREAKPOINT_VECTOR as int] == Some(
            IdtEntry { handler: HandlerKind::Breakpoint, stack_index: None },
        ),
        t@.entries[DOUBLE_FAULT_VECTOR as int] == Some(
            IdtEntry {
                handler: HandlerKind::DoubleFault,
                stack_index: Some(gdt::DOUBLE_FAULT_IST_INDEX),
            },
        ),
        forall|i: int|
            0 <= i < IDT_SLOTS && i != BREAKPOINT_VECTOR && i != DOUBLE_FAULT_VECTOR
                ==> t@.entries[i] is None,
{
    let mut t = Idt::new();
    t.set_handler(BREAKPOINT_VECTOR, HandlerKind::Breakpoint);
    t.set_handler(DOUBLE_FAULT_VECTOR, HandlerKind::DoubleFault);
    t.set_stack_index(DOUBLE_FAULT_VECTOR, gdt::DOUBLE_FAULT_IST_INDEX);
    t.load();
    t
}

/// The legacy interrupt controller pair after reprogramming: both vector
/// bases moved past the CPU exception range, every line masked until
/// explicitly enabled.
#[derive(Clone, Copy, Debug, PartialEq, Eq)]
pub struct Pics {
    pub offset_primary: u8,
    pub offset_secondary: u8,
    pub masked: bool,
}

/// The vector that a hardware interrupt line raises after remapping.
pub open spec fn irq_vector(p: Pics, line: u8) -> int {
    if line < 8 {
        p.offset_primary + line
    } else {
        p.offset_secondary + (line - 8)
    }
}

/// Reprograms the legacy interrupt controllers' vector bases and leaves all
/// hardware interrupt lines masked.
pub fn init_pics() -> (p: Pics)
    ensures
        p.offset_primary == PIC_1_OFFSET,
        p.offset_secondary == PIC_2_OFFSET,
        p.masked,
{
    Pics { offset_primary: PIC_1_OFFSET, offset_secondary: PIC_2_OFFSET, masked: true }
}

/// After the remap, no hardware interrupt line collides with a CPU exception
/// vector: every remapped vector lies past the exception range and inside
/// the table.
pub proof fn lemma_remap_avoids_exceptions(p: Pics, line: u8)
    requires
        p.offset_primary == PIC_1_OFFSET,
        p.offset_secondary == PIC_2_OFFSET,
        line < 16,
    ensures
        32 <= irq_vector(p, line) < IDT_SLOTS,
{
}

} // verus!
