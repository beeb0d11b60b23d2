//! Core logic of a minimal single-core kernel runtime: the interrupt-safe
//! text console with its panic-mode path, the color packing for the
//! memory-mapped text grid, the segment/stack table and fault dispatch
//! models that make double-fault recovery possible, and the headless
//! test-execution protocol with its exit signalling.
//!
//! Everything hardware-facing (the memory-mapped grid itself, port writes,
//! privileged instructions, the interrupt-masking lock) lives outside this
//! library; the library owns the state, the decisions and the invariants.

use vstd::prelude::*;
use vstd::std_specs::convert::IntoSpec;
use vstd::string::StringExecFns;

pub mod gdt;
pub mod interrupts;
pub mod vga_buffer;

verus! {

/// The code written to the host's exit port: a fixed numeric encoding per
/// outcome, written once; no further kernel code runs after the write
/// reaches the host.
#[derive(Clone, Copy, Debug, PartialEq, Eq, Structural)]
pub enum QemuExitCode {
    Success,
    Failure,
}

impl QemuExitCode {
    /// The fixed numeric encoding of the outcome.
    pub open spec fn code_spec(self) -> u32 {
        match self {
            QemuExitCode::Success => 0x10,
            QemuExitCode::Failure => 0x11,
        }
    }

    /// The 4-byte value the exit protocol writes to the exit port.
    pub fn code(self) -> (c: u32)
        ensures
            c == self.code_spec(),
    {
        match self {
            QemuExitCode::Success => 0x10,
            QemuExitCode::Failure => 0x11,
        }
    }
}

impl From<()> for QemuExitCode {
    /// A routine that returned nothing has succeeded.
    fn from(v: ()) -> (r: QemuExitCode) {
        QemuExitCode::Success
    }
}

impl vstd::std_specs::convert::FromSpecImpl<()> for QemuExitCode {
    open spec fn obeys_from_spec() -> bool {
        true
    }

    open spec fn from_spec(v: ()) -> QemuExitCode {
        QemuExitCode::Success
    }
}

impl<T: Into<QemuExitCode>> From<Option<T>> for QemuExitCode {
    /// An absent outcome counts as a failure; a present one speaks for
    /// itself.
    fn from(opt: Option<T>) -> (r: QemuExitCode) {
        match opt {
            Some(inner) => inner.into(),
            None => QemuExitCode::Failure,
        }
    }
}

impl<T: Into<QemuExitCode>> vstd::std_specs::convert::FromSpecImpl<Option<T>> for QemuExitCode {
    open spec fn obeys_from_spec() -> bool {
        <T as vstd::std_specs::convert::IntoSpec<QemuExitCode>>::obeys_into_spec()
    }

    open spec fn from_spec(opt: Option<T>) -> QemuExitCode {
        match opt {
            Some(inner) => inner.into_spec(),
            None => QemuExitCode::Failure,
        }
    }
}

impl<T: Into<QemuExitCode>, E: core::fmt::Debug> From<Result<T, E>> for QemuExitCode {
    /// A routine that returned an error has failed; the error itself is
    /// left to the reporting path.
    fn from(res: Result<T, E>) -> (r: QemuExitCode) {
        match res {
            Ok(inner) => inner.into(),
            Err(_) => QemuExitCode::Failure,
        }
    }
}

impl<T: Into<QemuExitCode>, E: core::fmt::Debug> vstd::std_specs::convert::FromSpecImpl<Result<T, E>> for QemuExitCode {
    open spec fn obeys_from_spec() -> bool {
        <T as IntoSpec<QemuExitCode>>::obeys_into_spec()
    }

    open spec fn from_spec(res: Result<T, E>) -> QemuExitCode {
        match res {
            Ok(inner) => inner.into_spec(),
            Err(_) => QemuExitCode::Failure,
        }
    }
}

/// A no-argument test routine. The embedding implements this for its test
/// functions and runs them; the harness logic here works on the recorded
/// outcomes.
pub trait Testable {
    fn run(&self);
}

/// The record the harness emits over the secondary channel before a test
/// runs: the test's name and the separator.
pub open spec fn start_record(name: Seq<char>) -> Seq<char> {
    name + "...\t"@
}

/// The record emitted after a test returns normally.
pub open spec fn ok_record() -> Seq<char> {
    "[ok]\n"@
}

/// The record the panic path emits: the failure marker and the description.
pub open spec fn failure_record(error: Seq<char>) -> Seq<char> {
    "[failed]\n"@ + "Error: "@ + error + "\n\n"@
}

/// How running a test routine ended: it returned normally, or it signalled
/// an unrecoverable condition with a description.
pub enum TestOutcome {
    Passed,
    Panicked(String),
}

impl TestOutcome {
    /// The failure description, when the routine panicked.
    pub open spec fn failure(&self) -> Option<Seq<char>> {
        match self {
            TestOutcome::Passed => None,
            TestOutcome::Panicked(e) => Some(e@),
        }
    }
}

/// One entry of a test suite: the routine's name and how running it ended.
pub struct TestCase {
    pub name: String,
    pub outcome: TestOutcome,
}

/// Everything the suite sends over the secondary channel: a start record
/// per test in order, the ok record after each normal return, and for the
/// first panicking test the failure record, after which the run is
/// abandoned.
pub open spec fn transcript_spec(cases: Seq<TestCase>) -> Seq<char>
    decreases cases.len(),
{
    if cases.len() == 0 {
        Seq::empty()
    } else {
        start_record(cases[0].name@) + match cases[0].outcome.failure() {
            None => ok_record() + transcript_spec(cases.drop_first()),
            Some(e) => failure_record(e),
        }
    }
}

/// Every routine of the suite returned normally.
pub open spec fn suite_passes(cases: Seq<TestCase>) -> bool {
    forall|i: int| 0 <= i < cases.len() ==> (#[trigger] cases[i].outcome) is Passed
}

/// The process-wide panic path in test mode: emits the failure record for
/// the panic's description and signals failure to the host. In the kernel
/// this path never returns; the harness loop is abandoned.
pub fn test_panic_handler(error: &str) -> (r: (String, QemuExitCode))
    ensures
        r.0@ == failure_record(error@),
        r.1 == QemuExitCode::Failure,
{
    let mut s = String::from_str("[failed]\n");
    s.append("Error: ");
    s.append(error);
    s.append("\n\n");
    (s, QemuExitCode::Failure)
}

/// The test harness over a suite whose outcomes the embedding has recorded:
/// emits the start record for each routine in turn, the ok record when it
/// returned, and on the first panic the failure record, dropping the rest of
/// the suite; the exit code is Success exactly when every routine returned.
/// The embedding performs the port write and the final halt.
pub fn test_runner(cases: &Vec<TestCase>) -> (r: (String, QemuExitCode))
    ensures
        r.0@ == transcript_spec(cases@),
        r.1 == (if suite_passes(cases@) {
            QemuExitCode::Success
        } else {
            QemuExitCode::Failure
        }),
{
    let mut s = String::new();
    let mut k: usize = 0;
    proof {
        assert(cases@.skip(0) =~= cases@);
        assert(s@ + transcript_spec(cases@) =~= transcript_spec(cases@));
    }
    while k < cases.len()
        invariant
            k <= cases@.len(),
            forall|j: int| 0 <= j < k ==> (#[trigger] cases@[j].outcome) is Passed,
            s@ + transcript_spec(cases@.skip(k as int)) == transcript_spec(cases@),
        decreases cases@.len() - k,
    {
        let case = &cases[k];
        proof {
            assert(cases@.skip(k as int)[0] == cases@[k as int]);
            assert(cases@.skip(k as int).drop_first() =~= cases@.skip(k as int + 1));
        }
        s.append(case.name.as_str());
        s.append("...\t");
        match &case.outcome {
            TestOutcome::Passed => {
                s.append("[ok]\n");
            },
            TestOutcome::Panicked(e) => {
                let f = test_panic_handler(e.as_str());
                s.append(f.0.as_str());
                proof {
                    assert(s@ =~= transcript_spec(cases@));
                }
                return (s, QemuExitCode::Failure);
            },
        }
        k += 1;
    }
    proof {
        assert(cases@.skip(cases@.len() as int) =~= Seq::<TestCase>::empty());
        assert(s@ =~= transcript_spec(cases@));
    }
    (s, QemuExitCode::Success)
}

/// The double-fault report of a fault-recovery scenario: the handler,
/// entered once on the dedicated stack instead of a silent processor reset,
/// reports success over the secondary channel and signals the host to exit.
pub fn double_fault_success_report() -> (r: (String, QemuExitCode))
    ensures
        r.0@ == ok_record(),
        r.1 == QemuExitCode::Success,
{
    (String::from_str("[ok]\n"), QemuExitCode::Success)
}

/// The machine state established once at kernel startup and never torn
/// down.
pub struct Kernel {
    pub gdt: gdt::Gdt,
    pub idt: interrupts::Idt,
    pub pics: interrupts::Pics,
    pub interrupts_enabled: bool,
}

/// Kernel initialization: build and load the segment/stack table, then the
/// fault dispatch table that references its dedicated stack, remap the
/// legacy interrupt controller, and finally enable hardware interrupts.
/// The embedding supplies the base address of the statically reserved
/// recovery stack.
pub fn init(double_fault_stack_base: usize) -> (k: Kernel)
    requires
        double_fault_stack_base + gdt::STACK_SIZE <= usize::MAX,
    ensures
        k.gdt.wf(),
        k.gdt.loaded(),
        k.gdt.tss_view()[gdt::DOUBLE_FAULT_IST_INDEX as int] == Some(
            gdt::StackRegion { base: double_fault_stack_base, size: gdt::STACK_SIZE },
        ),
        k.idt.wf(),
        k.idt@.loaded,
        k.idt@.entries[interrupts::BREAKPOINT_VECTOR as int] == Some(
            interrupts::IdtEntry { handler: interrupts::HandlerKind::Breakpoint, stack_index: None },
        ),
        k.idt@.entries[interrupts::DOUBLE_FAULT_VECTOR as int] == Some(
            interrupts::IdtEntry {
                handler: interrupts::HandlerKind::DoubleFault,
                stack_index: Some(gdt::DOUBLE_FAULT_IST_INDEX),
            },
        ),
        k.pics == (interrupts::Pics {
            offset_primary: interrupts::PIC_1_OFFSET,
            offset_secondary: interrupts::PIC_2_OFFSET,
            masked: true,
        }),
        k.interrupts_enabled,
{
    let g = gdt::init(double_fault_stack_base);
    let t = interrupts::init_itd();
    let p = interrupts::init_pics();
    Kernel { gdt: g, idt: t, pics: p, interrupts_enabled: true }
}

} // verus!
