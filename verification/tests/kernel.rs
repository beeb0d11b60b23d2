use blog_os::double_fault_success_report;
use blog_os::gdt;
use blog_os::gdt::StackRegion;
use blog_os::gdt::DOUBLE_FAULT_IST_INDEX;
use blog_os::gdt::STACK_SIZE;
use blog_os::init;
use blog_os::interrupts;
use blog_os::interrupts::FaultDispatch;
use blog_os::interrupts::HandlerKind;
use blog_os::interrupts::Idt;
use blog_os::interrupts::BREAKPOINT_VECTOR;
use blog_os::interrupts::DOUBLE_FAULT_VECTOR;
use blog_os::interrupts::PIC_1_OFFSET;
use blog_os::interrupts::PIC_2_OFFSET;
use blog_os::QemuExitCode;

const STACK_BASE: usize = 0x0010_0000;

#[test]
fn init_reserves_double_fault_stack() {
    let k = init(STACK_BASE);
    assert!(k.gdt.is_loaded());
    assert!(k.idt.is_loaded());
    let region = k.gdt.stack(DOUBLE_FAULT_IST_INDEX).expect("double-fault stack reserved");
    assert_eq!(region, StackRegion { base: STACK_BASE, size: STACK_SIZE });
    assert_eq!(region.top(), STACK_BASE + STACK_SIZE);
    // No other slot is populated.
    for i in 0..gdt::IST_SLOTS {
        if i != DOUBLE_FAULT_IST_INDEX {
            assert!(k.gdt.stack(i).is_none());
        }
    }
}

#[test]
fn init_binds_breakpoint_and_double_fault() {
    let k = init(STACK_BASE);
    let bp = k.idt.entry(BREAKPOINT_VECTOR).expect("breakpoint bound");
    assert_eq!(bp.handler, HandlerKind::Breakpoint);
    assert_eq!(bp.stack_index, None);
    let df = k.idt.entry(DOUBLE_FAULT_VECTOR).expect("double fault bound");
    assert_eq!(df.handler, HandlerKind::DoubleFault);
    assert_eq!(df.stack_index, Some(DOUBLE_FAULT_IST_INDEX));
    assert!(k.interrupts_enabled);
}

#[test]
fn init_remaps_hardware_interrupts_and_masks_them() {
    let k = init(STACK_BASE);
    assert_eq!(k.pics.offset_primary, PIC_1_OFFSET);
    assert_eq!(k.pics.offset_secondary, PIC_2_OFFSET);
    assert!(k.pics.masked);
    assert!(PIC_1_OFFSET >= 32);
    assert!(PIC_2_OFFSET >= 32);
}

#[test]
fn dispatch_breakpoint_resumes_on_current_stack() {
    let k = init(STACK_BASE);
    let d = k.idt.dispatch(BREAKPOINT_VECTOR);
    assert_eq!(
        d,
        FaultDispatch::Handled { handler: HandlerKind::Breakpoint, stack_index: None }
    );
}

#[test]
fn dispatch_unbound_vector_is_unhandled() {
    let k = init(STACK_BASE);
    assert_eq!(k.idt.dispatch(100), FaultDispatch::Unhandled);
    assert_eq!(k.idt.dispatch(0), FaultDispatch::Unhandled);
}

#[test]
fn stack_overflow_scenario_recovers_once_and_exits_success() {
    // The fault-recovery scenario: a runaway recursion exhausts the normal
    // stack; delivering the resulting double fault must enter the bound
    // handler on the dedicated stack, not reset silently.
    let mut idt = Idt::new();
    idt.set_handler(DOUBLE_FAULT_VECTOR, HandlerKind::DoubleFault);
    idt.set_stack_index(DOUBLE_FAULT_VECTOR, DOUBLE_FAULT_IST_INDEX);
    idt.load();
    let gdt = gdt::init(STACK_BASE);

    let d = idt.dispatch(DOUBLE_FAULT_VECTOR);
    let expected = FaultDispatch::Handled {
        handler: HandlerKind::DoubleFault,
        stack_index: Some(DOUBLE_FAULT_IST_INDEX),
    };
    assert_eq!(d, expected);

    // The directive points at the reserved region, valid memory disjoint
    // from the exhausted stack.
    let region = gdt.stack(DOUBLE_FAULT_IST_INDEX).expect("recovery stack reserved");
    assert!(region.size > 0);
    assert_eq!(region.top(), STACK_BASE + STACK_SIZE);

    // The handler runs exactly once, reports over the secondary channel,
    // and signals success to the host.
    let (record, code) = double_fault_success_report();
    assert_eq!(record, "[ok]\n");
    assert_eq!(code, QemuExitCode::Success);
    assert_eq!(code.code(), 0x10);
}

#[test]
fn dispatch_reflects_interrupt_remap_policy() {
    // Vectors where remapped hardware lines land are unbound in this
    // minimal kernel: the dispatch policy leaves them to the default.
    let k = init(STACK_BASE);
    let line0 = interrupts::PIC_1_OFFSET as usize;
    assert_eq!(k.idt.dispatch(line0), FaultDispatch::Unhandled);
}
