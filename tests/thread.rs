use green_thread::context::ThreadContext;
use green_thread::stack::{MIN_STACK_SIZE, STACK_ALIGN};
use green_thread::thread::GreenThread;

fn zero_context(c: &ThreadContext) -> bool {
    c.rsp == 0 && c.r15 == 0 && c.r14 == 0 && c.r13 == 0 && c.r12 == 0 && c.rbx == 0 && c.rbp == 0
}

#[test]
fn new_context_is_zero() {
    assert!(zero_context(&ThreadContext::new()));
}

#[test]
fn default_context_is_zero() {
    let c: ThreadContext = Default::default();
    assert!(zero_context(&c));
}

#[test]
fn set_stack_pointer_changes_only_rsp() {
    let mut c = ThreadContext { rsp: 1, r15: 2, r14: 3, r13: 4, r12: 5, rbx: 6, rbp: 7 };
    c.set_stack_pointer(0x4000);
    assert_eq!(c.rsp, 0x4000);
    assert_eq!((c.r15, c.r14, c.r13, c.r12, c.rbx, c.rbp), (2, 3, 4, 5, 6, 7));
}

#[test]
fn new_thread_is_zeroed() {
    let t = GreenThread::new(64);
    assert!(zero_context(t.context()));
    assert_eq!(t.stack().len(), 64);
    assert!(t.stack().as_slice().iter().all(|b| *b == 0));
}

#[test]
fn minimum_size_thread_is_laid_out_for_entry() {
    let mut t = GreenThread::new(MIN_STACK_SIZE as usize);
    let base: u64 = 0x7000_0008;
    let entry: u64 = 0x5555_5555_1234;
    t.prepare(base, entry);
    let sp = t.context().rsp;
    assert_eq!(sp, 0x7000_0020);
    assert_eq!(sp % STACK_ALIGN, 0);
    assert!(base <= sp && sp + 8 <= base + MIN_STACK_SIZE);
    assert_eq!(t.stack().word((sp - base) as usize), entry);
    assert_eq!((sp + 8 + 8) % STACK_ALIGN, 0);
    let c = t.context();
    assert_eq!((c.r15, c.r14, c.r13, c.r12, c.rbx, c.rbp), (0, 0, 0, 0, 0, 0));
}

#[test]
fn prepare_on_real_buffer_address() {
    let mut t = GreenThread::new(1024);
    let base = t.stack().as_slice().as_ptr() as u64;
    t.prepare(base, 99);
    let sp = t.context().rsp;
    assert_eq!(sp % 16, 0);
    assert_eq!(sp, ((base + 1024) & !15) - 16);
    assert_eq!(t.stack().word((sp - base) as usize), 99);
    assert_eq!(t.stack().as_slice().as_ptr() as u64, base);
}
