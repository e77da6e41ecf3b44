//! Setting up a new execution context: its stack, laid out so that the first
//! switch into it enters the entry function, and its register record.
use vstd::prelude::*;
use crate::context::ThreadContext;
use crate::machine::{Processor, switch_one_way};
use crate::stack::{
    StackRegion, entry_slot, word_at, MIN_STACK_SIZE, STACK_ALIGN, WORD_SIZE,
};

verus! {

/// A green thread's own state: its register record and the stack it runs on.
pub struct GreenThread {
    context: ThreadContext,
    stack: StackRegion,
}

impl GreenThread {
    /// The register record.
    pub closed spec fn ctx(self) -> ThreadContext {
        self.context
    }

    /// The bytes of the stack.
    pub closed spec fn stack_bytes(self) -> Seq<u8> {
        self.stack@
    }

    /// The stack has at least the supported minimum size.
    pub open spec fn wf(self) -> bool {
        self.stack_bytes().len() >= MIN_STACK_SIZE
    }

    /// With the stack at address `base`, the stack pointer lies inside the
    /// stack, on the alignment boundary, and points at the word `entry`.
    pub open spec fn ready(self, base: int, entry: u64) -> bool {
        let sp = self.ctx().rsp as int;
        &&& base <= sp
        &&& sp + WORD_SIZE <= base + self.stack_bytes().len()
        &&& sp % (STACK_ALIGN as int) == 0
        &&& word_at(self.stack_bytes(), sp - base) == entry
    }

    /// A thread with a zeroed register record and a zero-filled stack of `size`
    /// bytes. A size below `MIN_STACK_SIZE` is not supported.
    pub fn new(size: usize) -> (r: GreenThread)
        requires
            size >= MIN_STACK_SIZE,
        ensures
            r.wf(),
            r.ctx() == ThreadContext::zeroed(),
            r.stack_bytes().len() == size,
            forall|i: int| 0 <= i < size ==> r.stack_bytes()[i] == 0u8,
    {
        GreenThread { context: ThreadContext::new(), stack: StackRegion::allocate(size) }
    }

    /// The register record, to hand to the switch.
    pub fn context(&self) -> (r: &ThreadContext)
        ensures
            *r == self.ctx(),
    {
        &self.context
    }

    /// The stack, whose start address the caller passes to `prepare`.
    pub fn stack(&self) -> (r: &StackRegion)
        ensures
            r@ == self.stack_bytes(),
    {
        &self.stack
    }

    /// Makes the thread ready to be entered: with the stack at address `base`,
    /// writes `entry` at the entry slot below the aligned top and points the
    /// stack pointer at it. The other registers are kept.
    pub fn prepare(&mut self, base: u64, entry: u64)
        requires
            old(self).wf(),
            base + old(self).stack_bytes().len() <= u64::MAX,
        ensures
            final(self).wf(),
            final(self).ready(base as int, entry),
            final(self).ctx().rsp == entry_slot(base as int, old(self).stack_bytes().len() as int),
            final(self).ctx().callee_saved() == old(self).ctx().callee_saved(),
            final(self).stack_bytes().len() == old(self).stack_bytes().len(),
            forall|j: int|
                0 <= j < old(self).stack_bytes().len() && !(final(self).ctx().rsp - base <= j
                    < final(self).ctx().rsp - base + WORD_SIZE) ==> final(self).stack_bytes()[j]
                    == old(self).stack_bytes()[j],
    {
        let sp = self.stack.write_entry(base, entry);
        self.context.set_stack_pointer(sp);
    }
}

/// A prepared thread, whose stack the memory holds, is entered at its entry
/// function by a one-way switch, whatever ran before; and the stack pointer is
/// then one word short of the alignment boundary, as on entry to any function
/// after a call.
pub proof fn lemma_prepared_thread_enters_entry(
    t: GreenThread,
    base: int,
    entry: u64,
    cpu: Processor,
    mem: Map<u64, u64>,
)
    requires
        t.ready(base, entry),
        mem.contains_key(t.ctx().rsp),
        mem[t.ctx().rsp] == word_at(t.stack_bytes(), t.ctx().rsp - base),
    ensures
        switch_one_way(cpu, mem, t.ctx()).ip == entry,
        (switch_one_way(cpu, mem, t.ctx()).regs.rsp + WORD_SIZE) % (STACK_ALIGN as int) == 0,
        switch_one_way(cpu, mem, t.ctx()).regs.callee_saved() == t.ctx().callee_saved(),
{
}

} // verus!
