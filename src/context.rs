use vstd::prelude::*;

verus! {

/// The registers that survive a call: the stack pointer first, then the
/// callee-saved general-purpose registers, in the order the switch reads them.
/// The values are opaque machine words.
#[derive(Debug, Clone, Copy)]
pub struct ThreadContext {
    pub rsp: u64,
    pub r15: u64,
    pub r14: u64,
    pub r13: u64,
    pub r12: u64,
    pub rbx: u64,
    pub rbp: u64,
}

impl ThreadContext {
    /// The callee-saved registers, in layout order, without the stack pointer.
    pub open spec fn callee_saved(self) -> Seq<u64> {
        seq![self.r15, self.r14, self.r13, self.r12, self.rbx, self.rbp]
    }

    /// The context with every field zero.
    pub open spec fn zeroed() -> ThreadContext {
        ThreadContext { rsp: 0, r15: 0, r14: 0, r13: 0, r12: 0, rbx: 0, rbp: 0 }
    }

    /// A context with every field zero.
    pub fn new() -> (r: ThreadContext)
        ensures
            r == ThreadContext::zeroed(),
            r.rsp == 0,
            forall|i: int| 0 <= i < r.callee_saved().len() ==> r.callee_saved()[i] == 0u64,
    {
        ThreadContext { rsp: 0, r15: 0, r14: 0, r13: 0, r12: 0, rbx: 0, rbp: 0 }
    }

    /// Points the context at a new stack; every other field is kept.
    pub fn set_stack_pointer(&mut self, addr: u64)
        ensures
            *final(self) == (ThreadContext { rsp: addr, ..*old(self) }),
            final(self).callee_saved() == old(self).callee_saved(),
    {
        self.rsp = addr;
    }
}

impl Default for ThreadContext {
    fn default() -> (r: ThreadContext)
        ensures
            r == ThreadContext::zeroed(),
    {
        ThreadContext::new()
    }
}

} // verus!
