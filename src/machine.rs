//! What the switch does to the processor, stated over a word-addressed memory.
//! The switch itself is a few machine instructions outside this library; these
//! definitions say what it must do, and the laws below say what follows.
use vstd::prelude::*;
use crate::context::ThreadContext;
use crate::stack::WORD_SIZE;

verus! {

/// The part of the processor that a switch reads and writes: the registers
/// kept across calls and the address of the next instruction.
#[derive(Debug, Clone, Copy)]
pub struct Processor {
    pub regs: ThreadContext,
    pub ip: u64,
}

/// Loads `target` into the processor, then returns through the word at the
/// target's stack pointer: that word becomes the next instruction address.
pub open spec fn load(target: ThreadContext, mem: Map<u64, u64>) -> Processor {
    Processor { regs: ThreadContext { rsp: (target.rsp + WORD_SIZE) as u64, ..target }, ip: mem[target.rsp] }
}

/// Saves the running context: pushes the resume address on its stack and
/// records its registers, the stack pointer pointing at the pushed word.
pub open spec fn save(cpu: Processor, mem: Map<u64, u64>) -> (ThreadContext, Map<u64, u64>) {
    let sp = (cpu.regs.rsp - WORD_SIZE) as u64;
    (ThreadContext { rsp: sp, ..cpu.regs }, mem.insert(sp, cpu.ip))
}

/// The one-way switch: the running context is dropped and `target` is loaded.
pub open spec fn switch_one_way(cpu: Processor, mem: Map<u64, u64>, target: ThreadContext) -> Processor {
    load(target, mem)
}

/// The two-way switch: the running context is saved, then `target` is loaded.
/// Returns the new processor state, the saved context and the memory after the push.
pub open spec fn switch_saving(cpu: Processor, mem: Map<u64, u64>, target: ThreadContext) -> (
    Processor,
    ThreadContext,
    Map<u64, u64>,
) {
    let (saved, m) = save(cpu, mem);
    (load(target, m), saved, m)
}

/// A one-way switch continues at the word on the target's stack, and nothing of
/// the context that made it survives: two callers in any states end in the same
/// state, so there is no way back to the call site.
pub proof fn lemma_one_way_switch_forgets_caller(
    a: Processor,
    b: Processor,
    mem: Map<u64, u64>,
    target: ThreadContext,
)
    ensures
        switch_one_way(a, mem, target) == switch_one_way(b, mem, target),
        switch_one_way(a, mem, target).ip == mem[target.rsp],
        switch_one_way(a, mem, target).regs.callee_saved() == target.callee_saved(),
{
}

/// Saving records exactly the live registers, and the resume address on the
/// saved stack.
pub proof fn lemma_save_records_live_registers(cpu: Processor, mem: Map<u64, u64>)
    requires
        cpu.regs.rsp >= WORD_SIZE,
    ensures
        save(cpu, mem).0.callee_saved() == cpu.regs.callee_saved(),
        save(cpu, mem).0.rsp + WORD_SIZE == cpu.regs.rsp,
        save(cpu, mem).1[save(cpu, mem).0.rsp] == cpu.ip,
{
}

/// A round trip: context A switches to B, B runs and finally switches back to
/// the context A saved. If B left A's saved stack word alone, and B's own stack
/// is elsewhere, A resumes at the point where it switched away, with every
/// register as it was then.
pub proof fn lemma_switch_round_trip(
    a: Processor,
    mem: Map<u64, u64>,
    b: ThreadContext,
    b_done: Processor,
    mem_done: Map<u64, u64>,
)
    requires
        a.regs.rsp >= WORD_SIZE,
        b_done.regs.rsp >= WORD_SIZE,
        b_done.regs.rsp - WORD_SIZE != switch_saving(a, mem, b).1.rsp,
        mem_done.contains_key(switch_saving(a, mem, b).1.rsp),
        mem_done[switch_saving(a, mem, b).1.rsp] == switch_saving(a, mem, b).2[switch_saving(
            a,
            mem,
            b,
        ).1.rsp],
    ensures
        switch_saving(a, mem, b).0.ip == switch_saving(a, mem, b).2[b.rsp],
        switch_saving(a, mem, b).0.regs.callee_saved() == b.callee_saved(),
        switch_saving(b_done, mem_done, switch_saving(a, mem, b).1).0 == a,
{
    let (_, saved_a, _) = switch_saving(a, mem, b);
    let (back, _, _) = switch_saving(b_done, mem_done, saved_a);
    assert(back.regs == a.regs);
}

} // verus!
