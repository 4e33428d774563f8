use vstd::prelude::*;
use vstd::pervasive::VecAdditionalExecFns;
use crate::emu::{CapabilityError, Emu, SingleStepBehavior};

verus! {

/// The deterministic fill byte for memory reads of this variant: the x86
/// one-byte no-op instruction.
pub const NOP_BYTE: u8 = 0x90;

/// Number of general-purpose registers in the 64-bit x86 register file.
pub const GPR_COUNT: usize = 16;

/// The synthetic instruction pointer this target reports.
pub const RIP_VALUE: u64 = 0x5555_5555_0000_0000;

/// The 64-bit x86 core register file as far as this target models it: the
/// 16 general-purpose registers and the instruction pointer, each a plain
/// 64-bit value.
#[derive(Debug, Clone, PartialEq, Eq)]
pub struct X86Regs {
    /// General-purpose registers RAX through R15.
    pub regs: Vec<u64>,
    /// Instruction pointer.
    pub rip: u64,
}

impl X86Regs {
    /// A register file holds exactly the 16 general-purpose registers.
    pub open spec fn wf(&self) -> bool {
        self.regs@.len() == GPR_COUNT
    }

    /// A zeroed register file.
    pub fn new() -> (r: X86Regs)
        ensures
            r.wf(),
            forall|j: int| 0 <= j < GPR_COUNT ==> r.regs@[j] == 0u64,
            r.rip == 0,
    {
        X86Regs { regs: vec![0u64; GPR_COUNT], rip: 0 }
    }
}

/// Relies on `gdbstub::arch::Arch::single_step_gdb_behavior` for
/// `gdbstub_arch::x86::X86_64_SSE`, which returns
/// `SingleStepGdbBehavior::Required`: GDB unconditionally sends single-step
/// packets on x86, so the target must handle them.
#[verifier::external_body]
fn arch_single_step_behavior() -> (r: SingleStepBehavior)
    ensures
        r == SingleStepBehavior::Required,
{
    match <gdbstub_arch::x86::X86_64_SSE as gdbstub::arch::Arch>::single_step_gdb_behavior() {
        gdbstub::arch::SingleStepGdbBehavior::Optional => SingleStepBehavior::Optional,
        gdbstub::arch::SingleStepGdbBehavior::Required => SingleStepBehavior::Required,
        gdbstub::arch::SingleStepGdbBehavior::Ignored => SingleStepBehavior::Ignored,
        _ => SingleStepBehavior::Optional,
    }
}

/// How single-stepping is advertised on 64-bit x86: with the guard rail
/// enforced, the architecture's documented quirk (GDB requires single-step
/// handling) wins; with the guard rail disabled, the permissive answer is
/// given instead.
pub fn guard_rail_single_step_gdb_behavior(emu: &Emu) -> (r: SingleStepBehavior)
    ensures
        !emu.with_guard_rail ==> r == SingleStepBehavior::Optional,
        emu.with_guard_rail ==> r == SingleStepBehavior::Required,
{
    if !emu.with_guard_rail {
        SingleStepBehavior::Optional
    } else {
        arch_single_step_behavior()
    }
}

/// Populate a caller's register buffer from the target: this synthetic
/// target reports each general-purpose register as its own index and a
/// fixed instruction pointer.
pub fn read_registers(emu: &mut Emu, regs: &mut X86Regs) -> (r: Result<(), CapabilityError>)
    requires
        old(regs).wf(),
    ensures
        *final(emu) == *old(emu),
        final(regs).wf(),
        forall|j: int| 0 <= j < GPR_COUNT ==> final(regs).regs@[j] == j as u64,
        final(regs).rip == RIP_VALUE,
        r is Ok,
{
    let mut i: usize = 0;
    while i < GPR_COUNT
        invariant
            regs.regs@.len() == GPR_COUNT,
            i <= GPR_COUNT,
            forall|j: int| 0 <= j < i ==> regs.regs@[j] == j as u64,
            regs.rip == old(regs).rip,
        decreases GPR_COUNT - i,
    {
        regs.regs.set(i, i as u64);
        i = i + 1;
    }
    regs.rip = RIP_VALUE;
    Ok(())
}

/// Apply a caller's register buffer to the target; this synthetic target
/// keeps no register state, so the write is accepted and discarded.
pub fn write_registers(emu: &mut Emu, regs: &X86Regs) -> (r: Result<(), CapabilityError>)
    ensures
        *final(emu) == *old(emu),
        r is Ok,
{
    Ok(())
}

/// Read a byte range of address space into `data`. Every 64-bit address,
/// including the largest representable one, succeeds: the buffer is filled
/// with the no-op pattern.
pub fn read_addrs(emu: &mut Emu, start_addr: u64, data: &mut Vec<u8>) -> (r: Result<
    (),
    CapabilityError,
>)
    ensures
        *final(emu) == *old(emu),
        final(data)@.len() == old(data)@.len(),
        forall|j: int| 0 <= j < final(data)@.len() ==> final(data)@[j] == NOP_BYTE,
        r is Ok,
{
    let n = data.len();
    let mut i: usize = 0;
    while i < n
        invariant
            n == data@.len(),
            i <= n,
            forall|j: int| 0 <= j < i ==> data@[j] == NOP_BYTE,
        decreases n - i,
    {
        data.set(i, NOP_BYTE);
        i = i + 1;
    }
    Ok(())
}

/// Accept a byte range written to address space; this target has no real
/// memory, so the bytes are discarded and the write succeeds.
pub fn write_addrs(emu: &mut Emu, start_addr: u64, data: &[u8]) -> (r: Result<(), CapabilityError>)
    ensures
        *final(emu) == *old(emu),
        r is Ok,
{
    Ok(())
}

} // verus!
