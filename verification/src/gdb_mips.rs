use vstd::prelude::*;
use vstd::pervasive::VecAdditionalExecFns;
use crate::emu::{CapabilityError, Emu, SingleStepBehavior};

verus! {

/// The deterministic fill byte for memory reads of this variant: the MIPS
/// no-op instruction is all zero bytes.
pub const NOP_BYTE: u8 = 0x00;

/// Number of general-purpose registers in the MIPS core register file.
pub const GPR_COUNT: usize = 32;

/// The synthetic program counter this target reports.
pub const PC_VALUE: u32 = 0x5555_0000;

/// The MIPS core register file as far as this target models it: the 32
/// general-purpose registers and the program counter, each a plain 32-bit
/// value.
#[derive(Debug, Clone, PartialEq, Eq)]
pub struct MipsRegs {
    /// General-purpose registers R0 through R31.
    pub r: Vec<u32>,
    /// Program counter.
    pub pc: u32,
}

impl MipsRegs {
    /// A register file holds exactly the 32 general-purpose registers.
    pub open spec fn wf(&self) -> bool {
        self.r@.len() == GPR_COUNT
    }

    /// A zeroed register file.
    pub fn new() -> (r: MipsRegs)
        ensures
            r.wf(),
            forall|j: int| 0 <= j < GPR_COUNT ==> r.r@[j] == 0u32,
            r.pc == 0,
    {
        MipsRegs { r: vec![0u32; GPR_COUNT], pc: 0 }
    }
}

/// Relies on `gdbstub::arch::Arch::single_step_gdb_behavior` for
/// `gdbstub_arch::mips::Mips`, which returns `SingleStepGdbBehavior::Ignored`:
/// GDB never uses single-stepping on MIPS, regardless of stub support.
#[verifier::external_body]
fn arch_single_step_behavior() -> (r: SingleStepBehavior)
    ensures
        r == SingleStepBehavior::Ignored,
{
    match <gdbstub_arch::mips::Mips as gdbstub::arch::Arch>::single_step_gdb_behavior() {
        gdbstub::arch::SingleStepGdbBehavior::Optional => SingleStepBehavior::Optional,
        gdbstub::arch::SingleStepGdbBehavior::Required => SingleStepBehavior::Required,
        gdbstub::arch::SingleStepGdbBehavior::Ignored => SingleStepBehavior::Ignored,
        _ => SingleStepBehavior::Optional,
    }
}

/// How single-stepping is advertised on MIPS: with the guard rail enforced,
/// the architecture's documented quirk (GDB ignores single-stepping) wins;
/// with the guard rail disabled, the permissive answer is given instead.
pub fn guard_rail_single_step_gdb_behavior(emu: &Emu) -> (r: SingleStepBehavior)
    ensures
        !emu.with_guard_rail ==> r == SingleStepBehavior::Optional,
        emu.with_guard_rail ==> r == SingleStepBehavior::Ignored,
{
    if !emu.with_guard_rail {
        SingleStepBehavior::Optional
    } else {
        arch_single_step_behavior()
    }
}

/// Populate a caller's register buffer from the target: this synthetic
/// target reports each general-purpose register as its own index and a
/// fixed program counter.
pub fn read_registers(emu: &mut Emu, regs: &mut MipsRegs) -> (r: Result<(), CapabilityError>)
    requires
        old(regs).wf(),
    ensures
        *final(emu) == *old(emu),
        final(regs).wf(),
        forall|j: int| 0 <= j < GPR_COUNT ==> final(regs).r@[j] == j as u32,
        final(regs).pc == PC_VALUE,
        r is Ok,
{
    let mut i: usize = 0;
    while i < GPR_COUNT
        invariant
            regs.r@.len() == GPR_COUNT,
            i <= GPR_COUNT,
            forall|j: int| 0 <= j < i ==> regs.r@[j] == j as u32,
            regs.pc == old(regs).pc,
        decreases GPR_COUNT - i,
    {
        regs.r.set(i, i as u32);
        i = i + 1;
    }
    regs.pc = PC_VALUE;
    Ok(())
}

/// Apply a caller's register buffer to the target; this synthetic target
/// keeps no register state, so the write is accepted and discarded.
pub fn write_registers(emu: &mut Emu, regs: &MipsRegs) -> (r: Result<(), CapabilityError>)
    ensures
        *final(emu) == *old(emu),
        r is Ok,
{
    Ok(())
}

/// Read a byte range of address space into `data`. Every 32-bit address,
/// including the largest representable one, succeeds: the buffer is filled
/// with the no-op pattern.
pub fn read_addrs(emu: &mut Emu, start_addr: u32, data: &mut Vec<u8>) -> (r: Result<
    (),
    CapabilityError,
>)
    ensures
        *final(emu) == *old(emu),
        final(data)@.len() == old(data)@.len(),
        forall|j: int| 0 <= j < final(data)@.len() ==> final(data)@[j] == NOP_BYTE,
        r is Ok,
{
    let n = data.len();
    let mut i: usize = 0;
    while i < n
        invariant
            n == data@.len(),
            i <= n,
            forall|j: int| 0 <= j < i ==> data@[j] == NOP_BYTE,
        decreases n - i,
    {
        data.set(i, NOP_BYTE);
        i = i + 1;
    }
    Ok(())
}

/// Accept a byte range written to address space; this target has no real
/// memory, so the bytes are discarded and the write succeeds.
pub fn write_addrs(emu: &mut Emu, start_addr: u32, data: &[u8]) -> (r: Result<(), CapabilityError>)
    ensures
        *final(emu) == *old(emu),
        r is Ok,
{
    Ok(())
}

} // verus!
