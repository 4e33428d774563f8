use vstd::prelude::*;
use vstd::pervasive::VecAdditionalExecFns;
use crate::emu::{CapabilityError, Emu, SingleStepBehavior};

verus! {

/// The deterministic fill byte for memory reads of this variant.
pub const NOP_BYTE: u8 = 0x00;

/// An opaque register identifier; every raw protocol id is accepted.
#[derive(Debug, Clone, Copy)]
#[non_exhaustive]
pub struct GenericRegId(pub usize);

impl GenericRegId {
    /// Accept any raw protocol register id, with no size hint.
    pub fn from_raw_id(id: usize) -> (r: Option<(GenericRegId, Option<usize>)>)
        ensures
            r matches Some(p) && p.0.0 == id && p.1 is None,
    {
        Some((GenericRegId(id), None))
    }
}

/// The whole register file of this placeholder variant: one 64-bit dummy
/// register.
#[derive(Debug, Clone, PartialEq, Eq, Structural)]
pub struct GenericRegs {
    pub dummy: u64,
}

impl Default for GenericRegs {
    fn default() -> (r: GenericRegs)
        ensures
            r.dummy == 0,
    {
        GenericRegs { dummy: 0 }
    }
}

impl GenericRegs {
    /// The program counter; this placeholder always sits at address zero.
    pub fn pc(&self) -> (r: u64)
        ensures
            r == 0,
    {
        0
    }

    /// Canonical serialization of the register file: the little-endian
    /// bytes of each field in order, eight bytes in all.
    pub fn gdb_serialize(&self) -> (r: Vec<u8>)
        ensures
            r@ == vstd::bytes::spec_u64_to_le_bytes(self.dummy),
            r@.len() == 8,
    {
        vstd::bytes::u64_to_le_bytes(self.dummy)
    }

    /// Apply a serialized register file; the placeholder keeps no state, so
    /// any byte sequence is accepted and nothing changes.
    pub fn gdb_deserialize(&mut self, bytes: &[u8]) -> (r: Result<(), ()>)
        ensures
            r is Ok,
            *final(self) == *old(self),
    {
        Ok(())
    }
}

/// Marker for this placeholder variant: 64-bit addresses, the one-register
/// file above, and opaque register ids.
pub struct GenericArch {}

/// How single-stepping is advertised for the placeholder: no documented
/// protocol quirk exists, so the debugger may use it when available.
pub fn guard_rail_single_step_gdb_behavior(emu: &Emu) -> (r: SingleStepBehavior)
    ensures
        r == SingleStepBehavior::Optional,
{
    SingleStepBehavior::Optional
}

/// Populate a caller's register buffer from the target. The placeholder
/// keeps no register state, so the buffer is left as it is.
pub fn read_registers(emu: &mut Emu, regs: &mut GenericRegs) -> (r: Result<(), CapabilityError>)
    ensures
        *final(emu) == *old(emu),
        *final(regs) == *old(regs),
        r is Ok,
{
    Ok(())
}

/// Apply a caller's register buffer to the target; accepted and discarded.
pub fn write_registers(emu: &mut Emu, regs: &GenericRegs) -> (r: Result<(), CapabilityError>)
    ensures
        *final(emu) == *old(emu),
        r is Ok,
{
    Ok(())
}

/// Read a byte range of address space into `data`: every address succeeds
/// and the buffer is filled with the no-op pattern.
pub fn read_addrs(emu: &mut Emu, start_addr: u64, data: &mut Vec<u8>) -> (r: Result<
    (),
    CapabilityError,
>)
    ensures
        *final(emu) == *old(emu),
        final(data)@.len() == old(data)@.len(),
        forall|j: int| 0 <= j < final(data)@.len() ==> final(data)@[j] == NOP_BYTE,
        r is Ok,
{
    let n = data.len();
    let mut i: usize = 0;
    while i < n
        invariant
            n == data@.len(),
            i <= n,
            forall|j: int| 0 <= j < i ==> data@[j] == NOP_BYTE,
        decreases n - i,
    {
        data.set(i, NOP_BYTE);
        i = i + 1;
    }
    Ok(())
}

/// Accept a byte range written to address space; discarded.
pub fn write_addrs(emu: &mut Emu, start_addr: u64, data: &[u8]) -> (r: Result<(), CapabilityError>)
    ensures
        *final(emu) == *old(emu),
        r is Ok,
{
    Ok(())
}

/// Read a single register by id: every id, known or probed, reads as a
/// four-byte zero value.
pub fn read_register(emu: &mut Emu, reg_id: GenericRegId, buf: &mut Vec<u8>) -> (r: Result<
    usize,
    CapabilityError,
>)
    requires
        old(buf)@.len() >= 4,
    ensures
        *final(emu) == *old(emu),
        final(buf)@.len() == old(buf)@.len(),
        forall|j: int| 0 <= j < 4 ==> final(buf)@[j] == 0u8,
        forall|j: int| 4 <= j < final(buf)@.len() ==> final(buf)@[j] == old(buf)@[j],
        r == Ok::<usize, CapabilityError>(4usize),
{
    buf.set(0, 0);
    buf.set(1, 0);
    buf.set(2, 0);
    buf.set(3, 0);
    Ok(4)
}

/// Accept a single-register write by id; discarded.
pub fn write_register(emu: &mut Emu, reg_id: GenericRegId, val: &[u8]) -> (r: Result<
    (),
    CapabilityError,
>)
    ensures
        *final(emu) == *old(emu),
        r is Ok,
{
    Ok(())
}

} // verus!
