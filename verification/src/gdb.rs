use vstd::prelude::*;
use vstd::pervasive::VecAdditionalExecFns;
use crate::emu::{CapabilityError, Emu};

verus! {

/// The byte a memory read hands back for every address: this target has no
/// real memory, so reads produce a deterministic no-op pattern the debugger
/// can safely disassemble or checksum.
pub const NOP_BYTE: u8 = 0x00;

/// An opaque register identifier; the architecture leaves the numeric
/// mapping to the debugger, so every id is accepted as it is.
#[derive(Debug)]
pub struct GenericRegId(pub usize);

impl GenericRegId {
    /// Accept any raw protocol register id, with no size hint.
    pub fn from_raw_id(id: usize) -> (r: Option<(GenericRegId, Option<usize>)>)
        ensures
            r matches Some(p) && p.0.0 == id && p.1 is None,
    {
        Some((GenericRegId(id), None))
    }
}

/// The whole register file of the generic placeholder architecture: one
/// 64-bit dummy register.
#[derive(Debug, Clone, PartialEq, Eq, Structural)]
pub struct GenericRegs {
    pub dummy: u64,
}

impl Default for GenericRegs {
    fn default() -> (r: GenericRegs)
        ensures
            r.dummy == 0,
    {
        GenericRegs { dummy: 0 }
    }
}

impl GenericRegs {
    /// The program counter; this placeholder always sits at address zero.
    pub fn pc(&self) -> (r: u64)
        ensures
            r == 0,
    {
        0
    }

    /// Canonical serialization of the register file: the little-endian
    /// bytes of each field in order, eight bytes in all.
    pub fn gdb_serialize(&self) -> (r: Vec<u8>)
        ensures
            r@ == vstd::bytes::spec_u64_to_le_bytes(self.dummy),
            r@.len() == 8,
    {
        vstd::bytes::u64_to_le_bytes(self.dummy)
    }

    /// Apply a serialized register file; the placeholder keeps no state, so
    /// any byte sequence is accepted and nothing changes.
    pub fn gdb_deserialize(&mut self, bytes: &[u8]) -> (r: Result<(), ()>)
        ensures
            r is Ok,
            *final(self) == *old(self),
    {
        Ok(())
    }
}

/// Marker for the generic placeholder architecture: 64-bit addresses, the
/// one-register file above, and opaque register ids.
pub struct GenericArch {}

/// Populate a caller's register buffer from the target. The placeholder
/// keeps no register state, so the buffer is left as it is and the read
/// succeeds.
pub fn read_registers(emu: &mut Emu, regs: &mut GenericRegs) -> (r: Result<(), CapabilityError>)
    ensures
        *final(emu) == *old(emu),
        *final(regs) == *old(regs),
        r is Ok,
{
    Ok(())
}

/// Apply a caller's register buffer to the target. The placeholder keeps no
/// register state, so the write is accepted and discarded.
pub fn write_registers(emu: &mut Emu, regs: &GenericRegs) -> (r: Result<(), CapabilityError>)
    ensures
        *final(emu) == *old(emu),
        r is Ok,
{
    Ok(())
}

/// Read a byte range of address space into `data`. Every address, including
/// the largest representable one, succeeds: the buffer is filled with the
/// no-op pattern, exactly as many bytes as were asked for.
pub fn read_addrs(emu: &mut Emu, start_addr: u64, data: &mut Vec<u8>) -> (r: Result<
    usize,
    CapabilityError,
>)
    ensures
        *final(emu) == *old(emu),
        final(data)@.len() == old(data)@.len(),
        forall|j: int| 0 <= j < final(data)@.len() ==> final(data)@[j] == NOP_BYTE,
        r == Ok::<usize, CapabilityError>(old(data)@.len() as usize),
{
    let n = data.len();
    let mut i: usize = 0;
    while i < n
        invariant
            n == data@.len(),
            i <= n,
            forall|j: int| 0 <= j < i ==> data@[j] == NOP_BYTE,
        decreases n - i,
    {
        data.set(i, NOP_BYTE);
        i = i + 1;
    }
    Ok(n)
}

/// Accept a byte range written to address space. The placeholder has no
/// memory, so the bytes are discarded and the write succeeds.
pub fn write_addrs(emu: &mut Emu, start_addr: u64, data: &[u8]) -> (r: Result<(), CapabilityError>)
    ensures
        *final(emu) == *old(emu),
        r is Ok,
{
    Ok(())
}

/// Read a single register by id. An unknown id is not an error: the
/// debugger probes ids during negotiation, so every id reads as a four-byte
/// zero value.
pub fn read_register(emu: &mut Emu, reg_id: GenericRegId, buf: &mut Vec<u8>) -> (r: Result<
    usize,
    CapabilityError,
>)
    requires
        old(buf)@.len() >= 4,
    ensures
        *final(emu) == *old(emu),
        final(buf)@.len() == old(buf)@.len(),
        forall|j: int| 0 <= j < 4 ==> final(buf)@[j] == 0u8,
        forall|j: int| 4 <= j < final(buf)@.len() ==> final(buf)@[j] == old(buf)@[j],
        r == Ok::<usize, CapabilityError>(4usize),
{
    buf.set(0, 0);
    buf.set(1, 0);
    buf.set(2, 0);
    buf.set(3, 0);
    Ok(4)
}

/// Accept a single-register write by id. The placeholder keeps no register
/// state, so the value is discarded and the write succeeds.
pub fn write_register(emu: &mut Emu, reg_id: GenericRegId, val: &[u8]) -> (r: Result<
    (),
    CapabilityError,
>)
    ensures
        *final(emu) == *old(emu),
        r is Ok,
{
    Ok(())
}

} // verus!
