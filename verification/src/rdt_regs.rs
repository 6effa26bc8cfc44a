//! RDT (Resource Director Technology) register definitions: the monitoring
//! event-select and PQR-association registers, with their MSR addresses.

use vstd::prelude::*;
use crate::register::RegisterLayout;

verus! {

/// Monitoring event-select MSR: choose an RMID and event to read.
pub const IA32_QM_EVTSEL: u64 = 0xC8D;

/// Monitoring counter MSR: the value of the selected event.
pub const IA32_QM_CTR: u64 = 0xC8E;

/// PQR-association MSR: the RMID and class of service of a logical processor.
pub const IA32_PQR_ASSOC: u64 = 0xC8F;

/// Last-level-cache occupancy monitoring event.
pub const LLC_OCCUPANCY_EVENT: u64 = 0x01;

/// Local memory-bandwidth monitoring event.
pub const LOCAL_MEM_BW_EVENT: u64 = 0x02;

/// Remote memory-bandwidth monitoring event.
pub const REMOTE_MEM_BW_EVENT: u64 = 0x03;

/// Monitoring event-select register: RMID and event id.
#[derive(Debug, Clone, Copy, Default, PartialEq, Eq, Structural)]
pub struct QmEventSelect {
    /// Resource monitoring ID (bits 0-31).
    pub rmid: u32,
    /// Event ID to monitor (bits 32-39).
    pub event_id: u8,
}

impl RegisterLayout for QmEventSelect {
    open spec fn encode_spec(&self) -> u64 {
        (self.rmid as u64) | ((self.event_id as u64) << 32)
    }

    open spec fn decode_spec(value: u64) -> Self {
        QmEventSelect { rmid: (value & 0xFFFF_FFFF) as u32, event_id: ((value >> 32) & 0xFF) as u8 }
    }

    open spec fn valid(&self) -> bool {
        true
    }

    fn to_msr_value(&self) -> (r: u64) {
        (self.rmid as u64) | ((self.event_id as u64) << 32)
    }

    fn from_msr_value(value: u64) -> (r: Self) {
        QmEventSelect { rmid: (value & 0xFFFF_FFFF) as u32, event_id: ((value >> 32) & 0xFF) as u8 }
    }

    fn validate(&self) -> (r: Result<(), &'static str>) {
        Ok(())
    }
}

/// Decoding an encoded event select returns it unchanged.
pub proof fn lemma_qm_event_select_round_trip(c: QmEventSelect)
    ensures
        QmEventSelect::decode_spec(c.encode_spec()) == c,
{
    let r = c.rmid;
    let e = c.event_id;
    let w = c.encode_spec();
    assert((w & 0xFFFF_FFFF) as u32 == r && ((w >> 32) & 0xFF) as u8 == e) by (bit_vector)
        requires
            w == (r as u64) | ((e as u64) << 32),
    ;
}

/// Re-encoding a decoded word zeroes exactly the reserved bits.
pub proof fn lemma_qm_event_select_mask(w: u64)
    ensures
        QmEventSelect::decode_spec(w).encode_spec() == w & 0xFF_FFFF_FFFF,
{
    assert(((((w & 0xFFFF_FFFF) as u32) as u64) | (((((w >> 32) & 0xFF) as u8) as u64) << 32)) == w
        & 0xFF_FFFF_FFFF) by (bit_vector);
}

/// PQR-association register: RMID and class of service.
#[derive(Debug, Clone, Copy, Default, PartialEq, Eq, Structural)]
pub struct PqrAssoc {
    /// Resource monitoring ID (bits 0-31).
    pub rmid: u32,
    /// Class of service (bits 32-63).
    pub cos: u32,
}

impl RegisterLayout for PqrAssoc {
    open spec fn encode_spec(&self) -> u64 {
        (self.rmid as u64) | ((self.cos as u64) << 32)
    }

    open spec fn decode_spec(value: u64) -> Self {
        PqrAssoc { rmid: (value & 0xFFFF_FFFF) as u32, cos: ((value >> 32) & 0xFFFF_FFFF) as u32 }
    }

    open spec fn valid(&self) -> bool {
        true
    }

    fn to_msr_value(&self) -> (r: u64) {
        (self.rmid as u64) | ((self.cos as u64) << 32)
    }

    fn from_msr_value(value: u64) -> (r: Self) {
        PqrAssoc { rmid: (value & 0xFFFF_FFFF) as u32, cos: ((value >> 32) & 0xFFFF_FFFF) as u32 }
    }

    fn validate(&self) -> (r: Result<(), &'static str>) {
        Ok(())
    }
}

/// Decoding an encoded association returns it unchanged.
pub proof fn lemma_pqr_assoc_round_trip(c: PqrAssoc)
    ensures
        PqrAssoc::decode_spec(c.encode_spec()) == c,
{
    let r = c.rmid;
    let s = c.cos;
    let w = c.encode_spec();
    assert((w & 0xFFFF_FFFF) as u32 == r && ((w >> 32) & 0xFFFF_FFFF) as u32 == s) by (bit_vector)
        requires
            w == (r as u64) | ((s as u64) << 32),
    ;
}

/// Every bit of this register is defined: re-encoding a decoded word gives
/// the word back unchanged.
pub proof fn lemma_pqr_assoc_mask(w: u64)
    ensures
        PqrAssoc::decode_spec(w).encode_spec() == w,
{
    assert(((((w & 0xFFFF_FFFF) as u32) as u64) | (((((w >> 32) & 0xFFFF_FFFF) as u32) as u64)
        << 32)) == w) by (bit_vector);
}

} // verus!
