//! MCFG table parsing and PCI address resolution.
//!
//! The firmware's MCFG table is parsed byte-wise: a 44-byte header whose
//! length field fixes the record count, then 16-byte records of base
//! address, segment group and bus range. A logical `(socket, device,
//! function, device id)` target resolves to a concrete `(segment, bus,
//! device, function)` address by probing every bus of every record and
//! taking the socket-th match in scan order; resolutions are memoized.

use vstd::prelude::*;
use crate::error::UncflowError;

verus! {

/// Size of the MCFG header in bytes.
pub const MCFG_HEADER_SIZE: usize = 44;

/// Size of one MCFG record in bytes.
pub const MCFG_RECORD_SIZE: usize = 16;

/// A logical PCI target, before resolution.
#[derive(Debug, Clone, Copy, PartialEq, Eq, Hash, Structural)]
pub struct PciConfigAddress {
    /// The socket whose device is wanted.
    pub socket: u32,
    /// PCI device number.
    pub device: u32,
    /// PCI function number.
    pub function: u32,
    /// Expected PCI device id.
    pub device_id: u32,
}

/// A concrete PCI address.
#[derive(Debug, Clone, Copy, PartialEq, Eq, Structural)]
pub struct PciAddress {
    /// PCI segment group.
    pub group_number: u32,
    /// Bus number.
    pub bus: u32,
    /// Device number.
    pub device: u32,
    /// Function number.
    pub function: u32,
}

/// One MCFG record: a memory-mapped configuration region.
#[derive(Debug, Clone, Copy, PartialEq, Eq, Structural)]
pub struct McfgRecord {
    /// Base address of the region.
    pub base_address: u64,
    /// PCI segment group the region serves.
    pub pci_segment_group: u16,
    /// First bus of the region.
    pub start_bus: u8,
    /// Last bus of the region.
    pub end_bus: u8,
}

/// A little-endian 16-bit value at an offset of a byte sequence.
pub open spec fn le16_at(bytes: Seq<u8>, off: int) -> u16 {
    (bytes[off] + bytes[off + 1] * 0x100) as u16
}

/// A little-endian 32-bit value at an offset of a byte sequence.
pub open spec fn le32_at(bytes: Seq<u8>, off: int) -> u32 {
    (bytes[off] + bytes[off + 1] * 0x100 + bytes[off + 2] * 0x1_0000 + bytes[off + 3]
        * 0x100_0000) as u32
}

/// A little-endian 64-bit value at an offset of a byte sequence.
pub open spec fn le64_at(bytes: Seq<u8>, off: int) -> u64 {
    (le32_at(bytes, off) + (le32_at(bytes, off + 4) as int) * 0x1_0000_0000) as u64
}

/// The record encoded at an offset of the table.
pub open spec fn record_at(bytes: Seq<u8>, off: int) -> McfgRecord {
    McfgRecord {
        base_address: le64_at(bytes, off),
        pci_segment_group: le16_at(bytes, off + 8),
        start_bus: bytes[off + 10],
        end_bus: bytes[off + 11],
    }
}

/// A little-endian 16-bit value from two bytes of a slice.
fn read_le16(bytes: &[u8], off: usize) -> (r: u16)
    requires
        off + 2 <= bytes@.len(),
    ensures
        r == le16_at(bytes@, off as int),
{
    (bytes[off] as u16) + (bytes[off + 1] as u16) * 0x100
}

/// A little-endian 32-bit value from four bytes of a slice.
fn read_le32(bytes: &[u8], off: usize) -> (r: u32)
    requires
        off + 4 <= bytes@.len(),
    ensures
        r == le32_at(bytes@, off as int),
{
    (bytes[off] as u32) + (bytes[off + 1] as u32) * 0x100 + (bytes[off + 2] as u32) * 0x1_0000 + (
    bytes[off + 3] as u32) * 0x100_0000
}

/// A little-endian 64-bit value from eight bytes of a slice.
fn read_le64(bytes: &[u8], off: usize) -> (r: u64)
    requires
        off + 8 <= bytes@.len(),
    ensures
        r == le64_at(bytes@, off as int),
{
    let n = bytes.len();
    let lo = read_le32(bytes, off);
    let hi = read_le32(bytes, off + 4);
    (lo as u64) + (hi as u64) * 0x1_0000_0000
}

/// Parse the raw MCFG table. The header's length field fixes the record
/// count as `(length - 44) / 16`; exactly that many records follow the
/// header. A file shorter than its header, a length smaller than the
/// header, or a file shorter than its declared length is malformed.
pub fn parse_mcfg(bytes: &[u8]) -> (r: Result<Vec<McfgRecord>, UncflowError>)
    ensures
        ({
            let ok = bytes@.len() >= MCFG_HEADER_SIZE && le32_at(bytes@, 4) >= MCFG_HEADER_SIZE
                && bytes@.len() >= MCFG_HEADER_SIZE + ((le32_at(bytes@, 4) - MCFG_HEADER_SIZE) as int
                / (MCFG_RECORD_SIZE as int)) * MCFG_RECORD_SIZE;
            match r {
                Ok(records) => {
                    &&& ok
                    &&& records@.len() == (le32_at(bytes@, 4) - MCFG_HEADER_SIZE) as int / (
                    MCFG_RECORD_SIZE as int)
                    &&& forall|i: int|
                        0 <= i < records@.len() ==> (#[trigger] records@[i]) == record_at(
                            bytes@,
                            MCFG_HEADER_SIZE + i * MCFG_RECORD_SIZE,
                        )
                },
                Err(e) => !ok && e == UncflowError::Parse,
            }
        }),
{
    if bytes.len() < MCFG_HEADER_SIZE {
        return Err(UncflowError::Parse);
    }
    let length = read_le32(bytes, 4);
    if length < MCFG_HEADER_SIZE as u32 {
        return Err(UncflowError::Parse);
    }
    let n_records = ((length as usize) - MCFG_HEADER_SIZE) / MCFG_RECORD_SIZE;
    proof {
        assert(n_records * MCFG_RECORD_SIZE <= (length as int - MCFG_HEADER_SIZE)) by {
            vstd::arithmetic::div_mod::lemma_fundamental_div_mod(
                length as int - MCFG_HEADER_SIZE,
                MCFG_RECORD_SIZE as int,
            );
            vstd::arithmetic::div_mod::lemma_mod_bound(
                length as int - MCFG_HEADER_SIZE,
                MCFG_RECORD_SIZE as int,
            );
        }
    }
    if bytes.len() < MCFG_HEADER_SIZE + n_records * MCFG_RECORD_SIZE {
        return Err(UncflowError::Parse);
    }
    let blen = bytes.len();
    let mut records: Vec<McfgRecord> = Vec::new();
    let mut i: usize = 0;
    while i < n_records
        invariant
            i <= n_records,
            blen == bytes@.len(),
            blen >= MCFG_HEADER_SIZE + n_records * MCFG_RECORD_SIZE,
            records@.len() == i,
            forall|k: int|
                0 <= k < i ==> (#[trigger] records@[k]) == record_at(
                    bytes@,
                    MCFG_HEADER_SIZE + k * MCFG_RECORD_SIZE,
                ),
        decreases n_records - i,
    {
        proof {
            vstd::arithmetic::mul::lemma_mul_inequality(
                i as int + 1,
                n_records as int,
                MCFG_RECORD_SIZE as int,
            );
            vstd::arithmetic::mul::lemma_mul_is_distributive_add_other_way(
                MCFG_RECORD_SIZE as int,
                i as int,
                1,
            );
        }
        let off = MCFG_HEADER_SIZE + i * MCFG_RECORD_SIZE;
        let record = McfgRecord {
            base_address: read_le64(bytes, off),
            pci_segment_group: read_le16(bytes, off + 8),
            start_bus: bytes[off + 10],
            end_bus: bytes[off + 11],
        };
        records.push(record);
        i = i + 1;
    }
    Ok(records)
}

/// Whether a probed vendor/device word confirms the requested device: the
/// vendor must be Intel's and the device id must match.
pub fn validate_pci_probe(vendor_device: u32, device_id: u32) -> (r: bool)
    ensures
        r == (vendor_device & 0xFFFF == 0x8086 && (vendor_device >> 16) & 0xFFFF == device_id),
{
    vendor_device & 0xFFFF == 0x8086 && (vendor_device >> 16) & 0xFFFF == device_id
}

/// The candidate `(segment, bus)` pairs of the first `n` records, in scan
/// order: every bus of every record's range.
pub open spec fn candidates_upto(records: Seq<McfgRecord>, n: int) -> Seq<(u16, u8)>
    decreases n,
{
    if n <= 0 {
        Seq::empty()
    } else {
        candidates_upto(records, n - 1) + record_buses(records[n - 1])
    }
}

/// The `(segment, bus)` pairs of one record: its segment crossed with its
/// bus range (empty when the range is inverted).
pub open spec fn record_buses(r: McfgRecord) -> Seq<(u16, u8)> {
    if r.start_bus <= r.end_bus {
        Seq::new(
            (r.end_bus - r.start_bus + 1) as nat,
            |i: int| (r.pci_segment_group, (r.start_bus + i) as u8),
        )
    } else {
        Seq::empty()
    }
}

/// Every `(segment, bus)` pair the records cover, in scan order; the
/// surrounding application probes each in turn.
pub fn candidate_buses(records: &Vec<McfgRecord>) -> (r: Vec<(u16, u8)>)
    ensures
        r@ == candidates_upto(records@, records@.len() as int),
{
    let mut r: Vec<(u16, u8)> = Vec::new();
    let mut i: usize = 0;
    while i < records.len()
        invariant
            i <= records@.len(),
            r@ == candidates_upto(records@, i as int),
        decreases records@.len() - i,
    {
        let rec = records[i];
        if rec.start_bus <= rec.end_bus {
            let mut b: u16 = rec.start_bus as u16;
            let ghost before = r@;
            while b <= rec.end_bus as u16
                invariant
                    rec.start_bus <= b,
                    rec.start_bus <= rec.end_bus,
                    b <= rec.end_bus + 1,
                    r@ == before + record_buses(rec).take(b - rec.start_bus),
                decreases rec.end_bus + 1 - b,
            {
                r.push((rec.pci_segment_group, (b as u8)));
                proof {
                    assert(r@ =~= before + record_buses(rec).take(b + 1 - rec.start_bus));
                }
                b = b + 1;
            }
            proof {
                assert(record_buses(rec).take(rec.end_bus + 1 - rec.start_bus) =~= record_buses(
                    rec,
                ));
                assert(r@ =~= candidates_upto(records@, i + 1));
            }
        } else {
            proof {
                assert(r@ =~= candidates_upto(records@, i + 1));
            }
        }
        i = i + 1;
    }
    r
}

/// The socket-th matching address in scan order, sockets being enumerated
/// in the order the firmware lists them.
pub fn select_candidate(matches: &Vec<PciAddress>, socket: u32) -> (r: Result<
    PciAddress,
    UncflowError,
>)
    ensures
        (socket as int) < matches@.len() ==> r == Ok::<PciAddress, UncflowError>(
            matches@[socket as int],
        ),
        (socket as int) >= matches@.len() ==> r is Err,
{
    if (socket as usize) < matches.len() {
        Ok(matches[socket as usize])
    } else {
        Err(UncflowError::HwPci { socket, device: 0, function: 0, offset: 0 })
    }
}

/// The first cached resolution of a target among the first `n` entries.
pub open spec fn cache_lookup(
    cache: Seq<(PciConfigAddress, PciAddress)>,
    target: PciConfigAddress,
    n: int,
) -> Option<PciAddress>
    decreases n,
{
    if n <= 0 {
        None
    } else if cache_lookup(cache, target, n - 1) is Some {
        cache_lookup(cache, target, n - 1)
    } else if cache[n - 1].0 == target {
        Some(cache[n - 1].1)
    } else {
        None
    }
}

/// The MCFG table's records with a memoization cache of resolved targets.
pub struct Mcfg {
    /// The parsed records.
    pub records: Vec<McfgRecord>,
    /// Resolved targets, in resolution order.
    pub cache: Vec<(PciConfigAddress, PciAddress)>,
}

impl Mcfg {
    /// A table from parsed records, with nothing resolved yet.
    pub fn new(records: Vec<McfgRecord>) -> (r: Mcfg)
        ensures
            r.records == records,
            r.cache@.len() == 0,
    {
        Mcfg { records, cache: Vec::new() }
    }

    /// A cached resolution of a target, if one was memoized.
    pub fn lookup(&self, target: PciConfigAddress) -> (r: Option<PciAddress>)
        ensures
            r == cache_lookup(self.cache@, target, self.cache@.len() as int),
    {
        let mut i: usize = 0;
        while i < self.cache.len()
            invariant
                i <= self.cache@.len(),
                cache_lookup(self.cache@, target, i as int) is None,
            decreases self.cache@.len() - i,
        {
            let (key, value) = self.cache[i];
            if key == target {
                proof {
                    lemma_cache_lookup_monotonic(
                        self.cache@,
                        target,
                        i + 1,
                        self.cache@.len() as int,
                    );
                }
                return Some(value);
            }
            i = i + 1;
        }
        None
    }

    /// Memoize a resolution.
    pub fn remember(&mut self, target: PciConfigAddress, address: PciAddress)
        ensures
            final(self).records == old(self).records,
            final(self).cache@ == old(self).cache@.push((target, address)),
    {
        self.cache.push((target, address));
    }
}

/// Once a lookup among the first `m` entries finds a resolution, scanning
/// further entries returns the same one.
proof fn lemma_cache_lookup_monotonic(
    cache: Seq<(PciConfigAddress, PciAddress)>,
    target: PciConfigAddress,
    m: int,
    n: int,
)
    requires
        0 < m <= n,
        cache_lookup(cache, target, m) is Some,
    ensures
        cache_lookup(cache, target, n) == cache_lookup(cache, target, m),
    decreases n - m,
{
    if m < n {
        lemma_cache_lookup_monotonic(cache, target, m, n - 1);
    }
}

} // verus!
