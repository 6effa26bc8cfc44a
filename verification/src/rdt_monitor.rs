//! RDT (Resource Director Technology) monitor: cache-occupancy and
//! memory-bandwidth monitoring.
//!
//! A bounded pool of resource-monitoring IDs is allocated one per monitored
//! core (id zero is reserved); each core's RMID is written into its
//! PQR-association register. Collection is grouped by socket and issued from
//! a representative core of that socket, so the event-select and counter
//! MSRs route to the right package.

use vstd::prelude::*;
use crate::arch::get_mbm_scaling_factor;
use crate::counters::wide_product;
use crate::error::UncflowError;
use crate::hw_ops::{sat_add_u64, MsrOp};
use crate::rdt_regs::{IA32_PQR_ASSOC, LLC_OCCUPANCY_EVENT, LOCAL_MEM_BW_EVENT, REMOTE_MEM_BW_EVENT};
use crate::unit_metrics::RdtMetric;

verus! {

/// The size of the RMID pool; usable ids are `1 .. RMID_MAX`.
pub const RMID_MAX: usize = 256;

/// Multiplication that stops at the largest representable value.
pub fn sat_mul_u64(a: u64, b: u64) -> (r: u64)
    ensures
        r == if a * b <= u64::MAX {
            (a * b) as u64
        } else {
            u64::MAX
        },
{
    let p = wide_product(a, b);
    if p > u64::MAX as u128 {
        u64::MAX
    } else {
        p as u64
    }
}

/// One socket's grouping and last aggregated figures.
#[derive(Debug)]
pub struct RdtSocketInfo {
    /// The socket id, as the topology names it.
    pub socket_id: u32,
    /// The monitored cores of this socket.
    pub cores: Vec<u32>,
    /// Last aggregated local memory bandwidth.
    pub last_local_bw: u64,
    /// Last aggregated remote memory bandwidth.
    pub last_remote_bw: u64,
    /// Last aggregated cache occupancy.
    pub last_llc: u64,
}

/// One MSR write followed by one MSR read: select an RMID and event from a
/// socket's representative core, then read the counter there.
#[derive(Debug, Clone, Copy, PartialEq, Eq, Structural)]
pub struct RdtRequest {
    /// The representative core of the socket, from which both MSRs are
    /// touched.
    pub monitor_cpu: u32,
    /// The monitored core the value belongs to.
    pub core: u32,
    /// The value to write into the event-select register.
    pub evtsel: u64,
}

/// The request at one position of a socket's collection-request list: the
/// requests go three per core — cache occupancy, then local and remote
/// bandwidth — all issued from the socket's first core.
pub open spec fn expected_request(socket_cores: Seq<u32>, core_to_rmid: Seq<u32>, i: int) -> RdtRequest {
    let core = socket_cores[i / 3];
    let rmid = core_to_rmid[core as int];
    let event = if i % 3 == 0 {
        LLC_OCCUPANCY_EVENT
    } else if i % 3 == 1 {
        LOCAL_MEM_BW_EVENT
    } else {
        REMOTE_MEM_BW_EVENT
    };
    RdtRequest { monitor_cpu: socket_cores[0], core, evtsel: evtsel_value(rmid, event) }
}

/// The event-select value naming an RMID and event.
pub open spec fn evtsel_value(rmid: u32, event: u64) -> u64 {
    ((rmid as u64) << 32) | event
}

/// The monitored cores of one socket, in configuration order.
pub open spec fn filter_cores(cores: Seq<u32>, packages: Seq<u32>, socket_id: u32, n: int) -> Seq<
    u32>
    decreases n,
{
    if n <= 0 {
        Seq::empty()
    } else {
        filter_cores(cores, packages, socket_id, n - 1) + (if packages[n - 1] == socket_id {
            seq![cores[n - 1]]
        } else {
            Seq::empty()
        })
    }
}

/// Every core a socket's filtered list holds stays below any bound the
/// whole core list respects.
proof fn lemma_filter_bounded(
    cores: Seq<u32>,
    packages: Seq<u32>,
    socket_id: u32,
    n: int,
    bound: u32,
)
    requires
        n <= cores.len(),
        forall|i: int| 0 <= i < cores.len() ==> (#[trigger] cores[i]) < bound,
    ensures
        forall|j: int|
            0 <= j < filter_cores(cores, packages, socket_id, n).len() ==> (
            #[trigger] filter_cores(cores, packages, socket_id, n)[j]) < bound,
    decreases n,
{
    if n > 0 {
        lemma_filter_bounded(cores, packages, socket_id, n - 1, bound);
        let f1 = filter_cores(cores, packages, socket_id, n - 1);
        let f = filter_cores(cores, packages, socket_id, n);
        assert forall|j: int| 0 <= j < f.len() implies f[j] < bound by {
            if j < f1.len() {
                assert(f[j] == f1[j]);
            } else {
                assert(f[j] == cores[n - 1]);
            }
        }
    }
}

/// RDT monitor over the configured cores.
pub struct RdtMonitor {
    /// The monitored cores.
    pub cores: Vec<u32>,
    /// Scaling factor turning bandwidth counter units into bytes.
    pub mbm_scaling_factor: u32,
    /// Per-core local memory bandwidth of the last tick, indexed by core id.
    pub local_memory_bandwidth: Vec<u64>,
    /// Per-core remote memory bandwidth of the last tick.
    pub remote_memory_bandwidth: Vec<u64>,
    /// Per-core cache occupancy of the last tick.
    pub llc_occupancy: Vec<u64>,
    /// Previous raw local-bandwidth counters.
    pub prev_local_counters: Vec<u64>,
    /// Previous raw remote-bandwidth counters.
    pub prev_remote_counters: Vec<u64>,
    /// The RMID assigned to each core id, or zero for none.
    pub core_to_rmid: Vec<u32>,
    /// Which RMIDs are currently allocated.
    pub rmid_used: Vec<bool>,
    /// Socket grouping and per-socket aggregates.
    pub sockets: Vec<RdtSocketInfo>,
}

impl RdtMonitor {
    /// The per-core tables share one size that every monitored core fits,
    /// the pool has its fixed size, and every socket has at least one core.
    pub open spec fn wf(self) -> bool {
        &&& self.rmid_used@.len() == RMID_MAX
        &&& self.local_memory_bandwidth@.len() == self.core_to_rmid@.len()
        &&& self.remote_memory_bandwidth@.len() == self.core_to_rmid@.len()
        &&& self.llc_occupancy@.len() == self.core_to_rmid@.len()
        &&& self.prev_local_counters@.len() == self.core_to_rmid@.len()
        &&& self.prev_remote_counters@.len() == self.core_to_rmid@.len()
        &&& forall|i: int|
            0 <= i < self.cores@.len() ==> (#[trigger] self.cores@[i]) < self.core_to_rmid@.len()
        &&& forall|si: int| 0 <= si < self.sockets@.len() ==> (#[trigger] self.sockets@[si]).cores@.len() > 0
        &&& forall|si: int, j: int|
            0 <= si < self.sockets@.len() && 0 <= j < self.sockets@[si].cores@.len() ==> (
            #[trigger] self.sockets@[si].cores@[j]) < self.core_to_rmid@.len()
    }

    /// A monitor over the given cores, grouped into sockets by their
    /// topology packages (one entry per core, in core order). The
    /// memory-bandwidth scaling factor comes from the processor's
    /// capability word, with a reported zero falling back to one.
    pub fn new(cores: Vec<u32>, packages: &Vec<u32>, mbm_ebx: u32) -> (r: RdtMonitor)
        requires
            cores@.len() == packages@.len(),
            forall|i: int| 0 <= i < cores@.len() ==> (#[trigger] cores@[i]) < 0x10000,
        ensures
            r.wf(),
            r.cores == cores,
            r.mbm_scaling_factor == (if mbm_ebx == 0 {
                1u32
            } else {
                mbm_ebx
            }),
            forall|j: int| 0 <= j < RMID_MAX ==> !(#[trigger] r.rmid_used@[j]),
            forall|i: int| 0 <= i < r.core_to_rmid@.len() ==> (#[trigger] r.core_to_rmid@[i]) == 0,
            // Sockets carry exactly the cores whose package names them, and
            // no socket id repeats.
            forall|si: int|
                0 <= si < r.sockets@.len() ==> (#[trigger] r.sockets@[si]).cores@ == filter_cores(
                    cores@,
                    packages@,
                    r.sockets@[si].socket_id,
                    cores@.len() as int,
                ),
            forall|si: int, sj: int|
                0 <= si < sj < r.sockets@.len() ==> (#[trigger] r.sockets@[si]).socket_id != (
                #[trigger] r.sockets@[sj]).socket_id,
    {
        let factor = get_mbm_scaling_factor(mbm_ebx);
        // One slot per core id up to the largest monitored core.
        let mut vector_size: usize = 1;
        let mut i: usize = 0;
        while i < cores.len()
            invariant
                i <= cores@.len(),
                1 <= vector_size <= 0x10000,
                forall|k: int| 0 <= k < i ==> (#[trigger] cores@[k]) < vector_size,
                forall|k: int| 0 <= k < cores@.len() ==> (#[trigger] cores@[k]) < 0x10000,
            decreases cores@.len() - i,
        {
            if cores[i] as usize >= vector_size {
                vector_size = cores[i] as usize + 1;
            }
            i = i + 1;
        }
        let local_memory_bandwidth = zero_u64_vec(vector_size);
        let remote_memory_bandwidth = zero_u64_vec(vector_size);
        let llc_occupancy = zero_u64_vec(vector_size);
        let prev_local_counters = zero_u64_vec(vector_size);
        let prev_remote_counters = zero_u64_vec(vector_size);
        let mut core_to_rmid: Vec<u32> = Vec::new();
        let mut k: usize = 0;
        while k < vector_size
            invariant
                k <= vector_size,
                core_to_rmid@.len() == k,
                forall|j: int| 0 <= j < k ==> (#[trigger] core_to_rmid@[j]) == 0,
            decreases vector_size - k,
        {
            core_to_rmid.push(0);
            k = k + 1;
        }
        let mut rmid_used: Vec<bool> = Vec::new();
        let mut m: usize = 0;
        while m < RMID_MAX
            invariant
                m <= RMID_MAX,
                rmid_used@.len() == m,
                forall|j: int| 0 <= j < m ==> !(#[trigger] rmid_used@[j]),
            decreases RMID_MAX - m,
        {
            rmid_used.push(false);
            m = m + 1;
        }
        // Group cores into sockets: collect the distinct socket ids in
        // order of first appearance, then each socket's cores.
        let mut socket_ids: Vec<u32> = Vec::new();
        let mut p: usize = 0;
        while p < packages.len()
            invariant
                p <= packages@.len(),
                forall|a: int, b: int|
                    0 <= a < b < socket_ids@.len() ==> (#[trigger] socket_ids@[a]) != (
                    #[trigger] socket_ids@[b]),
            decreases packages@.len() - p,
        {
            let sid = packages[p];
            let mut found = false;
            let mut q: usize = 0;
            while q < socket_ids.len()
                invariant
                    q <= socket_ids@.len(),
                    found <==> exists|si: int| 0 <= si < q && (#[trigger] socket_ids@[si]) == sid,
                decreases socket_ids@.len() - q,
            {
                if socket_ids[q] == sid {
                    found = true;
                    proof {
                        assert(0 <= q < q + 1 && socket_ids@[q as int] == sid);
                    }
                    q = socket_ids.len();
                } else {
                    q = q + 1;
                }
            }
            if !found {
                socket_ids.push(sid);
            }
            p = p + 1;
        }
        let mut sockets: Vec<RdtSocketInfo> = Vec::new();
        let mut s: usize = 0;
        while s < socket_ids.len()
            invariant
                s <= socket_ids@.len(),
                cores@.len() == packages@.len(),
                1 <= vector_size <= 0x10000,
                forall|i2: int| 0 <= i2 < cores@.len() ==> (#[trigger] cores@[i2]) < vector_size,
                forall|a: int, b: int|
                    0 <= a < b < socket_ids@.len() ==> (#[trigger] socket_ids@[a]) != (
                    #[trigger] socket_ids@[b]),
                sockets@.len() <= s,
                forall|si: int|
                    0 <= si < sockets@.len() ==> (#[trigger] sockets@[si]).cores@ == filter_cores(
                        cores@,
                        packages@,
                        sockets@[si].socket_id,
                        cores@.len() as int,
                    ),
                forall|si: int| 0 <= si < sockets@.len() ==> (#[trigger] sockets@[si]).cores@.len() > 0,
                forall|si: int, j: int|
                    0 <= si < sockets@.len() && 0 <= j < sockets@[si].cores@.len() ==> (
                    #[trigger] sockets@[si].cores@[j]) < vector_size,
                forall|si: int|
                    0 <= si < sockets@.len() ==> exists|t: int|
                        0 <= t < s && socket_ids@[t] == (#[trigger] sockets@[si]).socket_id,
                forall|si: int, sj: int|
                    0 <= si < sj < sockets@.len() ==> (#[trigger] sockets@[si]).socket_id != (
                    #[trigger] sockets@[sj]).socket_id,
            decreases socket_ids@.len() - s,
        {
            let sid = socket_ids[s];
            let mut socket_cores: Vec<u32> = Vec::new();
            let mut c: usize = 0;
            while c < cores.len()
                invariant
                    c <= cores@.len(),
                    cores@.len() == packages@.len(),
                    socket_cores@ == filter_cores(cores@, packages@, sid, c as int),
                decreases cores@.len() - c,
            {
                if packages[c] == sid {
                    socket_cores.push(cores[c]);
                }
                c = c + 1;
            }
            if socket_cores.len() > 0 {
                proof {
                    lemma_filter_bounded(
                        cores@,
                        packages@,
                        sid,
                        cores@.len() as int,
                        vector_size as u32,
                    );
                    assert forall|si: int| 0 <= si < sockets@.len() implies (
                    #[trigger] sockets@[si]).socket_id != sid by {
                        let t = choose|t: int|
                            0 <= t < s && socket_ids@[t] == sockets@[si].socket_id;
                    }
                }
                sockets.push(
                    RdtSocketInfo {
                        socket_id: sid,
                        cores: socket_cores,
                        last_local_bw: 0,
                        last_remote_bw: 0,
                        last_llc: 0,
                    },
                );
                proof {
                    assert(0 <= s < s + 1 && socket_ids@[s as int] == sockets@[sockets@.len()
                        - 1].socket_id);
                }
            }
            s = s + 1;
        }
        RdtMonitor {
            cores,
            mbm_scaling_factor: factor,
            local_memory_bandwidth,
            remote_memory_bandwidth,
            llc_occupancy,
            prev_local_counters,
            prev_remote_counters,
            core_to_rmid,
            rmid_used,
            sockets,
        }
    }

    /// Allocate the lowest free RMID; id zero is reserved, and the pool
    /// holds `RMID_MAX - 1` usable ids.
    pub fn allocate_rmid(&mut self) -> (r: Result<u32, UncflowError>)
        requires
            old(self).wf(),
        ensures
            final(self).wf(),
            *final(self) == (RdtMonitor { rmid_used: final(self).rmid_used, ..*old(self) }),
            match r {
                Ok(rmid) => {
                    &&& 1 <= rmid < RMID_MAX
                    &&& !old(self).rmid_used@[rmid as int]
                    &&& forall|j: int| 1 <= j < rmid ==> old(self).rmid_used@[j]
                    &&& final(self).rmid_used@ == old(self).rmid_used@.update(rmid as int, true)
                },
                Err(e) => {
                    &&& e == UncflowError::HwConfig
                    &&& forall|j: int| 1 <= j < RMID_MAX ==> old(self).rmid_used@[j]
                    &&& final(self).rmid_used == old(self).rmid_used
                },
            },
    {
        let mut i: usize = 1;
        while i < RMID_MAX
            invariant
                old(self).wf(),
                *self == *old(self),
                1 <= i <= RMID_MAX,
                forall|j: int| 1 <= j < i ==> old(self).rmid_used@[j],
            decreases RMID_MAX - i,
        {
            if !self.rmid_used[i] {
                self.rmid_used.set(i, true);
                return Ok(i as u32);
            }
            i = i + 1;
        }
        Err(UncflowError::HwConfig)
    }

    /// Release an RMID back to the pool; id zero and out-of-range ids are
    /// ignored.
    pub fn free_rmid(&mut self, rmid: u32)
        requires
            old(self).wf(),
        ensures
            final(self).wf(),
            *final(self) == (RdtMonitor { rmid_used: final(self).rmid_used, ..*old(self) }),
            1 <= rmid < RMID_MAX ==> final(self).rmid_used@ == old(self).rmid_used@.update(
                rmid as int,
                false,
            ),
            !(1 <= rmid < RMID_MAX) ==> final(self).rmid_used == old(self).rmid_used,
    {
        if rmid > 0 && (rmid as usize) < RMID_MAX {
            self.rmid_used.set(rmid as usize, false);
        }
    }

    /// The PQR-association write binding an RMID to a core: the register's
    /// low ten bits are replaced and the class-of-service bits are kept.
    pub fn assign_rmid_to_core(&mut self, core: u32, rmid: u32, current_assoc: u64) -> (op: MsrOp)
        requires
            old(self).wf(),
            (core as int) < old(self).core_to_rmid@.len(),
        ensures
            final(self).wf(),
            *final(self) == (RdtMonitor { core_to_rmid: final(self).core_to_rmid, ..*old(self) }),
            final(self).core_to_rmid@ == old(self).core_to_rmid@.update(core as int, rmid),
            op.cpu == core,
            op.addr == IA32_PQR_ASSOC,
            op.value == (current_assoc & !0x3FFu64) | (rmid as u64),
    {
        let new_assoc = (current_assoc & !0x3FFu64) | (rmid as u64);
        self.core_to_rmid.set(core as usize, rmid);
        MsrOp { cpu: core, addr: IA32_PQR_ASSOC, value: new_assoc }
    }

    /// Allocate one RMID per monitored core, in core order starting at one,
    /// and produce the association writes; `current_assocs` holds each
    /// core's current PQR-association value, in core order. With more cores
    /// than the pool holds, allocation stops at exhaustion.
    pub fn initialize(&mut self, current_assocs: &Vec<u64>) -> (r: Result<Vec<MsrOp>, UncflowError>)
        requires
            old(self).wf(),
            current_assocs@.len() == old(self).cores@.len(),
            forall|j: int| 1 <= j < RMID_MAX ==> !old(self).rmid_used@[j],
        ensures
            final(self).wf(),
            final(self).cores == old(self).cores,
            final(self).sockets == old(self).sockets,
            old(self).cores@.len() < RMID_MAX ==> match r {
                Ok(ops) => {
                    &&& ops@.len() == old(self).cores@.len()
                    &&& forall|i: int|
                        0 <= i < ops@.len() ==> (#[trigger] ops@[i]) == (MsrOp {
                            cpu: old(self).cores@[i],
                            addr: IA32_PQR_ASSOC,
                            value: (current_assocs@[i] & !0x3FFu64) | ((i + 1) as u64),
                        })
                },
                Err(_) => false,
            },
            old(self).cores@.len() >= RMID_MAX ==> r is Err,
    {
        let mut ops: Vec<MsrOp> = Vec::new();
        let mut i: usize = 0;
        while i < self.cores.len()
            invariant
                old(self).wf(),
                self.wf(),
                self.cores == old(self).cores,
                self.sockets == old(self).sockets,
                current_assocs@.len() == old(self).cores@.len(),
                i <= self.cores@.len(),
                i < RMID_MAX,
                ops@.len() == i,
                forall|j: int| 1 <= j < RMID_MAX ==> ((#[trigger] self.rmid_used@[j]) <==> 1 <= j
                    <= i),
                forall|k: int|
                    0 <= k < i ==> (#[trigger] ops@[k]) == (MsrOp {
                        cpu: old(self).cores@[k],
                        addr: IA32_PQR_ASSOC,
                        value: (current_assocs@[k] & !0x3FFu64) | ((k + 1) as u64),
                    }),
            decreases self.cores@.len() - i,
        {
            let ghost used_before = self.rmid_used@;
            let rmid = match self.allocate_rmid() {
                Ok(rmid) => rmid,
                Err(e) => {
                    proof {
                        if old(self).cores@.len() < RMID_MAX {
                            assert(self.rmid_used@[i as int + 1]);
                        }
                    }
                    return Err(e);
                },
            };
            proof {
                // The pool is filled in order, so the lowest free id is the
                // next one.
                if i + 1 < RMID_MAX {
                    assert(!used_before[i as int + 1]);
                }
                assert(rmid == i + 1) by {
                    if rmid > i + 1 {
                        assert(used_before[i as int + 1]);
                    }
                }
            }
            let core = self.cores[i];
            let op = self.assign_rmid_to_core(core, rmid, current_assocs[i]);
            ops.push(op);
            if i + 1 >= RMID_MAX {
                return Err(UncflowError::HwConfig);
            }
            i = i + 1;
        }
        Ok(ops)
    }

    /// The collection requests of one socket: for each of its cores, in
    /// order, select and read cache occupancy, local bandwidth and remote
    /// bandwidth — every request issued from the socket's representative
    /// core (its first monitored core).
    pub fn collection_requests(&self, socket_idx: usize) -> (r: Vec<RdtRequest>)
        requires
            self.wf(),
            socket_idx < self.sockets@.len(),
        ensures
            r@.len() == 3 * self.sockets@[socket_idx as int].cores@.len(),
            forall|i: int|
                0 <= i < r@.len() ==> (#[trigger] r@[i]) == expected_request(
                    self.sockets@[socket_idx as int].cores@,
                    self.core_to_rmid@,
                    i,
                ),
    {
        let monitor_cpu = self.sockets[socket_idx].cores[0];
        let mut r: Vec<RdtRequest> = Vec::new();
        let mut j: usize = 0;
        while j < self.sockets[socket_idx].cores.len()
            invariant
                self.wf(),
                socket_idx < self.sockets@.len(),
                monitor_cpu == self.sockets@[socket_idx as int].cores@[0],
                j <= self.sockets@[socket_idx as int].cores@.len(),
                r@.len() == 3 * j,
                forall|i: int|
                    0 <= i < r@.len() ==> (#[trigger] r@[i]) == expected_request(
                        self.sockets@[socket_idx as int].cores@,
                        self.core_to_rmid@,
                        i,
                    ),
            decreases self.sockets@[socket_idx as int].cores@.len() - j,
        {
            let core = self.sockets[socket_idx].cores[j];
            let rmid = self.core_to_rmid[core as usize];
            r.push(
                RdtRequest {
                    monitor_cpu,
                    core,
                    evtsel: ((rmid as u64) << 32) | LLC_OCCUPANCY_EVENT,
                },
            );
            r.push(
                RdtRequest { monitor_cpu, core, evtsel: ((rmid as u64) << 32) | LOCAL_MEM_BW_EVENT },
            );
            r.push(
                RdtRequest {
                    monitor_cpu,
                    core,
                    evtsel: ((rmid as u64) << 32) | REMOTE_MEM_BW_EVENT,
                },
            );
            proof {
                assert((3 * j as int) / 3 == j as int && (3 * j as int) % 3 == 0);
                assert((3 * j as int + 1) / 3 == j as int && (3 * j as int + 1) % 3 == 1);
                assert((3 * j as int + 2) / 3 == j as int && (3 * j as int + 2) % 3 == 2);
            }
            j = j + 1;
        }
        r
    }

    /// The bandwidth increment of a free-running counter: the difference
    /// when it grew, or the raw value after a wrap or reallocation reset.
    pub open spec fn bw_delta(cur: u64, prev: u64) -> u64 {
        if cur >= prev {
            (cur - prev) as u64
        } else {
            cur
        }
    }

    /// Fold one core's three counter readings into its per-core figures:
    /// occupancy and the two bandwidth increments, each scaled by the
    /// memory-bandwidth factor.
    pub fn apply_core_counters(&mut self, core: u32, llc_raw: u64, local_raw: u64, remote_raw: u64)
        requires
            old(self).wf(),
            (core as int) < old(self).core_to_rmid@.len(),
        ensures
            final(self).wf(),
            final(self).cores == old(self).cores,
            final(self).sockets == old(self).sockets,
            final(self).core_to_rmid == old(self).core_to_rmid,
            final(self).rmid_used == old(self).rmid_used,
            ({
                let f = old(self).mbm_scaling_factor as u64;
                let c = core as int;
                &&& final(self).llc_occupancy@ == old(self).llc_occupancy@.update(
                    c,
                    (if llc_raw * f <= u64::MAX {
                        (llc_raw * f) as u64
                    } else {
                        u64::MAX
                    }),
                )
                &&& final(self).local_memory_bandwidth@ == old(
                    self,
                ).local_memory_bandwidth@.update(
                    c,
                    (if Self::bw_delta(local_raw, old(self).prev_local_counters@[c]) * f
                        <= u64::MAX {
                        (Self::bw_delta(local_raw, old(self).prev_local_counters@[c]) * f) as u64
                    } else {
                        u64::MAX
                    }),
                )
                &&& final(self).remote_memory_bandwidth@ == old(
                    self,
                ).remote_memory_bandwidth@.update(
                    c,
                    (if Self::bw_delta(remote_raw, old(self).prev_remote_counters@[c]) * f
                        <= u64::MAX {
                        (Self::bw_delta(remote_raw, old(self).prev_remote_counters@[c]) * f) as u64
                    } else {
                        u64::MAX
                    }),
                )
                &&& final(self).prev_local_counters@ == old(self).prev_local_counters@.update(
                    c,
                    local_raw,
                )
                &&& final(self).prev_remote_counters@ == old(self).prev_remote_counters@.update(
                    c,
                    remote_raw,
                )
            }),
    {
        let f = self.mbm_scaling_factor as u64;
        let c = core as usize;
        self.llc_occupancy.set(c, sat_mul_u64(llc_raw, f));
        let prev_local = self.prev_local_counters[c];
        let local_delta = if local_raw >= prev_local {
            local_raw - prev_local
        } else {
            local_raw
        };
        self.local_memory_bandwidth.set(c, sat_mul_u64(local_delta, f));
        let prev_remote = self.prev_remote_counters[c];
        let remote_delta = if remote_raw >= prev_remote {
            remote_raw - prev_remote
        } else {
            remote_raw
        };
        self.remote_memory_bandwidth.set(c, sat_mul_u64(remote_delta, f));
        self.prev_local_counters.set(c, local_raw);
        self.prev_remote_counters.set(c, remote_raw);
    }

    /// The saturating sum of a table's entries over a core list.
    pub open spec fn sum_over_cores(values: Seq<u64>, cores: Seq<u32>, n: int) -> u64
        decreases n,
    {
        if n <= 0 {
            0u64
        } else {
            let rest = Self::sum_over_cores(values, cores, n - 1);
            if rest + values[cores[n - 1] as int] <= u64::MAX {
                (rest + values[cores[n - 1] as int]) as u64
            } else {
                u64::MAX
            }
        }
    }

    /// Refresh one socket's aggregates from its cores' per-core figures.
    pub fn aggregate_socket(&mut self, socket_idx: usize)
        requires
            old(self).wf(),
            socket_idx < old(self).sockets@.len(),
        ensures
            final(self).wf(),
            *final(self) == (RdtMonitor { sockets: final(self).sockets, ..*old(self) }),
            final(self).sockets@.len() == old(self).sockets@.len(),
            forall|si: int|
                0 <= si < old(self).sockets@.len() && si != socket_idx ==> final(self).sockets@[si]
                    == old(self).sockets@[si],
            ({
                let s = old(self).sockets@[socket_idx as int];
                let n = s.cores@.len() as int;
                let f = final(self).sockets@[socket_idx as int];
                &&& f.socket_id == s.socket_id
                &&& f.cores@ == s.cores@
                &&& f.last_local_bw == Self::sum_over_cores(
                    old(self).local_memory_bandwidth@,
                    s.cores@,
                    n,
                )
                &&& f.last_remote_bw == Self::sum_over_cores(
                    old(self).remote_memory_bandwidth@,
                    s.cores@,
                    n,
                )
                &&& f.last_llc == Self::sum_over_cores(old(self).llc_occupancy@, s.cores@, n)
            }),
    {
        let n = self.sockets[socket_idx].cores.len();
        let mut local: u64 = 0;
        let mut remote: u64 = 0;
        let mut llc: u64 = 0;
        let mut j: usize = 0;
        while j < n
            invariant
                old(self).wf(),
                *self == *old(self),
                socket_idx < self.sockets@.len(),
                n == self.sockets@[socket_idx as int].cores@.len(),
                j <= n,
                local == Self::sum_over_cores(
                    self.local_memory_bandwidth@,
                    self.sockets@[socket_idx as int].cores@,
                    j as int,
                ),
                remote == Self::sum_over_cores(
                    self.remote_memory_bandwidth@,
                    self.sockets@[socket_idx as int].cores@,
                    j as int,
                ),
                llc == Self::sum_over_cores(
                    self.llc_occupancy@,
                    self.sockets@[socket_idx as int].cores@,
                    j as int,
                ),
            decreases n - j,
        {
            let core = self.sockets[socket_idx].cores[j] as usize;
            local = sat_add_u64(local, self.local_memory_bandwidth[core]);
            remote = sat_add_u64(remote, self.remote_memory_bandwidth[core]);
            llc = sat_add_u64(llc, self.llc_occupancy[core]);
            j = j + 1;
        }
        let sid = self.sockets[socket_idx].socket_id;
        let mut cores_copy: Vec<u32> = Vec::new();
        let mut c: usize = 0;
        while c < n
            invariant
                old(self).wf(),
                *self == *old(self),
                socket_idx < self.sockets@.len(),
                n == self.sockets@[socket_idx as int].cores@.len(),
                c <= n,
                cores_copy@ == self.sockets@[socket_idx as int].cores@.take(c as int),
            decreases n - c,
        {
            cores_copy.push(self.sockets[socket_idx].cores[c]);
            c = c + 1;
        }
        proof {
            assert(cores_copy@ =~= self.sockets@[socket_idx as int].cores@);
        }
        self.sockets.set(
            socket_idx,
            RdtSocketInfo {
                socket_id: sid,
                cores: cores_copy,
                last_local_bw: local,
                last_remote_bw: remote,
                last_llc: llc,
            },
        );
    }

    /// Refresh every socket's aggregates from the per-core figures.
    pub fn update(&mut self)
        requires
            old(self).wf(),
        ensures
            final(self).wf(),
            *final(self) == (RdtMonitor { sockets: final(self).sockets, ..*old(self) }),
            final(self).sockets@.len() == old(self).sockets@.len(),
            forall|si: int|
                0 <= si < old(self).sockets@.len() ==> {
                    let s = old(self).sockets@[si];
                    let n = s.cores@.len() as int;
                    let f = (#[trigger] final(self).sockets@[si]);
                    &&& f.socket_id == s.socket_id
                    &&& f.cores@ == s.cores@
                    &&& f.last_local_bw == Self::sum_over_cores(
                        old(self).local_memory_bandwidth@,
                        s.cores@,
                        n,
                    )
                    &&& f.last_remote_bw == Self::sum_over_cores(
                        old(self).remote_memory_bandwidth@,
                        s.cores@,
                        n,
                    )
                    &&& f.last_llc == Self::sum_over_cores(old(self).llc_occupancy@, s.cores@, n)
                },
    {
        let mut si: usize = 0;
        while si < self.sockets.len()
            invariant
                old(self).wf(),
                self.wf(),
                *self == (RdtMonitor { sockets: self.sockets, ..*old(self) }),
                si <= self.sockets@.len(),
                self.sockets@.len() == old(self).sockets@.len(),
                forall|k: int|
                    si <= k < old(self).sockets@.len() ==> {
                        let s = old(self).sockets@[k];
                        let f = (#[trigger] self.sockets@[k]);
                        f.socket_id == s.socket_id && f.cores@ == s.cores@ && f.last_local_bw
                            == s.last_local_bw && f.last_remote_bw == s.last_remote_bw
                            && f.last_llc == s.last_llc
                    },
                forall|k: int|
                    0 <= k < si ==> {
                        let s = old(self).sockets@[k];
                        let n = s.cores@.len() as int;
                        let f = (#[trigger] self.sockets@[k]);
                        &&& f.socket_id == s.socket_id
                        &&& f.cores@ == s.cores@
                        &&& f.last_local_bw == Self::sum_over_cores(
                            old(self).local_memory_bandwidth@,
                            s.cores@,
                            n,
                        )
                        &&& f.last_remote_bw == Self::sum_over_cores(
                            old(self).remote_memory_bandwidth@,
                            s.cores@,
                            n,
                        )
                        &&& f.last_llc == Self::sum_over_cores(
                            old(self).llc_occupancy@,
                            s.cores@,
                            n,
                        )
                    },
            decreases self.sockets@.len() - si,
        {
            self.aggregate_socket(si);
            si = si + 1;
        }
    }

    /// The association writes re-asserting every assigned RMID;
    /// `current_assocs` holds each core's current PQR-association value, in
    /// core order. Hot-migrated processes can disturb PQR state, so these
    /// are issued periodically.
    pub fn refresh_rmids(&self, current_assocs: &Vec<u64>) -> (ops: Vec<MsrOp>)
        requires
            self.wf(),
            current_assocs@.len() == self.cores@.len(),
        ensures
            ops@ == refresh_ops_upto(
                self.cores@,
                self.core_to_rmid@,
                current_assocs@,
                self.cores@.len() as int,
            ),
    {
        let mut ops: Vec<MsrOp> = Vec::new();
        let mut i: usize = 0;
        while i < self.cores.len()
            invariant
                self.wf(),
                current_assocs@.len() == self.cores@.len(),
                i <= self.cores@.len(),
                ops@ == refresh_ops_upto(self.cores@, self.core_to_rmid@, current_assocs@, i as int),
            decreases self.cores@.len() - i,
        {
            let core = self.cores[i];
            let rmid = self.core_to_rmid[core as usize];
            if rmid != 0 {
                ops.push(
                    MsrOp {
                        cpu: core,
                        addr: IA32_PQR_ASSOC,
                        value: (current_assocs[i] & !0x3FFu64) | (rmid as u64),
                    },
                );
            }
            i = i + 1;
        }
        ops
    }

    /// Release every RMID the monitor assigned, leaving the whole pool free
    /// again; the owner calls this when monitoring ends.
    pub fn release_all(&mut self)
        requires
            old(self).wf(),
        ensures
            final(self).wf(),
            *final(self) == (RdtMonitor {
                rmid_used: final(self).rmid_used,
                core_to_rmid: final(self).core_to_rmid,
                ..*old(self)
            }),
            forall|i: int|
                0 <= i < old(self).cores@.len() ==> {
                    let rmid = old(self).core_to_rmid@[(#[trigger] old(self).cores@[i]) as int] as int;
                    (1 <= rmid < RMID_MAX) ==> !final(self).rmid_used@[rmid]
                },
    {
        let mut i: usize = 0;
        while i < self.cores.len()
            invariant
                old(self).wf(),
                self.wf(),
                self.cores == old(self).cores,
                self.sockets == old(self).sockets,
                self.mbm_scaling_factor == old(self).mbm_scaling_factor,
                self.local_memory_bandwidth == old(self).local_memory_bandwidth,
                self.remote_memory_bandwidth == old(self).remote_memory_bandwidth,
                self.llc_occupancy == old(self).llc_occupancy,
                self.prev_local_counters == old(self).prev_local_counters,
                self.prev_remote_counters == old(self).prev_remote_counters,
                i <= self.cores@.len(),
                self.core_to_rmid@.len() == old(self).core_to_rmid@.len(),
                self.rmid_used@.len() == RMID_MAX,
                forall|k: int|
                    0 <= k < i ==> {
                        let rmid = old(self).core_to_rmid@[(#[trigger] old(self).cores@[k]) as int] as int;
                        (1 <= rmid < RMID_MAX) ==> !self.rmid_used@[rmid]
                    },
                forall|k: int|
                    0 <= k < self.core_to_rmid@.len() ==> (#[trigger] self.core_to_rmid@[k]) == 0
                        || self.core_to_rmid@[k] == old(self).core_to_rmid@[k],
                forall|k: int|
                    0 <= k < self.core_to_rmid@.len() && (#[trigger] self.core_to_rmid@[k]) == 0
                        && old(self).core_to_rmid@[k] != 0 && 1 <= old(self).core_to_rmid@[k]
                        < RMID_MAX ==> !self.rmid_used@[old(self).core_to_rmid@[k] as int],
                forall|j: int|
                    0 <= j < RMID_MAX && old(self).rmid_used@[j] != (#[trigger] self.rmid_used@[j])
                        ==> !self.rmid_used@[j],
            decreases self.cores@.len() - i,
        {
            let core = self.cores[i] as usize;
            let rmid = self.core_to_rmid[core];
            if rmid != 0 {
                self.free_rmid(rmid);
                self.core_to_rmid.set(core, 0);
            }
            i = i + 1;
        }
    }

    /// A monitored core's figures: local, remote and total bandwidth and
    /// cache occupancy; empty for a core that is not monitored.
    pub fn get_metrics(&self, core_id: u32) -> (r: Vec<(RdtMetric, u64)>)
        requires
            self.wf(),
        ensures
            !self.cores@.contains(core_id) ==> r@.len() == 0,
            self.cores@.contains(core_id) ==> {
                let c = core_id as int;
                &&& r@.len() == 4
                &&& r@[0] == (RdtMetric::LocalMemoryBandwidth, self.local_memory_bandwidth@[c])
                &&& r@[1] == (RdtMetric::RemoteMemoryBandwidth, self.remote_memory_bandwidth@[c])
                &&& r@[2] == (
                    RdtMetric::TotalMemoryBandwidth,
                    (if self.local_memory_bandwidth@[c] + self.remote_memory_bandwidth@[c]
                        <= u64::MAX {
                        (self.local_memory_bandwidth@[c] + self.remote_memory_bandwidth@[c]) as u64
                    } else {
                        u64::MAX
                    }),
                )
                &&& r@[3] == (RdtMetric::LlcOccupancy, self.llc_occupancy@[c])
            },
    {
        let mut found = false;
        let mut i: usize = 0;
        while i < self.cores.len()
            invariant
                self.wf(),
                i <= self.cores@.len(),
                found <==> exists|k: int| 0 <= k < i && (#[trigger] self.cores@[k]) == core_id,
            decreases self.cores@.len() - i,
        {
            if self.cores[i] == core_id {
                found = true;
                proof {
                    assert(0 <= i < i + 1 && self.cores@[i as int] == core_id);
                }
                i = self.cores.len();
            } else {
                i = i + 1;
            }
        }
        let mut r: Vec<(RdtMetric, u64)> = Vec::new();
        if found {
            let c = core_id as usize;
            r.push((RdtMetric::LocalMemoryBandwidth, self.local_memory_bandwidth[c]));
            r.push((RdtMetric::RemoteMemoryBandwidth, self.remote_memory_bandwidth[c]));
            r.push(
                (
                    RdtMetric::TotalMemoryBandwidth,
                    sat_add_u64(self.local_memory_bandwidth[c], self.remote_memory_bandwidth[c]),
                ),
            );
            r.push((RdtMetric::LlcOccupancy, self.llc_occupancy[c]));
        }
        r
    }

    /// A socket's aggregated figures, from its last aggregation; empty for
    /// an unknown socket id.
    pub fn get_socket_metrics(&self, socket_id: u32) -> (r: Vec<(RdtMetric, u64)>)
        requires
            self.wf(),
        ensures
            forall|si: int|
                0 <= si < self.sockets@.len() && (#[trigger] self.sockets@[si]).socket_id
                    == socket_id && (forall|sj: int|
                    0 <= sj < si ==> (#[trigger] self.sockets@[sj]).socket_id != socket_id) ==> {
                    let s = self.sockets@[si];
                    &&& r@.len() == 4
                    &&& r@[0] == (RdtMetric::LocalMemoryBandwidth, s.last_local_bw)
                    &&& r@[1] == (RdtMetric::RemoteMemoryBandwidth, s.last_remote_bw)
                    &&& r@[2] == (
                        RdtMetric::TotalMemoryBandwidth,
                        (if s.last_local_bw + s.last_remote_bw <= u64::MAX {
                            (s.last_local_bw + s.last_remote_bw) as u64
                        } else {
                            u64::MAX
                        }),
                    )
                    &&& r@[3] == (RdtMetric::LlcOccupancy, s.last_llc)
                },
            (forall|si: int|
                0 <= si < self.sockets@.len() ==> (#[trigger] self.sockets@[si]).socket_id
                    != socket_id) ==> r@.len() == 0,
    {
        let mut r: Vec<(RdtMetric, u64)> = Vec::new();
        let mut si: usize = 0;
        while si < self.sockets.len()
            invariant
                self.wf(),
                si <= self.sockets@.len(),
                forall|sj: int|
                    0 <= sj < si ==> (#[trigger] self.sockets@[sj]).socket_id != socket_id,
                r@.len() == 0,
            decreases self.sockets@.len() - si,
        {
            if self.sockets[si].socket_id == socket_id {
                let s = &self.sockets[si];
                r.push((RdtMetric::LocalMemoryBandwidth, s.last_local_bw));
                r.push((RdtMetric::RemoteMemoryBandwidth, s.last_remote_bw));
                r.push(
                    (
                        RdtMetric::TotalMemoryBandwidth,
                        sat_add_u64(s.last_local_bw, s.last_remote_bw),
                    ),
                );
                r.push((RdtMetric::LlcOccupancy, s.last_llc));
                return r;
            }
            si = si + 1;
        }
        r
    }
}

/// The association writes of the first `n` cores that hold an RMID.
pub open spec fn refresh_ops_upto(
    cores: Seq<u32>,
    core_to_rmid: Seq<u32>,
    assocs: Seq<u64>,
    n: int,
) -> Seq<MsrOp>
    decreases n,
{
    if n <= 0 {
        Seq::empty()
    } else {
        refresh_ops_upto(cores, core_to_rmid, assocs, n - 1) + (if core_to_rmid[cores[n - 1] as int]
            != 0 {
            seq![
                MsrOp {
                    cpu: cores[n - 1],
                    addr: IA32_PQR_ASSOC,
                    value: (assocs[n - 1] & !0x3FFu64) | (core_to_rmid[cores[n - 1] as int] as u64),
                },
            ]
        } else {
            Seq::empty()
        })
    }
}

/// A zeroed table with one slot per core id.
fn zero_u64_vec(n: usize) -> (r: Vec<u64>)
    ensures
        r@.len() == n,
        forall|i: int| 0 <= i < n ==> (#[trigger] r@[i]) == 0,
{
    let mut r: Vec<u64> = Vec::new();
    let mut i: usize = 0;
    while i < n
        invariant
            i <= n,
            r@.len() == i,
            forall|k: int| 0 <= k < i ==> (#[trigger] r@[k]) == 0,
        decreases n - i,
    {
        r.push(0);
        i = i + 1;
    }
    r
}

} // verus!
