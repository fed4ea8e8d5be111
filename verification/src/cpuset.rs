//! CPU-set records and the allowed-CPU-set bitmask.

use vstd::prelude::*;

verus! {

/// Flag bit of a CPU-set record: the core is parked.
pub const CPU_SET_PARKED: u8 = 1;

/// Flag bit of a CPU-set record: the core is allocated to some process.
pub const CPU_SET_ALLOCATED: u8 = 2;

/// Flag bit of a CPU-set record: the core is allocated to the queried process.
pub const CPU_SET_ALLOCATED_TO_TARGET_PROCESS: u8 = 4;

/// Flag bit of a CPU-set record: the core is reserved for real-time work.
pub const CPU_SET_REALTIME: u8 = 8;

/// Whether bit `i` of `mask` is set.
pub open spec fn bit_is_set(mask: u64, i: u64) -> bool {
    (mask >> i) & 1 == 1
}

/// The mask that has exactly the bits below `core_count` set.
pub open spec fn full_coverage(core_count: u64) -> u64 {
    ((1u64 << core_count) - 1) as u64
}

/// The allowed-CPU-set bitmask that covers every one of `core_count` logical
/// cores: bit `i` is set exactly for `i < core_count`.
pub fn full_coverage_bitmask(core_count: u32) -> (mask: u64)
    requires
        core_count < 64,
    ensures
        mask == full_coverage(core_count as u64),
        forall|i: u64| i < 64 ==> (#[trigger] bit_is_set(mask, i) <==> i < core_count),
{
    let n: u64 = core_count as u64;
    assert((1u64 << n) >= 1) by (bit_vector)
        requires
            n < 64,
    ;
    let mask: u64 = (1u64 << n) - 1;
    assert forall|i: u64| i < 64 implies (#[trigger] bit_is_set(mask, i) <==> i < core_count) by {
        assert(((((1u64 << n) - 1) as u64 >> i) & 1 == 1) <==> i < n) by (bit_vector)
            requires
                n < 64,
                i < 64,
        ;
    }
    mask
}

/// What one CPU-set record says of a logical core, as far as admission reads
/// it. A snapshot is stale as soon as it is taken: every decision is made on
/// one snapshot.
#[derive(Clone, Copy, Debug, PartialEq, Eq)]
pub struct CpuSetInfo {
    pub allocated: bool,
    pub allocated_to_target_process: bool,
    pub realtime: bool,
}

/// The record that a flag byte stands for.
pub open spec fn cpu_set_info(flags: u8) -> CpuSetInfo {
    CpuSetInfo {
        allocated: flags & CPU_SET_ALLOCATED != 0,
        allocated_to_target_process: flags & CPU_SET_ALLOCATED_TO_TARGET_PROCESS != 0,
        realtime: flags & CPU_SET_REALTIME != 0,
    }
}

impl CpuSetInfo {
    /// Reads a record off the flag byte of a CPU-set entry.
    pub fn from_flags(flags: u8) -> (info: CpuSetInfo)
        ensures
            info == cpu_set_info(flags),
    {
        CpuSetInfo {
            allocated: flags & CPU_SET_ALLOCATED != 0,
            allocated_to_target_process: flags & CPU_SET_ALLOCATED_TO_TARGET_PROCESS != 0,
            realtime: flags & CPU_SET_REALTIME != 0,
        }
    }

    /// The core is granted to this process and flagged for real-time work.
    pub open spec fn admits(self) -> bool {
        self.allocated_to_target_process && self.realtime
    }

    /// Whether the core is granted to this process and flagged for real-time
    /// work.
    pub fn is_realtime_grant(&self) -> (granted: bool)
        ensures
            granted == self.admits(),
    {
        self.allocated_to_target_process && self.realtime
    }
}

/// The flag bits are independent: each field of a record follows one bit of
/// the byte, and the parked bit is not read.
pub proof fn lemma_flags_are_independent(allocated: bool, target: bool, realtime: bool, parked: bool)
    ensures
        ({
            let flags: u8 = (if parked { CPU_SET_PARKED } else { 0u8 }) | (if allocated {
                CPU_SET_ALLOCATED
            } else {
                0u8
            }) | (if target { CPU_SET_ALLOCATED_TO_TARGET_PROCESS } else { 0u8 }) | (if realtime {
                CPU_SET_REALTIME
            } else {
                0u8
            });
            cpu_set_info(flags) == (CpuSetInfo {
                allocated,
                allocated_to_target_process: target,
                realtime,
            })
        }),
{
    let p: u8 = if parked { 1 } else { 0 };
    let a: u8 = if allocated { 2 } else { 0 };
    let t: u8 = if target { 4 } else { 0 };
    let r: u8 = if realtime { 8 } else { 0 };
    assert(((p | a | t | r) & 2 != 0) == (a == 2) && ((p | a | t | r) & 4 != 0) == (t == 4) && ((p
        | a | t | r) & 8 != 0) == (r == 8)) by (bit_vector)
        requires
            p == 0 || p == 1,
            a == 0 || a == 2,
            t == 0 || t == 4,
            r == 0 || r == 8,
    ;
}

/// Turns the flag bytes of a freshly taken CPU-set snapshot, one per logical
/// core and in the system's order, into records.
pub fn get_system_cpu_set_information(all_flags: &Vec<u8>) -> (snapshot: Vec<CpuSetInfo>)
    ensures
        snapshot@.len() == all_flags@.len(),
        forall|i: int| 0 <= i < all_flags@.len() ==> snapshot@[i] == cpu_set_info(all_flags@[i]),
{
    let mut snapshot: Vec<CpuSetInfo> = Vec::new();
    let mut k: usize = 0;
    while k < all_flags.len()
        invariant
            k <= all_flags@.len(),
            snapshot@.len() == k,
            forall|i: int| 0 <= i < k ==> snapshot@[i] == cpu_set_info(all_flags@[i]),
        decreases all_flags@.len() - k,
    {
        snapshot.push(CpuSetInfo::from_flags(all_flags[k]));
        k += 1;
    }
    snapshot
}

/// The record admission looks at: that of the first core of the snapshot, if
/// there is one. No other record is read.
pub open spec fn primary_record(snapshot: Seq<CpuSetInfo>) -> Option<CpuSetInfo> {
    if snapshot.len() > 0 {
        Some(snapshot[0])
    } else {
        None
    }
}

/// The record of the first core of the snapshot, if there is one.
pub fn primary_core(snapshot: &Vec<CpuSetInfo>) -> (primary: Option<CpuSetInfo>)
    ensures
        primary == primary_record(snapshot@),
{
    if snapshot.len() > 0 {
        Some(snapshot[0])
    } else {
        None
    }
}

} // verus!
