//! Whether the engine is loaded ahead of time, and when an idle one is released.
//! Clock readings are in nanoseconds.
use vstd::prelude::*;

verus! {

/// Total memory that allows loading ahead: 8 GiB.
pub const MIN_TOTAL_BYTES: u64 = 8_589_934_592;

/// Available memory that allows loading ahead: 2.5 GiB.
pub const MIN_FREE_BYTES: u64 = 2_684_354_560;

/// An engine that was idle for this long is released: five minutes.
pub const IDLE_EVICT_AFTER: u64 = 300_000_000_000;

/// Memory is looked at again after this long: one hour.
pub const RAM_RECHECK_INTERVAL: u64 = 3_600_000_000_000;

/// The memory of the machine at one time, in bytes.
#[derive(Clone, Copy, Debug, PartialEq, Eq, Structural)]
pub struct RamSnapshot {
    pub total_bytes: u64,
    pub free_bytes: u64,
}

/// Whether to load ahead, and why.
#[derive(Clone, Copy, Debug, PartialEq, Eq)]
pub struct PreloadVerdict {
    pub preload: bool,
    pub reason: &'static str,
}

/// Whether to load ahead: it is switched on, and there is enough memory in all and
/// available.
pub open spec fn may_preload(flag: bool, total_bytes: u64, free_bytes: u64) -> bool {
    flag && total_bytes >= MIN_TOTAL_BYTES && free_bytes >= MIN_FREE_BYTES
}

/// Why: the first condition that fails, or that none does.
pub open spec fn reason_of(flag: bool, total_bytes: u64, free_bytes: u64) -> Seq<char> {
    if !flag {
        "preload disabled in config; engines load per use"@
    } else if total_bytes < MIN_TOTAL_BYTES {
        "total RAM below 8 GiB; engines load per use"@
    } else if free_bytes < MIN_FREE_BYTES {
        "free RAM below 2.5 GiB; engines load per use"@
    } else {
        "preload on with total RAM >= 8 GiB and free RAM >= 2.5 GiB"@
    }
}

/// Whether to load ahead, given the setting and the memory of the machine.
pub fn decide(preload_flag: bool, total_bytes: u64, free_bytes: u64) -> (verdict: PreloadVerdict)
    ensures
        verdict.preload == may_preload(preload_flag, total_bytes, free_bytes),
        verdict.reason@ == reason_of(preload_flag, total_bytes, free_bytes),
{
    if !preload_flag {
        return PreloadVerdict {
            preload: false,
            reason: "preload disabled in config; engines load per use",
        };
    }
    if total_bytes < MIN_TOTAL_BYTES {
        return PreloadVerdict {
            preload: false,
            reason: "total RAM below 8 GiB; engines load per use",
        };
    }
    if free_bytes < MIN_FREE_BYTES {
        return PreloadVerdict {
            preload: false,
            reason: "free RAM below 2.5 GiB; engines load per use",
        };
    }
    PreloadVerdict {
        preload: true,
        reason: "preload on with total RAM >= 8 GiB and free RAM >= 2.5 GiB",
    }
}

/// More memory never turns loading ahead off.
pub proof fn more_memory_never_hurts(
    flag: bool,
    total: u64,
    free: u64,
    more_total: u64,
    more_free: u64,
)
    requires
        may_preload(flag, total, free),
        more_total >= total,
        more_free >= free,
    ensures
        may_preload(flag, more_total, more_free),
{
}

/// `sysinfo::System::total_memory` and `available_memory` of the machine, read at
/// the time of the call. Nothing is promised of the figures.
#[verifier::external_body]
pub fn read_ram() -> (snapshot: RamSnapshot) {
    let memory = sysinfo::MemoryRefreshKind::everything();
    let kinds = sysinfo::RefreshKind::nothing().with_memory(memory);
    let system = sysinfo::System::new_with_specifics(kinds);
    RamSnapshot { total_bytes: system.total_memory(), free_bytes: system.available_memory() }
}

/// Reads the memory of the machine once and decides whether to load ahead.
pub fn should_preload(preload_flag: bool) -> (r: (PreloadVerdict, RamSnapshot))
    ensures
        r.0.preload == may_preload(preload_flag, r.1.total_bytes, r.1.free_bytes),
        r.0.reason@ == reason_of(preload_flag, r.1.total_bytes, r.1.free_bytes),
{
    let snapshot = read_ram();
    let verdict = decide(preload_flag, snapshot.total_bytes, snapshot.free_bytes);
    (verdict, snapshot)
}

/// Whether an engine has been idle for long enough to be released.
pub open spec fn idle_over(last_activity: u64, now: u64) -> bool {
    now - last_activity >= IDLE_EVICT_AFTER
}

/// Whether an engine has been idle for long enough to be released.
pub fn should_evict(last_activity: u64, now: u64) -> (r: bool)
    ensures
        r == idle_over(last_activity, now),
{
    now >= last_activity && now - last_activity >= IDLE_EVICT_AFTER
}

/// A clock that went backwards never releases an engine.
pub proof fn reordered_clocks_never_evict(last_activity: u64, now: u64)
    requires
        now <= last_activity,
    ensures
        !idle_over(last_activity, now),
{
}

/// The verdict that counts after memory was looked at again, and whether it changed.
pub fn recheck(previous: PreloadVerdict, preload_flag: bool, snapshot: RamSnapshot) -> (r: (
    PreloadVerdict,
    bool,
))
    ensures
        r.1 == (may_preload(preload_flag, snapshot.total_bytes, snapshot.free_bytes)
            != previous.preload),
        r.0.preload == may_preload(preload_flag, snapshot.total_bytes, snapshot.free_bytes),
        !r.1 ==> r.0 == previous,
        r.1 ==> r.0.reason@ == reason_of(
            preload_flag,
            snapshot.total_bytes,
            snapshot.free_bytes,
        ),
{
    let next = decide(preload_flag, snapshot.total_bytes, snapshot.free_bytes);
    if next.preload != previous.preload {
        (next, true)
    } else {
        (previous, false)
    }
}

/// The bytes of a gibibyte.
pub const GIB: u64 = 1_073_741_824;

/// The whole gibibytes of a number of bytes, as they are shown.
pub open spec fn gib_of(bytes: u64) -> int {
    (bytes as int / GIB as int) % 0x1_0000_0000
}

/// The whole gibibytes of a number of bytes, as they are shown.
pub fn whole_gib(bytes: u64) -> (gib: u32)
    ensures
        gib == gib_of(bytes),
{
    let whole: u64 = bytes / GIB % 0x1_0000_0000;
    whole as u32
}

/// The number of `sysinfo::System::cpus` of the machine, read at the time of the call.
/// Nothing is promised of it.
#[verifier::external_body]
fn read_cores() -> (cores: usize) {
    let kinds = sysinfo::RefreshKind::nothing().with_cpu(sysinfo::CpuRefreshKind::everything());
    sysinfo::System::new_with_specifics(kinds).cpus().len()
}

/// The memory in gibibytes and the logical cores of a machine, as setup shows them.
pub fn device_of(total_bytes: u64, cores: usize) -> (device: (u32, usize))
    ensures
        device.0 == gib_of(total_bytes),
        device.1 == cores,
{
    (whole_gib(total_bytes), cores)
}

/// The machine as setup shows it, with the memory and the number of cores that were read.
pub fn detect_device() -> (r: ((u32, usize), RamSnapshot, usize))
    ensures
        r.0.0 == gib_of(r.1.total_bytes),
        r.0.1 == r.2,
{
    let ram = read_ram();
    let cores: usize = read_cores();
    (device_of(ram.total_bytes, cores), ram, cores)
}

/// Engines are loaded ahead exactly where the setting asks for it and the machine has
/// 8 GiB of memory, 2.5 GiB of them free; where they are not, the reason that is given is
/// the first of these that is missing.
pub proof fn preloading_needs_memory(flag: bool, total: u64, free: u64)
    ensures
        may_preload(flag, total, free) <==> flag && total >= 8 * 1_073_741_824 && 2 * free >= 5
            * 1_073_741_824,
        !flag ==> reason_of(flag, total, free)
            == "preload disabled in config; engines load per use"@,
        flag && total < 8 * 1_073_741_824 ==> reason_of(flag, total, free)
            == "total RAM below 8 GiB; engines load per use"@,
        flag && total >= 8 * 1_073_741_824 && !may_preload(flag, total, free) ==> reason_of(
            flag,
            total,
            free,
        ) == "free RAM below 2.5 GiB; engines load per use"@,
        may_preload(flag, total, free) ==> reason_of(flag, total, free)
            == "preload on with total RAM >= 8 GiB and free RAM >= 2.5 GiB"@,
{
}

/// An idle engine is released after five minutes, and not before.
pub proof fn idle_engines_go_after_five_minutes(last_activity: u64, now: u64)
    ensures
        idle_over(last_activity, now) <==> now >= last_activity + 5 * 60 * 1_000_000_000,
{
}

/// Memory is told in whole GiB, cut off.
pub proof fn memory_is_told_in_whole_gib(bytes: u64)
    ensures
        gib_of(bytes) * 1_073_741_824 <= bytes < (gib_of(bytes) + 1) * 1_073_741_824 || bytes
            >= 0x1_0000_0000 * 1_073_741_824,
{
}

} // verus!
