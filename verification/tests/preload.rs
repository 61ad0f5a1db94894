use amanuensis::preload::{
    decide, detect_device, device_of, read_ram, recheck, should_evict, should_preload, whole_gib, RamSnapshot,
    IDLE_EVICT_AFTER, MIN_FREE_BYTES, MIN_TOTAL_BYTES,
};

const GIB: u64 = 1024 * 1024 * 1024;
const SECOND: u64 = 1_000_000_000;

#[test]
fn allows_preload_at_exact_thresholds() {
    let verdict = decide(true, MIN_TOTAL_BYTES, MIN_FREE_BYTES);
    assert!(verdict.preload);
    assert!(!verdict.reason.is_empty());
}

#[test]
fn denies_preload_one_byte_under_total() {
    let verdict = decide(true, MIN_TOTAL_BYTES - 1, 16 * GIB);
    assert!(!verdict.preload);
}

#[test]
fn denies_preload_one_byte_under_free() {
    let verdict = decide(true, 16 * GIB, MIN_FREE_BYTES - 1);
    assert!(!verdict.preload);
}

#[test]
fn flag_off_denies_despite_ample_ram() {
    let verdict = decide(false, 64 * GIB, 32 * GIB);
    assert!(!verdict.preload);
}

#[test]
fn evicts_only_after_five_minutes_idle() {
    let last = 1_000 * SECOND;
    assert!(!should_evict(last, last + IDLE_EVICT_AFTER - SECOND));
    assert!(should_evict(last, last + IDLE_EVICT_AFTER));
    assert_eq!(IDLE_EVICT_AFTER, 5 * 60 * SECOND);
}

#[test]
fn evict_never_fires_on_reordered_clock() {
    let earlier = 1_000 * SECOND;
    let later = earlier + 10 * SECOND;
    assert!(!should_evict(later, earlier));
}

#[test]
fn the_machine_has_memory() {
    let ram = read_ram();
    assert!(ram.total_bytes > 0);
    assert!(ram.free_bytes <= ram.total_bytes);
    let (verdict, seen) = should_preload(true);
    assert_eq!(
        verdict,
        decide(true, seen.total_bytes, seen.free_bytes)
    );
    let (device, memory, cores) = detect_device();
    assert_eq!(device, device_of(memory.total_bytes, cores));
    assert_eq!(memory.total_bytes, ram.total_bytes);
    assert!(cores >= 1);
    assert_eq!(device_of(17 * GIB - 1, 12), (16, 12));
}

#[test]
fn a_recheck_tells_whether_the_answer_changed() {
    let before = decide(true, 16 * GIB, 8 * GIB);
    let low = RamSnapshot { total_bytes: 16 * GIB, free_bytes: GIB };
    let (after, changed) = recheck(before, true, low);
    assert!(changed && !after.preload);
    let (same, changed) = recheck(after, true, low);
    assert!(!changed);
    assert_eq!(same, after);
}

#[test]
fn gibibytes_are_rounded_down() {
    assert_eq!(whole_gib(16 * GIB - 1), 15);
    assert_eq!(whole_gib(16 * GIB), 16);
}
