//! Which compute backend runs speech recognition: what the machine has, which
//! candidates are measured, and which one wins. A speed is the time per audio time
//! in ten-thousandths, so that ten thousand is real time.
use crate::config::AsrCacheEntry;
use crate::text::{
    chars_of, contains, decimal, index_from, joined, owned, parse_i32, same_ignoring_case,
    same_text, stands_at, text_of, to_ascii_lower, trim,
};
use crate::words::le_units;
use vstd::prelude::*;

verus! {

/// The version of the app. A backend that another version picked is measured again.
pub const APP_VERSION: &'static str = "1.0.3";

/// The environment variable that skips the benchmark.
pub const ENV_SKIP: &'static str = "SKIP_BACKEND_BENCH";

/// The command-line flag of the process that measures one candidate.
pub const PROBE_FLAG: &'static str = "--backend-probe";

/// What a probe prints once its recogniser exists.
pub const MARKER_CREATED: &'static str = "__probe_created";

/// What a probe prints before its measurement.
pub const MARKER_RTF: &'static str = "__probe_rtf";

/// What a probe's error output holds where the provider was not used after all.
pub const FALLBACK_SENTINEL: &'static str = "Fallback to cpu";

/// A measurement slower than this, ten times real time, is no measurement.
pub const ABORT_RTF: i64 = 100_000;

/// Measurements are not told apart beyond this.
pub const RTF_CAP: i64 = 1_000_000_000;

/// A measurement that is no number: neither faster nor slower than any other.
pub const RTF_NAN: i64 = i64::MIN;

/// Who made the processor that counts.
#[derive(Clone, Copy, Debug, PartialEq, Eq, Structural)]
pub enum Vendor {
    Nvidia,
    Amd,
    Intel,
    Qualcomm,
    Apple,
    Cpu,
    Unknown,
}

impl Vendor {
    /// The name of the vendor.
    pub open spec fn name(self) -> Seq<char> {
        match self {
            Vendor::Nvidia => "NVIDIA"@,
            Vendor::Amd => "AMD"@,
            Vendor::Intel => "Intel"@,
            Vendor::Qualcomm => "Qualcomm"@,
            Vendor::Apple => "Apple"@,
            Vendor::Cpu => "CPU"@,
            Vendor::Unknown => "Unknown"@,
        }
    }

    /// The name of the vendor.
    pub fn label(self) -> (label: &'static str)
        ensures
            label@ == self.name(),
    {
        match self {
            Vendor::Nvidia => "NVIDIA",
            Vendor::Amd => "AMD",
            Vendor::Intel => "Intel",
            Vendor::Qualcomm => "Qualcomm",
            Vendor::Apple => "Apple",
            Vendor::Cpu => "CPU",
            Vendor::Unknown => "Unknown",
        }
    }

    /// The GPU provider that is worth measuring: only NVIDIA has one.
    pub fn gpu_provider(self) -> (provider: Option<&'static str>)
        ensures
            provider is Some <==> self == Vendor::Nvidia,
            provider matches Some(p) ==> p@ == "cuda"@,
    {
        match self {
            Vendor::Nvidia => Some("cuda"),
            _ => None,
        }
    }
}

/// A display adapter.
#[derive(Debug, PartialEq)]
pub struct GpuAdapter {
    pub description: String,
    /// The vendor id, in hexadecimal.
    pub vendor_id: String,
    /// The device id, in hexadecimal.
    pub device_id: String,
    /// The registry key it was found under.
    pub key_name: String,
}

/// The vendor that an id stands for.
pub open spec fn vendor_by_id(id: Seq<char>) -> Vendor {
    if crate::text::same_but_case(id, "10DE"@) {
        Vendor::Nvidia
    } else if crate::text::same_but_case(id, "1002"@) || crate::text::same_but_case(id, "1022"@) {
        Vendor::Amd
    } else if crate::text::same_but_case(id, "8086"@) {
        Vendor::Intel
    } else if crate::text::same_but_case(id, "06F0"@) || crate::text::same_but_case(id, "4D4F"@) {
        Vendor::Qualcomm
    } else if crate::text::same_but_case(id, "106B"@) {
        Vendor::Apple
    } else {
        Vendor::Unknown
    }
}

/// The vendor that an id stands for.
pub fn vendor_from_id(vendor_id: &str) -> (vendor: Vendor)
    ensures
        vendor == vendor_by_id(vendor_id@),
{
    if same_ignoring_case(vendor_id, "10DE") {
        Vendor::Nvidia
    } else if same_ignoring_case(vendor_id, "1002") || same_ignoring_case(vendor_id, "1022") {
        Vendor::Amd
    } else if same_ignoring_case(vendor_id, "8086") {
        Vendor::Intel
    } else if same_ignoring_case(vendor_id, "06F0") || same_ignoring_case(vendor_id, "4D4F") {
        Vendor::Qualcomm
    } else if same_ignoring_case(vendor_id, "106B") {
        Vendor::Apple
    } else {
        Vendor::Unknown
    }
}

/// The vendor of an adapter: by its id, or else by its description.
pub open spec fn adapter_vendor(adapter: GpuAdapter) -> Vendor {
    let by_id = vendor_by_id(adapter.vendor_id@);
    let text = crate::text::ascii_lowered(adapter.description@);
    if by_id != Vendor::Unknown {
        by_id
    } else if crate::text::has_text(text, "nvidia"@) {
        Vendor::Nvidia
    } else if crate::text::has_text(text, "radeon"@) || crate::text::has_text(text, "amd"@) {
        Vendor::Amd
    } else if crate::text::has_text(text, "intel"@) {
        Vendor::Intel
    } else if crate::text::has_text(text, "qualcomm"@) {
        Vendor::Qualcomm
    } else {
        Vendor::Unknown
    }
}

/// The vendor of an adapter.
pub fn vendor_of(adapter: &GpuAdapter) -> (vendor: Vendor)
    ensures
        vendor == adapter_vendor(*adapter),
{
    let by_id = vendor_from_id(adapter.vendor_id.as_str());
    if by_id != Vendor::Unknown {
        return by_id;
    }
    let lower = to_ascii_lower(adapter.description.as_str());
    let text = lower.as_slice();
    if contains(text, "nvidia") {
        Vendor::Nvidia
    } else if contains(text, "radeon") || contains(text, "amd") {
        Vendor::Amd
    } else if contains(text, "intel") {
        Vendor::Intel
    } else if contains(text, "qualcomm") {
        Vendor::Qualcomm
    } else {
        Vendor::Unknown
    }
}

/// Whether an adapter of this vendor is among the first `n`.
pub open spec fn has_vendor(adapters: Seq<GpuAdapter>, vendor: Vendor) -> bool {
    exists|i: int| 0 <= i < adapters.len() && adapter_vendor(#[trigger] adapters[i]) == vendor
}

/// The vendor that counts: NVIDIA before AMD before Intel, wherever they stand in
/// the list.
pub open spec fn chief_vendor(adapters: Seq<GpuAdapter>) -> Vendor {
    if has_vendor(adapters, Vendor::Nvidia) {
        Vendor::Nvidia
    } else if has_vendor(adapters, Vendor::Amd) {
        Vendor::Amd
    } else if has_vendor(adapters, Vendor::Intel) {
        Vendor::Intel
    } else {
        Vendor::Unknown
    }
}

/// The vendor that counts.
pub fn dominant_vendor(adapters: &[GpuAdapter]) -> (vendor: Vendor)
    ensures
        vendor == chief_vendor(adapters@),
{
    let mut nvidia = false;
    let mut amd = false;
    let mut intel = false;
    let mut i: usize = 0;
    while i < adapters.len()
        invariant
            i <= adapters.len(),
            nvidia == has_vendor(adapters@.subrange(0, i as int), Vendor::Nvidia),
            amd == has_vendor(adapters@.subrange(0, i as int), Vendor::Amd),
            intel == has_vendor(adapters@.subrange(0, i as int), Vendor::Intel),
        decreases adapters.len() - i,
    {
        let vendor = vendor_of(&adapters[i]);
        proof {
            one_more_vendor(adapters@, i as int, Vendor::Nvidia);
            one_more_vendor(adapters@, i as int, Vendor::Amd);
            one_more_vendor(adapters@, i as int, Vendor::Intel);
        }
        match vendor {
            Vendor::Nvidia => {
                nvidia = true;
            },
            Vendor::Amd => {
                amd = true;
            },
            Vendor::Intel => {
                intel = true;
            },
            _ => {},
        }
        i += 1;
    }
    assert(adapters@.subrange(0, i as int) =~= adapters@);
    if nvidia {
        Vendor::Nvidia
    } else if amd {
        Vendor::Amd
    } else if intel {
        Vendor::Intel
    } else {
        Vendor::Unknown
    }
}

proof fn one_more_vendor(adapters: Seq<GpuAdapter>, i: int, vendor: Vendor)
    requires
        0 <= i < adapters.len(),
    ensures
        has_vendor(adapters.subrange(0, i + 1), vendor) == (has_vendor(
            adapters.subrange(0, i),
            vendor,
        ) || adapter_vendor(adapters[i]) == vendor),
{
    let before = adapters.subrange(0, i);
    let now = adapters.subrange(0, i + 1);
    assert(now[i] == adapters[i]);
    assert forall|k: int| 0 <= k < i implies now[k] == before[k] by {}
    if has_vendor(before, vendor) {
        let k = choose|k: int| 0 <= k < before.len() && adapter_vendor(before[k]) == vendor;
        assert(now[k] == before[k]);
    }
    if has_vendor(now, vendor) && adapter_vendor(adapters[i]) != vendor {
        let k = choose|k: int| 0 <= k < now.len() && adapter_vendor(now[k]) == vendor;
        assert(before[k] == now[k]);
    }
}

/// The order of the adapters does not matter for the vendor that counts.
pub proof fn the_chief_vendor_does_not_depend_on_order(a: Seq<GpuAdapter>, b: Seq<GpuAdapter>)
    requires
        forall|x: GpuAdapter| a.contains(x) <==> b.contains(x),
    ensures
        chief_vendor(a) == chief_vendor(b),
{
    assert forall|v: Vendor| has_vendor(a, v) == has_vendor(b, v) by {
        if has_vendor(a, v) {
            let i = choose|i: int| 0 <= i < a.len() && adapter_vendor(a[i]) == v;
            assert(a.contains(a[i]));
            let j = choose|j: int| 0 <= j < b.len() && b[j] == a[i];
            assert(adapter_vendor(b[j]) == v);
        }
        if has_vendor(b, v) {
            let i = choose|i: int| 0 <= i < b.len() && adapter_vendor(b[i]) == v;
            assert(b.contains(b[i]));
            let j = choose|j: int| 0 <= j < a.len() && a[j] == b[i];
            assert(adapter_vendor(a[j]) == v);
        }
    }
}

/// The vendor that a processor architecture stands for.
pub open spec fn vendor_of_arch(arch: Seq<char>) -> Vendor {
    if arch == "x86_64"@ {
        Vendor::Intel
    } else if arch == "aarch64"@ {
        Vendor::Qualcomm
    } else {
        Vendor::Cpu
    }
}

/// The vendor that a processor architecture stands for.
pub fn cpu_vendor(arch: &str) -> (vendor: Vendor)
    ensures
        vendor == vendor_of_arch(arch@),
{
    if same_text(arch, "x86_64") {
        Vendor::Intel
    } else if same_text(arch, "aarch64") {
        Vendor::Qualcomm
    } else {
        Vendor::Cpu
    }
}

/// The hash of a list of bytes: each byte is mixed in, then multiplied through.
pub open spec fn hash_of(bytes: Seq<u8>) -> u64
    decreases bytes.len(),
{
    if bytes.len() == 0 {
        0xcbf29ce484222325
    } else {
        (hash_of(bytes.drop_last()) ^ (bytes.last() as u64)).wrapping_mul(0x100000001b3)
    }
}

/// The hexadecimal digit of `d`.
pub open spec fn hex_char(d: nat) -> char {
    if d < 10 {
        ((48 + d) as u8) as char
    } else {
        ((87 + d) as u8) as char
    }
}

/// The last `n` hexadecimal digits of `value`.
pub open spec fn hex_of(value: nat, n: nat) -> Seq<char>
    decreases n,
{
    if n == 0 {
        Seq::empty()
    } else {
        hex_of(value / 16, (n - 1) as nat).push(hex_char(value % 16))
    }
}

fn hex(value: u64, n: u64) -> (text: String)
    ensures
        text@ == hex_of(value as nat, n as nat),
    decreases n,
{
    if n == 0 {
        return String::new();
    }
    let mut text = hex(value / 16, n - 1);
    let d: u64 = value % 16;
    if d < 10 {
        text.push((48 + d as u8) as char);
    } else {
        text.push((87 + d as u8) as char);
    }
    text
}

/// The sixteen hexadecimal digits of the hash of a text.
pub fn hash_device(canonical: &str) -> (text: String)
    ensures
        text@ == hex_of(hash_of(vstd::utf8::encode_utf8(canonical@)) as nat, 16),
{
    let bytes = canonical.as_bytes();
    let mut hash: u64 = 0xcbf29ce484222325;
    let mut i: usize = 0;
    assert(bytes@.subrange(0, 0) =~= Seq::empty());
    while i < bytes.len()
        invariant
            i <= bytes.len(),
            bytes@ == vstd::utf8::encode_utf8(canonical@),
            hash == hash_of(bytes@.subrange(0, i as int)),
        decreases bytes.len() - i,
    {
        assert(bytes@.subrange(0, i + 1).drop_last() =~= bytes@.subrange(0, i as int));
        hash = (hash ^ (bytes[i] as u64)).wrapping_mul(0x100000001b3);
        i += 1;
    }
    assert(bytes@.subrange(0, i as int) =~= bytes@);
    hex(hash, 16)
}

/// What the machine is, as far as the choice of a backend depends on it.
#[derive(Debug, PartialEq)]
pub struct HardwareProfile {
    pub vendor: Vendor,
    pub gpu_label: String,
    pub arch: String,
    pub os: String,
    pub device_hash: String,
}

/// The text that identifies a machine: its architecture, its system and the ids of
/// its adapters in order.
pub open spec fn machine_text(arch: Seq<char>, os: Seq<char>, adapters: Seq<GpuAdapter>) -> Seq<
    char,
>
    decreases adapters.len(),
{
    if adapters.len() == 0 {
        arch + "|"@ + os
    } else {
        machine_text(arch, os, adapters.drop_last()).push('|') + adapters.last().vendor_id@ + ":"@
            + adapters.last().device_id@
    }
}

/// What the machine is, given its architecture, its system and its adapters. The
/// label is the description of the first adapter, or the vendor's name.
pub fn detect_hardware(arch: &str, os: &str, adapters: &[GpuAdapter]) -> (profile: HardwareProfile)
    ensures
        profile.vendor == (if chief_vendor(adapters@) == Vendor::Unknown {
            vendor_of_arch(arch@)
        } else {
            chief_vendor(adapters@)
        }),
        profile.gpu_label@ == (if adapters@.len() > 0 && adapters@[0].description@.len() > 0 {
            adapters@[0].description@
        } else {
            profile.vendor.name()
        }),
        profile.arch@ == arch@,
        profile.os@ == os@,
        profile.device_hash@ == hex_of(
            hash_of(vstd::utf8::encode_utf8(machine_text(arch@, os@, adapters@))) as nat,
            16,
        ),
{
    let gpu = dominant_vendor(adapters);
    let vendor = if gpu == Vendor::Unknown {
        cpu_vendor(arch)
    } else {
        gpu
    };
    let gpu_label = if adapters.len() > 0 && !adapters[0].description.as_str().is_empty() {
        owned(adapters[0].description.as_str())
    } else {
        owned(vendor.label())
    };
    let mut canonical = joined(joined(arch, "|").as_str(), os);
    let mut i: usize = 0;
    assert(adapters@.subrange(0, 0) =~= Seq::empty());
    while i < adapters.len()
        invariant
            i <= adapters.len(),
            canonical@ == machine_text(arch@, os@, adapters@.subrange(0, i as int)),
        decreases adapters.len() - i,
    {
        assert(adapters@.subrange(0, i + 1).drop_last() =~= adapters@.subrange(0, i as int));
        canonical.push('|');
        canonical.push_str(adapters[i].vendor_id.as_str());
        canonical.push_str(":");
        canonical.push_str(adapters[i].device_id.as_str());
        i += 1;
    }
    assert(adapters@.subrange(0, i as int) =~= adapters@);
    let device_hash = hash_device(canonical.as_str());
    HardwareProfile { vendor, gpu_label, arch: owned(arch), os: owned(os), device_hash }
}

/// A provider with a number of threads.
#[derive(Debug, PartialEq)]
pub struct ProviderCandidate {
    pub provider: String,
    pub threads: i32,
    pub is_gpu: bool,
}

/// `ProviderCandidate` as a mathematical value.
#[verifier::ext_equal]
pub ghost struct CandidateView {
    pub provider: Seq<char>,
    pub threads: i32,
    pub is_gpu: bool,
}

impl View for ProviderCandidate {
    type V = CandidateView;

    open spec fn view(&self) -> CandidateView {
        CandidateView { provider: self.provider@, threads: self.threads, is_gpu: self.is_gpu }
    }
}

/// The candidates for a machine: the CPU with one, two and four threads, and the GPU
/// of an x86-64 machine with an NVIDIA adapter.
pub open spec fn candidates_of(profile: HardwareProfile) -> Seq<CandidateView> {
    let cpu = seq![
        CandidateView { provider: "cpu"@, threads: 1, is_gpu: false },
        CandidateView { provider: "cpu"@, threads: 2, is_gpu: false },
        CandidateView { provider: "cpu"@, threads: 4, is_gpu: false },
    ];
    if profile.arch@ == "x86_64"@ && profile.vendor == Vendor::Nvidia {
        cpu.push(CandidateView { provider: "cuda"@, threads: 1, is_gpu: true })
    } else {
        cpu
    }
}

/// The candidates for a machine.
pub fn candidates_for(profile: &HardwareProfile) -> (candidates: Vec<ProviderCandidate>)
    ensures
        candidates@.map_values(|c: ProviderCandidate| c@) == candidates_of(*profile),
{
    let mut candidates = vec![
        ProviderCandidate { provider: owned("cpu"), threads: 1, is_gpu: false },
        ProviderCandidate { provider: owned("cpu"), threads: 2, is_gpu: false },
        ProviderCandidate { provider: owned("cpu"), threads: 4, is_gpu: false },
    ];
    if same_text(profile.arch.as_str(), "x86_64") {
        if let Some(gpu) = profile.vendor.gpu_provider() {
            candidates.push(ProviderCandidate { provider: owned(gpu), threads: 1, is_gpu: true });
        }
    }
    assert(candidates@.map_values(|c: ProviderCandidate| c@) =~= candidates_of(*profile));
    candidates
}

/// Every machine measures the CPU with one, two and four threads; a GPU is measured
/// on an x86-64 machine with an NVIDIA adapter and nowhere else.
pub proof fn gpus_are_measured_on_nvidia_x86_only(profile: HardwareProfile)
    ensures
        candidates_of(profile).len() >= 3,
        forall|i: int|
            0 <= i < 3 ==> (#[trigger] candidates_of(profile)[i]).provider == "cpu"@
                && !candidates_of(profile)[i].is_gpu,
        (exists|i: int|
            0 <= i < candidates_of(profile).len() && (#[trigger] candidates_of(profile)[i]).is_gpu)
            <==> profile.arch@ == "x86_64"@ && profile.vendor == Vendor::Nvidia,
{
    if profile.arch@ == "x86_64"@ && profile.vendor == Vendor::Nvidia {
        assert(candidates_of(profile)[3].is_gpu);
    }
}

/// A measured candidate.
#[derive(Debug, PartialEq)]
pub struct BenchResult {
    pub provider: String,
    pub threads: i32,
    pub is_gpu: bool,
    /// Time per audio time, in ten-thousandths.
    pub rtf: i64,
}

impl BenchResult {
    /// A copy of the result.
    pub fn copy(&self) -> (r: BenchResult)
        ensures
            r == *self,
    {
        BenchResult {
            provider: self.provider.clone(),
            threads: self.threads,
            is_gpu: self.is_gpu,
            rtf: self.rtf,
        }
    }
}

/// Whether one speed is faster than another.
pub open spec fn is_faster(rtf: i64, other: i64) -> bool {
    rtf != RTF_NAN && other != RTF_NAN && rtf < other
}

/// Whether one speed is faster than another.
pub fn faster(rtf: i64, other: i64) -> (r: bool)
    ensures
        r == is_faster(rtf, other),
{
    rtf != RTF_NAN && other != RTF_NAN && rtf < other
}

/// The position of the fastest result of one sort: the first that no later one is
/// faster than.
pub open spec fn fastest(results: Seq<BenchResult>, is_gpu: bool) -> Option<int>
    decreases results.len(),
{
    if results.len() == 0 {
        None
    } else {
        let last = results.len() - 1;
        let before = fastest(results.drop_last(), is_gpu);
        if results[last].is_gpu != is_gpu {
            before
        } else if before is Some && !is_faster(results[last].rtf, results[before->0].rtf) {
            before
        } else {
            Some(last)
        }
    }
}

/// Whether the speed of a GPU is at least 1.1 times that of a CPU.
pub open spec fn is_ahead(gpu: i64, cpu: i64) -> bool {
    gpu != RTF_NAN && cpu != RTF_NAN && gpu * 11 <= cpu * 10
}

fn ahead(gpu: i64, cpu: i64) -> (r: bool)
    ensures
        r == is_ahead(gpu, cpu),
{
    gpu != RTF_NAN && cpu != RTF_NAN && gpu as i128 * 11 <= cpu as i128 * 10
}

/// The position of the winner: the fastest GPU if it is at least 1.1 times as fast as
/// the fastest CPU, or there is no CPU; otherwise the fastest CPU.
pub open spec fn winner_of(results: Seq<BenchResult>) -> Option<int> {
    let cpu = fastest(results, false);
    let gpu = fastest(results, true);
    match (cpu, gpu) {
        (Some(c), Some(g)) => if is_ahead(results[g].rtf, results[c].rtf) {
            Some(g)
        } else {
            Some(c)
        },
        (Some(c), None) => Some(c),
        (None, g) => g,
    }
}

fn find_fastest(results: &[BenchResult], is_gpu: bool) -> (best: Option<usize>)
    ensures
        best is Some <==> fastest(results@, is_gpu) is Some,
        best matches Some(i) ==> fastest(results@, is_gpu) == Some(i as int) && i < results@.len(),
{
    let mut best: Option<usize> = None;
    let mut i: usize = 0;
    assert(results@.subrange(0, 0) =~= Seq::empty());
    while i < results.len()
        invariant
            i <= results.len(),
            best is Some <==> fastest(results@.subrange(0, i as int), is_gpu) is Some,
            best matches Some(k) ==> fastest(results@.subrange(0, i as int), is_gpu) == Some(
                k as int,
            ) && k < i,
        decreases results.len() - i,
    {
        assert(results@.subrange(0, i + 1).drop_last() =~= results@.subrange(0, i as int));
        if results[i].is_gpu == is_gpu {
            match best {
                Some(k) => {
                    if faster(results[i].rtf, results[k].rtf) {
                        best = Some(i);
                    }
                },
                None => {
                    best = Some(i);
                },
            }
        }
        i += 1;
    }
    assert(results@.subrange(0, i as int) =~= results@);
    best
}

/// The winner of a benchmark.
pub fn decide_winner(results: &[BenchResult]) -> (winner: Option<BenchResult>)
    ensures
        winner is Some <==> winner_of(results@) is Some,
        winner matches Some(w) ==> w == results@[winner_of(results@)->0],
{
    let cpu = find_fastest(results, false);
    let gpu = find_fastest(results, true);
    match (cpu, gpu) {
        (Some(c), Some(g)) => {
            if ahead(results[g].rtf, results[c].rtf) {
                Some(results[g].copy())
            } else {
                Some(results[c].copy())
            }
        },
        (Some(c), None) => Some(results[c].copy()),
        (None, Some(g)) => Some(results[g].copy()),
        (None, None) => None,
    }
}

proof fn fastest_is_fastest(results: Seq<BenchResult>, is_gpu: bool)
    requires
        forall|i: int| 0 <= i < results.len() ==> (#[trigger] results[i]).rtf != RTF_NAN,
    ensures
        match fastest(results, is_gpu) {
            Some(i) => {
                &&& 0 <= i < results.len()
                &&& results[i].is_gpu == is_gpu
                &&& forall|j: int|
                    0 <= j < results.len() && (#[trigger] results[j]).is_gpu == is_gpu
                        ==> results[i].rtf <= results[j].rtf
            },
            None => forall|j: int|
                0 <= j < results.len() ==> (#[trigger] results[j]).is_gpu != is_gpu,
        },
    decreases results.len(),
{
    if results.len() > 0 {
        fastest_is_fastest(results.drop_last(), is_gpu);
        assert forall|j: int| 0 <= j < results.len() - 1 implies results.drop_last()[j]
            == results[j] by {}
    }
}

proof fn fastest_of_any(results: Seq<BenchResult>, is_gpu: bool)
    ensures
        match fastest(results, is_gpu) {
            Some(i) => 0 <= i < results.len() && results[i].is_gpu == is_gpu,
            None => forall|j: int|
                0 <= j < results.len() ==> (#[trigger] results[j]).is_gpu != is_gpu,
        },
    decreases results.len(),
{
    if results.len() > 0 {
        fastest_of_any(results.drop_last(), is_gpu);
        assert forall|j: int| 0 <= j < results.len() - 1 implies results.drop_last()[j]
            == results[j] by {}
    }
}

/// There is a winner whenever anything was measured, and it is one of the results.
pub proof fn winners_were_measured(results: Seq<BenchResult>)
    ensures
        winner_of(results) is Some <==> results.len() > 0,
        winner_of(results) matches Some(w) ==> 0 <= w < results.len(),
{
    fastest_of_any(results, false);
    fastest_of_any(results, true);
    if results.len() > 0 {
        assert(results[0].is_gpu == true || results[0].is_gpu == false);
    }
}

/// Where every result is a number, no result of the winner's sort is faster than it,
/// and a GPU wins over a CPU only with a margin of a tenth.
pub proof fn winners_are_fastest(results: Seq<BenchResult>)
    requires
        forall|i: int| 0 <= i < results.len() ==> (#[trigger] results[i]).rtf != RTF_NAN,
    ensures
        winner_of(results) matches Some(w) ==> {
            &&& forall|j: int|
                0 <= j < results.len() && (#[trigger] results[j]).is_gpu == results[w].is_gpu
                    ==> results[w].rtf <= results[j].rtf
            &&& results[w].is_gpu ==> forall|j: int|
                0 <= j < results.len() && !(#[trigger] results[j]).is_gpu ==> results[w].rtf * 11
                    <= results[j].rtf * 10
        },
{
    fastest_is_fastest(results, false);
    fastest_is_fastest(results, true);
}

/// Whether the environment fixes the backend or switches the benchmark off.
pub fn env_forces_idle(skip_set: bool, provider_set: bool, threads_set: bool) -> (r: bool)
    ensures
        r == (skip_set || provider_set || threads_set),
{
    skip_set || provider_set || threads_set
}

/// Whether the backend has to be measured: none was picked yet, or it was picked on
/// another machine or by another version. Not where the environment decides.
pub open spec fn bench_due(asr: crate::config::AsrView, device_hash: Seq<char>, forced_idle: bool)
    -> bool {
    &&& !forced_idle
    &&& {
        ||| asr.provider.len() == 0
        ||| asr.device_hash.len() > 0 && asr.device_hash != device_hash
        ||| asr.app_version.len() > 0 && asr.app_version != APP_VERSION@
    }
}

/// Whether the backend has to be measured.
pub fn needs_bench(asr: &AsrCacheEntry, profile: &HardwareProfile, forced_idle: bool) -> (r: bool)
    ensures
        r == bench_due(asr@, profile.device_hash@, forced_idle),
{
    if forced_idle {
        return false;
    }
    asr.provider.as_str().is_empty() || (!asr.device_hash.as_str().is_empty() && !same_text(
        asr.device_hash.as_str(),
        profile.device_hash.as_str(),
    )) || (!asr.app_version.as_str().is_empty() && !same_text(
        asr.app_version.as_str(),
        APP_VERSION,
    ))
}

/// The number that the first `p` of some digits stand for, with zeros behind the last.
pub open spec fn leading(digits: Seq<char>, p: int) -> nat
    decreases p,
{
    if p <= 0 {
        0
    } else {
        let digit = if p <= digits.len() {
            crate::text::digit_value(digits[p - 1])->0
        } else {
            0
        };
        leading(digits, p - 1) * 10 + digit
    }
}

/// The first of two characters in a text, or its length where neither is there.
pub open spec fn either_of(s: Seq<char>, a: char, b: char, k: int) -> int
    decreases s.len() - k,
{
    if k >= s.len() || s[k] == a || s[k] == b {
        k
    } else {
        either_of(s, a, b, k + 1)
    }
}

/// The text behind a position, or nothing where that is the end.
pub open spec fn behind(s: Seq<char>, at: int) -> Seq<char> {
    if at < s.len() {
        s.subrange(at + 1, s.len() as int)
    } else {
        Seq::empty()
    }
}

/// The text without the sign before it.
pub open spec fn unsigned(s: Seq<char>) -> Seq<char> {
    if s.len() > 0 && (s[0] == '+' || s[0] == '-') {
        s.subrange(1, s.len() as int)
    } else {
        s
    }
}

/// A speed of so many ten-thousandths, as far as speeds are told apart.
pub open spec fn capped(exact: nat) -> nat {
    if exact > RTF_CAP {
        RTF_CAP as nat
    } else {
        exact
    }
}

/// Whether any digit from a position on is more than zero.
pub open spec fn leaves_rest(digits: Seq<char>, p: int) -> bool {
    exists|i: int|
        0 <= i < digits.len() && p <= i && crate::text::digit_value(#[trigger] digits[i])
            != Some(0nat)
}

/// The number that the first `p` of some digits stand for, rounded up or down.
pub open spec fn rounded(digits: Seq<char>, p: int, up: bool) -> nat {
    leading(digits, p) + if up && leaves_rest(digits, p) {
        1nat
    } else {
        0nat
    }
}

/// The speed that a decimal number without a sign stands for, in ten-thousandths:
/// digits with or without a point before, between or behind them, and with or without
/// an exponent. What is less than a ten-thousandth is rounded up or down.
pub open spec fn unsigned_speed(s: Seq<char>, up: bool) -> Option<nat> {
    let mark = either_of(s, 'e', 'E', 0);
    let number = s.subrange(0, mark);
    let point = either_of(number, '.', '.', 0);
    let whole = number.subrange(0, point);
    let rest = behind(number, point);
    let power = if mark < s.len() {
        crate::text::integer_of(behind(s, mark))
    } else {
        Some(0)
    };
    if whole.len() + rest.len() > 0 && crate::text::digits_value(whole + rest) is Some && power is Some {
        Some(capped(rounded(whole + rest, whole.len() + 4 + power->0, up)))
    } else {
        None
    }
}

/// The speed that a text stands for. A decimal number is taken in ten-thousandths,
/// rounded up, so that a number is above a limit of whole ten-thousandths exactly where
/// its speed is; its digits count as they are written, not as the nearest binary
/// fraction. The words for infinity and for what is no number count too, whatever their
/// case; all may have a sign.
pub open spec fn speed_of(s: Seq<char>) -> Option<int> {
    let body = unsigned(s);
    let negative = s.len() > 0 && s[0] == '-';
    if crate::text::same_but_case(body, "nan"@) {
        Some(RTF_NAN as int)
    } else if crate::text::same_but_case(body, "inf"@) || crate::text::same_but_case(
        body,
        "infinity"@,
    ) {
        Some(
            if negative {
                -RTF_CAP
            } else {
                RTF_CAP as int
            },
        )
    } else {
        match unsigned_speed(body, !negative) {
            Some(speed) => Some(
                if negative {
                    -speed
                } else {
                    speed as int
                },
            ),
            None => None,
        }
    }
}

fn digit_value(c: char) -> (d: Option<i64>)
    ensures
        d is Some <==> crate::text::digit_value(c) is Some,
        d matches Some(v) ==> crate::text::digit_value(c) == Some(v as nat) && 0 <= v < 10,
{
    if '0' <= c && c <= '9' {
        Some((c as u32 - 48) as i64)
    } else {
        None
    }
}

/// Exponents are not told apart beyond this: no text has as many digits.
pub const POWER_LIMIT: i128 = 1_000_000_000_000_000_000_000_000_000_000;

/// An exponent, as far as exponents are told apart.
pub open spec fn near(power: int) -> int {
    if power > POWER_LIMIT {
        POWER_LIMIT as int
    } else if power < -POWER_LIMIT {
        -POWER_LIMIT
    } else {
        power
    }
}

/// The number that digits stand for, up to the limit of exponents.
fn near_number(s: &[char]) -> (n: Option<i128>)
    ensures
        n is Some <==> crate::text::digits_value(s@) is Some,
        n matches Some(v) ==> v == near(crate::text::digits_value(s@)->0 as int),
{
    let mut n: i128 = 0;
    let mut i: usize = 0;
    assert(s@.subrange(0, 0) =~= Seq::empty());
    while i < s.len()
        invariant
            i <= s.len(),
            0 <= n <= POWER_LIMIT,
            crate::text::digits_value(s@.subrange(0, i as int)) is Some,
            n == near(crate::text::digits_value(s@.subrange(0, i as int))->0 as int),
        decreases s.len() - i,
    {
        let ghost next = s@.subrange(0, i + 1);
        assert(next.drop_last() =~= s@.subrange(0, i as int));
        match digit_value(s[i]) {
            Some(d) => {
                n = n * 10 + d as i128;
                if n > POWER_LIMIT {
                    n = POWER_LIMIT;
                }
            },
            None => {
                proof {
                    not_a_number(s@, i as int);
                }
                return None;
            },
        }
        i += 1;
    }
    assert(s@.subrange(0, i as int) =~= s@);
    Some(n)
}

proof fn not_a_number(s: Seq<char>, i: int)
    requires
        0 <= i < s.len(),
        crate::text::digit_value(s[i]) is None,
    ensures
        crate::text::digits_value(s) is None,
    decreases s.len(),
{
    if i < s.len() - 1 {
        assert(s.drop_last()[i] == s[i]);
        not_a_number(s.drop_last(), i);
    }
}

/// The integer that a text stands for, up to the limit of exponents.
fn near_integer(s: &[char]) -> (n: Option<i128>)
    ensures
        n is Some <==> crate::text::integer_of(s@) is Some,
        n matches Some(v) ==> v == near(crate::text::integer_of(s@)->0),
{
    if s.len() == 0 {
        return None;
    }
    let signed = s[0] == '+' || s[0] == '-';
    let from: usize = if signed {
        1
    } else {
        0
    };
    let digits = &s[from..s.len()];
    assert(!signed ==> digits@ =~= s@);
    if digits.len() == 0 {
        return None;
    }
    match near_number(digits) {
        Some(n) => if s[0] == '-' {
            Some(-n)
        } else {
            Some(n)
        },
        None => None,
    }
}

proof fn leading_grows(digits: Seq<char>, p: int, q: int)
    requires
        p <= q,
    ensures
        leading(digits, p) <= leading(digits, q),
    decreases q - p,
{
    if p < q {
        leading_grows(digits, p, q - 1);
    }
}

proof fn leading_stays_zero(digits: Seq<char>, p: int, q: int)
    requires
        digits.len() <= p <= q,
        leading(digits, p) == 0,
    ensures
        leading(digits, q) == 0,
    decreases q - p,
{
    if p < q {
        leading_stays_zero(digits, p, q - 1);
    }
}

/// The first `p` of some digits as a speed, without what is behind them.
fn capped_leading(digits: &[char], p: i128) -> (n: i64)
    requires
        crate::text::digits_value(digits@) is Some,
        p < i128::MAX,
    ensures
        n == capped(leading(digits@, p as int)),
{
    let len: i128 = digits.len() as i128;
    let mut n: i64 = 0;
    let mut i: i128 = 0;
    while i < p
        invariant
            0 <= i,
            i <= p || p < 0 && i == 0,
            p < i128::MAX,
            len == digits@.len(),
            crate::text::digits_value(digits@) is Some,
            0 <= n < RTF_CAP,
            n == leading(digits@, i as int),
        decreases p - i,
    {
        let mut digit: i64 = 0;
        if i < len {
            match digit_value(digits[i as usize]) {
                Some(d) => {
                    digit = d;
                },
                None => {
                    proof {
                        not_a_number(digits@, i as int);
                    }
                },
            }
        } else if n == 0 {
            proof {
                leading_stays_zero(digits@, i as int, p as int);
            }
            return 0;
        }
        n = n * 10 + digit;
        i += 1;
        if n >= RTF_CAP {
            proof {
                leading_grows(digits@, i as int, p as int);
            }
            return RTF_CAP;
        }
    }
    n
}

/// Whether any digit from a position on is more than zero.
fn any_rest(digits: &[char], p: i128) -> (r: bool)
    ensures
        r == leaves_rest(digits@, p as int),
{
    let mut i: usize = 0;
    while i < digits.len()
        invariant
            i <= digits.len(),
            forall|k: int|
                0 <= k < i && p <= k ==> crate::text::digit_value(#[trigger] digits@[k]) == Some(
                    0nat,
                ),
        decreases digits.len() - i,
    {
        if p <= i as i128 {
            match digit_value(digits[i]) {
                Some(d) => {
                    if d != 0 {
                        assert(crate::text::digit_value(digits@[i as int]) != Some(0nat));
                        return true;
                    }
                },
                None => {
                    assert(crate::text::digit_value(digits@[i as int]) != Some(0nat));
                    return true;
                },
            }
        }
        i += 1;
    }
    false
}

/// The first `p` of some digits as a speed, rounded up or down.
fn capped_rounded(digits: &[char], p: i128, up: bool) -> (n: i64)
    requires
        crate::text::digits_value(digits@) is Some,
        p < i128::MAX,
    ensures
        n == capped(rounded(digits@, p as int, up)),
{
    let n: i64 = capped_leading(digits, p);
    if n < RTF_CAP && up && any_rest(digits, p) {
        n + 1
    } else {
        n
    }
}

proof fn far_powers_are_alike(digits: Seq<char>, whole: int, power: int, up: bool)
    requires
        0 <= whole <= digits.len() < POWER_LIMIT - 100,
    ensures
        capped(rounded(digits, whole + 4 + power, up)) == capped(
            rounded(digits, whole + 4 + near(power), up),
        ),
{
    let p = whole + 4 + power;
    let q = whole + 4 + near(power);
    let all = digits.len() as int;
    if power < -POWER_LIMIT {
        assert(leaves_rest(digits, p) == leaves_rest(digits, q)) by {
            if leaves_rest(digits, q) {
                let i = choose|i: int|
                    0 <= i < digits.len() && q <= i && crate::text::digit_value(
                        #[trigger] digits[i],
                    ) != Some(0nat);
                assert(p <= i);
            }
            if leaves_rest(digits, p) {
                let i = choose|i: int|
                    0 <= i < digits.len() && p <= i && crate::text::digit_value(
                        #[trigger] digits[i],
                    ) != Some(0nat);
                assert(q <= i);
            }
        }
    }
    if power > POWER_LIMIT {
        if leading(digits, all) == 0 {
            leading_stays_zero(digits, all, p);
            leading_stays_zero(digits, all, q);
        } else {
            assert(leading(digits, all + 9) >= 1_000_000_000) by {
                reveal_with_fuel(leading, 11);
            }
            leading_grows(digits, all + 9, p);
            leading_grows(digits, all + 9, q);
        }
    }
}

/// The first of two characters in a text, or its length where neither is there.
fn find_either(s: &[char], a: char, b: char) -> (at: usize)
    ensures
        at == either_of(s@, a, b, 0),
        at <= s@.len(),
{
    let mut k: usize = 0;
    while k < s.len() && s[k] != a && s[k] != b
        invariant
            k <= s@.len(),
            either_of(s@, a, b, 0) == either_of(s@, a, b, k as int),
        decreases s@.len() - k,
    {
        k += 1;
    }
    k
}

fn slice_behind(s: &[char], at: usize) -> (rest: &[char])
    requires
        at <= s@.len(),
    ensures
        rest@ == behind(s@, at as int),
{
    if at < s.len() {
        &s[at + 1..s.len()]
    } else {
        let rest = &s[at..s.len()];
        assert(rest@ =~= behind(s@, at as int));
        rest
    }
}

fn parse_unsigned(s: &[char], up: bool) -> (speed: Option<i64>)
    ensures
        speed is Some <==> unsigned_speed(s@, up) is Some,
        speed matches Some(v) ==> 0 <= v && unsigned_speed(s@, up) == Some(v as nat),
{
    let mark: usize = find_either(s, 'e', 'E');
    let number = &s[0..mark];
    let point: usize = find_either(number, '.', '.');
    let rest = slice_behind(number, point);
    let mut digits: Vec<char> = Vec::new();
    digits.extend_from_slice(&number[0..point]);
    digits.extend_from_slice(rest);
    assert(digits@ =~= number@.subrange(0, point as int) + rest@);
    let power: Option<i128> = if mark < s.len() {
        near_integer(slice_behind(s, mark))
    } else {
        Some(0)
    };
    if digits.len() == 0 || near_number(digits.as_slice()).is_none() {
        return None;
    }
    match power {
        Some(power) => {
            proof {
                let exact = if mark < s.len() {
                    crate::text::integer_of(behind(s@, mark as int))->0
                } else {
                    0
                };
                far_powers_are_alike(digits@, point as int, exact, up);
            }
            Some(capped_rounded(digits.as_slice(), point as i128 + 4 + power, up))
        },
        None => None,
    }
}

/// The speed that a text stands for: that of a decimal number, or of a word.
pub fn parse_speed(text: &str) -> (speed: Option<i64>)
    ensures
        speed is Some <==> speed_of(text@) is Some,
        speed matches Some(v) ==> speed_of(text@) == Some(v as int),
{
    let chars = chars_of(text);
    let s = chars.as_slice();
    let negative = s.len() > 0 && s[0] == '-';
    let from: usize = if negative || s.len() > 0 && s[0] == '+' {
        1
    } else {
        0
    };
    let body = &s[from..s.len()];
    assert(body@ =~= unsigned(s@));
    let word = text_of(body);
    if same_ignoring_case(word.as_str(), "nan") {
        return Some(RTF_NAN);
    }
    if same_ignoring_case(word.as_str(), "inf") || same_ignoring_case(word.as_str(), "infinity") {
        return Some(
            if negative {
                -RTF_CAP
            } else {
                RTF_CAP
            },
        );
    }
    match parse_unsigned(body, !negative) {
        Some(speed) => if negative {
            Some(-speed)
        } else {
            Some(speed)
        },
        None => None,
    }
}

/// The measurement on one line of a probe's output.
pub open spec fn line_speed(line: Seq<char>) -> Option<int> {
    if crate::text::occurs_at(line, MARKER_RTF@, 0) {
        speed_of(
            crate::text::trimmed(line.subrange(MARKER_RTF@.len() as int, line.len() as int)),
        )
    } else {
        None
    }
}

/// The first measurement in a probe's output.
pub open spec fn first_speed(lines: Seq<String>) -> Option<int>
    decreases lines.len(),
{
    if lines.len() == 0 {
        None
    } else if line_speed(lines[0]@) is Some {
        line_speed(lines[0]@)
    } else {
        first_speed(lines.drop_first())
    }
}

/// The first measurement in a probe's output.
pub fn parse_rtf(lines: &[String]) -> (speed: Option<i64>)
    ensures
        speed is Some <==> first_speed(lines@) is Some,
        speed matches Some(v) ==> first_speed(lines@) == Some(v as int),
{
    let marker = chars_of(MARKER_RTF);
    let mut i: usize = 0;
    assert(lines@ =~= lines@.subrange(0, lines@.len() as int));
    while i < lines.len()
        invariant
            i <= lines.len(),
            marker@ == MARKER_RTF@,
            first_speed(lines@) == first_speed(lines@.subrange(i as int, lines@.len() as int)),
        decreases lines.len() - i,
    {
        let ghost left = lines@.subrange(i as int, lines@.len() as int);
        assert(left.drop_first() =~= lines@.subrange(i + 1, lines@.len() as int));
        assert(left[0] == lines@[i as int]);
        let line = chars_of(lines[i].as_str());
        if stands_at(line.as_slice(), marker.as_slice(), 0) {
            let rest = text_of(&line.as_slice()[marker.len()..line.len()]);
            let speed = parse_speed(trim(rest.as_str()).as_str());
            if speed.is_some() {
                return speed;
            }
        }
        i += 1;
    }
    assert(lines@.subrange(i as int, lines@.len() as int) =~= Seq::empty());
    None
}

/// Whether a probe says that its recogniser was made.
pub open spec fn says_created(lines: Seq<String>) -> bool {
    exists|i: int|
        0 <= i < lines.len() && crate::text::occurs_at(
            (#[trigger] lines[i])@,
            MARKER_CREATED@,
            0,
        )
}

/// Whether a probe says that its recogniser was made.
pub fn parse_created(lines: &[String]) -> (r: bool)
    ensures
        r == says_created(lines@),
{
    let marker = chars_of(MARKER_CREATED);
    let mut i: usize = 0;
    while i < lines.len()
        invariant
            i <= lines.len(),
            marker@ == MARKER_CREATED@,
            forall|k: int|
                0 <= k < i ==> !crate::text::occurs_at(
                    (#[trigger] lines@[k])@,
                    MARKER_CREATED@,
                    0,
                ),
        decreases lines.len() - i,
    {
        let line = chars_of(lines[i].as_str());
        if stands_at(line.as_slice(), marker.as_slice(), 0) {
            assert(crate::text::occurs_at(lines@[i as int]@, MARKER_CREATED@, 0));
            return true;
        }
        i += 1;
    }
    false
}

/// What a probe's output amounts to.
#[derive(Clone, Copy, Debug, PartialEq, Eq, Structural)]
pub enum ProbeVerdict {
    /// The provider was not used.
    FellBack,
    /// The recogniser was not made.
    NotCreated,
    /// There is no measurement.
    NotMeasured,
    /// The measurement is too slow to be one; the benchmark is given up.
    TooSlow(i64),
    Measured(i64),
}

/// What a probe's output amounts to.
pub open spec fn verdict_of(lines: Seq<String>, stderr: Seq<char>) -> ProbeVerdict {
    if crate::text::has_text(stderr, FALLBACK_SENTINEL@) {
        ProbeVerdict::FellBack
    } else if !says_created(lines) {
        ProbeVerdict::NotCreated
    } else {
        match first_speed(lines) {
            None => ProbeVerdict::NotMeasured,
            Some(speed) => if speed > ABORT_RTF {
                ProbeVerdict::TooSlow(speed as i64)
            } else {
                ProbeVerdict::Measured(speed as i64)
            },
        }
    }
}

/// What a probe's output amounts to.
pub fn judge_probe(lines: &[String], stderr: &str) -> (verdict: ProbeVerdict)
    ensures
        verdict == verdict_of(lines@, stderr@),
{
    let errors = chars_of(stderr);
    if contains(errors.as_slice(), FALLBACK_SENTINEL) {
        return ProbeVerdict::FellBack;
    }
    if !parse_created(lines) {
        return ProbeVerdict::NotCreated;
    }
    match parse_rtf(lines) {
        None => ProbeVerdict::NotMeasured,
        Some(speed) => if speed > ABORT_RTF {
            ProbeVerdict::TooSlow(speed)
        } else {
            ProbeVerdict::Measured(speed)
        },
    }
}

/// Progress of a benchmark.
#[derive(Debug)]
pub enum BenchProgress {
    Measuring { provider: String, threads: i32, is_gpu: bool },
    Measured(BenchResult),
    Finished { winner: Option<String> },
}

/// What the benchmark asks for.
#[derive(Debug)]
pub enum BenchAction {
    /// The clip that is decoded has to be there.
    EnsureClip,
    Report(BenchProgress),
    /// The candidate with this index is to be measured, and the verdict handed back.
    Probe(usize),
    /// The winner is to be stored.
    Store(BenchResult),
    /// The benchmark is over; the provider of the winner, if there is one.
    Return(Option<String>),
}

/// A benchmark under way.
#[derive(Debug)]
pub struct Bench {
    pub candidates: Vec<ProviderCandidate>,
    /// The candidate that is being measured.
    pub index: usize,
    pub results: Vec<BenchResult>,
    pub over: bool,
}

/// A benchmark under way.
#[verifier::ext_equal]
pub struct BenchView {
    pub candidates: Seq<ProviderCandidate>,
    pub index: int,
    pub results: Seq<BenchResult>,
    pub over: bool,
}

/// What is reported before a candidate is measured.
pub open spec fn measuring_of(candidate: ProviderCandidate) -> BenchProgress {
    BenchProgress::Measuring {
        provider: candidate.provider,
        threads: candidate.threads,
        is_gpu: candidate.is_gpu,
    }
}

/// The result of measuring a candidate.
pub open spec fn result_of(candidate: ProviderCandidate, speed: i64) -> BenchResult {
    BenchResult {
        provider: candidate.provider,
        threads: candidate.threads,
        is_gpu: candidate.is_gpu,
        rtf: speed,
    }
}

/// How a benchmark without a winner ends.
pub open spec fn given_up() -> Seq<BenchAction> {
    seq![
        BenchAction::Report(BenchProgress::Finished { winner: None }),
        BenchAction::Return(None),
    ]
}

/// How a benchmark that came to its end does so: the winner, if there is one, is stored
/// before it is reported.
pub open spec fn ending(results: Seq<BenchResult>) -> Seq<BenchAction> {
    match winner_of(results) {
        Some(w) => seq![
            BenchAction::Store(results[w]),
            BenchAction::Report(BenchProgress::Finished { winner: Some(results[w].provider) }),
            BenchAction::Return(Some(results[w].provider)),
        ],
        None => given_up(),
    }
}

impl BenchView {
    /// The current candidate is measured, or the benchmark ends where there is none.
    pub open spec fn go_on(self) -> (BenchView, Seq<BenchAction>) {
        if self.index < self.candidates.len() {
            (
                self,
                seq![
                    BenchAction::Report(measuring_of(self.candidates[self.index])),
                    BenchAction::Probe(self.index as usize),
                ],
            )
        } else {
            (BenchView { over: true, ..self }, ending(self.results))
        }
    }

    /// The benchmark of some candidates, and what it asks for first. It is over at once
    /// where it may not run.
    pub open spec fn begun(may_run: bool, candidates: Seq<ProviderCandidate>) -> (
        BenchView,
        Seq<BenchAction>,
    ) {
        let bench = BenchView { candidates, index: 0, results: Seq::empty(), over: !may_run };
        if may_run {
            let (bench, actions) = bench.go_on();
            (bench, seq![BenchAction::EnsureClip] + actions)
        } else {
            (bench, seq![BenchAction::Return(None)])
        }
    }

    /// The benchmark after a verdict on the current candidate, and what it asks for: a
    /// measurement is kept and reported, anything else is passed over, and a measurement
    /// that is too slow ends the benchmark without a winner.
    pub open spec fn after(self, verdict: ProbeVerdict) -> (BenchView, Seq<BenchAction>) {
        if self.over {
            (self, Seq::empty())
        } else {
            match verdict {
                ProbeVerdict::TooSlow(_) => (BenchView { over: true, ..self }, given_up()),
                ProbeVerdict::Measured(speed) => {
                    let result = result_of(self.candidates[self.index], speed);
                    let (bench, actions) = BenchView {
                        index: self.index + 1,
                        results: self.results.push(result),
                        ..self
                    }.go_on();
                    (
                        bench,
                        seq![BenchAction::Report(BenchProgress::Measured(result))] + actions,
                    )
                },
                _ => BenchView { index: self.index + 1, ..self }.go_on(),
            }
        }
    }

    /// The benchmark after verdicts on one candidate after another, and all that it has
    /// asked for.
    pub open spec fn run(may_run: bool, candidates: Seq<ProviderCandidate>, verdicts: Seq<
        ProbeVerdict,
    >) -> (BenchView, Seq<BenchAction>)
        decreases verdicts.len(),
    {
        if verdicts.len() == 0 {
            BenchView::begun(may_run, candidates)
        } else {
            let (bench, actions) = BenchView::run(may_run, candidates, verdicts.drop_last());
            let (next, more) = bench.after(verdicts.last());
            (next, actions + more)
        }
    }
}

/// Whether an action belongs to the end of a benchmark.
pub open spec fn ends(action: BenchAction) -> bool {
    match action {
        BenchAction::Report(BenchProgress::Finished { .. }) => true,
        BenchAction::Store(_) => true,
        BenchAction::Return(_) => true,
        _ => false,
    }
}

/// Whether any verdict gave the benchmark up.
pub open spec fn too_slow(verdicts: Seq<ProbeVerdict>) -> bool {
    exists|i: int| 0 <= i < verdicts.len() && (#[trigger] verdicts[i]) is TooSlow
}

/// What a benchmark that may run has asked for, up to some verdicts.
pub open spec fn told_once(bench: BenchView, actions: Seq<BenchAction>) -> bool {
    let n = actions.len() as int;
    if !bench.over {
        &&& n >= 1
        &&& actions[n - 1] == BenchAction::Probe(bench.index as usize)
        &&& forall|i: int| 0 <= i < n ==> !ends(#[trigger] actions[i])
    } else {
        &&& n >= 3
        &&& actions[n - 1] matches BenchAction::Return(winner) && {
            &&& actions[n - 2] == BenchAction::Report(BenchProgress::Finished { winner })
            &&& winner is None ==> forall|i: int| 0 <= i < n - 2 ==> !ends(#[trigger] actions[i])
            &&& winner matches Some(provider) ==> {
                &&& actions[n - 3] matches BenchAction::Store(stored) && stored.provider
                    == provider && bench.results.contains(stored)
                &&& forall|i: int| 0 <= i < n - 3 ==> !ends(#[trigger] actions[i])
            }
        }
    }
}

proof fn going_on_tells_once(bench: BenchView, before: Seq<BenchAction>)
    requires
        !bench.over,
        before.len() >= 1,
        forall|i: int| 0 <= i < before.len() ==> !ends(#[trigger] before[i]),
    ensures
        told_once(bench.go_on().0, before + bench.go_on().1),
{
    let (next, more) = bench.go_on();
    let all = before + more;
    if bench.index >= bench.candidates.len() {
        winners_were_measured(bench.results);
        match winner_of(bench.results) {
            Some(w) => {
                assert(bench.results.contains(bench.results[w]));
                assert(all[all.len() - 3] == more[0]);
                assert(all[all.len() - 2] == more[1]);
                assert(all[all.len() - 1] == more[2]);
            },
            None => {
                assert(all[all.len() - 2] == more[0]);
                assert(all[all.len() - 1] == more[1]);
            },
        }
    }
}

/// What was measured, going by verdicts on one candidate after another.
pub open spec fn measurements(candidates: Seq<ProviderCandidate>, verdicts: Seq<ProbeVerdict>) -> Seq<
    BenchResult,
>
    decreases verdicts.len(),
{
    if verdicts.len() == 0 {
        Seq::empty()
    } else {
        let before = measurements(candidates, verdicts.drop_last());
        match verdicts.last() {
            ProbeVerdict::Measured(speed) => before.push(
                result_of(candidates[verdicts.len() - 1], speed),
            ),
            _ => before,
        }
    }
}

/// The provider of the winner.
pub open spec fn winning(results: Seq<BenchResult>) -> Option<String> {
    match winner_of(results) {
        Some(w) => Some(results[w].provider),
        None => None,
    }
}

/// Whatever the probes say, a benchmark that may run reports its end exactly once, as its
/// last report, and returns the winner that it reported; a winner is one of the results
/// and is stored just before, and nothing is stored without one. It is over once every
/// candidate was judged, when the winner is that of the measurements, or once a
/// measurement was too slow, when there is none. One that may not run reports nothing.
pub proof fn a_benchmark_ends_once(
    may_run: bool,
    candidates: Seq<ProviderCandidate>,
    verdicts: Seq<ProbeVerdict>,
)
    requires
        verdicts.len() <= candidates.len(),
    ensures
        !may_run ==> BenchView::run(may_run, candidates, verdicts).1 == seq![
            BenchAction::Return(None),
        ],
        may_run ==> ({
            let (bench, actions) = BenchView::run(may_run, candidates, verdicts);
            &&& told_once(bench, actions)
            &&& bench.over <==> verdicts.len() == candidates.len() || too_slow(verdicts)
            &&& too_slow(verdicts) ==> actions.last() == BenchAction::Return(None)
            &&& !too_slow(verdicts) ==> bench.results == measurements(candidates, verdicts)
            &&& bench.over && !too_slow(verdicts) ==> actions.last() == BenchAction::Return(
                winning(bench.results),
            )
        }),
{
    runs_end_once(may_run, candidates, verdicts);
}

proof fn runs_end_once(
    may_run: bool,
    candidates: Seq<ProviderCandidate>,
    verdicts: Seq<ProbeVerdict>,
)
    requires
        verdicts.len() <= candidates.len(),
    ensures
        !may_run ==> BenchView::run(may_run, candidates, verdicts).0.over && BenchView::run(
            may_run,
            candidates,
            verdicts,
        ).1 == seq![BenchAction::Return(None)],
        may_run ==> ({
            let (bench, actions) = BenchView::run(may_run, candidates, verdicts);
            &&& told_once(bench, actions)
            &&& bench.candidates == candidates
            &&& !bench.over ==> bench.index == verdicts.len()
            &&& bench.over <==> verdicts.len() == candidates.len() || too_slow(verdicts)
            &&& too_slow(verdicts) ==> actions.last() == BenchAction::Return(None)
            &&& !too_slow(verdicts) ==> bench.results == measurements(candidates, verdicts)
            &&& bench.over && !too_slow(verdicts) ==> actions.last() == BenchAction::Return(
                winning(bench.results),
            )
        }),
    decreases verdicts.len(),
{
    if verdicts.len() == 0 {
        if may_run {
            let bench = BenchView { candidates, index: 0, results: Seq::empty(), over: false };
            going_on_tells_once(bench, seq![BenchAction::EnsureClip]);
        }
    } else {
        let before = verdicts.drop_last();
        let verdict = verdicts.last();
        runs_end_once(may_run, candidates, before);
        let (bench, actions) = BenchView::run(may_run, candidates, before);
        let (next, more) = bench.after(verdict);
        if bench.over {
            assert(actions + more =~= actions);
            if may_run {
                let i = choose|i: int| 0 <= i < before.len() && (#[trigger] before[i]) is TooSlow;
                assert(verdicts[i] is TooSlow);
            }
        } else {
            assert(forall|i: int| 0 <= i < before.len() ==> before[i] == verdicts[i]);
            assert(too_slow(verdicts) <==> verdict is TooSlow) by {
                if verdict is TooSlow {
                    assert(verdicts[verdicts.len() - 1] is TooSlow);
                }
                if too_slow(verdicts) {
                    let i = choose|i: int|
                        0 <= i < verdicts.len() && (#[trigger] verdicts[i]) is TooSlow;
                    if i < before.len() {
                        assert(before[i] is TooSlow);
                    }
                }
            }
            match verdict {
                ProbeVerdict::TooSlow(_) => {
                    let all = actions + more;
                    assert(all[all.len() - 2] == more[0]);
                    assert(all[all.len() - 1] == more[1]);
                },
                ProbeVerdict::Measured(speed) => {
                    let result = result_of(bench.candidates[bench.index], speed);
                    let report = seq![BenchAction::Report(BenchProgress::Measured(result))];
                    let after = BenchView {
                        index: bench.index + 1,
                        results: bench.results.push(result),
                        ..bench
                    };
                    going_on_tells_once(after, actions + report);
                    assert(actions + report + after.go_on().1 =~= actions + more);
                },
                _ => {
                    going_on_tells_once(BenchView { index: bench.index + 1, ..bench }, actions);
                },
            }
        }
    }
}

/// Whether the benchmark may run: not where the environment fixes the backend, nor
/// without the model.
pub open spec fn may_bench(forced_idle: bool, model_cached: bool) -> bool {
    !forced_idle && model_cached
}

/// Begins the benchmark of a machine.
pub fn run_backend_bench(forced_idle: bool, model_cached: bool, profile: &HardwareProfile) -> (r: (
    Bench,
    Vec<BenchAction>,
))
    ensures
        r.0.candidates@.map_values(|c: ProviderCandidate| c@) == candidates_of(*profile),
        r.0@ == BenchView::begun(may_bench(forced_idle, model_cached), r.0.candidates@).0,
        r.1@ == BenchView::begun(may_bench(forced_idle, model_cached), r.0.candidates@).1,
        r.0.well_formed(),
{
    let may_run = !forced_idle && model_cached;
    let mut bench = Bench {
        candidates: candidates_for(profile),
        index: 0,
        results: Vec::new(),
        over: !may_run,
    };
    let mut actions: Vec<BenchAction> = Vec::new();
    if may_run {
        actions.push(BenchAction::EnsureClip);
        bench.go_on(&mut actions);
    } else {
        actions.push(BenchAction::Return(None));
    }
    assert(bench@ =~= BenchView::begun(may_run, bench.candidates@).0);
    assert(actions@ =~= BenchView::begun(may_run, bench.candidates@).1);
    (bench, actions)
}

impl View for Bench {
    type V = BenchView;

    open spec fn view(&self) -> BenchView {
        BenchView {
            candidates: self.candidates@,
            index: self.index as int,
            results: self.results@,
            over: self.over,
        }
    }
}

impl Bench {
    /// While it goes on there is a candidate to measure.
    pub open spec fn well_formed(self) -> bool {
        self.over || self.index < self.candidates@.len()
    }

    fn go_on(&mut self, actions: &mut Vec<BenchAction>)
        requires
            !old(self).over,
        ensures
            final(self)@ == old(self)@.go_on().0,
            final(actions)@ == old(actions)@ + old(self)@.go_on().1,
            final(self).well_formed(),
    {
        if self.index < self.candidates.len() {
            let candidate = &self.candidates[self.index];
            actions.push(
                BenchAction::Report(
                    BenchProgress::Measuring {
                        provider: candidate.provider.clone(),
                        threads: candidate.threads,
                        is_gpu: candidate.is_gpu,
                    },
                ),
            );
            actions.push(BenchAction::Probe(self.index));
        } else {
            proof {
                winners_were_measured(self.results@);
            }
            self.over = true;
            match decide_winner(self.results.as_slice()) {
                Some(winner) => {
                    let reported = Some(winner.provider.clone());
                    let returned = Some(winner.provider.clone());
                    actions.push(BenchAction::Store(winner));
                    actions.push(
                        BenchAction::Report(BenchProgress::Finished { winner: reported }),
                    );
                    actions.push(BenchAction::Return(returned));
                },
                None => {
                    actions.push(BenchAction::Report(BenchProgress::Finished { winner: None }));
                    actions.push(BenchAction::Return(None));
                },
            }
        }
        assert(actions@ =~= old(actions)@ + old(self)@.go_on().1);
    }

    /// Takes in what came of the current candidate.
    pub fn next(&mut self, verdict: ProbeVerdict) -> (actions: Vec<BenchAction>)
        requires
            old(self).well_formed(),
        ensures
            final(self)@ == old(self)@.after(verdict).0,
            actions@ == old(self)@.after(verdict).1,
            final(self).well_formed(),
    {
        let mut actions: Vec<BenchAction> = Vec::new();
        if self.over {
            return actions;
        }
        assert(self.index < self.candidates.len());
        match verdict {
            ProbeVerdict::TooSlow(_) => {
                self.over = true;
                actions.push(BenchAction::Report(BenchProgress::Finished { winner: None }));
                actions.push(BenchAction::Return(None));
                assert(actions@ =~= given_up());
            },
            ProbeVerdict::Measured(speed) => {
                let candidate = &self.candidates[self.index];
                let result = BenchResult {
                    provider: candidate.provider.clone(),
                    threads: candidate.threads,
                    is_gpu: candidate.is_gpu,
                    rtf: speed,
                };
                actions.push(BenchAction::Report(BenchProgress::Measured(result.copy())));
                self.results.push(result);
                self.index = self.index + 1;
                self.go_on(&mut actions);
            },
            _ => {
                self.index = self.index + 1;
                self.go_on(&mut actions);
            },
        }
        assert(actions@ =~= old(self)@.after(verdict).1);
        actions
    }
}

/// What is kept of the winner: the backend, the version that picked it, the time and
/// the machine.
pub fn winner_entry(profile: &HardwareProfile, winner: &BenchResult, unix_secs: u64) -> (entry:
    AsrCacheEntry)
    ensures
        entry@ == (crate::config::AsrView {
            provider: winner.provider@,
            threads: winner.threads,
            win_rtf: winner.rtf,
            app_version: APP_VERSION@,
            cached_at: crate::text::decimal_of(unix_secs as nat),
            device_hash: profile.device_hash@,
        }),
{
    AsrCacheEntry {
        provider: winner.provider.clone(),
        threads: winner.threads,
        win_rtf: winner.rtf,
        app_version: owned(APP_VERSION),
        cached_at: chrono_string(unix_secs),
        device_hash: profile.device_hash.clone(),
    }
}

/// A time as text: the seconds since the epoch.
pub fn chrono_string(unix_secs: u64) -> (text: String)
    ensures
        text@ == crate::text::decimal_of(unix_secs as nat),
{
    decimal(unix_secs)
}

/// A backend that was measured on this machine by this version is not measured
/// again.
pub proof fn a_fresh_pick_is_kept(
    profile: HardwareProfile,
    winner: BenchResult,
    cached_at: Seq<char>,
    forced_idle: bool,
)
    requires
        winner.provider@.len() > 0,
    ensures
        !bench_due(
            crate::config::AsrView {
                provider: winner.provider@,
                threads: winner.threads,
                win_rtf: winner.rtf,
                app_version: APP_VERSION@,
                cached_at,
                device_hash: profile.device_hash@,
            },
            profile.device_hash@,
            forced_idle,
        ),
{
}

/// `str::to_uppercase` of a text.
pub uninterp spec fn uppercased(text: Seq<char>) -> Seq<char>;

/// `str::to_uppercase`: the result is named; it follows the Unicode case tables of
/// the standard library.
#[verifier::external_body]
pub(crate) fn uppercase(text: &str) -> (r: String)
    ensures
        r@ == uppercased(text@),
{
    text.to_uppercase()
}

/// How far an id reaches in a text: to the next separator or the next `mark`.
pub open spec fn id_end(text: Seq<char>, mark: Seq<char>, k: int) -> int
    decreases text.len() - k,
{
    if k >= text.len() || text[k] == '&' || text[k] == '_' || crate::text::occurs_at(
        text,
        mark,
        k,
    ) {
        k
    } else {
        id_end(text, mark, k + 1)
    }
}

/// The id behind the first `mark` in a hardware id, as it is written there.
pub open spec fn id_behind(matching: Seq<char>, mark: Seq<char>) -> Option<Seq<char>> {
    match crate::text::first_found(matching, mark) {
        Some(i) => {
            let from = i + mark.len();
            Some(matching.subrange(from, id_end(matching, mark, from)))
        },
        None => None,
    }
}

/// The id behind the first `mark`, or none.
pub fn find_id(matching: &str, mark: &str) -> (id: Option<String>)
    requires
        mark@.len() > 0,
    ensures
        crate::text::opt_text(id) == id_behind(matching@, mark@),
{
    let chars = chars_of(matching);
    let text = chars.as_slice();
    let word = chars_of(mark);
    match index_from(text, word.as_slice(), 0) {
        Some(i) => {
            let from: usize = i + word.len();
            let mut k: usize = from;
            while k < chars.len() && chars[k] != '&' && chars[k] != '_' && !stands_at(
                text,
                word.as_slice(),
                k,
            )
                invariant
                    from <= k <= chars@.len(),
                    chars@ == matching@,
                    text@ == matching@,
                    word@ == mark@,
                    id_end(matching@, mark@, from as int) == id_end(matching@, mark@, k as int),
                decreases chars.len() - k,
            {
                k += 1;
            }
            Some(text_of(&text[from..k]))
        },
        None => None,
    }
}

/// The vendor id and the device id in a hardware id such as
/// `PCI\VEN_10DE&DEV_2684`, in capitals; empty where there is none.
pub fn parse_matching_id(matching: Option<&str>) -> (ids: (String, String))
    ensures
        match matching {
            Some(text) => {
                &&& ids.0@ == (match id_behind(text@, "VEN_"@) {
                    Some(id) => uppercased(id),
                    None => Seq::empty(),
                })
                &&& ids.1@ == (match id_behind(text@, "DEV_"@) {
                    Some(id) => uppercased(id),
                    None => Seq::empty(),
                })
            },
            None => ids.0@.len() == 0 && ids.1@.len() == 0,
        },
{
    proof {
        reveal_strlit("VEN_");
        reveal_strlit("DEV_");
    }
    match matching {
        Some(text) => {
            let vendor = match find_id(text, "VEN_") {
                Some(id) => uppercase(id.as_str()),
                None => String::new(),
            };
            let device = match find_id(text, "DEV_") {
                Some(id) => uppercase(id.as_str()),
                None => String::new(),
            };
            (vendor, device)
        },
        None => (String::new(), String::new()),
    }
}

/// What the registry holds of a display adapter.
#[derive(Debug)]
pub struct AdapterEntry {
    pub key_name: String,
    pub description: Option<String>,
    pub matching: Option<String>,
}

/// The registry class of the display adapters.
pub const CLASS_SUBKEY: &'static str =
    "SYSTEM\\CurrentControlSet\\Control\\Class\\{4d36e968-e325-11ce-bfc1-08002be10318}";

/// The registry key of a display adapter.
pub fn adapter_key(key_name: &str) -> (key: String)
    ensures
        key@ == CLASS_SUBKEY@ + "\\"@ + key_name@,
{
    joined(joined(CLASS_SUBKEY, "\\").as_str(), key_name)
}

/// The id behind a mark, in capitals; empty where there is none.
pub open spec fn id_text(matching: Option<String>, mark: Seq<char>) -> Seq<char> {
    match matching {
        Some(text) => match id_behind(text@, mark) {
            Some(id) => uppercased(id),
            None => Seq::empty(),
        },
        None => Seq::empty(),
    }
}

/// Whether an adapter is the one of an entry.
pub open spec fn is_adapter_of(adapter: GpuAdapter, entry: AdapterEntry) -> bool {
    &&& crate::text::opt_text(entry.description) == Some(adapter.description@)
    &&& adapter.vendor_id@ == id_text(entry.matching, "VEN_"@)
    &&& adapter.device_id@ == id_text(entry.matching, "DEV_"@)
    &&& adapter.key_name@ == entry.key_name@
}

/// The entries with a description, in order.
pub open spec fn described(entries: Seq<AdapterEntry>) -> Seq<AdapterEntry>
    decreases entries.len(),
{
    if entries.len() == 0 {
        Seq::empty()
    } else if entries.last().description is Some {
        described(entries.drop_last()).push(entries.last())
    } else {
        described(entries.drop_last())
    }
}

/// The display adapters of the registry: one for each entry that has a description, in
/// order.
pub fn enumerate_adapters(entries: &[AdapterEntry]) -> (adapters: Vec<GpuAdapter>)
    ensures
        adapters@.len() == described(entries@).len(),
        forall|i: int|
            0 <= i < adapters@.len() ==> is_adapter_of(
                #[trigger] adapters@[i],
                described(entries@)[i],
            ),
{
    let mut adapters: Vec<GpuAdapter> = Vec::new();
    let mut i: usize = 0;
    assert(entries@.subrange(0, 0) =~= Seq::empty());
    while i < entries.len()
        invariant
            i <= entries@.len(),
            adapters@.len() == described(entries@.subrange(0, i as int)).len(),
            forall|k: int|
                0 <= k < adapters@.len() ==> is_adapter_of(
                    #[trigger] adapters@[k],
                    described(entries@.subrange(0, i as int))[k],
                ),
        decreases entries@.len() - i,
    {
        assert(entries@.subrange(0, i + 1).drop_last() =~= entries@.subrange(0, i as int));
        let entry = &entries[i];
        if let Some(description) = &entry.description {
            let matching = match &entry.matching {
                Some(text) => Some(text.as_str()),
                None => None,
            };
            let (vendor_id, device_id) = parse_matching_id(matching);
            assert(vendor_id@ =~= id_text(entry.matching, "VEN_"@));
            assert(device_id@ =~= id_text(entry.matching, "DEV_"@));
            adapters.push(
                GpuAdapter {
                    description: description.clone(),
                    vendor_id,
                    device_id,
                    key_name: entry.key_name.clone(),
                },
            );
        }
        i += 1;
    }
    assert(entries@.subrange(0, i as int) =~= entries@);
    adapters
}

/// How a call for the size of a text in the registry went: the number of bytes to
/// read, if there can be a text.
pub fn text_size(status: u32, value_type: u32, size: u32) -> (bytes: Option<u32>)
    ensures
        bytes == (if status == 0 && (value_type == 1 || value_type == 0) && size >= 2 {
            Some(size)
        } else {
            None
        }),
{
    if status != 0 || (value_type != 1 && value_type != 0) || size < 2 {
        None
    } else {
        Some(size)
    }
}

/// The first zero of code units, or their number where there is none.
pub open spec fn end_of(units: Seq<u16>, k: int) -> int
    decreases units.len() - k,
{
    if k >= units.len() || units[k] == 0 {
        k
    } else {
        end_of(units, k + 1)
    }
}

/// `String::from_utf16_lossy`: the text whose UTF-16 code units these are, with the
/// replacement character for each unit of a pair that stands without the other.
#[verifier::external_body]
fn from_utf16_lossy(units: &[u16]) -> (text: String)
    ensures
        text@ == crate::words::decoded(units@),
{
    String::from_utf16_lossy(units)
}

/// A text of the registry, given its bytes: up to the first zero, without the white
/// space around it.
pub fn query_string(bytes: &[u8]) -> (text: String)
    ensures
        ({
            let units = crate::words::units_of(bytes@);
            text@ == crate::text::trimmed(
                crate::words::decoded(units.subrange(0, end_of(units, 0))),
            )
        }),
{
    let units = le_units(bytes);
    let mut k: usize = 0;
    while k < units.len() && units[k] != 0
        invariant
            k <= units@.len(),
            end_of(units@, 0) == end_of(units@, k as int),
        decreases units@.len() - k,
    {
        k += 1;
    }
    let text = from_utf16_lossy(&units.as_slice()[0..k]);
    trim(text.as_str())
}

/// What a probe was asked to measure.
#[derive(Debug)]
pub struct ProbeRequest {
    pub provider: String,
    pub threads: i32,
}

/// What a probe is asked to measure, given the two variables of its environment and
/// whether the model has a place. Where it cannot tell, that is its exit code.
pub fn probe_child(provider: Option<String>, threads: Option<&str>, has_dir: bool) -> (request:
    Result<ProbeRequest, i32>)
    ensures
        match request {
            Ok(request) => {
                &&& provider == Some(request.provider)
                &&& threads matches Some(t)
                &&& crate::text::integer_of(t@) == Some(request.threads as int)
                &&& has_dir
            },
            Err(code) => code == 2 && (provider is None || !has_dir || match threads {
                Some(t) => match crate::text::integer_of(t@) {
                    Some(n) => n < i32::MIN || n > i32::MAX,
                    None => true,
                },
                None => true,
            }),
        },
{
    let provider = match provider {
        Some(provider) => provider,
        None => {
            return Err(2);
        },
    };
    let threads = match threads {
        Some(text) => parse_i32(text),
        None => None,
    };
    match threads {
        Some(threads) => if has_dir {
            Ok(ProbeRequest { provider, threads })
        } else {
            Err(2)
        },
        None => Err(2),
    }
}

/// The exit code of a probe.
pub fn probe_code(measured: bool) -> (code: i32)
    ensures
        code == (if measured {
            0int
        } else {
            1
        }),
{
    if measured {
        0
    } else {
        1
    }
}

/// An NVIDIA adapter anywhere in the list makes NVIDIA the vendor that counts, whatever
/// the others are. Without one an AMD adapter does, without these an Intel one, and
/// without any of the three no vendor is known.
pub proof fn nvidia_counts_before_amd_before_intel(adapters: Seq<GpuAdapter>, i: int)
    requires
        0 <= i < adapters.len(),
    ensures
        ({
            let vendor = chief_vendor(adapters);
            &&& adapter_vendor(adapters[i]) == Vendor::Nvidia ==> vendor == Vendor::Nvidia
            &&& adapter_vendor(adapters[i]) == Vendor::Amd ==> vendor == Vendor::Nvidia || vendor
                == Vendor::Amd
            &&& adapter_vendor(adapters[i]) == Vendor::Intel ==> vendor == Vendor::Nvidia || vendor
                == Vendor::Amd || vendor == Vendor::Intel
        }),
{
    assert(has_vendor(adapters, adapter_vendor(adapters[i])));
}

/// The vendor that counts is that of one of the adapters, unless none is known; it is
/// never one of the others.
pub proof fn the_chief_vendor_has_an_adapter(adapters: Seq<GpuAdapter>)
    ensures
        match chief_vendor(adapters) {
            Vendor::Nvidia | Vendor::Amd | Vendor::Intel => exists|i: int|
                0 <= i < adapters.len() && adapter_vendor(#[trigger] adapters[i]) == chief_vendor(
                    adapters,
                ),
            other => other == Vendor::Unknown,
        },
{
}

/// The vendor of an adapter is that of its id, in capitals or not; where the id is not
/// known, that of a name in its description.
pub proof fn adapters_are_told_by_id_before_name(adapter: GpuAdapter)
    ensures
        ({
            let id = crate::text::ascii_lowered(adapter.vendor_id@);
            let text = crate::text::ascii_lowered(adapter.description@);
            let known = id == "10de"@ || id == "1002"@ || id == "1022"@ || id == "8086"@ || id
                == "06f0"@ || id == "4d4f"@ || id == "106b"@;
            let vendor = adapter_vendor(adapter);
            &&& id == "10de"@ ==> vendor == Vendor::Nvidia
            &&& id == "1002"@ || id == "1022"@ ==> vendor == Vendor::Amd
            &&& id == "8086"@ ==> vendor == Vendor::Intel
            &&& id == "06f0"@ || id == "4d4f"@ ==> vendor == Vendor::Qualcomm
            &&& id == "106b"@ ==> vendor == Vendor::Apple
            &&& !known && crate::text::has_text(text, "nvidia"@) ==> vendor == Vendor::Nvidia
            &&& !known && !crate::text::has_text(text, "nvidia"@) && (crate::text::has_text(
                text,
                "radeon"@,
            ) || crate::text::has_text(text, "amd"@)) ==> vendor == Vendor::Amd
            &&& !known && !crate::text::has_text(text, "nvidia"@) && !crate::text::has_text(
                text,
                "radeon"@,
            ) && !crate::text::has_text(text, "amd"@) && crate::text::has_text(text, "intel"@)
                ==> vendor == Vendor::Intel
        }),
{
    ids_in_small_letters();
    let id = crate::text::ascii_lowered(adapter.vendor_id@);
    reveal_strlit("10de");
    reveal_strlit("1002");
    reveal_strlit("1022");
    reveal_strlit("8086");
    reveal_strlit("06f0");
    reveal_strlit("4d4f");
    reveal_strlit("106b");
    assert("10de"@[0] != "8086"@[0]);
    assert("10de"@[2] != "1002"@[2]);
    assert("10de"@[2] != "1022"@[2]);
    assert("10de"@[1] == "106b"@[1] && "10de"@[2] != "106b"@[2]);
    assert("10de"@[0] != "06f0"@[0] && "10de"@[0] != "4d4f"@[0]);
    assert("1002"@[2] != "106b"@[2] && "1022"@[2] != "106b"@[2]);
    assert("1002"@[0] != "8086"@[0] && "1022"@[0] != "8086"@[0]);
    assert("1002"@[0] != "06f0"@[0] && "1022"@[0] != "06f0"@[0]);
    assert("1002"@[0] != "4d4f"@[0] && "1022"@[0] != "4d4f"@[0]);
    assert("8086"@[0] != "06f0"@[0] && "8086"@[0] != "4d4f"@[0] && "8086"@[0] != "106b"@[0]);
    assert("06f0"@[0] != "106b"@[0] && "4d4f"@[0] != "106b"@[0]);
}

proof fn ids_in_small_letters()
    ensures
        crate::text::ascii_lowered("10DE"@) == "10de"@,
        crate::text::ascii_lowered("1002"@) == "1002"@,
        crate::text::ascii_lowered("1022"@) == "1022"@,
        crate::text::ascii_lowered("8086"@) == "8086"@,
        crate::text::ascii_lowered("06F0"@) == "06f0"@,
        crate::text::ascii_lowered("4D4F"@) == "4d4f"@,
        crate::text::ascii_lowered("106B"@) == "106b"@,
{
    reveal_strlit("10DE");
    reveal_strlit("10de");
    reveal_strlit("1002");
    reveal_strlit("1022");
    reveal_strlit("8086");
    reveal_strlit("06F0");
    reveal_strlit("06f0");
    reveal_strlit("4D4F");
    reveal_strlit("4d4f");
    reveal_strlit("106B");
    reveal_strlit("106b");
    assert(crate::text::ascii_lowered("10DE"@) =~= "10de"@);
    assert(crate::text::ascii_lowered("1002"@) =~= "1002"@);
    assert(crate::text::ascii_lowered("1022"@) =~= "1022"@);
    assert(crate::text::ascii_lowered("8086"@) =~= "8086"@);
    assert(crate::text::ascii_lowered("06F0"@) =~= "06f0"@);
    assert(crate::text::ascii_lowered("4D4F"@) =~= "4d4f"@);
    assert(crate::text::ascii_lowered("106B"@) =~= "106b"@);
}

/// The candidates are the CPU with one, two and four threads, in this order, and behind
/// them CUDA with one thread where a GPU is measured; there are no others.
pub proof fn candidates_are_three_or_four(profile: HardwareProfile)
    ensures
        ({
            let all = candidates_of(profile);
            let gpu = profile.arch@ == "x86_64"@ && profile.vendor == Vendor::Nvidia;
            &&& all.len() == (if gpu {
                4int
            } else {
                3
            })
            &&& all[0].threads == 1 && all[1].threads == 2 && all[2].threads == 4
            &&& gpu ==> all[3].provider == "cuda"@ && all[3].threads == 1 && all[3].is_gpu
        }),
{
}

/// The winner among results of both sorts: a GPU that is at least 1.1 times as fast as
/// every CPU and no slower than any other GPU's keeps every CPU from winning, and a CPU
/// that no GPU is 1.1 times as fast as keeps every GPU from winning.
pub proof fn a_clearly_faster_gpu_wins(results: Seq<BenchResult>, k: int)
    requires
        forall|i: int| 0 <= i < results.len() ==> (#[trigger] results[i]).rtf != RTF_NAN,
        0 <= k < results.len(),
    ensures
        results[k].is_gpu && (forall|j: int|
            0 <= j < results.len() && !(#[trigger] results[j]).is_gpu ==> results[k].rtf * 11
                <= results[j].rtf * 10) ==> winner_of(results) is Some
            && results[winner_of(results)->0].is_gpu,
        !results[k].is_gpu && (forall|j: int|
            0 <= j < results.len() && (#[trigger] results[j]).is_gpu ==> results[j].rtf * 11
                > results[k].rtf * 10) ==> winner_of(results) is Some
            && !results[winner_of(results)->0].is_gpu,
{
    fastest_is_fastest(results, false);
    fastest_is_fastest(results, true);
}

/// Of equally fast results of one sort the first one counts.
pub proof fn earlier_results_win_ties(results: Seq<BenchResult>, j: int)
    requires
        forall|i: int| 0 <= i < results.len() ==> (#[trigger] results[i]).rtf != RTF_NAN,
        winner_of(results) is Some,
        0 <= j < winner_of(results)->0,
        results[j].is_gpu == results[winner_of(results)->0].is_gpu,
    ensures
        results[j].rtf > results[winner_of(results)->0].rtf,
{
    first_of_the_fastest(results, false);
    first_of_the_fastest(results, true);
    fastest_is_fastest(results, false);
    fastest_is_fastest(results, true);
}

proof fn first_of_the_fastest(results: Seq<BenchResult>, is_gpu: bool)
    requires
        forall|i: int| 0 <= i < results.len() ==> (#[trigger] results[i]).rtf != RTF_NAN,
    ensures
        fastest(results, is_gpu) matches Some(k) ==> forall|j: int|
            0 <= j < k && (#[trigger] results[j]).is_gpu == is_gpu ==> results[j].rtf
                > results[k].rtf,
    decreases results.len(),
{
    if results.len() > 0 {
        let before = results.drop_last();
        first_of_the_fastest(before, is_gpu);
        fastest_is_fastest(before, is_gpu);
        assert forall|j: int| 0 <= j < before.len() implies before[j] == results[j] by {}
    }
}

/// A backend is measured where none was picked yet, and again where it was picked on
/// another machine or by another version; not where the environment decides, nor where
/// machine and version are the same.
pub proof fn another_machine_or_version_is_measured_again(
    asr: crate::config::AsrView,
    device_hash: Seq<char>,
    forced_idle: bool,
)
    ensures
        forced_idle ==> !bench_due(asr, device_hash, forced_idle),
        !forced_idle && asr.provider.len() == 0 ==> bench_due(asr, device_hash, forced_idle),
        !forced_idle && asr.device_hash.len() > 0 && asr.device_hash != device_hash ==> bench_due(
            asr,
            device_hash,
            forced_idle,
        ),
        !forced_idle && asr.app_version.len() > 0 && asr.app_version != "1.0.3"@ ==> bench_due(
            asr,
            device_hash,
            forced_idle,
        ),
        asr.provider.len() > 0 && (asr.device_hash == device_hash || asr.device_hash.len() == 0) && (
        asr.app_version == "1.0.3"@ || asr.app_version.len() == 0) ==> !bench_due(
            asr,
            device_hash,
            forced_idle,
        ),
{
}

proof fn leading_is_the_number(digits: Seq<char>, n: int)
    requires
        0 <= n <= digits.len(),
        crate::text::digits_value(digits) is Some,
    ensures
        crate::text::digits_value(digits.subrange(0, n)) == Some(leading(digits, n)),
    decreases n,
{
    if n > 0 {
        leading_is_the_number(digits, n - 1);
        assert(digits.subrange(0, n).drop_last() =~= digits.subrange(0, n - 1));
        if crate::text::digit_value(digits[n - 1]) is None {
            not_a_number(digits, n - 1);
        }
    } else {
        assert(digits.subrange(0, 0) =~= Seq::empty());
    }
}

proof fn digits_are_digits(digits: Seq<char>)
    requires
        crate::text::digits_value(digits) is Some,
    ensures
        forall|i: int| 0 <= i < digits.len() ==> '0' <= #[trigger] digits[i] <= '9',
{
    assert forall|i: int| 0 <= i < digits.len() implies '0' <= #[trigger] digits[i] <= '9' by {
        if crate::text::digit_value(digits[i]) is None {
            not_a_number(digits, i);
        }
    }
}

proof fn either_is_behind(s: Seq<char>, a: char, b: char, k: int, n: int)
    requires
        0 <= k <= n <= s.len(),
        forall|i: int| k <= i < n ==> #[trigger] s[i] != a && s[i] != b,
        n < s.len() ==> s[n] == a || s[n] == b,
    ensures
        either_of(s, a, b, k) == n,
    decreases n - k,
{
    if k < n {
        either_is_behind(s, a, b, k + 1, n);
    }
}

/// What a probe prints is read back: a number with four decimals stands for as many
/// ten-thousandths as its digits say without the point, up to the cap, and a sign before
/// it counts.
pub proof fn printed_speeds_are_read_back(whole: Seq<char>, decimals: Seq<char>)
    requires
        whole.len() > 0,
        decimals.len() == 4,
        crate::text::digits_value(whole + decimals) is Some,
    ensures
        ({
            let printed = whole.push('.') + decimals;
            let exact = crate::text::digits_value(whole + decimals)->0;
            let speed = if exact > 1_000_000_000 {
                1_000_000_000int
            } else {
                exact as int
            };
            &&& speed_of(printed) == Some(speed)
            &&& speed_of(seq!['-'] + printed) == Some(-speed)
            &&& speed_of(seq!['+'] + printed) == Some(speed)
        }),
{
    let printed = whole.push('.') + decimals;
    let digits = whole + decimals;
    digits_are_digits(digits);
    let n = whole.len() as int;
    assert forall|i: int| 0 <= i < printed.len() implies #[trigger] printed[i] == '.' || '0'
        <= printed[i] <= '9' by {
        if i < n {
            assert(digits[i] == printed[i]);
        } else if i > n {
            assert(digits[i - 1] == printed[i]);
        }
    }
    assert(digits[0] == printed[0]);
    either_is_behind(printed, 'e', 'E', 0, printed.len() as int);
    assert(printed.subrange(0, printed.len() as int) =~= printed);
    assert forall|i: int| 0 <= i < n implies #[trigger] printed[i] != '.' by {
        assert(digits[i] == printed[i]);
    }
    assert(printed[n] == '.');
    either_is_behind(printed, '.', '.', 0, n);
    assert(printed.subrange(0, n) =~= whole);
    assert(behind(printed, n) =~= decimals);
    leading_is_the_number(digits, digits.len() as int);
    assert(digits.subrange(0, digits.len() as int) =~= digits);
    assert(!leaves_rest(digits, n + 4));
    no_word_has_a_point(printed);
    assert((seq!['-'] + printed).subrange(1, (printed.len() + 1) as int) =~= printed);
    assert((seq!['+'] + printed).subrange(1, (printed.len() + 1) as int) =~= printed);
    assert(unsigned(printed) == printed);
}

proof fn no_word_has_a_point(s: Seq<char>)
    requires
        s.len() > 0,
        '0' <= s[0] <= '9',
    ensures
        !crate::text::same_but_case(s, "nan"@),
        !crate::text::same_but_case(s, "inf"@),
        !crate::text::same_but_case(s, "infinity"@),
{
    reveal_strlit("nan");
    reveal_strlit("inf");
    reveal_strlit("infinity");
    let low = crate::text::ascii_lowered(s);
    assert(low[0] == s[0]);
    assert(crate::text::ascii_lowered("nan"@)[0] == 'n');
    assert(crate::text::ascii_lowered("inf"@)[0] == 'i');
    assert(crate::text::ascii_lowered("infinity"@)[0] == 'i');
}

/// A probe that fell back to the CPU counts as that, whatever else it says; one that says
/// nothing of its recogniser as not created; and any other by the first speed that it
/// prints: too slow above ten times real time, a measurement up to that, and not measured
/// without one.
pub proof fn probes_are_judged_by_their_output(lines: Seq<String>, stderr: Seq<char>)
    ensures
        ({
            let verdict = verdict_of(lines, stderr);
            let fell_back = crate::text::has_text(stderr, "Fallback to cpu"@);
            let created = exists|i: int|
                0 <= i < lines.len() && crate::text::occurs_at(
                    (#[trigger] lines[i])@,
                    "__probe_created"@,
                    0,
                );
            &&& fell_back <==> verdict is FellBack
            &&& !fell_back && !created <==> verdict is NotCreated
            &&& !fell_back && created ==> match first_speed(lines) {
                None => verdict is NotMeasured,
                Some(speed) => verdict == (if speed > 100_000 {
                    ProbeVerdict::TooSlow(speed as i64)
                } else {
                    ProbeVerdict::Measured(speed as i64)
                }),
            }
        }),
{
}

/// The first line that holds a speed behind the marker counts, and lines that hold none
/// are passed over.
pub proof fn the_first_printed_speed_counts(lines: Seq<String>, i: int)
    requires
        0 <= i < lines.len(),
        crate::text::occurs_at(lines[i]@, "__probe_rtf"@, 0),
        speed_of(
            crate::text::trimmed(
                lines[i]@.subrange("__probe_rtf"@.len() as int, lines[i]@.len() as int),
            ),
        ) is Some,
        forall|k: int|
            0 <= k < i ==> !crate::text::occurs_at((#[trigger] lines[k])@, "__probe_rtf"@, 0)
                || speed_of(
                crate::text::trimmed(
                    lines[k]@.subrange("__probe_rtf"@.len() as int, lines[k]@.len() as int),
                ),
            ) is None,
    ensures
        first_speed(lines) == speed_of(
            crate::text::trimmed(
                lines[i]@.subrange("__probe_rtf"@.len() as int, lines[i]@.len() as int),
            ),
        ),
    decreases lines.len(),
{
    if i > 0 {
        assert(line_speed(lines[0]@) is None);
        let rest = lines.drop_first();
        assert(rest[i - 1] == lines[i]);
        assert forall|k: int| 0 <= k < i - 1 implies !crate::text::occurs_at(
            (#[trigger] rest[k])@,
            "__probe_rtf"@,
            0,
        ) || speed_of(
            crate::text::trimmed(
                rest[k]@.subrange("__probe_rtf"@.len() as int, rest[k]@.len() as int),
            ),
        ) is None by {
            assert(rest[k] == lines[k + 1]);
        }
        the_first_printed_speed_counts(rest, i - 1);
    }
}

/// The vendors have their ids, in upper case or lower.
pub proof fn vendors_have_their_ids(id: Seq<char>)
    ensures
        ({
            let is = |other: Seq<char>| crate::text::same_but_case(id, other);
            &&& vendor_by_id(id) == Vendor::Nvidia <==> is("10DE"@)
            &&& vendor_by_id(id) == Vendor::Amd <==> is("1002"@) || is("1022"@)
            &&& vendor_by_id(id) == Vendor::Intel <==> is("8086"@)
            &&& vendor_by_id(id) == Vendor::Qualcomm <==> is("06F0"@) || is("4D4F"@)
            &&& vendor_by_id(id) == Vendor::Apple <==> is("106B"@)
        }),
{
    reveal_strlit("10DE");
    reveal_strlit("1002");
    reveal_strlit("1022");
    reveal_strlit("8086");
    reveal_strlit("06F0");
    reveal_strlit("4D4F");
    reveal_strlit("106B");
    let (a, b, c, d, e, f, g) = (
        crate::text::ascii_lowered("10DE"@),
        crate::text::ascii_lowered("1002"@),
        crate::text::ascii_lowered("1022"@),
        crate::text::ascii_lowered("8086"@),
        crate::text::ascii_lowered("06F0"@),
        crate::text::ascii_lowered("4D4F"@),
        crate::text::ascii_lowered("106B"@),
    );
    assert(a[0] == '1' && b[0] == '1' && c[0] == '1' && d[0] == '8' && e[0] == '0' && f[0] == '4'
        && g[0] == '1');
    assert(a[2] == 'd' && b[2] == '0' && c[2] == '2' && g[2] == '6');
}

/// The profile of a machine is that of its graphics card, wherever that stands among its
/// adapters, and of its processor where no card is known; a machine with an NVIDIA card
/// measures it.
pub proof fn profiles_follow_the_graphics_card(
    arch: &str,
    os: &str,
    adapters: &[GpuAdapter],
    profile: HardwareProfile,
)
    requires
        call_ensures(detect_hardware, (arch, os, adapters), profile),
    ensures
        (exists|i: int|
            0 <= i < adapters@.len() && adapter_vendor(#[trigger] adapters@[i]) == Vendor::Nvidia)
            ==> profile.vendor == Vendor::Nvidia && (arch@ == "x86_64"@ ==> candidates_of(
            profile,
        ).last().is_gpu),
        adapters@.len() == 0 && arch@ == "x86_64"@ ==> profile.vendor == Vendor::Intel,
        adapters@.len() == 0 && arch@ == "aarch64"@ ==> profile.vendor == Vendor::Qualcomm,
        profile.vendor != Vendor::Unknown,
        adapters@.len() > 0 && adapters@[0].description@.len() > 0 ==> profile.gpu_label@
            == adapters@[0].description@,
        adapters@.len() == 0 ==> profile.gpu_label@ == profile.vendor.name(),
        profile.arch@ == arch@ && profile.os@ == os@,
        profile.device_hash@.len() == 16,
{
    reveal_strlit("x86_64");
    reveal_strlit("aarch64");
    assert("x86_64"@.len() != "aarch64"@.len());
    hexadecimals_have_their_length(
        hash_of(vstd::utf8::encode_utf8(machine_text(arch@, os@, adapters@))) as nat,
        16,
    );
}

proof fn hexadecimals_have_their_length(value: nat, n: nat)
    ensures
        hex_of(value, n).len() == n,
    decreases n,
{
    if n > 0 {
        hexadecimals_have_their_length(value / 16, (n - 1) as nat);
    }
}

/// The value of a digit of sixteen, in lower case.
pub open spec fn hex_digit(c: char) -> nat {
    if '0' <= c <= '9' {
        (c as u32 - '0' as u32) as nat
    } else {
        (c as u32 - 'a' as u32 + 10) as nat
    }
}

/// A number in hexadecimal has its last sixteenth as its last digit, and the rest before it.
pub proof fn hexadecimals_end_with_the_lowest_digit(value: nat, n: nat)
    requires
        n > 0,
    ensures
        hex_of(value, n).len() == n,
        hex_digit(hex_of(value, n).last()) == value % 16,
        hex_of(value, n).drop_last() == hex_of(value / 16, (n - 1) as nat),
        '0' <= hex_of(value, n).last() <= '9' || 'a' <= hex_of(value, n).last() <= 'f',
{
    hexadecimals_have_their_length(value, n);
    assert(hex_of(value, n).drop_last() == hex_of(value / 16, (n - 1) as nat));
}

/// The mark of a machine is made byte by byte: each is mixed in and then multiplied, from
/// the customary start.
pub proof fn marks_are_made_byte_by_byte(bytes: Seq<u8>, byte: u8)
    ensures
        hash_of(Seq::empty()) == 14_695_981_039_346_656_037,
        hash_of(bytes.push(byte)) == (hash_of(bytes) ^ byte as u64).wrapping_mul(1_099_511_628_211),
{
    assert(bytes.push(byte).drop_last() == bytes);
}

/// What a machine is known by names its processor, its system and each of its adapters by
/// both ids, in order.
pub proof fn machines_are_known_by_their_adapters(
    arch: Seq<char>,
    os: Seq<char>,
    adapters: Seq<GpuAdapter>,
    adapter: GpuAdapter,
)
    ensures
        machine_text(arch, os, Seq::empty()) == arch + seq!['|'] + os,
        machine_text(arch, os, adapters.push(adapter)) == machine_text(arch, os, adapters) + seq![
            '|',
        ] + adapter.vendor_id@ + seq![':'] + adapter.device_id@,
{
    reveal_strlit("|");
    reveal_strlit(":");
    assert("|"@ =~= seq!['|']);
    assert(":"@ =~= seq![':']);
    assert(adapters.push(adapter).drop_last() == adapters);
    assert(machine_text(arch, os, adapters.push(adapter)) =~= machine_text(arch, os, adapters)
        + seq!['|'] + adapter.vendor_id@ + seq![':'] + adapter.device_id@);
}

/// Of two speeds the smaller number is the faster; one that is no number is neither faster
/// nor slower than any.
pub proof fn smaller_numbers_are_faster(a: i64, b: i64)
    requires
        a != i64::MIN,
        b != i64::MIN,
    ensures
        is_faster(a, b) <==> a < b,
        !is_faster(i64::MIN, a) && !is_faster(a, i64::MIN),
{
}

/// A benchmark runs only where nothing forbids it and there is a model; it then measures the
/// first candidate, and so on until the last.
pub proof fn benchmarks_need_a_model(
    forced_idle: bool,
    model_cached: bool,
    profile: HardwareProfile,
    begun: (Bench, Vec<BenchAction>),
)
    requires
        call_ensures(run_backend_bench, (forced_idle, model_cached, &profile), begun),
    ensures
        forced_idle || !model_cached ==> begun.0.over && begun.1@ == seq![BenchAction::Return(None)],
        !forced_idle && model_cached ==> {
            &&& !begun.0.over && begun.0.index == 0 && begun.0.results@.len() == 0
            &&& begun.1@[0] == BenchAction::EnsureClip
            &&& begun.1@.last() == BenchAction::Probe(0)
        },
        begun.0.candidates@.len() == candidates_of(profile).len(),
{
    candidates_are_three_or_four(profile);
    let views = begun.0.candidates@.map_values(|c: ProviderCandidate| c@);
    assert(views.len() == begun.0.candidates@.len());
}

/// A measurement is kept with what was measured, and the next candidate is probed; a probe
/// that gave none is passed over, and one that is far too slow ends it all with nothing.
pub proof fn measurements_are_kept(bench: BenchView, verdict: ProbeVerdict, speed: i64)
    requires
        !bench.over,
        0 <= bench.index,
        bench.index + 1 < bench.candidates.len() <= usize::MAX,
    ensures
        ({
            let (next, actions) = bench.after(ProbeVerdict::Measured(speed));
            let candidate = bench.candidates[bench.index];
            &&& next.index == bench.index + 1 && !next.over
            &&& next.results.len() == bench.results.len() + 1
            &&& next.results.last().rtf == speed
            &&& next.results.last().provider == candidate.provider
            &&& next.results.last().threads == candidate.threads
            &&& next.results.last().is_gpu == candidate.is_gpu
            &&& next.results.drop_last() == bench.results
            &&& actions[0] == BenchAction::Report(BenchProgress::Measured(next.results.last()))
            &&& actions.last() == BenchAction::Probe((bench.index + 1) as usize)
        }),
        verdict is FellBack || verdict is NotCreated || verdict is NotMeasured ==> {
            let (next, actions) = bench.after(verdict);
            &&& next == (BenchView { index: bench.index + 1, ..bench })
            &&& actions.last() == BenchAction::Probe((bench.index + 1) as usize)
        },
        verdict is TooSlow ==> bench.after(verdict).0.over && bench.after(verdict).1.last()
            == BenchAction::Return(None),
{
    let result = result_of(bench.candidates[bench.index], speed);
    assert(bench.results.push(result).drop_last() == bench.results);
}

/// What is stored of the winner is what was measured, with the version, the time and the
/// machine.
pub proof fn winners_are_stored(
    profile: HardwareProfile,
    winner: BenchResult,
    unix_secs: u64,
    entry: AsrCacheEntry,
)
    requires
        call_ensures(winner_entry, (&profile, &winner, unix_secs), entry),
    ensures
        entry@.provider == winner.provider@,
        entry@.threads == winner.threads,
        entry@.win_rtf == winner.rtf,
        entry@.app_version == APP_VERSION@,
        entry@.device_hash == profile.device_hash@,
        crate::text::digits_value(entry@.cached_at) == Some(unix_secs as nat),
{
    crate::text::decimals_are_read_back(unix_secs as nat);
}

/// Any of the three variables keeps the benchmark from running.
pub proof fn variables_keep_it_idle(skip: bool, provider: bool, threads: bool, idle: bool)
    requires
        call_ensures(env_forces_idle, (skip, provider, threads), idle),
    ensures
        idle <==> skip || provider || threads,
{
}

/// An id is what stands behind its mark up to the next separator.
pub proof fn ids_stand_behind_their_marks(before: Seq<char>, id: Seq<char>, rest: Seq<char>, mark: Seq<char>)
    requires
        mark.len() > 0,
        crate::text::first_found(before + mark + id + rest, mark) == Some(before.len() as int),
        forall|k: int|
            before.len() + mark.len() <= k < before.len() + mark.len() + id.len()
                ==> !#[trigger] crate::text::occurs_at(before + mark + id + rest, mark, k),
        forall|k: int| 0 <= k < id.len() ==> #[trigger] id[k] != '&' && id[k] != '_',
        rest.len() == 0 || rest[0] == '&' || rest[0] == '_',
    ensures
        id_behind(before + mark + id + rest, mark) == Some(id),
{
    let text = before + mark + id + rest;
    let from = (before.len() + mark.len()) as int;
    ids_end_at_separators(text, mark, from, from + id.len());
    assert(text.subrange(from, from + id.len()) =~= id);
}

proof fn ids_end_at_separators(text: Seq<char>, mark: Seq<char>, k: int, end: int)
    requires
        0 <= k <= end <= text.len(),
        forall|j: int| k <= j < end ==> #[trigger] text[j] != '&' && text[j] != '_',
        forall|j: int| k <= j < end ==> !#[trigger] crate::text::occurs_at(text, mark, j),
        end == text.len() || text[end] == '&' || text[end] == '_',
    ensures
        id_end(text, mark, k) == end,
    decreases end - k,
{
    if k < end {
        assert(text[k] != '&' && text[k] != '_');
        assert(!crate::text::occurs_at(text, mark, k));
        ids_end_at_separators(text, mark, k + 1, end);
    }
}

/// Every adapter that is described is listed, in order, and no other.
pub proof fn described_adapters_are_listed(entries: Seq<AdapterEntry>, entry: AdapterEntry)
    ensures
        entry.description is Some ==> described(entries.push(entry)) == described(entries).push(
            entry,
        ),
        entry.description is None ==> described(entries.push(entry)) == described(entries),
        described(Seq::empty()).len() == 0,
{
    assert(entries.push(entry).drop_last() == entries);
}

/// An adapter has the description and the ids of its entry.
pub proof fn adapters_have_their_ids(adapter: GpuAdapter, entry: AdapterEntry)
    requires
        is_adapter_of(adapter, entry),
    ensures
        entry.description is Some && adapter.description@ == entry.description->0@,
        adapter.key_name@ == entry.key_name@,
        entry.matching is Some && id_behind(entry.matching->0@, "VEN_"@) is Some
            ==> adapter.vendor_id@ == uppercased(id_behind(entry.matching->0@, "VEN_"@)->0),
        entry.matching is Some && id_behind(entry.matching->0@, "DEV_"@) is Some
            ==> adapter.device_id@ == uppercased(id_behind(entry.matching->0@, "DEV_"@)->0),
        entry.matching is None ==> adapter.vendor_id@.len() == 0 && adapter.device_id@.len() == 0,
{
}

/// A text in the registry ends at its first zero.
pub proof fn registry_texts_end_at_zero(units: Seq<u16>, k: int)
    requires
        0 <= k <= units.len(),
    ensures
        k <= end_of(units, k) <= units.len(),
        end_of(units, k) < units.len() ==> units[end_of(units, k)] == 0,
        forall|i: int| k <= i < end_of(units, k) ==> #[trigger] units[i] != 0,
    decreases units.len() - k,
{
    if k < units.len() && units[k] != 0 {
        registry_texts_end_at_zero(units, k + 1);
    }
}

/// A probe takes its request where it is whole, and ends with success where it measured.
pub proof fn whole_requests_are_taken(
    provider: Option<String>,
    threads: i32,
    text: &str,
    request: Result<ProbeRequest, i32>,
    measured: bool,
    code: i32,
)
    requires
        text@ == crate::text::signed_decimal_of(threads as int),
        call_ensures(probe_child, (provider, Some(text), true), request),
        call_ensures(probe_code, (measured,), code),
    ensures
        request is Ok <==> provider is Some,
        request is Ok ==> request->Ok_0.provider == provider->0 && request->Ok_0.threads == threads,
        code == 0 <==> measured,
{
    crate::text::signed_decimals_are_read_back(threads as int);
}

/// A number that is cut behind a place is rounded up where anything but zeros is cut off,
/// the very next digit or a later one, and stays where nothing is.
pub proof fn cut_numbers_are_rounded_up(digits: Seq<char>, p: int, i: int)
    requires
        0 <= p <= i < digits.len(),
    ensures
        '1' <= digits[i] <= '9' ==> rounded(digits, p, true) == leading(digits, p) + 1,
        (forall|k: int| p <= k < digits.len() ==> #[trigger] digits[k] == '0') ==> rounded(
            digits,
            p,
            true,
        ) == leading(digits, p),
        rounded(digits, p, false) == leading(digits, p),
{
    if '1' <= digits[i] <= '9' {
        assert(crate::text::digit_value(digits[i]) != Some(0nat));
        assert(leaves_rest(digits, p));
    }
}

/// Only a number has a speed: before its power of ten it has nothing but digits and at most
/// one point, and at least one digit.
pub proof fn only_numbers_have_a_speed(s: Seq<char>, up: bool, i: int)
    requires
        unsigned_speed(s, up) is Some,
        forall|k: int| 0 <= k < s.len() ==> #[trigger] s[k] != 'e' && s[k] != 'E',
        0 <= i < s.len(),
    ensures
        '0' <= s[i] <= '9' || s[i] == '.',
        exists|k: int| 0 <= k < s.len() && '0' <= #[trigger] s[k] <= '9',
{
    nothing_is_found(s, 'e', 'E', 0);
    assert(s.subrange(0, s.len() as int) =~= s);
    let point = either_of(s, '.', '.', 0);
    first_of_either(s, '.', '.', 0);
    let whole = s.subrange(0, point);
    let rest = behind(s, point);
    let digits = whole + rest;
    assert forall|k: int| 0 <= k < digits.len() implies '0' <= #[trigger] digits[k] <= '9' by {
        if crate::text::digit_value(digits[k]) is None {
            not_a_number(digits, k);
        }
    }
    assert forall|k: int| 0 <= k < s.len() && k != point implies '0' <= #[trigger] s[k] <= '9' by {
        if k < point {
            assert(digits[k] == s[k]);
        } else {
            assert(digits[k - 1] == s[k]);
        }
    }
    assert('0' <= digits[0] <= '9');
    if point > 0 {
        assert('0' <= s[0] <= '9');
    } else {
        assert('0' <= s[1] <= '9');
    }
}

proof fn first_of_either(s: Seq<char>, a: char, b: char, k: int)
    requires
        0 <= k <= s.len(),
    ensures
        k <= either_of(s, a, b, k) <= s.len(),
        either_of(s, a, b, k) < s.len() ==> s[either_of(s, a, b, k)] == a || s[either_of(s, a, b, k)]
            == b,
    decreases s.len() - k,
{
    if k < s.len() && s[k] != a && s[k] != b {
        first_of_either(s, a, b, k + 1);
    }
}

proof fn nothing_is_found(s: Seq<char>, a: char, b: char, k: int)
    requires
        0 <= k <= s.len(),
        forall|i: int| 0 <= i < s.len() ==> #[trigger] s[i] != a && s[i] != b,
    ensures
        either_of(s, a, b, k) == s.len(),
    decreases s.len() - k,
{
    if k < s.len() {
        nothing_is_found(s, a, b, k + 1);
    }
}

} // verus!
