//! Hybrid core topology: classifying CPUs into P-, E- and LP E-cores from their
//! maximum frequency, reading sysfs CPU directory names and frequency files,
//! ordering the detected cores, and planning which CPU each pinned worker gets.

use vstd::prelude::*;
use crate::text::{has_prefix, parse_bounded, parse_u64, parse_usize, str_starts_with, trim_str, trimmed};

verus! {

/// Core type classification based on max frequency.
#[derive(Debug, Clone, Copy, PartialEq, Eq, Structural)]
pub enum CoreType {
    /// Performance Core (4.5 GHz on 125H)
    PCores,
    /// Efficient Core (3.6 GHz on 125H)
    ECores,
    /// Low-Power Efficient Core (2.5 GHz on 125H, SoC tile)
    LPCores,
}

/// Detected core info from sysfs.
#[derive(Debug, Clone, Copy, PartialEq, Eq, Structural)]
pub struct DetectedCore {
    pub cpu_id: usize,
    pub max_freq_khz: u64,
    pub core_type: CoreType,
}

/// Lowest maximum frequency, in kHz, of a performance core.
pub const P_CORE_MIN_FREQ_KHZ: u64 = 4_000_000;

/// Lowest maximum frequency, in kHz, of an efficient core.
pub const E_CORE_MIN_FREQ_KHZ: u64 = 3_000_000;

/// The core type that a maximum frequency (kHz) indicates.
pub open spec fn core_type_for(max_freq_khz: u64) -> CoreType {
    if max_freq_khz >= P_CORE_MIN_FREQ_KHZ {
        CoreType::PCores
    } else if max_freq_khz >= E_CORE_MIN_FREQ_KHZ {
        CoreType::ECores
    } else {
        CoreType::LPCores
    }
}

/// Classifies a CPU by its maximum frequency in kHz.
pub fn classify_core(max_freq_khz: u64) -> (t: CoreType)
    ensures
        t == core_type_for(max_freq_khz),
{
    if max_freq_khz >= P_CORE_MIN_FREQ_KHZ {
        CoreType::PCores
    } else if max_freq_khz >= E_CORE_MIN_FREQ_KHZ {
        CoreType::ECores
    } else {
        CoreType::LPCores
    }
}


/// The CPU number named by a sysfs directory entry such as `cpu12`: the part
/// after `cpu`, read as a `usize`; `None` for other entries (`cpufreq`, `cpuidle`, ...).
pub open spec fn cpu_id_of(name: Seq<char>) -> Option<usize> {
    if has_prefix(name, "cpu"@) {
        match parse_bounded(name.skip(3), usize::MAX as nat) {
            Some(v) => Some(v as usize),
            None => None,
        }
    } else {
        None
    }
}

/// Reads the CPU number from a `/sys/devices/system/cpu/` entry name.
pub fn parse_cpu_id(name: &str) -> (r: Option<usize>)
    ensures
        r == cpu_id_of(name@),
{
    if !str_starts_with(name, "cpu") {
        return None;
    }
    proof {
        reveal_strlit("cpu");
    }
    let n = name.unicode_len();
    let rest = name.substring_char(3, n);
    assert(rest@ =~= name@.skip(3));
    parse_usize(rest)
}

/// The maximum frequency (kHz) that a `cpuinfo_max_freq` file holds: its
/// trimmed text read as a `u64`, or 0 when that text is no such number.
pub open spec fn max_freq_of(contents: Seq<char>) -> u64 {
    match parse_bounded(trimmed(contents), u64::MAX as nat) {
        Some(v) => v as u64,
        None => 0,
    }
}

/// Reads a `cpuinfo_max_freq` file's contents, falling back to 0.
pub fn parse_max_freq_khz(contents: &str) -> (r: u64)
    ensures
        r == max_freq_of(contents@),
{
    match parse_u64(trim_str(contents)) {
        Some(v) => v,
        None => 0,
    }
}

/// One CPU as found in sysfs: its number and the text of its frequency file.
pub struct CpuReading {
    pub cpu_id: usize,
    pub max_freq_text: String,
}

/// The core that a sysfs reading describes.
pub open spec fn detected_from(r: CpuReading) -> DetectedCore {
    let f = max_freq_of(r.max_freq_text@);
    DetectedCore { cpu_id: r.cpu_id, max_freq_khz: f, core_type: core_type_for(f) }
}

/// Where a stable insertion places a core with CPU number `id` into `s`: after
/// the last element, scanning from the back, whose number is at most `id`.
pub open spec fn insertion_index(s: Seq<DetectedCore>, id: usize) -> nat
    decreases s.len(),
{
    if s.len() == 0 {
        0
    } else if s.last().cpu_id <= id {
        s.len()
    } else {
        insertion_index(s.drop_last(), id)
    }
}

/// `s` stably sorted by CPU number (what `sort_by_key(|c| c.cpu_id)` yields).
pub open spec fn sort_by_cpu_id(s: Seq<DetectedCore>) -> Seq<DetectedCore>
    decreases s.len(),
{
    if s.len() == 0 {
        s
    } else {
        let p = sort_by_cpu_id(s.drop_last());
        p.insert(insertion_index(p, s.last().cpu_id) as int, s.last())
    }
}

/// CPU numbers never decrease along `s`.
pub open spec fn sorted_by_cpu_id(s: Seq<DetectedCore>) -> bool {
    forall|i: int, j: int| 0 <= i <= j < s.len() ==> s[i].cpu_id <= s[j].cpu_id
}

proof fn lemma_insertion_index(s: Seq<DetectedCore>, id: usize)
    ensures
        insertion_index(s, id) <= s.len(),
        forall|k: int| insertion_index(s, id) <= k < s.len() ==> s[k].cpu_id > id,
        insertion_index(s, id) > 0 ==> s[insertion_index(s, id) - 1].cpu_id <= id,
    decreases s.len(),
{
    if s.len() > 0 && s.last().cpu_id > id {
        let t = s.drop_last();
        lemma_insertion_index(t, id);
        assert forall|k: int| insertion_index(s, id) <= k < s.len() implies s[k].cpu_id > id by {
            if k < t.len() {
                assert(s[k] == t[k]);
            }
        }
    }
}

/// The stable sort by CPU number leaves the numbers in non-decreasing order.
pub proof fn lemma_sort_by_cpu_id_sorted(s: Seq<DetectedCore>)
    ensures
        sorted_by_cpu_id(sort_by_cpu_id(s)),
        sort_by_cpu_id(s).len() == s.len(),
    decreases s.len(),
{
    if s.len() > 0 {
        let p = sort_by_cpu_id(s.drop_last());
        let x = s.last();
        lemma_sort_by_cpu_id_sorted(s.drop_last());
        lemma_insertion_index(p, x.cpu_id);
        let k = insertion_index(p, x.cpu_id) as int;
        let q = p.insert(k, x);
        assert forall|i: int, j: int| 0 <= i <= j < q.len() implies q[i].cpu_id <= q[j].cpu_id by {
            if i < k && j < k {
            } else if i < k && j == k {
                assert(p[i].cpu_id <= p[k - 1].cpu_id);
            } else if i < k && j > k {
                assert(q[j] == p[j - 1]);
            } else if i == k && j > k {
                assert(q[j] == p[j - 1]);
            } else if i > k {
                assert(q[i] == p[i - 1] && q[j] == p[j - 1]);
            }
        }
    }
}

/// The stable sort by CPU number keeps exactly the cores it was given.
pub proof fn lemma_sort_by_cpu_id_permutes(s: Seq<DetectedCore>)
    ensures
        sort_by_cpu_id(s).to_multiset() == s.to_multiset(),
    decreases s.len(),
{
    broadcast use vstd::seq_lib::group_to_multiset_ensures;
    if s.len() > 0 {
        let p = sort_by_cpu_id(s.drop_last());
        lemma_sort_by_cpu_id_permutes(s.drop_last());
        lemma_insertion_index(p, s.last().cpu_id);
        vstd::seq_lib::to_multiset_insert(p, insertion_index(p, s.last().cpu_id) as int, s.last());
        assert(s =~= s.drop_last().push(s.last()));
    }
}

/// Builds the detected topology from sysfs readings: each reading's frequency
/// text is parsed and classified, and the cores come out stably sorted by CPU number.
pub fn topology_from_readings(readings: &Vec<CpuReading>) -> (cores: Vec<DetectedCore>)
    ensures
        cores@ == sort_by_cpu_id(readings@.map_values(|r: CpuReading| detected_from(r))),
        sorted_by_cpu_id(cores@),
        cores@.to_multiset() == readings@.map_values(|r: CpuReading| detected_from(r)).to_multiset(),
        forall|i: int|
            0 <= i < cores.len() ==> (#[trigger] cores@[i]).core_type == core_type_for(cores@[i].max_freq_khz),
{
    let ghost all = readings@.map_values(|r: CpuReading| detected_from(r));
    let mut out: Vec<DetectedCore> = Vec::new();
    let n = readings.len();
    let mut i: usize = 0;
    while i < n
        invariant
            n == readings.len(),
            i <= n,
            all == readings@.map_values(|r: CpuReading| detected_from(r)),
            out@ == sort_by_cpu_id(all.take(i as int)),
        decreases n - i,
    {
        let f = parse_max_freq_khz(readings[i].max_freq_text.as_str());
        let core = DetectedCore { cpu_id: readings[i].cpu_id, max_freq_khz: f, core_type: classify_core(f) };
        assert(core == all[i as int]);
        let mut j: usize = out.len();
        assert(out@.take(out.len() as int) =~= out@);
        while j > 0 && out[j - 1].cpu_id > core.cpu_id
            invariant
                j <= out.len(),
                insertion_index(out@, core.cpu_id) == insertion_index(out@.take(j as int), core.cpu_id),
            decreases j,
        {
            assert(out@.take(j as int).drop_last() =~= out@.take(j - 1));
            j = j - 1;
        }
        assert(insertion_index(out@, core.cpu_id) == j);
        assert(all.take(i + 1).drop_last() =~= all.take(i as int));
        out.insert(j, core);
        i = i + 1;
    }
    assert(all.take(n as int) =~= all);
    proof {
        lemma_sort_by_cpu_id_sorted(all);
        lemma_sort_by_cpu_id_permutes(all);
        assert forall|i: int| 0 <= i < out.len() implies (#[trigger] out@[i]).core_type == core_type_for(
            out@[i].max_freq_khz,
        ) by {
            vstd::seq_lib::to_multiset_contains(out@, out@[i]);
            vstd::seq_lib::to_multiset_contains(all, out@[i]);
            assert(out@.contains(out@[i]));
            let k = choose|k: int| 0 <= k < all.len() && all[k] == out@[i];
        }
    }
    out
}


/// A core type ranks above another when it is the faster class.
pub open spec fn core_type_rank(t: CoreType) -> int {
    match t {
        CoreType::LPCores => 0,
        CoreType::ECores => 1,
        CoreType::PCores => 2,
    }
}

/// A CPU with a higher maximum frequency is never put in a slower class.
pub proof fn lemma_classification_monotone(f1: u64, f2: u64)
    requires
        f1 <= f2,
    ensures
        core_type_rank(core_type_for(f1)) <= core_type_rank(core_type_for(f2)),
{
}

/// A CPU is a P-core when its maximum frequency is at least 4 GHz, an E-core
/// from 3 GHz up to that, and an LP E-core below 3 GHz.
pub proof fn lemma_classification_thresholds(f: u64)
    ensures
        (core_type_for(f) == CoreType::PCores) == (f >= 4_000_000),
        (core_type_for(f) == CoreType::ECores) == (3_000_000 <= f < 4_000_000),
        (core_type_for(f) == CoreType::LPCores) == (f < 3_000_000),
{
}

/// The CPU numbers of the cores of type `t` in `s`, in their order in `s`.
pub open spec fn ids_of_type(s: Seq<DetectedCore>, t: CoreType) -> Seq<usize>
    decreases s.len(),
{
    if s.len() == 0 {
        Seq::empty()
    } else {
        let p = ids_of_type(s.drop_last(), t);
        if s.last().core_type == t {
            p.push(s.last().cpu_id)
        } else {
            p
        }
    }
}

/// Returns the CPU IDs for a given core type.
pub fn get_cpu_ids_for(cores: &[DetectedCore], core_type: CoreType) -> (ids: Vec<usize>)
    ensures
        ids@ == ids_of_type(cores@, core_type),
{
    let mut ids: Vec<usize> = Vec::new();
    let n = cores.len();
    let mut i: usize = 0;
    while i < n
        invariant
            n == cores@.len(),
            i <= n,
            ids@ == ids_of_type(cores@.take(i as int), core_type),
        decreases n - i,
    {
        assert(cores@.take(i + 1).drop_last() =~= cores@.take(i as int));
        if cores[i].core_type == core_type {
            ids.push(cores[i].cpu_id);
        }
        i = i + 1;
    }
    assert(cores@.take(n as int) =~= cores@);
    ids
}

/// Every detected core falls in exactly one of the three classes, so the three
/// ID lists together are as long as the topology.
pub proof fn lemma_core_types_partition(s: Seq<DetectedCore>)
    ensures
        ids_of_type(s, CoreType::PCores).len() + ids_of_type(s, CoreType::ECores).len()
            + ids_of_type(s, CoreType::LPCores).len() == s.len(),
    decreases s.len(),
{
    if s.len() > 0 {
        lemma_core_types_partition(s.drop_last());
    }
}

/// On a topology sorted by CPU number, the IDs of each core type come out in
/// non-decreasing order.
pub proof fn lemma_ids_of_type_sorted(s: Seq<DetectedCore>, t: CoreType)
    requires
        sorted_by_cpu_id(s),
    ensures
        forall|i: int, j: int|
            0 <= i <= j < ids_of_type(s, t).len() ==> ids_of_type(s, t)[i] <= ids_of_type(s, t)[j],
    decreases s.len(),
{
    if s.len() > 0 {
        let t0 = s.drop_last();
        assert(sorted_by_cpu_id(t0)) by {
            assert forall|i: int, j: int| 0 <= i <= j < t0.len() implies t0[i].cpu_id <= t0[j].cpu_id by {
                assert(t0[i] == s[i] && t0[j] == s[j]);
            }
        }
        lemma_ids_of_type_sorted(t0, t);
        let p = ids_of_type(t0, t);
        if s.last().core_type == t {
            assert forall|i: int| 0 <= i < p.len() implies p[i] <= s.last().cpu_id by {
                lemma_ids_of_type_sound(t0, t, i);
                let k = choose|k: int| 0 <= k < t0.len() && t0[k].cpu_id == p[i] && t0[k].core_type == t;
                assert(s[k] == t0[k]);
                assert(s[k].cpu_id <= s[s.len() - 1].cpu_id);
            }
        }
    }
}

/// Each ID listed for a core type is the number of a core of that type.
pub proof fn lemma_ids_of_type_sound(s: Seq<DetectedCore>, t: CoreType, i: int)
    requires
        0 <= i < ids_of_type(s, t).len(),
    ensures
        exists|j: int| 0 <= j < s.len() && s[j].cpu_id == ids_of_type(s, t)[i] && s[j].core_type == t,
    decreases s.len(),
{
    let p = ids_of_type(s.drop_last(), t);
    if i < p.len() {
        lemma_ids_of_type_sound(s.drop_last(), t, i);
        let j = choose|j: int|
            0 <= j < s.drop_last().len() && s.drop_last()[j].cpu_id == p[i] && s.drop_last()[j].core_type == t;
        assert(s[j] == s.drop_last()[j]);
    } else {
        assert(s[s.len() - 1].cpu_id == ids_of_type(s, t)[i]);
    }
}

/// The requested CPUs that the affinity API offers, in request order: what a
/// pinned pool gets when each requested CPU is looked up among the available ones.
pub open spec fn pinnable(requested: Seq<usize>, available: Seq<usize>) -> Seq<usize>
    decreases requested.len(),
{
    if requested.len() == 0 {
        Seq::empty()
    } else {
        let p = pinnable(requested.drop_last(), available);
        if available.contains(requested.last()) {
            p.push(requested.last())
        } else {
            p
        }
    }
}

fn contains_id(v: &Vec<usize>, x: usize) -> (r: bool)
    ensures
        r == v@.contains(x),
{
    let mut i: usize = 0;
    while i < v.len()
        invariant
            i <= v.len(),
            forall|k: int| 0 <= k < i ==> v@[k] != x,
        decreases v.len() - i,
    {
        if v[i] == x {
            return true;
        }
        i = i + 1;
    }
    false
}

/// Maps the CPU numbers of a core class onto the core IDs that the affinity
/// API reports, keeping those it knows, in order.
pub fn pinnable_cpus(requested: &Vec<usize>, available: &Vec<usize>) -> (r: Vec<usize>)
    ensures
        r@ == pinnable(requested@, available@),
{
    let mut out: Vec<usize> = Vec::new();
    let n = requested.len();
    let mut i: usize = 0;
    while i < n
        invariant
            n == requested.len(),
            i <= n,
            out@ == pinnable(requested@.take(i as int), available@),
        decreases n - i,
    {
        assert(requested@.take(i + 1).drop_last() =~= requested@.take(i as int));
        if contains_id(available, requested[i]) {
            out.push(requested[i]);
        }
        i = i + 1;
    }
    assert(requested@.take(n as int) =~= requested@);
    out
}

/// When every requested CPU is available, the pool is pinned to all of them, in order.
pub proof fn lemma_pinnable_all_available(requested: Seq<usize>, available: Seq<usize>)
    requires
        forall|i: int| 0 <= i < requested.len() ==> available.contains(#[trigger] requested[i]),
    ensures
        pinnable(requested, available) == requested,
    decreases requested.len(),
{
    if requested.len() > 0 {
        assert(available.contains(requested[requested.len() - 1]));
        lemma_pinnable_all_available(requested.drop_last(), available);
        assert(requested.drop_last().push(requested.last()) =~= requested);
    }
}

/// A pinned CPU is one that was both requested and available.
pub proof fn lemma_pinnable_sound(requested: Seq<usize>, available: Seq<usize>, i: int)
    requires
        0 <= i < pinnable(requested, available).len(),
    ensures
        requested.contains(pinnable(requested, available)[i]),
        available.contains(pinnable(requested, available)[i]),
    decreases requested.len(),
{
    let p = pinnable(requested.drop_last(), available);
    if i < p.len() {
        lemma_pinnable_sound(requested.drop_last(), available, i);
        let k = choose|k: int| 0 <= k < requested.drop_last().len() && requested.drop_last()[k] == p[i];
        assert(requested[k] == p[i]);
    } else {
        assert(requested[requested.len() - 1] == requested.last());
    }
}

/// The CPU that worker `thread_idx` of a pinned pool is bound to, if any: the
/// worker with the same index in the pool's CPU list; surplus workers stay unpinned.
pub fn worker_cpu(thread_idx: usize, cpus: &Vec<usize>) -> (r: Option<usize>)
    ensures
        r == (if thread_idx < cpus.len() { Some(cpus@[thread_idx as int]) } else { None }),
{
    if thread_idx < cpus.len() {
        Some(cpus[thread_idx])
    } else {
        None
    }
}

} // verus!
