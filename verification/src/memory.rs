//! Memory summaries and per-process GNA usage entries, and the human-readable
//! rendering of byte counts.
use vstd::prelude::*;
use crate::text::{lemma_parse_decimal_round_trip, parse_unsigned};
use crate::decimal::{
    decimal_text, fixed_point_text, lemma_round_half_even_bounds, lemma_round_half_even_nearest, pow10,
    push_fixed_point, round_half_even, round_half_even_exec,
};

verus! {

/// One kibibyte.
pub const KIB: u64 = 1024;

/// One mebibyte.
pub const MIB: u64 = 1024 * 1024;

/// One gibibyte.
pub const GIB: u64 = 1024 * 1024 * 1024;

/// Two to the 53rd: from here on, not every integer is a binary64 value.
pub const F64_EXACT_LIMIT: u64 = 0x20_0000_0000_0000;

/// Represents the overall GNA usage reported by the DLL.
#[derive(Debug, Clone)]
pub struct GnomeUsageMetrics {
    pub total_gna_usage_bytes: u64,
    pub dedicated_gna_usage_bytes: u64,
    pub shared_gna_usage_bytes: u64,
}

/// Summarizes overall system resources relevant to GNA monitoring only.
#[derive(Debug, Clone)]
pub struct SystemMemorySummary {
    /// Total monitored capacity (e.g., max available GNA units).
    pub total_gna_capacity_bytes: u64,
}

impl Default for SystemMemorySummary {
    fn default() -> (res: Self)
        ensures
            res.total_gna_capacity_bytes == 0,
    {
        SystemMemorySummary { total_gna_capacity_bytes: 0 }
    }
}

/// Represents the GNA usage metrics for a specific process or system component.
#[derive(Debug, Clone)]
pub struct ProcessMemoryEntry {
    pub pid: u32,
    pub name: String,
    /// The primary metric: GNA utilization.
    pub gna_usage_bytes: u64,
}

impl Default for ProcessMemoryEntry {
    fn default() -> (res: Self)
        ensures
            res.pid == 0,
            res.name@ == Seq::<char>::empty(),
            res.gna_usage_bytes == 0,
    {
        ProcessMemoryEntry { pid: 0, name: String::new(), gna_usage_bytes: 0 }
    }
}

/// The spacing of binary64 values around `b`: 1 below 2^53, doubling with
/// each further binade.
pub open spec fn f64_ulp(b: nat) -> nat
    decreases b,
{
    if b < F64_EXACT_LIMIT {
        1
    } else {
        2 * f64_ulp(b / 2)
    }
}

/// The value of the integer `b` converted to binary64: the nearest multiple
/// of `f64_ulp(b)`, a tie going to the even mantissa.
pub open spec fn f64_value(b: nat) -> nat {
    round_half_even(b, f64_ulp(b)) * f64_ulp(b)
}

/// How a byte count is shown: `scaled / 10^places` units of `unit_bytes`
/// bytes, followed by `suffix`.
pub struct ByteDisplay {
    pub scaled: nat,
    pub places: nat,
    pub unit_bytes: nat,
    pub suffix: Seq<char>,
}

/// How a byte count is shown: in GB with two decimals from one gibibyte on,
/// else in MB with one decimal from one mebibyte on, else in KB with no
/// decimal from one kibibyte on, else as the exact count in B. The scaled
/// value is the count (converted to binary64) over the unit, rounded half to
/// even at the last decimal shown.
pub open spec fn byte_display(bytes: u64) -> ByteDisplay {
    if bytes >= GIB {
        ByteDisplay {
            scaled: round_half_even(f64_value(bytes as nat) * 100, GIB as nat),
            places: 2,
            unit_bytes: GIB as nat,
            suffix: seq![' ', 'G', 'B'],
        }
    } else if bytes >= MIB {
        ByteDisplay {
            scaled: round_half_even(bytes as nat * 10, MIB as nat),
            places: 1,
            unit_bytes: MIB as nat,
            suffix: seq![' ', 'M', 'B'],
        }
    } else if bytes >= KIB {
        ByteDisplay {
            scaled: round_half_even(bytes as nat, KIB as nat),
            places: 0,
            unit_bytes: KIB as nat,
            suffix: seq![' ', 'K', 'B'],
        }
    } else {
        ByteDisplay { scaled: bytes as nat, places: 0, unit_bytes: 1, suffix: seq![' ', 'B'] }
    }
}

/// The text of a byte count: its scaled value with the shown number of
/// decimals, then the unit.
pub open spec fn format_bytes_text(bytes: u64) -> Seq<char> {
    fixed_point_text(byte_display(bytes).scaled, byte_display(bytes).places)
        + byte_display(bytes).suffix
}

/// The value of `b` converted to binary64, as an integer.
fn f64_value_exec(b: u64) -> (res: u128)
    ensures
        res == f64_value(b as nat),
        res <= 2 * (b as int) + 4096,
{
    let mut ulp: u128 = 1;
    let mut t: u64 = b;
    while t >= F64_EXACT_LIMIT
        invariant
            f64_ulp(b as nat) == ulp * f64_ulp(t as nat),
            1 <= ulp <= 4096,
            ulp * t <= b,
        decreases t,
    {
        let ghost rest = f64_ulp((t / 2) as nat);
        assert(f64_ulp(t as nat) == 2 * rest);
        assert(ulp * (2 * rest) == (ulp * 2) * rest) by (nonlinear_arith);
        assert(ulp * 2 * (t / 2) <= ulp * t) by (nonlinear_arith)
            requires
                ulp >= 1,
        ;
        assert(ulp <= 2048) by (nonlinear_arith)
            requires
                ulp * t <= b,
                t >= F64_EXACT_LIMIT,
                b <= u64::MAX,
        ;
        ulp = ulp * 2;
        t = t / 2;
    }
    assert(f64_ulp(t as nat) == 1);
    assert(ulp == f64_ulp(b as nat));
    let m = round_half_even_exec(b as u128, ulp);
    proof {
        lemma_round_half_even_nearest(b as nat, ulp as nat);
    }
    m * ulp
}

/// Converts raw byte count to a human-readable string format.
pub fn format_bytes(bytes: u64) -> (res: String)
    ensures
        res@ == format_bytes_text(bytes),
{
    let mut s = String::new();
    if bytes >= GIB {
        let v = f64_value_exec(bytes);
        let q = round_half_even_exec(v * 100, GIB as u128);
        push_fixed_point(&mut s, q, 2);
        proof {
            reveal_strlit(" GB");
        }
        s.append(" GB");
    } else if bytes >= MIB {
        let q = round_half_even_exec(bytes as u128 * 10, MIB as u128);
        push_fixed_point(&mut s, q, 1);
        proof {
            reveal_strlit(" MB");
        }
        s.append(" MB");
    } else if bytes >= KIB {
        let q = round_half_even_exec(bytes as u128, KIB as u128);
        push_fixed_point(&mut s, q, 0);
        proof {
            reveal_strlit(" KB");
        }
        s.append(" KB");
    } else {
        push_fixed_point(&mut s, bytes as u128, 0);
        proof {
            reveal_strlit(" B");
        }
        s.append(" B");
    }
    s
}

/// Collects system-wide GNA summary metrics: the default summary, with a
/// capacity of zero.
pub fn collect_system_gna_summary() -> (res: SystemMemorySummary)
    ensures
        res.total_gna_capacity_bytes == 0,
{
    SystemMemorySummary::default()
}

/// Maps each `(pid, name)` pair, in order, to a `ProcessMemoryEntry` with that
/// pid and name and a GNA usage of zero.
pub fn collect_process_memory(all_processes: &[(u32, String)]) -> (res: Vec<ProcessMemoryEntry>)
    ensures
        res@.len() == all_processes@.len(),
        forall|i: int|
            0 <= i < all_processes@.len() ==> {
                &&& (#[trigger] res@[i]).pid == all_processes@[i].0
                &&& res@[i].name@ == all_processes@[i].1@
                &&& res@[i].gna_usage_bytes == 0
            },
{
    let mut res: Vec<ProcessMemoryEntry> = Vec::new();
    let n = all_processes.len();
    for i in 0..n
        invariant
            n == all_processes@.len(),
            res@.len() == i,
            forall|j: int|
                0 <= j < i ==> {
                    &&& (#[trigger] res@[j]).pid == all_processes@[j].0
                    &&& res@[j].name@ == all_processes@[j].1@
                    &&& res@[j].gna_usage_bytes == 0
                },
    {
        let (pid, name) = &all_processes[i];
        res.push(ProcessMemoryEntry { pid: *pid, name: name.clone(), gna_usage_bytes: 0 });
    }
    res
}

/// The spacing of binary64 values is at least 1, and below 2^53 exactly 1;
/// from 2^53 on it is at most `b / 2^52`.
pub proof fn lemma_f64_ulp_bounds(b: nat)
    ensures
        f64_ulp(b) >= 1,
        b < F64_EXACT_LIMIT ==> f64_ulp(b) == 1,
        b >= F64_EXACT_LIMIT ==> f64_ulp(b) * 0x10_0000_0000_0000 <= b,
    decreases b,
{
    if b >= F64_EXACT_LIMIT {
        lemma_f64_ulp_bounds(b / 2);
    }
}

/// Converting a count to binary64 keeps it exactly below 2^53, moves it by
/// at most half a spacing, and by at most `b / 2^53` in all.
pub proof fn lemma_f64_value_nearest(b: nat)
    ensures
        b < F64_EXACT_LIMIT ==> f64_value(b) == b,
        -(f64_ulp(b) as int) <= 2 * (f64_value(b) - b) <= f64_ulp(b),
        (f64_value(b) - b) * F64_EXACT_LIMIT <= b,
        (b - f64_value(b)) * F64_EXACT_LIMIT <= b,
{
    lemma_f64_ulp_bounds(b);
    lemma_round_half_even_nearest(b, f64_ulp(b));
    let u = f64_ulp(b);
    let v = f64_value(b);
    if b < F64_EXACT_LIMIT {
        assert(round_half_even(b, 1) == b);
    } else {
        assert((v - b) * F64_EXACT_LIMIT <= b) by (nonlinear_arith)
            requires
                2 * (v - b) <= u,
                u * 0x10_0000_0000_0000 <= b,
                F64_EXACT_LIMIT == 0x20_0000_0000_0000,
        ;
        assert((b - v) * F64_EXACT_LIMIT <= b) by (nonlinear_arith)
            requires
                -(u as int) <= 2 * (v - b),
                u * 0x10_0000_0000_0000 <= b,
                F64_EXACT_LIMIT == 0x20_0000_0000_0000,
        ;
    }
}

/// The shown number is the nearest one with the shown decimals: the scaled
/// value times the unit is within half a unit of the count (as binary64)
/// times `10^places`.
pub proof fn lemma_format_bytes_nearest(bytes: u64)
    ensures
        ({
            let d = byte_display(bytes);
            &&& d.unit_bytes > 0
            &&& -(d.unit_bytes as int) <= 2 * (d.scaled * d.unit_bytes - f64_value(bytes as nat)
                * pow10(d.places)) <= d.unit_bytes
        }),
{
    let d = byte_display(bytes);
    lemma_f64_value_nearest(bytes as nat);
    if bytes >= GIB {
        lemma_round_half_even_nearest(f64_value(bytes as nat) * 100, GIB as nat);
    } else if bytes >= MIB {
        lemma_round_half_even_nearest(bytes as nat * 10, MIB as nat);
    } else if bytes >= KIB {
        lemma_round_half_even_nearest(bytes as nat, KIB as nat);
    }
}

/// Each unit is chosen so that the shown number is at least 1 and, below the
/// gigabyte, at most 1024: a count of at least a kibibyte never shows as
/// less than one unit, and no count shows more than 1024 KB or MB.
pub proof fn lemma_format_bytes_in_range(bytes: u64)
    ensures
        bytes >= KIB ==> byte_display(bytes).scaled >= pow10(byte_display(bytes).places),
        bytes < GIB ==> byte_display(bytes).scaled <= 1024 * pow10(byte_display(bytes).places),
{
    let d = byte_display(bytes);
    lemma_f64_value_nearest(bytes as nat);
    if bytes >= GIB {
        let v = f64_value(bytes as nat);
        assert(v >= GIB) by (nonlinear_arith)
            requires
                bytes >= GIB,
                bytes < F64_EXACT_LIMIT ==> v == bytes,
                (bytes - v) * F64_EXACT_LIMIT <= bytes,
                F64_EXACT_LIMIT == 0x20_0000_0000_0000,
                GIB == 0x4000_0000,
        ;
        lemma_round_half_even_bounds(v * 100, GIB as nat, 100);
    } else if bytes >= MIB {
        lemma_round_half_even_bounds(bytes as nat * 10, MIB as nat, 10);
        lemma_round_half_even_bounds(bytes as nat * 10, MIB as nat, 10240);
    } else if bytes >= KIB {
        lemma_round_half_even_bounds(bytes as nat, KIB as nat, 1);
        lemma_round_half_even_bounds(bytes as nat, KIB as nat, 1024);
    }
}

/// The unit is fixed by the range of the count: from one gibibyte on the
/// text ends in " GB", from one mebibyte on in " MB", from one kibibyte on in
/// " KB", and below that in " B" after the exact count in decimal.
pub proof fn lemma_format_bytes_unit(bytes: u64)
    ensures
        ({
            let t = format_bytes_text(bytes);
            &&& bytes >= GIB ==> t.len() >= 3 && t.subrange(t.len() - 3, t.len() as int) == seq![' ', 'G', 'B']
            &&& MIB <= bytes < GIB ==> t.len() >= 3 && t.subrange(t.len() - 3, t.len() as int) == seq![' ', 'M', 'B']
            &&& KIB <= bytes < MIB ==> t.len() >= 3 && t.subrange(t.len() - 3, t.len() as int) == seq![' ', 'K', 'B']
            &&& bytes < KIB ==> t.len() >= 2 && t.subrange(t.len() - 2, t.len() as int) == seq![' ', 'B']
                && parse_unsigned(t.subrange(0, t.len() - 2), u64::MAX as nat) == Some(bytes as nat)
        }),
{
    let d = byte_display(bytes);
    let head = fixed_point_text(d.scaled, d.places);
    let t = format_bytes_text(bytes);
    assert(t == head + d.suffix);
    assert(t.subrange(head.len() as int, t.len() as int) =~= d.suffix);
    assert(t.subrange(0, head.len() as int) =~= head);
    if bytes < KIB {
        assert(head == decimal_text(bytes as nat));
        lemma_parse_decimal_round_trip(bytes as nat, u64::MAX as nat);
    }
}

} // verus!
