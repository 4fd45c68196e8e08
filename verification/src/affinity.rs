//! Core selection for the engine thread.
//!
//! The policy and the decoding of the system's cpu-set records are here;
//! querying the system and pinning the thread are the host's job.

use vstd::prelude::*;

verus! {

#[derive(Copy, Clone, Debug, PartialEq, Eq, Structural)]
pub struct CpuSet {
    pub id: u32,
    /// Higher is more performant. On hybrid parts performance cores report a
    /// higher class than efficiency cores; on homogeneous parts every set
    /// reports 0.
    pub efficiency_class: u8,
    pub group: u16,
    pub logical_index: u8,
}

/// Sort key among equally efficient sets: group, then logical index, then id.
pub open spec fn key_le(a: CpuSet, b: CpuSet) -> bool {
    a.group < b.group || (a.group == b.group && (a.logical_index < b.logical_index || (
    a.logical_index == b.logical_index && a.id <= b.id)))
}

fn key_le_exec(a: &CpuSet, b: &CpuSet) -> (r: bool)
    ensures
        r == key_le(*a, *b),
{
    a.group < b.group || (a.group == b.group && (a.logical_index < b.logical_index || (
    a.logical_index == b.logical_index && a.id <= b.id)))
}

/// The highest efficiency class present.
pub open spec fn is_best_class(sets: Seq<CpuSet>, class: u8) -> bool {
    &&& exists|i: int| 0 <= i < sets.len() && #[trigger] sets[i].efficiency_class == class
    &&& forall|i: int| 0 <= i < sets.len() ==> #[trigger] sets[i].efficiency_class <= class
}

/// `sets[j]` is a candidate (best class) that comes first or second in key
/// order among the candidates, as the policy requires: first when it is the
/// only candidate, otherwise second.
pub open spec fn is_chosen(sets: Seq<CpuSet>, class: u8, j: int) -> bool {
    &&& 0 <= j < sets.len()
    &&& sets[j].efficiency_class == class
    &&& (exists|i: int|
        0 <= i < sets.len() && i != j && #[trigger] sets[i].efficiency_class == class) ==> exists|
        i: int,
    |
        #![trigger sets[i]]
        0 <= i < sets.len() && i != j && sets[i].efficiency_class == class && key_le(sets[i], sets[j])
            && forall|k: int|
            #![trigger sets[k]]
            0 <= k < sets.len() && sets[k].efficiency_class == class && k != i && k != j ==> key_le(
                sets[j],
                sets[k],
            )
}

/// Pure selection policy.
///
/// Prefers the highest `efficiency_class`. Among equals, prefers the
/// lowest-numbered set that is not the first in key order, because core 0
/// absorbs more interrupt and DPC work than its siblings. With a single
/// candidate, that candidate. Deterministic by construction.
pub fn select_best_cpu_set(sets: &[CpuSet]) -> (r: Option<u32>)
    ensures
        sets@.len() == 0 <==> r is None,
        r matches Some(id) ==> exists|class: u8, j: int|
            is_best_class(sets@, class) && is_chosen(sets@, class, j) && sets@[j].id == id,
{
    let n = sets.len();
    if n == 0 {
        return None;
    }
    // Highest class.
    let mut best: u8 = sets[0].efficiency_class;
    let mut bi: usize = 0;
    let mut i: usize = 1;
    while i < n
        invariant
            n == sets@.len(),
            1 <= i <= n,
            bi < i,
            sets@[bi as int].efficiency_class == best,
            forall|k: int| 0 <= k < i ==> #[trigger] sets@[k].efficiency_class <= best,
        decreases n - i,
    {
        if sets[i].efficiency_class > best {
            best = sets[i].efficiency_class;
            bi = i;
        }
        i = i + 1;
    }
    let ghost class = best;
    let ghost s = sets@;
    assert(is_best_class(s, class));
    // First candidate in key order.
    let mut m1: usize = bi;
    let mut i: usize = 0;
    while i < n
        invariant
            n == s.len(),
            s == sets@,
            best == class,
            i <= n,
            m1 < n,
            s[m1 as int].efficiency_class == class,
            forall|k: int|
                0 <= k < i && #[trigger] s[k].efficiency_class == class ==> key_le(s[m1 as int], s[k]),
        decreases n - i,
    {
        if sets[i].efficiency_class == best && !key_le_exec(&sets[m1], &sets[i]) {
            m1 = i;
        }
        i = i + 1;
    }
    // Second candidate in key order, if any.
    let mut m2: Option<usize> = None;
    let mut i: usize = 0;
    while i < n
        invariant
            n == s.len(),
            s == sets@,
            best == class,
            i <= n,
            m1 < n,
            s[m1 as int].efficiency_class == class,
            forall|k: int|
                0 <= k < n && #[trigger] s[k].efficiency_class == class ==> key_le(s[m1 as int], s[k]),
            m2 matches Some(j) ==> j < n && j != m1 && s[j as int].efficiency_class == class,
            m2 is None ==> forall|k: int|
                0 <= k < i && k != m1 ==> #[trigger] s[k].efficiency_class != class,
            m2 matches Some(j) ==> forall|k: int|
                0 <= k < i && k != m1 && #[trigger] s[k].efficiency_class == class ==> key_le(
                    s[j as int],
                    s[k],
                ),
        decreases n - i,
    {
        if i != m1 && sets[i].efficiency_class == best {
            match m2 {
                None => {
                    m2 = Some(i);
                },
                Some(j) => {
                    if !key_le_exec(&sets[j], &sets[i]) {
                        m2 = Some(i);
                    }
                },
            }
        }
        i = i + 1;
    }
    match m2 {
        Some(j) => {
            assert(is_chosen(s, class, j as int)) by {
                assert(s[m1 as int] == s[m1 as int]);
                assert(key_le(s[m1 as int], s[j as int]));
            }
            Some(sets[j].id)
        },
        None => {
            assert(is_chosen(s, class, m1 as int));
            Some(sets[m1].id)
        },
    }
}

/// Little-endian 32-bit word at `off`.
pub open spec fn le_u32(b: Seq<u8>, off: int) -> int {
    b[off] + b[off + 1] * 256 + b[off + 2] * 65536 + b[off + 3] * 16777216
}

/// Little-endian 16-bit word at `off`.
pub open spec fn le_u16(b: Seq<u8>, off: int) -> int {
    b[off] + b[off + 1] * 256
}

/// Decoding of a packed run of `SYSTEM_CPU_SET_INFORMATION` records starting at
/// `off`. Layout of a record: 0 size (u32), 4 type (u32, 0 = cpu set), 8 id
/// (u32), 12 group (u16), 14 logical processor index, 18 efficiency class.
/// Decoding stops at a record whose size is zero, shorter than 19 bytes, or
/// runs past the end; records of another type are skipped.
pub open spec fn spec_cpu_sets(b: Seq<u8>, off: int) -> Seq<CpuSet>
    decreases b.len() - off,
{
    if off < 0 || off + 8 > b.len() {
        Seq::empty()
    } else {
        let size = le_u32(b, off);
        if size == 0 || off + size > b.len() || size < 19 {
            Seq::empty()
        } else {
            let rest = spec_cpu_sets(b, off + size);
            if le_u32(b, off + 4) == 0 {
                seq![
                    CpuSet {
                        id: le_u32(b, off + 8) as u32,
                        efficiency_class: b[off + 18],
                        group: le_u16(b, off + 12) as u16,
                        logical_index: b[off + 14],
                    },
                ] + rest
            } else {
                rest
            }
        }
    }
}

fn read_u32(b: &[u8], off: usize) -> (v: u32)
    requires
        off + 4 <= b@.len(),
    ensures
        v == le_u32(b@, off as int),
{
    (b[off] as u32) + (b[off + 1] as u32) * 256 + (b[off + 2] as u32) * 65536 + (b[off + 3] as u32)
        * 16777216
}

/// Decode the records the system returned (exactly the bytes it reported as
/// written).
pub fn parse_cpu_sets(records: &[u8]) -> (sets: Vec<CpuSet>)
    ensures
        sets@ == spec_cpu_sets(records@, 0),
{
    let mut out: Vec<CpuSet> = Vec::new();
    let mut offset: usize = 0;
    let len = records.len();
    while offset <= len && len - offset >= 8
        invariant
            len == records@.len(),
            out@ + spec_cpu_sets(records@, offset as int) == spec_cpu_sets(records@, 0),
        ensures
            out@ == spec_cpu_sets(records@, 0),
        decreases len - offset,
    {
        let size = read_u32(records, offset) as usize;
        if size == 0 || size > len - offset || size < 19 {
            proof {
                assert(out@ + Seq::<CpuSet>::empty() == out@);
            }
            break;
        }
        let ty = read_u32(records, offset + 4);
        if ty == 0 {
            let id = read_u32(records, offset + 8);
            let group = (records[offset + 12] as u16) + (records[offset + 13] as u16) * 256;
            let set = CpuSet {
                id,
                efficiency_class: records[offset + 18],
                group,
                logical_index: records[offset + 14],
            };
            proof {
                assert(spec_cpu_sets(records@, offset as int) == seq![set] + spec_cpu_sets(records@, offset + size));
                assert((out@ + seq![set]) + spec_cpu_sets(records@, offset + size) == out@ + (seq![set] + spec_cpu_sets(records@, offset + size)));
            }
            out.push(set);
        }
        offset = offset + size;
    }
    out
}

/// The value the engine publishes before, or instead of, a successful pin.
pub const NOT_PINNED: u32 = 0xFFFF_FFFF;

/// The cpu set the engine thread reported pinning to, if it pinned.
pub fn pinned_core_of(published: u32) -> (r: Option<u32>)
    ensures
        published == NOT_PINNED ==> r is None,
        published != NOT_PINNED ==> r == Some(published),
{
    if published == NOT_PINNED {
        None
    } else {
        Some(published)
    }
}

} // verus!
