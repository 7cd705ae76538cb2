//! The catalog-driven decoder: one monotonic cursor walks the flat record
//! sequence in ascending leaf order and produces the nested model.
//!
//! The walk is specified by [`decode_spec`], a pure function of the record
//! sequence: fixed-shape leaves consume a known number of records,
//! terminator-driven leaves consume records until a sentinel field is
//! observed, and conditionally-present sub-leaves are consumed exactly when
//! a field of an already-decoded record announces them. Leaves whose shape
//! the catalog leaves open are rejected loudly, never guessed.

use vstd::prelude::*;

use crate::model::CpuidView;
use crate::model::IntelCpuid;
use crate::model::RegLeaf;
use crate::model::TlbCachePrefetchInfomation;
use crate::model::leaf_of;
use crate::model::read_leaf;
use crate::raw::RawCpuid;
use crate::raw::RawEntry;

verus! {

/// Decode-time failures; each names the leaf on which the walk stopped.
#[derive(Debug, Clone, Copy, PartialEq, Eq, Structural)]
pub enum DecodeError {
    /// The raw sequence is shorter than the catalog requires, or a record
    /// did not answer the query the catalog expected at its position.
    MalformedInput {
        /// The leaf whose records are missing or inconsistent.
        leaf: u32,
    },
    /// The shape of this leaf is not implemented; the decoder fails loudly
    /// rather than guess.
    UnsupportedLeaf {
        /// The leaf whose shape is not implemented.
        leaf: u32,
    },
}

/// The cache-type field of a deterministic-cache record: EAX bits 0..5.
/// A zero value means "no more caches".
pub open spec fn cache_type(e: RawEntry) -> u32 {
    e.eax & 0x1f
}

/// The level-type field of a topology record: ECX bits 8..16. A zero value
/// marks the last, invalid topology level.
pub open spec fn level_type(e: RawEntry) -> u32 {
    (e.ecx >> 8) & 0xff
}

/// The first position at or after `i` whose record carries a null cache
/// type, if any.
#[verifier::opaque]
pub open spec fn first_null_cache(s: Seq<RawEntry>, i: int) -> Option<int>
    decreases s.len() - i,
        when 0 <= i
{
    if i >= s.len() {
        None
    } else if cache_type(s[i]) == 0 {
        Some(i)
    } else {
        first_null_cache(s, i + 1)
    }
}

/// The first position at or after `i` whose record carries a null level
/// type, if any.
#[verifier::opaque]
pub open spec fn first_null_level(s: Seq<RawEntry>, i: int) -> Option<int>
    decreases s.len() - i,
        when 0 <= i
{
    if i >= s.len() {
        None
    } else if level_type(s[i]) == 0 {
        Some(i)
    } else {
        first_null_level(s, i + 1)
    }
}

/// How many consecutive records, from `i` on, answer leaf `f`.
#[verifier::opaque]
pub open spec fn run_of_function(s: Seq<RawEntry>, i: int, f: u32) -> int
    decreases s.len() - i,
        when 0 <= i
{
    if i >= s.len() || s[i].function != f {
        0
    } else {
        1 + run_of_function(s, i + 1, f)
    }
}

/// The `n` leaves built from the records at `i`, `i + 1`, ...
#[verifier::opaque]
pub open spec fn seq_leaves(s: Seq<RawEntry>, i: int, n: int) -> Seq<RegLeaf> {
    Seq::new(n as nat, |k: int| leaf_of(s[i + k]))
}

/// One record consumed with no consistency check; `id` names the leaf a
/// missing record is charged to.
pub open spec fn dec_fixed(s: Seq<RawEntry>, i: int, id: u32) -> Result<RegLeaf, DecodeError> {
    if 0 <= i < s.len() {
        Ok(leaf_of(s[i]))
    } else {
        Err(DecodeError::MalformedInput { leaf: id })
    }
}

/// One record consumed with a consistency check: it must answer `(f, 0)`.
pub open spec fn dec_checked(s: Seq<RawEntry>, i: int, f: u32) -> Result<RegLeaf, DecodeError> {
    if 0 <= i < s.len() && s[i].function == f && s[i].index == 0 {
        Ok(leaf_of(s[i]))
    } else {
        Err(DecodeError::MalformedInput { leaf: f })
    }
}

/// One record consumed exactly when an already-decoded field announced it.
pub open spec fn dec_opt(s: Seq<RawEntry>, i: int, announced: bool, id: u32) -> Result<
    (Option<RegLeaf>, int),
    DecodeError,
> {
    if announced {
        match dec_fixed(s, i, id) {
            Err(e) => Err(e),
            Ok(l) => Ok((Some(l), i + 1)),
        }
    } else {
        Ok((None, i))
    }
}

/// The deterministic-cache leaf: records from position 4 up to a record
/// with a null cache type, which is consumed but not kept.
#[verifier::opaque]
pub open spec fn dec_leaf4(s: Seq<RawEntry>) -> Result<(Seq<RegLeaf>, int), DecodeError> {
    match first_null_cache(s, 4) {
        None => Err(DecodeError::MalformedInput { leaf: 4 }),
        Some(t) => Ok((seq_leaves(s, 4, t - 4), t + 1)),
    }
}

/// The structured-extended-features leaf: sub-leaf 0, then sub-leaf 1 when
/// sub-leaf 0's EAX announces it; a count above one is not implemented.
#[verifier::opaque]
pub open spec fn dec_leaf7(s: Seq<RawEntry>, i: int) -> Result<
    ((RegLeaf, Option<RegLeaf>), int),
    DecodeError,
> {
    match dec_checked(s, i, 7) {
        Err(e) => Err(e),
        Ok(sub0) => if sub0.eax > 1 {
            Err(DecodeError::UnsupportedLeaf { leaf: 7 })
        } else {
            match dec_opt(s, i + 1, sub0.eax == 1, 7) {
                Err(e) => Err(e),
                Ok((sub1, next)) => Ok(((sub0, sub1), next)),
            }
        },
    }
}

/// The extended-topology leaf: records up to and including the first with
/// a null level type; every record after the first must answer leaf 0xB.
#[verifier::opaque]
pub open spec fn dec_leafb(s: Seq<RawEntry>, i: int) -> Result<(Seq<RegLeaf>, int), DecodeError>
    recommends
        0 <= i,
{
    match first_null_level(s, i) {
        None => Err(DecodeError::MalformedInput { leaf: 0xB }),
        Some(t) => if forall|m: int| i < m <= t ==> (#[trigger] s[m]).function == 0xB {
            Ok((seq_leaves(s, i, t + 1 - i), t + 1))
        } else {
            Err(DecodeError::MalformedInput { leaf: 0xB })
        },
    }
}

/// The extended-state leaf: sub-leaves 0 and 1, then every following
/// record that still answers leaf 0xD.
#[verifier::opaque]
pub open spec fn dec_leafd(s: Seq<RawEntry>, i: int) -> Result<
    ((RegLeaf, RegLeaf, Seq<RegLeaf>), int),
    DecodeError,
>
    recommends
        0 <= i,
{
    match dec_fixed(s, i, 0xD) {
        Err(e) => Err(e),
        Ok(sub0) => match dec_fixed(s, i + 1, 0xD) {
            Err(e) => Err(e),
            Ok(sub1) => {
                let n = run_of_function(s, i + 2, 0xD);
                Ok(((sub0, sub1, seq_leaves(s, i + 2, n)), i + 2 + n))
            },
        },
    }
}

/// Whether the RDT-monitoring root announces its L3 sub-leaf: EDX bit 1.
pub open spec fn leaff_sub1_announced(sub0: RegLeaf) -> bool {
    (sub0.edx >> 1) & 1 == 1
}

/// The RDT-monitoring leaf: sub-leaf 0, then sub-leaf 1 when announced.
#[verifier::opaque]
pub open spec fn dec_leaff(s: Seq<RawEntry>, i: int) -> Result<
    ((RegLeaf, Option<RegLeaf>), int),
    DecodeError,
> {
    match dec_checked(s, i, 0xF) {
        Err(e) => Err(e),
        Ok(sub0) => match dec_opt(s, i + 1, leaff_sub1_announced(sub0), 0xF) {
            Err(e) => Err(e),
            Ok((sub1, next)) => Ok(((sub0, sub1), next)),
        },
    }
}

/// Whether the RDT-allocation root announces the sub-leaf behind EBX bit
/// `b`.
pub open spec fn leaf10_announced(sub0: RegLeaf, b: u32) -> bool {
    (sub0.ebx >> b) & 1 == 1
}

/// The RDT-allocation leaf: sub-leaf 0, then sub-leaves 1, 2 and 3, each
/// exactly when sub-leaf 0's EBX announces it.
#[verifier::opaque]
pub open spec fn dec_leaf10(s: Seq<RawEntry>, i: int) -> Result<
    ((RegLeaf, Option<RegLeaf>, Option<RegLeaf>, Option<RegLeaf>), int),
    DecodeError,
> {
    match dec_checked(s, i, 0x10) {
        Err(e) => Err(e),
        Ok(sub0) => match dec_opt(s, i + 1, leaf10_announced(sub0, 1), 0x10) {
            Err(e) => Err(e),
            Ok((sub1, o1)) => match dec_opt(s, o1, leaf10_announced(sub0, 2), 0x10) {
                Err(e) => Err(e),
                Ok((sub2, o2)) => match dec_opt(s, o2, leaf10_announced(sub0, 3), 0x10) {
                    Err(e) => Err(e),
                    Ok((sub3, o3)) => Ok(((sub0, sub1, sub2, sub3), o3)),
                },
            },
        },
    }
}

/// Whether the structured-extended-features leaf announces SGX: sub-leaf
/// 0's EBX bit 2. SGX sub-leaf counting is not implemented.
pub open spec fn sgx_announced(leaf7_sub0: RegLeaf) -> bool {
    (leaf7_sub0.ebx >> 2) & 1 == 1
}

/// The SGX-capability leaf: sub-leaf 0 alone; when SGX is announced the
/// number of further sub-leaves is unspecified, so the walk stops loudly.
#[verifier::opaque]
pub open spec fn dec_leaf12(s: Seq<RawEntry>, i: int, sgx: bool) -> Result<
    ((RegLeaf, Option<RegLeaf>, Seq<RegLeaf>), int),
    DecodeError,
> {
    match dec_checked(s, i, 0x12) {
        Err(e) => Err(e),
        Ok(sub0) => if sgx {
            Err(DecodeError::UnsupportedLeaf { leaf: 0x12 })
        } else {
            Ok(((sub0, None, Seq::empty()), i + 1))
        },
    }
}

/// The processor-trace leaf: sub-leaf 0, then sub-leaf 1 when sub-leaf 0's
/// EAX announces it; a count above one is not implemented.
#[verifier::opaque]
pub open spec fn dec_leaf14(s: Seq<RawEntry>, i: int) -> Result<
    ((RegLeaf, Option<RegLeaf>), int),
    DecodeError,
> {
    match dec_checked(s, i, 0x14) {
        Err(e) => Err(e),
        Ok(sub0) => if sub0.eax > 1 {
            Err(DecodeError::UnsupportedLeaf { leaf: 0x14 })
        } else {
            match dec_opt(s, i + 1, sub0.eax == 1, 0x14) {
                Err(e) => Err(e),
                Ok((sub1, next)) => Ok(((sub0, sub1), next)),
            }
        },
    }
}

/// The leaves whose sub-leaf counting or termination rule the catalog
/// leaves open; a record answering one of them stops the walk loudly.
pub open spec fn unsupported_leaf_number(f: u32) -> bool {
    f == 0x17 || f == 0x18 || f == 0x19 || f == 0x1A || f == 0x1B || f == 0x1C || f == 0x1F || f
        == 0x20
}

/// The unsupported leaf found at position `i`, if any.
#[verifier::opaque]
pub open spec fn probe_unsupported(s: Seq<RawEntry>, i: int) -> Option<u32> {
    if 0 <= i < s.len() && unsupported_leaf_number(s[i].function) {
        Some(s[i].function)
    } else {
        None
    }
}

/// What decoding a record sequence yields: the model and the count of
/// records the walk consumed, or the error on which the walk stopped.
///
/// Identical sequences always yield identical outcomes: the walk is a pure
/// function, which is the decoder's determinism.
pub open spec fn decode_spec(s: Seq<RawEntry>) -> Result<(CpuidView, int), DecodeError> {
    if s.len() > usize::MAX - 64 {
        Err(DecodeError::MalformedInput { leaf: 0 })
    } else {
        match dec_fixed(s, 0, 0) {
            Err(e) => Err(e),
            Ok(l0) => match dec_fixed(s, 1, 1) {
                Err(e) => Err(e),
                Ok(l1) => match dec_fixed(s, 2, 2) {
                    Err(e) => Err(e),
                    Ok(l2) => match dec_leaf4(s) {
                        Err(e) => Err(e),
                        Ok((l4, a4)) => match dec_fixed(s, a4, 5) {
                            Err(e) => Err(e),
                            Ok(l5) => match dec_fixed(s, a4 + 1, 6) {
                                Err(e) => Err(e),
                                Ok(l6) => match dec_leaf7(s, a4 + 2) {
                                    Err(e) => Err(e),
                                    Ok((l7, a7)) => match dec_fixed(s, a7 + 1, 9) {
                                        Err(e) => Err(e),
                                        Ok(l9) => match dec_fixed(s, a7 + 2, 0xA) {
                                            Err(e) => Err(e),
                                            Ok(la) => match dec_leafb(s, a7 + 3) {
                                                Err(e) => Err(e),
                                                Ok((lb, ab)) => match dec_leafd(s, ab + 1) {
                                                    Err(e) => Err(e),
                                                    Ok((ld, ad)) => match dec_leaff(s, ad + 1) {
                                                        Err(e) => Err(e),
                                                        Ok((lf, af)) => match dec_leaf10(s, af) {
                                                            Err(e) => Err(e),
                                                            Ok((l10, a10)) => match dec_leaf12(
                                                                s,
                                                                a10 + 1,
                                                                sgx_announced(l7.0),
                                                            ) {
                                                                Err(e) => Err(e),
                                                                Ok((l12, a12)) => match dec_leaf14(
                                                                    s,
                                                                    a12 + 1,
                                                                ) {
                                                                    Err(e) => Err(e),
                                                                    Ok((l14, a14)) => match dec_checked(
                                                                        s,
                                                                        a14,
                                                                        0x15,
                                                                    ) {
                                                                        Err(e) => Err(e),
                                                                        Ok(l15) => match dec_checked(
                                                                            s,
                                                                            a14 + 1,
                                                                            0x16,
                                                                        ) {
                                                                            Err(e) => Err(e),
                                                                            Ok(l16) => match probe_unsupported(
                                                                                s,
                                                                                a14 + 2,
                                                                            ) {
                                                                                Some(f) => Err(
                                                                                    DecodeError::UnsupportedLeaf {
                                                                                        leaf: f,
                                                                                    },
                                                                                ),
                                                                                None => match dec_ext(
                                                                                    s,
                                                                                    a14 + 2,
                                                                                ) {
                                                                                    Err(e) => Err(e),
                                                                                    Ok((ext, end)) => Ok(
                                                                                        (
                                                                                            CpuidView {
                                                                                                leaf_0: l0,
                                                                                                leaf_1: l1,
                                                                                                leaf_2: l2,
                                                                                                leaf_4: l4,
                                                                                                leaf_5: l5,
                                                                                                leaf_6: l6,
                                                                                                leaf_7: l7,
                                                                                                leaf_9: l9,
                                                                                                leaf_a: la,
                                                                                                leaf_b: lb,
                                                                                                leaf_d: ld,
                                                                                                leaf_f: lf,
                                                                                                leaf_10: l10,
                                                                                                leaf_12: l12,
                                                                                                leaf_14: l14,
                                                                                                leaf_15: l15,
                                                                                                leaf_16: l16,
                                                                                                leaf_80000000: ext.0,
                                                                                                leaf_80000001: ext.1,
                                                                                                leaf_80000002: ext.2,
                                                                                                leaf_80000003: ext.3,
                                                                                                leaf_80000004: ext.4,
                                                                                                leaf_80000005: ext.5,
                                                                                                leaf_80000006: ext.6,
                                                                                                leaf_80000007: ext.7,
                                                                                                leaf_80000008: ext.8,
                                                                                            },
                                                                                            end,
                                                                                        ),
                                                                                    ),
                                                                                },
                                                                            },
                                                                        },
                                                                    },
                                                                },
                                                            },
                                                        },
                                                    },
                                                },
                                            },
                                        },
                                    },
                                },
                            },
                        },
                    },
                },
            },
        }
    }
}

/// The nine leaves a decodable sequence ends with: one record per extended
/// leaf, each consumed with a consistency check.
#[verifier::opaque]
pub open spec fn dec_ext(s: Seq<RawEntry>, i: int) -> Result<
    ((RegLeaf, RegLeaf, RegLeaf, RegLeaf, RegLeaf, RegLeaf, RegLeaf, RegLeaf, RegLeaf), int),
    DecodeError,
> {
    match dec_checked(s, i, 0x80000000) {
        Err(e) => Err(e),
        Ok(e0) => match dec_checked(s, i + 1, 0x80000001) {
            Err(e) => Err(e),
            Ok(e1) => match dec_checked(s, i + 2, 0x80000002) {
                Err(e) => Err(e),
                Ok(e2) => match dec_checked(s, i + 3, 0x80000003) {
                    Err(e) => Err(e),
                    Ok(e3) => match dec_checked(s, i + 4, 0x80000004) {
                        Err(e) => Err(e),
                        Ok(e4) => match dec_checked(s, i + 5, 0x80000005) {
                            Err(e) => Err(e),
                            Ok(e5) => match dec_checked(s, i + 6, 0x80000006) {
                                Err(e) => Err(e),
                                Ok(e6) => match dec_checked(s, i + 7, 0x80000007) {
                                    Err(e) => Err(e),
                                    Ok(e7) => match dec_checked(s, i + 8, 0x80000008) {
                                        Err(e) => Err(e),
                                        Ok(e8) => Ok(((e0, e1, e2, e3, e4, e5, e6, e7, e8), i + 9)),
                                    },
                                },
                            },
                        },
                    },
                },
            },
        },
    }
}

} // verus!

verus! {

/// A found null-level position lies between the scan start and the end of
/// the sequence.
proof fn lemma_first_null_level_bounds(s: Seq<RawEntry>, i: int)
    requires
        0 <= i,
    ensures
        first_null_level(s, i) matches Some(t) ==> i <= t < s.len(),
    decreases s.len() - i,
{
    reveal(first_null_level);
    if i < s.len() && level_type(s[i]) != 0 {
        lemma_first_null_level_bounds(s, i + 1);
    }
}

/// Consumes the record at `i` with no consistency check.
fn take_fixed(raw: &RawCpuid, i: usize, id: u32) -> (r: Result<RegLeaf, DecodeError>)
    ensures
        r == dec_fixed(raw@, i as int, id),
        r is Ok ==> i < raw@.len(),
{
    if i < raw.len() {
        Ok(read_leaf(raw.entry(i)))
    } else {
        Err(DecodeError::MalformedInput { leaf: id })
    }
}

/// Consumes the record at `i`, checking that it answers `(f, 0)`.
fn take_checked(raw: &RawCpuid, i: usize, f: u32) -> (r: Result<RegLeaf, DecodeError>)
    ensures
        r == dec_checked(raw@, i as int, f),
        r is Ok ==> i < raw@.len(),
{
    if i < raw.len() {
        let e = raw.entry(i);
        if e.function == f && e.index == 0 {
            return Ok(read_leaf(e));
        }
    }
    Err(DecodeError::MalformedInput { leaf: f })
}

/// Consumes the record at `i` exactly when `announced` holds.
fn take_opt(raw: &RawCpuid, i: usize, announced: bool, id: u32) -> (r: Result<
    (Option<RegLeaf>, usize),
    DecodeError,
>)
    requires
        i < usize::MAX,
    ensures
        match (r, dec_opt(raw@, i as int, announced, id)) {
            (Ok((l, c)), Ok((ls, cs))) => l == ls && c == cs && c <= i + 1 && (announced ==> c
                <= raw@.len()),
            (Err(e), Err(es)) => e == es,
            _ => false,
        },
{
    if announced {
        match take_fixed(raw, i, id) {
            Err(e) => Err(e),
            Ok(l) => Ok((Some(l), i + 1)),
        }
    } else {
        Ok((None, i))
    }
}

/// Walks the deterministic-cache records from position 4 until the record
/// with a null cache type, which is consumed but not kept.
#[verifier::loop_isolation(false)]
fn scan_leaf4(raw: &RawCpuid) -> (r: Result<(Vec<RegLeaf>, usize), DecodeError>)
    requires
        raw@.len() <= usize::MAX - 64,
    ensures
        match (r, dec_leaf4(raw@)) {
            (Ok((v, c)), Ok((vs, cs))) => v@ == vs && c == cs && c <= raw@.len(),
            (Err(e), Err(es)) => e == es,
            _ => false,
        },
{
    proof {
        reveal(dec_leaf4);
        reveal(first_null_cache);
        reveal(seq_leaves);
    }
    let len = raw.len();
    let mut v: Vec<RegLeaf> = Vec::new();
    let mut cur: usize = 4;
    loop
        invariant
            4 <= cur,
            cur <= len || cur == 4,
            v@ =~= seq_leaves(raw@, 4, cur - 4),
            first_null_cache(raw@, 4) == first_null_cache(raw@, cur as int),
        decreases len - cur,
    {
        if cur >= len {
            return Err(DecodeError::MalformedInput { leaf: 4 });
        }
        let e = raw.entry(cur);
        if e.eax & 0x1f == 0 {
            return Ok((v, cur + 1));
        }
        v.push(read_leaf(e));
        proof {
            assert(v@ =~= seq_leaves(raw@, 4, cur + 1 - 4));
        }
        cur = cur + 1;
    }
}

/// Consumes sub-leaf 0 of the structured-extended-features leaf and, when
/// its EAX announces one, sub-leaf 1.
fn take_leaf7(raw: &RawCpuid, i: usize) -> (r: Result<
    ((RegLeaf, Option<RegLeaf>), usize),
    DecodeError,
>)
    requires
        i <= usize::MAX - 32,
    ensures
        match (r, dec_leaf7(raw@, i as int)) {
            (Ok((l, c)), Ok((ls, cs))) => l == ls && c == cs && c <= raw@.len(),
            (Err(e), Err(es)) => e == es,
            _ => false,
        },
{
    proof {
        reveal(dec_leaf7);
    }
    let sub0 = match take_checked(raw, i, 7) {
        Ok(l) => l,
        Err(e) => {
            return Err(e);
        },
    };
    if sub0.eax > 1 {
        return Err(DecodeError::UnsupportedLeaf { leaf: 7 });
    }
    match take_opt(raw, i + 1, sub0.eax == 1, 7) {
        Err(e) => Err(e),
        Ok((sub1, c)) => Ok(((sub0, sub1), c)),
    }
}

/// Walks the topology records from `i` up to and including the record with
/// a null level type, checking that every record after the first answers
/// leaf 0xB.
#[verifier::loop_isolation(false)]
fn scan_leafb(raw: &RawCpuid, i: usize) -> (r: Result<(Vec<RegLeaf>, usize), DecodeError>)
    requires
        raw@.len() <= usize::MAX - 64,
    ensures
        match (r, dec_leafb(raw@, i as int)) {
            (Ok((v, c)), Ok((vs, cs))) => v@ == vs && c == cs && c <= raw@.len(),
            (Err(e), Err(es)) => e == es,
            _ => false,
        },
{
    proof {
        reveal(dec_leafb);
        reveal(first_null_level);
        reveal(seq_leaves);
    }
    let len = raw.len();
    if i >= len {
        return Err(DecodeError::MalformedInput { leaf: 0xB });
    }
    let mut v: Vec<RegLeaf> = Vec::new();
    v.push(read_leaf(raw.entry(i)));
    let mut cur: usize = i;
    loop
        invariant
            i <= cur < len,
            v@ =~= seq_leaves(raw@, i as int, cur + 1 - i),
            first_null_level(raw@, i as int) == first_null_level(raw@, cur as int),
            forall|m: int| i < m <= cur ==> (#[trigger] raw@[m]).function == 0xB,
        decreases len - cur,
    {
        let e = raw.entry(cur);
        if (e.ecx >> 8) & 0xff == 0 {
            return Ok((v, cur + 1));
        }
        if cur + 1 >= len {
            proof {
                assert(first_null_level(raw@, cur as int) == first_null_level(raw@, cur + 1));
                assert(first_null_level(raw@, cur + 1) is None);
            }
            return Err(DecodeError::MalformedInput { leaf: 0xB });
        }
        let e2 = raw.entry(cur + 1);
        if e2.function != 0xB {
            proof {
                assert(first_null_level(raw@, cur as int) == first_null_level(raw@, cur + 1));
                lemma_first_null_level_bounds(raw@, cur + 1);
            }
            return Err(DecodeError::MalformedInput { leaf: 0xB });
        }
        v.push(read_leaf(e2));
        proof {
            assert(v@ =~= seq_leaves(raw@, i as int, cur + 2 - i));
        }
        cur = cur + 1;
    }
}

/// Consumes sub-leaves 0 and 1 of the extended-state leaf, then every
/// following record that still answers it.
#[verifier::loop_isolation(false)]
fn take_leafd(raw: &RawCpuid, i: usize) -> (r: Result<
    ((RegLeaf, RegLeaf, Vec<RegLeaf>), usize),
    DecodeError,
>)
    requires
        i <= usize::MAX - 32,
        raw@.len() <= usize::MAX - 64,
    ensures
        match (r, dec_leafd(raw@, i as int)) {
            (Ok((l, c)), Ok((ls, cs))) => l.0 == ls.0 && l.1 == ls.1 && l.2@ == ls.2 && c == cs
                && c <= raw@.len(),
            (Err(e), Err(es)) => e == es,
            _ => false,
        },
{
    proof {
        reveal(dec_leafd);
        reveal(run_of_function);
        reveal(seq_leaves);
    }
    let sub0 = match take_fixed(raw, i, 0xD) {
        Ok(l) => l,
        Err(e) => {
            return Err(e);
        },
    };
    let sub1 = match take_fixed(raw, i + 1, 0xD) {
        Ok(l) => l,
        Err(e) => {
            return Err(e);
        },
    };
    let len = raw.len();
    let mut v: Vec<RegLeaf> = Vec::new();
    let mut cur: usize = i + 2;
    loop
        invariant
            i + 2 <= cur <= len,
            v@ =~= seq_leaves(raw@, i + 2, cur - (i + 2)),
            run_of_function(raw@, i + 2, 0xD) == cur - (i + 2) + run_of_function(
                raw@,
                cur as int,
                0xD,
            ),
        decreases len - cur,
    {
        if cur >= len || raw.entry(cur).function != 0xD {
            proof {
                assert(run_of_function(raw@, cur as int, 0xD) == 0);
            }
            return Ok(((sub0, sub1, v), cur));
        }
        v.push(read_leaf(raw.entry(cur)));
        proof {
            assert(v@ =~= seq_leaves(raw@, i + 2, cur + 1 - (i + 2)));
        }
        cur = cur + 1;
    }
}

/// Consumes sub-leaf 0 of the RDT-monitoring leaf and, when its EDX
/// announces one, sub-leaf 1.
fn take_leaff(raw: &RawCpuid, i: usize) -> (r: Result<
    ((RegLeaf, Option<RegLeaf>), usize),
    DecodeError,
>)
    requires
        i <= usize::MAX - 32,
    ensures
        match (r, dec_leaff(raw@, i as int)) {
            (Ok((l, c)), Ok((ls, cs))) => l == ls && c == cs && c <= raw@.len(),
            (Err(e), Err(es)) => e == es,
            _ => false,
        },
{
    proof {
        reveal(dec_leaff);
    }
    let sub0 = match take_checked(raw, i, 0xF) {
        Ok(l) => l,
        Err(e) => {
            return Err(e);
        },
    };
    match take_opt(raw, i + 1, (sub0.edx >> 1) & 1 == 1, 0xF) {
        Err(e) => Err(e),
        Ok((sub1, c)) => Ok(((sub0, sub1), c)),
    }
}

/// Consumes sub-leaf 0 of the RDT-allocation leaf and each of sub-leaves
/// 1, 2 and 3 that its EBX announces.
fn take_leaf10(raw: &RawCpuid, i: usize) -> (r: Result<
    ((RegLeaf, Option<RegLeaf>, Option<RegLeaf>, Option<RegLeaf>), usize),
    DecodeError,
>)
    requires
        i <= usize::MAX - 32,
    ensures
        match (r, dec_leaf10(raw@, i as int)) {
            (Ok((l, c)), Ok((ls, cs))) => l == ls && c == cs && c <= raw@.len(),
            (Err(e), Err(es)) => e == es,
            _ => false,
        },
{
    proof {
        reveal(dec_leaf10);
    }
    let sub0 = match take_checked(raw, i, 0x10) {
        Ok(l) => l,
        Err(e) => {
            return Err(e);
        },
    };
    let (sub1, o1) = match take_opt(raw, i + 1, (sub0.ebx >> 1) & 1 == 1, 0x10) {
        Ok(x) => x,
        Err(e) => {
            return Err(e);
        },
    };
    let (sub2, o2) = match take_opt(raw, o1, (sub0.ebx >> 2) & 1 == 1, 0x10) {
        Ok(x) => x,
        Err(e) => {
            return Err(e);
        },
    };
    match take_opt(raw, o2, (sub0.ebx >> 3) & 1 == 1, 0x10) {
        Err(e) => Err(e),
        Ok((sub3, c)) => Ok(((sub0, sub1, sub2, sub3), c)),
    }
}

/// Consumes sub-leaf 0 of the SGX-capability leaf; when the features leaf
/// announced SGX the remaining sub-leaf count is unspecified, so the walk
/// stops loudly.
fn take_leaf12(raw: &RawCpuid, i: usize, sgx: bool) -> (r: Result<
    ((RegLeaf, Option<RegLeaf>, Vec<RegLeaf>), usize),
    DecodeError,
>)
    requires
        i <= usize::MAX - 32,
    ensures
        match (r, dec_leaf12(raw@, i as int, sgx)) {
            (Ok((l, c)), Ok((ls, cs))) => l.0 == ls.0 && l.1 == ls.1 && l.2@ == ls.2 && c == cs
                && c <= raw@.len(),
            (Err(e), Err(es)) => e == es,
            _ => false,
        },
{
    proof {
        reveal(dec_leaf12);
    }
    let sub0 = match take_checked(raw, i, 0x12) {
        Ok(l) => l,
        Err(e) => {
            return Err(e);
        },
    };
    if sgx {
        return Err(DecodeError::UnsupportedLeaf { leaf: 0x12 });
    }
    let rest: Vec<RegLeaf> = Vec::new();
    proof {
        assert(rest@ =~= Seq::<RegLeaf>::empty());
    }
    Ok(((sub0, None, rest), i + 1))
}

/// Consumes sub-leaf 0 of the processor-trace leaf and, when its EAX
/// announces one, sub-leaf 1.
fn take_leaf14(raw: &RawCpuid, i: usize) -> (r: Result<
    ((RegLeaf, Option<RegLeaf>), usize),
    DecodeError,
>)
    requires
        i <= usize::MAX - 32,
    ensures
        match (r, dec_leaf14(raw@, i as int)) {
            (Ok((l, c)), Ok((ls, cs))) => l == ls && c == cs && c <= raw@.len(),
            (Err(e), Err(es)) => e == es,
            _ => false,
        },
{
    proof {
        reveal(dec_leaf14);
    }
    let sub0 = match take_checked(raw, i, 0x14) {
        Ok(l) => l,
        Err(e) => {
            return Err(e);
        },
    };
    if sub0.eax > 1 {
        return Err(DecodeError::UnsupportedLeaf { leaf: 0x14 });
    }
    match take_opt(raw, i + 1, sub0.eax == 1, 0x14) {
        Err(e) => Err(e),
        Ok((sub1, c)) => Ok(((sub0, sub1), c)),
    }
}

/// Looks, without consuming, for a record of a leaf whose shape is not
/// implemented.
fn probe(raw: &RawCpuid, i: usize) -> (r: Option<u32>)
    ensures
        r == probe_unsupported(raw@, i as int),
{
    proof {
        reveal(probe_unsupported);
    }
    if i < raw.len() {
        let f = raw.entry(i).function;
        if f == 0x17 || f == 0x18 || f == 0x19 || f == 0x1A || f == 0x1B || f == 0x1C || f == 0x1F
            || f == 0x20 {
            return Some(f);
        }
    }
    None
}

/// Consumes the nine extended leaves, each with a consistency check.
fn take_ext(raw: &RawCpuid, i: usize) -> (r: Result<
    ((RegLeaf, RegLeaf, RegLeaf, RegLeaf, RegLeaf, RegLeaf, RegLeaf, RegLeaf, RegLeaf), usize),
    DecodeError,
>)
    requires
        i <= usize::MAX - 32,
    ensures
        match (r, dec_ext(raw@, i as int)) {
            (Ok((l, c)), Ok((ls, cs))) => l == ls && c == cs && c <= raw@.len(),
            (Err(e), Err(es)) => e == es,
            _ => false,
        },
{
    proof {
        reveal(dec_ext);
    }
    let e0 = match take_checked(raw, i, 0x80000000) {
        Ok(l) => l,
        Err(e) => {
            return Err(e);
        },
    };
    let e1 = match take_checked(raw, i + 1, 0x80000001) {
        Ok(l) => l,
        Err(e) => {
            return Err(e);
        },
    };
    let e2 = match take_checked(raw, i + 2, 0x80000002) {
        Ok(l) => l,
        Err(e) => {
            return Err(e);
        },
    };
    let e3 = match take_checked(raw, i + 3, 0x80000003) {
        Ok(l) => l,
        Err(e) => {
            return Err(e);
        },
    };
    let e4 = match take_checked(raw, i + 4, 0x80000004) {
        Ok(l) => l,
        Err(e) => {
            return Err(e);
        },
    };
    let e5 = match take_checked(raw, i + 5, 0x80000005) {
        Ok(l) => l,
        Err(e) => {
            return Err(e);
        },
    };
    let e6 = match take_checked(raw, i + 6, 0x80000006) {
        Ok(l) => l,
        Err(e) => {
            return Err(e);
        },
    };
    let e7 = match take_checked(raw, i + 7, 0x80000007) {
        Ok(l) => l,
        Err(e) => {
            return Err(e);
        },
    };
    let e8 = match take_checked(raw, i + 8, 0x80000008) {
        Ok(l) => l,
        Err(e) => {
            return Err(e);
        },
    };
    Ok(((e0, e1, e2, e3, e4, e5, e6, e7, e8), i + 9))
}

impl IntelCpuid {
    /// Decodes a flat record sequence into the nested model, walking it
    /// with one monotonic cursor in ascending leaf order.
    ///
    /// The outcome is exactly what [`decode_spec`] assigns to the sequence:
    /// the walk is deterministic, consumes the record count the catalog
    /// predicts, and stops loudly on a malformed sequence or an
    /// unimplemented leaf shape.
    #[verifier::rlimit(100)]
    #[verifier::spinoff_prover]
    pub fn decode(raw: &RawCpuid) -> (r: Result<IntelCpuid, DecodeError>)
        ensures
            match (r, decode_spec(raw@)) {
                (Ok(m), Ok((v, consumed))) => m@ == v && 0 <= consumed <= raw@.len(),
                (Err(e), Err(es)) => e == es,
                _ => false,
            },
    {
        if raw.len() > usize::MAX - 64 {
            return Err(DecodeError::MalformedInput { leaf: 0 });
        }
        let l0 = match take_fixed(raw, 0, 0) {
            Ok(l) => l,
            Err(e) => {
                return Err(e);
            },
        };
        let l1 = match take_fixed(raw, 1, 1) {
            Ok(l) => l,
            Err(e) => {
                return Err(e);
            },
        };
        let l2 = match take_fixed(raw, 2, 2) {
            Ok(l) => l,
            Err(e) => {
                return Err(e);
            },
        };
        let (l4, a4) = match scan_leaf4(raw) {
            Ok(x) => x,
            Err(e) => {
                return Err(e);
            },
        };
        let l5 = match take_fixed(raw, a4, 5) {
            Ok(l) => l,
            Err(e) => {
                return Err(e);
            },
        };
        let l6 = match take_fixed(raw, a4 + 1, 6) {
            Ok(l) => l,
            Err(e) => {
                return Err(e);
            },
        };
        let (l7, a7) = match take_leaf7(raw, a4 + 2) {
            Ok(x) => x,
            Err(e) => {
                return Err(e);
            },
        };
        let l9 = match take_fixed(raw, a7 + 1, 9) {
            Ok(l) => l,
            Err(e) => {
                return Err(e);
            },
        };
        let la = match take_fixed(raw, a7 + 2, 0xA) {
            Ok(l) => l,
            Err(e) => {
                return Err(e);
            },
        };
        let (lb, ab) = match scan_leafb(raw, a7 + 3) {
            Ok(x) => x,
            Err(e) => {
                return Err(e);
            },
        };
        let (ld, ad) = match take_leafd(raw, ab + 1) {
            Ok(x) => x,
            Err(e) => {
                return Err(e);
            },
        };
        let (lf, af) = match take_leaff(raw, ad + 1) {
            Ok(x) => x,
            Err(e) => {
                return Err(e);
            },
        };
        let (l10, a10) = match take_leaf10(raw, af) {
            Ok(x) => x,
            Err(e) => {
                return Err(e);
            },
        };
        let (l12, a12) = match take_leaf12(raw, a10 + 1, (l7.0.ebx >> 2) & 1 == 1) {
            Ok(x) => x,
            Err(e) => {
                return Err(e);
            },
        };
        let (l14, a14) = match take_leaf14(raw, a12 + 1) {
            Ok(x) => x,
            Err(e) => {
                return Err(e);
            },
        };
        let l15 = match take_checked(raw, a14, 0x15) {
            Ok(l) => l,
            Err(e) => {
                return Err(e);
            },
        };
        let l16 = match take_checked(raw, a14 + 1, 0x16) {
            Ok(l) => l,
            Err(e) => {
                return Err(e);
            },
        };
        if let Some(f) = probe(raw, a14 + 2) {
            return Err(DecodeError::UnsupportedLeaf { leaf: f });
        }
        let (ext, _end) = match take_ext(raw, a14 + 2) {
            Ok(x) => x,
            Err(e) => {
                return Err(e);
            },
        };
        let tlb = TlbCachePrefetchInfomation::from_words(l2.eax, l2.ebx, l2.ecx, l2.edx);
        Ok(
            IntelCpuid {
                leaf_0: l0,
                leaf_1: l1,
                leaf_2: tlb,
                leaf_4: l4,
                leaf_5: l5,
                leaf_6: l6,
                leaf_7: l7,
                leaf_9: l9,
                leaf_a: la,
                leaf_b: lb,
                leaf_d: ld,
                leaf_f: lf,
                leaf_10: l10,
                leaf_12: l12,
                leaf_14: l14,
                leaf_15: l15,
                leaf_16: l16,
                leaf_80000000: ext.0,
                leaf_80000001: ext.1,
                leaf_80000002: ext.2,
                leaf_80000003: ext.3,
                leaf_80000004: ext.4,
                leaf_80000005: ext.5,
                leaf_80000006: ext.6,
                leaf_80000007: ext.7,
                leaf_80000008: ext.8,
            },
        )
    }
}


/// Decoding is deterministic: two walks over one record sequence yield one
/// and the same outcome, model and consumed count alike.
pub proof fn lemma_decode_deterministic(s1: Seq<RawEntry>, s2: Seq<RawEntry>)
    requires
        s1 == s2,
    ensures
        decode_spec(s1) == decode_spec(s2),
{
}

} // verus!
