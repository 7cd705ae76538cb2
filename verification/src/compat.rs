//! The compatibility checker: does a candidate processor expose everything
//! a required processor model expects?
//!
//! Each supported leaf is compared with the feature-register algebra: flag
//! supersets per register, plus leaf-specific numeric bounds. The verdicts
//! compose leaf by leaf, in ascending leaf order, into the overall verdict;
//! a leaf whose comparison is not modelled yields an explicit
//! `UnsupportedComparison`, never a guessed boolean.

use vstd::prelude::*;

use crate::bitview::low_mask;
use crate::model::IntelCpuid;
use crate::model::RegLeaf;
use crate::register::FeatureRegister;
use crate::register::Field;
use crate::register::FieldKind;
use crate::register::add_flag;
use crate::register::flag_missing;
use crate::register::schema_wf;
use crate::register::superset_spec;

verus! {

/// The three-way outcome of a comparison: never a bare boolean, so a
/// caller can see exactly which leaf and flag blocked compatibility.
#[derive(Debug, Clone, PartialEq, Eq)]
pub enum Verdict {
    /// The candidate satisfies everything the required model exposes.
    Compatible,
    /// The candidate misses something; `reason` names the blocking flag or
    /// bound.
    Incompatible {
        /// The leaf on which the comparison failed.
        leaf: u32,
        /// The flag or bound that blocked compatibility.
        reason: String,
    },
    /// The comparison of this leaf is not modelled.
    UnsupportedComparison {
        /// The leaf whose comparison is not modelled.
        leaf: u32,
    },
}

/// Whether bit `i` of the 32-bit register value `x` is set.
pub open spec fn bit32(x: u32, i: u8) -> bool {
    i < 32 && (x >> i) & 1 == 1
}

/// Every flag of `bits` that is set in the required value `r` is set in
/// the candidate value `c` too.
pub open spec fn flags_superset(c: u32, r: u32, bits: Seq<u8>) -> bool {
    forall|k: int| 0 <= k < bits.len() ==> !(bit32(r, #[trigger] bits[k]) && !bit32(c, bits[k]))
}

/// A 32-bit register value widened into a 128-bit backing value keeps each
/// of its bits in place.
proof fn lemma_bit_lift(x: u32, i: u8)
    by (bit_vector)
    requires
        i < 32,
    ensures
        (((x as u128) >> i) & 1 == 1) == ((x >> i) & 1 == 1),
{
}

/// The mask of a 32-bit register's width.
proof fn lemma_low_mask_32()
    by (bit_vector)
    ensures
        low_mask(32) == 0xffff_ffffu128,
{
}

/// The feature-register superset over a flags-only schema says the same
/// thing as the bit-position superset over the schema's flag positions.
proof fn lemma_flags_bridge(
    a: FeatureRegister,
    b: FeatureRegister,
    cval: u32,
    rval: u32,
    bits: Seq<u8>,
)
    requires
        a.wf(),
        a.width == 32,
        a.fields@.len() == bits.len(),
        forall|k: int|
            0 <= k < bits.len() ==> (#[trigger] a.fields@[k]).kind == FieldKind::Flag
                && a.fields@[k].start == bits[k],
        a.value == cval as u128,
        b.value == rval as u128,
    ensures
        superset_spec(a, b) == flags_superset(cval, rval, bits),
{
    if superset_spec(a, b) {
        assert forall|k: int|
            0 <= k < bits.len() implies !(bit32(rval, #[trigger] bits[k]) && !bit32(
            cval,
            bits[k],
        )) by {
            assert(!flag_missing(a, b, k));
            assert(a.fields@[k].wf(32));
            lemma_bit_lift(cval, bits[k]);
            lemma_bit_lift(rval, bits[k]);
        }
    }
    if flags_superset(cval, rval, bits) {
        assert forall|k: int| !flag_missing(a, b, k) by {
            if 0 <= k < a.fields@.len() && a.fields@[k].kind == FieldKind::Flag {
                assert(a.fields@[k].wf(32));
                assert(!(bit32(rval, bits[k]) && !bit32(cval, bits[k])));
                lemma_bit_lift(cval, bits[k]);
                lemma_bit_lift(rval, bits[k]);
            }
        }
    }
}

/// Compares one register pair over a flags-only schema; hands back the
/// name of the first flag the candidate misses, if any.
fn flags_missing_name(cval: u32, rval: u32, schema: Vec<Field>, bits: Ghost<Seq<u8>>) -> (r:
    Option<String>)
    requires
        schema_wf(schema@, 32),
        schema@.len() == bits@.len(),
        forall|k: int|
            0 <= k < bits@.len() ==> (#[trigger] schema@[k]).kind == FieldKind::Flag
                && schema@[k].start == bits@[k],
    ensures
        r is None <==> flags_superset(cval, rval, bits@),
        match r {
            Some(name) => exists|k: int|
                {
                    &&& 0 <= k < bits@.len()
                    &&& bit32(rval, #[trigger] bits@[k])
                    &&& !bit32(cval, bits@[k])
                    &&& name@ == schema@[k].name@
                },
            None => true,
        },
{
    proof {
        lemma_low_mask_32();
    }
    let creg = FeatureRegister { width: 32, value: cval as u128, fields: schema };
    let cfields = creg.clone_fields();
    let rreg = FeatureRegister { width: 32, value: rval as u128, fields: cfields };
    proof {
        lemma_flags_bridge(creg, rreg, cval, rval, bits@);
    }
    match creg.superset_missing(&rreg) {
        None => None,
        Some(k) => {
            proof {
                assert(flag_missing(creg, rreg, k as int));
                assert(creg.fields@[k as int].wf(32));
                lemma_bit_lift(cval, bits@[k as int]);
                lemma_bit_lift(rval, bits@[k as int]);
            }
            Some(creg.fields[k].name.clone())
        },
    }
}

} // verus!
verus! {

/// The flag bit positions of the basic-features ECX register, in schema order.
pub open spec fn leaf1_ecx_bits() -> Seq<u8> {
    seq![0u8, 1, 2, 3, 4, 5, 6, 7, 8, 9, 10, 11, 12, 13, 14, 15, 17, 18, 19, 20, 21, 22, 23, 24, 25, 26, 27, 28, 29, 30]
}

/// The flag schema of the basic-features ECX register.
fn leaf1_ecx_schema() -> (r: Vec<Field>)
    ensures
        schema_wf(r@, 32),
        r@.len() == leaf1_ecx_bits().len(),
        forall|k: int|
            0 <= k < r@.len() ==> (#[trigger] r@[k]).kind == FieldKind::Flag && r@[k].start
                == leaf1_ecx_bits()[k],
{
    let mut f: Vec<Field> = Vec::new();
    add_flag(&mut f, "sse3", 0, 32);
    add_flag(&mut f, "pclmulqdq", 1, 32);
    add_flag(&mut f, "dtes64", 2, 32);
    add_flag(&mut f, "monitor", 3, 32);
    add_flag(&mut f, "ds_cpl", 4, 32);
    add_flag(&mut f, "vmx", 5, 32);
    add_flag(&mut f, "smx", 6, 32);
    add_flag(&mut f, "eist", 7, 32);
    add_flag(&mut f, "tm2", 8, 32);
    add_flag(&mut f, "ssse3", 9, 32);
    add_flag(&mut f, "cnxt_id", 10, 32);
    add_flag(&mut f, "sdbg", 11, 32);
    add_flag(&mut f, "fma", 12, 32);
    add_flag(&mut f, "cmpxchg16b", 13, 32);
    add_flag(&mut f, "xtpr_update_control", 14, 32);
    add_flag(&mut f, "pdcm", 15, 32);
    add_flag(&mut f, "pcid", 17, 32);
    add_flag(&mut f, "dca", 18, 32);
    add_flag(&mut f, "sse4_1", 19, 32);
    add_flag(&mut f, "sse4_2", 20, 32);
    add_flag(&mut f, "x2apic", 21, 32);
    add_flag(&mut f, "movbe", 22, 32);
    add_flag(&mut f, "popcnt", 23, 32);
    add_flag(&mut f, "tsc_deadline", 24, 32);
    add_flag(&mut f, "aesni", 25, 32);
    add_flag(&mut f, "xsave", 26, 32);
    add_flag(&mut f, "osxsave", 27, 32);
    add_flag(&mut f, "avx", 28, 32);
    add_flag(&mut f, "f16c", 29, 32);
    add_flag(&mut f, "rdrand", 30, 32);
    f
}

/// The flag bit positions of the basic-features EDX register, in schema order.
pub open spec fn leaf1_edx_bits() -> Seq<u8> {
    seq![0u8, 1, 2, 3, 4, 5, 6, 7, 8, 9, 11, 12, 13, 14, 15, 16, 17, 18, 19, 21, 22, 23, 24, 25, 26, 27, 28, 29, 31]
}

/// The flag schema of the basic-features EDX register.
fn leaf1_edx_schema() -> (r: Vec<Field>)
    ensures
        schema_wf(r@, 32),
        r@.len() == leaf1_edx_bits().len(),
        forall|k: int|
            0 <= k < r@.len() ==> (#[trigger] r@[k]).kind == FieldKind::Flag && r@[k].start
                == leaf1_edx_bits()[k],
{
    let mut f: Vec<Field> = Vec::new();
    add_flag(&mut f, "fpu", 0, 32);
    add_flag(&mut f, "vme", 1, 32);
    add_flag(&mut f, "de", 2, 32);
    add_flag(&mut f, "pse", 3, 32);
    add_flag(&mut f, "tsc", 4, 32);
    add_flag(&mut f, "msr", 5, 32);
    add_flag(&mut f, "pae", 6, 32);
    add_flag(&mut f, "mce", 7, 32);
    add_flag(&mut f, "cx8", 8, 32);
    add_flag(&mut f, "apic", 9, 32);
    add_flag(&mut f, "sep", 11, 32);
    add_flag(&mut f, "mtrr", 12, 32);
    add_flag(&mut f, "pge", 13, 32);
    add_flag(&mut f, "mca", 14, 32);
    add_flag(&mut f, "cmov", 15, 32);
    add_flag(&mut f, "pat", 16, 32);
    add_flag(&mut f, "pse3_36", 17, 32);
    add_flag(&mut f, "psn", 18, 32);
    add_flag(&mut f, "clfsh", 19, 32);
    add_flag(&mut f, "ds", 21, 32);
    add_flag(&mut f, "acpi", 22, 32);
    add_flag(&mut f, "mmx", 23, 32);
    add_flag(&mut f, "fxsr", 24, 32);
    add_flag(&mut f, "sse", 25, 32);
    add_flag(&mut f, "sse2", 26, 32);
    add_flag(&mut f, "ss", 27, 32);
    add_flag(&mut f, "htt", 28, 32);
    add_flag(&mut f, "tm", 29, 32);
    add_flag(&mut f, "pbe", 31, 32);
    f
}

/// The flag bit positions of the MONITOR/MWAIT extensions register, in schema order.
pub open spec fn leaf5_ecx_bits() -> Seq<u8> {
    seq![0u8, 1]
}

/// The flag schema of the MONITOR/MWAIT extensions register.
fn leaf5_ecx_schema() -> (r: Vec<Field>)
    ensures
        schema_wf(r@, 32),
        r@.len() == leaf5_ecx_bits().len(),
        forall|k: int|
            0 <= k < r@.len() ==> (#[trigger] r@[k]).kind == FieldKind::Flag && r@[k].start
                == leaf5_ecx_bits()[k],
{
    let mut f: Vec<Field> = Vec::new();
    add_flag(&mut f, "enum_monitor_mwait_ext", 0, 32);
    add_flag(&mut f, "support_treating_interrupts_as_break_events_for_mwait", 1, 32);
    f
}

/// The flag bit positions of the thermal and power management feature register, in schema order.
pub open spec fn leaf6_eax_bits() -> Seq<u8> {
    seq![0u8, 1, 2, 4, 5, 6, 7, 8, 9, 10, 11, 13, 14, 15, 16, 17, 18, 19, 20, 23]
}

/// The flag schema of the thermal and power management feature register.
fn leaf6_eax_schema() -> (r: Vec<Field>)
    ensures
        schema_wf(r@, 32),
        r@.len() == leaf6_eax_bits().len(),
        forall|k: int|
            0 <= k < r@.len() ==> (#[trigger] r@[k]).kind == FieldKind::Flag && r@[k].start
                == leaf6_eax_bits()[k],
{
    let mut f: Vec<Field> = Vec::new();
    add_flag(&mut f, "digital_temperature_sensor", 0, 32);
    add_flag(&mut f, "intel_turbo_boost_technology", 1, 32);
    add_flag(&mut f, "arat", 2, 32);
    add_flag(&mut f, "pln", 4, 32);
    add_flag(&mut f, "ecmd", 5, 32);
    add_flag(&mut f, "ptm", 6, 32);
    add_flag(&mut f, "hwp", 7, 32);
    add_flag(&mut f, "hwp_notification", 8, 32);
    add_flag(&mut f, "hwp_activity_window", 9, 32);
    add_flag(&mut f, "hwp_energy_performance", 10, 32);
    add_flag(&mut f, "hwp_package_level_request", 11, 32);
    add_flag(&mut f, "hdc", 13, 32);
    add_flag(&mut f, "intel_turbo_boost_max_technology_3", 14, 32);
    add_flag(&mut f, "hwp_capabilities", 15, 32);
    add_flag(&mut f, "hwp_peci_override", 16, 32);
    add_flag(&mut f, "flexible_hwp", 17, 32);
    add_flag(&mut f, "fast_access_mode_for_i32_hwp_request_msr", 18, 32);
    add_flag(&mut f, "hw_feedback", 19, 32);
    add_flag(&mut f, "iilp_hwp_r", 20, 32);
    add_flag(&mut f, "intel_thread_director", 23, 32);
    f
}

/// The flag bit positions of the extended-features EBX register, in schema order.
pub open spec fn leaf7_0_ebx_bits() -> Seq<u8> {
    seq![0u8, 1, 2, 3, 13, 14, 15, 16, 17, 18, 19, 20, 21, 23, 24, 25, 26, 27, 28, 29, 30, 31]
}

/// The flag schema of the extended-features EBX register.
fn leaf7_0_ebx_schema() -> (r: Vec<Field>)
    ensures
        schema_wf(r@, 32),
        r@.len() == leaf7_0_ebx_bits().len(),
        forall|k: int|
            0 <= k < r@.len() ==> (#[trigger] r@[k]).kind == FieldKind::Flag && r@[k].start
                == leaf7_0_ebx_bits()[k],
{
    let mut f: Vec<Field> = Vec::new();
    add_flag(&mut f, "fsgsbase", 0, 32);
    add_flag(&mut f, "ia32_tsc_adjust_msr", 1, 32);
    add_flag(&mut f, "sgx", 2, 32);
    add_flag(&mut f, "bmi1", 3, 32);
    add_flag(&mut f, "deprecates_fpu_cs_and_fpu_ds", 13, 32);
    add_flag(&mut f, "mpx", 14, 32);
    add_flag(&mut f, "rdt_t", 15, 32);
    add_flag(&mut f, "avx512f", 16, 32);
    add_flag(&mut f, "avx512dq", 17, 32);
    add_flag(&mut f, "rdseed", 18, 32);
    add_flag(&mut f, "adx", 19, 32);
    add_flag(&mut f, "smap", 20, 32);
    add_flag(&mut f, "avx512_ifma", 21, 32);
    add_flag(&mut f, "clfushopt", 23, 32);
    add_flag(&mut f, "clwb", 24, 32);
    add_flag(&mut f, "intel_processor_trace", 25, 32);
    add_flag(&mut f, "avx512pf", 26, 32);
    add_flag(&mut f, "avx512er", 27, 32);
    add_flag(&mut f, "avx512cd", 28, 32);
    add_flag(&mut f, "sha", 29, 32);
    add_flag(&mut f, "avx512bw", 30, 32);
    add_flag(&mut f, "avx512vl", 31, 32);
    f
}

/// The flag bit positions of the extended-features ECX register, in schema order.
pub open spec fn leaf7_0_ecx_bits() -> Seq<u8> {
    seq![0u8, 1, 2, 3, 4, 5, 6, 7, 8, 9, 10, 11, 12, 13, 14, 16, 22, 23, 25, 27, 28, 30, 31]
}

/// The flag schema of the extended-features ECX register.
fn leaf7_0_ecx_schema() -> (r: Vec<Field>)
    ensures
        schema_wf(r@, 32),
        r@.len() == leaf7_0_ecx_bits().len(),
        forall|k: int|
            0 <= k < r@.len() ==> (#[trigger] r@[k]).kind == FieldKind::Flag && r@[k].start
                == leaf7_0_ecx_bits()[k],
{
    let mut f: Vec<Field> = Vec::new();
    add_flag(&mut f, "prefetchwt1", 0, 32);
    add_flag(&mut f, "avx512_vbmi", 1, 32);
    add_flag(&mut f, "umip", 2, 32);
    add_flag(&mut f, "pku", 3, 32);
    add_flag(&mut f, "ospke", 4, 32);
    add_flag(&mut f, "waitpkg", 5, 32);
    add_flag(&mut f, "avx512_vbmi2", 6, 32);
    add_flag(&mut f, "cet_ss", 7, 32);
    add_flag(&mut f, "gfni", 8, 32);
    add_flag(&mut f, "vaes", 9, 32);
    add_flag(&mut f, "vpclmulqdq", 10, 32);
    add_flag(&mut f, "avx512_vnni", 11, 32);
    add_flag(&mut f, "avx512_bitalg", 12, 32);
    add_flag(&mut f, "tme_en", 13, 32);
    add_flag(&mut f, "avx512_vpopcntdq", 14, 32);
    add_flag(&mut f, "la57", 16, 32);
    add_flag(&mut f, "rdpid_and_ia32_tsc_aux", 22, 32);
    add_flag(&mut f, "kl", 23, 32);
    add_flag(&mut f, "cldemote", 25, 32);
    add_flag(&mut f, "movdiri", 27, 32);
    add_flag(&mut f, "movdiri64b", 28, 32);
    add_flag(&mut f, "sgx_lc", 30, 32);
    add_flag(&mut f, "pks", 31, 32);
    f
}

/// The flag bit positions of the extended-features EDX register, in schema order.
pub open spec fn leaf7_0_edx_bits() -> Seq<u8> {
    seq![2u8, 3, 4, 8, 10, 15, 18, 19, 26, 27, 28, 29, 30, 31]
}

/// The flag schema of the extended-features EDX register.
fn leaf7_0_edx_schema() -> (r: Vec<Field>)
    ensures
        schema_wf(r@, 32),
        r@.len() == leaf7_0_edx_bits().len(),
        forall|k: int|
            0 <= k < r@.len() ==> (#[trigger] r@[k]).kind == FieldKind::Flag && r@[k].start
                == leaf7_0_edx_bits()[k],
{
    let mut f: Vec<Field> = Vec::new();
    add_flag(&mut f, "avx512_4vnniw", 2, 32);
    add_flag(&mut f, "avx512_4fmaps", 3, 32);
    add_flag(&mut f, "fast_short_rep_mov", 4, 32);
    add_flag(&mut f, "avx512_vp2intersect", 8, 32);
    add_flag(&mut f, "md_clear", 10, 32);
    add_flag(&mut f, "hydrid", 15, 32);
    add_flag(&mut f, "pconfig", 18, 32);
    add_flag(&mut f, "cet_ibt", 19, 32);
    add_flag(&mut f, "ibrs_ibpb_enum", 26, 32);
    add_flag(&mut f, "stibp_enum", 27, 32);
    add_flag(&mut f, "l1d_flush_enum", 28, 32);
    add_flag(&mut f, "ia32_arch_capabilities_msr_enum", 29, 32);
    add_flag(&mut f, "ia32_core_capabilities_msr_enum", 30, 32);
    add_flag(&mut f, "ssbd_enum", 31, 32);
    f
}

/// The flag bit positions of the extended-features sub-leaf 1 EAX register, in schema order.
pub open spec fn leaf7_1_eax_bits() -> Seq<u8> {
    seq![4u8, 5, 10, 11, 12, 22]
}

/// The flag schema of the extended-features sub-leaf 1 EAX register.
fn leaf7_1_eax_schema() -> (r: Vec<Field>)
    ensures
        schema_wf(r@, 32),
        r@.len() == leaf7_1_eax_bits().len(),
        forall|k: int|
            0 <= k < r@.len() ==> (#[trigger] r@[k]).kind == FieldKind::Flag && r@[k].start
                == leaf7_1_eax_bits()[k],
{
    let mut f: Vec<Field> = Vec::new();
    add_flag(&mut f, "avx_vnni", 4, 32);
    add_flag(&mut f, "avx512_bf16", 5, 32);
    add_flag(&mut f, "fast_zero_length_rep_movsh", 10, 32);
    add_flag(&mut f, "fast_short_rep_stosb", 11, 32);
    add_flag(&mut f, "fast_short_rep_cmpsb_rep_scasb", 12, 32);
    add_flag(&mut f, "hreset", 22, 32);
    f
}

/// The flag bit positions of the extended-features sub-leaf 1 EBX register, in schema order.
pub open spec fn leaf7_1_ebx_bits() -> Seq<u8> {
    seq![0u8]
}

/// The flag schema of the extended-features sub-leaf 1 EBX register.
fn leaf7_1_ebx_schema() -> (r: Vec<Field>)
    ensures
        schema_wf(r@, 32),
        r@.len() == leaf7_1_ebx_bits().len(),
        forall|k: int|
            0 <= k < r@.len() ==> (#[trigger] r@[k]).kind == FieldKind::Flag && r@[k].start
                == leaf7_1_ebx_bits()[k],
{
    let mut f: Vec<Field> = Vec::new();
    add_flag(&mut f, "ia32_ppin_and_ia32_ppin_ctl_msrs_enum", 0, 32);
    f
}

} // verus!

verus! {

/// The vendor leaf is satisfied when the candidate's highest basic leaf is
/// at least the required one and the vendor identification registers match
/// exactly.
pub open spec fn leaf0_compatible(c: RegLeaf, r: RegLeaf) -> bool {
    &&& c.eax >= r.eax
    &&& c.ebx == r.ebx
    &&& c.ecx == r.ecx
    &&& c.edx == r.edx
}

/// The basic-features leaf is satisfied when the candidate's ECX and EDX
/// flags are supersets of the required ones.
pub open spec fn leaf1_compatible(c: RegLeaf, r: RegLeaf) -> bool {
    &&& flags_superset(c.ecx, r.ecx, leaf1_ecx_bits())
    &&& flags_superset(c.edx, r.edx, leaf1_edx_bits())
}

/// The MONITOR/MWAIT leaf is satisfied when the candidate's smallest
/// monitor line is no larger, its largest no smaller, and its extension
/// flags a superset.
pub open spec fn leaf5_compatible(c: RegLeaf, r: RegLeaf) -> bool {
    &&& c.eax & 0xffff <= r.eax & 0xffff
    &&& c.ebx & 0xffff >= r.ebx & 0xffff
    &&& flags_superset(c.ecx, r.ecx, leaf5_ecx_bits())
}

/// The thermal-and-power leaf is satisfied when the candidate's feature
/// flags are a superset and it offers at least as many thermal interrupt
/// thresholds.
pub open spec fn leaf6_compatible(c: RegLeaf, r: RegLeaf) -> bool {
    &&& flags_superset(c.eax, r.eax, leaf6_eax_bits())
    &&& c.ebx & 0xf >= r.ebx & 0xf
}

/// Sub-leaf 0 of the extended-features leaf is satisfied when the
/// candidate enumerates at least as many sub-leaves and its EBX, ECX and
/// EDX flags are supersets.
pub open spec fn leaf7_subleaf0_compatible(c: RegLeaf, r: RegLeaf) -> bool {
    &&& c.eax >= r.eax
    &&& flags_superset(c.ebx, r.ebx, leaf7_0_ebx_bits())
    &&& flags_superset(c.ecx, r.ecx, leaf7_0_ecx_bits())
    &&& flags_superset(c.edx, r.edx, leaf7_0_edx_bits())
}

/// Sub-leaf 1 of the extended-features leaf is satisfied when the
/// candidate's EAX and EBX flags are supersets.
pub open spec fn leaf7_subleaf1_compatible(c: RegLeaf, r: RegLeaf) -> bool {
    &&& flags_superset(c.eax, r.eax, leaf7_1_eax_bits())
    &&& flags_superset(c.ebx, r.ebx, leaf7_1_ebx_bits())
}

/// The direct-cache-access leaf is satisfied when the two DCA capability
/// words are identical.
pub open spec fn leaf9_compatible(c: RegLeaf, r: RegLeaf) -> bool {
    c.eax == r.eax
}

/// Compares the vendor leaves.
pub fn leaf0_supports(c: &RegLeaf, r: &RegLeaf) -> (v: Verdict)
    ensures
        v is Compatible <==> leaf0_compatible(*c, *r),
        v matches Verdict::Incompatible { leaf, .. } ==> leaf == 0,
        !(v is UnsupportedComparison),
{
    if c.eax < r.eax {
        return Verdict::Incompatible { leaf: 0, reason: "max_leaf".to_owned() };
    }
    if c.ebx != r.ebx || c.ecx != r.ecx || c.edx != r.edx {
        return Verdict::Incompatible { leaf: 0, reason: "vendor_id".to_owned() };
    }
    Verdict::Compatible
}

/// Compares the basic-features leaves flag by flag; the verdict names the
/// first flag the candidate misses.
pub fn leaf1_supports(c: &RegLeaf, r: &RegLeaf) -> (v: Verdict)
    ensures
        v is Compatible <==> leaf1_compatible(*c, *r),
        v matches Verdict::Incompatible { leaf, .. } ==> leaf == 1,
        !(v is UnsupportedComparison),
{
    if let Some(name) = flags_missing_name(c.ecx, r.ecx, leaf1_ecx_schema(), Ghost(leaf1_ecx_bits())) {
        return Verdict::Incompatible { leaf: 1, reason: name };
    }
    if let Some(name) = flags_missing_name(c.edx, r.edx, leaf1_edx_schema(), Ghost(leaf1_edx_bits())) {
        return Verdict::Incompatible { leaf: 1, reason: name };
    }
    Verdict::Compatible
}

/// Compares the MONITOR/MWAIT leaves: line-size bounds, then flags.
pub fn leaf5_supports(c: &RegLeaf, r: &RegLeaf) -> (v: Verdict)
    ensures
        v is Compatible <==> leaf5_compatible(*c, *r),
        v matches Verdict::Incompatible { leaf, .. } ==> leaf == 5,
        !(v is UnsupportedComparison),
{
    if c.eax & 0xffff > r.eax & 0xffff {
        return Verdict::Incompatible { leaf: 5, reason: "smallest_monitor_line_size".to_owned() };
    }
    if c.ebx & 0xffff < r.ebx & 0xffff {
        return Verdict::Incompatible { leaf: 5, reason: "largest_monitor_line_size".to_owned() };
    }
    if let Some(name) = flags_missing_name(c.ecx, r.ecx, leaf5_ecx_schema(), Ghost(leaf5_ecx_bits())) {
        return Verdict::Incompatible { leaf: 5, reason: name };
    }
    Verdict::Compatible
}

/// Compares the thermal-and-power leaves: flags, then the threshold count.
pub fn leaf6_supports(c: &RegLeaf, r: &RegLeaf) -> (v: Verdict)
    ensures
        v is Compatible <==> leaf6_compatible(*c, *r),
        v matches Verdict::Incompatible { leaf, .. } ==> leaf == 6,
        !(v is UnsupportedComparison),
{
    if let Some(name) = flags_missing_name(c.eax, r.eax, leaf6_eax_schema(), Ghost(leaf6_eax_bits())) {
        return Verdict::Incompatible { leaf: 6, reason: name };
    }
    if c.ebx & 0xf < r.ebx & 0xf {
        return Verdict::Incompatible {
            leaf: 6,
            reason: "number_of_interrupt_thresholds_in_digital_thermal_sensor".to_owned(),
        };
    }
    Verdict::Compatible
}

/// Compares sub-leaf 0 of the extended-features leaves: the sub-leaf
/// count, then the three flag registers.
pub fn leaf7_subleaf0_supports(c: &RegLeaf, r: &RegLeaf) -> (v: Verdict)
    ensures
        v is Compatible <==> leaf7_subleaf0_compatible(*c, *r),
        v matches Verdict::Incompatible { leaf, .. } ==> leaf == 7,
        !(v is UnsupportedComparison),
{
    if c.eax < r.eax {
        return Verdict::Incompatible { leaf: 7, reason: "max_input_value_subleaf".to_owned() };
    }
    if let Some(name) = flags_missing_name(c.ebx, r.ebx, leaf7_0_ebx_schema(), Ghost(leaf7_0_ebx_bits())) {
        return Verdict::Incompatible { leaf: 7, reason: name };
    }
    if let Some(name) = flags_missing_name(c.ecx, r.ecx, leaf7_0_ecx_schema(), Ghost(leaf7_0_ecx_bits())) {
        return Verdict::Incompatible { leaf: 7, reason: name };
    }
    if let Some(name) = flags_missing_name(c.edx, r.edx, leaf7_0_edx_schema(), Ghost(leaf7_0_edx_bits())) {
        return Verdict::Incompatible { leaf: 7, reason: name };
    }
    Verdict::Compatible
}

/// Compares sub-leaf 1 of the extended-features leaves flag by flag.
pub fn leaf7_subleaf1_supports(c: &RegLeaf, r: &RegLeaf) -> (v: Verdict)
    ensures
        v is Compatible <==> leaf7_subleaf1_compatible(*c, *r),
        v matches Verdict::Incompatible { leaf, .. } ==> leaf == 7,
        !(v is UnsupportedComparison),
{
    if let Some(name) = flags_missing_name(c.eax, r.eax, leaf7_1_eax_schema(), Ghost(leaf7_1_eax_bits())) {
        return Verdict::Incompatible { leaf: 7, reason: name };
    }
    if let Some(name) = flags_missing_name(c.ebx, r.ebx, leaf7_1_ebx_schema(), Ghost(leaf7_1_ebx_bits())) {
        return Verdict::Incompatible { leaf: 7, reason: name };
    }
    Verdict::Compatible
}

/// Compares the direct-cache-access leaves.
pub fn leaf9_supports(c: &RegLeaf, r: &RegLeaf) -> (v: Verdict)
    ensures
        v is Compatible <==> leaf9_compatible(*c, *r),
        v matches Verdict::Incompatible { leaf, .. } ==> leaf == 9,
        !(v is UnsupportedComparison),
{
    if c.eax != r.eax {
        return Verdict::Incompatible { leaf: 9, reason: "ia32_platform_dca_cap_msr".to_owned() };
    }
    Verdict::Compatible
}

impl IntelCpuid {
    /// Decides whether this processor model satisfies everything `other`
    /// exposes, leaf by leaf in ascending order.
    ///
    /// The walk stops at the first leaf that blocks compatibility, or at
    /// the first leaf whose comparison is not modelled: the descriptor
    /// leaf, whose comparison this checker does not implement, so a walk
    /// past the two leaves below it always ends in an explicit
    /// `UnsupportedComparison` rather than a guessed boolean.
    pub fn supports(&self, other: &IntelCpuid) -> (v: Verdict)
        ensures
            !leaf0_compatible(self.leaf_0, other.leaf_0) ==> (v matches Verdict::Incompatible {
                leaf,
                ..
            } && leaf == 0),
            leaf0_compatible(self.leaf_0, other.leaf_0) && !leaf1_compatible(
                self.leaf_1,
                other.leaf_1,
            ) ==> (v matches Verdict::Incompatible { leaf, .. } && leaf == 1),
            leaf0_compatible(self.leaf_0, other.leaf_0) && leaf1_compatible(
                self.leaf_1,
                other.leaf_1,
            ) ==> (v matches Verdict::UnsupportedComparison { leaf } && leaf == 2),
    {
        let v0 = leaf0_supports(&self.leaf_0, &other.leaf_0);
        if !matches!(v0, Verdict::Compatible) {
            return v0;
        }
        let v1 = leaf1_supports(&self.leaf_1, &other.leaf_1);
        if !matches!(v1, Verdict::Compatible) {
            return v1;
        }
        Verdict::UnsupportedComparison { leaf: 2 }
    }
}

} // verus!
