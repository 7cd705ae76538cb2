//! Leaf-by-leaf compatibility verdicts between two processor models.

use cpuid_model::compat::Verdict;
use cpuid_model::compat::leaf0_supports;
use cpuid_model::compat::leaf1_supports;
use cpuid_model::compat::leaf5_supports;
use cpuid_model::compat::leaf6_supports;
use cpuid_model::compat::leaf7_subleaf0_supports;
use cpuid_model::compat::leaf7_subleaf1_supports;
use cpuid_model::compat::leaf9_supports;
use cpuid_model::model::IntelCpuid;
use cpuid_model::model::Leaf;
use cpuid_model::model::RegLeaf;
use cpuid_model::raw::RawCpuid;
use cpuid_model::raw::RawEntry;

fn regs(eax: u32, ebx: u32, ecx: u32, edx: u32) -> RegLeaf {
    Leaf { eax, ebx, ecx, edx }
}

const SSE_BIT: u32 = 1 << 25;
const AVX_BIT: u32 = 1 << 28;

#[test]
fn candidate_missing_avx_is_incompatible() {
    // The candidate has SSE but no AVX; the requirement has both.
    let candidate = regs(0, 0, 0, SSE_BIT);
    let required = regs(0, 0, AVX_BIT, SSE_BIT);
    assert_eq!(
        leaf1_supports(&candidate, &required),
        Verdict::Incompatible { leaf: 1, reason: "avx".to_string() }
    );
}

#[test]
fn candidate_with_extra_avx_is_compatible() {
    // The candidate has SSE and AVX; the requirement asks only for SSE.
    let candidate = regs(0, 0, AVX_BIT, SSE_BIT);
    let required = regs(0, 0, 0, SSE_BIT);
    assert_eq!(leaf1_supports(&candidate, &required), Verdict::Compatible);
}

#[test]
fn vendor_leaf_compares_highest_leaf_and_identity() {
    let a = regs(0x16, 1, 2, 3);
    assert_eq!(leaf0_supports(&a, &regs(0x14, 1, 2, 3)), Verdict::Compatible);
    assert_eq!(
        leaf0_supports(&a, &regs(0x18, 1, 2, 3)),
        Verdict::Incompatible { leaf: 0, reason: "max_leaf".to_string() }
    );
    assert_eq!(
        leaf0_supports(&a, &regs(0x14, 9, 2, 3)),
        Verdict::Incompatible { leaf: 0, reason: "vendor_id".to_string() }
    );
}

#[test]
fn monitor_leaf_compares_line_size_bounds() {
    // Candidate line sizes must bracket the required ones.
    let c = regs(0x40, 0x80, 0x3, 0);
    assert_eq!(leaf5_supports(&c, &regs(0x40, 0x80, 0x1, 0)), Verdict::Compatible);
    assert_eq!(
        leaf5_supports(&c, &regs(0x20, 0x80, 0, 0)),
        Verdict::Incompatible { leaf: 5, reason: "smallest_monitor_line_size".to_string() }
    );
    assert_eq!(
        leaf5_supports(&c, &regs(0x40, 0x100, 0, 0)),
        Verdict::Incompatible { leaf: 5, reason: "largest_monitor_line_size".to_string() }
    );
    assert_eq!(
        leaf5_supports(&regs(0x40, 0x80, 0x1, 0), &c),
        Verdict::Incompatible {
            leaf: 5,
            reason: "support_treating_interrupts_as_break_events_for_mwait".to_string(),
        }
    );
}

#[test]
fn thermal_leaf_compares_flags_and_thresholds() {
    let c = regs(0b111, 2, 0, 0);
    assert_eq!(leaf6_supports(&c, &regs(0b101, 2, 0, 0)), Verdict::Compatible);
    assert_eq!(
        leaf6_supports(&c, &regs(0b111, 3, 0, 0)),
        Verdict::Incompatible {
            leaf: 6,
            reason: "number_of_interrupt_thresholds_in_digital_thermal_sensor".to_string(),
        }
    );
    assert_eq!(
        leaf6_supports(&regs(0b011, 0, 0, 0), &c),
        Verdict::Incompatible { leaf: 6, reason: "arat".to_string() }
    );
}

#[test]
fn features_leaf_compares_counts_and_three_registers() {
    let c = regs(1, 1 << 16, 1 << 2, 1 << 4);
    assert_eq!(leaf7_subleaf0_supports(&c, &c), Verdict::Compatible);
    assert_eq!(
        leaf7_subleaf0_supports(&c, &regs(2, 0, 0, 0)),
        Verdict::Incompatible { leaf: 7, reason: "max_input_value_subleaf".to_string() }
    );
    assert_eq!(
        leaf7_subleaf0_supports(&c, &regs(1, 1 << 17, 0, 0)),
        Verdict::Incompatible { leaf: 7, reason: "avx512dq".to_string() }
    );
    assert_eq!(
        leaf7_subleaf0_supports(&c, &regs(1, 0, 1 << 3, 0)),
        Verdict::Incompatible { leaf: 7, reason: "pku".to_string() }
    );
    assert_eq!(
        leaf7_subleaf0_supports(&c, &regs(1, 0, 0, 1 << 10)),
        Verdict::Incompatible { leaf: 7, reason: "md_clear".to_string() }
    );
    assert_eq!(
        leaf7_subleaf1_supports(&regs(1 << 4, 0, 0, 0), &regs(1 << 5, 0, 0, 0)),
        Verdict::Incompatible { leaf: 7, reason: "avx512_bf16".to_string() }
    );
    assert_eq!(
        leaf7_subleaf1_supports(&regs(1 << 4, 1, 0, 0), &regs(1 << 4, 1, 0, 0)),
        Verdict::Compatible
    );
}

#[test]
fn dca_leaf_requires_identical_capability_words() {
    assert_eq!(leaf9_supports(&regs(5, 0, 0, 0), &regs(5, 0, 0, 0)), Verdict::Compatible);
    assert_eq!(
        leaf9_supports(&regs(5, 0, 0, 0), &regs(6, 0, 0, 0)),
        Verdict::Incompatible { leaf: 9, reason: "ia32_platform_dca_cap_msr".to_string() }
    );
}

fn entry(function: u32, index: u32, eax: u32, ebx: u32, ecx: u32, edx: u32) -> RawEntry {
    RawEntry { function, index, eax, ebx, ecx, edx }
}

fn model_with_leaf1(ecx: u32, edx: u32) -> IntelCpuid {
    let mut v = vec![
        entry(0x0, 0, 0x16, 0x756E_6547, 0x6C65_746E, 0x4965_6E69),
        entry(0x1, 0, 0, 0, ecx, edx),
        entry(0x2, 0, 0, 0, 0, 0),
        entry(0x3, 0, 0, 0, 0, 0),
        entry(0x4, 0, 0, 0, 0, 0),
        entry(0x5, 0, 0x40, 0x40, 0, 0),
        entry(0x6, 0, 0, 0, 0, 0),
        entry(0x7, 0, 0, 0, 0, 0),
        entry(0x8, 0, 0, 0, 0, 0),
        entry(0x9, 0, 0, 0, 0, 0),
        entry(0xA, 0, 0, 0, 0, 0),
        entry(0xB, 0, 0, 0, 0, 0),
        entry(0xC, 0, 0, 0, 0, 0),
        entry(0xD, 0, 0, 0, 0, 0),
        entry(0xD, 1, 0, 0, 0, 0),
        entry(0xE, 0, 0, 0, 0, 0),
        entry(0xF, 0, 0, 0, 0, 0),
        entry(0x10, 0, 0, 0, 0, 0),
        entry(0x11, 0, 0, 0, 0, 0),
        entry(0x12, 0, 0, 0, 0, 0),
        entry(0x13, 0, 0, 0, 0, 0),
        entry(0x14, 0, 0, 0, 0, 0),
        entry(0x15, 0, 0, 0, 0, 0),
        entry(0x16, 0, 0, 0, 0, 0),
    ];
    for i in 0..9u32 {
        v.push(entry(0x8000_0000 + i, 0, 0, 0, 0, 0));
    }
    IntelCpuid::decode(&RawCpuid::new(v)).unwrap()
}

#[test]
fn whole_model_verdict_composes_leaf_by_leaf() {
    let candidate = model_with_leaf1(0, SSE_BIT);
    let required = model_with_leaf1(AVX_BIT, SSE_BIT);
    assert_eq!(
        candidate.supports(&required),
        Verdict::Incompatible { leaf: 1, reason: "avx".to_string() }
    );
    // With every basic flag satisfied, the walk reaches the descriptor
    // leaf, whose comparison is not modelled.
    assert_eq!(
        required.supports(&candidate),
        Verdict::UnsupportedComparison { leaf: 2 }
    );
}
