//! Decoding a flat record sequence into the nested model.

use cpuid_model::decode::DecodeError;
use cpuid_model::model::IntelCpuid;
use cpuid_model::model::Leaf;
use cpuid_model::raw::RawCpuid;
use cpuid_model::raw::RawEntry;

fn entry(function: u32, index: u32, eax: u32, ebx: u32, ecx: u32, edx: u32) -> RawEntry {
    RawEntry { function, index, eax, ebx, ecx, edx }
}

/// A record sequence in the walk order the decoder expects, with two cache
/// levels, three topology levels, one extra extended-state sub-leaf, and
/// no optional RDT sub-leaves.
fn valid_entries() -> Vec<RawEntry> {
    let mut v = vec![
        entry(0x0, 0, 0x16, 0x756E_6547, 0x6C65_746E, 0x4965_6E69),
        entry(0x1, 0, 0x000A_0652, 0x0010_0800, 0x7FFA_FBFF, 0xBFEB_FBFF),
        entry(0x2, 0, 0x0102_0304, 0x05F0_B5FF, 0, 0x00C3_0000),
        entry(0x3, 0, 0, 0, 0, 0),
        entry(0x4, 0, 0x1C00_4121, 0x01C0_003F, 0x0000_003F, 0),
        entry(0x4, 1, 0x1C00_4143, 0x03C0_003F, 0x0000_0FFF, 0),
        entry(0x4, 2, 0, 0, 0, 0),
        entry(0x5, 0, 0x40, 0x40, 0x3, 0x0001_1120),
        entry(0x6, 0, 0x27F7, 0x2, 0x9, 0),
        entry(0x7, 0, 0x1, 0x009C_6FBB, 0x0000_0000, 0xBC00_0400),
        entry(0x7, 1, 0x0000_0020, 0, 0, 0),
        entry(0x8, 0, 0, 0, 0, 0),
        entry(0x9, 0, 0, 0, 0, 0),
        entry(0xA, 0, 0x0844_4044, 0, 0, 0x603),
        entry(0xB, 0, 0x1, 0x2, 0x0100, 0x5),
        entry(0xB, 1, 0x4, 0x10, 0x0201, 0x5),
        entry(0xB, 2, 0, 0, 0x0002, 0x5),
        entry(0xC, 0, 0, 0, 0, 0),
        entry(0xD, 0, 0x1F, 0x440, 0x440, 0),
        entry(0xD, 1, 0xF, 0x3C0, 0x100, 0),
        entry(0xD, 2, 0x100, 0x240, 0, 0),
        entry(0xE, 0, 0, 0, 0, 0),
        entry(0xF, 0, 0, 0, 0, 0),
        entry(0x10, 0, 0, 0, 0, 0),
        entry(0x11, 0, 0, 0, 0, 0),
        entry(0x12, 0, 0, 0, 0, 0),
        entry(0x13, 0, 0, 0, 0, 0),
        entry(0x14, 0, 0, 0, 0, 0),
        entry(0x15, 0, 0x2, 0xA8, 0x016_E360, 0),
        entry(0x16, 0, 0xA28, 0x1068, 0x64, 0),
    ];
    for i in 0..9u32 {
        v.push(entry(0x8000_0000 + i, 0, 0x8000_0008, i, i * 2, i * 3));
    }
    v
}

#[test]
fn decodes_a_well_formed_sequence() {
    let raw = RawCpuid::new(valid_entries());
    let model = IntelCpuid::decode(&raw).unwrap();

    assert_eq!(model.leaf_0.eax, 0x16);
    assert_eq!(model.leaf_0.ebx, 0x756E_6547);

    // The descriptor leaf is kept as its little-endian bytes.
    assert_eq!(model.leaf_2.eax, [0x04, 0x03, 0x02, 0x01]);
    assert_eq!(model.leaf_2.ebx, [0xFF, 0xB5, 0xF0, 0x05]);

    // Two cache levels; the terminating record is consumed but not kept.
    assert_eq!(model.leaf_4.len(), 2);
    assert_eq!(model.leaf_4[0].eax, 0x1C00_4121);
    assert_eq!(model.leaf_4[1].eax, 0x1C00_4143);

    // The announced features sub-leaf 1 is present.
    assert_eq!(model.leaf_7.0.ebx, 0x009C_6FBB);
    assert_eq!(model.leaf_7.1, Some(Leaf { eax: 0x0000_0020, ebx: 0, ecx: 0, edx: 0 }));

    // Three topology levels; the terminating record is kept.
    assert_eq!(model.leaf_b.len(), 3);
    assert_eq!(model.leaf_b[2].ecx, 0x0002);

    // One extended-state sub-leaf beyond the fixed two.
    assert_eq!(model.leaf_d.0.eax, 0x1F);
    assert_eq!(model.leaf_d.2.len(), 1);
    assert_eq!(model.leaf_d.2[0].eax, 0x100);

    // No optional RDT sub-leaves were announced.
    assert_eq!(model.leaf_f.1, None);
    assert_eq!(model.leaf_10.1, None);
    assert_eq!(model.leaf_14.1, None);

    assert_eq!(model.leaf_80000000.ebx, 0);
    assert_eq!(model.leaf_80000008.ebx, 8);
}

#[test]
fn decoding_is_deterministic() {
    // One sequence, decoded twice, gives bit-identical models.
    let raw = RawCpuid::new(valid_entries());
    let once = IntelCpuid::decode(&raw).unwrap();
    let again = IntelCpuid::decode(&raw).unwrap();
    assert_eq!(once, again);
}

#[test]
fn terminator_driven_cache_collection() {
    // Three cache records whose third carries a null cache type decode to
    // a two-element collection: the terminator is consumed, not kept.
    let raw = RawCpuid::new(valid_entries());
    let model = IntelCpuid::decode(&raw).unwrap();
    assert_eq!(model.leaf_4.len(), 2);
}

#[test]
fn truncated_sequences_are_malformed() {
    for cut in [0usize, 1, 2, 5, 8] {
        let mut v = valid_entries();
        v.truncate(cut);
        let raw = RawCpuid::new(v);
        assert!(matches!(
            IntelCpuid::decode(&raw),
            Err(DecodeError::MalformedInput { .. })
        ));
    }
    // Cutting the final extended leaf names it.
    let mut v = valid_entries();
    v.truncate(v.len() - 1);
    let raw = RawCpuid::new(v);
    assert_eq!(
        IntelCpuid::decode(&raw),
        Err(DecodeError::MalformedInput { leaf: 0x8000_0008 })
    );
}

#[test]
fn consistency_check_names_the_leaf() {
    // The record where the features leaf belongs answers something else.
    let mut v = valid_entries();
    v[9].function = 0x99;
    let raw = RawCpuid::new(v);
    assert_eq!(
        IntelCpuid::decode(&raw),
        Err(DecodeError::MalformedInput { leaf: 0x7 })
    );
}

#[test]
fn unimplemented_shapes_fail_loudly() {
    // A features leaf announcing more than one sub-leaf.
    let mut v = valid_entries();
    v[9].eax = 2;
    assert_eq!(
        IntelCpuid::decode(&RawCpuid::new(v)),
        Err(DecodeError::UnsupportedLeaf { leaf: 0x7 })
    );

    // An SGX-capable processor: the sub-leaf count is unspecified.
    let mut v = valid_entries();
    v[9].ebx |= 1 << 2;
    assert_eq!(
        IntelCpuid::decode(&RawCpuid::new(v)),
        Err(DecodeError::UnsupportedLeaf { leaf: 0x12 })
    );

    // A processor-trace leaf announcing more than one sub-leaf.
    let mut v = valid_entries();
    v[27].eax = 2;
    assert_eq!(
        IntelCpuid::decode(&RawCpuid::new(v)),
        Err(DecodeError::UnsupportedLeaf { leaf: 0x14 })
    );

    // A leaf whose catalog shape is open, present after the frequency leaf.
    let mut v = valid_entries();
    v.insert(30, entry(0x17, 0, 1, 0, 0, 0));
    assert_eq!(
        IntelCpuid::decode(&RawCpuid::new(v)),
        Err(DecodeError::UnsupportedLeaf { leaf: 0x17 })
    );
    let mut v = valid_entries();
    v.insert(30, entry(0x1F, 0, 0, 0, 0x0100, 0));
    assert_eq!(
        IntelCpuid::decode(&RawCpuid::new(v)),
        Err(DecodeError::UnsupportedLeaf { leaf: 0x1F })
    );
}

#[test]
fn lookup_finds_the_first_match() {
    let raw = RawCpuid::new(valid_entries());
    let e = raw.get(0x4, 1).unwrap();
    assert_eq!(e.eax, 0x1C00_4143);
    let b0 = raw.get(0xB, 0).unwrap();
    assert_eq!(b0.ebx, 0x2);
    assert!(raw.get(0x42, 0).is_none());
    assert_eq!(raw.len(), 39);
}

#[test]
fn announced_optional_subleaves_are_consumed() {
    // Every conditionally-present sub-leaf is announced by a field of an
    // already-decoded record: here the RDT-monitoring L3 sub-leaf, all
    // three RDT-allocation sub-leaves, and the processor-trace sub-leaf.
    let mut v = vec![
        entry(0x0, 0, 0x16, 0x756E_6547, 0x6C65_746E, 0x4965_6E69),
        entry(0x1, 0, 0, 0, 0, 0),
        entry(0x2, 0, 0, 0, 0, 0),
        entry(0x3, 0, 0, 0, 0, 0),
        entry(0x4, 0, 0, 0, 0, 0),
        entry(0x5, 0, 0x40, 0x40, 0, 0),
        entry(0x6, 0, 0, 0, 0, 0),
        entry(0x7, 0, 0x1, 0, 0, 0),
        entry(0x7, 1, 0x20, 0, 0, 0),
        entry(0x8, 0, 0, 0, 0, 0),
        entry(0x9, 0, 0, 0, 0, 0),
        entry(0xA, 0, 0, 0, 0, 0),
        entry(0xB, 0, 0, 0, 0, 0),
        entry(0xC, 0, 0, 0, 0, 0),
        entry(0xD, 0, 0, 0, 0, 0),
        entry(0xD, 1, 0, 0, 0, 0),
        entry(0xE, 0, 0, 0, 0, 0),
        entry(0xF, 0, 0, 0, 0, 0b10),
        entry(0xF, 1, 0, 99, 0, 0),
        entry(0x10, 0, 0, 0b1110, 0, 0),
        entry(0x10, 1, 11, 0, 0, 0),
        entry(0x10, 2, 22, 0, 0, 0),
        entry(0x10, 3, 33, 0, 0, 0),
        entry(0x11, 0, 0, 0, 0, 0),
        entry(0x12, 0, 0, 0, 0, 0),
        entry(0x13, 0, 0, 0, 0, 0),
        entry(0x14, 0, 1, 0, 0, 0),
        entry(0x14, 1, 0, 0xA8, 0, 0),
        entry(0x15, 0, 0, 0, 0, 0),
        entry(0x16, 0, 0, 0, 0, 0),
    ];
    for i in 0..9u32 {
        v.push(entry(0x8000_0000 + i, 0, 0, 0, 0, 0));
    }
    let model = IntelCpuid::decode(&RawCpuid::new(v)).unwrap();
    assert_eq!(model.leaf_4.len(), 0);
    assert_eq!(model.leaf_b.len(), 1);
    assert_eq!(model.leaf_d.2.len(), 0);
    assert_eq!(model.leaf_f.1.unwrap().ebx, 99);
    assert_eq!(model.leaf_10.1.unwrap().eax, 11);
    assert_eq!(model.leaf_10.2.unwrap().eax, 22);
    assert_eq!(model.leaf_10.3.unwrap().eax, 33);
    assert_eq!(model.leaf_14.1.unwrap().ebx, 0xA8);
}
