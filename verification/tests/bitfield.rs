//! Checked bit-view access over a register with a mixed flag/range schema.

use cpuid_model::bitview::CheckedAddAssignErr;
use cpuid_model::bitview::CheckedAssignErr;
use cpuid_model::bitview::CheckedSubAssignErr;
use cpuid_model::bitview::mask_u128;
use cpuid_model::bitview::mask_u16;
use cpuid_model::bitview::mask_u32;
use cpuid_model::bitview::mask_u64;
use cpuid_model::bitview::mask_u8;
use cpuid_model::register::Field;
use cpuid_model::register::FieldKind;
use cpuid_model::register::FeatureRegister;
use cpuid_model::bitview::Bit;
use cpuid_model::bitview::BitRange;

fn flag(name: &str, pos: u8) -> Field {
    Field { name: name.to_string(), kind: FieldKind::Flag, start: pos, end: pos + 1 }
}

fn range(name: &str, start: u8, end: u8) -> Field {
    Field { name: name.to_string(), kind: FieldKind::Range, start, end }
}

fn generated_bitfield(value: u128) -> FeatureRegister {
    FeatureRegister::new(
        32,
        value,
        vec![
            range("RANGE1", 0, 1),
            flag("SSE", 2),
            flag("SSE1", 3),
            range("RANGE2", 4, 6),
            flag("SSE2", 9),
            flag("SSE3", 10),
            range("RANGE3", 12, 15),
            flag("SSE4", 18),
        ],
    )
    .unwrap()
}

#[test]
fn main() {
    let mut bitfield = generated_bitfield(23548);

    assert_eq!(mask_u16(0, 16), 0b1111_1111_1111_1111);
    assert_eq!(
        mask_u16(0, 8),
        0b0000_0000_1111_1111,
        "{:016b} != {:016b}",
        mask_u16(0, 8),
        0b0000_0000_1111_1111
    );
    assert_eq!(
        mask_u16(8, 16),
        0b1111_1111_0000_0000,
        "{:016b} != {:016b}",
        mask_u16(8, 16),
        0b1111_1111_0000_0000
    );
    assert_eq!(mask_u16(4, 12), 0b0000_1111_1111_0000);
    assert_eq!(mask_u16(6, 10), 0b0000_0011_1100_0000);

    assert_eq!(mask_u8(0, 8), 0b1111_1111);
    assert_eq!(mask_u8(0, 4), 0b0000_1111);
    assert_eq!(mask_u8(4, 8), 0b1111_0000);

    let (_, range1) = bitfield.window(&"RANGE1".to_string()).unwrap();
    let (_, range2) = bitfield.window(&"RANGE2".to_string()).unwrap();
    let (_, range3) = bitfield.window(&"RANGE3".to_string()).unwrap();

    assert_eq!(range1.checked_add_assign(&mut bitfield.value, 1), Ok(()));
    assert_eq!(
        range1.checked_add_assign(&mut bitfield.value, 1),
        Err(CheckedAddAssignErr::Overflow)
    );
    assert_eq!(
        range2.checked_add_assign(&mut bitfield.value, 1),
        Err(CheckedAddAssignErr::Overflow)
    );
    assert_eq!(range3.checked_add_assign(&mut bitfield.value, 2), Ok(()));
    assert_eq!(
        range3.checked_add_assign(&mut bitfield.value, 1),
        Err(CheckedAddAssignErr::Overflow)
    );
    assert_eq!(
        range3.checked_add_assign(&mut bitfield.value, 8),
        Err(CheckedAddAssignErr::OutOfRange)
    );

    assert_eq!(range1.checked_sub_assign(&mut bitfield.value, 1), Ok(()));
    assert_eq!(
        range1.checked_sub_assign(&mut bitfield.value, 1),
        Err(CheckedSubAssignErr::Underflow)
    );
    assert_eq!(
        range1.checked_sub_assign(&mut bitfield.value, 2),
        Err(CheckedSubAssignErr::OutOfRange)
    );
    assert_eq!(range2.checked_sub_assign(&mut bitfield.value, 1), Ok(()));
}

#[test]
fn masks_select_exact_bit_spans() {
    assert_eq!(mask_u32(0, 32), u32::MAX);
    assert_eq!(mask_u32(8, 16), 0x0000_FF00);
    assert_eq!(mask_u32(31, 32), 0x8000_0000);
    assert_eq!(mask_u32(5, 5), 0);
    assert_eq!(mask_u32(12, 4), 0);
    assert_eq!(mask_u64(0, 64), u64::MAX);
    assert_eq!(mask_u64(32, 48), 0x0000_FFFF_0000_0000);
    assert_eq!(mask_u128(0, 128), u128::MAX);
    assert_eq!(mask_u128(64, 128), u128::MAX << 64);
}

#[test]
fn assign_round_trips_and_preserves_other_bits() {
    // Round-trip masking: a stored value reads back exactly, and the bits
    // outside the span keep their old values.
    let mut reg = generated_bitfield(0);
    let all = 0xFFFF_FFFFu128;
    reg.value = all;
    let (_, range3) = reg.window(&"RANGE3".to_string()).unwrap();
    for x in 0..8u128 {
        assert_eq!(range3.checked_assign(&mut reg.value, x), Ok(()));
        assert_eq!(range3.read(reg.value), x);
        assert_eq!(reg.value & !(0x7 << 12), all & !(0x7 << 12));
    }
    assert_eq!(range3.checked_assign(&mut reg.value, 8), Err(CheckedAssignErr));
}

#[test]
fn add_assign_succeeds_exactly_below_the_span_limit() {
    // With the span holding v, adding x succeeds exactly when v + x fits.
    let mut reg = generated_bitfield(0);
    let (_, range3) = reg.window(&"RANGE3".to_string()).unwrap();
    range3.checked_assign(&mut reg.value, 5).unwrap();
    assert_eq!(range3.checked_add_assign(&mut reg.value, 2), Ok(()));
    assert_eq!(range3.read(reg.value), 7);
    assert_eq!(
        range3.checked_add_assign(&mut reg.value, 1),
        Err(CheckedAddAssignErr::Overflow)
    );
    assert_eq!(
        range3.checked_add_assign(&mut reg.value, 9),
        Err(CheckedAddAssignErr::OutOfRange)
    );
    assert_eq!(range3.checked_sub_assign(&mut reg.value, 7), Ok(()));
    assert_eq!(range3.read(reg.value), 0);
}

#[test]
fn full_width_ranges_mirror_the_raw_register() {
    // A range covering all bits of a register of each width stores and
    // reads the raw register value unchanged.
    for (width, max) in [
        (8u8, 0xFFu128),
        (16, 0xFFFF),
        (32, 0xFFFF_FFFF),
        (64, 0xFFFF_FFFF_FFFF_FFFF),
        (128, u128::MAX),
    ] {
        let mut reg = FeatureRegister::new(width, 0, vec![range("all", 0, width)]).unwrap();
        let (_, w) = reg.window(&"all".to_string()).unwrap();
        assert_eq!(w.checked_assign(&mut reg.value, max), Ok(()));
        assert_eq!(reg.value, max);
        assert_eq!(w.read(reg.value), max);
        if width < 128 {
            assert!(w.checked_assign(&mut reg.value, max + 1).is_err());
        }
    }
}

#[test]
fn flags_and_range_scenario() {
    // Register value 0x23 with flags at bits 0 and 1 and a range over bits
    // 4..8: both flags read true, the range reads 2; adding 1 to the range
    // makes the register 0x33 and the range 3.
    let mut reg = FeatureRegister::new(
        8,
        0x23,
        vec![flag("flagA", 0), flag("flagB", 1), range("rangeC", 4, 8)],
    )
    .unwrap();
    assert_eq!(reg.flag(&"flagA".to_string()), Ok(true));
    assert_eq!(reg.flag(&"flagB".to_string()), Ok(true));
    assert_eq!(reg.field_value(&"rangeC".to_string()), Ok(2));
    let (_, range_c) = reg.window(&"rangeC".to_string()).unwrap();
    assert_eq!(range_c.checked_add_assign(&mut reg.value, 1), Ok(()));
    assert_eq!(reg.value, 0x33);
    assert_eq!(range_c.read(reg.value), 3);
}

#[test]
fn windows_load_and_store_their_bits_in_place() {
    let w = BitRange { start: 4, end: 8 };
    let mut value: u128 = 0xA5A5;
    assert_eq!(w.data(value), 0x00A0);
    w.data_mut(&mut value, 0x50);
    assert_eq!(value, 0xA555);
    assert_eq!(w.read(value), 5);

    let b = Bit { pos: 1 };
    assert_eq!(b.data(value), 0);
    b.data_mut(&mut value, 0b10);
    assert_eq!(value, 0xA557);
    assert!(b.read(value));
    b.data_mut(&mut value, 0);
    assert!(!b.read(value));
}

#[test]
fn single_bits_switch_on_off_and_flip() {
    let b = Bit { pos: 9 };
    let mut value: u128 = 0x23;
    b.on(&mut value);
    assert_eq!(value, 0x223);
    b.flip(&mut value);
    assert_eq!(value, 0x23);
    b.flip(&mut value);
    assert_eq!(value, 0x223);
    b.off(&mut value);
    assert_eq!(value, 0x23);
}
