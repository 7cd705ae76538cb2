//! Flag set algebra and flag-name conversions over feature registers.

use cpuid_model::register::Field;
use cpuid_model::register::FieldKind;
use cpuid_model::register::FeatureRegister;
use cpuid_model::register::SchemaError;
use cpuid_model::register::UnknownFlag;

fn flag(name: &str, pos: u8) -> Field {
    Field { name: name.to_string(), kind: FieldKind::Flag, start: pos, end: pos + 1 }
}

fn range(name: &str, start: u8, end: u8) -> Field {
    Field { name: name.to_string(), kind: FieldKind::Range, start, end }
}

fn schema() -> Vec<Field> {
    vec![flag("sse", 0), flag("avx", 1), flag("fma", 2), range("count", 4, 8)]
}

fn reg(value: u128) -> FeatureRegister {
    FeatureRegister::new(8, value, schema()).unwrap()
}

#[test]
fn superset_and_subset_mirror_each_other() {
    // A register is a superset of another exactly when the other is a
    // subset of it, whichever way the flags lie.
    let cases = [(0b111, 0b101), (0b101, 0b111), (0b011, 0b011), (0b000, 0b100)];
    for (a_bits, b_bits) in cases {
        let a = reg(a_bits);
        let b = reg(b_bits);
        assert_eq!(a.superset(&b), b.subset(&a));
        assert_eq!(b.superset(&a), a.subset(&b));
    }
    assert!(reg(0b111).superset(&reg(0b101)));
    assert!(!reg(0b101).superset(&reg(0b111)));
}

#[test]
fn ranges_take_no_part_in_the_flag_algebra() {
    // The range bits differ wildly, yet only the flags decide.
    let a = reg(0b1111_0111);
    let b = reg(0b0000_0101);
    assert!(a.superset(&b));
    assert!(b.subset(&a));
}

#[test]
fn intersection_is_a_subset_of_both() {
    let a = reg(0b110);
    let b = reg(0b011);
    let i = a.intersection(&b);
    assert!(i.subset(&a));
    assert!(i.subset(&b));
    assert_eq!(i.value, 0b010);
}

#[test]
fn union_is_a_superset_of_both() {
    let a = reg(0b110);
    let b = reg(0b011);
    let u = a.union(&b);
    assert!(u.superset(&a));
    assert!(u.superset(&b));
    assert_eq!(u.value, 0b111);
}

#[test]
fn union_and_intersection_zero_the_range_bits() {
    let a = reg(0b1111_0110);
    let b = reg(0b1010_0011);
    assert_eq!(a.union(&b).value, 0b0000_0111);
    assert_eq!(a.intersection(&b).value, 0b0000_0010);
}

#[test]
fn disjoint_registers_intersect_empty() {
    let a = reg(0b101);
    let b = reg(0b010);
    assert!(a.disjoint(&b));
    assert_eq!(a.intersection(&b).value, 0);
    let c = reg(0b110);
    assert!(!a.disjoint(&c));
}

#[test]
fn flag_set_round_trip() {
    let a = reg(0b101);
    let names = a.to_flag_set();
    assert_eq!(names, vec!["sse".to_string(), "fma".to_string()]);
    let b = a.from_flag_set(&names).unwrap();
    assert_eq!(b.value, 0b101);
    assert_eq!(b.to_flag_set(), names);
}

#[test]
fn from_flag_set_rejects_unknown_names() {
    let a = reg(0);
    let err = a.from_flag_set(&vec!["sse".to_string(), "sse9".to_string()]);
    assert_eq!(err, Err(UnknownFlag));
    // A range name is no flag name either.
    assert_eq!(a.from_flag_set(&vec!["count".to_string()]), Err(UnknownFlag));
}

#[test]
fn schema_validation_names_the_offending_field() {
    assert_eq!(
        FeatureRegister::new(12, 0, vec![]).unwrap_err(),
        SchemaError::UnsupportedWidth
    );
    assert_eq!(
        FeatureRegister::new(8, 0x100, vec![]).unwrap_err(),
        SchemaError::ValueTooWide
    );
    // An empty field is rejected at definition time.
    assert_eq!(
        FeatureRegister::new(8, 0, vec![flag("a", 0), range("b", 3, 3)]).unwrap_err(),
        SchemaError::BadField { index: 1 }
    );
    // A field past the register's width is rejected.
    assert_eq!(
        FeatureRegister::new(8, 0, vec![range("a", 4, 9)]).unwrap_err(),
        SchemaError::BadField { index: 0 }
    );
    // Overlapping fields are rejected as a pair.
    assert_eq!(
        FeatureRegister::new(8, 0, vec![range("a", 0, 4), flag("b", 7), range("c", 3, 6)])
            .unwrap_err(),
        SchemaError::FieldClash { first: 0, second: 2 }
    );
}

#[test]
fn flag_reads_by_name() {
    let a = reg(0b010);
    assert_eq!(a.flag(&"sse".to_string()), Ok(false));
    assert_eq!(a.flag(&"avx".to_string()), Ok(true));
    assert_eq!(a.flag(&"nope".to_string()), Err(UnknownFlag));
    assert_eq!(a.flag(&"count".to_string()), Err(UnknownFlag));
    assert_eq!(a.field_value(&"count".to_string()), Ok(0));
    let b = reg(0b0101_0000);
    assert_eq!(b.field_value(&"count".to_string()), Ok(5));
}
