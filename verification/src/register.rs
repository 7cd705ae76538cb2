//! A named collection of bit views over one register, with the boolean-flag
//! set algebra used by compatibility checks.
//!
//! A [`FeatureRegister`] owns one backing integer of width 8, 16, 32, 64 or
//! 128 bits, together with a schema: a list of named fields, each a single
//! flag bit or a contiguous bit range. The schema is validated once, when
//! the register is built; fields never overlap and always lie inside the
//! register's width.

use vstd::prelude::*;

use crate::bitview::Bit;
use crate::bitview::BitRange;
use crate::bitview::bit_set;
use crate::bitview::low_mask;

verus! {

/// Kind of a named field inside a register.
#[derive(Debug, Clone, Copy, PartialEq, Eq, Structural)]
pub enum FieldKind {
    /// A single named boolean bit.
    Flag,
    /// A named contiguous bit span read as an unsigned integer.
    Range,
}

/// One named field of a register schema.
#[derive(Debug, PartialEq)]
pub struct Field {
    /// Name of the field, unique within its schema.
    pub name: String,
    /// Whether the field is a boolean flag or a numeric range.
    pub kind: FieldKind,
    /// Index of the lowest bit of the field.
    pub start: u8,
    /// One past the index of the highest bit of the field.
    pub end: u8,
}

impl Field {
    /// A well-formed field is non-empty, lies inside the register's width,
    /// and spans exactly one bit when it is a flag.
    pub open spec fn wf(self, width: u8) -> bool {
        &&& self.start < self.end <= width
        &&& self.kind == FieldKind::Flag ==> self.end == self.start + 1
    }

    /// The window of the field's bits.
    pub open spec fn spec_window(self) -> BitRange {
        BitRange { start: self.start, end: self.end }
    }
}

impl Clone for Field {
    fn clone(&self) -> (r: Self)
        ensures
            r == *self,
    {
        Field { name: self.name.clone(), kind: self.kind, start: self.start, end: self.end }
    }
}

/// Whether two fields occupy no common bit.
pub open spec fn fields_disjoint(a: Field, b: Field) -> bool {
    a.end <= b.start || b.end <= a.start
}

/// The register widths the model supports.
pub open spec fn valid_width(w: u8) -> bool {
    w == 8 || w == 16 || w == 32 || w == 64 || w == 128
}

/// A well-formed schema: every field well formed and no two fields sharing
/// a bit.
pub open spec fn schema_wf(fields: Seq<Field>, width: u8) -> bool {
    &&& forall|k: int| 0 <= k < fields.len() ==> (#[trigger] fields[k]).wf(width)
    &&& forall|j: int, k: int|
        0 <= j < k < fields.len() ==> fields_disjoint(#[trigger] fields[j], #[trigger] fields[k])
}

/// Rejections of a schema at definition time.
#[derive(Debug, Clone, PartialEq, Eq, Structural)]
pub enum SchemaError {
    /// The width is not one of the supported register widths.
    UnsupportedWidth,
    /// The initial value does not fit the register's width.
    ValueTooWide,
    /// A field is empty, sticks out of the register, or is a flag wider
    /// than one bit.
    BadField {
        /// Position of the offending field in the schema.
        index: usize,
    },
    /// Two fields share a bit.
    FieldClash {
        /// Position of the first of the two offending fields.
        first: usize,
        /// Position of the second of the two offending fields.
        second: usize,
    },
}

/// Rejection of a flag name that the schema does not define.
#[derive(Debug, Clone, PartialEq, Eq, Structural)]
pub struct UnknownFlag;

/// A named collection of bit views over one backing register value.
#[derive(Debug, Clone, PartialEq)]
pub struct FeatureRegister {
    /// Width of the register in bits.
    pub width: u8,
    /// The backing value; bits at or above `width` are zero.
    pub value: u128,
    /// The validated schema.
    pub fields: Vec<Field>,
}

impl FeatureRegister {
    /// The register's invariant: a supported width, a value inside it, and
    /// a well-formed schema.
    pub open spec fn wf(self) -> bool {
        &&& valid_width(self.width)
        &&& self.value <= low_mask(self.width)
        &&& schema_wf(self.fields@, self.width)
    }

    /// Whether `other` carries the same schema over the same width.
    pub open spec fn same_shape(self, other: FeatureRegister) -> bool {
        &&& self.width == other.width
        &&& self.fields@ =~= other.fields@
    }

    /// Builds a register after validating the schema; each rejected input
    /// names the offending field or pair of fields.
    #[verifier::loop_isolation(false)]
    pub fn new(width: u8, value: u128, fields: Vec<Field>) -> (r: Result<
        FeatureRegister,
        SchemaError,
    >)
        ensures
            match r {
                Ok(reg) => {
                    &&& reg.width == width
                    &&& reg.value == value
                    &&& reg.fields@ == fields@
                    &&& reg.wf()
                },
                Err(e) => match e {
                    SchemaError::UnsupportedWidth => !valid_width(width),
                    SchemaError::ValueTooWide => valid_width(width) && value > low_mask(width),
                    SchemaError::BadField { index } => {
                        &&& valid_width(width)
                        &&& value <= low_mask(width)
                        &&& index < fields@.len()
                        &&& !fields@[index as int].wf(width)
                        &&& forall|i: int| 0 <= i < index ==> (#[trigger] fields@[i]).wf(width)
                    },
                    SchemaError::FieldClash { first, second } => {
                        &&& valid_width(width)
                        &&& value <= low_mask(width)
                        &&& first < second < fields@.len()
                        &&& forall|i: int| 0 <= i < fields@.len() ==> (#[trigger] fields@[i]).wf(
                            width,
                        )
                        &&& !fields_disjoint(fields@[first as int], fields@[second as int])
                    },
                },
            },
            r is Ok <==> (valid_width(width) && value <= low_mask(width) && schema_wf(
                fields@,
                width,
            )),
    {
        if !(width == 8 || width == 16 || width == 32 || width == 64 || width == 128) {
            return Err(SchemaError::UnsupportedWidth);
        }
        let full = BitRange { start: 0, end: width };
        if value > full.max_value() {
            return Err(SchemaError::ValueTooWide);
        }
        let n = fields.len();
        let mut k: usize = 0;
        while k < n
            invariant
                n == fields@.len(),
                k <= n,
                forall|i: int| 0 <= i < k ==> (#[trigger] fields@[i]).wf(width),
            decreases n - k,
        {
            let f = &fields[k];
            let flag_bad = match f.kind {
                FieldKind::Flag => !(f.start < u8::MAX && f.end == f.start + 1),
                FieldKind::Range => false,
            };
            if !(f.start < f.end && f.end <= width) || flag_bad {
                return Err(SchemaError::BadField { index: k });
            }
            k = k + 1;
        }
        let mut j: usize = 0;
        while j < n
            invariant
                n == fields@.len(),
                j <= n,
                forall|i: int| 0 <= i < n ==> (#[trigger] fields@[i]).wf(width),
                forall|a: int, b: int|
                    0 <= a < j && a < b < n ==> fields_disjoint(
                        #[trigger] fields@[a],
                        #[trigger] fields@[b],
                    ),
            decreases n - j,
        {
            let mut k2: usize = j + 1;
            while k2 < n
                invariant
                    n == fields@.len(),
                    j < k2 || k2 == j + 1,
                    j < n,
                    k2 <= n,
                    forall|i: int| 0 <= i < n ==> (#[trigger] fields@[i]).wf(width),
                    forall|b: int|
                        j < b < k2 ==> fields_disjoint(fields@[j as int], #[trigger] fields@[b]),
                decreases n - k2,
            {
                let fj = &fields[j];
                let fk = &fields[k2];
                if !(fj.end <= fk.start || fk.end <= fj.start) {
                    return Err(SchemaError::FieldClash { first: j, second: k2 });
                }
                k2 = k2 + 1;
            }
            j = j + 1;
        }
        Ok(FeatureRegister { width, value, fields })
    }

    /// Finds the field of the given name and hands back the window of its
    /// bits; rejects a name the schema does not define.
    pub fn window(&self, name: &String) -> (r: Option<(usize, BitRange)>)
        requires
            self.wf(),
        ensures
            match r {
                Some((k, w)) => {
                    &&& k < self.fields@.len()
                    &&& self.fields@[k as int].name@ == name@
                    &&& w == self.fields@[k as int].spec_window()
                    &&& w.wf()
                },
                None => forall|i: int|
                    0 <= i < self.fields@.len() ==> (#[trigger] self.fields@[i]).name@ != name@,
            },
    {
        let n = self.fields.len();
        let mut k: usize = 0;
        while k < n
            invariant
                self.wf(),
                n == self.fields@.len(),
                k <= n,
                forall|i: int| 0 <= i < k ==> (#[trigger] self.fields@[i]).name@ != name@,
            decreases n - k,
        {
            if self.fields[k].name == *name {
                let f = &self.fields[k];
                return Some((k, BitRange { start: f.start, end: f.end }));
            }
            k = k + 1;
        }
        None
    }

    /// Reads the named boolean flag; rejects a name that the schema does
    /// not define as a flag.
    pub fn flag(&self, name: &String) -> (r: Result<bool, UnknownFlag>)
        requires
            self.wf(),
        ensures
            match r {
                Ok(b) => exists|k: int|
                    {
                        &&& 0 <= k < self.fields@.len()
                        &&& (#[trigger] self.fields@[k]).name@ == name@
                        &&& self.fields@[k].kind == FieldKind::Flag
                        &&& b == bit_set(self.value, self.fields@[k].start)
                    },
                Err(_) => forall|k: int|
                    0 <= k < self.fields@.len() ==> !((#[trigger] self.fields@[k]).name@ == name@
                        && self.fields@[k].kind == FieldKind::Flag),
            },
    {
        let n = self.fields.len();
        let mut k: usize = 0;
        while k < n
            invariant
                self.wf(),
                n == self.fields@.len(),
                k <= n,
                forall|i: int|
                    0 <= i < k ==> !((#[trigger] self.fields@[i]).name@ == name@
                        && self.fields@[i].kind == FieldKind::Flag),
            decreases n - k,
        {
            let f = &self.fields[k];
            let is_flag = match f.kind {
                FieldKind::Flag => true,
                FieldKind::Range => false,
            };
            if is_flag && f.name == *name {
                let b = Bit { pos: f.start };
                return Ok(b.read(self.value));
            }
            k = k + 1;
        }
        Err(UnknownFlag)
    }

    /// Reads the value of the named field; a flag reads as 0 or 1. Rejects
    /// a name the schema does not define.
    pub fn field_value(&self, name: &String) -> (r: Result<u128, UnknownFlag>)
        requires
            self.wf(),
        ensures
            match r {
                Ok(v) => exists|k: int|
                    {
                        &&& 0 <= k < self.fields@.len()
                        &&& (#[trigger] self.fields@[k]).name@ == name@
                        &&& v == crate::bitview::span_value(
                            self.value,
                            self.fields@[k].start,
                            self.fields@[k].end,
                        )
                    },
                Err(_) => forall|i: int|
                    0 <= i < self.fields@.len() ==> (#[trigger] self.fields@[i]).name@ != name@,
            },
    {
        match self.window(name) {
            Some((_, w)) => Ok(w.read(self.value)),
            None => Err(UnknownFlag),
        }
    }
}

} // verus!

verus! {

/// Flag `k` of the schema shared by `a` and `b` is set in `b` but not in
/// `a`: the one way `a` can fail to be a superset of `b`.
pub open spec fn flag_missing(a: FeatureRegister, b: FeatureRegister, k: int) -> bool {
    &&& 0 <= k < a.fields@.len()
    &&& a.fields@[k].kind == FieldKind::Flag
    &&& bit_set(b.value, a.fields@[k].start)
    &&& !bit_set(a.value, a.fields@[k].start)
}

/// Every flag set in `b` is set in `a`; numeric ranges take no part.
pub open spec fn superset_spec(a: FeatureRegister, b: FeatureRegister) -> bool {
    forall|k: int| !flag_missing(a, b, k)
}

/// Every flag set in `a` is set in `b`.
pub open spec fn subset_spec(a: FeatureRegister, b: FeatureRegister) -> bool {
    superset_spec(b, a)
}

/// No flag of the shared schema is set in both `a` and `b` at once.
pub open spec fn disjoint_spec(a: FeatureRegister, b: FeatureRegister) -> bool {
    forall|k: int|
        0 <= k < a.fields@.len() && (#[trigger] a.fields@[k]).kind == FieldKind::Flag ==> !(bit_set(
            a.value,
            a.fields@[k].start,
        ) && bit_set(b.value, a.fields@[k].start))
}

/// Some flag of the schema sits at bit `i`.
pub open spec fn flag_at(fields: Seq<Field>, i: u8) -> bool {
    exists|k: int|
        0 <= k < fields.len() && (#[trigger] fields[k]).kind == FieldKind::Flag && fields[k].start
            == i
}

/// Some flag of the schema bears this name.
pub open spec fn flag_defined(fields: Seq<Field>, name: Seq<char>) -> bool {
    exists|k: int|
        0 <= k < fields.len() && (#[trigger] fields[k]).kind == FieldKind::Flag
            && fields[k].name@ == name
}

/// The name appears in the given list.
pub open spec fn name_listed(names: Seq<String>, name: Seq<char>) -> bool {
    exists|m: int| 0 <= m < names.len() && (#[trigger] names[m])@ == name
}

/// The names of the flags set in `value`, in schema order.
pub open spec fn flag_names_on(fields: Seq<Field>, value: u128) -> Seq<Seq<char>>
    decreases fields.len(),
{
    if fields.len() == 0 {
        Seq::empty()
    } else {
        let rest = flag_names_on(fields.drop_last(), value);
        let f = fields.last();
        if f.kind == FieldKind::Flag && bit_set(value, f.start) {
            rest.push(f.name@)
        } else {
            rest
        }
    }
}

/// No bit is set in zero.
proof fn lemma_zero_bits()
    ensures
        forall|i: u8| !bit_set(0u128, i),
{
    assert forall|i: u8| !bit_set(0u128, i) by {
        assert(i < 128 ==> (0u128 >> i) & 1 == 0) by (bit_vector);
    }
}

impl FeatureRegister {
    /// Copies the schema, field for field.
    pub fn clone_fields(&self) -> (r: Vec<Field>)
        ensures
            r@ == self.fields@,
    {
        let n = self.fields.len();
        let mut r: Vec<Field> = Vec::new();
        let mut k: usize = 0;
        while k < n
            invariant
                n == self.fields@.len(),
                k <= n,
                r@ =~= self.fields@.take(k as int),
            decreases n - k,
        {
            r.push(self.fields[k].clone());
            k = k + 1;
        }
        proof {
            assert(r@ =~= self.fields@);
        }
        r
    }

    /// Finds the first flag that `other` has set and `self` has clear, if
    /// any: the witness that `self` is no superset of `other`.
    #[verifier::loop_isolation(false)]
    pub fn superset_missing(&self, other: &FeatureRegister) -> (r: Option<usize>)
        requires
            self.wf(),
            other.wf(),
            self.same_shape(*other),
        ensures
            match r {
                Some(k) => flag_missing(*self, *other, k as int) && forall|j: int|
                    0 <= j < k ==> !flag_missing(*self, *other, j),
                None => superset_spec(*self, *other),
            },
    {
        let n = self.fields.len();
        let mut k: usize = 0;
        while k < n
            invariant
                k <= n,
                forall|j: int| 0 <= j < k ==> !flag_missing(*self, *other, j),
            decreases n - k,
        {
            let f = &self.fields[k];
            let is_flag = match f.kind {
                FieldKind::Flag => true,
                FieldKind::Range => false,
            };
            if is_flag {
                let b = Bit { pos: f.start };
                if b.read(other.value) && !b.read(self.value) {
                    return Some(k);
                }
            }
            k = k + 1;
        }
        None
    }

    /// For every boolean flag that `other` has set, `self` has it set too.
    pub fn superset(&self, other: &FeatureRegister) -> (r: bool)
        requires
            self.wf(),
            other.wf(),
            self.same_shape(*other),
        ensures
            r == superset_spec(*self, *other),
    {
        self.superset_missing(other).is_none()
    }

    /// For every boolean flag that `self` has set, `other` has it set too.
    pub fn subset(&self, other: &FeatureRegister) -> (r: bool)
        requires
            self.wf(),
            other.wf(),
            self.same_shape(*other),
        ensures
            r == subset_spec(*self, *other),
    {
        other.superset(self)
    }

    /// No boolean flag is set in both `self` and `other` at once.
    #[verifier::loop_isolation(false)]
    pub fn disjoint(&self, other: &FeatureRegister) -> (r: bool)
        requires
            self.wf(),
            other.wf(),
            self.same_shape(*other),
        ensures
            r == disjoint_spec(*self, *other),
    {
        let n = self.fields.len();
        let mut k: usize = 0;
        while k < n
            invariant
                k <= n,
                forall|j: int|
                    0 <= j < k && (#[trigger] self.fields@[j]).kind == FieldKind::Flag ==> !(
                    bit_set(self.value, self.fields@[j].start) && bit_set(
                        other.value,
                        self.fields@[j].start,
                    )),
            decreases n - k,
        {
            let f = &self.fields[k];
            let is_flag = match f.kind {
                FieldKind::Flag => true,
                FieldKind::Range => false,
            };
            if is_flag {
                let b = Bit { pos: f.start };
                if b.read(self.value) && b.read(other.value) {
                    return false;
                }
            }
            k = k + 1;
        }
        true
    }

    /// Builds a fresh zero register of the shared shape, then sets each
    /// flag that `self` or `other` has set; ranges are not merged.
    #[verifier::loop_isolation(false)]
    pub fn union(&self, other: &FeatureRegister) -> (r: FeatureRegister)
        requires
            self.wf(),
            other.wf(),
            self.same_shape(*other),
        ensures
            r.width == self.width,
            r.fields@ == self.fields@,
            r.wf(),
            forall|i: u8|
                #[trigger] bit_set(r.value, i) <==> (flag_at(self.fields@, i) && (bit_set(
                    self.value,
                    i,
                ) || bit_set(other.value, i))),
    {
        let n = self.fields.len();
        let mut value: u128 = 0;
        proof {
            lemma_zero_bits();
        }
        let mut k: usize = 0;
        while k < n
            invariant
                k <= n,
                value <= low_mask(self.width),
                forall|i: u8|
                    #[trigger] bit_set(value, i) <==> exists|m: int|
                        {
                            &&& 0 <= m < k
                            &&& (#[trigger] self.fields@[m]).kind == FieldKind::Flag
                            &&& self.fields@[m].start == i
                            &&& bit_set(self.value, i) || bit_set(other.value, i)
                        },
            decreases n - k,
        {
            let f = &self.fields[k];
            let is_flag = match f.kind {
                FieldKind::Flag => true,
                FieldKind::Range => false,
            };
            if is_flag {
                let b = Bit { pos: f.start };
                if b.read(self.value) || b.read(other.value) {
                    let ghost prev = value;
                    b.on(&mut value);
                    proof {
                        crate::bitview::lemma_update_keeps_width(
                            prev,
                            value,
                            f.start,
                            (f.start + 1) as u8,
                            self.width,
                        );
                    }
                }
            }
            k = k + 1;
        }
        FeatureRegister { width: self.width, value, fields: self.clone_fields() }
    }

    /// Builds a fresh zero register of the shared shape, then sets each
    /// flag that `self` and `other` both have set; ranges are not merged.
    #[verifier::loop_isolation(false)]
    pub fn intersection(&self, other: &FeatureRegister) -> (r: FeatureRegister)
        requires
            self.wf(),
            other.wf(),
            self.same_shape(*other),
        ensures
            r.width == self.width,
            r.fields@ == self.fields@,
            r.wf(),
            forall|i: u8|
                #[trigger] bit_set(r.value, i) <==> (flag_at(self.fields@, i) && bit_set(
                    self.value,
                    i,
                ) && bit_set(other.value, i)),
    {
        let n = self.fields.len();
        let mut value: u128 = 0;
        proof {
            lemma_zero_bits();
        }
        let mut k: usize = 0;
        while k < n
            invariant
                k <= n,
                value <= low_mask(self.width),
                forall|i: u8|
                    #[trigger] bit_set(value, i) <==> exists|m: int|
                        {
                            &&& 0 <= m < k
                            &&& (#[trigger] self.fields@[m]).kind == FieldKind::Flag
                            &&& self.fields@[m].start == i
                            &&& bit_set(self.value, i) && bit_set(other.value, i)
                        },
            decreases n - k,
        {
            let f = &self.fields[k];
            let is_flag = match f.kind {
                FieldKind::Flag => true,
                FieldKind::Range => false,
            };
            if is_flag {
                let b = Bit { pos: f.start };
                if b.read(self.value) && b.read(other.value) {
                    let ghost prev = value;
                    b.on(&mut value);
                    proof {
                        crate::bitview::lemma_update_keeps_width(
                            prev,
                            value,
                            f.start,
                            (f.start + 1) as u8,
                            self.width,
                        );
                    }
                }
            }
            k = k + 1;
        }
        FeatureRegister { width: self.width, value, fields: self.clone_fields() }
    }
}

} // verus!

verus! {

impl FeatureRegister {
    /// The names of the flags this register has set, in schema order.
    #[verifier::loop_isolation(false)]
    pub fn to_flag_set(&self) -> (r: Vec<String>)
        requires
            self.wf(),
        ensures
            r@.map_values(|s: String| s@) == flag_names_on(self.fields@, self.value),
    {
        let n = self.fields.len();
        let mut r: Vec<String> = Vec::new();
        let mut k: usize = 0;
        while k < n
            invariant
                k <= n,
                r@.map_values(|s: String| s@) =~= flag_names_on(
                    self.fields@.take(k as int),
                    self.value,
                ),
            decreases n - k,
        {
            let f = &self.fields[k];
            let is_flag = match f.kind {
                FieldKind::Flag => true,
                FieldKind::Range => false,
            };
            if is_flag {
                let b = Bit { pos: f.start };
                if b.read(self.value) {
                    r.push(f.name.clone());
                }
            }
            proof {
                assert(self.fields@.take(k + 1).drop_last() =~= self.fields@.take(k as int));
                assert(r@.map_values(|s: String| s@) =~= flag_names_on(
                    self.fields@.take(k + 1),
                    self.value,
                ));
            }
            k = k + 1;
        }
        proof {
            assert(self.fields@.take(n as int) =~= self.fields@);
        }
        r
    }

    /// Builds a fresh register of this register's shape whose set flags are
    /// exactly the named ones; rejects a name that the schema does not
    /// define as a flag rather than silently ignoring it.
    /// A set of flag names denotes a register only when the schema gives
    /// its flags distinct names, so that is asked of the schema here.
    #[verifier::loop_isolation(false)]
    pub fn from_flag_set(&self, names: &Vec<String>) -> (r: Result<FeatureRegister, UnknownFlag>)
        requires
            self.wf(),
            forall|j: int, k: int|
                0 <= j < k < self.fields@.len() ==> !((#[trigger] self.fields@[j]).kind
                    == FieldKind::Flag && (#[trigger] self.fields@[k]).kind == FieldKind::Flag
                    && self.fields@[j].name@ == self.fields@[k].name@),
        ensures
            r is Ok <==> (forall|m: int|
                0 <= m < names@.len() ==> flag_defined(self.fields@, (#[trigger] names@[m])@)),
            match r {
                Ok(reg) => {
                    &&& reg.width == self.width
                    &&& reg.fields@ == self.fields@
                    &&& reg.wf()
                    &&& (forall|i: u8|
                        #[trigger] bit_set(reg.value, i) <==> exists|k: int|
                            {
                                &&& 0 <= k < self.fields@.len()
                                &&& (#[trigger] self.fields@[k]).kind == FieldKind::Flag
                                &&& self.fields@[k].start == i
                                &&& name_listed(names@, self.fields@[k].name@)
                            })
                },
                Err(_) => true,
            },
    {
        let n_names = names.len();
        let n = self.fields.len();
        let mut value: u128 = 0;
        proof {
            lemma_zero_bits();
        }
        let mut m: usize = 0;
        while m < n_names
            invariant
                m <= n_names,
                value <= low_mask(self.width),
                forall|mm: int|
                    0 <= mm < m ==> flag_defined(self.fields@, (#[trigger] names@[mm])@),
                forall|i: u8|
                    #[trigger] bit_set(value, i) <==> exists|k: int|
                        {
                            &&& 0 <= k < self.fields@.len()
                            &&& (#[trigger] self.fields@[k]).kind == FieldKind::Flag
                            &&& self.fields@[k].start == i
                            &&& exists|mm: int|
                                0 <= mm < m && (#[trigger] names@[mm])@ == self.fields@[k].name@
                        },
            decreases n_names - m,
        {
            let name = &names[m];
            let mut k: usize = 0;
            let mut found = false;
            while k < n && !found
                invariant
                    k <= n,
                    !found ==> forall|j: int|
                        0 <= j < k ==> !((#[trigger] self.fields@[j]).kind == FieldKind::Flag
                            && self.fields@[j].name@ == names@[m as int]@),
                    found ==> {
                        &&& k < n
                        &&& self.fields@[k as int].kind == FieldKind::Flag
                        &&& self.fields@[k as int].name@ == names@[m as int]@
                    },
                decreases n - k, (if found { 0int } else { 1int }),
            {
                let f = &self.fields[k];
                let is_flag = match f.kind {
                    FieldKind::Flag => true,
                    FieldKind::Range => false,
                };
                if is_flag && f.name == *name {
                    found = true;
                } else {
                    k = k + 1;
                }
            }
            if !found {
                return Err(UnknownFlag);
            }
            let f = &self.fields[k];
            let b = Bit { pos: f.start };
            let ghost prev = value;
            b.on(&mut value);
            proof {
                crate::bitview::lemma_update_keeps_width(
                    prev,
                    value,
                    f.start,
                    (f.start + 1) as u8,
                    self.width,
                );
            }
            m = m + 1;
        }
        Ok(FeatureRegister { width: self.width, value, fields: self.clone_fields() })
    }
}

/// A register is a superset of another exactly when the other is a subset
/// of it.
pub proof fn lemma_superset_subset(a: FeatureRegister, b: FeatureRegister)
    ensures
        superset_spec(a, b) == subset_spec(b, a),
{
}

/// The intersection of two registers of one shape is a subset of each of
/// them.
///
/// `c` is any register whose bits are as `intersection` describes its
/// result.
pub proof fn lemma_intersection_subset(a: FeatureRegister, b: FeatureRegister, c: FeatureRegister)
    requires
        a.wf(),
        b.wf(),
        a.same_shape(b),
        c.width == a.width,
        c.fields@ == a.fields@,
        forall|i: u8|
            #[trigger] bit_set(c.value, i) <==> (flag_at(a.fields@, i) && bit_set(a.value, i)
                && bit_set(b.value, i)),
    ensures
        subset_spec(c, a),
        subset_spec(c, b),
{
    assert forall|k: int| !flag_missing(a, c, k) && !flag_missing(b, c, k) by {
        if 0 <= k < a.fields@.len() && a.fields@[k].kind == FieldKind::Flag {
            if bit_set(c.value, a.fields@[k].start) {
                assert(bit_set(a.value, a.fields@[k].start));
                assert(bit_set(b.value, a.fields@[k].start));
            }
        }
    }
}

/// The union of two registers of one shape is a superset of each of them.
///
/// `c` is any register whose bits are as `union` describes its result.
pub proof fn lemma_union_superset(a: FeatureRegister, b: FeatureRegister, c: FeatureRegister)
    requires
        a.wf(),
        b.wf(),
        a.same_shape(b),
        c.width == a.width,
        c.fields@ == a.fields@,
        forall|i: u8|
            #[trigger] bit_set(c.value, i) <==> (flag_at(a.fields@, i) && (bit_set(a.value, i)
                || bit_set(b.value, i))),
    ensures
        superset_spec(c, a),
        superset_spec(c, b),
{
    assert forall|k: int| !flag_missing(c, a, k) && !flag_missing(c, b, k) by {
        if 0 <= k < c.fields@.len() && c.fields@[k].kind == FieldKind::Flag {
            let i = c.fields@[k].start;
            if bit_set(a.value, i) || bit_set(b.value, i) {
                assert(flag_at(a.fields@, i));
                assert(bit_set(c.value, i));
            }
        }
    }
}

/// Two disjoint registers of one shape intersect in a register with no
/// flag set.
///
/// `c` is any register whose bits are as `intersection` describes its
/// result.
pub proof fn lemma_disjoint_intersection_empty(
    a: FeatureRegister,
    b: FeatureRegister,
    c: FeatureRegister,
)
    requires
        a.wf(),
        b.wf(),
        a.same_shape(b),
        disjoint_spec(a, b),
        c.fields@ == a.fields@,
        forall|i: u8|
            #[trigger] bit_set(c.value, i) <==> (flag_at(a.fields@, i) && bit_set(a.value, i)
                && bit_set(b.value, i)),
    ensures
        forall|k: int|
            0 <= k < c.fields@.len() && (#[trigger] c.fields@[k]).kind == FieldKind::Flag
                ==> !bit_set(c.value, c.fields@[k].start),
{
    assert forall|k: int|
        0 <= k < c.fields@.len() && (#[trigger] c.fields@[k]).kind
            == FieldKind::Flag implies !bit_set(c.value, c.fields@[k].start) by {
        let i = c.fields@[k].start;
        if bit_set(c.value, i) {
            assert(bit_set(a.value, i) && bit_set(b.value, i));
            assert(false);
        }
    }
}

} // verus!

verus! {

/// Every field of the schema ends at or below `bound`: the invariant of
/// building a schema in ascending bit order.
pub open spec fn fields_below(fields: Seq<Field>, bound: u8) -> bool {
    forall|k: int| 0 <= k < fields.len() ==> (#[trigger] fields[k]).end <= bound
}

/// Appends a one-bit flag to a schema built in ascending bit order.
pub fn add_flag(fields: &mut Vec<Field>, name: &str, pos: u8, width: u8)
    requires
        pos < width <= 128,
        schema_wf(old(fields)@, width),
        fields_below(old(fields)@, pos),
    ensures
        schema_wf(final(fields)@, width),
        fields_below(final(fields)@, (pos + 1) as u8),
        final(fields)@.len() == old(fields)@.len() + 1,
        forall|k: int| 0 <= k < old(fields)@.len() ==> final(fields)@[k] == old(fields)@[k],
        final(fields)@.last().kind == FieldKind::Flag,
        final(fields)@.last().start == pos,
        final(fields)@.last().end == pos + 1,
        final(fields)@.last().name@ == name@,
{
    fields.push(
        Field { name: name.to_owned(), kind: FieldKind::Flag, start: pos, end: pos + 1 },
    );
}

/// Appends a multi-bit range to a schema built in ascending bit order.
pub fn add_range(fields: &mut Vec<Field>, name: &str, start: u8, end: u8, width: u8)
    requires
        start < end <= width <= 128,
        schema_wf(old(fields)@, width),
        fields_below(old(fields)@, start),
    ensures
        schema_wf(final(fields)@, width),
        fields_below(final(fields)@, end),
        final(fields)@.len() == old(fields)@.len() + 1,
        forall|k: int| 0 <= k < old(fields)@.len() ==> final(fields)@[k] == old(fields)@[k],
        final(fields)@.last().kind == FieldKind::Range,
        final(fields)@.last().start == start,
        final(fields)@.last().end == end,
        final(fields)@.last().name@ == name@,
{
    fields.push(Field { name: name.to_owned(), kind: FieldKind::Range, start, end });
}

} // verus!
