//! Bit-exact, overflow-checked access to one bit or one contiguous span of
//! bits inside a fixed-width unsigned integer.
//!
//! Registers of every supported width (8, 16, 32, 64 or 128 bits) are backed
//! by a `u128` whose bits above the width stay zero. A [`Bit`] or a
//! [`BitRange`] is a typed window `(start, end)` into such a backing value;
//! it never owns the data, so the register keeps exclusive ownership.

use vstd::prelude::*;

verus! {

/// The mask with the low `n` bits set; all ones once `n` reaches 128.
pub open spec fn low_mask(n: u8) -> u128 {
    if n >= 128 {
        u128::MAX
    } else {
        ((1u128 << n) - 1) as u128
    }
}

/// The mask selecting exactly the bits `start <= i < end`.
pub open spec fn span_mask(start: u8, end: u8) -> u128 {
    !low_mask(start) & low_mask(end)
}

/// Whether bit `i` of `data` is set.
pub open spec fn bit_set(data: u128, i: u8) -> bool {
    i < 128 && (data >> i) & 1 == 1
}

/// The unsigned value stored in the bits `start <= i < end` of `data`.
pub open spec fn span_value(data: u128, start: u8, end: u8) -> u128
    recommends
        start < 128,
{
    (data & span_mask(start, end)) >> start
}

/// Bit mask over a `u8` register image: the bits `start <= i < end` of a
/// value whose width is 8.
pub fn mask_u8(start: u8, end: u8) -> (r: u8)
    ensures
        r == span_mask(start, end) as u8,
{
    proof {
        assert(start < 8 ==> 1u8 << start >= 1) by (bit_vector);
        assert(end < 8 ==> 1u8 << end >= 1) by (bit_vector);
    }
    let front: u8 = if start >= 8 { u8::MAX } else { (1u8 << start) - 1 };
    let back: u8 = if end >= 8 { u8::MAX } else { (1u8 << end) - 1 };
    proof {
        assert(!front & back == span_mask(start, end) as u8) by (bit_vector)
            requires
                front == (if start >= 8 { u8::MAX } else { ((1u8 << start) - 1) as u8 }),
                back == (if end >= 8 { u8::MAX } else { ((1u8 << end) - 1) as u8 }),
        ;
    }
    !front & back
}

/// Bit mask over a `u16` register image.
pub fn mask_u16(start: u8, end: u8) -> (r: u16)
    ensures
        r == span_mask(start, end) as u16,
{
    proof {
        assert(start < 16 ==> 1u16 << start >= 1) by (bit_vector);
        assert(end < 16 ==> 1u16 << end >= 1) by (bit_vector);
    }
    let front: u16 = if start >= 16 { u16::MAX } else { (1u16 << start) - 1 };
    let back: u16 = if end >= 16 { u16::MAX } else { (1u16 << end) - 1 };
    proof {
        assert(!front & back == span_mask(start, end) as u16) by (bit_vector)
            requires
                front == (if start >= 16 { u16::MAX } else { ((1u16 << start) - 1) as u16 }),
                back == (if end >= 16 { u16::MAX } else { ((1u16 << end) - 1) as u16 }),
        ;
    }
    !front & back
}

/// Bit mask over a `u32` register image.
pub fn mask_u32(start: u8, end: u8) -> (r: u32)
    ensures
        r == span_mask(start, end) as u32,
{
    proof {
        assert(start < 32 ==> 1u32 << start >= 1) by (bit_vector);
        assert(end < 32 ==> 1u32 << end >= 1) by (bit_vector);
    }
    let front: u32 = if start >= 32 { u32::MAX } else { (1u32 << start) - 1 };
    let back: u32 = if end >= 32 { u32::MAX } else { (1u32 << end) - 1 };
    proof {
        assert(!front & back == span_mask(start, end) as u32) by (bit_vector)
            requires
                front == (if start >= 32 { u32::MAX } else { ((1u32 << start) - 1) as u32 }),
                back == (if end >= 32 { u32::MAX } else { ((1u32 << end) - 1) as u32 }),
        ;
    }
    !front & back
}

/// Bit mask over a `u64` register image.
pub fn mask_u64(start: u8, end: u8) -> (r: u64)
    ensures
        r == span_mask(start, end) as u64,
{
    proof {
        assert(start < 64 ==> 1u64 << start >= 1) by (bit_vector);
        assert(end < 64 ==> 1u64 << end >= 1) by (bit_vector);
    }
    let front: u64 = if start >= 64 { u64::MAX } else { (1u64 << start) - 1 };
    let back: u64 = if end >= 64 { u64::MAX } else { (1u64 << end) - 1 };
    proof {
        assert(!front & back == span_mask(start, end) as u64) by (bit_vector)
            requires
                front == (if start >= 64 { u64::MAX } else { ((1u64 << start) - 1) as u64 }),
                back == (if end >= 64 { u64::MAX } else { ((1u64 << end) - 1) as u64 }),
        ;
    }
    !front & back
}

/// Bit mask over a full `u128` register image.
pub fn mask_u128(start: u8, end: u8) -> (r: u128)
    ensures
        r == span_mask(start, end),
{
    proof {
        assert(start < 128 ==> 1u128 << start >= 1) by (bit_vector);
        assert(end < 128 ==> 1u128 << end >= 1) by (bit_vector);
    }
    let front: u128 = if start >= 128 { u128::MAX } else { (1u128 << start) - 1 };
    let back: u128 = if end >= 128 { u128::MAX } else { (1u128 << end) - 1 };
    !front & back
}

} // verus!

verus! {

/// Error of a checked assignment: the given value does not fit the span.
#[derive(Debug, PartialEq, Eq, Structural)]
pub struct CheckedAssignErr;

/// Errors of a checked in-place addition on a span.
#[derive(Debug, Clone, PartialEq, Eq, Structural)]
pub enum CheckedAddAssignErr {
    /// The addition would overflow the span.
    Overflow,
    /// The given value is larger than any value the span can hold.
    OutOfRange,
}

/// Errors of a checked in-place subtraction on a span.
#[derive(Debug, Clone, PartialEq, Eq, Structural)]
pub enum CheckedSubAssignErr {
    /// The subtraction would underflow the span.
    Underflow,
    /// The given value is larger than any value the span can hold.
    OutOfRange,
}

/// A typed window onto one contiguous span of bits of a backing register.
///
/// The window is `start <= i < end`; the register that owns the backing
/// value passes it to each operation, so the window itself holds no data.
#[derive(Debug, Clone, Copy, PartialEq, Eq, Structural)]
pub struct BitRange {
    /// Index of the lowest bit of the span.
    pub start: u8,
    /// One past the index of the highest bit of the span.
    pub end: u8,
}

/// A typed window onto one single bit of a backing register.
#[derive(Debug, Clone, Copy, PartialEq, Eq, Structural)]
pub struct Bit {
    /// Index of the bit.
    pub pos: u8,
}

/// Writing `x << start` into a span that can hold `x` keeps every bit
/// outside the span and makes the span read back as `x`.
proof fn lemma_masked_store(d: u128, d2: u128, start: u8, end: u8, x: u128)
    by (bit_vector)
    requires
        start < end <= 128,
        x <= low_mask((end - start) as u8),
        d2 == (d & !span_mask(start, end)) | (x << start),
    ensures
        span_value(d2, start, end) == x,
        d2 & !span_mask(start, end) == d & !span_mask(start, end),
{
}

/// A span's value never exceeds the largest value of its width.
pub proof fn lemma_span_value_bound(d: u128, start: u8, end: u8)
    by (bit_vector)
    requires
        start < end <= 128,
    ensures
        span_value(d, start, end) <= low_mask((end - start) as u8),
{
}

/// Adding `x << start` to the backing value carries no bit out of the span
/// when the span's new value still fits, so every bit outside the span is
/// kept and the span reads back as the sum.
#[verifier::rlimit(100)]
#[verifier::spinoff_prover]
proof fn lemma_span_add(d: u128, start: u8, end: u8, x: u128)
    by (bit_vector)
    requires
        start < end <= 128,
        x <= low_mask((end - start) as u8),
        span_value(d, start, end) + x <= low_mask((end - start) as u8),
    ensures
        d + (x << start) <= u128::MAX,
        span_value((d + (x << start)) as u128, start, end) == span_value(d, start, end) + x,
        ((d + (x << start)) as u128) & !span_mask(start, end) == d & !span_mask(start, end),
{
}

/// An update that keeps every bit outside a span lying below `width` also
/// keeps the backing value below `2^width`.
pub proof fn lemma_update_keeps_width(d: u128, d2: u128, start: u8, end: u8, width: u8)
    by (bit_vector)
    requires
        start < end <= width <= 128,
        d <= low_mask(width),
        d2 & !span_mask(start, end) == d & !span_mask(start, end),
    ensures
        d2 <= low_mask(width),
{
}

impl BitRange {
    /// A well-formed span is non-empty and lies inside the widest register.
    pub open spec fn wf(self) -> bool {
        self.start < self.end <= 128
    }

    /// Number of bits in the span.
    pub open spec fn spec_width(self) -> u8
        recommends
            self.wf(),
    {
        (self.end - self.start) as u8
    }

    /// The largest value the span can hold.
    pub fn max_value(&self) -> (r: u128)
        requires
            self.wf(),
        ensures
            r == low_mask(self.spec_width()),
    {
        let n: u8 = self.end - self.start;
        if n >= 128 {
            u128::MAX
        } else {
            proof {
                assert(n < 128 ==> 1u128 << n >= 1) by (bit_vector);
            }
            (1u128 << n) - 1
        }
    }

    /// Reads the value held by the span of `data`.
    pub fn read(&self, data: u128) -> (r: u128)
        requires
            self.wf(),
        ensures
            r == span_value(data, self.start, self.end),
            r <= low_mask(self.spec_width()),
    {
        proof {
            lemma_span_value_bound(data, self.start, self.end);
        }
        (data & mask_u128(self.start, self.end)) >> self.start
    }

    /// Replaces the span of `data` with `x`, leaving every other bit of
    /// `data` unchanged; rejects an `x` the span cannot hold.
    pub fn checked_assign(&self, data: &mut u128, x: u128) -> (r: Result<(), CheckedAssignErr>)
        requires
            self.wf(),
        ensures
            match r {
                Ok(()) => {
                    &&& x <= low_mask(self.spec_width())
                    &&& span_value(*final(data), self.start, self.end) == x
                    &&& *final(data) & !span_mask(self.start, self.end) == *old(data) & !span_mask(
                        self.start,
                        self.end,
                    )
                },
                Err(_) => {
                    &&& x > low_mask(self.spec_width())
                    &&& *final(data) == *old(data)
                },
            },
    {
        if x > self.max_value() {
            Err(CheckedAssignErr)
        } else {
            let d2: u128 = (*data & !mask_u128(self.start, self.end)) | (x << self.start);
            proof {
                lemma_masked_store(*data, d2, self.start, self.end, x);
            }
            *data = d2;
            Ok(())
        }
    }

    /// Adds `x` to the value held by the span of `data`, leaving every other
    /// bit unchanged; rejects an `x` the span cannot hold, and an addition
    /// whose result the span cannot hold.
    pub fn checked_add_assign(&self, data: &mut u128, x: u128) -> (r: Result<
        (),
        CheckedAddAssignErr,
    >)
        requires
            self.wf(),
        ensures
            match r {
                Ok(()) => {
                    &&& x <= low_mask(self.spec_width())
                    &&& span_value(*old(data), self.start, self.end) + x <= low_mask(
                        self.spec_width(),
                    )
                    &&& span_value(*final(data), self.start, self.end) == span_value(
                        *old(data),
                        self.start,
                        self.end,
                    ) + x
                    &&& *final(data) & !span_mask(self.start, self.end) == *old(data) & !span_mask(
                        self.start,
                        self.end,
                    )
                },
                Err(CheckedAddAssignErr::OutOfRange) => {
                    &&& x > low_mask(self.spec_width())
                    &&& *final(data) == *old(data)
                },
                Err(CheckedAddAssignErr::Overflow) => {
                    &&& x <= low_mask(self.spec_width())
                    &&& span_value(*old(data), self.start, self.end) + x > low_mask(
                        self.spec_width(),
                    )
                    &&& *final(data) == *old(data)
                },
            },
    {
        let cap: u128 = self.max_value();
        if x > cap {
            Err(CheckedAddAssignErr::OutOfRange)
        } else {
            let cur: u128 = self.read(*data);
            if x <= cap - cur {
                proof {
                    lemma_span_add(*data, self.start, self.end, x);
                }
                *data = *data + (x << self.start);
                Ok(())
            } else {
                Err(CheckedAddAssignErr::Overflow)
            }
        }
    }

    /// Subtracts `x` from the value held by the span of `data`, leaving
    /// every other bit unchanged; rejects an `x` the span cannot hold, and a
    /// subtraction that would fall below zero.
    pub fn checked_sub_assign(&self, data: &mut u128, x: u128) -> (r: Result<
        (),
        CheckedSubAssignErr,
    >)
        requires
            self.wf(),
        ensures
            match r {
                Ok(()) => {
                    &&& x <= low_mask(self.spec_width())
                    &&& x <= span_value(*old(data), self.start, self.end)
                    &&& span_value(*final(data), self.start, self.end) == span_value(
                        *old(data),
                        self.start,
                        self.end,
                    ) - x
                    &&& *final(data) & !span_mask(self.start, self.end) == *old(data) & !span_mask(
                        self.start,
                        self.end,
                    )
                },
                Err(CheckedSubAssignErr::OutOfRange) => {
                    &&& x > low_mask(self.spec_width())
                    &&& *final(data) == *old(data)
                },
                Err(CheckedSubAssignErr::Underflow) => {
                    &&& x <= low_mask(self.spec_width())
                    &&& x > span_value(*old(data), self.start, self.end)
                    &&& *final(data) == *old(data)
                },
            },
    {
        let cap: u128 = self.max_value();
        if x > cap {
            Err(CheckedSubAssignErr::OutOfRange)
        } else {
            let cur: u128 = self.read(*data);
            if x <= cur {
                let d2: u128 = (*data & !mask_u128(self.start, self.end)) | ((cur - x)
                    << self.start);
                proof {
                    lemma_masked_store(*data, d2, self.start, self.end, (cur - x) as u128);
                }
                *data = d2;
                Ok(())
            } else {
                Err(CheckedSubAssignErr::Underflow)
            }
        }
    }

    /// The window's bits of the backing value, in place and unshifted:
    /// the data the window gives access to.
    pub fn data(&self, value: u128) -> (r: u128)
        requires
            self.wf(),
        ensures
            r == value & span_mask(self.start, self.end),
            span_value(r, self.start, self.end) == span_value(value, self.start, self.end),
    {
        proof {
            let s = self.start;
            let e = self.end;
            assert(span_value(value & span_mask(s, e), s, e) == span_value(value, s, e))
                by (bit_vector)
                requires
                    s < e <= 128,
            ;
        }
        value & mask_u128(self.start, self.end)
    }

    /// Replaces the window's bits of the backing value in place with
    /// `bits`, which must lie inside the window; every other bit of the
    /// backing value is unchanged.
    pub fn data_mut(&self, value: &mut u128, bits: u128)
        requires
            self.wf(),
            bits & !span_mask(self.start, self.end) == 0,
        ensures
            *final(value) == (*old(value) & !span_mask(self.start, self.end)) | bits,
            *final(value) & !span_mask(self.start, self.end) == *old(value) & !span_mask(
                self.start,
                self.end,
            ),
    {
        let d2: u128 = (*value & !mask_u128(self.start, self.end)) | bits;
        proof {
            let s = self.start;
            let e = self.end;
            let d = *value;
            assert((d & !span_mask(s, e) | bits) & !span_mask(s, e) == d & !span_mask(s, e))
                by (bit_vector)
                requires
                    s < e <= 128,
                    bits & !span_mask(s, e) == 0,
            ;
        }
        *value = d2;
    }
}

impl Bit {
    /// A well-formed bit window lies inside the widest register.
    pub open spec fn wf(self) -> bool {
        self.pos < 128
    }

    /// The window's bit of the backing value, in place and unshifted.
    pub fn data(&self, value: u128) -> (r: u128)
        requires
            self.wf(),
        ensures
            r == value & span_mask(self.pos, (self.pos + 1) as u8),
            bit_set(r, self.pos) == bit_set(value, self.pos),
    {
        proof {
            let p = self.pos;
            assert(bit_set(value & span_mask(p, (p + 1) as u8), p) == bit_set(value, p))
                by (bit_vector)
                requires
                    p < 128,
            ;
        }
        value & mask_u128(self.pos, self.pos + 1)
    }

    /// Replaces the window's bit of the backing value in place with the
    /// bit of `bits`, which must lie inside the window; every other bit of
    /// the backing value is unchanged.
    pub fn data_mut(&self, value: &mut u128, bits: u128)
        requires
            self.wf(),
            bits & !span_mask(self.pos, (self.pos + 1) as u8) == 0,
        ensures
            *final(value) == (*old(value) & !span_mask(self.pos, (self.pos + 1) as u8)) | bits,
            *final(value) & !span_mask(self.pos, (self.pos + 1) as u8) == *old(value) & !span_mask(
                self.pos,
                (self.pos + 1) as u8,
            ),
    {
        let d2: u128 = (*value & !mask_u128(self.pos, self.pos + 1)) | bits;
        proof {
            let p = self.pos;
            let d = *value;
            assert((d & !span_mask(p, (p + 1) as u8) | bits) & !span_mask(p, (p + 1) as u8) == d
                & !span_mask(p, (p + 1) as u8)) by (bit_vector)
                requires
                    p < 128,
                    bits & !span_mask(p, (p + 1) as u8) == 0,
            ;
        }
        *value = d2;
    }

    /// Reads the bit of `data`.
    pub fn read(&self, data: u128) -> (r: bool)
        requires
            self.wf(),
        ensures
            r == bit_set(data, self.pos),
    {
        (data >> self.pos) & 1 == 1
    }

    /// Sets the bit of `data`, leaving every other bit unchanged.
    pub fn on(&self, data: &mut u128)
        requires
            self.wf(),
        ensures
            bit_set(*final(data), self.pos),
            *final(data) & !span_mask(self.pos, (self.pos + 1) as u8) == *old(data) & !span_mask(
                self.pos,
                (self.pos + 1) as u8,
            ),
            forall|i: u8| i < 128 && i != self.pos ==> bit_set(*final(data), i) == bit_set(
                *old(data),
                i,
            ),
    {
        let d2: u128 = *data | (1u128 << self.pos);
        proof {
            let p = self.pos;
            let d = *data;
            assert(bit_set(d2, p) && d2 & !span_mask(p, (p + 1) as u8) == d & !span_mask(
                p,
                (p + 1) as u8,
            )) by (bit_vector)
                requires
                    p < 128,
                    d2 == d | (1u128 << p),
            ;
            assert forall|i: u8| i < 128 && i != p implies bit_set(d2, i) == bit_set(d, i) by {
                assert((d2 >> i) & 1 == (d >> i) & 1) by (bit_vector)
                    requires
                        p < 128,
                        i < 128,
                        i != p,
                        d2 == d | (1u128 << p),
                ;
            }
        }
        *data = d2;
    }

    /// Clears the bit of `data`, leaving every other bit unchanged.
    pub fn off(&self, data: &mut u128)
        requires
            self.wf(),
        ensures
            !bit_set(*final(data), self.pos),
            *final(data) & !span_mask(self.pos, (self.pos + 1) as u8) == *old(data) & !span_mask(
                self.pos,
                (self.pos + 1) as u8,
            ),
            forall|i: u8| i < 128 && i != self.pos ==> bit_set(*final(data), i) == bit_set(
                *old(data),
                i,
            ),
    {
        let d2: u128 = *data & !(1u128 << self.pos);
        proof {
            let p = self.pos;
            let d = *data;
            assert(!bit_set(d2, p) && d2 & !span_mask(p, (p + 1) as u8) == d & !span_mask(
                p,
                (p + 1) as u8,
            )) by (bit_vector)
                requires
                    p < 128,
                    d2 == d & !(1u128 << p),
            ;
            assert forall|i: u8| i < 128 && i != p implies bit_set(d2, i) == bit_set(d, i) by {
                assert((d2 >> i) & 1 == (d >> i) & 1) by (bit_vector)
                    requires
                        p < 128,
                        i < 128,
                        i != p,
                        d2 == d & !(1u128 << p),
                ;
            }
        }
        *data = d2;
    }

    /// Toggles the bit of `data`, leaving every other bit unchanged.
    pub fn flip(&self, data: &mut u128)
        requires
            self.wf(),
        ensures
            bit_set(*final(data), self.pos) == !bit_set(*old(data), self.pos),
            *final(data) & !span_mask(self.pos, (self.pos + 1) as u8) == *old(data) & !span_mask(
                self.pos,
                (self.pos + 1) as u8,
            ),
            forall|i: u8| i < 128 && i != self.pos ==> bit_set(*final(data), i) == bit_set(
                *old(data),
                i,
            ),
    {
        let d2: u128 = *data ^ (1u128 << self.pos);
        proof {
            let p = self.pos;
            let d = *data;
            assert((if bit_set(d, p) { !bit_set(d2, p) } else { bit_set(d2, p) }) && d2 & !span_mask(
                p,
                (p + 1) as u8,
            ) == d & !span_mask(p, (p + 1) as u8)) by (bit_vector)
                requires
                    p < 128,
                    d2 == d ^ (1u128 << p),
            ;
            assert forall|i: u8| i < 128 && i != p implies bit_set(d2, i) == bit_set(d, i) by {
                assert((d2 >> i) & 1 == (d >> i) & 1) by (bit_vector)
                    requires
                        p < 128,
                        i < 128,
                        i != p,
                        d2 == d ^ (1u128 << p),
                ;
            }
        }
        *data = d2;
    }
}

} // verus!

verus! {

/// Round-trip masking: after a store that a span accepts, the span reads
/// back exactly the stored value, and every bit outside the span still
/// reads as it did before the store.
///
/// `d` is the backing value before the store and `d2` the value after it,
/// as `checked_assign` describes them.
pub proof fn lemma_assign_round_trip(d: u128, d2: u128, start: u8, end: u8, x: u128)
    requires
        start < end <= 128,
        x <= low_mask((end - start) as u8),
        span_value(d2, start, end) == x,
        d2 & !span_mask(start, end) == d & !span_mask(start, end),
    ensures
        span_value(d2, start, end) == x,
        forall|i: u8| i < 128 && !(start <= i < end) ==> bit_set(d2, i) == bit_set(d, i),
{
    assert forall|i: u8| i < 128 && !(start <= i < end) implies bit_set(d2, i) == bit_set(
        d,
        i,
    ) by {
        assert((d2 >> i) & 1 == (d >> i) & 1) by (bit_vector)
            requires
                start < end <= 128,
                i < 128,
                !(start <= i < end),
                d2 & !span_mask(start, end) == d & !span_mask(start, end),
        ;
    }
}

/// A span covering every bit of a `width`-bit register is the raw register:
/// it reads back the whole backing value, and storing a value that fits the
/// register makes the backing value exactly that value.
pub proof fn lemma_full_width_span(d: u128, x: u128, width: u8)
    by (bit_vector)
    requires
        0 < width <= 128,
        d <= low_mask(width),
        x <= low_mask(width),
    ensures
        span_value(d, 0, width) == d,
        (d & !span_mask(0, width)) | (x << 0) == x,
{
}

} // verus!
