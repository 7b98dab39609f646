//! Checked numeric capability traits.
//!
//! The spatial types are generic over the integer type of their
//! coordinates. Each capability a coordinate type must offer — knowing
//! its own range, moving to and from a common wide representation,
//! adding a signed delta with an overflow check, taking an absolute
//! difference — is stated here as a trait whose contract ties the
//! executable operation to the mathematical value of the number.

use vstd::prelude::*;

verus! {

/// Sign-and-magnitude representation wide enough to hold every value of
/// every primitive integer type; the common carrier that moves a value
/// between integer widths.
#[derive(Debug, Clone, Copy, PartialEq, Eq)]
pub struct WideInt {
    pub negative: bool,
    pub magnitude: u128,
}

impl WideInt {
    /// The mathematical value carried.
    pub open spec fn as_int(self) -> int {
        if self.negative {
            -(self.magnitude as int)
        } else {
            self.magnitude as int
        }
    }

    /// Zero is never stored with the `negative` flag set, so equal values
    /// have equal representations.
    pub open spec fn wf(self) -> bool {
        self.negative ==> self.magnitude > 0
    }
}

/// Negates a wide value.
fn wide_neg(w: WideInt) -> (r: WideInt)
    requires
        w.wf(),
    ensures
        r.wf(),
        r.as_int() == -w.as_int(),
{
    if w.magnitude == 0 {
        w
    } else {
        WideInt { negative: !w.negative, magnitude: w.magnitude }
    }
}

/// Compares two wide values.
fn wide_le(a: WideInt, b: WideInt) -> (r: bool)
    requires
        a.wf(),
        b.wf(),
    ensures
        r <==> a.as_int() <= b.as_int(),
{
    if a.negative && !b.negative {
        true
    } else if !a.negative && b.negative {
        false
    } else if a.negative {
        b.magnitude <= a.magnitude
    } else {
        a.magnitude <= b.magnitude
    }
}

/// Adds two wide values, reporting overflow of the carrier itself.
fn wide_add(a: WideInt, b: WideInt) -> (r: Option<WideInt>)
    requires
        a.wf(),
        b.wf(),
    ensures
        r matches Some(w) ==> w.wf() && w.as_int() == a.as_int() + b.as_int(),
        r is None ==> a.as_int() + b.as_int() > u128::MAX || a.as_int() + b.as_int() < -(
        u128::MAX as int),
{
    if a.negative == b.negative {
        if a.magnitude <= u128::MAX - b.magnitude {
            Some(WideInt { negative: a.negative, magnitude: a.magnitude + b.magnitude })
        } else {
            None
        }
    } else if a.negative {
        if b.magnitude >= a.magnitude {
            Some(WideInt { negative: false, magnitude: b.magnitude - a.magnitude })
        } else {
            Some(WideInt { negative: true, magnitude: a.magnitude - b.magnitude })
        }
    } else {
        if a.magnitude >= b.magnitude {
            Some(WideInt { negative: false, magnitude: a.magnitude - b.magnitude })
        } else {
            Some(WideInt { negative: true, magnitude: b.magnitude - a.magnitude })
        }
    }
}


/// The sign of a product follows the signs of its factors.
proof fn lemma_wide_mul_sign(a: WideInt, b: WideInt)
    ensures
        a.negative == b.negative ==> a.as_int() * b.as_int() == (a.magnitude as int) * (
        b.magnitude as int),
        a.negative != b.negative ==> a.as_int() * b.as_int() == -((a.magnitude as int) * (
        b.magnitude as int)),
{
    let ma = a.magnitude as int;
    let mb = b.magnitude as int;
    assert((-ma) * (-mb) == ma * mb) by (nonlinear_arith);
    assert((-ma) * mb == -(ma * mb)) by (nonlinear_arith);
    assert(ma * (-mb) == -(ma * mb)) by (nonlinear_arith);
}

/// Multiplies two wide values, reporting overflow of the carrier itself.
fn wide_mul(a: WideInt, b: WideInt) -> (r: Option<WideInt>)
    requires
        a.wf(),
        b.wf(),
    ensures
        r matches Some(w) ==> w.wf() && w.as_int() == a.as_int() * b.as_int(),
        r is None ==> a.as_int() * b.as_int() > u128::MAX || a.as_int() * b.as_int() < -(
        u128::MAX as int),
{
    proof {
        lemma_wide_mul_sign(a, b);
    }
    match a.magnitude.checked_mul(b.magnitude) {
        Some(m) => {
            if m == 0 {
                Some(WideInt { negative: false, magnitude: 0 })
            } else {
                Some(WideInt { negative: a.negative != b.negative, magnitude: m })
            }
        },
        None => None,
    }
}

/// Capability contract tying an executable integer type to its
/// mathematical value: every coordinate type used by the spatial
/// subsystem implements it.
pub trait Numeric: Copy + Sized {
    /// The mathematical value of this number.
    spec fn as_int(self) -> int;

    /// The value of this type standing for a given mathematical integer
    /// (meaningful inside the representable range).
    spec fn from_int(i: int) -> Self;

    /// Smallest representable value.
    spec fn min_spec() -> int;

    /// Largest representable value.
    spec fn max_spec() -> int;

    /// Every value lies in the representable range, and `from_int`
    /// inverts `as_int`, so the mathematical value determines the value.
    proof fn lemma_value_in_range(self)
        ensures
            Self::min_spec() <= self.as_int() <= Self::max_spec(),
            Self::from_int(self.as_int()) == self,
    ;

    /// The representable range contains zero and one and fits in the
    /// wide carrier.
    proof fn lemma_type_bounds()
        ensures
            Self::min_spec() <= 0,
            1 <= Self::max_spec(),
            -(u128::MAX as int) <= Self::min_spec(),
            Self::max_spec() <= u128::MAX as int,
    ;

    /// Inside the representable range, `as_int` inverts `from_int`.
    proof fn lemma_from_int(i: int)
        requires
            Self::min_spec() <= i <= Self::max_spec(),
        ensures
            Self::from_int(i).as_int() == i,
    ;

    fn to_wide(self) -> (r: WideInt)
        ensures
            r.wf(),
            r.as_int() == self.as_int(),
    ;

    fn from_wide(w: WideInt) -> (r: Option<Self>)
        requires
            w.wf(),
        ensures
            r is Some <==> Self::min_spec() <= w.as_int() <= Self::max_spec(),
            r matches Some(v) ==> v.as_int() == w.as_int(),
    ;

    /// The additive identity.
    fn zero() -> (r: Self)
        ensures
            r.as_int() == 0,
    {
        proof {
            Self::lemma_type_bounds();
        }
        let w = WideInt { negative: false, magnitude: 0 };
        Self::from_wide(w).unwrap()
    }

    /// The multiplicative identity.
    fn one() -> (r: Self)
        ensures
            r.as_int() == 1,
    {
        proof {
            Self::lemma_type_bounds();
        }
        let w = WideInt { negative: false, magnitude: 1 };
        Self::from_wide(w).unwrap()
    }

    fn le_val(self, other: Self) -> (r: bool)
        ensures
            r <==> self.as_int() <= other.as_int(),
    {
        wide_le(self.to_wide(), other.to_wide())
    }

    fn lt_val(self, other: Self) -> (r: bool)
        ensures
            r <==> self.as_int() < other.as_int(),
    {
        !wide_le(other.to_wide(), self.to_wide())
    }

    /// Addition, exact by precondition.
    fn add_val(self, other: Self) -> (r: Self)
        requires
            Self::min_spec() <= self.as_int() + other.as_int() <= Self::max_spec(),
        ensures
            r.as_int() == self.as_int() + other.as_int(),
    {
        proof {
            Self::lemma_type_bounds();
        }
        let s = wide_add(self.to_wide(), other.to_wide());
        Self::from_wide(s.unwrap()).unwrap()
    }

    /// Subtraction, exact by precondition.
    fn sub_val(self, other: Self) -> (r: Self)
        requires
            Self::min_spec() <= self.as_int() - other.as_int() <= Self::max_spec(),
        ensures
            r.as_int() == self.as_int() - other.as_int(),
    {
        proof {
            Self::lemma_type_bounds();
        }
        let s = wide_add(self.to_wide(), wide_neg(other.to_wide()));
        Self::from_wide(s.unwrap()).unwrap()
    }

    /// Multiplication, exact by precondition.
    fn mul_val(self, other: Self) -> (r: Self)
        requires
            Self::min_spec() <= self.as_int() * other.as_int() <= Self::max_spec(),
        ensures
            r.as_int() == self.as_int() * other.as_int(),
    {
        proof {
            Self::lemma_type_bounds();
        }
        let p = wide_mul(self.to_wide(), other.to_wide());
        Self::from_wide(p.unwrap()).unwrap()
    }

    /// Negation, exact by precondition.
    fn neg_val(self) -> (r: Self)
        requires
            Self::min_spec() <= -self.as_int() <= Self::max_spec(),
        ensures
            r.as_int() == -self.as_int(),
    {
        Self::from_wide(wide_neg(self.to_wide())).unwrap()
    }
}

/// A signed coordinate type: its range reaches below zero, so it can
/// hold the unit displacement of every compass direction.
pub trait SignedNumeric: Numeric {
    /// The representable range reaches at least minus one.
    proof fn lemma_signed()
        ensures
            Self::min_spec() <= -1,
    ;

    fn neg_one() -> (r: Self)
        ensures
            r.as_int() == -1,
    {
        proof {
            Self::lemma_signed();
            Self::lemma_type_bounds();
        }
        let w = WideInt { negative: true, magnitude: 1 };
        Self::from_wide(w).unwrap()
    }
}

/// Trait for adding a signed variant of a number to another whilst
/// checking for underflows and overflows.
pub trait CheckedAddSigned: Numeric {
    /// The same-width signed type whose values serve as deltas.
    type Signed: SignedNumeric;

    /// Returns the exact sum when it is representable and `None`
    /// otherwise — never wraps.
    fn checked_add_signed(self, rhs: Self::Signed) -> (r: Option<Self>)
        ensures
            r is Some <==> Self::min_spec() <= self.as_int() + rhs.as_int() <= Self::max_spec(),
            r matches Some(v) ==> v.as_int() == self.as_int() + rhs.as_int(),
    ;
}

/// Trait for the absolute difference of two numbers of the same
/// signedness, as the unsigned magnitude — total, never overflows.
pub trait AbsDiff: Numeric {
    /// The unsigned type wide enough to hold any difference of two
    /// values of `Self`.
    type Unsigned: Numeric;

    /// The unsigned range covers the whole span of `Self`.
    proof fn lemma_unsigned_covers()
        ensures
            <Self::Unsigned as Numeric>::min_spec() <= 0,
            Self::max_spec() - Self::min_spec() <= <Self::Unsigned as Numeric>::max_spec(),
    ;

    fn abs_diff(self, other: Self) -> (r: Self::Unsigned)
        ensures
            r.as_int() == if self.as_int() >= other.as_int() {
                self.as_int() - other.as_int()
            } else {
                other.as_int() - self.as_int()
            },
    {
        proof {
            Self::lemma_unsigned_covers();
            self.lemma_value_in_range();
            other.lemma_value_in_range();
            <Self::Unsigned as Numeric>::lemma_type_bounds();
        }
        let a = self.to_wide();
        let b = other.to_wide();
        let d = if wide_le(a, b) {
            wide_add(b, wide_neg(a))
        } else {
            wide_add(a, wide_neg(b))
        };
        <Self::Unsigned as Numeric>::from_wide(d.unwrap()).unwrap()
    }
}

impl Numeric for u8 {
    open spec fn as_int(self) -> int {
        self as int
    }

    open spec fn from_int(i: int) -> Self {
        i as u8
    }

    open spec fn min_spec() -> int {
        0
    }

    open spec fn max_spec() -> int {
        u8::MAX as int
    }

    proof fn lemma_value_in_range(self) {
    }

    proof fn lemma_type_bounds() {
        assert(Self::min_spec() == 0 && Self::max_spec() == u8::MAX as int);
    }

    proof fn lemma_from_int(i: int) {
    }

    fn to_wide(self) -> (r: WideInt) {
        WideInt { negative: false, magnitude: self as u128 }
    }

    fn from_wide(w: WideInt) -> (r: Option<Self>) {
        proof {
            assert(Self::min_spec() == 0 && Self::max_spec() == u8::MAX as int);
        }
        if w.negative || w.magnitude > u8::MAX as u128 {
            None
        } else {
            Some(w.magnitude as u8)
        }
    }
}

impl Numeric for i8 {
    open spec fn as_int(self) -> int {
        self as int
    }

    open spec fn from_int(i: int) -> Self {
        i as i8
    }

    open spec fn min_spec() -> int {
        i8::MIN as int
    }

    open spec fn max_spec() -> int {
        i8::MAX as int
    }

    proof fn lemma_value_in_range(self) {
    }

    proof fn lemma_type_bounds() {
        assert(Self::min_spec() == i8::MIN as int && Self::max_spec() == i8::MAX as int);
    }

    proof fn lemma_from_int(i: int) {
    }

    fn to_wide(self) -> (r: WideInt) {
        if self >= 0 {
            WideInt { negative: false, magnitude: self as u128 }
        } else {
            WideInt { negative: true, magnitude: ((-1 - self) as u128) + 1 }
        }
    }

    fn from_wide(w: WideInt) -> (r: Option<Self>) {
        proof {
            assert(Self::min_spec() == i8::MIN as int && Self::max_spec() == i8::MAX as int);
        }
        if w.negative {
            if w.magnitude <= (i8::MAX as u128) + 1 {
                Some(-1 - ((w.magnitude - 1) as i8))
            } else {
                None
            }
        } else {
            if w.magnitude <= i8::MAX as u128 {
                Some(w.magnitude as i8)
            } else {
                None
            }
        }
    }
}

impl SignedNumeric for i8 {
    proof fn lemma_signed() {
        assert(Self::min_spec() == i8::MIN as int);
    }
}

impl CheckedAddSigned for u8 {
    type Signed = i8;

    fn checked_add_signed(self, rhs: i8) -> (r: Option<Self>) {
        u8::checked_add_signed(self, rhs)
    }
}

impl CheckedAddSigned for i8 {
    type Signed = i8;

    fn checked_add_signed(self, rhs: i8) -> (r: Option<Self>) {
        i8::checked_add(self, rhs)
    }
}

impl AbsDiff for u8 {
    type Unsigned = u8;

    proof fn lemma_unsigned_covers() {
        assert(Self::min_spec() == 0 && Self::max_spec() == u8::MAX as int);
        assert(<u8 as Numeric>::min_spec() == 0 && <u8 as Numeric>::max_spec() == u8::MAX as int);
    }
}

impl AbsDiff for i8 {
    type Unsigned = u8;

    proof fn lemma_unsigned_covers() {
        assert(Self::min_spec() == i8::MIN as int && Self::max_spec() == i8::MAX as int);
        assert(<u8 as Numeric>::min_spec() == 0 && <u8 as Numeric>::max_spec() == u8::MAX as int);
    }
}

impl Numeric for u16 {
    open spec fn as_int(self) -> int {
        self as int
    }

    open spec fn from_int(i: int) -> Self {
        i as u16
    }

    open spec fn min_spec() -> int {
        0
    }

    open spec fn max_spec() -> int {
        u16::MAX as int
    }

    proof fn lemma_value_in_range(self) {
    }

    proof fn lemma_type_bounds() {
        assert(Self::min_spec() == 0 && Self::max_spec() == u16::MAX as int);
    }

    proof fn lemma_from_int(i: int) {
    }

    fn to_wide(self) -> (r: WideInt) {
        WideInt { negative: false, magnitude: self as u128 }
    }

    fn from_wide(w: WideInt) -> (r: Option<Self>) {
        proof {
            assert(Self::min_spec() == 0 && Self::max_spec() == u16::MAX as int);
        }
        if w.negative || w.magnitude > u16::MAX as u128 {
            None
        } else {
            Some(w.magnitude as u16)
        }
    }
}

impl Numeric for i16 {
    open spec fn as_int(self) -> int {
        self as int
    }

    open spec fn from_int(i: int) -> Self {
        i as i16
    }

    open spec fn min_spec() -> int {
        i16::MIN as int
    }

    open spec fn max_spec() -> int {
        i16::MAX as int
    }

    proof fn lemma_value_in_range(self) {
    }

    proof fn lemma_type_bounds() {
        assert(Self::min_spec() == i16::MIN as int && Self::max_spec() == i16::MAX as int);
    }

    proof fn lemma_from_int(i: int) {
    }

    fn to_wide(self) -> (r: WideInt) {
        if self >= 0 {
            WideInt { negative: false, magnitude: self as u128 }
        } else {
            WideInt { negative: true, magnitude: ((-1 - self) as u128) + 1 }
        }
    }

    fn from_wide(w: WideInt) -> (r: Option<Self>) {
        proof {
            assert(Self::min_spec() == i16::MIN as int && Self::max_spec() == i16::MAX as int);
        }
        if w.negative {
            if w.magnitude <= (i16::MAX as u128) + 1 {
                Some(-1 - ((w.magnitude - 1) as i16))
            } else {
                None
            }
        } else {
            if w.magnitude <= i16::MAX as u128 {
                Some(w.magnitude as i16)
            } else {
                None
            }
        }
    }
}

impl SignedNumeric for i16 {
    proof fn lemma_signed() {
        assert(Self::min_spec() == i16::MIN as int);
    }
}

impl CheckedAddSigned for u16 {
    type Signed = i16;

    fn checked_add_signed(self, rhs: i16) -> (r: Option<Self>) {
        u16::checked_add_signed(self, rhs)
    }
}

impl CheckedAddSigned for i16 {
    type Signed = i16;

    fn checked_add_signed(self, rhs: i16) -> (r: Option<Self>) {
        i16::checked_add(self, rhs)
    }
}

impl AbsDiff for u16 {
    type Unsigned = u16;

    proof fn lemma_unsigned_covers() {
        assert(Self::min_spec() == 0 && Self::max_spec() == u16::MAX as int);
    }
}

impl AbsDiff for i16 {
    type Unsigned = u16;

    proof fn lemma_unsigned_covers() {
        assert(Self::min_spec() == i16::MIN as int && Self::max_spec() == i16::MAX as int);
        assert(<u16 as Numeric>::min_spec() == 0 && <u16 as Numeric>::max_spec() == u16::MAX as int);
    }
}

impl Numeric for u32 {
    open spec fn as_int(self) -> int {
        self as int
    }

    open spec fn from_int(i: int) -> Self {
        i as u32
    }

    open spec fn min_spec() -> int {
        0
    }

    open spec fn max_spec() -> int {
        u32::MAX as int
    }

    proof fn lemma_value_in_range(self) {
    }

    proof fn lemma_type_bounds() {
        assert(Self::min_spec() == 0 && Self::max_spec() == u32::MAX as int);
    }

    proof fn lemma_from_int(i: int) {
    }

    fn to_wide(self) -> (r: WideInt) {
        WideInt { negative: false, magnitude: self as u128 }
    }

    fn from_wide(w: WideInt) -> (r: Option<Self>) {
        proof {
            assert(Self::min_spec() == 0 && Self::max_spec() == u32::MAX as int);
        }
        if w.negative || w.magnitude > u32::MAX as u128 {
            None
        } else {
            Some(w.magnitude as u32)
        }
    }
}

impl Numeric for i32 {
    open spec fn as_int(self) -> int {
        self as int
    }

    open spec fn from_int(i: int) -> Self {
        i as i32
    }

    open spec fn min_spec() -> int {
        i32::MIN as int
    }

    open spec fn max_spec() -> int {
        i32::MAX as int
    }

    proof fn lemma_value_in_range(self) {
    }

    proof fn lemma_type_bounds() {
        assert(Self::min_spec() == i32::MIN as int && Self::max_spec() == i32::MAX as int);
    }

    proof fn lemma_from_int(i: int) {
    }

    fn to_wide(self) -> (r: WideInt) {
        if self >= 0 {
            WideInt { negative: false, magnitude: self as u128 }
        } else {
            WideInt { negative: true, magnitude: ((-1 - self) as u128) + 1 }
        }
    }

    fn from_wide(w: WideInt) -> (r: Option<Self>) {
        proof {
            assert(Self::min_spec() == i32::MIN as int && Self::max_spec() == i32::MAX as int);
        }
        if w.negative {
            if w.magnitude <= (i32::MAX as u128) + 1 {
                Some(-1 - ((w.magnitude - 1) as i32))
            } else {
                None
            }
        } else {
            if w.magnitude <= i32::MAX as u128 {
                Some(w.magnitude as i32)
            } else {
                None
            }
        }
    }
}

impl SignedNumeric for i32 {
    proof fn lemma_signed() {
        assert(Self::min_spec() == i32::MIN as int);
    }
}

impl CheckedAddSigned for u32 {
    type Signed = i32;

    fn checked_add_signed(self, rhs: i32) -> (r: Option<Self>) {
        u32::checked_add_signed(self, rhs)
    }
}

impl CheckedAddSigned for i32 {
    type Signed = i32;

    fn checked_add_signed(self, rhs: i32) -> (r: Option<Self>) {
        i32::checked_add(self, rhs)
    }
}

impl AbsDiff for u32 {
    type Unsigned = u32;

    proof fn lemma_unsigned_covers() {
        assert(Self::min_spec() == 0 && Self::max_spec() == u32::MAX as int);
    }
}

impl AbsDiff for i32 {
    type Unsigned = u32;

    proof fn lemma_unsigned_covers() {
        assert(Self::min_spec() == i32::MIN as int && Self::max_spec() == i32::MAX as int);
        assert(<u32 as Numeric>::min_spec() == 0 && <u32 as Numeric>::max_spec() == u32::MAX as int);
    }
}

impl Numeric for u64 {
    open spec fn as_int(self) -> int {
        self as int
    }

    open spec fn from_int(i: int) -> Self {
        i as u64
    }

    open spec fn min_spec() -> int {
        0
    }

    open spec fn max_spec() -> int {
        u64::MAX as int
    }

    proof fn lemma_value_in_range(self) {
    }

    proof fn lemma_type_bounds() {
        assert(Self::min_spec() == 0 && Self::max_spec() == u64::MAX as int);
    }

    proof fn lemma_from_int(i: int) {
    }

    fn to_wide(self) -> (r: WideInt) {
        WideInt { negative: false, magnitude: self as u128 }
    }

    fn from_wide(w: WideInt) -> (r: Option<Self>) {
        proof {
            assert(Self::min_spec() == 0 && Self::max_spec() == u64::MAX as int);
        }
        if w.negative || w.magnitude > u64::MAX as u128 {
            None
        } else {
            Some(w.magnitude as u64)
        }
    }
}

impl Numeric for i64 {
    open spec fn as_int(self) -> int {
        self as int
    }

    open spec fn from_int(i: int) -> Self {
        i as i64
    }

    open spec fn min_spec() -> int {
        i64::MIN as int
    }

    open spec fn max_spec() -> int {
        i64::MAX as int
    }

    proof fn lemma_value_in_range(self) {
    }

    proof fn lemma_type_bounds() {
        assert(Self::min_spec() == i64::MIN as int && Self::max_spec() == i64::MAX as int);
    }

    proof fn lemma_from_int(i: int) {
    }

    fn to_wide(self) -> (r: WideInt) {
        if self >= 0 {
            WideInt { negative: false, magnitude: self as u128 }
        } else {
            WideInt { negative: true, magnitude: ((-1 - self) as u128) + 1 }
        }
    }

    fn from_wide(w: WideInt) -> (r: Option<Self>) {
        proof {
            assert(Self::min_spec() == i64::MIN as int && Self::max_spec() == i64::MAX as int);
        }
        if w.negative {
            if w.magnitude <= (i64::MAX as u128) + 1 {
                Some(-1 - ((w.magnitude - 1) as i64))
            } else {
                None
            }
        } else {
            if w.magnitude <= i64::MAX as u128 {
                Some(w.magnitude as i64)
            } else {
                None
            }
        }
    }
}

impl SignedNumeric for i64 {
    proof fn lemma_signed() {
        assert(Self::min_spec() == i64::MIN as int);
    }
}

impl CheckedAddSigned for u64 {
    type Signed = i64;

    fn checked_add_signed(self, rhs: i64) -> (r: Option<Self>) {
        u64::checked_add_signed(self, rhs)
    }
}

impl CheckedAddSigned for i64 {
    type Signed = i64;

    fn checked_add_signed(self, rhs: i64) -> (r: Option<Self>) {
        i64::checked_add(self, rhs)
    }
}

impl AbsDiff for u64 {
    type Unsigned = u64;

    proof fn lemma_unsigned_covers() {
        assert(Self::min_spec() == 0 && Self::max_spec() == u64::MAX as int);
    }
}

impl AbsDiff for i64 {
    type Unsigned = u64;

    proof fn lemma_unsigned_covers() {
        assert(Self::min_spec() == i64::MIN as int && Self::max_spec() == i64::MAX as int);
        assert(<u64 as Numeric>::min_spec() == 0 && <u64 as Numeric>::max_spec() == u64::MAX as int);
    }
}

impl Numeric for u128 {
    open spec fn as_int(self) -> int {
        self as int
    }

    open spec fn from_int(i: int) -> Self {
        i as u128
    }

    open spec fn min_spec() -> int {
        0
    }

    open spec fn max_spec() -> int {
        u128::MAX as int
    }

    proof fn lemma_value_in_range(self) {
    }

    proof fn lemma_type_bounds() {
        assert(Self::min_spec() == 0 && Self::max_spec() == u128::MAX as int);
    }

    proof fn lemma_from_int(i: int) {
    }

    fn to_wide(self) -> (r: WideInt) {
        WideInt { negative: false, magnitude: self as u128 }
    }

    fn from_wide(w: WideInt) -> (r: Option<Self>) {
        proof {
            assert(Self::min_spec() == 0 && Self::max_spec() == u128::MAX as int);
        }
        if w.negative {
            None
        } else {
            Some(w.magnitude)
        }
    }
}

impl Numeric for i128 {
    open spec fn as_int(self) -> int {
        self as int
    }

    open spec fn from_int(i: int) -> Self {
        i as i128
    }

    open spec fn min_spec() -> int {
        i128::MIN as int
    }

    open spec fn max_spec() -> int {
        i128::MAX as int
    }

    proof fn lemma_value_in_range(self) {
    }

    proof fn lemma_type_bounds() {
        assert(Self::min_spec() == i128::MIN as int && Self::max_spec() == i128::MAX as int);
    }

    proof fn lemma_from_int(i: int) {
    }

    fn to_wide(self) -> (r: WideInt) {
        if self >= 0 {
            WideInt { negative: false, magnitude: self as u128 }
        } else {
            WideInt { negative: true, magnitude: ((-1 - self) as u128) + 1 }
        }
    }

    fn from_wide(w: WideInt) -> (r: Option<Self>) {
        proof {
            assert(Self::min_spec() == i128::MIN as int && Self::max_spec() == i128::MAX as int);
        }
        if w.negative {
            if w.magnitude <= (i128::MAX as u128) + 1 {
                Some(-1 - ((w.magnitude - 1) as i128))
            } else {
                None
            }
        } else {
            if w.magnitude <= i128::MAX as u128 {
                Some(w.magnitude as i128)
            } else {
                None
            }
        }
    }
}

impl SignedNumeric for i128 {
    proof fn lemma_signed() {
        assert(Self::min_spec() == i128::MIN as int);
    }
}

impl CheckedAddSigned for u128 {
    type Signed = i128;

    fn checked_add_signed(self, rhs: i128) -> (r: Option<Self>) {
        u128::checked_add_signed(self, rhs)
    }
}

impl CheckedAddSigned for i128 {
    type Signed = i128;

    fn checked_add_signed(self, rhs: i128) -> (r: Option<Self>) {
        i128::checked_add(self, rhs)
    }
}

impl AbsDiff for u128 {
    type Unsigned = u128;

    proof fn lemma_unsigned_covers() {
        assert(Self::min_spec() == 0 && Self::max_spec() == u128::MAX as int);
    }
}

impl AbsDiff for i128 {
    type Unsigned = u128;

    proof fn lemma_unsigned_covers() {
        assert(Self::min_spec() == i128::MIN as int && Self::max_spec() == i128::MAX as int);
        assert(<u128 as Numeric>::min_spec() == 0 && <u128 as Numeric>::max_spec() == u128::MAX as int);
    }
}

impl Numeric for usize {
    open spec fn as_int(self) -> int {
        self as int
    }

    open spec fn from_int(i: int) -> Self {
        i as usize
    }

    open spec fn min_spec() -> int {
        0
    }

    open spec fn max_spec() -> int {
        usize::MAX as int
    }

    proof fn lemma_value_in_range(self) {
    }

    proof fn lemma_type_bounds() {
        assert(Self::min_spec() == 0 && Self::max_spec() == usize::MAX as int);
    }

    proof fn lemma_from_int(i: int) {
    }

    fn to_wide(self) -> (r: WideInt) {
        WideInt { negative: false, magnitude: self as u128 }
    }

    fn from_wide(w: WideInt) -> (r: Option<Self>) {
        proof {
            assert(Self::min_spec() == 0 && Self::max_spec() == usize::MAX as int);
        }
        if w.negative || w.magnitude > usize::MAX as u128 {
            None
        } else {
            Some(w.magnitude as usize)
        }
    }
}

impl Numeric for isize {
    open spec fn as_int(self) -> int {
        self as int
    }

    open spec fn from_int(i: int) -> Self {
        i as isize
    }

    open spec fn min_spec() -> int {
        isize::MIN as int
    }

    open spec fn max_spec() -> int {
        isize::MAX as int
    }

    proof fn lemma_value_in_range(self) {
    }

    proof fn lemma_type_bounds() {
        assert(Self::min_spec() == isize::MIN as int && Self::max_spec() == isize::MAX as int);
    }

    proof fn lemma_from_int(i: int) {
    }

    fn to_wide(self) -> (r: WideInt) {
        if self >= 0 {
            WideInt { negative: false, magnitude: self as u128 }
        } else {
            WideInt { negative: true, magnitude: ((-1 - self) as u128) + 1 }
        }
    }

    fn from_wide(w: WideInt) -> (r: Option<Self>) {
        proof {
            assert(Self::min_spec() == isize::MIN as int && Self::max_spec() == isize::MAX as int);
        }
        if w.negative {
            if w.magnitude <= (isize::MAX as u128) + 1 {
                Some(-1 - ((w.magnitude - 1) as isize))
            } else {
                None
            }
        } else {
            if w.magnitude <= isize::MAX as u128 {
                Some(w.magnitude as isize)
            } else {
                None
            }
        }
    }
}

impl SignedNumeric for isize {
    proof fn lemma_signed() {
        assert(Self::min_spec() == isize::MIN as int);
    }
}

impl CheckedAddSigned for usize {
    type Signed = isize;

    fn checked_add_signed(self, rhs: isize) -> (r: Option<Self>) {
        usize::checked_add_signed(self, rhs)
    }
}

impl CheckedAddSigned for isize {
    type Signed = isize;

    fn checked_add_signed(self, rhs: isize) -> (r: Option<Self>) {
        isize::checked_add(self, rhs)
    }
}

impl AbsDiff for usize {
    type Unsigned = usize;

    proof fn lemma_unsigned_covers() {
        assert(Self::min_spec() == 0 && Self::max_spec() == usize::MAX as int);
    }
}

impl AbsDiff for isize {
    type Unsigned = usize;

    proof fn lemma_unsigned_covers() {
        assert(Self::min_spec() == isize::MIN as int && Self::max_spec() == isize::MAX as int);
        assert(<usize as Numeric>::min_spec() == 0 && <usize as Numeric>::max_spec() == usize::MAX as int);
    }
}

} // verus!
