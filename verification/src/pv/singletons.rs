//! The values that need no storage of their own: the invalid value, null,
//! booleans and integers.

use vstd::prelude::*;

verus! {

/// The result of an operation that its operands do not support.
#[derive(Debug, Clone, Copy, PartialEq, Eq, Structural)]
pub struct PvInvalid;

impl PvInvalid {
    pub fn new() -> (r: Self)
        ensures
            r == PvInvalid,
    {
        PvInvalid
    }
}

/// The null value.
#[derive(Debug, Clone, Copy, PartialEq, Eq, Structural)]
pub struct PvNull;

impl PvNull {
    pub fn new() -> (r: Self)
        ensures
            r == PvNull,
    {
        PvNull
    }
}

/// A boolean.
#[derive(Debug, Clone, Copy, PartialEq, Eq, Structural)]
pub struct PvBool(pub bool);

impl PvBool {
    pub fn new(value: bool) -> (r: Self)
        ensures
            r == PvBool(value),
    {
        PvBool(value)
    }
}

impl From<bool> for PvBool {
    fn from(value: bool) -> (r: Self) {
        PvBool::new(value)
    }
}

impl vstd::std_specs::convert::FromSpecImpl<bool> for PvBool {
    open spec fn obeys_from_spec() -> bool {
        true
    }

    open spec fn from_spec(value: bool) -> PvBool {
        PvBool(value)
    }
}

/// An integer of the machine's word size. Sums, differences and products
/// wrap around; quotients and remainders are those of the machine's division,
/// which rounds towards zero.
#[derive(Debug, Clone, Copy, PartialEq, Eq, Structural)]
pub struct PvInt(pub isize);

impl PvInt {
    pub fn new(value: isize) -> (r: Self)
        ensures
            r == PvInt(value),
    {
        PvInt(value)
    }
}

impl From<isize> for PvInt {
    fn from(value: isize) -> (r: Self) {
        PvInt::new(value)
    }
}

impl vstd::std_specs::convert::FromSpecImpl<isize> for PvInt {
    open spec fn obeys_from_spec() -> bool {
        true
    }

    open spec fn from_spec(value: isize) -> PvInt {
        PvInt(value)
    }
}

/// Whether the machine can divide `a` by `b`: not by zero, and not the
/// smallest word by -1, whose quotient no word holds.
pub open spec fn divisible(a: isize, b: isize) -> bool {
    b != 0 && !(a == isize::MIN && b == -1)
}

/// The quotient of `a` by `b`, rounded towards zero.
pub open spec fn quotient(a: int, b: int) -> int
    recommends
        b != 0,
{
    if a >= 0 && b > 0 {
        a / b
    } else if a < 0 && b < 0 {
        (-a) / (-b)
    } else if a < 0 {
        -((-a) / b)
    } else {
        -(a / (-b))
    }
}

/// What is left of `a` after the division by `b` that rounds towards zero; it
/// has the sign of `a`.
pub open spec fn remainder(a: int, b: int) -> int
    recommends
        b != 0,
{
    a - b * quotient(a, b)
}

/// For `x >= 0` and `d > 0`: the quotient lies between zero and `x`, at most
/// half of `x` where `d` is two or more, and quotient and remainder make up
/// `x` again.
proof fn lemma_div_bounds(x: int, d: int)
    requires
        x >= 0,
        d > 0,
    ensures
        0 <= x / d <= x,
        d >= 2 ==> 2 * (x / d) <= x,
        x == d * (x / d) + x % d,
        0 <= x % d < d,
{
    vstd::arithmetic::div_mod::lemma_fundamental_div_mod(x, d);
    vstd::arithmetic::div_mod::lemma_div_pos_is_pos(x, d);
    vstd::arithmetic::div_mod::lemma_mod_bound(x, d);
    assert(d * (x / d) >= x / d) by (nonlinear_arith)
        requires
            d >= 1,
            x / d >= 0,
    ;
    if d >= 2 {
        assert(d * (x / d) >= 2 * (x / d)) by (nonlinear_arith)
            requires
                d >= 2,
                x / d >= 0,
        ;
    }
}

/// The quotient of `a` by `b`.
pub fn divide(a: isize, b: isize) -> (q: isize)
    requires
        divisible(a, b),
    ensures
        q == quotient(a as int, b as int),
{
    proof {
        lemma_div_bounds(if a >= 0 { a as int } else { -a }, if b > 0 { b as int } else { -b });
    }
    match a.checked_div(b) {
        Some(q) => q,
        None => 0,
    }
}

/// The remainder of `a` by `b`.
pub fn remain(a: isize, b: isize) -> (r: isize)
    requires
        divisible(a, b),
    ensures
        r == remainder(a as int, b as int),
{
    proof {
        let x: int = if a >= 0 { a as int } else { -a };
        let d: int = if b > 0 { b as int } else { -b };
        let q: int = x / d;
        lemma_div_bounds(x, d);
        assert((-d) * q == -(d * q) && d * (-q) == -(d * q) && (-d) * (-q) == d * q)
            by (nonlinear_arith);
    }
    match a.checked_rem(b) {
        Some(r) => r,
        None => 0,
    }
}


impl std::ops::Add<&PvInt> for PvInt {
    type Output = PvInt;

    fn add(self, other: &PvInt) -> (r: PvInt) {
        PvInt(self.0.wrapping_add(other.0))
    }
}

impl vstd::std_specs::ops::AddSpecImpl<&PvInt> for PvInt {
    open spec fn obeys_add_spec() -> bool {
        true
    }

    open spec fn add_req(self, other: &PvInt) -> bool {
        true
    }

    open spec fn add_spec(self, other: &PvInt) -> PvInt {
        PvInt(self.0.wrapping_add(other.0))
    }
}

impl std::ops::Add<PvInt> for PvInt {
    type Output = PvInt;

    fn add(self, other: PvInt) -> (r: PvInt) {
        PvInt(self.0.wrapping_add(other.0))
    }
}

impl vstd::std_specs::ops::AddSpecImpl<PvInt> for PvInt {
    open spec fn obeys_add_spec() -> bool {
        true
    }

    open spec fn add_req(self, other: PvInt) -> bool {
        true
    }

    open spec fn add_spec(self, other: PvInt) -> PvInt {
        PvInt(self.0.wrapping_add(other.0))
    }
}

impl std::ops::Sub<&PvInt> for PvInt {
    type Output = PvInt;

    fn sub(self, other: &PvInt) -> (r: PvInt) {
        PvInt(self.0.wrapping_sub(other.0))
    }
}

impl vstd::std_specs::ops::SubSpecImpl<&PvInt> for PvInt {
    open spec fn obeys_sub_spec() -> bool {
        true
    }

    open spec fn sub_req(self, other: &PvInt) -> bool {
        true
    }

    open spec fn sub_spec(self, other: &PvInt) -> PvInt {
        PvInt(self.0.wrapping_sub(other.0))
    }
}

impl std::ops::Sub<PvInt> for PvInt {
    type Output = PvInt;

    fn sub(self, other: PvInt) -> (r: PvInt) {
        PvInt(self.0.wrapping_sub(other.0))
    }
}

impl vstd::std_specs::ops::SubSpecImpl<PvInt> for PvInt {
    open spec fn obeys_sub_spec() -> bool {
        true
    }

    open spec fn sub_req(self, other: PvInt) -> bool {
        true
    }

    open spec fn sub_spec(self, other: PvInt) -> PvInt {
        PvInt(self.0.wrapping_sub(other.0))
    }
}

impl std::ops::Mul<&PvInt> for PvInt {
    type Output = PvInt;

    fn mul(self, other: &PvInt) -> (r: PvInt) {
        PvInt(self.0.wrapping_mul(other.0))
    }
}

impl vstd::std_specs::ops::MulSpecImpl<&PvInt> for PvInt {
    open spec fn obeys_mul_spec() -> bool {
        true
    }

    open spec fn mul_req(self, other: &PvInt) -> bool {
        true
    }

    open spec fn mul_spec(self, other: &PvInt) -> PvInt {
        PvInt(self.0.wrapping_mul(other.0))
    }
}

impl std::ops::Mul<PvInt> for PvInt {
    type Output = PvInt;

    fn mul(self, other: PvInt) -> (r: PvInt) {
        PvInt(self.0.wrapping_mul(other.0))
    }
}

impl vstd::std_specs::ops::MulSpecImpl<PvInt> for PvInt {
    open spec fn obeys_mul_spec() -> bool {
        true
    }

    open spec fn mul_req(self, other: PvInt) -> bool {
        true
    }

    open spec fn mul_spec(self, other: PvInt) -> PvInt {
        PvInt(self.0.wrapping_mul(other.0))
    }
}

impl std::ops::Div<&PvInt> for PvInt {
    type Output = PvInt;

    fn div(self, other: &PvInt) -> (r: PvInt) {
        PvInt(divide(self.0, other.0))
    }
}

impl vstd::std_specs::ops::DivSpecImpl<&PvInt> for PvInt {
    open spec fn obeys_div_spec() -> bool {
        true
    }

    open spec fn div_req(self, other: &PvInt) -> bool {
        divisible(self.0, other.0)
    }

    open spec fn div_spec(self, other: &PvInt) -> PvInt {
        PvInt(quotient(self.0 as int, other.0 as int) as isize)
    }
}

impl std::ops::Div<PvInt> for PvInt {
    type Output = PvInt;

    fn div(self, other: PvInt) -> (r: PvInt) {
        PvInt(divide(self.0, other.0))
    }
}

impl vstd::std_specs::ops::DivSpecImpl<PvInt> for PvInt {
    open spec fn obeys_div_spec() -> bool {
        true
    }

    open spec fn div_req(self, other: PvInt) -> bool {
        divisible(self.0, other.0)
    }

    open spec fn div_spec(self, other: PvInt) -> PvInt {
        PvInt(quotient(self.0 as int, other.0 as int) as isize)
    }
}

impl std::ops::Rem<&PvInt> for PvInt {
    type Output = PvInt;

    fn rem(self, other: &PvInt) -> (r: PvInt) {
        PvInt(remain(self.0, other.0))
    }
}

impl vstd::std_specs::ops::RemSpecImpl<&PvInt> for PvInt {
    open spec fn obeys_rem_spec() -> bool {
        true
    }

    open spec fn rem_req(self, other: &PvInt) -> bool {
        divisible(self.0, other.0)
    }

    open spec fn rem_spec(self, other: &PvInt) -> PvInt {
        PvInt(remainder(self.0 as int, other.0 as int) as isize)
    }
}

impl std::ops::Rem<PvInt> for PvInt {
    type Output = PvInt;

    fn rem(self, other: PvInt) -> (r: PvInt) {
        PvInt(remain(self.0, other.0))
    }
}

impl vstd::std_specs::ops::RemSpecImpl<PvInt> for PvInt {
    open spec fn obeys_rem_spec() -> bool {
        true
    }

    open spec fn rem_req(self, other: PvInt) -> bool {
        divisible(self.0, other.0)
    }

    open spec fn rem_spec(self, other: PvInt) -> PvInt {
        PvInt(remainder(self.0 as int, other.0 as int) as isize)
    }
}

}
