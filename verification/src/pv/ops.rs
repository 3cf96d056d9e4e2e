//! Arithmetic on values.
//!
//! The operators never fail on the kinds of their operands: a pair of kinds
//! that an operator does not support gives the invalid value, which spreads
//! through what is computed from it. Integers are added, subtracted and
//! multiplied with wrap-around. Division is the machine's: it cannot divide
//! by zero, nor the smallest integer by -1.

use crate::pv::singletons::{divisible, quotient, remainder};
use crate::pv::{Pv, PvValue};
use std::ops::{Add, Div, Mul, Rem, Sub};
use vstd::prelude::*;

verus! {

/// The sum of two values: of two integers their sum, which wraps around; of
/// two texts the first followed by the second; of any other pair the invalid
/// value.
pub open spec fn value_add(a: PvValue, b: PvValue) -> PvValue {
    match (a, b) {
        (PvValue::Int(x), PvValue::Int(y)) => PvValue::Int(x.wrapping_add(y)),
        (PvValue::String(x), PvValue::String(y)) => PvValue::String(x + y),
        _ => PvValue::Invalid,
    }
}

/// The difference of two integers, which wraps around; of any other pair the
/// invalid value.
pub open spec fn value_sub(a: PvValue, b: PvValue) -> PvValue {
    match (a, b) {
        (PvValue::Int(x), PvValue::Int(y)) => PvValue::Int(x.wrapping_sub(y)),
        _ => PvValue::Invalid,
    }
}

/// The product of two integers, which wraps around; of any other pair the
/// invalid value.
pub open spec fn value_mul(a: PvValue, b: PvValue) -> PvValue {
    match (a, b) {
        (PvValue::Int(x), PvValue::Int(y)) => PvValue::Int(x.wrapping_mul(y)),
        _ => PvValue::Invalid,
    }
}

/// The quotient of two integers, rounded towards zero; of any other pair the
/// invalid value.
pub open spec fn value_div(a: PvValue, b: PvValue) -> PvValue {
    match (a, b) {
        (PvValue::Int(x), PvValue::Int(y)) => PvValue::Int(quotient(x as int, y as int) as isize),
        _ => PvValue::Invalid,
    }
}

/// The remainder of two integers, with the sign of the first; of any other
/// pair the invalid value.
pub open spec fn value_rem(a: PvValue, b: PvValue) -> PvValue {
    match (a, b) {
        (PvValue::Int(x), PvValue::Int(y)) => PvValue::Int(remainder(x as int, y as int) as isize),
        _ => PvValue::Invalid,
    }
}

/// Whether the sum of the two values can be built: two texts must not be
/// longer together than a length can say.
pub open spec fn can_add(a: PvValue, b: PvValue) -> bool {
    match (a, b) {
        (PvValue::String(x), PvValue::String(y)) => x.len() + y.len() <= usize::MAX,
        _ => true,
    }
}

/// Whether the first value can be divided by the second: where both are
/// integers, the machine must be able to divide them.
pub open spec fn can_divide(a: PvValue, b: PvValue) -> bool {
    match (a, b) {
        (PvValue::Int(x), PvValue::Int(y)) => divisible(x, y),
        _ => true,
    }
}

impl Pv {
    /// Whether the sum of this value and `other` can be built.
    pub fn can_add(&self, other: &Pv) -> (r: bool)
        ensures
            r == can_add(self@, other@),
    {
        match (self, other) {
            (Pv::String(v1), Pv::String(v2)) => v1.len() <= usize::MAX - v2.len(),
            _ => true,
        }
    }

    /// Whether this value can be divided by `other`.
    pub fn can_divide(&self, other: &Pv) -> (r: bool)
        ensures
            r == can_divide(self@, other@),
    {
        match (self, other) {
            (Pv::Int(v1), Pv::Int(v2)) => v2.0 != 0 && !(v1.0 == isize::MIN && v2.0 == -1),
            _ => true,
        }
    }
}

impl Add<&Pv> for Pv {
    type Output = Pv;

    fn add(self, other: &Pv) -> (r: Pv)
        ensures
            r@ == value_add(self@, other@),
    {
        match (self, other) {
            (Pv::Int(v1), Pv::Int(v2)) => Pv::from(v1.add(v2)),
            (Pv::String(v1), Pv::String(v2)) => Pv::from(v1.add(v2)),
            _ => Pv::invalid(),
        }
    }
}

impl vstd::std_specs::ops::AddSpecImpl<&Pv> for Pv {
    open spec fn obeys_add_spec() -> bool {
        false
    }

    open spec fn add_req(self, other: &Pv) -> bool {
        can_add(self@, other@)
    }

    open spec fn add_spec(self, other: &Pv) -> Pv {
        arbitrary()
    }
}

impl Add<Pv> for Pv {
    type Output = Pv;

    fn add(self, other: Pv) -> (r: Pv)
        ensures
            r@ == value_add(self@, other@),
    {
        match (self, &other) {
            (Pv::Int(v1), Pv::Int(v2)) => Pv::from(v1.add(v2)),
            (Pv::String(v1), Pv::String(v2)) => Pv::from(v1.add(v2)),
            _ => Pv::invalid(),
        }
    }
}

impl vstd::std_specs::ops::AddSpecImpl<Pv> for Pv {
    open spec fn obeys_add_spec() -> bool {
        false
    }

    open spec fn add_req(self, other: Pv) -> bool {
        can_add(self@, other@)
    }

    open spec fn add_spec(self, other: Pv) -> Pv {
        arbitrary()
    }
}

impl Sub<&Pv> for Pv {
    type Output = Pv;

    fn sub(self, other: &Pv) -> (r: Pv)
        ensures
            r@ == value_sub(self@, other@),
    {
        match (self, other) {
            (Pv::Int(v1), Pv::Int(v2)) => Pv::from(v1.sub(v2)),
            _ => Pv::invalid(),
        }
    }
}

impl vstd::std_specs::ops::SubSpecImpl<&Pv> for Pv {
    open spec fn obeys_sub_spec() -> bool {
        false
    }

    open spec fn sub_req(self, other: &Pv) -> bool {
        true
    }

    open spec fn sub_spec(self, other: &Pv) -> Pv {
        arbitrary()
    }
}

impl Sub<Pv> for Pv {
    type Output = Pv;

    fn sub(self, other: Pv) -> (r: Pv)
        ensures
            r@ == value_sub(self@, other@),
    {
        match (self, &other) {
            (Pv::Int(v1), Pv::Int(v2)) => Pv::from(v1.sub(v2)),
            _ => Pv::invalid(),
        }
    }
}

impl vstd::std_specs::ops::SubSpecImpl<Pv> for Pv {
    open spec fn obeys_sub_spec() -> bool {
        false
    }

    open spec fn sub_req(self, other: Pv) -> bool {
        true
    }

    open spec fn sub_spec(self, other: Pv) -> Pv {
        arbitrary()
    }
}

impl Mul<&Pv> for Pv {
    type Output = Pv;

    fn mul(self, other: &Pv) -> (r: Pv)
        ensures
            r@ == value_mul(self@, other@),
    {
        match (self, other) {
            (Pv::Int(v1), Pv::Int(v2)) => Pv::from(v1.mul(v2)),
            _ => Pv::invalid(),
        }
    }
}

impl vstd::std_specs::ops::MulSpecImpl<&Pv> for Pv {
    open spec fn obeys_mul_spec() -> bool {
        false
    }

    open spec fn mul_req(self, other: &Pv) -> bool {
        true
    }

    open spec fn mul_spec(self, other: &Pv) -> Pv {
        arbitrary()
    }
}

impl Mul<Pv> for Pv {
    type Output = Pv;

    fn mul(self, other: Pv) -> (r: Pv)
        ensures
            r@ == value_mul(self@, other@),
    {
        match (self, &other) {
            (Pv::Int(v1), Pv::Int(v2)) => Pv::from(v1.mul(v2)),
            _ => Pv::invalid(),
        }
    }
}

impl vstd::std_specs::ops::MulSpecImpl<Pv> for Pv {
    open spec fn obeys_mul_spec() -> bool {
        false
    }

    open spec fn mul_req(self, other: Pv) -> bool {
        true
    }

    open spec fn mul_spec(self, other: Pv) -> Pv {
        arbitrary()
    }
}

impl Div<&Pv> for Pv {
    type Output = Pv;

    fn div(self, other: &Pv) -> (r: Pv)
        ensures
            r@ == value_div(self@, other@),
    {
        match (self, other) {
            (Pv::Int(v1), Pv::Int(v2)) => Pv::from(v1.div(v2)),
            _ => Pv::invalid(),
        }
    }
}

impl vstd::std_specs::ops::DivSpecImpl<&Pv> for Pv {
    open spec fn obeys_div_spec() -> bool {
        false
    }

    open spec fn div_req(self, other: &Pv) -> bool {
        can_divide(self@, other@)
    }

    open spec fn div_spec(self, other: &Pv) -> Pv {
        arbitrary()
    }
}

impl Div<Pv> for Pv {
    type Output = Pv;

    fn div(self, other: Pv) -> (r: Pv)
        ensures
            r@ == value_div(self@, other@),
    {
        match (self, &other) {
            (Pv::Int(v1), Pv::Int(v2)) => Pv::from(v1.div(v2)),
            _ => Pv::invalid(),
        }
    }
}

impl vstd::std_specs::ops::DivSpecImpl<Pv> for Pv {
    open spec fn obeys_div_spec() -> bool {
        false
    }

    open spec fn div_req(self, other: Pv) -> bool {
        can_divide(self@, other@)
    }

    open spec fn div_spec(self, other: Pv) -> Pv {
        arbitrary()
    }
}

impl Rem<&Pv> for Pv {
    type Output = Pv;

    fn rem(self, other: &Pv) -> (r: Pv)
        ensures
            r@ == value_rem(self@, other@),
    {
        match (self, other) {
            (Pv::Int(v1), Pv::Int(v2)) => Pv::from(v1.rem(v2)),
            _ => Pv::invalid(),
        }
    }
}

impl vstd::std_specs::ops::RemSpecImpl<&Pv> for Pv {
    open spec fn obeys_rem_spec() -> bool {
        false
    }

    open spec fn rem_req(self, other: &Pv) -> bool {
        can_divide(self@, other@)
    }

    open spec fn rem_spec(self, other: &Pv) -> Pv {
        arbitrary()
    }
}

impl Rem<Pv> for Pv {
    type Output = Pv;

    fn rem(self, other: Pv) -> (r: Pv)
        ensures
            r@ == value_rem(self@, other@),
    {
        match (self, &other) {
            (Pv::Int(v1), Pv::Int(v2)) => Pv::from(v1.rem(v2)),
            _ => Pv::invalid(),
        }
    }
}

impl vstd::std_specs::ops::RemSpecImpl<Pv> for Pv {
    open spec fn obeys_rem_spec() -> bool {
        false
    }

    open spec fn rem_req(self, other: Pv) -> bool {
        can_divide(self@, other@)
    }

    open spec fn rem_spec(self, other: Pv) -> Pv {
        arbitrary()
    }
}

}
