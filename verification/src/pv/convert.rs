//! Values from plain values and from their parts.

use crate::pv::{values_of, Pv, PvArray, PvBool, PvInt, PvInvalid, PvNull, PvString, PvValue};
use vstd::prelude::*;

verus! {

impl From<PvInvalid> for Pv {
    fn from(value: PvInvalid) -> (r: Self) {
        Pv::Invalid(value)
    }
}

impl vstd::std_specs::convert::FromSpecImpl<PvInvalid> for Pv {
    open spec fn obeys_from_spec() -> bool {
        true
    }

    open spec fn from_spec(value: PvInvalid) -> Pv {
        Pv::Invalid(value)
    }
}

impl From<PvNull> for Pv {
    fn from(value: PvNull) -> (r: Self) {
        Pv::Null(value)
    }
}

impl vstd::std_specs::convert::FromSpecImpl<PvNull> for Pv {
    open spec fn obeys_from_spec() -> bool {
        true
    }

    open spec fn from_spec(value: PvNull) -> Pv {
        Pv::Null(value)
    }
}

impl From<PvBool> for Pv {
    fn from(value: PvBool) -> (r: Self) {
        Pv::Bool(value)
    }
}

impl vstd::std_specs::convert::FromSpecImpl<PvBool> for Pv {
    open spec fn obeys_from_spec() -> bool {
        true
    }

    open spec fn from_spec(value: PvBool) -> Pv {
        Pv::Bool(value)
    }
}

impl From<bool> for Pv {
    fn from(value: bool) -> (r: Self) {
        PvBool::from(value).into()
    }
}

impl vstd::std_specs::convert::FromSpecImpl<bool> for Pv {
    open spec fn obeys_from_spec() -> bool {
        true
    }

    open spec fn from_spec(value: bool) -> Pv {
        Pv::Bool(PvBool(value))
    }
}

impl From<PvInt> for Pv {
    fn from(value: PvInt) -> (r: Self) {
        Pv::Int(value)
    }
}

impl vstd::std_specs::convert::FromSpecImpl<PvInt> for Pv {
    open spec fn obeys_from_spec() -> bool {
        true
    }

    open spec fn from_spec(value: PvInt) -> Pv {
        Pv::Int(value)
    }
}

impl From<isize> for Pv {
    fn from(value: isize) -> (r: Self) {
        PvInt::from(value).into()
    }
}

impl vstd::std_specs::convert::FromSpecImpl<isize> for Pv {
    open spec fn obeys_from_spec() -> bool {
        true
    }

    open spec fn from_spec(value: isize) -> Pv {
        Pv::Int(PvInt(value))
    }
}

impl From<PvString> for Pv {
    fn from(value: PvString) -> (r: Self) {
        Pv::String(value)
    }
}

impl vstd::std_specs::convert::FromSpecImpl<PvString> for Pv {
    open spec fn obeys_from_spec() -> bool {
        true
    }

    open spec fn from_spec(value: PvString) -> Pv {
        Pv::String(value)
    }
}

impl From<PvArray> for Pv {
    fn from(value: PvArray) -> (r: Self) {
        Pv::Array(value)
    }
}

impl vstd::std_specs::convert::FromSpecImpl<PvArray> for Pv {
    open spec fn obeys_from_spec() -> bool {
        true
    }

    open spec fn from_spec(value: PvArray) -> Pv {
        Pv::Array(value)
    }
}

impl From<&str> for Pv {
    fn from(value: &str) -> (r: Self)
        ensures
            r@ == PvValue::String(vstd::utf8::encode_utf8(value@)),
    {
        PvString::from(value).into()
    }
}

impl vstd::std_specs::convert::FromSpecImpl<&str> for Pv {
    open spec fn obeys_from_spec() -> bool {
        false
    }

    open spec fn from_spec(value: &str) -> Pv {
        arbitrary()
    }
}

impl From<&[Pv]> for Pv {
    fn from(value: &[Pv]) -> (r: Self)
        ensures
            r@ == PvValue::Array(values_of(value@)),
    {
        PvArray::from(value).into()
    }
}

impl vstd::std_specs::convert::FromSpecImpl<&[Pv]> for Pv {
    open spec fn obeys_from_spec() -> bool {
        false
    }

    open spec fn from_spec(value: &[Pv]) -> Pv {
        arbitrary()
    }
}

impl<T: Into<Pv>> From<Option<T>> for Pv {
    fn from(value: Option<T>) -> (r: Self)
        ensures
            value is None ==> r == Pv::Null(PvNull),
            value matches Some(inner) ==> call_ensures(T::into, (inner,), r),
    {
        match value {
            Some(value) => value.into(),
            None => Pv::null(),
        }
    }
}

impl<T: Into<Pv>> vstd::std_specs::convert::FromSpecImpl<Option<T>> for Pv {
    open spec fn obeys_from_spec() -> bool {
        false
    }

    open spec fn from_spec(value: Option<T>) -> Pv {
        arbitrary()
    }
}

}
