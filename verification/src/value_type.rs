//! The value-type lattice the code generator can represent directly, its
//! native representations, and the single implicit coercion rule.

use vstd::prelude::*;
use crate::strutil::str_eq;

verus! {

/// The value types the code generator can represent directly in machine
/// terms. `Unit` has no runtime representation: it is legal only as a
/// "no return value" marker.
#[derive(Clone, Copy, Debug, PartialEq, Eq, Structural)]
pub enum ValueType {
    Unit,
    Bool,
    I32,
    I64,
    F64,
    Str,
}

/// The native representations values are lowered to: fixed-width integers,
/// a double-precision float, and a pointer (strings are pointers to
/// null-terminated byte sequences).
#[derive(Clone, Copy, Debug, PartialEq, Eq, Structural)]
pub enum NativeType {
    I1,
    I32,
    I64,
    F64,
    Ptr,
}

pub open spec fn spec_type_from_name(name: Seq<char>) -> Option<ValueType> {
    if name == "int"@ {
        Some(ValueType::I64)
    } else if name == "float"@ {
        Some(ValueType::F64)
    } else if name == "bool"@ {
        Some(ValueType::Bool)
    } else if name == "str"@ {
        Some(ValueType::Str)
    } else {
        None
    }
}

/// Maps a declared type name to its value type. An unrecognized name yields
/// `None`, which callers report as a build error.
pub fn type_from_name(name: &str) -> (r: Option<ValueType>)
    ensures
        r == spec_type_from_name(name@),
{
    if str_eq(name, "int") {
        Some(ValueType::I64)
    } else if str_eq(name, "float") {
        Some(ValueType::F64)
    } else if str_eq(name, "bool") {
        Some(ValueType::Bool)
    } else if str_eq(name, "str") {
        Some(ValueType::Str)
    } else {
        None
    }
}

/// The native representation of each value type; `Unit` has none.
pub open spec fn spec_basic_type(ty: ValueType) -> Option<NativeType> {
    match ty {
        ValueType::Unit => None,
        ValueType::Bool => Some(NativeType::I1),
        ValueType::I32 => Some(NativeType::I32),
        ValueType::I64 => Some(NativeType::I64),
        ValueType::F64 => Some(NativeType::F64),
        ValueType::Str => Some(NativeType::Ptr),
    }
}

pub fn basic_type(ty: ValueType) -> (r: Option<NativeType>)
    ensures
        r == spec_basic_type(ty),
{
    match ty {
        ValueType::Unit => None,
        ValueType::Bool => Some(NativeType::I1),
        ValueType::I32 => Some(NativeType::I32),
        ValueType::I64 => Some(NativeType::I64),
        ValueType::F64 => Some(NativeType::F64),
        ValueType::Str => Some(NativeType::Ptr),
    }
}

/// The value type a caller infers from a native return representation when
/// no declared type is available: floats are `F64`, integers are `I64`,
/// anything else is `I32`. This deliberately loses `Bool` and `Str`.
pub open spec fn spec_value_of_native(t: Option<NativeType>) -> ValueType {
    match t {
        Option::None => ValueType::Unit,
        Option::Some(NativeType::F64) => ValueType::F64,
        Option::Some(NativeType::I1) => ValueType::I64,
        Option::Some(NativeType::I32) => ValueType::I64,
        Option::Some(NativeType::I64) => ValueType::I64,
        Option::Some(NativeType::Ptr) => ValueType::I32,
    }
}

pub fn value_of_native(t: Option<NativeType>) -> (r: ValueType)
    ensures
        r == spec_value_of_native(t),
{
    match t {
        Option::None => ValueType::Unit,
        Option::Some(NativeType::F64) => ValueType::F64,
        Option::Some(NativeType::I1) => ValueType::I64,
        Option::Some(NativeType::I32) => ValueType::I64,
        Option::Some(NativeType::I64) => ValueType::I64,
        Option::Some(NativeType::Ptr) => ValueType::I32,
    }
}

/// The one implicit coercion rule for binary operands: when one side is
/// `I64` and the other `F64`, the integer side widens to `F64`. No other
/// implicit coercion exists.
pub open spec fn spec_coerced_operands(l: ValueType, r: ValueType) -> (ValueType, ValueType) {
    if l == ValueType::I64 && r == ValueType::F64 {
        (ValueType::F64, ValueType::F64)
    } else if l == ValueType::F64 && r == ValueType::I64 {
        (ValueType::F64, ValueType::F64)
    } else {
        (l, r)
    }
}

pub fn coerced_operands(l: ValueType, r: ValueType) -> (res: (ValueType, ValueType))
    ensures
        res == spec_coerced_operands(l, r),
{
    if l == ValueType::I64 && r == ValueType::F64 {
        (ValueType::F64, ValueType::F64)
    } else if l == ValueType::F64 && r == ValueType::I64 {
        (ValueType::F64, ValueType::F64)
    } else {
        (l, r)
    }
}

} // verus!
