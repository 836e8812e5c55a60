//! The build error taxonomy: structural errors, type errors, unresolved
//! symbols, and unsupported constructs. Every lowering failure is reported
//! through these values; no failure aborts the process.

use vstd::prelude::*;
use crate::ast::UnaryOp;
use crate::value_type::ValueType;

verus! {

/// The four classes of build failure.
#[derive(Debug, Clone, Copy, PartialEq, Eq, Structural)]
pub enum ErrorClass {
    StructuralError,
    TypeError,
    UnresolvedSymbolError,
    UnsupportedConstructError,
}

/// A build error. Each variant carries enough context (construct or
/// binding name, expected versus found type) to pinpoint the cause.
#[derive(Debug, Clone)]
pub enum BuildError {
    /// The program contains no functions.
    EmptyProgram,
    /// No zero-argument entry function named `main` exists.
    MissingMain,
    /// A declared type name is not one of the recognized names.
    UnknownTypeName { name: String },
    /// A `let` or assignment tried to store a unit value.
    UnitValue { name: String },
    /// An argument to an in-module call produced no runtime value.
    UnitCallArg { name: String },
    /// Re-assignment with a different value type than the binding's fixed type.
    AssignTypeMismatch { name: String, existing: ValueType, found: ValueType },
    /// An `if` condition that is not a boolean.
    CondNotBool { found: ValueType },
    /// Binary operands that still differ after the one coercion rule.
    BinaryTypeMismatch { left: ValueType, right: ValueType },
    /// Binary arithmetic or comparison on operands other than `F64`.
    NonFloatArithmetic { found: ValueType },
    /// A unary operator applied to an operand of the wrong type.
    UnaryTypeMismatch { op: UnaryOp, found: ValueType },
    /// A call with the wrong number of arguments.
    ArityMismatch { name: String, expected: usize, found: usize },
    /// A call argument whose value type differs from the declared one.
    ArgTypeMismatch { name: String, expected: ValueType, found: ValueType },
    /// A registered signature mentions a type outside the six value types
    /// where a value type is required.
    NonValueParam { name: String },
    /// An identifier with no binding in the current function.
    UnknownIdentifier { name: String },
    /// A callee name that neither the registry nor the module resolves.
    UnknownFunction { name: String },
    /// A runtime service name the registry does not hold.
    UnresolvedSymbol { name: String },
    /// A construct the code generator does not implement.
    UnsupportedConstruct { construct: String },
    /// A `for` range whose ends are not both numeric.
    RangeNotNumeric { start: ValueType, end: ValueType },
    /// A range expression outside a `for` header.
    RangeOutsideFor,
}

/// The ghost mirror of `BuildError`, with names as character sequences.
pub enum BuildErrV {
    EmptyProgram,
    MissingMain,
    UnknownTypeName { name: Seq<char> },
    UnitValue { name: Seq<char> },
    UnitCallArg { name: Seq<char> },
    AssignTypeMismatch { name: Seq<char>, existing: ValueType, found: ValueType },
    CondNotBool { found: ValueType },
    BinaryTypeMismatch { left: ValueType, right: ValueType },
    NonFloatArithmetic { found: ValueType },
    UnaryTypeMismatch { op: UnaryOp, found: ValueType },
    ArityMismatch { name: Seq<char>, expected: int, found: int },
    ArgTypeMismatch { name: Seq<char>, expected: ValueType, found: ValueType },
    NonValueParam { name: Seq<char> },
    UnknownIdentifier { name: Seq<char> },
    UnknownFunction { name: Seq<char> },
    UnresolvedSymbol { name: Seq<char> },
    UnsupportedConstruct { construct: Seq<char> },
    RangeNotNumeric { start: ValueType, end: ValueType },
    RangeOutsideFor,
}

impl View for BuildError {
    type V = BuildErrV;

    open spec fn view(&self) -> BuildErrV {
        match self {
            BuildError::EmptyProgram => BuildErrV::EmptyProgram,
            BuildError::MissingMain => BuildErrV::MissingMain,
            BuildError::UnknownTypeName { name } => BuildErrV::UnknownTypeName { name: name@ },
            BuildError::UnitValue { name } => BuildErrV::UnitValue { name: name@ },
            BuildError::UnitCallArg { name } => BuildErrV::UnitCallArg { name: name@ },
            BuildError::AssignTypeMismatch { name, existing, found } => {
                BuildErrV::AssignTypeMismatch { name: name@, existing: *existing, found: *found }
            },
            BuildError::CondNotBool { found } => BuildErrV::CondNotBool { found: *found },
            BuildError::BinaryTypeMismatch { left, right } => {
                BuildErrV::BinaryTypeMismatch { left: *left, right: *right }
            },
            BuildError::NonFloatArithmetic { found } => {
                BuildErrV::NonFloatArithmetic { found: *found }
            },
            BuildError::UnaryTypeMismatch { op, found } => {
                BuildErrV::UnaryTypeMismatch { op: *op, found: *found }
            },
            BuildError::ArityMismatch { name, expected, found } => {
                BuildErrV::ArityMismatch {
                    name: name@,
                    expected: *expected as int,
                    found: *found as int,
                }
            },
            BuildError::ArgTypeMismatch { name, expected, found } => {
                BuildErrV::ArgTypeMismatch { name: name@, expected: *expected, found: *found }
            },
            BuildError::NonValueParam { name } => BuildErrV::NonValueParam { name: name@ },
            BuildError::UnknownIdentifier { name } => {
                BuildErrV::UnknownIdentifier { name: name@ }
            },
            BuildError::UnknownFunction { name } => BuildErrV::UnknownFunction { name: name@ },
            BuildError::UnresolvedSymbol { name } => BuildErrV::UnresolvedSymbol { name: name@ },
            BuildError::UnsupportedConstruct { construct } => {
                BuildErrV::UnsupportedConstruct { construct: construct@ }
            },
            BuildError::RangeNotNumeric { start, end } => {
                BuildErrV::RangeNotNumeric { start: *start, end: *end }
            },
            BuildError::RangeOutsideFor => BuildErrV::RangeOutsideFor,
        }
    }
}

/// The class a ghost error value belongs to.
pub open spec fn spec_class(e: BuildErrV) -> ErrorClass {
    match e {
        BuildErrV::EmptyProgram => ErrorClass::StructuralError,
        BuildErrV::MissingMain => ErrorClass::StructuralError,
        BuildErrV::UnknownTypeName { .. } => ErrorClass::TypeError,
        BuildErrV::UnitValue { .. } => ErrorClass::TypeError,
        BuildErrV::UnitCallArg { .. } => ErrorClass::TypeError,
        BuildErrV::AssignTypeMismatch { .. } => ErrorClass::TypeError,
        BuildErrV::CondNotBool { .. } => ErrorClass::TypeError,
        BuildErrV::BinaryTypeMismatch { .. } => ErrorClass::TypeError,
        BuildErrV::NonFloatArithmetic { .. } => ErrorClass::TypeError,
        BuildErrV::UnaryTypeMismatch { .. } => ErrorClass::TypeError,
        BuildErrV::ArityMismatch { .. } => ErrorClass::TypeError,
        BuildErrV::ArgTypeMismatch { .. } => ErrorClass::TypeError,
        BuildErrV::NonValueParam { .. } => ErrorClass::TypeError,
        BuildErrV::UnknownIdentifier { .. } => ErrorClass::UnresolvedSymbolError,
        BuildErrV::UnknownFunction { .. } => ErrorClass::UnresolvedSymbolError,
        BuildErrV::UnresolvedSymbol { .. } => ErrorClass::UnresolvedSymbolError,
        BuildErrV::UnsupportedConstruct { .. } => ErrorClass::UnsupportedConstructError,
        BuildErrV::RangeNotNumeric { .. } => ErrorClass::TypeError,
        BuildErrV::RangeOutsideFor => ErrorClass::TypeError,
    }
}

impl BuildError {
    /// The class this error belongs to.
    pub fn class(&self) -> (r: ErrorClass)
        ensures
            r == spec_class(self@),
    {
        match self {
            BuildError::EmptyProgram => ErrorClass::StructuralError,
            BuildError::MissingMain => ErrorClass::StructuralError,
            BuildError::UnknownIdentifier { .. } => ErrorClass::UnresolvedSymbolError,
            BuildError::UnknownFunction { .. } => ErrorClass::UnresolvedSymbolError,
            BuildError::UnresolvedSymbol { .. } => ErrorClass::UnresolvedSymbolError,
            BuildError::UnsupportedConstruct { .. } => ErrorClass::UnsupportedConstructError,
            _ => ErrorClass::TypeError,
        }
    }
}

} // verus!
