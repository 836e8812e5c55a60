//! The foreign-function boundary: the extended type lattice used to
//! describe callable signatures, and the narrowing projection from that
//! lattice to the value types the code generator can construct.

use vstd::prelude::*;
use crate::value_type::ValueType;

verus! {

/// The extended type lattice of the foreign-function boundary: a strict
/// superset of the value types, because the boundary must describe shapes
/// the code generator itself rejects at lowering time.
#[derive(Debug)]
pub enum FfiType {
    Unit,
    Bool,
    I32,
    I64,
    F64,
    Str,
    Opaque,
    List,
    /// An associative-map shape.
    Dict,
    Struct { fields: Vec<FfiType> },
    Tuple(Vec<FfiType>),
}

/// The narrowing projection from the foreign lattice to the value types.
/// It succeeds exactly for the six value-type members and fails for
/// `Opaque`, `List`, `Dict`, `Struct` and `Tuple`: a compile error, never a
/// silent default.
pub open spec fn spec_value_of_ffi(t: FfiType) -> Option<ValueType> {
    match t {
        FfiType::Unit => Some(ValueType::Unit),
        FfiType::Bool => Some(ValueType::Bool),
        FfiType::I32 => Some(ValueType::I32),
        FfiType::I64 => Some(ValueType::I64),
        FfiType::F64 => Some(ValueType::F64),
        FfiType::Str => Some(ValueType::Str),
        FfiType::Opaque => None,
        FfiType::List => None,
        FfiType::Dict => None,
        FfiType::Struct { .. } => None,
        FfiType::Tuple(..) => None,
    }
}

pub fn value_of_ffi(t: &FfiType) -> (r: Option<ValueType>)
    ensures
        r == spec_value_of_ffi(*t),
{
    match t {
        FfiType::Unit => Some(ValueType::Unit),
        FfiType::Bool => Some(ValueType::Bool),
        FfiType::I32 => Some(ValueType::I32),
        FfiType::I64 => Some(ValueType::I64),
        FfiType::F64 => Some(ValueType::F64),
        FfiType::Str => Some(ValueType::Str),
        FfiType::Opaque => None,
        FfiType::List => None,
        FfiType::Dict => None,
        FfiType::Struct { .. } => None,
        FfiType::Tuple(..) => None,
    }
}

/// A callable's signature at the foreign boundary: ordered parameter types
/// and a result type.
#[derive(Debug)]
pub struct FfiSignature {
    pub params: Vec<FfiType>,
    pub result: FfiType,
}

impl FfiSignature {
    pub fn new(params: Vec<FfiType>, result: FfiType) -> (r: Self)
        ensures
            r.params == params,
            r.result == result,
    {
        FfiSignature { params, result }
    }
}

/// One foreign-function entry: a dotted qualified name, the native symbol
/// it resolves to, and its signature.
#[derive(Debug)]
pub struct FfiFunction {
    pub name: String,
    pub symbol: String,
    pub signature: FfiSignature,
}


/// The textual form of a foreign type, as diagnostics print it.
pub open spec fn spec_describe(t: FfiType) -> Seq<char>
    decreases t, 0int,
{
    match t {
        FfiType::Unit => "unit"@,
        FfiType::Bool => "bool"@,
        FfiType::I32 => "i32"@,
        FfiType::I64 => "i64"@,
        FfiType::F64 => "f64"@,
        FfiType::Str => "str"@,
        FfiType::Opaque => "opaque"@,
        FfiType::List => "list"@,
        FfiType::Dict => "map"@,
        FfiType::Struct { fields } => "struct {"@ + spec_describe_fields(fields@, 0) + "}"@,
        FfiType::Tuple(fields) => "("@ + spec_describe_fields(fields@, 0) + ")"@,
    }
}

/// The textual form of a field list from position `i`, comma-separated.
pub open spec fn spec_describe_fields(fields: Seq<FfiType>, i: nat) -> Seq<char>
    decreases fields, fields.len() - i,
{
    if i >= fields.len() {
        Seq::empty()
    } else {
        (if i > 0 {
            ", "@
        } else {
            Seq::<char>::empty()
        }) + spec_describe(fields[i as int]) + spec_describe_fields(fields, i + 1)
    }
}

/// The textual form of a whole signature: the parameter list in
/// parentheses, then the result type.
pub open spec fn spec_describe_signature(sig: FfiSignature) -> Seq<char> {
    "("@ + spec_describe_fields(sig.params@, 0) + ") -> "@ + spec_describe(sig.result)
}

impl FfiType {
    /// Renders the type as diagnostics print it.
    pub fn describe(&self) -> (r: String)
        ensures
            r@ == spec_describe(*self),
        decreases *self, 0int,
    {
        proof {
            reveal_strlit("unit");
            reveal_strlit("bool");
            reveal_strlit("i32");
            reveal_strlit("i64");
            reveal_strlit("f64");
            reveal_strlit("str");
            reveal_strlit("opaque");
            reveal_strlit("list");
            reveal_strlit("map");
            reveal_strlit("struct {");
            reveal_strlit("}");
            reveal_strlit("(");
            reveal_strlit(")");
        }
        match self {
            FfiType::Unit => "unit".to_owned(),
            FfiType::Bool => "bool".to_owned(),
            FfiType::I32 => "i32".to_owned(),
            FfiType::I64 => "i64".to_owned(),
            FfiType::F64 => "f64".to_owned(),
            FfiType::Str => "str".to_owned(),
            FfiType::Opaque => "opaque".to_owned(),
            FfiType::List => "list".to_owned(),
            FfiType::Dict => "map".to_owned(),
            FfiType::Struct { fields } => {
                let mut out = "struct {".to_owned();
                out.append(describe_fields(fields, 0).as_str());
                out.append("}");
                proof {
                    assert(out@ =~= spec_describe(*self));
                }
                out
            },
            FfiType::Tuple(fields) => {
                let mut out = "(".to_owned();
                out.append(describe_fields(fields, 0).as_str());
                out.append(")");
                proof {
                    assert(out@ =~= spec_describe(*self));
                }
                out
            },
        }
    }
}

fn describe_fields(fields: &Vec<FfiType>, i: usize) -> (r: String)
    requires
        i <= fields@.len(),
    ensures
        r@ == spec_describe_fields(fields@, i as nat),
    decreases fields@, fields@.len() - i,
{
    if i == fields.len() {
        return String::new();
    }
    let mut out = if i > 0 {
        ", ".to_owned()
    } else {
        String::new()
    };
    out.append(fields[i].describe().as_str());
    out.append(describe_fields(fields, i + 1).as_str());
    proof {
        reveal_strlit(", ");
        assert(out@ =~= spec_describe_fields(fields@, i as nat));
    }
    out
}

impl FfiSignature {
    /// Renders the signature as diagnostics print it.
    pub fn describe(&self) -> (r: String)
        ensures
            r@ == spec_describe_signature(*self),
    {
        proof {
            reveal_strlit("(");
            reveal_strlit(") -> ");
        }
        let mut out = "(".to_owned();
        out.append(describe_fields(&self.params, 0).as_str());
        out.append(") -> ");
        out.append(self.result.describe().as_str());
        proof {
            assert(out@ =~= spec_describe_signature(*self));
        }
        out
    }
}

} // verus!
