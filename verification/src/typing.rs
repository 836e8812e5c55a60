//! The declarative typing rules of the code generator, as specification
//! functions. `lower` follows these exactly: a construct lowers
//! successfully if and only if these rules accept it, and the error
//! reported is the one these rules name. The rules mirror the lowering
//! order, so the first failure found is the one reported.

use vstd::prelude::*;
use crate::ast::{BinaryOp, Expr, Function, Literal, Program, Statement, UnaryOp};
use crate::error::{BuildErrV, spec_class};
use crate::ffi::{FfiFunction, FfiType, spec_value_of_ffi};
use crate::value_type::{
    NativeType, ValueType, spec_basic_type, spec_coerced_operands, spec_type_from_name,
    spec_value_of_native,
};

verus! {

/// The declared header of a function already added to the module: its name
/// and native parameter and return representations.
#[derive(Debug)]
pub struct FnDecl {
    pub name: String,
    pub params: Vec<NativeType>,
    pub ret: Option<NativeType>,
}

/// Ghost mirror of a declared header.
pub struct FnDeclV {
    pub name: Seq<char>,
    pub params: Seq<NativeType>,
    pub ret: Option<NativeType>,
}

impl View for FnDecl {
    type V = FnDeclV;

    open spec fn view(&self) -> FnDeclV {
        FnDeclV { name: self.name@, params: self.params@, ret: self.ret }
    }
}

/// What name resolution sees while lowering one function: the symbol
/// registry's catalog and the functions declared in the module so far.
pub struct CheckCtx {
    pub reg: Map<Seq<char>, FfiFunction>,
    pub decls: Seq<FnDeclV>,
}

/// The first declared function of the given name, if any.
pub open spec fn find_decl(decls: Seq<FnDeclV>, name: Seq<char>) -> Option<FnDeclV>
    decreases decls.len(),
{
    if decls.len() == 0 {
        None
    } else if decls[0].name == name {
        Some(decls[0])
    } else {
        find_decl(decls.drop_first(), name)
    }
}

/// Whether every parameter of a foreign signature narrows to a non-unit
/// value type: unit is not allowed in parameter position, and the extended
/// lattice members have no parameter representation.
pub open spec fn ffi_params_ok(params: Seq<FfiType>) -> bool {
    forall|i: int|
        0 <= i < params.len() ==> match spec_value_of_ffi(#[trigger] params[i]) {
            Some(vt) => vt != ValueType::Unit,
            None => false,
        }
}

/// Whether a foreign result type narrows to a value type (unit stands for
/// "no return value" and is allowed).
pub open spec fn ffi_result_ok(result: FfiType) -> bool {
    spec_value_of_ffi(result) is Some
}

/// Whether a whole foreign signature can be declared in the module.
pub open spec fn ffi_sig_ok(params: Seq<FfiType>, result: FfiType) -> bool {
    ffi_params_ok(params) && ffi_result_ok(result)
}

/// The native return slot of a declared foreign signature: none for unit.
pub open spec fn ffi_ret_native(result: FfiType) -> Option<NativeType> {
    spec_basic_type(spec_value_of_ffi(result).unwrap())
}

/// The type of a literal: strings are `Str`, numbers are `F64` (every
/// number in the surface language is a double), booleans are `Bool`.
pub open spec fn check_literal(l: Literal) -> ValueType {
    match l {
        Literal::String(..) => ValueType::Str,
        Literal::Number(..) => ValueType::F64,
        Literal::Bool(..) => ValueType::Bool,
    }
}

/// The type of an expression under a binding environment, or the build
/// error its lowering reports.
pub open spec fn check_expr(cx: CheckCtx, env: Map<Seq<char>, ValueType>, e: Expr) -> Result<
    ValueType,
    BuildErrV,
>
    decreases e, 0int, 0int,
{
    match e {
        Expr::Literal(l) => Ok(check_literal(l)),
        Expr::Identifier(name) => {
            if env.contains_key(name@) {
                Ok(env[name@])
            } else {
                Err(BuildErrV::UnknownIdentifier { name: name@ })
            }
        },
        Expr::Binary { op, left, right } => {
            match check_expr(cx, env, *left) {
                Err(er) => Err(er),
                Ok(lt) => match check_expr(cx, env, *right) {
                    Err(er) => Err(er),
                    Ok(rt) => {
                        let c = spec_coerced_operands(lt, rt);
                        if c.0 != c.1 {
                            Err(BuildErrV::BinaryTypeMismatch { left: c.0, right: c.1 })
                        } else if c.0 != ValueType::F64 {
                            Err(BuildErrV::NonFloatArithmetic { found: c.0 })
                        } else {
                            match op {
                                BinaryOp::And => Err(
                                    BuildErrV::UnsupportedConstruct { construct: "logical and"@ },
                                ),
                                BinaryOp::Or => Err(
                                    BuildErrV::UnsupportedConstruct { construct: "logical or"@ },
                                ),
                                BinaryOp::Add => Ok(ValueType::F64),
                                BinaryOp::Sub => Ok(ValueType::F64),
                                BinaryOp::Mul => Ok(ValueType::F64),
                                BinaryOp::Div => Ok(ValueType::F64),
                                BinaryOp::Mod => Ok(ValueType::F64),
                                BinaryOp::Eq => Ok(ValueType::Bool),
                                BinaryOp::Ne => Ok(ValueType::Bool),
                                BinaryOp::Lt => Ok(ValueType::Bool),
                                BinaryOp::Gt => Ok(ValueType::Bool),
                                BinaryOp::LtEq => Ok(ValueType::Bool),
                                BinaryOp::GtEq => Ok(ValueType::Bool),
                            }
                        }
                    },
                },
            }
        },
        Expr::Call { func, args } => check_call(cx, env, *func, args@),
        Expr::Unary { op, expr } => {
            match check_expr(cx, env, *expr) {
                Err(er) => Err(er),
                Ok(t) => match op {
                    UnaryOp::Neg => {
                        if t != ValueType::F64 {
                            Err(BuildErrV::UnaryTypeMismatch { op, found: t })
                        } else {
                            Ok(ValueType::F64)
                        }
                    },
                    UnaryOp::Not => {
                        if t != ValueType::Bool {
                            Err(BuildErrV::UnaryTypeMismatch { op, found: t })
                        } else {
                            Ok(ValueType::Bool)
                        }
                    },
                },
            }
        },
        Expr::Member { .. } => Err(BuildErrV::UnsupportedConstruct { construct: "member access"@ }),
        Expr::If { .. } => Err(
            BuildErrV::UnsupportedConstruct { construct: "conditional expression"@ },
        ),
        Expr::Range { .. } => Err(BuildErrV::RangeOutsideFor),
        Expr::FString { .. } => Err(
            BuildErrV::UnsupportedConstruct { construct: "string interpolation"@ },
        ),
        Expr::Await(..) => Err(BuildErrV::UnsupportedConstruct { construct: "await"@ }),
        Expr::Spawn(..) => Err(BuildErrV::UnsupportedConstruct { construct: "spawn"@ }),
    }
}

/// The typing of a call expression. The two built-ins `print` and
/// `println` take exactly one `Str` argument and lower to runtime-service
/// calls; any other callee resolves first in the registry (exact arity and
/// per-argument types required) and otherwise against a function already
/// declared in the module (whose result type is inferred from its native
/// return representation).
pub open spec fn check_call(cx: CheckCtx, env: Map<Seq<char>, ValueType>, func: Expr, args: Seq<
    Expr,
>) -> Result<ValueType, BuildErrV>
    decreases args, 1int, 0int,
{
    match func {
        Expr::Identifier(name) => {
            if name@ == "print"@ || name@ == "println"@ {
                let service: Seq<char> = if name@ == "print"@ {
                    "std.io.print"@
                } else {
                    "std.io.println"@
                };
                if args.len() != 1 {
                    Err(BuildErrV::ArityMismatch { name: name@, expected: 1, found: args.len() as int })
                } else {
                    match check_expr(cx, env, args[0]) {
                        Err(er) => Err(er),
                        Ok(t) => {
                            if t != ValueType::Str {
                                Err(BuildErrV::ArgTypeMismatch {
                                    name: name@,
                                    expected: ValueType::Str,
                                    found: t,
                                })
                            } else if !cx.reg.contains_key(service) {
                                Err(BuildErrV::UnresolvedSymbol { name: service })
                            } else if !ffi_sig_ok(
                                cx.reg[service].signature.params@,
                                cx.reg[service].signature.result,
                            ) {
                                Err(BuildErrV::NonValueParam { name: service })
                            } else {
                                Ok(ValueType::Unit)
                            }
                        },
                    }
                }
            } else if cx.reg.contains_key(name@) {
                let entry = cx.reg[name@];
                if entry.signature.params@.len() != args.len() {
                    Err(BuildErrV::ArityMismatch {
                        name: name@,
                        expected: entry.signature.params@.len() as int,
                        found: args.len() as int,
                    })
                } else if !ffi_sig_ok(entry.signature.params@, entry.signature.result) {
                    Err(BuildErrV::NonValueParam { name: name@ })
                } else {
                    match check_args_ffi(cx, env, args, entry.signature.params@, name@, 0) {
                        Err(er) => Err(er),
                        Ok(..) => Ok(spec_value_of_ffi(entry.signature.result).unwrap()),
                    }
                }
            } else {
                match find_decl(cx.decls, name@) {
                    Some(d) => match check_args_module(cx, env, args, name@, 0) {
                        Err(er) => Err(er),
                        Ok(..) => Ok(spec_value_of_native(d.ret)),
                    },
                    None => Err(BuildErrV::UnknownFunction { name: name@ }),
                }
            }
        },
        _ => Err(BuildErrV::UnsupportedConstruct { construct: "non-identifier call target"@ }),
    }
}

/// Left-to-right checking of registry-call arguments from position `i`:
/// each argument must have exactly the declared parameter's value type.
pub open spec fn check_args_ffi(
    cx: CheckCtx,
    env: Map<Seq<char>, ValueType>,
    args: Seq<Expr>,
    params: Seq<FfiType>,
    name: Seq<char>,
    i: nat,
) -> Result<(), BuildErrV>
    decreases args, 0int, args.len() - i,
{
    if i >= args.len() {
        Ok(())
    } else {
        match check_expr(cx, env, args[i as int]) {
            Err(er) => Err(er),
            Ok(t) => {
                let expected = spec_value_of_ffi(params[i as int]).unwrap();
                if t != expected {
                    Err(BuildErrV::ArgTypeMismatch { name, expected, found: t })
                } else {
                    check_args_ffi(cx, env, args, params, name, i + 1)
                }
            },
        }
    }
}

/// Left-to-right checking of in-module call arguments from position `i`:
/// no declared types exist to compare against, but each argument must
/// produce a runtime value, so unit is rejected.
pub open spec fn check_args_module(
    cx: CheckCtx,
    env: Map<Seq<char>, ValueType>,
    args: Seq<Expr>,
    name: Seq<char>,
    i: nat,
) -> Result<(), BuildErrV>
    decreases args, 0int, args.len() - i,
{
    if i >= args.len() {
        Ok(())
    } else {
        match check_expr(cx, env, args[i as int]) {
            Err(er) => Err(er),
            Ok(t) => {
                if t == ValueType::Unit {
                    Err(BuildErrV::UnitCallArg { name })
                } else {
                    check_args_module(cx, env, args, name, i + 1)
                }
            },
        }
    }
}

/// The loop value type of a `for` range, per operand types: float ranges
/// and mixed ranges run in floating point, integer ranges in `I64`.
pub open spec fn range_loop_type(ts: ValueType, te: ValueType) -> Option<ValueType> {
    if ts == ValueType::F64 && te == ValueType::F64 {
        Some(ValueType::F64)
    } else if (ts == ValueType::I64 && te == ValueType::I64) || (ts == ValueType::I32 && te
        == ValueType::I32) {
        Some(ValueType::I64)
    } else if (ts == ValueType::F64 && te == ValueType::I64) || (ts == ValueType::I64 && te
        == ValueType::F64) {
        Some(ValueType::F64)
    } else {
        None
    }
}

/// The effect of one statement on the binding environment, or the build
/// error its lowering reports. Bindings made inside `if` arms and loop
/// bodies stay visible afterwards: there is one binding table per function
/// activation.
pub open spec fn check_stmt(cx: CheckCtx, env: Map<Seq<char>, ValueType>, s: Statement) -> Result<
    Map<Seq<char>, ValueType>,
    BuildErrV,
>
    decreases s, 0int, 0int,
{
    match s {
        Statement::Expr(e) => {
            match check_expr(cx, env, e) {
                Err(er) => Err(er),
                Ok(..) => Ok(env),
            }
        },
        Statement::Let { name, expr } => {
            match check_expr(cx, env, expr) {
                Err(er) => Err(er),
                Ok(t) => {
                    if t == ValueType::Unit {
                        Err(BuildErrV::UnitValue { name: name@ })
                    } else {
                        Ok(env.insert(name@, t))
                    }
                },
            }
        },
        Statement::Assignment { name, expr } => {
            match check_expr(cx, env, expr) {
                Err(er) => Err(er),
                Ok(t) => {
                    if t == ValueType::Unit {
                        Err(BuildErrV::UnitValue { name: name@ })
                    } else if env.contains_key(name@) {
                        if env[name@] != t {
                            Err(BuildErrV::AssignTypeMismatch {
                                name: name@,
                                existing: env[name@],
                                found: t,
                            })
                        } else {
                            Ok(env)
                        }
                    } else {
                        Ok(env.insert(name@, t))
                    }
                },
            }
        },
        Statement::If { cond, then_block, elif_blocks, else_block } => {
            if elif_blocks@.len() != 0 {
                Err(BuildErrV::UnsupportedConstruct { construct: "elif arm"@ })
            } else {
                match check_expr(cx, env, *cond) {
                    Err(er) => Err(er),
                    Ok(t) => {
                        if t != ValueType::Bool {
                            Err(BuildErrV::CondNotBool { found: t })
                        } else {
                            match check_stmts(cx, env, then_block.statements@, 0) {
                                Err(er) => Err(er),
                                Ok(env1) => match else_block {
                                    Some(eb) => check_stmts(cx, env1, eb.statements@, 0),
                                    None => Ok(env1),
                                },
                            }
                        }
                    },
                }
            }
        },
        Statement::For { var, iterable, body } => {
            match iterable {
                Expr::Range { start, end } => {
                    match check_expr(cx, env, *start) {
                        Err(er) => Err(er),
                        Ok(ts) => match check_expr(cx, env, *end) {
                            Err(er) => Err(er),
                            Ok(te) => match range_loop_type(ts, te) {
                                None => Err(BuildErrV::RangeNotNumeric { start: ts, end: te }),
                                Some(loop_ty) => check_stmts(
                                    cx,
                                    env.insert(var@, loop_ty),
                                    body.statements@,
                                    0,
                                ),
                            },
                        },
                    }
                },
                _ => Err(BuildErrV::UnsupportedConstruct { construct: "non-range iterable"@ }),
            }
        },
        Statement::While { .. } => Err(
            BuildErrV::UnsupportedConstruct { construct: "while loop"@ },
        ),
        Statement::Break => Err(BuildErrV::UnsupportedConstruct { construct: "break"@ }),
        Statement::Continue => Err(BuildErrV::UnsupportedConstruct { construct: "continue"@ }),
        Statement::Use { .. } => Err(BuildErrV::UnsupportedConstruct { construct: "use import"@ }),
        Statement::Block(..) => Err(
            BuildErrV::UnsupportedConstruct { construct: "block grouping"@ },
        ),
        Statement::Return(opt) => {
            match opt {
                Some(e) => match check_expr(cx, env, e) {
                    Err(er) => Err(er),
                    Ok(..) => Ok(env),
                },
                None => Ok(env),
            }
        },
        Statement::Function(..) => Ok(env),
    }
}

/// Checking a statement list in order from position `i`, threading the
/// environment.
pub open spec fn check_stmts(
    cx: CheckCtx,
    env: Map<Seq<char>, ValueType>,
    stmts: Seq<Statement>,
    i: nat,
) -> Result<Map<Seq<char>, ValueType>, BuildErrV>
    decreases stmts, stmts.len() - i, 0int,
{
    if i >= stmts.len() {
        Ok(env)
    } else {
        match check_stmt(cx, env, stmts[i as int]) {
            Err(er) => Err(er),
            Ok(env1) => check_stmts(cx, env1, stmts, i + 1),
        }
    }
}

/// The value type of one parameter: its declared name if present (an
/// unknown name is an error), else the documented default `F64`.
pub open spec fn param_value_type(ty: Option<String>) -> Result<ValueType, BuildErrV> {
    match ty {
        Some(n) => match spec_type_from_name(n@) {
            Some(t) => Ok(t),
            None => Err(BuildErrV::UnknownTypeName { name: n@ }),
        },
        None => Ok(ValueType::F64),
    }
}

/// The value types of a parameter list from position `i`.
pub open spec fn params_value_types(params: Seq<crate::ast::Param>, i: nat) -> Result<
    Seq<ValueType>,
    BuildErrV,
>
    decreases params.len() - i,
{
    if i >= params.len() {
        Ok(Seq::empty())
    } else {
        match param_value_type(params[i as int].ty) {
            Err(er) => Err(er),
            Ok(t) => match params_value_types(params, i + 1) {
                Err(er) => Err(er),
                Ok(rest) => Ok(seq![t] + rest),
            },
        }
    }
}

/// The declared return value type: its declared name if present, else the
/// documented default `I32`.
pub open spec fn ret_value_type(ty: Option<String>) -> Result<ValueType, BuildErrV> {
    match ty {
        Some(n) => match spec_type_from_name(n@) {
            Some(t) => Ok(t),
            None => Err(BuildErrV::UnknownTypeName { name: n@ }),
        },
        None => Ok(ValueType::I32),
    }
}

/// The binding environment after materializing the first `i` parameters,
/// in order; a later parameter of the same name overwrites an earlier one.
pub open spec fn params_env(params: Seq<crate::ast::Param>, tys: Seq<ValueType>, i: nat) -> Map<
    Seq<char>,
    ValueType,
>
    decreases i,
{
    if i == 0 {
        Map::empty()
    } else {
        params_env(params, tys, (i - 1) as nat).insert(
            params[i - 1].name@,
            tys[i - 1],
        )
    }
}


/// The header a function declares into the module: parameter and return
/// value types resolved from their declared names (with the documented
/// defaults `F64` and `I32`), lowered to native representations.
pub open spec fn fn_header(f: Function) -> Result<FnDeclV, BuildErrV> {
    match params_value_types(f.params@, 0) {
        Err(er) => Err(er),
        Ok(tys) => match ret_value_type(f.ret_ty) {
            Err(er) => Err(er),
            Ok(rv) => Ok(
                FnDeclV {
                    name: f.name@,
                    params: tys.map_values(|t: ValueType| spec_basic_type(t).unwrap()),
                    ret: if rv == ValueType::Unit {
                        None
                    } else {
                        spec_basic_type(rv)
                    },
                },
            ),
        },
    }
}

/// Whether one function's body lowers under a context that already holds
/// its own header (so it may call itself and everything declared before).
pub open spec fn check_function(cx: CheckCtx, f: Function) -> Result<(), BuildErrV> {
    match params_value_types(f.params@, 0) {
        Err(er) => Err(er),
        Ok(tys) => match ret_value_type(f.ret_ty) {
            Err(er) => Err(er),
            Ok(..) => match check_stmts(
                cx,
                params_env(f.params@, tys, f.params@.len()),
                f.body.statements@,
                0,
            ) {
                Err(er) => Err(er),
                Ok(..) => Ok(()),
            },
        },
    }
}

/// One function's whole check: header, then body under the extended
/// declaration list. Yields the header that the module gains.
pub open spec fn check_function_full(
    reg: Map<Seq<char>, FfiFunction>,
    decls: Seq<FnDeclV>,
    f: Function,
) -> Result<FnDeclV, BuildErrV> {
    match fn_header(f) {
        Err(er) => Err(er),
        Ok(d) => match check_function(CheckCtx { reg, decls: decls.push(d) }, f) {
            Err(er) => Err(er),
            Ok(..) => Ok(d),
        },
    }
}

/// The functions of a program, in file order.
pub open spec fn program_functions(stmts: Seq<Statement>, i: nat) -> Seq<Function>
    decreases stmts.len() - i,
{
    if i >= stmts.len() {
        Seq::empty()
    } else {
        match stmts[i as int] {
            Statement::Function(f) => seq![f] + program_functions(stmts, i + 1),
            _ => program_functions(stmts, i + 1),
        }
    }
}

/// Checking each function in file order from position `i`, accumulating
/// the declared headers. Yields the final declaration list.
pub open spec fn check_functions(
    reg: Map<Seq<char>, FfiFunction>,
    decls: Seq<FnDeclV>,
    fns: Seq<Function>,
    i: nat,
) -> Result<Seq<FnDeclV>, BuildErrV>
    decreases fns.len() - i,
{
    if i >= fns.len() {
        Ok(decls)
    } else {
        match check_function_full(reg, decls, fns[i as int]) {
            Err(er) => Err(er),
            Ok(d) => check_functions(reg, decls.push(d), fns, i + 1),
        }
    }
}

/// Whether a program holds an entry function named `main`.
pub open spec fn has_main(fns: Seq<Function>) -> bool {
    exists|i: int| 0 <= i < fns.len() && fns[i].name@ == "main"@
}

/// Whether a whole program builds: it must hold at least one function,
/// every function must lower, and an entry function named `main` must
/// exist.
pub open spec fn check_program(reg: Map<Seq<char>, FfiFunction>, p: Program) -> Result<
    (),
    BuildErrV,
> {
    let fns = program_functions(p.statements@, 0);
    if fns.len() == 0 {
        Err(BuildErrV::EmptyProgram)
    } else {
        match check_functions(reg, Seq::empty(), fns, 0) {
            Err(er) => Err(er),
            Ok(..) => {
                if has_main(fns) {
                    Ok(())
                } else {
                    Err(BuildErrV::MissingMain)
                }
            },
        }
    }
}


/// Whether a binary operator is arithmetic (else it is a comparison;
/// the two logical operators are unsupported and stand apart).
pub open spec fn arith_op(op: BinaryOp) -> bool {
    match op {
        BinaryOp::Add => true,
        BinaryOp::Sub => true,
        BinaryOp::Mul => true,
        BinaryOp::Div => true,
        BinaryOp::Mod => true,
        _ => false,
    }
}

/// Type coercion law. For a binary operation whose operands type as `lt`
/// and `rt`: when one side is `I64` and the other `F64` (either order),
/// the integer side widens and the operation is accepted — yielding `F64`
/// for arithmetic and `Bool` for comparison, exactly as two `F64` operands
/// do; when both sides agree on any type other than `F64` (two `I64`
/// included), the operation is rejected with a type error; and when the
/// sides still differ after the one coercion rule, it is rejected with a
/// type error naming both.
pub proof fn lemma_binary_coercion(
    cx: CheckCtx,
    env: Map<Seq<char>, ValueType>,
    op: BinaryOp,
    left: Expr,
    right: Expr,
    lt: ValueType,
    rt: ValueType,
)
    requires
        check_expr(cx, env, left) == Ok::<ValueType, BuildErrV>(lt),
        check_expr(cx, env, right) == Ok::<ValueType, BuildErrV>(rt),
        op != BinaryOp::And,
        op != BinaryOp::Or,
    ensures
        ({
            let r = check_expr(
                cx,
                env,
                Expr::Binary { op, left: Box::new(left), right: Box::new(right) },
            );
            let widened = (lt == ValueType::I64 && rt == ValueType::F64) || (lt == ValueType::F64
                && rt == ValueType::I64) || (lt == ValueType::F64 && rt == ValueType::F64);
            &&& widened ==> r == Ok::<ValueType, BuildErrV>(
                if arith_op(op) {
                    ValueType::F64
                } else {
                    ValueType::Bool
                },
            )
            &&& (lt == rt && lt != ValueType::F64) ==> r == Err::<ValueType, BuildErrV>(
                BuildErrV::NonFloatArithmetic { found: lt },
            ) && spec_class(r->Err_0) == crate::error::ErrorClass::TypeError
            &&& (spec_coerced_operands(lt, rt).0 != spec_coerced_operands(lt, rt).1) ==> r
                == Err::<ValueType, BuildErrV>(
                BuildErrV::BinaryTypeMismatch {
                    left: spec_coerced_operands(lt, rt).0,
                    right: spec_coerced_operands(lt, rt).1,
                },
            ) && spec_class(r->Err_0) == crate::error::ErrorClass::TypeError
        }),
{
    let e = Expr::Binary { op, left: Box::new(left), right: Box::new(right) };
    assert(check_expr(cx, env, e) == check_expr(cx, env, e));
}

} // verus!
