//! The code generator: lowers one function at a time into a control-flow
//! graph of native-style instructions, resolving calls through the symbol
//! registry and falling back to functions already declared in the module.
//! Every lowering is proved to succeed exactly when the typing rules in
//! `typing` accept the construct, and to report exactly the error those
//! rules name. A failed function build never installs a partial function
//! in the module.

use vstd::prelude::*;
use crate::ast::{Expr, Function, Param, Program, Statement, BinaryOp, UnaryOp, Literal};
use crate::error::{BuildErrV, BuildError};
use crate::ffi::{FfiSignature, FfiType, value_of_ffi};
use crate::ir::{FloatOp, FloatPred, Instr, InstrV, IrBlock, IrFunction, IrModule, Term};
use crate::registry::SymbolRegistry;
use crate::strutil::str_eq;
use crate::typing::{
    CheckCtx, FnDecl, FnDeclV, arith_op, check_args_ffi, check_args_module, check_call,
    check_expr, check_function_full, check_functions, check_program, check_stmt, check_stmts,
    ffi_params_ok, ffi_ret_native, ffi_sig_ok, find_decl, fn_header, has_main, params_env,
    params_value_types, program_functions,
};
use crate::value_type::{
    NativeType, ValueType, basic_type, spec_basic_type, type_from_name, value_of_native,
};

verus! {

/// The bit pattern of the double-precision constant one, the per-iteration
/// increment of floating-point loops.
pub const F64_ONE_BITS: u64 = 0x3FF0000000000000;

/// One variable binding of the function being lowered: name, fixed value
/// type, and the temporary holding its stack slot.
#[derive(Debug)]
pub struct Variable {
    pub name: String,
    pub ty: ValueType,
    pub slot: usize,
}

/// Each name is bound at most once in the table.
pub open spec fn unique_binding_names(s: Seq<Variable>) -> bool {
    forall|i: int, j: int| 0 <= i < j < s.len() ==> s[i].name@ != s[j].name@
}

/// No binding holds a unit value: unit has no runtime representation.
pub open spec fn non_unit_bindings(s: Seq<Variable>) -> bool {
    forall|i: int| 0 <= i < s.len() ==> (#[trigger] s[i].ty) != ValueType::Unit
}

/// The binding environment a table denotes.
pub open spec fn env_of(s: Seq<Variable>) -> Map<Seq<char>, ValueType>
    decreases s.len(),
{
    if s.len() == 0 {
        Map::empty()
    } else {
        env_of(s.drop_last()).insert(s.last().name@, s.last().ty)
    }
}

proof fn lemma_env_index(s: Seq<Variable>, i: int)
    requires
        unique_binding_names(s),
        0 <= i < s.len(),
    ensures
        env_of(s).contains_key(s[i].name@),
        env_of(s)[s[i].name@] == s[i].ty,
    decreases s.len(),
{
    if i < s.len() - 1 {
        lemma_env_index(s.drop_last(), i);
        assert(s.drop_last()[i] == s[i]);
    }
}

proof fn lemma_env_absent(s: Seq<Variable>, n: Seq<char>)
    requires
        forall|i: int| 0 <= i < s.len() ==> s[i].name@ != n,
    ensures
        !env_of(s).contains_key(n),
    decreases s.len(),
{
    if s.len() > 0 {
        lemma_env_absent(s.drop_last(), n);
    }
}

proof fn lemma_env_remove(s: Seq<Variable>, i: int)
    requires
        unique_binding_names(s),
        0 <= i < s.len(),
    ensures
        env_of(s.remove(i)) == env_of(s).remove(s[i].name@),
    decreases s.len(),
{
    if i == s.len() - 1 {
        assert(s.remove(i) =~= s.drop_last());
        lemma_env_absent(s.drop_last(), s[i].name@);
        assert(env_of(s.drop_last()).remove(s[i].name@) =~= env_of(s.drop_last()));
        assert(env_of(s).remove(s[i].name@) =~= env_of(s.drop_last()).insert(
            s.last().name@,
            s.last().ty,
        ).remove(s[i].name@));
        assert(env_of(s.drop_last()).insert(s.last().name@, s.last().ty).remove(s[i].name@)
            =~= env_of(s.drop_last()));
    } else {
        lemma_env_remove(s.drop_last(), i);
        assert(s.remove(i).drop_last() =~= s.drop_last().remove(i));
        assert(s.remove(i).last() == s.last());
        assert(s[i].name@ != s.last().name@);
        assert(env_of(s.drop_last()).remove(s[i].name@).insert(s.last().name@, s.last().ty)
            =~= env_of(s.drop_last()).insert(s.last().name@, s.last().ty).remove(s[i].name@));
    }
}

/// The stack slot a name is bound to (the latest binding wins).
pub open spec fn slot_of(s: Seq<Variable>, n: Seq<char>) -> usize
    decreases s.len(),
{
    if s.len() == 0 {
        0
    } else if s.last().name@ == n {
        s.last().slot
    } else {
        slot_of(s.drop_last(), n)
    }
}

proof fn lemma_slot_index(s: Seq<Variable>, i: int)
    requires
        unique_binding_names(s),
        0 <= i < s.len(),
    ensures
        slot_of(s, s[i].name@) == s[i].slot,
    decreases s.len(),
{
    if i < s.len() - 1 {
        lemma_slot_index(s.drop_last(), i);
        assert(s.drop_last()[i] == s[i]);
    }
}

/// The cursor block of `post` extends that of `pre` — the old instructions
/// kept as a prefix — and now ends with the given instruction.
pub open spec fn cursor_appended(pre: FunctionContext, post: FunctionContext, last: InstrV) -> bool {
    let pb = pre.blocks@[pre.cur as int]@.instrs;
    let nb = post.blocks@[pre.cur as int]@.instrs;
    &&& nb.len() > pb.len()
    &&& forall|j: int| 0 <= j < pb.len() ==> nb[j] == pb[j]
    &&& nb.last() == last
}

/// As `cursor_appended`, ending with the two given instructions in order.
pub open spec fn cursor_appended2(
    pre: FunctionContext,
    post: FunctionContext,
    second_to_last: InstrV,
    last: InstrV,
) -> bool {
    let pb = pre.blocks@[pre.cur as int]@.instrs;
    let nb = post.blocks@[pre.cur as int]@.instrs;
    &&& nb.len() >= pb.len() + 2
    &&& forall|j: int| 0 <= j < pb.len() ==> nb[j] == pb[j]
    &&& nb[nb.len() - 2] == second_to_last
    &&& nb.last() == last
}

/// The cursor block of `post` extends that of `pre`: the old instructions
/// are kept as a prefix.
pub open spec fn cursor_extends(pre: FunctionContext, post: FunctionContext) -> bool {
    let pb = pre.blocks@[pre.cur as int]@.instrs;
    let nb = post.blocks@[pre.cur as int]@.instrs;
    &&& nb.len() >= pb.len()
    &&& forall|j: int| 0 <= j < pb.len() ==> nb[j] == pb[j]
}

proof fn lemma_cursor_extends_trans(a: FunctionContext, b: FunctionContext, c: FunctionContext)
    requires
        a.cur == b.cur,
        cursor_extends(a, b),
        cursor_extends(b, c),
    ensures
        cursor_extends(a, c),
{
}

proof fn lemma_cursor_extends_refl(a: FunctionContext, b: FunctionContext)
    requires
        a.cur == b.cur,
        b.blocks@[a.cur as int] == a.blocks@[a.cur as int],
    ensures
        cursor_extends(a, b),
{
}

proof fn lemma_appended_after(a: FunctionContext, b: FunctionContext, c: FunctionContext, x: InstrV)
    requires
        a.cur == b.cur,
        b.cur == c.cur,
        cursor_extends(a, b),
        c.blocks@[b.cur as int]@.instrs == b.blocks@[b.cur as int]@.instrs.push(x),
    ensures
        cursor_appended(a, c, x),
{
}

proof fn lemma_appended_trans(a: FunctionContext, b: FunctionContext, c: FunctionContext, x: InstrV)
    requires
        a.cur == b.cur,
        cursor_extends(a, b),
        cursor_appended(b, c, x),
    ensures
        cursor_appended(a, c, x),
{
}

proof fn lemma_appended2_after(
    a: FunctionContext,
    b: FunctionContext,
    c: FunctionContext,
    d: FunctionContext,
    x: InstrV,
    y: InstrV,
)
    requires
        a.cur == b.cur,
        b.cur == c.cur,
        c.cur == d.cur,
        cursor_extends(a, b),
        c.blocks@[b.cur as int]@.instrs == b.blocks@[b.cur as int]@.instrs.push(x),
        d.blocks@[c.cur as int]@.instrs == c.blocks@[c.cur as int]@.instrs.push(y),
    ensures
        cursor_appended2(a, d, x, y),
{
}

/// The constant instruction a literal lowers to.
pub open spec fn lit_instr(l: Literal, dst: usize) -> InstrV {
    match l {
        Literal::String(sv) => InstrV::ConstStr { dst, val: sv@ },
        Literal::Number(bits) => InstrV::ConstF64 { dst, bits },
        Literal::Bool(b) => InstrV::ConstBool { dst, val: b },
    }
}

/// The call instruction a call expression appends: the two built-ins and
/// registry callees append a foreign call to the entry's native symbol;
/// an in-module callee appends a call by language name with the declared
/// native return. The argument temporaries are one per argument.
pub open spec fn call_emitted(
    cx: CheckCtx,
    pre: FunctionContext,
    post: FunctionContext,
    callee: Expr,
    args: Seq<Expr>,
    v: EvaluatedValue,
) -> bool {
    match callee {
        Expr::Identifier(name) => {
            if name@ == "print"@ || name@ == "println"@ {
                let service: Seq<char> = if name@ == "print"@ {
                    "std.io.print"@
                } else {
                    "std.io.println"@
                };
                exists|a: usize|
                    cursor_appended(
                        pre,
                        post,
                        InstrV::CallFfi {
                            dst: None,
                            symbol: cx.reg[service].symbol@,
                            args: seq![a],
                            ret: ffi_ret_native(cx.reg[service].signature.result),
                        },
                    )
            } else if cx.reg.contains_key(name@) {
                exists|ts: Seq<usize>|
                    ts.len() == args.len() && cursor_appended(
                        pre,
                        post,
                        InstrV::CallFfi {
                            dst: v.value,
                            symbol: cx.reg[name@].symbol@,
                            args: ts,
                            ret: ffi_ret_native(cx.reg[name@].signature.result),
                        },
                    )
            } else {
                exists|ts: Seq<usize>|
                    ts.len() == args.len() && cursor_appended(
                        pre,
                        post,
                        InstrV::CallFn {
                            dst: v.value,
                            callee: name@,
                            args: ts,
                            ret: find_decl(cx.decls, name@)->Some_0.ret,
                        },
                    )
            }
        },
        _ => true,
    }
}

/// The shape a `for` over a range lowers to: the loop variable's slot is
/// allocated and initialized to the start value in the enclosing block,
/// and the header block loads the slot and compares it with a strict
/// less-than against the end value, branching into the body or out.
pub open spec fn for_shape(
    pre: FunctionContext,
    post: FunctionContext,
    hd: int,
    native: NativeType,
    loop_ty: ValueType,
    sl: usize,
    st: usize,
    c1: usize,
    c2: usize,
    en: usize,
) -> bool {
    &&& cursor_appended2(
        pre,
        post,
        InstrV::Alloca { dst: sl, ty: native },
        InstrV::Store { ptr: sl, src: st },
    )
    &&& (loop_ty == ValueType::F64 ==> post.blocks@[hd]@.instrs == seq![
        InstrV::Load { dst: c1, ptr: sl, ty: native },
        InstrV::FCmp { dst: c2, pred: FloatPred::Olt, lhs: c1, rhs: en },
    ])
    &&& (loop_ty != ValueType::F64 ==> post.blocks@[hd]@.instrs == seq![
        InstrV::Load { dst: c1, ptr: sl, ty: native },
        InstrV::ICmpSlt { dst: c2, lhs: c1, rhs: en },
    ])
    &&& (post.blocks@[hd]@.term matches Some(Term::CondBr { cond, then_to, else_to }) && cond == c2
        && then_to == hd + 1 && else_to == hd + 2)
}

/// The float operation a binary arithmetic operator lowers to.
pub open spec fn spec_float_op(op: BinaryOp) -> FloatOp {
    match op {
        BinaryOp::Add => FloatOp::Add,
        BinaryOp::Sub => FloatOp::Sub,
        BinaryOp::Mul => FloatOp::Mul,
        BinaryOp::Div => FloatOp::Div,
        BinaryOp::Mod => FloatOp::Rem,
        _ => FloatOp::Add,
    }
}

/// The ordered floating-point predicate a comparison operator lowers to.
pub open spec fn spec_float_pred(op: BinaryOp) -> FloatPred {
    match op {
        BinaryOp::Eq => FloatPred::Oeq,
        BinaryOp::Ne => FloatPred::One,
        BinaryOp::Lt => FloatPred::Olt,
        BinaryOp::Gt => FloatPred::Ogt,
        BinaryOp::LtEq => FloatPred::Ole,
        BinaryOp::GtEq => FloatPred::Oge,
        _ => FloatPred::Oeq,
    }
}

/// Finds the binding of a name, yielding its type and stack slot.
fn bind_find(bindings: &Vec<Variable>, name: &str) -> (r: Option<(ValueType, usize)>)
    requires
        unique_binding_names(bindings@),
        non_unit_bindings(bindings@),
    ensures
        match r {
            Some(p) => env_of(bindings@).contains_key(name@) && env_of(bindings@)[name@] == p.0
                && p.0 != ValueType::Unit && p.1 == slot_of(bindings@, name@),
            None => !env_of(bindings@).contains_key(name@),
        },
{
    let mut i: usize = 0;
    while i < bindings.len()
        invariant
            i <= bindings.len(),
            unique_binding_names(bindings@),
            non_unit_bindings(bindings@),
            forall|j: int| 0 <= j < i ==> bindings@[j].name@ != name@,
        decreases bindings.len() - i,
    {
        if str_eq(bindings[i].name.as_str(), name) {
            proof {
                lemma_env_index(bindings@, i as int);
                lemma_slot_index(bindings@, i as int);
            }
            return Some((bindings[i].ty, bindings[i].slot));
        }
        i = i + 1;
    }
    proof {
        lemma_env_absent(bindings@, name@);
    }
    None
}

fn bind_position(bindings: &Vec<Variable>, name: &str) -> (r: Option<usize>)
    ensures
        match r {
            Some(i) => i < bindings@.len() && bindings@[i as int].name@ == name@,
            None => forall|j: int| 0 <= j < bindings@.len() ==> bindings@[j].name@ != name@,
        },
{
    let mut i: usize = 0;
    while i < bindings.len()
        invariant
            i <= bindings.len(),
            forall|j: int| 0 <= j < i ==> bindings@[j].name@ != name@,
        decreases bindings.len() - i,
    {
        if str_eq(bindings[i].name.as_str(), name) {
            return Some(i);
        }
        i = i + 1;
    }
    None
}

/// Binds a name, replacing any existing binding of the same name: the
/// binding table mirrors one mutable table per function activation.
fn bind_insert(bindings: &mut Vec<Variable>, v: Variable)
    requires
        unique_binding_names(old(bindings)@),
        non_unit_bindings(old(bindings)@),
        v.ty != ValueType::Unit,
    ensures
        unique_binding_names(final(bindings)@),
        non_unit_bindings(final(bindings)@),
        env_of(final(bindings)@) == env_of(old(bindings)@).insert(v.name@, v.ty),
        slot_of(final(bindings)@, v.name@) == v.slot,
{
    let ghost pre = bindings@;
    let ghost name = v.name@;
    let found = bind_position(bindings, v.name.as_str());
    match found {
        Some(k) => {
            bindings.remove(k);
            proof {
                lemma_env_remove(pre, k as int);
            }
        },
        None => {
            proof {
                lemma_env_absent(pre, name);
                assert(env_of(pre).remove(name) =~= env_of(pre));
            }
        },
    }
    let ghost mid = bindings@;
    bindings.push(v);
    proof {
        assert(bindings@.drop_last() =~= mid);
        assert(env_of(pre).remove(name).insert(name, bindings@.last().ty) =~= env_of(pre).insert(
            name,
            bindings@.last().ty,
        ));
    }
}

/// A lowered expression: its value type, and the temporary holding its
/// value. Unit values have no temporary.
#[derive(Debug)]
pub struct EvaluatedValue {
    pub ty: ValueType,
    pub value: Option<usize>,
}

/// The per-function lowering state: the control-flow graph under
/// construction, the insertion cursor, the temporary counter and the
/// binding table. All of it lives exactly as long as the lowering of one
/// function.
#[derive(Debug)]
pub struct FunctionContext {
    pub blocks: Vec<IrBlock>,
    pub cur: usize,
    pub n_temps: usize,
    pub bindings: Vec<Variable>,
}

impl FunctionContext {
    pub open spec fn wf(&self) -> bool {
        &&& self.cur < self.blocks@.len()
        &&& unique_binding_names(self.bindings@)
        &&& non_unit_bindings(self.bindings@)
    }

    pub open spec fn env(&self) -> Map<Seq<char>, ValueType> {
        env_of(self.bindings@)
    }

    /// A fresh context with one empty entry block; the first `n_params`
    /// temporaries stand for the incoming arguments.
    pub fn new(n_params: usize) -> (r: Self)
        ensures
            r.wf(),
            r.env() == Map::<Seq<char>, ValueType>::empty(),
            r.cur == 0,
            r.blocks@.len() == 1,
    {
        let mut blocks: Vec<IrBlock> = Vec::new();
        blocks.push(IrBlock { instrs: Vec::new(), term: None });
        FunctionContext { blocks, cur: 0, n_temps: n_params, bindings: Vec::new() }
    }

    /// The next unused temporary.
    fn fresh(&mut self) -> (t: usize)
        requires
            old(self).wf(),
        ensures
            final(self).wf(),
            final(self).bindings == old(self).bindings,
            final(self).cur == old(self).cur,
            final(self).blocks == old(self).blocks,
            t == old(self).n_temps,
    {
        let t = self.n_temps;
        if t < usize::MAX {
            self.n_temps = t + 1;
        }
        t
    }

    /// Appends an instruction at the cursor; a block already ended takes
    /// no further instructions.
    fn emit(&mut self, instr: Instr)
        requires
            old(self).wf(),
        ensures
            final(self).wf(),
            final(self).bindings == old(self).bindings,
            final(self).cur == old(self).cur,
            final(self).blocks@.len() == old(self).blocks@.len(),
            final(self).n_temps == old(self).n_temps,
            forall|b: int|
                0 <= b < old(self).blocks@.len() && b != old(self).cur
                    ==> final(self).blocks@[b] == old(self).blocks@[b],
            final(self).blocks@[old(self).cur as int].term == old(self).blocks@[old(
                self,
            ).cur as int].term,
            ({
                let cb = old(self).blocks@[old(self).cur as int]@;
                let nb = final(self).blocks@[old(self).cur as int]@;
                if cb.term is None {
                    nb.instrs == cb.instrs.push(instr@)
                } else {
                    nb.instrs == cb.instrs
                }
            }),
    {
        let ghost pre = self.blocks@;
        let cur = self.cur;
        let mut b = self.blocks.remove(cur);
        if b.term.is_none() {
            b.instrs.push(instr);
            proof {
                assert(b@.instrs =~= pre[cur as int]@.instrs.push(instr@));
            }
        }
        self.blocks.insert(cur, b);
        proof {
            assert(self.blocks@.remove(cur as int) =~= pre.remove(cur as int));
        }
    }

    /// Ends the cursor block with a terminator if it has none yet.
    fn set_term(&mut self, t: Term)
        requires
            old(self).wf(),
        ensures
            final(self).wf(),
            final(self).bindings == old(self).bindings,
            final(self).cur == old(self).cur,
            final(self).blocks@.len() == old(self).blocks@.len(),
            final(self).n_temps == old(self).n_temps,
            forall|b: int|
                0 <= b < old(self).blocks@.len() && b != old(self).cur
                    ==> final(self).blocks@[b] == old(self).blocks@[b],
            ({
                let cb = old(self).blocks@[old(self).cur as int]@;
                let nb = final(self).blocks@[old(self).cur as int]@;
                &&& nb.instrs == cb.instrs
                &&& nb.term == if cb.term is None {
                    Some(t)
                } else {
                    cb.term
                }
            }),
    {
        let ghost pre = self.blocks@;
        let cur = self.cur;
        let mut b = self.blocks.remove(cur);
        if b.term.is_none() {
            b.term = Some(t);
        }
        self.blocks.insert(cur, b);
        proof {
            assert(self.blocks@.remove(cur as int) =~= pre.remove(cur as int));
        }
    }

    /// Appends a fresh empty block and yields its index.
    fn new_block(&mut self) -> (b: usize)
        requires
            old(self).wf(),
        ensures
            final(self).wf(),
            final(self).bindings == old(self).bindings,
            final(self).cur == old(self).cur,
            final(self).blocks@.len() == old(self).blocks@.len() + 1,
            final(self).n_temps == old(self).n_temps,
            b == old(self).blocks@.len(),
            forall|k: int|
                0 <= k < old(self).blocks@.len() ==> final(self).blocks@[k] == old(
                    self,
                ).blocks@[k],
            final(self).blocks@.last()@.instrs == Seq::<crate::ir::InstrV>::empty(),
            final(self).blocks@.last()@.term is None,
    {
        let b = self.blocks.len();
        self.blocks.push(IrBlock { instrs: Vec::new(), term: None });
        b
    }

    /// Positions the cursor at a block.
    fn set_cursor(&mut self, b: usize)
        requires
            old(self).wf(),
            b < old(self).blocks@.len(),
        ensures
            final(self).wf(),
            final(self).bindings == old(self).bindings,
            final(self).cur == b,
            final(self).blocks == old(self).blocks,
            final(self).n_temps == old(self).n_temps,
    {
        self.cur = b;
    }

    /// Whether the cursor block still lacks a terminator.
    fn cur_unterminated(&self) -> (r: bool)
        requires
            self.wf(),
    {
        self.blocks[self.cur].term.is_none()
    }
}

/// The module-level lowering context: the registry for foreign calls, the
/// headers declared so far, and the module being built. One compiler owns
/// one module under construction; it is not shared across builds.
pub struct Compiler<'a> {
    pub registry: &'a SymbolRegistry,
    pub decls: Vec<FnDecl>,
    pub module: IrModule,
}

impl<'a> Compiler<'a> {
    pub open spec fn wf(&self) -> bool {
        self.registry.wf()
    }

    /// The resolution context the typing rules see.
    pub open spec fn cx(&self) -> CheckCtx {
        CheckCtx { reg: self.registry@, decls: self.decls@.map_values(|d: FnDecl| d@) }
    }

    /// A compiler over an empty module.
    pub fn new(registry: &'a SymbolRegistry) -> (r: Self)
        requires
            registry.wf(),
        ensures
            r.wf(),
            r.registry == registry,
            r.decls@.len() == 0,
            r.module.functions@.len() == 0,
    {
        Compiler { registry, decls: Vec::new(), module: IrModule { functions: Vec::new() } }
    }
}

/// The first declared header of the given name.
fn find_decl_exec<'d>(decls: &'d Vec<FnDecl>, name: &str) -> (r: Option<&'d FnDecl>)
    ensures
        match r {
            Some(d) => find_decl(decls@.map_values(|x: FnDecl| x@), name@) == Some(d@),
            None => find_decl(decls@.map_values(|x: FnDecl| x@), name@) is None,
        },
{
    proof {
        assert(decls@.map_values(|x: FnDecl| x@).skip(0) =~= decls@.map_values(|x: FnDecl| x@));
    }
    find_decl_from(decls, name, 0)
}

fn find_decl_from<'d>(decls: &'d Vec<FnDecl>, name: &str, i: usize) -> (r: Option<&'d FnDecl>)
    requires
        i <= decls@.len(),
    ensures
        match r {
            Some(d) => find_decl(decls@.map_values(|x: FnDecl| x@).skip(i as int), name@) == Some(
                d@,
            ),
            None => find_decl(decls@.map_values(|x: FnDecl| x@).skip(i as int), name@) is None,
        },
    decreases decls@.len() - i,
{
    if i == decls.len() {
        proof {
            assert(decls@.map_values(|x: FnDecl| x@).skip(i as int) =~= Seq::empty());
        }
        return None;
    }
    let ghost mapped = decls@.map_values(|x: FnDecl| x@);
    proof {
        assert(mapped.skip(i as int).len() > 0);
        assert(mapped.skip(i as int)[0] == mapped[i as int]);
    }
    if str_eq(decls[i].name.as_str(), name) {
        Some(&decls[i])
    } else {
        let r = find_decl_from(decls, name, i + 1);
        proof {
            assert(mapped.skip(i as int).drop_first() =~= mapped.skip(i as int + 1));
        }
        r
    }
}

impl<'a> Compiler<'a> {
    /// Declares a foreign signature in native terms: every parameter must
    /// narrow to a non-unit value type and the result must narrow to a
    /// value type. Yields the native return slot and the result value type.
    fn validate_ffi_signature(&self, sig: &FfiSignature, name: &str) -> (r: Result<
        (Option<NativeType>, ValueType),
        BuildError,
    >)
        ensures
            match r {
                Ok(p) => ffi_sig_ok(sig.params@, sig.result)
                    && crate::ffi::spec_value_of_ffi(sig.result) == Some(p.1) && p.0
                    == ffi_ret_native(sig.result),
                Err(er) => !ffi_sig_ok(sig.params@, sig.result) && er@
                    == (BuildErrV::NonValueParam { name: name@ }),
            },
    {
        let mut i: usize = 0;
        while i < sig.params.len()
            invariant
                i <= sig.params@.len(),
                forall|j: int|
                    0 <= j < i ==> match crate::ffi::spec_value_of_ffi(#[trigger] sig.params@[j]) {
                        Some(vt) => vt != ValueType::Unit,
                        None => false,
                    },
            decreases sig.params@.len() - i,
        {
            match value_of_ffi(&sig.params[i]) {
                Some(vt) => {
                    if matches!(vt, ValueType::Unit) {
                        return Err(BuildError::NonValueParam { name: name.to_owned() });
                    }
                },
                None => {
                    return Err(BuildError::NonValueParam { name: name.to_owned() });
                },
            }
            i = i + 1;
        }
        match value_of_ffi(&sig.result) {
            Some(rvt) => {
                let retn = basic_type(rvt);
                Ok((retn, rvt))
            },
            None => Err(BuildError::NonValueParam { name: name.to_owned() }),
        }
    }

    /// Lowers a literal: strings become global-string pointers, numbers
    /// double constants, booleans one-bit constants.
    fn eval_literal(&self, fx: &mut FunctionContext, literal: &Literal) -> (r: EvaluatedValue)
        requires
            old(fx).wf(),
        ensures
            final(fx).wf(),
            final(fx).bindings == old(fx).bindings,
            final(fx).cur == old(fx).cur,
            final(fx).blocks@.len() == old(fx).blocks@.len(),
            r.ty == crate::typing::check_literal(*literal),
            r.value is Some,
            forall|b: int|
                0 <= b < old(fx).blocks@.len() && b != old(fx).cur ==> final(fx).blocks@[b] == old(
                    fx,
                ).blocks@[b],
            final(fx).blocks@[old(fx).cur as int]@.term == old(fx).blocks@[old(
                fx,
            ).cur as int]@.term,
            old(fx).blocks@[old(fx).cur as int]@.term is Some ==> final(fx).blocks@[old(
                fx,
            ).cur as int]@ == old(fx).blocks@[old(fx).cur as int]@,
            cursor_extends(*old(fx), *final(fx)),
            old(fx).blocks@[old(fx).cur as int]@.term is None ==> cursor_appended(
                *old(fx),
                *final(fx),
                lit_instr(*literal, r.value->Some_0),
            ),
    {
        let ghost cb = old(fx).blocks@[old(fx).cur as int]@.instrs;
        match literal {
            Literal::String(value) => {
                let dst = fx.fresh();
                fx.emit(Instr::ConstStr { dst, val: value.clone() });
                proof {
                    assert(fx.blocks@[old(fx).cur as int]@.instrs.take(cb.len() as int) =~= cb);
                }
                EvaluatedValue { ty: ValueType::Str, value: Some(dst) }
            },
            Literal::Number(bits) => {
                let dst = fx.fresh();
                fx.emit(Instr::ConstF64 { dst, bits: *bits });
                proof {
                    assert(fx.blocks@[old(fx).cur as int]@.instrs.take(cb.len() as int) =~= cb);
                }
                EvaluatedValue { ty: ValueType::F64, value: Some(dst) }
            },
            Literal::Bool(value) => {
                let dst = fx.fresh();
                fx.emit(Instr::ConstBool { dst, val: *value });
                proof {
                    assert(fx.blocks@[old(fx).cur as int]@.instrs.take(cb.len() as int) =~= cb);
                }
                EvaluatedValue { ty: ValueType::Bool, value: Some(dst) }
            },
        }
    }

    /// Lowers one expression at the cursor. Succeeds with the type the
    /// typing rules assign, or fails with exactly the error they name.
    pub fn eval_expr(&self, fx: &mut FunctionContext, e: &Expr) -> (r: Result<
        EvaluatedValue,
        BuildError,
    >)
        requires
            self.wf(),
            old(fx).wf(),
        ensures
            final(fx).wf(),
            final(fx).bindings == old(fx).bindings,
            final(fx).cur == old(fx).cur,
            final(fx).blocks@.len() == old(fx).blocks@.len(),
            forall|b: int|
                0 <= b < old(fx).blocks@.len() && b != old(fx).cur ==> final(fx).blocks@[b] == old(
                    fx,
                ).blocks@[b],
            final(fx).blocks@[old(fx).cur as int]@.term == old(fx).blocks@[old(
                fx,
            ).cur as int]@.term,
            old(fx).blocks@[old(fx).cur as int]@.term is Some ==> final(fx).blocks@[old(
                fx,
            ).cur as int]@ == old(fx).blocks@[old(fx).cur as int]@,
            cursor_extends(*old(fx), *final(fx)),
            match r {
                Ok(v) => check_expr(self.cx(), old(fx).env(), *e) == Ok::<ValueType, BuildErrV>(
                    v.ty,
                ) && (v.value is Some <==> v.ty != ValueType::Unit),
                Err(er) => check_expr(self.cx(), old(fx).env(), *e) == Err::<ValueType, BuildErrV>(
                    er@,
                ),
            },
            (r matches Ok(v) && old(fx).blocks@[old(fx).cur as int]@.term is None) ==> match *e {
                Expr::Literal(l) => cursor_appended(*old(fx), *final(fx), lit_instr(
                    l,
                    r->Ok_0.value->Some_0,
                )),
                Expr::Identifier(nm) => cursor_appended(
                    *old(fx),
                    *final(fx),
                    InstrV::Load {
                        dst: r->Ok_0.value->Some_0,
                        ptr: slot_of(old(fx).bindings@, nm@),
                        ty: spec_basic_type(r->Ok_0.ty)->Some_0,
                    },
                ),
                Expr::Binary { op, .. } => {
                    if arith_op(op) {
                        exists|l: usize, rr: usize|
                            cursor_appended(
                                *old(fx),
                                *final(fx),
                                InstrV::FArith {
                                    dst: r->Ok_0.value->Some_0,
                                    op: spec_float_op(op),
                                    lhs: l,
                                    rhs: rr,
                                },
                            )
                    } else {
                        exists|l: usize, rr: usize|
                            cursor_appended(
                                *old(fx),
                                *final(fx),
                                InstrV::FCmp {
                                    dst: r->Ok_0.value->Some_0,
                                    pred: spec_float_pred(op),
                                    lhs: l,
                                    rhs: rr,
                                },
                            )
                    }
                },
                Expr::Unary { op, .. } => match op {
                    UnaryOp::Neg => exists|sr: usize|
                        cursor_appended(
                            *old(fx),
                            *final(fx),
                            InstrV::FNeg { dst: r->Ok_0.value->Some_0, src: sr },
                        ),
                    UnaryOp::Not => exists|sr: usize|
                        cursor_appended(
                            *old(fx),
                            *final(fx),
                            InstrV::NotBool { dst: r->Ok_0.value->Some_0, src: sr },
                        ),
                },
                Expr::Call { func, args } => call_emitted(
                    self.cx(),
                    *old(fx),
                    *final(fx),
                    *func,
                    args@,
                    r->Ok_0,
                ),
                _ => true,
            },
        decreases *e, 0int, 0int,
    {
        match e {
            Expr::Literal(literal) => Ok(self.eval_literal(fx, literal)),
            Expr::Identifier(name) => {
                match bind_find(&fx.bindings, name.as_str()) {
                    Some((ty, slot)) => {
                        let native_opt = basic_type(ty);
                        let native = native_opt.unwrap();
                        let dst = fx.fresh();
                        let ghost g = *fx;
                        fx.emit(Instr::Load { dst, ptr: slot, ty: native });
                        proof {
                            if old(fx).blocks@[old(fx).cur as int]@.term is None {
                                lemma_cursor_extends_refl(*old(fx), g);
                                lemma_appended_after(
                                    *old(fx),
                                    g,
                                    *fx,
                                    InstrV::Load { dst, ptr: slot, ty: native },
                                );
                            }
                        }
                        Ok(EvaluatedValue { ty, value: Some(dst) })
                    },
                    None => Err(BuildError::UnknownIdentifier { name: name.clone() }),
                }
            },
            Expr::Binary { op, left, right } => {
                let mut lv = match self.eval_expr(fx, &**left) {
                    Ok(v) => v,
                    Err(er) => {
                        return Err(er);
                    },
                };
                let mut rv = match self.eval_expr(fx, &**right) {
                    Ok(v) => v,
                    Err(er) => {
                        return Err(er);
                    },
                };
                if matches!(lv.ty, ValueType::I64) && matches!(rv.ty, ValueType::F64) {
                    let t = fx.fresh();
                    fx.emit(Instr::SiToFp { dst: t, src: lv.value.unwrap() });
                    lv = EvaluatedValue { ty: ValueType::F64, value: Some(t) };
                } else if matches!(lv.ty, ValueType::F64) && matches!(rv.ty, ValueType::I64) {
                    let t = fx.fresh();
                    fx.emit(Instr::SiToFp { dst: t, src: rv.value.unwrap() });
                    rv = EvaluatedValue { ty: ValueType::F64, value: Some(t) };
                }
                if lv.ty != rv.ty {
                    return Err(BuildError::BinaryTypeMismatch { left: lv.ty, right: rv.ty });
                }
                if !matches!(lv.ty, ValueType::F64) {
                    return Err(BuildError::NonFloatArithmetic { found: lv.ty });
                }
                let lhs = lv.value.unwrap();
                let rhs = rv.value.unwrap();
                let ghost g2 = *fx;
                match op {
                    BinaryOp::And => Err(
                        BuildError::UnsupportedConstruct { construct: "logical and".to_owned() },
                    ),
                    BinaryOp::Or => Err(
                        BuildError::UnsupportedConstruct { construct: "logical or".to_owned() },
                    ),
                    BinaryOp::Add => {
                        let dst = fx.fresh();
                        let ghost g3 = *fx;
                        fx.emit(Instr::FArith { dst, op: FloatOp::Add, lhs, rhs });
                        proof {
                            if old(fx).blocks@[old(fx).cur as int]@.term is None {
                                lemma_appended_after(*old(fx), g3, *fx, InstrV::FArith { dst, op: FloatOp::Add, lhs, rhs });
                            }
                        }
                        Ok(EvaluatedValue { ty: ValueType::F64, value: Some(dst) })
                    },
                    BinaryOp::Sub => {
                        let dst = fx.fresh();
                        let ghost g3 = *fx;
                        fx.emit(Instr::FArith { dst, op: FloatOp::Sub, lhs, rhs });
                        proof {
                            if old(fx).blocks@[old(fx).cur as int]@.term is None {
                                lemma_appended_after(*old(fx), g3, *fx, InstrV::FArith { dst, op: FloatOp::Sub, lhs, rhs });
                            }
                        }
                        Ok(EvaluatedValue { ty: ValueType::F64, value: Some(dst) })
                    },
                    BinaryOp::Mul => {
                        let dst = fx.fresh();
                        let ghost g3 = *fx;
                        fx.emit(Instr::FArith { dst, op: FloatOp::Mul, lhs, rhs });
                        proof {
                            if old(fx).blocks@[old(fx).cur as int]@.term is None {
                                lemma_appended_after(*old(fx), g3, *fx, InstrV::FArith { dst, op: FloatOp::Mul, lhs, rhs });
                            }
                        }
                        Ok(EvaluatedValue { ty: ValueType::F64, value: Some(dst) })
                    },
                    BinaryOp::Div => {
                        let dst = fx.fresh();
                        let ghost g3 = *fx;
                        fx.emit(Instr::FArith { dst, op: FloatOp::Div, lhs, rhs });
                        proof {
                            if old(fx).blocks@[old(fx).cur as int]@.term is None {
                                lemma_appended_after(*old(fx), g3, *fx, InstrV::FArith { dst, op: FloatOp::Div, lhs, rhs });
                            }
                        }
                        Ok(EvaluatedValue { ty: ValueType::F64, value: Some(dst) })
                    },
                    BinaryOp::Mod => {
                        let dst = fx.fresh();
                        let ghost g3 = *fx;
                        fx.emit(Instr::FArith { dst, op: FloatOp::Rem, lhs, rhs });
                        proof {
                            if old(fx).blocks@[old(fx).cur as int]@.term is None {
                                lemma_appended_after(*old(fx), g3, *fx, InstrV::FArith { dst, op: FloatOp::Rem, lhs, rhs });
                            }
                        }
                        Ok(EvaluatedValue { ty: ValueType::F64, value: Some(dst) })
                    },
                    BinaryOp::Eq => {
                        let dst = fx.fresh();
                        let ghost g3 = *fx;
                        fx.emit(Instr::FCmp { dst, pred: FloatPred::Oeq, lhs, rhs });
                        proof {
                            if old(fx).blocks@[old(fx).cur as int]@.term is None {
                                lemma_appended_after(
                                    *old(fx),
                                    g3,
                                    *fx,
                                    InstrV::FCmp { dst, pred: FloatPred::Oeq, lhs, rhs },
                                );
                            }
                        }
                        Ok(EvaluatedValue { ty: ValueType::Bool, value: Some(dst) })
                    },
                    BinaryOp::Ne => {
                        let dst = fx.fresh();
                        let ghost g3 = *fx;
                        fx.emit(Instr::FCmp { dst, pred: FloatPred::One, lhs, rhs });
                        proof {
                            if old(fx).blocks@[old(fx).cur as int]@.term is None {
                                lemma_appended_after(
                                    *old(fx),
                                    g3,
                                    *fx,
                                    InstrV::FCmp { dst, pred: FloatPred::One, lhs, rhs },
                                );
                            }
                        }
                        Ok(EvaluatedValue { ty: ValueType::Bool, value: Some(dst) })
                    },
                    BinaryOp::Lt => {
                        let dst = fx.fresh();
                        let ghost g3 = *fx;
                        fx.emit(Instr::FCmp { dst, pred: FloatPred::Olt, lhs, rhs });
                        proof {
                            if old(fx).blocks@[old(fx).cur as int]@.term is None {
                                lemma_appended_after(
                                    *old(fx),
                                    g3,
                                    *fx,
                                    InstrV::FCmp { dst, pred: FloatPred::Olt, lhs, rhs },
                                );
                            }
                        }
                        Ok(EvaluatedValue { ty: ValueType::Bool, value: Some(dst) })
                    },
                    BinaryOp::Gt => {
                        let dst = fx.fresh();
                        let ghost g3 = *fx;
                        fx.emit(Instr::FCmp { dst, pred: FloatPred::Ogt, lhs, rhs });
                        proof {
                            if old(fx).blocks@[old(fx).cur as int]@.term is None {
                                lemma_appended_after(
                                    *old(fx),
                                    g3,
                                    *fx,
                                    InstrV::FCmp { dst, pred: FloatPred::Ogt, lhs, rhs },
                                );
                            }
                        }
                        Ok(EvaluatedValue { ty: ValueType::Bool, value: Some(dst) })
                    },
                    BinaryOp::LtEq => {
                        let dst = fx.fresh();
                        let ghost g3 = *fx;
                        fx.emit(Instr::FCmp { dst, pred: FloatPred::Ole, lhs, rhs });
                        proof {
                            if old(fx).blocks@[old(fx).cur as int]@.term is None {
                                lemma_appended_after(
                                    *old(fx),
                                    g3,
                                    *fx,
                                    InstrV::FCmp { dst, pred: FloatPred::Ole, lhs, rhs },
                                );
                            }
                        }
                        Ok(EvaluatedValue { ty: ValueType::Bool, value: Some(dst) })
                    },
                    BinaryOp::GtEq => {
                        let dst = fx.fresh();
                        let ghost g3 = *fx;
                        fx.emit(Instr::FCmp { dst, pred: FloatPred::Oge, lhs, rhs });
                        proof {
                            if old(fx).blocks@[old(fx).cur as int]@.term is None {
                                lemma_appended_after(
                                    *old(fx),
                                    g3,
                                    *fx,
                                    InstrV::FCmp { dst, pred: FloatPred::Oge, lhs, rhs },
                                );
                            }
                        }
                        Ok(EvaluatedValue { ty: ValueType::Bool, value: Some(dst) })
                    },
                }
            },
            Expr::Call { func, args } => self.eval_call(fx, func, args),
            Expr::Unary { op, expr } => {
                let v = match self.eval_expr(fx, &**expr) {
                    Ok(v) => v,
                    Err(er) => {
                        return Err(er);
                    },
                };
                match op {
                    UnaryOp::Neg => {
                        if !matches!(v.ty, ValueType::F64) {
                            return Err(BuildError::UnaryTypeMismatch {
                                op: UnaryOp::Neg,
                                found: v.ty,
                            });
                        }
                        let dst = fx.fresh();
                        let src = v.value.unwrap();
                        let ghost g = *fx;
                        fx.emit(Instr::FNeg { dst, src });
                        proof {
                            if old(fx).blocks@[old(fx).cur as int]@.term is None {
                                lemma_appended_after(*old(fx), g, *fx, InstrV::FNeg { dst, src });
                            }
                        }
                        Ok(EvaluatedValue { ty: ValueType::F64, value: Some(dst) })
                    },
                    UnaryOp::Not => {
                        if !matches!(v.ty, ValueType::Bool) {
                            return Err(BuildError::UnaryTypeMismatch {
                                op: UnaryOp::Not,
                                found: v.ty,
                            });
                        }
                        let dst = fx.fresh();
                        let src = v.value.unwrap();
                        let ghost g = *fx;
                        fx.emit(Instr::NotBool { dst, src });
                        proof {
                            if old(fx).blocks@[old(fx).cur as int]@.term is None {
                                lemma_appended_after(*old(fx), g, *fx, InstrV::NotBool { dst, src });
                            }
                        }
                        Ok(EvaluatedValue { ty: ValueType::Bool, value: Some(dst) })
                    },
                }
            },
            Expr::Member { .. } => Err(
                BuildError::UnsupportedConstruct { construct: "member access".to_owned() },
            ),
            Expr::If { .. } => Err(
                BuildError::UnsupportedConstruct { construct: "conditional expression".to_owned() },
            ),
            Expr::Range { .. } => Err(BuildError::RangeOutsideFor),
            Expr::FString { .. } => Err(
                BuildError::UnsupportedConstruct { construct: "string interpolation".to_owned() },
            ),
            Expr::Await(..) => Err(
                BuildError::UnsupportedConstruct { construct: "await".to_owned() },
            ),
            Expr::Spawn(..) => Err(
                BuildError::UnsupportedConstruct { construct: "spawn".to_owned() },
            ),
        }
    }

    /// Emits a call to a runtime service resolved in the registry, passing
    /// one pointer argument and discarding any result.
    fn call_symbol(&self, fx: &mut FunctionContext, name: &str, arg: usize) -> (r: Result<
        (),
        BuildError,
    >)
        requires
            self.wf(),
            old(fx).wf(),
        ensures
            final(fx).wf(),
            final(fx).bindings == old(fx).bindings,
            final(fx).cur == old(fx).cur,
            final(fx).blocks@.len() == old(fx).blocks@.len(),
            forall|b: int|
                0 <= b < old(fx).blocks@.len() && b != old(fx).cur ==> final(fx).blocks@[b] == old(
                    fx,
                ).blocks@[b],
            final(fx).blocks@[old(fx).cur as int]@.term == old(fx).blocks@[old(
                fx,
            ).cur as int]@.term,
            old(fx).blocks@[old(fx).cur as int]@.term is Some ==> final(fx).blocks@[old(
                fx,
            ).cur as int]@ == old(fx).blocks@[old(fx).cur as int]@,
            cursor_extends(*old(fx), *final(fx)),
            match r {
                Ok(()) => self.cx().reg.contains_key(name@) && ffi_sig_ok(
                    self.cx().reg[name@].signature.params@,
                    self.cx().reg[name@].signature.result,
                ) && (old(fx).blocks@[old(fx).cur as int]@.term is None ==> cursor_appended(
                    *old(fx),
                    *final(fx),
                    InstrV::CallFfi {
                        dst: None,
                        symbol: self.cx().reg[name@].symbol@,
                        args: seq![arg],
                        ret: ffi_ret_native(self.cx().reg[name@].signature.result),
                    },
                )),
                Err(er) => er@ == if !self.cx().reg.contains_key(name@) {
                    BuildErrV::UnresolvedSymbol { name: name@ }
                } else {
                    BuildErrV::NonValueParam { name: name@ }
                } && !(self.cx().reg.contains_key(name@) && ffi_sig_ok(
                    self.cx().reg[name@].signature.params@,
                    self.cx().reg[name@].signature.result,
                )),
            },
    {
        let entry = match self.registry.resolve(name) {
            Some(entry) => entry,
            None => {
                return Err(BuildError::UnresolvedSymbol { name: name.to_owned() });
            },
        };
        let (retn, _rvt) = match self.validate_ffi_signature(&entry.signature, name) {
            Ok(p) => p,
            Err(er) => {
                return Err(er);
            },
        };
        let mut call_args: Vec<usize> = Vec::new();
        call_args.push(arg);
        proof {
            assert(call_args@ =~= seq![arg]);
        }
        let ghost g = *fx;
        let ghost symv = entry.symbol@;
        fx.emit(Instr::CallFfi { dst: None, symbol: entry.symbol.clone(), args: call_args, ret: retn });
        proof {
            if old(fx).blocks@[old(fx).cur as int]@.term is None {
                lemma_cursor_extends_refl(*old(fx), g);
                lemma_appended_after(
                    *old(fx),
                    g,
                    *fx,
                    InstrV::CallFfi { dst: None, symbol: symv, args: seq![arg], ret: retn },
                );
            } else {
                lemma_cursor_extends_refl(*old(fx), g);
            }
        }
        Ok(())
    }

    /// Lowers a call to a named callee: first against the registry (exact
    /// arity and argument types), then against a function already declared
    /// in the module (result type inferred from its native return).
    pub fn eval_call(&self, fx: &mut FunctionContext, callee: &Expr, args: &Vec<Expr>) -> (r:
        Result<EvaluatedValue, BuildError>)
        requires
            self.wf(),
            old(fx).wf(),
        ensures
            final(fx).wf(),
            final(fx).bindings == old(fx).bindings,
            final(fx).cur == old(fx).cur,
            final(fx).blocks@.len() == old(fx).blocks@.len(),
            forall|b: int|
                0 <= b < old(fx).blocks@.len() && b != old(fx).cur ==> final(fx).blocks@[b] == old(
                    fx,
                ).blocks@[b],
            final(fx).blocks@[old(fx).cur as int]@.term == old(fx).blocks@[old(
                fx,
            ).cur as int]@.term,
            old(fx).blocks@[old(fx).cur as int]@.term is Some ==> final(fx).blocks@[old(
                fx,
            ).cur as int]@ == old(fx).blocks@[old(fx).cur as int]@,
            cursor_extends(*old(fx), *final(fx)),
            match r {
                Ok(v) => check_call(self.cx(), old(fx).env(), *callee, args@) == Ok::<
                    ValueType,
                    BuildErrV,
                >(v.ty) && (v.value is Some <==> v.ty != ValueType::Unit),
                Err(er) => check_call(self.cx(), old(fx).env(), *callee, args@) == Err::<
                    ValueType,
                    BuildErrV,
                >(er@),
            },
            (r matches Ok(v) && old(fx).blocks@[old(fx).cur as int]@.term is None)
                ==> call_emitted(self.cx(), *old(fx), *final(fx), *callee, args@, r->Ok_0),
        decreases args@, 1int, 0int,
    {
        let name = match callee {
            Expr::Identifier(name) => name,
            _ => {
                return Err(
                    BuildError::UnsupportedConstruct {
                        construct: "non-identifier call target".to_owned(),
                    },
                );
            },
        };
        if str_eq(name.as_str(), "print") || str_eq(name.as_str(), "println") {
            let service: &'static str = if str_eq(name.as_str(), "print") {
                "std.io.print"
            } else {
                "std.io.println"
            };
            if args.len() != 1 {
                return Err(BuildError::ArityMismatch {
                    name: name.clone(),
                    expected: 1,
                    found: args.len(),
                });
            }
            let v = match self.eval_expr(fx, &args[0]) {
                Ok(v) => v,
                Err(er) => {
                    return Err(er);
                },
            };
            if !matches!(v.ty, ValueType::Str) {
                return Err(BuildError::ArgTypeMismatch {
                    name: name.clone(),
                    expected: ValueType::Str,
                    found: v.ty,
                });
            }
            let ghost g1 = *fx;
            let arg_temp = v.value.unwrap();
            return match self.call_symbol(fx, service, arg_temp) {
                Ok(()) => {
                    proof {
                        lemma_cursor_extends_trans(*old(fx), g1, *fx);
                        if old(fx).blocks@[old(fx).cur as int]@.term is None {
                            lemma_appended_trans(
                                *old(fx),
                                g1,
                                *fx,
                                InstrV::CallFfi {
                                    dst: None,
                                    symbol: self.cx().reg[service@].symbol@,
                                    args: seq![arg_temp],
                                    ret: ffi_ret_native(self.cx().reg[service@].signature.result),
                                },
                            );
                        }
                    }
                    Ok(EvaluatedValue { ty: ValueType::Unit, value: None })
                },
                Err(er) => Err(er),
            };
        }
        if let Some(entry) = self.registry.resolve(name.as_str()) {
            if entry.signature.params.len() != args.len() {
                return Err(BuildError::ArityMismatch {
                    name: name.clone(),
                    expected: entry.signature.params.len(),
                    found: args.len(),
                });
            }
            let (retn, rvt) = match self.validate_ffi_signature(&entry.signature, name.as_str()) {
                Ok(p) => p,
                Err(er) => {
                    return Err(er);
                },
            };
            let arg_temps = match self.eval_args_ffi(
                fx,
                args,
                &entry.signature.params,
                name.as_str(),
                0,
            ) {
                Ok(ts) => ts,
                Err(er) => {
                    return Err(er);
                },
            };
            let dst = if matches!(rvt, ValueType::Unit) {
                None
            } else {
                Some(fx.fresh())
            };
            let ghost g1 = *fx;
            let ghost tsv = arg_temps@;
            let ghost symv = entry.symbol@;
            fx.emit(Instr::CallFfi { dst, symbol: entry.symbol.clone(), args: arg_temps, ret: retn });
            proof {
                lemma_cursor_extends_trans(*old(fx), g1, *fx);
                if old(fx).blocks@[old(fx).cur as int]@.term is None {
                    lemma_appended_after(
                        *old(fx),
                        g1,
                        *fx,
                        InstrV::CallFfi { dst, symbol: symv, args: tsv, ret: retn },
                    );
                }
            }
            Ok(EvaluatedValue { ty: rvt, value: dst })
        } else if let Some(d) = find_decl_exec(&self.decls, name.as_str()) {
            let ret = d.ret;
            let arg_temps = match self.eval_args_module(fx, args, name.as_str(), 0) {
                Ok(ts) => ts,
                Err(er) => {
                    return Err(er);
                },
            };
            let vt = value_of_native(ret);
            let dst = if matches!(vt, ValueType::Unit) {
                None
            } else {
                Some(fx.fresh())
            };
            let ghost g1 = *fx;
            let ghost tsv = arg_temps@;
            fx.emit(Instr::CallFn { dst, callee: name.clone(), args: arg_temps, ret });
            proof {
                lemma_cursor_extends_trans(*old(fx), g1, *fx);
                if old(fx).blocks@[old(fx).cur as int]@.term is None {
                    lemma_appended_after(
                        *old(fx),
                        g1,
                        *fx,
                        InstrV::CallFn { dst, callee: name@, args: tsv, ret },
                    );
                }
            }
            Ok(EvaluatedValue { ty: vt, value: dst })
        } else {
            Err(BuildError::UnknownFunction { name: name.clone() })
        }
    }

    /// Lowers registry-call arguments from position `i`, comparing each
    /// against the declared parameter type.
    fn eval_args_ffi(
        &self,
        fx: &mut FunctionContext,
        args: &Vec<Expr>,
        params: &Vec<FfiType>,
        name: &str,
        i: usize,
    ) -> (r: Result<Vec<usize>, BuildError>)
        requires
            self.wf(),
            old(fx).wf(),
            i <= args@.len(),
            params@.len() == args@.len(),
            ffi_params_ok(params@),
        ensures
            final(fx).wf(),
            final(fx).bindings == old(fx).bindings,
            final(fx).cur == old(fx).cur,
            final(fx).blocks@.len() == old(fx).blocks@.len(),
            forall|b: int|
                0 <= b < old(fx).blocks@.len() && b != old(fx).cur ==> final(fx).blocks@[b] == old(
                    fx,
                ).blocks@[b],
            final(fx).blocks@[old(fx).cur as int]@.term == old(fx).blocks@[old(
                fx,
            ).cur as int]@.term,
            old(fx).blocks@[old(fx).cur as int]@.term is Some ==> final(fx).blocks@[old(
                fx,
            ).cur as int]@ == old(fx).blocks@[old(fx).cur as int]@,
            cursor_extends(*old(fx), *final(fx)),
            match r {
                Ok(ts) => check_args_ffi(self.cx(), old(fx).env(), args@, params@, name@, i as nat)
                    == Ok::<(), BuildErrV>(()) && ts@.len() + i == args@.len(),
                Err(er) => check_args_ffi(self.cx(), old(fx).env(), args@, params@, name@, i as nat)
                    == Err::<(), BuildErrV>(er@),
            },
        decreases args@, 0int, args@.len() - i,
    {
        if i == args.len() {
            proof {
                lemma_cursor_extends_refl(*old(fx), *fx);
            }
            return Ok(Vec::new());
        }
        let v = match self.eval_expr(fx, &args[i]) {
            Ok(v) => v,
            Err(er) => {
                return Err(er);
            },
        };
        let ghost g1 = *fx;
        let expected_opt = value_of_ffi(&params[i]);
        proof {
            assert(match crate::ffi::spec_value_of_ffi(params@[i as int]) {
                Some(vt) => vt != ValueType::Unit,
                None => false,
            });
        }
        let expected = expected_opt.unwrap();
        if v.ty != expected {
            return Err(BuildError::ArgTypeMismatch {
                name: name.to_owned(),
                expected,
                found: v.ty,
            });
        }
        let r2 = self.eval_args_ffi(fx, args, params, name, i + 1);
        proof {
            lemma_cursor_extends_trans(*old(fx), g1, *fx);
        }
        match r2 {
            Ok(mut rest) => {
                rest.insert(0, v.value.unwrap());
                Ok(rest)
            },
            Err(er) => Err(er),
        }
    }

    /// Lowers in-module call arguments from position `i`; each must
    /// produce a runtime value.
    fn eval_args_module(
        &self,
        fx: &mut FunctionContext,
        args: &Vec<Expr>,
        name: &str,
        i: usize,
    ) -> (r: Result<Vec<usize>, BuildError>)
        requires
            self.wf(),
            old(fx).wf(),
            i <= args@.len(),
        ensures
            final(fx).wf(),
            final(fx).bindings == old(fx).bindings,
            final(fx).cur == old(fx).cur,
            final(fx).blocks@.len() == old(fx).blocks@.len(),
            forall|b: int|
                0 <= b < old(fx).blocks@.len() && b != old(fx).cur ==> final(fx).blocks@[b] == old(
                    fx,
                ).blocks@[b],
            final(fx).blocks@[old(fx).cur as int]@.term == old(fx).blocks@[old(
                fx,
            ).cur as int]@.term,
            old(fx).blocks@[old(fx).cur as int]@.term is Some ==> final(fx).blocks@[old(
                fx,
            ).cur as int]@ == old(fx).blocks@[old(fx).cur as int]@,
            cursor_extends(*old(fx), *final(fx)),
            match r {
                Ok(ts) => check_args_module(self.cx(), old(fx).env(), args@, name@, i as nat)
                    == Ok::<(), BuildErrV>(()) && ts@.len() + i == args@.len(),
                Err(er) => check_args_module(self.cx(), old(fx).env(), args@, name@, i as nat)
                    == Err::<(), BuildErrV>(er@),
            },
        decreases args@, 0int, args@.len() - i,
    {
        if i == args.len() {
            proof {
                lemma_cursor_extends_refl(*old(fx), *fx);
            }
            return Ok(Vec::new());
        }
        let v = match self.eval_expr(fx, &args[i]) {
            Ok(v) => v,
            Err(er) => {
                return Err(er);
            },
        };
        let ghost g1 = *fx;
        if matches!(v.ty, ValueType::Unit) {
            return Err(BuildError::UnitCallArg { name: name.to_owned() });
        }
        let r2 = self.eval_args_module(fx, args, name, i + 1);
        proof {
            lemma_cursor_extends_trans(*old(fx), g1, *fx);
        }
        match r2 {
            Ok(mut rest) => {
                rest.insert(0, v.value.unwrap());
                Ok(rest)
            },
            Err(er) => Err(er),
        }
    }
}

impl<'a> Compiler<'a> {
    /// Lowers one statement at the cursor. Succeeds with exactly the
    /// environment change the typing rules state, or fails with exactly
    /// the error they name.
    #[verifier::rlimit(60)]
    pub fn lower_statement(&self, fx: &mut FunctionContext, statement: &Statement) -> (r: Result<
        (),
        BuildError,
    >)
        requires
            self.wf(),
            old(fx).wf(),
        ensures
            final(fx).wf(),
            final(fx).blocks@.len() >= old(fx).blocks@.len(),
            forall|b: int|
                0 <= b < old(fx).blocks@.len() && old(fx).blocks@[b]@.term is Some
                    ==> final(fx).blocks@[b]@ == old(fx).blocks@[b]@,
            match r {
                Ok(()) => check_stmt(self.cx(), old(fx).env(), *statement) == Ok::<
                    Map<Seq<char>, ValueType>,
                    BuildErrV,
                >(final(fx).env()),
                Err(er) => check_stmt(self.cx(), old(fx).env(), *statement) == Err::<
                    Map<Seq<char>, ValueType>,
                    BuildErrV,
                >(er@),
            },
            r is Err && !((*statement) is If) && !((*statement) is For) ==> final(fx).bindings
                == old(fx).bindings,
            (r is Ok && old(fx).blocks@[old(fx).cur as int]@.term is None) ==> match *statement {
                Statement::Let { name, .. } => exists|sl: usize, vv: usize|
                    cursor_appended2(
                        *old(fx),
                        *final(fx),
                        InstrV::Alloca {
                            dst: sl,
                            ty: spec_basic_type(final(fx).env()[name@])->Some_0,
                        },
                        InstrV::Store { ptr: sl, src: vv },
                    ) && slot_of(final(fx).bindings@, name@) == sl,
                Statement::Assignment { name, .. } => {
                    if old(fx).env().contains_key(name@) {
                        exists|vv: usize|
                            cursor_appended(
                                *old(fx),
                                *final(fx),
                                InstrV::Store {
                                    ptr: slot_of(old(fx).bindings@, name@),
                                    src: vv,
                                },
                            )
                    } else {
                        exists|sl: usize, vv: usize|
                            cursor_appended2(
                                *old(fx),
                                *final(fx),
                                InstrV::Alloca {
                                    dst: sl,
                                    ty: spec_basic_type(final(fx).env()[name@])->Some_0,
                                },
                                InstrV::Store { ptr: sl, src: vv },
                            ) && slot_of(final(fx).bindings@, name@) == sl
                    }
                },
                Statement::Return(..) => final(fx).blocks@[old(fx).cur as int]@.term matches Some(
                    Term::Ret { .. },
                ),
                Statement::If { .. } => {
                    &&& final(fx).blocks@.len() >= old(fx).blocks@.len() + 3
                    &&& final(fx).cur as int == old(fx).blocks@.len() + 2
                    &&& (final(fx).blocks@[old(fx).cur as int]@.term matches Some(
                        Term::CondBr { cond, then_to, else_to },
                    ) && then_to as int == old(fx).blocks@.len() && else_to as int == old(
                        fx,
                    ).blocks@.len() + 1)
                },
                Statement::For { .. } => {
                    let hd = old(fx).blocks@.len();
                    &&& final(fx).blocks@.len() >= old(fx).blocks@.len() + 3
                    &&& final(fx).cur as int == old(fx).blocks@.len() + 2
                    &&& (final(fx).blocks@[old(fx).cur as int]@.term matches Some(Term::Br {
                        target,
                    }) && target as int == hd)
                    &&& exists|lt: ValueType, sl: usize, st: usize, c1: usize, c2: usize, en: usize|
                        (lt == ValueType::I64 || lt == ValueType::F64) && for_shape(
                            *old(fx),
                            *final(fx),
                            hd as int,
                            spec_basic_type(lt)->Some_0,
                            lt,
                            sl,
                            st,
                            c1,
                            c2,
                            en,
                        )
                },
                _ => true,
            },
        decreases *statement, 0int, 0int,
    {
        match statement {
            Statement::Expr(e) => {
                match self.eval_expr(fx, e) {
                    Ok(..) => Ok(()),
                    Err(er) => Err(er),
                }
            },
            Statement::Let { name, expr } => {
                let v = match self.eval_expr(fx, expr) {
                    Ok(v) => v,
                    Err(er) => {
                        return Err(er);
                    },
                };
                if matches!(v.ty, ValueType::Unit) {
                    return Err(BuildError::UnitValue { name: name.clone() });
                }
                let native = basic_type(v.ty).unwrap();
                let slot = fx.fresh();
                let vv = v.value.unwrap();
                let ghost g_a = *fx;
                fx.emit(Instr::Alloca { dst: slot, ty: native });
                let ghost g_b = *fx;
                fx.emit(Instr::Store { ptr: slot, src: vv });
                proof {
                    if old(fx).blocks@[old(fx).cur as int]@.term is None {
                        lemma_appended2_after(
                            *old(fx),
                            g_a,
                            g_b,
                            *fx,
                            InstrV::Alloca { dst: slot, ty: native },
                            InstrV::Store { ptr: slot, src: vv },
                        );
                    }
                }
                bind_insert(&mut fx.bindings, Variable { name: name.clone(), ty: v.ty, slot });
                proof {
                    if old(fx).blocks@[old(fx).cur as int]@.term is None {
                        assert(fx.env()[name@] == v.ty);
                        assert(cursor_appended2(
                            *old(fx),
                            *fx,
                            InstrV::Alloca {
                                dst: slot,
                                ty: spec_basic_type(fx.env()[name@])->Some_0,
                            },
                            InstrV::Store { ptr: slot, src: vv },
                        ));
                    }
                }
                Ok(())
            },
            Statement::Assignment { name, expr } => {
                let v = match self.eval_expr(fx, expr) {
                    Ok(v) => v,
                    Err(er) => {
                        return Err(er);
                    },
                };
                if matches!(v.ty, ValueType::Unit) {
                    return Err(BuildError::UnitValue { name: name.clone() });
                }
                match bind_find(&fx.bindings, name.as_str()) {
                    Some((existing, slot)) => {
                        if existing != v.ty {
                            return Err(BuildError::AssignTypeMismatch {
                                name: name.clone(),
                                existing,
                                found: v.ty,
                            });
                        }
                        let vv = v.value.unwrap();
                        let ghost g = *fx;
                        fx.emit(Instr::Store { ptr: slot, src: vv });
                        proof {
                            if old(fx).blocks@[old(fx).cur as int]@.term is None {
                                lemma_appended_after(
                                    *old(fx),
                                    g,
                                    *fx,
                                    InstrV::Store { ptr: slot, src: vv },
                                );
                            }
                        }
                        Ok(())
                    },
                    None => {
                        let native = basic_type(v.ty).unwrap();
                        let slot = fx.fresh();
                        let vv = v.value.unwrap();
                        let ghost g_a = *fx;
                        fx.emit(Instr::Alloca { dst: slot, ty: native });
                        let ghost g_b = *fx;
                        fx.emit(Instr::Store { ptr: slot, src: vv });
                        proof {
                            if old(fx).blocks@[old(fx).cur as int]@.term is None {
                                lemma_appended2_after(
                                    *old(fx),
                                    g_a,
                                    g_b,
                                    *fx,
                                    InstrV::Alloca { dst: slot, ty: native },
                                    InstrV::Store { ptr: slot, src: vv },
                                );
                            }
                        }
                        bind_insert(
                            &mut fx.bindings,
                            Variable { name: name.clone(), ty: v.ty, slot },
                        );
                        proof {
                            if old(fx).blocks@[old(fx).cur as int]@.term is None {
                                assert(fx.env()[name@] == v.ty);
                                assert(cursor_appended2(
                                    *old(fx),
                                    *fx,
                                    InstrV::Alloca {
                                        dst: slot,
                                        ty: spec_basic_type(fx.env()[name@])->Some_0,
                                    },
                                    InstrV::Store { ptr: slot, src: vv },
                                ));
                            }
                        }
                        Ok(())
                    },
                }
            },
            Statement::If { cond, then_block, elif_blocks, else_block } => {
                if elif_blocks.len() != 0 {
                    return Err(
                        BuildError::UnsupportedConstruct { construct: "elif arm".to_owned() },
                    );
                }
                let cv = match self.eval_expr(fx, &**cond) {
                    Ok(v) => v,
                    Err(er) => {
                        return Err(er);
                    },
                };
                if !matches!(cv.ty, ValueType::Bool) {
                    return Err(BuildError::CondNotBool { found: cv.ty });
                }
                let then_bb = fx.new_block();
                let else_bb = fx.new_block();
                let merge_bb = fx.new_block();
                fx.set_term(Term::CondBr {
                    cond: cv.value.unwrap(),
                    then_to: then_bb,
                    else_to: else_bb,
                });
                fx.set_cursor(then_bb);
                match self.lower_stmts(fx, &then_block.statements, 0) {
                    Ok(()) => {},
                    Err(er) => {
                        return Err(er);
                    },
                }
                fx.set_term(Term::Br { target: merge_bb });
                fx.set_cursor(else_bb);
                match else_block {
                    Some(eb) => {
                        match self.lower_stmts(fx, &eb.statements, 0) {
                            Ok(()) => {},
                            Err(er) => {
                                return Err(er);
                            },
                        }
                    },
                    None => {},
                }
                fx.set_term(Term::Br { target: merge_bb });
                fx.set_cursor(merge_bb);
                Ok(())
            },
            Statement::For { var, iterable, body } => {
                let (start, end) = match iterable {
                    Expr::Range { start, end } => (start, end),
                    _ => {
                        return Err(
                            BuildError::UnsupportedConstruct {
                                construct: "non-range iterable".to_owned(),
                            },
                        );
                    },
                };
                let sv = match self.eval_expr(fx, &**start) {
                    Ok(v) => v,
                    Err(er) => {
                        return Err(er);
                    },
                };
                let ev = match self.eval_expr(fx, &**end) {
                    Ok(v) => v,
                    Err(er) => {
                        return Err(er);
                    },
                };
                let (is_float, start_t, end_t): (bool, usize, usize) = match (sv.ty, ev.ty) {
                    (ValueType::F64, ValueType::F64) => (
                        true,
                        sv.value.unwrap(),
                        ev.value.unwrap(),
                    ),
                    (ValueType::I64, ValueType::I64) => (
                        false,
                        sv.value.unwrap(),
                        ev.value.unwrap(),
                    ),
                    (ValueType::I32, ValueType::I32) => (
                        false,
                        sv.value.unwrap(),
                        ev.value.unwrap(),
                    ),
                    (ValueType::F64, ValueType::I64) => {
                        let t = fx.fresh();
                        fx.emit(Instr::SiToFp { dst: t, src: ev.value.unwrap() });
                        (true, sv.value.unwrap(), t)
                    },
                    (ValueType::I64, ValueType::F64) => {
                        let t = fx.fresh();
                        fx.emit(Instr::SiToFp { dst: t, src: sv.value.unwrap() });
                        (true, t, ev.value.unwrap())
                    },
                    _ => {
                        return Err(BuildError::RangeNotNumeric { start: sv.ty, end: ev.ty });
                    },
                };
                let loop_ty = if is_float {
                    ValueType::F64
                } else {
                    ValueType::I64
                };
                let native = if is_float {
                    NativeType::F64
                } else {
                    NativeType::I64
                };
                let loop_header = fx.new_block();
                let loop_body = fx.new_block();
                let loop_end = fx.new_block();
                let slot = fx.fresh();
                let ghost g_a = *fx;
                fx.emit(Instr::Alloca { dst: slot, ty: native });
                let ghost g_b = *fx;
                fx.emit(Instr::Store { ptr: slot, src: start_t });
                proof {
                    if old(fx).blocks@[old(fx).cur as int]@.term is None {
                        lemma_appended2_after(
                            *old(fx),
                            g_a,
                            g_b,
                            *fx,
                            InstrV::Alloca { dst: slot, ty: native },
                            InstrV::Store { ptr: slot, src: start_t },
                        );
                    }
                }
                bind_insert(&mut fx.bindings, Variable { name: var.clone(), ty: loop_ty, slot });
                fx.set_term(Term::Br { target: loop_header });
                fx.set_cursor(loop_header);
                let curv = fx.fresh();
                fx.emit(Instr::Load { dst: curv, ptr: slot, ty: native });
                proof {
                    assert(fx.blocks@[loop_header as int]@.instrs =~= seq![
                        InstrV::Load { dst: curv, ptr: slot, ty: native },
                    ]);
                }
                let condt = fx.fresh();
                if is_float {
                    fx.emit(Instr::FCmp { dst: condt, pred: FloatPred::Olt, lhs: curv, rhs: end_t });
                    proof {
                        assert(fx.blocks@[loop_header as int]@.instrs =~= seq![
                            InstrV::Load { dst: curv, ptr: slot, ty: native },
                            InstrV::FCmp { dst: condt, pred: FloatPred::Olt, lhs: curv, rhs: end_t },
                        ]);
                    }
                } else {
                    fx.emit(Instr::ICmpSlt { dst: condt, lhs: curv, rhs: end_t });
                    proof {
                        assert(fx.blocks@[loop_header as int]@.instrs =~= seq![
                            InstrV::Load { dst: curv, ptr: slot, ty: native },
                            InstrV::ICmpSlt { dst: condt, lhs: curv, rhs: end_t },
                        ]);
                    }
                }
                fx.set_term(Term::CondBr { cond: condt, then_to: loop_body, else_to: loop_end });
                fx.set_cursor(loop_body);
                match self.lower_stmts(fx, &body.statements, 0) {
                    Ok(()) => {},
                    Err(er) => {
                        return Err(er);
                    },
                }
                let cur2 = fx.fresh();
                fx.emit(Instr::Load { dst: cur2, ptr: slot, ty: native });
                let one = fx.fresh();
                let next = fx.fresh();
                if is_float {
                    fx.emit(Instr::ConstF64 { dst: one, bits: F64_ONE_BITS });
                    fx.emit(Instr::FArith { dst: next, op: FloatOp::Add, lhs: cur2, rhs: one });
                } else {
                    fx.emit(Instr::ConstI64 { dst: one, val: 1 });
                    fx.emit(Instr::IAdd { dst: next, lhs: cur2, rhs: one });
                }
                fx.emit(Instr::Store { ptr: slot, src: next });
                fx.set_term(Term::Br { target: loop_header });
                fx.set_cursor(loop_end);
                proof {
                    if old(fx).blocks@[old(fx).cur as int]@.term is None {
                        assert(native == spec_basic_type(loop_ty)->Some_0);
                        assert(loop_header as int == old(fx).blocks@.len());
                        assert(for_shape(
                            *old(fx),
                            *fx,
                            old(fx).blocks@.len() as int,
                            spec_basic_type(loop_ty)->Some_0,
                            loop_ty,
                            slot,
                            start_t,
                            curv,
                            condt,
                            end_t,
                        ));
                    }
                }
                Ok(())
            },
            Statement::While { .. } => Err(
                BuildError::UnsupportedConstruct { construct: "while loop".to_owned() },
            ),
            Statement::Break => Err(
                BuildError::UnsupportedConstruct { construct: "break".to_owned() },
            ),
            Statement::Continue => Err(
                BuildError::UnsupportedConstruct { construct: "continue".to_owned() },
            ),
            Statement::Use { .. } => Err(
                BuildError::UnsupportedConstruct { construct: "use import".to_owned() },
            ),
            Statement::Block(..) => Err(
                BuildError::UnsupportedConstruct { construct: "block grouping".to_owned() },
            ),
            Statement::Return(opt) => {
                match opt {
                    Some(e) => {
                        let v = match self.eval_expr(fx, e) {
                            Ok(v) => v,
                            Err(er) => {
                                return Err(er);
                            },
                        };
                        fx.set_term(Term::Ret { val: v.value });
                        Ok(())
                    },
                    None => {
                        fx.set_term(Term::Ret { val: None });
                        Ok(())
                    },
                }
            },
            Statement::Function(..) => Ok(()),
        }
    }

    /// Lowers the statements of a block in order, from position `i`.
    pub fn lower_stmts(&self, fx: &mut FunctionContext, stmts: &Vec<Statement>, i: usize) -> (r:
        Result<(), BuildError>)
        requires
            self.wf(),
            old(fx).wf(),
            i <= stmts@.len(),
        ensures
            final(fx).wf(),
            final(fx).blocks@.len() >= old(fx).blocks@.len(),
            forall|b: int|
                0 <= b < old(fx).blocks@.len() && old(fx).blocks@[b]@.term is Some
                    ==> final(fx).blocks@[b]@ == old(fx).blocks@[b]@,
            match r {
                Ok(()) => check_stmts(self.cx(), old(fx).env(), stmts@, i as nat) == Ok::<
                    Map<Seq<char>, ValueType>,
                    BuildErrV,
                >(final(fx).env()),
                Err(er) => check_stmts(self.cx(), old(fx).env(), stmts@, i as nat) == Err::<
                    Map<Seq<char>, ValueType>,
                    BuildErrV,
                >(er@),
            },
        decreases stmts@, stmts@.len() - i, 0int,
    {
        if i == stmts.len() {
            return Ok(());
        }
        match self.lower_statement(fx, &stmts[i]) {
            Err(er) => Err(er),
            Ok(()) => self.lower_stmts(fx, stmts, i + 1),
        }
    }
}


impl<'a> Compiler<'a> {
    /// The value types of a parameter list from position `i`, with the
    /// documented default `F64` for a missing annotation.
    fn params_vts(params: &Vec<Param>, i: usize) -> (r: Result<Vec<ValueType>, BuildError>)
        requires
            i <= params@.len(),
        ensures
            match r {
                Ok(v) => params_value_types(params@, i as nat) == Ok::<Seq<ValueType>, BuildErrV>(
                    v@,
                ) && v@.len() + i == params@.len() && forall|j: int|
                    0 <= j < v@.len() ==> v@[j] != ValueType::Unit,
                Err(er) => params_value_types(params@, i as nat) == Err::<Seq<ValueType>, BuildErrV>(
                    er@,
                ),
            },
        decreases params@.len() - i,
    {
        if i == params.len() {
            let r: Vec<ValueType> = Vec::new();
            proof {
                assert(r@ =~= Seq::<ValueType>::empty());
            }
            return Ok(r);
        }
        let t = match &params[i].ty {
            Some(n) => match type_from_name(n.as_str()) {
                Some(t) => t,
                None => {
                    return Err(BuildError::UnknownTypeName { name: n.clone() });
                },
            },
            None => ValueType::F64,
        };
        match Self::params_vts(params, i + 1) {
            Err(er) => Err(er),
            Ok(mut rest) => {
                let ghost pre = rest@;
                rest.insert(0, t);
                proof {
                    assert(rest@ =~= seq![t] + pre);
                }
                Ok(rest)
            },
        }
    }

    /// The native representation of each parameter value type.
    fn params_native(tys: &Vec<ValueType>) -> (r: Vec<NativeType>)
        requires
            forall|j: int| 0 <= j < tys@.len() ==> tys@[j] != ValueType::Unit,
        ensures
            r@ == tys@.map_values(|t: ValueType| spec_basic_type(t).unwrap()),
    {
        let mut out: Vec<NativeType> = Vec::new();
        let mut i: usize = 0;
        while i < tys.len()
            invariant
                i <= tys@.len(),
                out@.len() == i,
                forall|j: int| 0 <= j < tys@.len() ==> tys@[j] != ValueType::Unit,
                forall|j: int| 0 <= j < i ==> out@[j] == spec_basic_type(tys@[j]).unwrap(),
            decreases tys@.len() - i,
        {
            let n = basic_type(tys[i]).unwrap();
            out.push(n);
            i = i + 1;
        }
        proof {
            assert(out@ =~= tys@.map_values(|t: ValueType| spec_basic_type(t).unwrap()));
        }
        out
    }

    /// Lowers one function and installs it in the module. Its header is
    /// declared first, so its body may call it recursively; a failed body
    /// build leaves the module without any partial function.
    pub fn lower_function(&mut self, function: &Function) -> (r: Result<(), BuildError>)
        requires
            old(self).wf(),
        ensures
            final(self).wf(),
            final(self).registry == old(self).registry,
            match r {
                Ok(()) => ({
                    let h = check_function_full(
                        old(self).registry@,
                        old(self).cx().decls,
                        *function,
                    );
                    &&& h matches Ok(d)
                    &&& final(self).cx().decls == old(self).cx().decls.push(h->Ok_0)
                    &&& final(self).module.functions@.len() == old(self).module.functions@.len()
                        + 1
                    &&& forall|k: int|
                        0 <= k < old(self).module.functions@.len()
                            ==> final(self).module.functions@[k]
                            == old(self).module.functions@[k]
                    &&& final(self).module.functions@.last().name@ == function.name@
                    &&& final(self).module.functions@.last().params@ == h->Ok_0.params
                    &&& final(self).module.functions@.last().ret == h->Ok_0.ret
                }),
                Err(er) => check_function_full(
                    old(self).registry@,
                    old(self).cx().decls,
                    *function,
                ) == Err::<FnDeclV, BuildErrV>(er@) && final(self).module.functions@
                    == old(self).module.functions@ && final(self).cx().decls == old(
                    self,
                ).cx().decls,
            },
    {
        let tys = match Self::params_vts(&function.params, 0) {
            Ok(t) => t,
            Err(er) => {
                return Err(er);
            },
        };
        let ret_vt = match &function.ret_ty {
            Some(n) => match type_from_name(n.as_str()) {
                Some(t) => t,
                None => {
                    return Err(BuildError::UnknownTypeName { name: n.clone() });
                },
            },
            None => ValueType::I32,
        };
        let natives = Self::params_native(&tys);
        let ret_native = if matches!(ret_vt, ValueType::Unit) {
            None
        } else {
            Some(basic_type(ret_vt).unwrap())
        };
        let ghost decls_pre = self.decls@.map_values(|x: FnDecl| x@);
        self.decls.push(
            FnDecl {
                name: function.name.clone(),
                params: crate::ir::clone_native_types(&natives),
                ret: ret_native,
            },
        );
        proof {
            assert(self.decls@.map_values(|x: FnDecl| x@) =~= decls_pre.push(
                fn_header(*function)->Ok_0,
            ));
        }
        let mut fx = FunctionContext::new(function.params.len());
        let ghost tys_seq = tys@;
        let mut i: usize = 0;
        while i < function.params.len()
            invariant
                self.wf(),
                fx.wf(),
                i <= function.params@.len(),
                tys@ == tys_seq,
                tys@.len() == function.params@.len(),
                forall|j: int| 0 <= j < tys@.len() ==> tys@[j] != ValueType::Unit,
                fx.env() == params_env(function.params@, tys@, i as nat),
            decreases function.params@.len() - i,
        {
            let vt = tys[i];
            let native = basic_type(vt).unwrap();
            let slot = fx.fresh();
            fx.emit(Instr::Alloca { dst: slot, ty: native });
            fx.emit(Instr::Store { ptr: slot, src: i });
            bind_insert(
                &mut fx.bindings,
                Variable { name: function.params[i].name.clone(), ty: vt, slot },
            );
            i = i + 1;
        }
        match self.lower_stmts(&mut fx, &function.body.statements, 0) {
            Ok(()) => {},
            Err(er) => {
                self.decls.pop();
                proof {
                    assert(self.decls@.map_values(|x: FnDecl| x@) =~= decls_pre);
                }
                return Err(er);
            },
        }
        if fx.cur_unterminated() {
            match ret_vt {
                ValueType::Unit => fx.set_term(Term::Ret { val: None }),
                ValueType::I32 => {
                    let t = fx.fresh();
                    fx.emit(Instr::ConstI32 { dst: t, val: 0 });
                    fx.set_term(Term::Ret { val: Some(t) });
                },
                ValueType::I64 => {
                    let t = fx.fresh();
                    fx.emit(Instr::ConstI64 { dst: t, val: 0 });
                    fx.set_term(Term::Ret { val: Some(t) });
                },
                ValueType::F64 => {
                    let t = fx.fresh();
                    fx.emit(Instr::ConstF64 { dst: t, bits: 0 });
                    fx.set_term(Term::Ret { val: Some(t) });
                },
                ValueType::Bool => {
                    let t = fx.fresh();
                    fx.emit(Instr::ConstBool { dst: t, val: false });
                    fx.set_term(Term::Ret { val: Some(t) });
                },
                ValueType::Str => {
                    let t = fx.fresh();
                    fx.emit(Instr::ConstNull { dst: t });
                    fx.set_term(Term::Ret { val: Some(t) });
                },
            }
        }
        let FunctionContext { blocks, cur: _, n_temps, bindings: _ } = fx;
        self.module.functions.push(
            IrFunction {
                name: function.name.clone(),
                params: natives,
                ret: ret_native,
                blocks,
                n_temps,
            },
        );
        Ok(())
    }

    /// Lowers each function in file order from position `i`.
    pub fn lower_functions(&mut self, functions: &Vec<&Function>, i: usize) -> (r: Result<
        (),
        BuildError,
    >)
        requires
            old(self).wf(),
            i <= functions@.len(),
        ensures
            final(self).wf(),
            final(self).registry == old(self).registry,
            match r {
                Ok(()) => {
                    &&& check_functions(
                        old(self).registry@,
                        old(self).cx().decls,
                        functions@.map_values(|f: &Function| *f),
                        i as nat,
                    ) == Ok::<Seq<FnDeclV>, BuildErrV>(final(self).cx().decls)
                    &&& final(self).module.functions@.len() == old(self).module.functions@.len()
                        + functions@.len() - i
                    &&& forall|k: int|
                        0 <= k < old(self).module.functions@.len()
                            ==> final(self).module.functions@[k]
                            == old(self).module.functions@[k]
                    &&& forall|j: int|
                        i <= j < functions@.len()
                            ==> final(self).module.functions@[
                                old(self).module.functions@.len() + j - i
                            ].name@ == (#[trigger] functions@[j]).name@
                },
                Err(er) => check_functions(
                    old(self).registry@,
                    old(self).cx().decls,
                    functions@.map_values(|f: &Function| *f),
                    i as nat,
                ) == Err::<Seq<FnDeclV>, BuildErrV>(er@),
            },
        decreases functions@.len() - i,
    {
        if i == functions.len() {
            return Ok(());
        }
        proof {
            assert(functions@.map_values(|f: &Function| *f)[i as int] == *functions@[i as int]);
        }
        match self.lower_function(functions[i]) {
            Err(er) => Err(er),
            Ok(()) => self.lower_functions(functions, i + 1),
        }
    }

    /// The functions of a program, in file order.
    fn collect_functions<'f>(program: &'f Program, i: usize) -> (r: Vec<&'f Function>)
        requires
            i <= program.statements@.len(),
        ensures
            r@.map_values(|f: &Function| *f) == program_functions(program.statements@, i as nat),
        decreases program.statements@.len() - i,
    {
        if i == program.statements.len() {
            let r: Vec<&'f Function> = Vec::new();
            proof {
                assert(r@.map_values(|f: &Function| *f) =~= program_functions(
                    program.statements@,
                    i as nat,
                ));
            }
            return r;
        }
        let mut rest = Self::collect_functions(program, i + 1);
        match &program.statements[i] {
            Statement::Function(f) => {
                rest.insert(0, f);
                proof {
                    assert(rest@.map_values(|g: &Function| *g) =~= program_functions(
                        program.statements@,
                        i as nat,
                    ));
                }
                rest
            },
            _ => rest,
        }
    }

    /// Whether an entry function named `main` is among the functions.
    fn contains_main(functions: &Vec<&Function>) -> (r: bool)
        ensures
            r == has_main(functions@.map_values(|f: &Function| *f)),
    {
        let ghost fns = functions@.map_values(|f: &Function| *f);
        let mut i: usize = 0;
        while i < functions.len()
            invariant
                i <= functions@.len(),
                fns == functions@.map_values(|f: &Function| *f),
                forall|j: int| 0 <= j < i ==> (#[trigger] fns[j]).name@ != "main"@,
            decreases functions.len() - i,
        {
            if str_eq(functions[i].name.as_str(), "main") {
                proof {
                    assert(fns[i as int].name@ == "main"@);
                }
                return true;
            }
            i = i + 1;
        }
        false
    }

    /// Lowers a whole program: each function in file order, then the check
    /// that an entry function named `main` exists. The module holds exactly
    /// the program's functions on success.
    pub fn lower_program(&mut self, program: &Program) -> (r: Result<(), BuildError>)
        requires
            old(self).wf(),
            old(self).decls@.len() == 0,
            old(self).module.functions@.len() == 0,
        ensures
            final(self).wf(),
            final(self).registry == old(self).registry,
            match r {
                Ok(()) => {
                    &&& check_program(old(self).registry@, *program) == Ok::<(), BuildErrV>(())
                    &&& final(self).module.functions@.len() == program_functions(
                        program.statements@,
                        0,
                    ).len()
                    &&& forall|j: int|
                        0 <= j < final(self).module.functions@.len()
                            ==> (#[trigger] final(self).module.functions@[j]).name@
                            == program_functions(program.statements@, 0)[j].name@
                },
                Err(er) => check_program(old(self).registry@, *program) == Err::<(), BuildErrV>(
                    er@,
                ),
            },
    {
        let functions = Self::collect_functions(program, 0);
        proof {
            assert(old(self).cx().decls =~= Seq::<FnDeclV>::empty());
        }
        if functions.len() == 0 {
            return Err(BuildError::EmptyProgram);
        }
        match self.lower_functions(&functions, 0) {
            Err(er) => {
                return Err(er);
            },
            Ok(()) => {},
        }
        if !Self::contains_main(&functions) {
            return Err(BuildError::MissingMain);
        }
        Ok(())
    }
}

/// Builds the native-style module for a whole program: the build entry
/// point of the code generator. Succeeds exactly when the typing rules
/// accept the program, and reports exactly the error they name.
pub fn build_module(program: &Program, registry: &SymbolRegistry) -> (r: Result<
    IrModule,
    BuildError,
>)
    requires
        registry.wf(),
    ensures
        match r {
            Ok(m) => {
                &&& check_program(registry@, *program) == Ok::<(), BuildErrV>(())
                &&& m.functions@.len() == program_functions(program.statements@, 0).len()
                &&& forall|j: int|
                    0 <= j < m.functions@.len() ==> (#[trigger] m.functions@[j]).name@
                        == program_functions(program.statements@, 0)[j].name@
            },
            Err(er) => check_program(registry@, *program) == Err::<(), BuildErrV>(er@),
        },
{
    let mut compiler = Compiler::new(registry);
    match compiler.lower_program(program) {
        Ok(()) => Ok(compiler.module),
        Err(er) => Err(er),
    }
}

} // verus!
