//! The native-style intermediate form the code generator produces: one
//! function at a time, each a control-flow graph of basic blocks. Every
//! basic block is a straight-line run of instructions ended by exactly one
//! branch or return. Instructions name their results by temporaries.

use vstd::prelude::*;
use crate::value_type::NativeType;

verus! {

/// A float arithmetic operation.
#[derive(Debug, Clone, Copy, PartialEq, Eq, Structural)]
pub enum FloatOp {
    Add,
    Sub,
    Mul,
    Div,
    Rem,
}

/// An ordered float comparison predicate.
#[derive(Debug, Clone, Copy, PartialEq, Eq, Structural)]
pub enum FloatPred {
    Oeq,
    One,
    Olt,
    Ogt,
    Ole,
    Oge,
}

/// One instruction. `dst` is the temporary the result is written to;
/// pointers produced by `Alloca` refer to fresh stack slots.
#[derive(Debug)]
pub enum Instr {
    ConstBool { dst: usize, val: bool },
    ConstI32 { dst: usize, val: i32 },
    ConstI64 { dst: usize, val: i64 },
    /// A double-precision constant, carried as its bit pattern.
    ConstF64 { dst: usize, bits: u64 },
    /// A pointer to an immutable global string.
    ConstStr { dst: usize, val: String },
    /// The null pointer (the zero value of pointer-typed results).
    ConstNull { dst: usize },
    Alloca { dst: usize, ty: NativeType },
    Load { dst: usize, ptr: usize, ty: NativeType },
    Store { ptr: usize, src: usize },
    /// Signed integer to double conversion.
    SiToFp { dst: usize, src: usize },
    FArith { dst: usize, op: FloatOp, lhs: usize, rhs: usize },
    FCmp { dst: usize, pred: FloatPred, lhs: usize, rhs: usize },
    FNeg { dst: usize, src: usize },
    NotBool { dst: usize, src: usize },
    /// 64-bit integer addition (used for loop induction).
    IAdd { dst: usize, lhs: usize, rhs: usize },
    /// Signed less-than on 64-bit integers.
    ICmpSlt { dst: usize, lhs: usize, rhs: usize },
    /// A call to a foreign function by native symbol name.
    CallFfi { dst: Option<usize>, symbol: String, args: Vec<usize>, ret: Option<NativeType> },
    /// A call to a function of the same module by language-level name.
    CallFn { dst: Option<usize>, callee: String, args: Vec<usize>, ret: Option<NativeType> },
}

/// The sole terminating instruction of a basic block.
#[derive(Debug)]
pub enum Term {
    Br { target: usize },
    CondBr { cond: usize, then_to: usize, else_to: usize },
    Ret { val: Option<usize> },
}

/// A basic block; `term` is `None` only while the block is still being
/// filled during lowering.
#[derive(Debug)]
pub struct IrBlock {
    pub instrs: Vec<Instr>,
    pub term: Option<Term>,
}

/// One lowered function: its native parameter and return representations
/// and its control-flow graph. Block 0 is the entry block.
#[derive(Debug)]
pub struct IrFunction {
    pub name: String,
    pub params: Vec<NativeType>,
    pub ret: Option<NativeType>,
    pub blocks: Vec<IrBlock>,
    pub n_temps: usize,
}

/// The module being built: the functions lowered so far, in file order.
#[derive(Debug)]
pub struct IrModule {
    pub functions: Vec<IrFunction>,
}

/// Ghost mirror of `Instr`, with strings as character sequences.
pub enum InstrV {
    ConstBool { dst: usize, val: bool },
    ConstI32 { dst: usize, val: i32 },
    ConstI64 { dst: usize, val: i64 },
    ConstF64 { dst: usize, bits: u64 },
    ConstStr { dst: usize, val: Seq<char> },
    ConstNull { dst: usize },
    Alloca { dst: usize, ty: NativeType },
    Load { dst: usize, ptr: usize, ty: NativeType },
    Store { ptr: usize, src: usize },
    SiToFp { dst: usize, src: usize },
    FArith { dst: usize, op: FloatOp, lhs: usize, rhs: usize },
    FCmp { dst: usize, pred: FloatPred, lhs: usize, rhs: usize },
    FNeg { dst: usize, src: usize },
    NotBool { dst: usize, src: usize },
    IAdd { dst: usize, lhs: usize, rhs: usize },
    ICmpSlt { dst: usize, lhs: usize, rhs: usize },
    CallFfi { dst: Option<usize>, symbol: Seq<char>, args: Seq<usize>, ret: Option<NativeType> },
    CallFn { dst: Option<usize>, callee: Seq<char>, args: Seq<usize>, ret: Option<NativeType> },
}

impl View for Instr {
    type V = InstrV;

    open spec fn view(&self) -> InstrV {
        match self {
            Instr::ConstBool { dst, val } => InstrV::ConstBool { dst: *dst, val: *val },
            Instr::ConstI32 { dst, val } => InstrV::ConstI32 { dst: *dst, val: *val },
            Instr::ConstI64 { dst, val } => InstrV::ConstI64 { dst: *dst, val: *val },
            Instr::ConstF64 { dst, bits } => InstrV::ConstF64 { dst: *dst, bits: *bits },
            Instr::ConstStr { dst, val } => InstrV::ConstStr { dst: *dst, val: val@ },
            Instr::ConstNull { dst } => InstrV::ConstNull { dst: *dst },
            Instr::Alloca { dst, ty } => InstrV::Alloca { dst: *dst, ty: *ty },
            Instr::Load { dst, ptr, ty } => InstrV::Load { dst: *dst, ptr: *ptr, ty: *ty },
            Instr::Store { ptr, src } => InstrV::Store { ptr: *ptr, src: *src },
            Instr::SiToFp { dst, src } => InstrV::SiToFp { dst: *dst, src: *src },
            Instr::FArith { dst, op, lhs, rhs } => InstrV::FArith {
                dst: *dst,
                op: *op,
                lhs: *lhs,
                rhs: *rhs,
            },
            Instr::FCmp { dst, pred, lhs, rhs } => InstrV::FCmp {
                dst: *dst,
                pred: *pred,
                lhs: *lhs,
                rhs: *rhs,
            },
            Instr::FNeg { dst, src } => InstrV::FNeg { dst: *dst, src: *src },
            Instr::NotBool { dst, src } => InstrV::NotBool { dst: *dst, src: *src },
            Instr::IAdd { dst, lhs, rhs } => InstrV::IAdd { dst: *dst, lhs: *lhs, rhs: *rhs },
            Instr::ICmpSlt { dst, lhs, rhs } => InstrV::ICmpSlt {
                dst: *dst,
                lhs: *lhs,
                rhs: *rhs,
            },
            Instr::CallFfi { dst, symbol, args, ret } => InstrV::CallFfi {
                dst: *dst,
                symbol: symbol@,
                args: args@,
                ret: *ret,
            },
            Instr::CallFn { dst, callee, args, ret } => InstrV::CallFn {
                dst: *dst,
                callee: callee@,
                args: args@,
                ret: *ret,
            },
        }
    }
}

/// Ghost mirror of a basic block.
pub struct IrBlockV {
    pub instrs: Seq<InstrV>,
    pub term: Option<Term>,
}

impl View for IrBlock {
    type V = IrBlockV;

    open spec fn view(&self) -> IrBlockV {
        IrBlockV { instrs: self.instrs@.map_values(|i: Instr| i@), term: self.term }
    }
}

/// Ghost mirror of a lowered function.
pub struct IrFunctionV {
    pub name: Seq<char>,
    pub params: Seq<NativeType>,
    pub ret: Option<NativeType>,
    pub blocks: Seq<IrBlockV>,
    pub n_temps: usize,
}

impl View for IrFunction {
    type V = IrFunctionV;

    open spec fn view(&self) -> IrFunctionV {
        IrFunctionV {
            name: self.name@,
            params: self.params@,
            ret: self.ret,
            blocks: self.blocks@.map_values(|b: IrBlock| b@),
            n_temps: self.n_temps,
        }
    }
}

impl View for IrModule {
    type V = Seq<IrFunctionV>;

    open spec fn view(&self) -> Seq<IrFunctionV> {
        self.functions@.map_values(|f: IrFunction| f@)
    }
}

impl Clone for Instr {
    fn clone(&self) -> (r: Self)
        ensures
            r@ == self@,
    {
        match self {
            Instr::ConstBool { dst, val } => Instr::ConstBool { dst: *dst, val: *val },
            Instr::ConstI32 { dst, val } => Instr::ConstI32 { dst: *dst, val: *val },
            Instr::ConstI64 { dst, val } => Instr::ConstI64 { dst: *dst, val: *val },
            Instr::ConstF64 { dst, bits } => Instr::ConstF64 { dst: *dst, bits: *bits },
            Instr::ConstStr { dst, val } => Instr::ConstStr { dst: *dst, val: val.clone() },
            Instr::ConstNull { dst } => Instr::ConstNull { dst: *dst },
            Instr::Alloca { dst, ty } => Instr::Alloca { dst: *dst, ty: *ty },
            Instr::Load { dst, ptr, ty } => Instr::Load { dst: *dst, ptr: *ptr, ty: *ty },
            Instr::Store { ptr, src } => Instr::Store { ptr: *ptr, src: *src },
            Instr::SiToFp { dst, src } => Instr::SiToFp { dst: *dst, src: *src },
            Instr::FArith { dst, op, lhs, rhs } => Instr::FArith {
                dst: *dst,
                op: *op,
                lhs: *lhs,
                rhs: *rhs,
            },
            Instr::FCmp { dst, pred, lhs, rhs } => Instr::FCmp {
                dst: *dst,
                pred: *pred,
                lhs: *lhs,
                rhs: *rhs,
            },
            Instr::FNeg { dst, src } => Instr::FNeg { dst: *dst, src: *src },
            Instr::NotBool { dst, src } => Instr::NotBool { dst: *dst, src: *src },
            Instr::IAdd { dst, lhs, rhs } => Instr::IAdd { dst: *dst, lhs: *lhs, rhs: *rhs },
            Instr::ICmpSlt { dst, lhs, rhs } => Instr::ICmpSlt {
                dst: *dst,
                lhs: *lhs,
                rhs: *rhs,
            },
            Instr::CallFfi { dst, symbol, args, ret } => {
                let r = Instr::CallFfi {
                    dst: *dst,
                    symbol: symbol.clone(),
                    args: clone_usizes(args),
                    ret: *ret,
                };
                r
            },
            Instr::CallFn { dst, callee, args, ret } => {
                let r = Instr::CallFn {
                    dst: *dst,
                    callee: callee.clone(),
                    args: clone_usizes(args),
                    ret: *ret,
                };
                r
            },
        }
    }
}

fn clone_usizes(v: &Vec<usize>) -> (r: Vec<usize>)
    ensures
        r@ == v@,
{
    let mut out: Vec<usize> = Vec::new();
    let mut i: usize = 0;
    while i < v.len()
        invariant
            i <= v.len(),
            out@ == v@.take(i as int),
        decreases v.len() - i,
    {
        out.push(v[i]);
        proof {
            assert(v@.take(i as int).push(v@[i as int]) =~= v@.take(i as int + 1));
        }
        i = i + 1;
    }
    proof {
        assert(v@.take(v@.len() as int) =~= v@);
    }
    out
}

impl Clone for Term {
    fn clone(&self) -> (r: Self)
        ensures
            r == *self,
    {
        match self {
            Term::Br { target } => Term::Br { target: *target },
            Term::CondBr { cond, then_to, else_to } => Term::CondBr {
                cond: *cond,
                then_to: *then_to,
                else_to: *else_to,
            },
            Term::Ret { val } => Term::Ret { val: *val },
        }
    }
}

impl Clone for IrBlock {
    fn clone(&self) -> (r: Self)
        ensures
            r@ == self@,
    {
        let mut instrs: Vec<Instr> = Vec::new();
        let mut i: usize = 0;
        while i < self.instrs.len()
            invariant
                i <= self.instrs.len(),
                instrs@.len() == i,
                forall|j: int| 0 <= j < i ==> #[trigger] instrs@[j]@ == self.instrs@[j]@,
            decreases self.instrs.len() - i,
        {
            instrs.push(self.instrs[i].clone());
            i = i + 1;
        }
        let term = match &self.term {
            Option::Some(t) => Option::Some(t.clone()),
            Option::None => Option::None,
        };
        proof {
            assert(instrs@.map_values(|x: Instr| x@) =~= self.instrs@.map_values(|x: Instr| x@));
        }
        IrBlock { instrs, term }
    }
}

impl Clone for IrFunction {
    fn clone(&self) -> (r: Self)
        ensures
            r@ == self@,
    {
        let mut blocks: Vec<IrBlock> = Vec::new();
        let mut i: usize = 0;
        while i < self.blocks.len()
            invariant
                i <= self.blocks.len(),
                blocks@.len() == i,
                forall|j: int| 0 <= j < i ==> #[trigger] blocks@[j]@ == self.blocks@[j]@,
            decreases self.blocks.len() - i,
        {
            blocks.push(self.blocks[i].clone());
            i = i + 1;
        }
        proof {
            assert(blocks@.map_values(|b: IrBlock| b@) =~= self.blocks@.map_values(
                |b: IrBlock| b@,
            ));
        }
        IrFunction {
            name: self.name.clone(),
            params: clone_native_types(&self.params),
            ret: self.ret,
            blocks,
            n_temps: self.n_temps,
        }
    }
}

pub(crate) fn clone_native_types(v: &Vec<NativeType>) -> (r: Vec<NativeType>)
    ensures
        r@ == v@,
{
    let mut out: Vec<NativeType> = Vec::new();
    let mut i: usize = 0;
    while i < v.len()
        invariant
            i <= v.len(),
            out@ == v@.take(i as int),
        decreases v.len() - i,
    {
        out.push(v[i]);
        proof {
            assert(v@.take(i as int).push(v@[i as int]) =~= v@.take(i as int + 1));
        }
        i = i + 1;
    }
    proof {
        assert(v@.take(v@.len() as int) =~= v@);
    }
    out
}

} // verus!
