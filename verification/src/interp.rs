//! Execution of lowered functions: a fuel-bounded run over the
//! control-flow graph, with the runtime services generated code reaches by
//! native symbol name — printing, the error context, and the allocator
//! boundary. The whole semantics is stated as recursive specification
//! functions over the ghost instruction mirrors, and the executable
//! interpreter is proved to compute exactly that semantics. Malformed code
//! traps with a reported reason instead of corrupting anything.

use vstd::prelude::*;
use crate::float::{
    F64_SIGN_BIT, FloatOrder, f64_add, f64_add_bits, f64_cmp, f64_cmp_bits, f64_div, f64_div_bits,
    f64_mul, f64_mul_bits, f64_neg, f64_of_i64, f64_of_i64_bits, f64_rem, f64_rem_bits, f64_sub,
    f64_sub_bits,
};
use crate::ir::{FloatOp, FloatPred, Instr, InstrV, IrFunction, IrFunctionV, IrModule, Term};
use crate::memory::{HEAP_BASE, MemoryManager};
use crate::strutil::str_eq;
use crate::value_type::NativeType;

verus! {

/// A runtime pointer value: null, a stack slot of the current activation,
/// an immutable global string, or a heap address from the allocator.
#[derive(Debug)]
pub enum PtrVal {
    Null,
    Slot(usize),
    Text(String),
    Heap(u64),
}

/// A runtime value. Doubles are carried as bit patterns.
#[derive(Debug)]
pub enum RtVal {
    Bool(bool),
    I32(i32),
    I64(i64),
    F64(u64),
    Ptr(PtrVal),
}

/// Ghost mirror of a pointer value.
pub enum PtrValV {
    Null,
    Slot(usize),
    Text(Seq<char>),
    Heap(u64),
}

/// Ghost mirror of a runtime value.
pub enum RtValV {
    Bool(bool),
    I32(i32),
    I64(i64),
    F64(u64),
    Ptr(PtrValV),
}

impl View for PtrVal {
    type V = PtrValV;

    open spec fn view(&self) -> PtrValV {
        match self {
            PtrVal::Null => PtrValV::Null,
            PtrVal::Slot(s) => PtrValV::Slot(*s),
            PtrVal::Text(t) => PtrValV::Text(t@),
            PtrVal::Heap(a) => PtrValV::Heap(*a),
        }
    }
}

impl View for RtVal {
    type V = RtValV;

    open spec fn view(&self) -> RtValV {
        match self {
            RtVal::Bool(b) => RtValV::Bool(*b),
            RtVal::I32(v) => RtValV::I32(*v),
            RtVal::I64(v) => RtValV::I64(*v),
            RtVal::F64(bits) => RtValV::F64(*bits),
            RtVal::Ptr(p) => RtValV::Ptr(p@),
        }
    }
}

impl Clone for PtrVal {
    fn clone(&self) -> (r: Self)
        ensures
            r@ == self@,
    {
        match self {
            PtrVal::Null => PtrVal::Null,
            PtrVal::Slot(s) => PtrVal::Slot(*s),
            PtrVal::Text(t) => PtrVal::Text(t.clone()),
            PtrVal::Heap(a) => PtrVal::Heap(*a),
        }
    }
}

impl Clone for RtVal {
    fn clone(&self) -> (r: Self)
        ensures
            r@ == self@,
    {
        match self {
            RtVal::Bool(b) => RtVal::Bool(*b),
            RtVal::I32(v) => RtVal::I32(*v),
            RtVal::I64(v) => RtVal::I64(*v),
            RtVal::F64(bits) => RtVal::F64(*bits),
            RtVal::Ptr(p) => RtVal::Ptr(p.clone()),
        }
    }
}

/// The process-wide runtime state the services mutate: the collected
/// standard and error output, the error context, the allocator, and the
/// executed-step counter.
#[derive(Debug)]
pub struct RunEnv {
    pub output: String,
    pub errout: String,
    pub context_depth: u64,
    pub has_error: bool,
    pub error_message: String,
    pub memory: MemoryManager,
    pub steps: u64,
}

/// Ghost mirror of the runtime state the semantics tracks. The step
/// counter is a diagnostic and stays outside the model.
pub struct RunEnvV {
    pub output: Seq<char>,
    pub errout: Seq<char>,
    pub context_depth: u64,
    pub has_error: bool,
    pub error_message: Seq<char>,
    pub mem_next: u64,
    pub roots: Set<u64>,
}

impl View for RunEnv {
    type V = RunEnvV;

    open spec fn view(&self) -> RunEnvV {
        RunEnvV {
            output: self.output@,
            errout: self.errout@,
            context_depth: self.context_depth,
            has_error: self.has_error,
            error_message: self.error_message@,
            mem_next: self.memory.spec_next(),
            roots: self.memory.root_set(),
        }
    }
}

impl RunEnv {
    pub open spec fn wf(&self) -> bool {
        self.memory.wf()
    }

    /// A fresh runtime with empty output and no error state.
    pub fn new() -> (r: Self)
        ensures
            r.wf(),
            r@ == (RunEnvV {
                output: Seq::<char>::empty(),
                errout: Seq::<char>::empty(),
                context_depth: 0,
                has_error: false,
                error_message: Seq::<char>::empty(),
                mem_next: HEAP_BASE,
                roots: Set::<u64>::empty(),
            }),
            r.steps == 0,
    {
        RunEnv {
            output: String::new(),
            errout: String::new(),
            context_depth: 0,
            has_error: false,
            error_message: String::new(),
            memory: MemoryManager::new(),
            steps: 0,
        }
    }
}

/// How one execution ended: a value (none for unit results), fuel
/// exhaustion, or a trap with its reason.
#[derive(Debug)]
pub enum ExecResult {
    Value(Option<RtVal>),
    OutOfFuel,
    Trap(String),
}

/// Ghost mirror of an outcome; the trap reason is a diagnostic and stays
/// outside the model.
pub enum ExecResultV {
    Value(Option<RtValV>),
    OutOfFuel,
    Trap,
}

impl View for ExecResult {
    type V = ExecResultV;

    open spec fn view(&self) -> ExecResultV {
        match self {
            ExecResult::Value(v) => ExecResultV::Value(
                match v {
                    Some(x) => Some(x@),
                    None => None,
                },
            ),
            ExecResult::OutOfFuel => ExecResultV::OutOfFuel,
            ExecResult::Trap(..) => ExecResultV::Trap,
        }
    }
}

/// One activation's state: the shared runtime plus its temporaries and
/// stack slots.
pub struct FrameV {
    pub env: RunEnvV,
    pub temps: Seq<Option<RtValV>>,
    pub slots: Seq<RtValV>,
}

/// One instruction's effect: the activation continues, or execution of the
/// whole function stops with an outcome.
pub enum StepOut {
    Go(FrameV),
    Done(ExecResultV, RunEnvV),
}

/// The temporaries as a total map: unset and out-of-range are absent.
pub open spec fn spec_temp(temps: Seq<Option<RtValV>>, i: usize) -> Option<RtValV> {
    if i < temps.len() {
        temps[i as int]
    } else {
        None
    }
}

/// Writing a temporary grows the bank with absent entries up to it.
pub open spec fn spec_set_temp(temps: Seq<Option<RtValV>>, i: usize, v: RtValV) -> Seq<
    Option<RtValV>,
> {
    let padded = if temps.len() <= i {
        temps + Seq::new((i + 1 - temps.len()) as nat, |j: int| None::<RtValV>)
    } else {
        temps
    };
    padded.update(i as int, Some(v))
}

/// The argument values of a call, each read from its temporary; an absent
/// temporary makes the call unusable.
pub open spec fn spec_gather(temps: Seq<Option<RtValV>>, idxs: Seq<usize>) -> Option<Seq<RtValV>>
    decreases idxs.len(),
{
    if idxs.len() == 0 {
        Some(Seq::empty())
    } else {
        match spec_temp(temps, idxs[0]) {
            Some(v) => match spec_gather(temps, idxs.drop_first()) {
                Some(rest) => Some(seq![v] + rest),
                None => None,
            },
            None => None,
        }
    }
}

/// The zero value of a native representation.
pub open spec fn spec_zero_of(ty: NativeType) -> RtValV {
    match ty {
        NativeType::I1 => RtValV::Bool(false),
        NativeType::I32 => RtValV::I32(0),
        NativeType::I64 => RtValV::I64(0),
        NativeType::F64 => RtValV::F64(0),
        NativeType::Ptr => RtValV::Ptr(PtrValV::Null),
    }
}

/// One runtime-service call, by native symbol name: printing appends to
/// the collected output, the error-context services read and write the
/// error state (raising takes an opaque error value and a code, both
/// integer-carried, and sets the error flag), and the allocator boundary
/// bumps the heap cursor and edits the root set. An unknown symbol or
/// unusable arguments yield nothing — a trap.
pub open spec fn spec_service(env: RunEnvV, symbol: Seq<char>, vals: Seq<RtValV>) -> Option<
    (RunEnvV, Option<RtValV>),
> {
    if symbol == "otter_std_io_print"@ || symbol == "otter_std_fmt_print"@ {
        if vals.len() != 1 {
            None
        } else {
            match vals[0] {
                RtValV::Ptr(PtrValV::Text(s)) => Some(
                    (RunEnvV { output: env.output + s, ..env }, None),
                ),
                RtValV::Ptr(PtrValV::Null) => Some((env, None)),
                _ => None,
            }
        }
    } else if symbol == "otter_std_io_println"@ || symbol == "otter_std_fmt_println"@ {
        if vals.len() != 1 {
            None
        } else {
            match vals[0] {
                RtValV::Ptr(PtrValV::Text(s)) => Some(
                    (RunEnvV { output: env.output + s + "\n"@, ..env }, None),
                ),
                RtValV::Ptr(PtrValV::Null) => Some(
                    (RunEnvV { output: env.output + "\n"@, ..env }, None),
                ),
                _ => None,
            }
        }
    } else if symbol == "otter_std_fmt_eprintln"@ {
        if vals.len() != 1 {
            None
        } else {
            match vals[0] {
                RtValV::Ptr(PtrValV::Text(s)) => Some(
                    (RunEnvV { errout: env.errout + s + "\n"@, ..env }, None),
                ),
                RtValV::Ptr(PtrValV::Null) => Some(
                    (RunEnvV { errout: env.errout + "\n"@, ..env }, None),
                ),
                _ => None,
            }
        }
    } else if symbol == "otter_alloc"@ {
        if vals.len() != 1 {
            None
        } else {
            match vals[0] {
                RtValV::I64(size) => Some(
                    (
                        RunEnvV {
                            mem_next: if env.mem_next + (size as u64) <= u64::MAX {
                                (env.mem_next + (size as u64)) as u64
                            } else {
                                u64::MAX
                            },
                            ..env
                        },
                        Some(RtValV::Ptr(PtrValV::Heap(env.mem_next))),
                    ),
                ),
                _ => None,
            }
        }
    } else if symbol == "otter_gc_add_root"@ {
        if vals.len() != 1 {
            None
        } else {
            match vals[0] {
                RtValV::Ptr(PtrValV::Heap(a)) => Some(
                    (RunEnvV { roots: env.roots.insert(a), ..env }, None),
                ),
                RtValV::Ptr(PtrValV::Null) => Some(
                    (RunEnvV { roots: env.roots.insert(0), ..env }, None),
                ),
                _ => None,
            }
        }
    } else if symbol == "otter_gc_remove_root"@ {
        if vals.len() != 1 {
            None
        } else {
            match vals[0] {
                RtValV::Ptr(PtrValV::Heap(a)) => Some(
                    (RunEnvV { roots: env.roots.remove(a), ..env }, None),
                ),
                RtValV::Ptr(PtrValV::Null) => Some(
                    (RunEnvV { roots: env.roots.remove(0), ..env }, None),
                ),
                _ => None,
            }
        }
    } else if symbol == "otter_error_raise"@ {
        if vals.len() != 2 {
            None
        } else {
            match (vals[0], vals[1]) {
                (RtValV::I64(..), RtValV::I64(..)) => Some(
                    (RunEnvV { has_error: true, ..env }, Some(RtValV::Bool(true))),
                ),
                _ => None,
            }
        }
    } else if symbol == "otter_error_push_context"@ {
        Some(
            (
                RunEnvV {
                    context_depth: if env.context_depth < u64::MAX {
                        (env.context_depth + 1) as u64
                    } else {
                        env.context_depth
                    },
                    ..env
                },
                None,
            ),
        )
    } else if symbol == "otter_error_pop_context"@ {
        Some(
            (
                RunEnvV {
                    context_depth: if env.context_depth > 0 {
                        (env.context_depth - 1) as u64
                    } else {
                        0
                    },
                    ..env
                },
                None,
            ),
        )
    } else if symbol == "otter_error_clear"@ {
        Some(
            (
                RunEnvV { has_error: false, error_message: Seq::<char>::empty(), ..env },
                Some(RtValV::Bool(env.has_error)),
            ),
        )
    } else if symbol == "otter_error_has_error"@ {
        Some((env, Some(RtValV::Bool(env.has_error))))
    } else if symbol == "otter_error_get_message"@ {
        Some((env, Some(RtValV::Ptr(PtrValV::Text(env.error_message)))))
    } else if symbol == "otter_error_rethrow"@ {
        Some((env, None))
    } else {
        None
    }
}

/// The outcome a call instruction's result slot takes: a produced value is
/// written, a demanded-but-missing value is a trap, an undemanded result
/// is dropped.
pub open spec fn spec_store_result(fr: FrameV, dst: Option<usize>, out: Option<RtValV>) -> StepOut {
    match dst {
        Some(d) => {
            if d >= usize::MAX {
                StepOut::Done(ExecResultV::Trap, fr.env)
            } else {
                match out {
                    Some(v) => StepOut::Go(FrameV { temps: spec_set_temp(fr.temps, d, v), ..fr }),
                    None => StepOut::Done(ExecResultV::Trap, fr.env),
                }
            }
        },
        None => StepOut::Go(fr),
    }
}

/// One instruction's semantics.
pub open spec fn spec_instr(module: Seq<IrFunctionV>, fr: FrameV, instr: InstrV, fuel: u64) -> StepOut
    decreases fuel, 0int, 0int, 0int,
{
    match instr {
        InstrV::ConstBool { dst, val } => {
            if dst >= usize::MAX {
                StepOut::Done(ExecResultV::Trap, fr.env)
            } else {
                StepOut::Go(FrameV { temps: spec_set_temp(fr.temps, dst, RtValV::Bool(val)), ..fr })
            }
        },
        InstrV::ConstI32 { dst, val } => {
            if dst >= usize::MAX {
                StepOut::Done(ExecResultV::Trap, fr.env)
            } else {
                StepOut::Go(FrameV { temps: spec_set_temp(fr.temps, dst, RtValV::I32(val)), ..fr })
            }
        },
        InstrV::ConstI64 { dst, val } => {
            if dst >= usize::MAX {
                StepOut::Done(ExecResultV::Trap, fr.env)
            } else {
                StepOut::Go(FrameV { temps: spec_set_temp(fr.temps, dst, RtValV::I64(val)), ..fr })
            }
        },
        InstrV::ConstF64 { dst, bits } => {
            if dst >= usize::MAX {
                StepOut::Done(ExecResultV::Trap, fr.env)
            } else {
                StepOut::Go(FrameV { temps: spec_set_temp(fr.temps, dst, RtValV::F64(bits)), ..fr })
            }
        },
        InstrV::ConstStr { dst, val } => {
            if dst >= usize::MAX {
                StepOut::Done(ExecResultV::Trap, fr.env)
            } else {
                StepOut::Go(
                    FrameV {
                        temps: spec_set_temp(fr.temps, dst, RtValV::Ptr(PtrValV::Text(val))),
                        ..fr
                    },
                )
            }
        },
        InstrV::ConstNull { dst } => {
            if dst >= usize::MAX {
                StepOut::Done(ExecResultV::Trap, fr.env)
            } else {
                StepOut::Go(
                    FrameV { temps: spec_set_temp(fr.temps, dst, RtValV::Ptr(PtrValV::Null)), ..fr },
                )
            }
        },
        InstrV::Alloca { dst, ty } => {
            if dst >= usize::MAX {
                StepOut::Done(ExecResultV::Trap, fr.env)
            } else {
                StepOut::Go(
                    FrameV {
                        temps: spec_set_temp(
                            fr.temps,
                            dst,
                            RtValV::Ptr(PtrValV::Slot(fr.slots.len() as usize)),
                        ),
                        slots: fr.slots.push(spec_zero_of(ty)),
                        ..fr
                    },
                )
            }
        },
        InstrV::Load { dst, ptr, ty: _ } => {
            if dst >= usize::MAX {
                StepOut::Done(ExecResultV::Trap, fr.env)
            } else {
                match spec_temp(fr.temps, ptr) {
                    Some(RtValV::Ptr(PtrValV::Slot(s))) => {
                        if s < fr.slots.len() {
                            StepOut::Go(
                                FrameV {
                                    temps: spec_set_temp(fr.temps, dst, fr.slots[s as int]),
                                    ..fr
                                },
                            )
                        } else {
                            StepOut::Done(ExecResultV::Trap, fr.env)
                        }
                    },
                    _ => StepOut::Done(ExecResultV::Trap, fr.env),
                }
            }
        },
        InstrV::Store { ptr, src } => {
            match spec_temp(fr.temps, src) {
                Some(v) => match spec_temp(fr.temps, ptr) {
                    Some(RtValV::Ptr(PtrValV::Slot(s))) => {
                        if s < fr.slots.len() {
                            StepOut::Go(FrameV { slots: fr.slots.update(s as int, v), ..fr })
                        } else {
                            StepOut::Done(ExecResultV::Trap, fr.env)
                        }
                    },
                    _ => StepOut::Done(ExecResultV::Trap, fr.env),
                },
                None => StepOut::Done(ExecResultV::Trap, fr.env),
            }
        },
        InstrV::SiToFp { dst, src } => {
            if dst >= usize::MAX {
                StepOut::Done(ExecResultV::Trap, fr.env)
            } else {
                match spec_temp(fr.temps, src) {
                    Some(RtValV::I64(v)) => StepOut::Go(
                        FrameV {
                            temps: spec_set_temp(fr.temps, dst, RtValV::F64(f64_of_i64_bits(v))),
                            ..fr
                        },
                    ),
                    _ => StepOut::Done(ExecResultV::Trap, fr.env),
                }
            }
        },
        InstrV::FArith { dst, op, lhs, rhs } => {
            if dst >= usize::MAX {
                StepOut::Done(ExecResultV::Trap, fr.env)
            } else {
                match (spec_temp(fr.temps, lhs), spec_temp(fr.temps, rhs)) {
                    (Some(RtValV::F64(a)), Some(RtValV::F64(b))) => {
                        let c = match op {
                            FloatOp::Add => f64_add_bits(a, b),
                            FloatOp::Sub => f64_sub_bits(a, b),
                            FloatOp::Mul => f64_mul_bits(a, b),
                            FloatOp::Div => f64_div_bits(a, b),
                            FloatOp::Rem => f64_rem_bits(a, b),
                        };
                        StepOut::Go(
                            FrameV { temps: spec_set_temp(fr.temps, dst, RtValV::F64(c)), ..fr },
                        )
                    },
                    _ => StepOut::Done(ExecResultV::Trap, fr.env),
                }
            }
        },
        InstrV::FCmp { dst, pred, lhs, rhs } => {
            if dst >= usize::MAX {
                StepOut::Done(ExecResultV::Trap, fr.env)
            } else {
                match (spec_temp(fr.temps, lhs), spec_temp(fr.temps, rhs)) {
                    (Some(RtValV::F64(a)), Some(RtValV::F64(b))) => {
                        let ord = f64_cmp_bits(a, b);
                        let res = match pred {
                            FloatPred::Oeq => ord is Equal,
                            FloatPred::One => ord is Less || ord is Greater,
                            FloatPred::Olt => ord is Less,
                            FloatPred::Ogt => ord is Greater,
                            FloatPred::Ole => ord is Less || ord is Equal,
                            FloatPred::Oge => ord is Greater || ord is Equal,
                        };
                        StepOut::Go(
                            FrameV { temps: spec_set_temp(fr.temps, dst, RtValV::Bool(res)), ..fr },
                        )
                    },
                    _ => StepOut::Done(ExecResultV::Trap, fr.env),
                }
            }
        },
        InstrV::FNeg { dst, src } => {
            if dst >= usize::MAX {
                StepOut::Done(ExecResultV::Trap, fr.env)
            } else {
                match spec_temp(fr.temps, src) {
                    Some(RtValV::F64(a)) => StepOut::Go(
                        FrameV {
                            temps: spec_set_temp(fr.temps, dst, RtValV::F64(a ^ F64_SIGN_BIT)),
                            ..fr
                        },
                    ),
                    _ => StepOut::Done(ExecResultV::Trap, fr.env),
                }
            }
        },
        InstrV::NotBool { dst, src } => {
            if dst >= usize::MAX {
                StepOut::Done(ExecResultV::Trap, fr.env)
            } else {
                match spec_temp(fr.temps, src) {
                    Some(RtValV::Bool(b)) => StepOut::Go(
                        FrameV { temps: spec_set_temp(fr.temps, dst, RtValV::Bool(!b)), ..fr },
                    ),
                    _ => StepOut::Done(ExecResultV::Trap, fr.env),
                }
            }
        },
        InstrV::IAdd { dst, lhs, rhs } => {
            if dst >= usize::MAX {
                StepOut::Done(ExecResultV::Trap, fr.env)
            } else {
                match (spec_temp(fr.temps, lhs), spec_temp(fr.temps, rhs)) {
                    (Some(RtValV::I64(a)), Some(RtValV::I64(b))) => StepOut::Go(
                        FrameV {
                            temps: spec_set_temp(fr.temps, dst, RtValV::I64(a.wrapping_add(b))),
                            ..fr
                        },
                    ),
                    _ => StepOut::Done(ExecResultV::Trap, fr.env),
                }
            }
        },
        InstrV::ICmpSlt { dst, lhs, rhs } => {
            if dst >= usize::MAX {
                StepOut::Done(ExecResultV::Trap, fr.env)
            } else {
                match (spec_temp(fr.temps, lhs), spec_temp(fr.temps, rhs)) {
                    (Some(RtValV::I64(a)), Some(RtValV::I64(b))) => StepOut::Go(
                        FrameV { temps: spec_set_temp(fr.temps, dst, RtValV::Bool(a < b)), ..fr },
                    ),
                    _ => StepOut::Done(ExecResultV::Trap, fr.env),
                }
            }
        },
        InstrV::CallFfi { dst, symbol, args, ret: _ } => {
            match spec_gather(fr.temps, args) {
                Some(vals) => match spec_service(fr.env, symbol, vals) {
                    Some(p) => spec_store_result(FrameV { env: p.0, ..fr }, dst, p.1),
                    None => StepOut::Done(ExecResultV::Trap, fr.env),
                },
                None => StepOut::Done(ExecResultV::Trap, fr.env),
            }
        },
        InstrV::CallFn { dst, callee, args, ret: _ } => {
            match spec_gather(fr.temps, args) {
                Some(vals) => {
                    if fuel == 0 {
                        StepOut::Done(ExecResultV::OutOfFuel, fr.env)
                    } else {
                        let sub = spec_exec_fn(module, fr.env, callee, vals, (fuel - 1) as u64);
                        match sub.0 {
                            ExecResultV::Value(out) => spec_store_result(
                                FrameV { env: sub.1, ..fr },
                                dst,
                                out,
                            ),
                            ExecResultV::OutOfFuel => StepOut::Done(ExecResultV::OutOfFuel, sub.1),
                            ExecResultV::Trap => StepOut::Done(ExecResultV::Trap, sub.1),
                        }
                    }
                },
                None => StepOut::Done(ExecResultV::Trap, fr.env),
            }
        },
    }
}

/// The instructions of a block from position `k`, in order.
pub open spec fn spec_instrs(
    module: Seq<IrFunctionV>,
    fr: FrameV,
    instrs: Seq<InstrV>,
    k: nat,
    fuel: u64,
) -> StepOut
    decreases fuel, 1int, 0int, instrs.len() - k,
{
    if k >= instrs.len() {
        StepOut::Go(fr)
    } else {
        match spec_instr(module, fr, instrs[k as int], fuel) {
            StepOut::Go(fr2) => spec_instrs(module, fr2, instrs, k + 1, fuel),
            StepOut::Done(res, env) => StepOut::Done(res, env),
        }
    }
}

/// The run from one block onward: each block runs its instructions in
/// order, then its terminator decides; `bfuel` bounds how many blocks may
/// still run.
pub open spec fn spec_run_blocks(
    module: Seq<IrFunctionV>,
    f: IrFunctionV,
    fr: FrameV,
    block: usize,
    bfuel: u64,
    fuel: u64,
) -> (ExecResultV, RunEnvV)
    decreases fuel, 2int, bfuel, 0int,
{
    if bfuel == 0 {
        (ExecResultV::OutOfFuel, fr.env)
    } else if block >= f.blocks.len() {
        (ExecResultV::Trap, fr.env)
    } else {
        match spec_instrs(module, fr, f.blocks[block as int].instrs, 0, fuel) {
            StepOut::Done(res, env) => (res, env),
            StepOut::Go(fr2) => {
                match f.blocks[block as int].term {
                    None => (ExecResultV::Trap, fr2.env),
                    Some(Term::Br { target }) => spec_run_blocks(
                        module,
                        f,
                        fr2,
                        target,
                        (bfuel - 1) as u64,
                        fuel,
                    ),
                    Some(Term::CondBr { cond, then_to, else_to }) => {
                        match spec_temp(fr2.temps, cond) {
                            Some(RtValV::Bool(true)) => spec_run_blocks(
                                module,
                                f,
                                fr2,
                                then_to,
                                (bfuel - 1) as u64,
                                fuel,
                            ),
                            Some(RtValV::Bool(false)) => spec_run_blocks(
                                module,
                                f,
                                fr2,
                                else_to,
                                (bfuel - 1) as u64,
                                fuel,
                            ),
                            _ => (ExecResultV::Trap, fr2.env),
                        }
                    },
                    Some(Term::Ret { val }) => {
                        match val {
                            Some(t) => match spec_temp(fr2.temps, t) {
                                Some(v) => (ExecResultV::Value(Some(v)), fr2.env),
                                None => (ExecResultV::Trap, fr2.env),
                            },
                            None => (ExecResultV::Value(None), fr2.env),
                        }
                    },
                }
            },
        }
    }
}

/// The temporaries of a fresh activation: its arguments, in order.
pub open spec fn spec_seed(args: Seq<RtValV>) -> Seq<Option<RtValV>> {
    Seq::new(args.len(), |i: int| Some(args[i]))
}

/// Executing one function value: the argument count must match its
/// declared parameters, then its blocks run from the entry block with an
/// empty slot bank.
pub open spec fn spec_exec_ir(
    module: Seq<IrFunctionV>,
    env: RunEnvV,
    f: IrFunctionV,
    args: Seq<RtValV>,
    fuel: u64,
) -> (ExecResultV, RunEnvV)
    decreases fuel, 3int, 0int, 0int,
{
    if fuel == 0 {
        (ExecResultV::OutOfFuel, env)
    } else if f.params.len() != args.len() {
        (ExecResultV::Trap, env)
    } else {
        spec_run_blocks(
            module,
            f,
            FrameV { env, temps: spec_seed(args), slots: Seq::empty() },
            0,
            fuel,
            fuel,
        )
    }
}

/// The first module function of the given name, searching from `i`.
pub open spec fn spec_find_fn(ms: Seq<IrFunctionV>, name: Seq<char>, i: nat) -> Option<int>
    decreases ms.len() - i,
{
    if i >= ms.len() {
        None
    } else if ms[i as int].name == name {
        Some(i as int)
    } else {
        spec_find_fn(ms, name, i + 1)
    }
}

/// Executing a function by name: the first module function of that name
/// runs; an unknown name is a trap.
pub open spec fn spec_exec_fn(
    module: Seq<IrFunctionV>,
    env: RunEnvV,
    name: Seq<char>,
    args: Seq<RtValV>,
    fuel: u64,
) -> (ExecResultV, RunEnvV)
    decreases fuel, 4int, 0int, 0int,
{
    if fuel == 0 {
        (ExecResultV::OutOfFuel, env)
    } else {
        match spec_find_fn(module, name, 0) {
            None => (ExecResultV::Trap, env),
            Some(i) => spec_exec_ir(module, env, module[i], args, fuel),
        }
    }
}

/// The view of a temporary bank.
pub open spec fn temps_v(temps: Seq<Option<RtVal>>) -> Seq<Option<RtValV>> {
    temps.map_values(
        |o: Option<RtVal>|
            match o {
                Some(v) => Some(v@),
                None => None,
            },
    )
}

/// The view of a slot bank.
pub open spec fn slots_v(slots: Seq<RtVal>) -> Seq<RtValV> {
    slots.map_values(|v: RtVal| v@)
}

/// The view of gathered argument values.
pub open spec fn vals_v(vals: Seq<RtVal>) -> Seq<RtValV> {
    vals.map_values(|v: RtVal| v@)
}

proof fn lemma_prefix_refl(a: Seq<char>)
    ensures
        a.is_prefix_of(a),
{
    assert(a.subrange(0, a.len() as int) =~= a);
}

proof fn lemma_prefix_append(a: Seq<char>, b: Seq<char>, c: Seq<char>)
    requires
        a.is_prefix_of(b),
    ensures
        a.is_prefix_of(b + c),
{
    assert((b + c).subrange(0, a.len() as int) =~= b.subrange(0, a.len() as int));
}

proof fn lemma_prefix_trans(a: Seq<char>, b: Seq<char>, c: Seq<char>)
    requires
        a.is_prefix_of(b),
        b.is_prefix_of(c),
    ensures
        a.is_prefix_of(c),
{
    assert(c.subrange(0, a.len() as int) =~= b.subrange(0, a.len() as int));
}

fn set_temp(temps: &mut Vec<Option<RtVal>>, i: usize, v: RtVal)
    requires
        i < usize::MAX,
    ensures
        temps_v(final(temps)@) == spec_set_temp(temps_v(old(temps)@), i, v@),
{
    let ghost pre = temps_v(temps@);
    if temps.len() <= i {
        proof {
            assert(temps_v(temps@) =~= pre + Seq::new(
                (temps@.len() - pre.len()) as nat,
                |j: int| None::<RtValV>,
            ));
        }
        while temps.len() <= i
            invariant
                pre.len() <= temps@.len(),
                temps@.len() <= i + 1,
                i < usize::MAX,
                temps_v(temps@) == pre + Seq::new(
                    (temps@.len() - pre.len()) as nat,
                    |j: int| None::<RtValV>,
                ),
            decreases i + 1 - temps@.len(),
        {
            let ghost before = temps@;
            temps.push(None);
            proof {
                assert(temps@ =~= before.push(None::<RtVal>));
                assert forall|j: int| 0 <= j < temps@.len() implies #[trigger] temps_v(temps@)[j]
                    == (pre + Seq::new(
                    (temps@.len() - pre.len()) as nat,
                    |k: int| None::<RtValV>,
                ))[j] by {
                    if j < before.len() {
                        assert(temps@[j] == before[j]);
                        assert(temps_v(temps@)[j] == temps_v(before)[j]);
                    } else {
                        assert(temps@[j] is None);
                    }
                }
                assert(temps_v(temps@) =~= pre + Seq::new(
                    (temps@.len() - pre.len()) as nat,
                    |k: int| None::<RtValV>,
                ));
            }
        }
    }
    let ghost vv = v@;
    temps.remove(i);
    temps.insert(i, Some(v));
    proof {
        assert(temps_v(temps@) =~= spec_set_temp(pre, i, vv));
    }
}

fn temp_val(temps: &Vec<Option<RtVal>>, i: usize) -> (r: Option<RtVal>)
    ensures
        match r {
            Some(v) => spec_temp(temps_v(temps@), i) == Some(v@),
            None => spec_temp(temps_v(temps@), i) is None,
        },
{
    if i < temps.len() {
        match &temps[i] {
            Some(v) => Some(v.clone()),
            None => None,
        }
    } else {
        None
    }
}

fn set_slot(slots: &mut Vec<RtVal>, i: usize, v: RtVal)
    requires
        i < old(slots)@.len(),
    ensures
        slots_v(final(slots)@) == slots_v(old(slots)@).update(i as int, v@),
{
    let ghost pre = slots_v(slots@);
    let ghost vv = v@;
    slots.remove(i);
    slots.insert(i, v);
    proof {
        assert(slots_v(slots@) =~= pre.update(i as int, vv));
    }
}

/// Appends to the collected standard output.
fn out_append(env: &mut RunEnv, s: &str)
    requires
        old(env).wf(),
    ensures
        final(env).wf(),
        final(env)@ == (RunEnvV { output: old(env)@.output + s@, ..old(env)@ }),
{
    env.output.append(s);
}

/// Appends to the collected error output.
fn err_append(env: &mut RunEnv, s: &str)
    requires
        old(env).wf(),
    ensures
        final(env).wf(),
        final(env)@ == (RunEnvV { errout: old(env)@.errout + s@, ..old(env)@ }),
{
    env.errout.append(s);
}

/// One runtime-service call, dispatched by native symbol name. Computes
/// exactly the service semantics; an unusable call reports its reason and
/// changes nothing.
fn run_service(env: &mut RunEnv, symbol: &str, vals: &Vec<RtVal>) -> (r: Result<
    Option<RtVal>,
    String,
>)
    requires
        old(env).wf(),
    ensures
        final(env).wf(),
        old(env)@.output.is_prefix_of(final(env)@.output),
        old(env)@.errout.is_prefix_of(final(env)@.errout),
        match r {
            Ok(out) => ({
                let s = spec_service(old(env)@, symbol@, vals_v(vals@));
                &&& s matches Some(p)
                &&& final(env)@ == s->Some_0.0
                &&& match (out, s->Some_0.1) {
                    (Some(v), Some(w)) => v@ == w,
                    (None, None) => true,
                    _ => false,
                }
            }),
            Err(..) => spec_service(old(env)@, symbol@, vals_v(vals@)) is None && final(env)@
                == old(env)@,
        },
{
    proof {
        lemma_prefix_refl(env@.output);
        lemma_prefix_refl(env@.errout);
    }
    if str_eq(symbol, "otter_std_io_print") || str_eq(symbol, "otter_std_fmt_print") {
        if vals.len() != 1 {
            return Err("print expects one argument".to_owned());
        }
        match &vals[0] {
            RtVal::Ptr(PtrVal::Text(s)) => {
                out_append(env, s.as_str());
                proof {
                    lemma_prefix_append(old(env)@.output, old(env)@.output, s@);
                }
                Ok(None)
            },
            RtVal::Ptr(PtrVal::Null) => Ok(None),
            _ => Err("print of a non-string pointer".to_owned()),
        }
    } else if str_eq(symbol, "otter_std_io_println") || str_eq(symbol, "otter_std_fmt_println") {
        if vals.len() != 1 {
            return Err("println expects one argument".to_owned());
        }
        match &vals[0] {
            RtVal::Ptr(PtrVal::Text(s)) => {
                out_append(env, s.as_str());
                out_append(env, "\n");
                proof {
                    lemma_prefix_append(old(env)@.output, old(env)@.output, s@ + "\n"@);
                    assert(env@.output =~= old(env)@.output + (s@ + "\n"@));
                }
                Ok(None)
            },
            RtVal::Ptr(PtrVal::Null) => {
                out_append(env, "\n");
                proof {
                    lemma_prefix_append(old(env)@.output, old(env)@.output, "\n"@);
                }
                Ok(None)
            },
            _ => Err("println of a non-string pointer".to_owned()),
        }
    } else if str_eq(symbol, "otter_std_fmt_eprintln") {
        if vals.len() != 1 {
            return Err("eprintln expects one argument".to_owned());
        }
        match &vals[0] {
            RtVal::Ptr(PtrVal::Text(s)) => {
                err_append(env, s.as_str());
                err_append(env, "\n");
                proof {
                    lemma_prefix_append(old(env)@.errout, old(env)@.errout, s@ + "\n"@);
                    assert(env@.errout =~= old(env)@.errout + (s@ + "\n"@));
                }
                Ok(None)
            },
            RtVal::Ptr(PtrVal::Null) => {
                err_append(env, "\n");
                proof {
                    lemma_prefix_append(old(env)@.errout, old(env)@.errout, "\n"@);
                }
                Ok(None)
            },
            _ => Err("eprintln of a non-string pointer".to_owned()),
        }
    } else if str_eq(symbol, "otter_alloc") {
        if vals.len() != 1 {
            return Err("allocate expects one argument".to_owned());
        }
        match &vals[0] {
            RtVal::I64(size) => {
                let addr = env.memory.allocate(*size as u64);
                Ok(Some(RtVal::Ptr(PtrVal::Heap(addr))))
            },
            _ => Err("allocate of a non-integer size".to_owned()),
        }
    } else if str_eq(symbol, "otter_gc_add_root") {
        if vals.len() != 1 {
            return Err("root addition expects one argument".to_owned());
        }
        match &vals[0] {
            RtVal::Ptr(PtrVal::Heap(a)) => {
                let addr = *a;
                env.memory.add_root(addr);
                Ok(None)
            },
            RtVal::Ptr(PtrVal::Null) => {
                env.memory.add_root(0);
                Ok(None)
            },
            _ => Err("root addition of a non-heap pointer".to_owned()),
        }
    } else if str_eq(symbol, "otter_gc_remove_root") {
        if vals.len() != 1 {
            return Err("root removal expects one argument".to_owned());
        }
        match &vals[0] {
            RtVal::Ptr(PtrVal::Heap(a)) => {
                let addr = *a;
                env.memory.remove_root(addr);
                Ok(None)
            },
            RtVal::Ptr(PtrVal::Null) => {
                env.memory.remove_root(0);
                Ok(None)
            },
            _ => Err("root removal of a non-heap pointer".to_owned()),
        }
    } else if str_eq(symbol, "otter_error_raise") {
        if vals.len() != 2 {
            return Err("raise expects an error value and a code".to_owned());
        }
        match (&vals[0], &vals[1]) {
            (RtVal::I64(..), RtVal::I64(..)) => {
                env.has_error = true;
                Ok(Some(RtVal::Bool(true)))
            },
            _ => Err("raise of non-integer-carried values".to_owned()),
        }
    } else if str_eq(symbol, "otter_error_push_context") {
        env.context_depth = if env.context_depth < u64::MAX {
            env.context_depth + 1
        } else {
            env.context_depth
        };
        Ok(None)
    } else if str_eq(symbol, "otter_error_pop_context") {
        env.context_depth = if env.context_depth > 0 {
            env.context_depth - 1
        } else {
            0
        };
        Ok(None)
    } else if str_eq(symbol, "otter_error_clear") {
        let had = env.has_error;
        env.has_error = false;
        env.error_message = String::new();
        Ok(Some(RtVal::Bool(had)))
    } else if str_eq(symbol, "otter_error_has_error") {
        Ok(Some(RtVal::Bool(env.has_error)))
    } else if str_eq(symbol, "otter_error_get_message") {
        Ok(Some(RtVal::Ptr(PtrVal::Text(env.error_message.clone()))))
    } else if str_eq(symbol, "otter_error_rethrow") {
        Ok(None)
    } else {
        Err("call to an unresolved native symbol".to_owned())
    }
}

fn gather_args(temps: &Vec<Option<RtVal>>, idxs: &Vec<usize>, i: usize) -> (r: Option<Vec<RtVal>>)
    requires
        i <= idxs@.len(),
    ensures
        match r {
            Some(vals) => spec_gather(temps_v(temps@), idxs@.skip(i as int)) == Some(vals_v(vals@)),
            None => spec_gather(temps_v(temps@), idxs@.skip(i as int)) is None,
        },
    decreases idxs@.len() - i,
{
    if i == idxs.len() {
        let r: Vec<RtVal> = Vec::new();
        proof {
            assert(idxs@.skip(i as int) =~= Seq::<usize>::empty());
            assert(vals_v(r@) =~= Seq::<RtValV>::empty());
        }
        return Some(r);
    }
    proof {
        assert(idxs@.skip(i as int)[0] == idxs@[i as int]);
        assert(idxs@.skip(i as int).drop_first() =~= idxs@.skip(i as int + 1));
    }
    let v = match temp_val(temps, idxs[i]) {
        Some(v) => v,
        None => {
            return None;
        },
    };
    match gather_args(temps, idxs, i + 1) {
        Some(mut rest) => {
            let ghost pre = vals_v(rest@);
            let ghost vv = v@;
            rest.insert(0, v);
            proof {
                assert(vals_v(rest@) =~= seq![vv] + pre);
            }
            Some(rest)
        },
        None => None,
    }
}

/// Executes one instruction against the current activation. Computes
/// exactly the instruction semantics: the activation either continues or
/// the whole run stops with an outcome.
fn exec_one(
    module: &IrModule,
    env: &mut RunEnv,
    temps: &mut Vec<Option<RtVal>>,
    slots: &mut Vec<RtVal>,
    instr: &Instr,
    fuel: u64,
) -> (r: Option<ExecResult>)
    requires
        old(env).wf(),
    ensures
        final(env).wf(),
        old(env)@.output.is_prefix_of(final(env)@.output),
        old(env)@.errout.is_prefix_of(final(env)@.errout),
        match r {
            None => spec_instr(
                module@,
                FrameV {
                    env: old(env)@,
                    temps: temps_v(old(temps)@),
                    slots: slots_v(old(slots)@),
                },
                instr@,
                fuel,
            ) == StepOut::Go(
                FrameV {
                    env: final(env)@,
                    temps: temps_v(final(temps)@),
                    slots: slots_v(final(slots)@),
                },
            ),
            Some(res) => spec_instr(
                module@,
                FrameV {
                    env: old(env)@,
                    temps: temps_v(old(temps)@),
                    slots: slots_v(old(slots)@),
                },
                instr@,
                fuel,
            ) == StepOut::Done(res@, final(env)@),
        },
    decreases fuel, 0int, 0int, 0int,
{
    proof {
        lemma_prefix_refl(env@.output);
        lemma_prefix_refl(env@.errout);
    }
    env.steps = if env.steps < u64::MAX {
        env.steps + 1
    } else {
        env.steps
    };
    match instr {
        Instr::ConstBool { dst, val } => {
            if *dst >= usize::MAX {
                return Some(ExecResult::Trap("temporary out of range".to_owned()));
            }
            set_temp(temps, *dst, RtVal::Bool(*val));
            None
        },
        Instr::ConstI32 { dst, val } => {
            if *dst >= usize::MAX {
                return Some(ExecResult::Trap("temporary out of range".to_owned()));
            }
            set_temp(temps, *dst, RtVal::I32(*val));
            None
        },
        Instr::ConstI64 { dst, val } => {
            if *dst >= usize::MAX {
                return Some(ExecResult::Trap("temporary out of range".to_owned()));
            }
            set_temp(temps, *dst, RtVal::I64(*val));
            None
        },
        Instr::ConstF64 { dst, bits } => {
            if *dst >= usize::MAX {
                return Some(ExecResult::Trap("temporary out of range".to_owned()));
            }
            set_temp(temps, *dst, RtVal::F64(*bits));
            None
        },
        Instr::ConstStr { dst, val } => {
            if *dst >= usize::MAX {
                return Some(ExecResult::Trap("temporary out of range".to_owned()));
            }
            set_temp(temps, *dst, RtVal::Ptr(PtrVal::Text(val.clone())));
            None
        },
        Instr::ConstNull { dst } => {
            if *dst >= usize::MAX {
                return Some(ExecResult::Trap("temporary out of range".to_owned()));
            }
            set_temp(temps, *dst, RtVal::Ptr(PtrVal::Null));
            None
        },
        Instr::Alloca { dst, ty } => {
            if *dst >= usize::MAX {
                return Some(ExecResult::Trap("temporary out of range".to_owned()));
            }
            let zero = match ty {
                NativeType::I1 => RtVal::Bool(false),
                NativeType::I32 => RtVal::I32(0),
                NativeType::I64 => RtVal::I64(0),
                NativeType::F64 => RtVal::F64(0),
                NativeType::Ptr => RtVal::Ptr(PtrVal::Null),
            };
            let slot = slots.len();
            let ghost pre_slots = slots_v(slots@);
            slots.push(zero);
            proof {
                assert(slots_v(slots@) =~= pre_slots.push(spec_zero_of(*ty)));
            }
            set_temp(temps, *dst, RtVal::Ptr(PtrVal::Slot(slot)));
            None
        },
        Instr::Load { dst, ptr, ty: _ } => {
            if *dst >= usize::MAX {
                return Some(ExecResult::Trap("temporary out of range".to_owned()));
            }
            match temp_val(temps, *ptr) {
                Some(RtVal::Ptr(PtrVal::Slot(s))) => {
                    if s < slots.len() {
                        let v = slots[s].clone();
                        proof {
                            assert(v@ == slots_v(slots@)[s as int]);
                        }
                        set_temp(temps, *dst, v);
                        None
                    } else {
                        Some(ExecResult::Trap("load from a missing slot".to_owned()))
                    }
                },
                _ => Some(ExecResult::Trap("load through a non-slot pointer".to_owned())),
            }
        },
        Instr::Store { ptr, src } => {
            let v = match temp_val(temps, *src) {
                Some(v) => v,
                None => {
                    return Some(ExecResult::Trap("store of an unset temporary".to_owned()));
                },
            };
            match temp_val(temps, *ptr) {
                Some(RtVal::Ptr(PtrVal::Slot(s))) => {
                    if s < slots.len() {
                        set_slot(slots, s, v);
                        None
                    } else {
                        Some(ExecResult::Trap("store to a missing slot".to_owned()))
                    }
                },
                _ => Some(ExecResult::Trap("store through a non-slot pointer".to_owned())),
            }
        },
        Instr::SiToFp { dst, src } => {
            if *dst >= usize::MAX {
                return Some(ExecResult::Trap("temporary out of range".to_owned()));
            }
            match temp_val(temps, *src) {
                Some(RtVal::I64(v)) => {
                    set_temp(temps, *dst, RtVal::F64(f64_of_i64(v)));
                    None
                },
                _ => Some(
                    ExecResult::Trap("integer-to-float conversion of a non-integer".to_owned()),
                ),
            }
        },
        Instr::FArith { dst, op, lhs, rhs } => {
            if *dst >= usize::MAX {
                return Some(ExecResult::Trap("temporary out of range".to_owned()));
            }
            let a = match temp_val(temps, *lhs) {
                Some(RtVal::F64(a)) => a,
                _ => {
                    return Some(ExecResult::Trap("float arithmetic on a non-float".to_owned()));
                },
            };
            let b = match temp_val(temps, *rhs) {
                Some(RtVal::F64(b)) => b,
                _ => {
                    return Some(ExecResult::Trap("float arithmetic on a non-float".to_owned()));
                },
            };
            let c = match op {
                FloatOp::Add => f64_add(a, b),
                FloatOp::Sub => f64_sub(a, b),
                FloatOp::Mul => f64_mul(a, b),
                FloatOp::Div => f64_div(a, b),
                FloatOp::Rem => f64_rem(a, b),
            };
            set_temp(temps, *dst, RtVal::F64(c));
            None
        },
        Instr::FCmp { dst, pred, lhs, rhs } => {
            if *dst >= usize::MAX {
                return Some(ExecResult::Trap("temporary out of range".to_owned()));
            }
            let a = match temp_val(temps, *lhs) {
                Some(RtVal::F64(a)) => a,
                _ => {
                    return Some(ExecResult::Trap("float comparison of a non-float".to_owned()));
                },
            };
            let b = match temp_val(temps, *rhs) {
                Some(RtVal::F64(b)) => b,
                _ => {
                    return Some(ExecResult::Trap("float comparison of a non-float".to_owned()));
                },
            };
            let ord = f64_cmp(a, b);
            let res = match pred {
                FloatPred::Oeq => matches!(ord, FloatOrder::Equal),
                FloatPred::One => matches!(ord, FloatOrder::Less) || matches!(
                    ord,
                    FloatOrder::Greater,
                ),
                FloatPred::Olt => matches!(ord, FloatOrder::Less),
                FloatPred::Ogt => matches!(ord, FloatOrder::Greater),
                FloatPred::Ole => matches!(ord, FloatOrder::Less) || matches!(
                    ord,
                    FloatOrder::Equal,
                ),
                FloatPred::Oge => matches!(ord, FloatOrder::Greater) || matches!(
                    ord,
                    FloatOrder::Equal,
                ),
            };
            set_temp(temps, *dst, RtVal::Bool(res));
            None
        },
        Instr::FNeg { dst, src } => {
            if *dst >= usize::MAX {
                return Some(ExecResult::Trap("temporary out of range".to_owned()));
            }
            match temp_val(temps, *src) {
                Some(RtVal::F64(a)) => {
                    set_temp(temps, *dst, RtVal::F64(f64_neg(a)));
                    None
                },
                _ => Some(ExecResult::Trap("float negation of a non-float".to_owned())),
            }
        },
        Instr::NotBool { dst, src } => {
            if *dst >= usize::MAX {
                return Some(ExecResult::Trap("temporary out of range".to_owned()));
            }
            match temp_val(temps, *src) {
                Some(RtVal::Bool(b)) => {
                    set_temp(temps, *dst, RtVal::Bool(!b));
                    None
                },
                _ => Some(ExecResult::Trap("logical not of a non-boolean".to_owned())),
            }
        },
        Instr::IAdd { dst, lhs, rhs } => {
            if *dst >= usize::MAX {
                return Some(ExecResult::Trap("temporary out of range".to_owned()));
            }
            let a = match temp_val(temps, *lhs) {
                Some(RtVal::I64(a)) => a,
                _ => {
                    return Some(ExecResult::Trap("integer addition of a non-integer".to_owned()));
                },
            };
            let b = match temp_val(temps, *rhs) {
                Some(RtVal::I64(b)) => b,
                _ => {
                    return Some(ExecResult::Trap("integer addition of a non-integer".to_owned()));
                },
            };
            set_temp(temps, *dst, RtVal::I64(a.wrapping_add(b)));
            None
        },
        Instr::ICmpSlt { dst, lhs, rhs } => {
            if *dst >= usize::MAX {
                return Some(ExecResult::Trap("temporary out of range".to_owned()));
            }
            let a = match temp_val(temps, *lhs) {
                Some(RtVal::I64(a)) => a,
                _ => {
                    return Some(
                        ExecResult::Trap("integer comparison of a non-integer".to_owned()),
                    );
                },
            };
            let b = match temp_val(temps, *rhs) {
                Some(RtVal::I64(b)) => b,
                _ => {
                    return Some(
                        ExecResult::Trap("integer comparison of a non-integer".to_owned()),
                    );
                },
            };
            set_temp(temps, *dst, RtVal::Bool(a < b));
            None
        },
        Instr::CallFfi { dst, symbol, args: cargs, ret: _ } => {
            proof {
                assert(cargs@.skip(0) =~= cargs@);
            }
            let vals = match gather_args(temps, cargs, 0) {
                Some(vals) => vals,
                None => {
                    return Some(
                        ExecResult::Trap("call argument is an unset temporary".to_owned()),
                    );
                },
            };
            let out = match run_service(env, symbol.as_str(), &vals) {
                Ok(out) => out,
                Err(m) => {
                    return Some(ExecResult::Trap(m));
                },
            };
            match dst {
                Some(d) => {
                    if *d >= usize::MAX {
                        return Some(ExecResult::Trap("temporary out of range".to_owned()));
                    }
                    match out {
                        Some(v) => {
                            set_temp(temps, *d, v);
                            None
                        },
                        None => Some(ExecResult::Trap("service call yielded no value".to_owned())),
                    }
                },
                None => None,
            }
        },
        Instr::CallFn { dst, callee, args: cargs, ret: _ } => {
            proof {
                assert(cargs@.skip(0) =~= cargs@);
            }
            let vals = match gather_args(temps, cargs, 0) {
                Some(vals) => vals,
                None => {
                    return Some(
                        ExecResult::Trap("call argument is an unset temporary".to_owned()),
                    );
                },
            };
            if fuel == 0 {
                return Some(ExecResult::OutOfFuel);
            }
            let sub = exec_function(module, env, callee.as_str(), vals, fuel - 1);
            let out = match sub {
                ExecResult::Value(v) => v,
                ExecResult::OutOfFuel => {
                    return Some(ExecResult::OutOfFuel);
                },
                ExecResult::Trap(m) => {
                    return Some(ExecResult::Trap(m));
                },
            };
            match dst {
                Some(d) => {
                    if *d >= usize::MAX {
                        return Some(ExecResult::Trap("temporary out of range".to_owned()));
                    }
                    match out {
                        Some(v) => {
                            set_temp(temps, *d, v);
                            None
                        },
                        None => Some(ExecResult::Trap("call yielded no value".to_owned())),
                    }
                },
                None => None,
            }
        },
    }
}

/// Executes a block's instructions in order from position `k`.
fn exec_instrs(
    module: &IrModule,
    env: &mut RunEnv,
    temps: &mut Vec<Option<RtVal>>,
    slots: &mut Vec<RtVal>,
    instrs: &Vec<Instr>,
    k: usize,
    fuel: u64,
) -> (r: Option<ExecResult>)
    requires
        old(env).wf(),
        k <= instrs@.len(),
    ensures
        final(env).wf(),
        old(env)@.output.is_prefix_of(final(env)@.output),
        old(env)@.errout.is_prefix_of(final(env)@.errout),
        match r {
            None => spec_instrs(
                module@,
                FrameV {
                    env: old(env)@,
                    temps: temps_v(old(temps)@),
                    slots: slots_v(old(slots)@),
                },
                instrs@.map_values(|x: Instr| x@),
                k as nat,
                fuel,
            ) == StepOut::Go(
                FrameV {
                    env: final(env)@,
                    temps: temps_v(final(temps)@),
                    slots: slots_v(final(slots)@),
                },
            ),
            Some(res) => spec_instrs(
                module@,
                FrameV {
                    env: old(env)@,
                    temps: temps_v(old(temps)@),
                    slots: slots_v(old(slots)@),
                },
                instrs@.map_values(|x: Instr| x@),
                k as nat,
                fuel,
            ) == StepOut::Done(res@, final(env)@),
        },
    decreases fuel, 1int, 0int, instrs@.len() - k,
{
    if k == instrs.len() {
        proof {
            lemma_prefix_refl(env@.output);
            lemma_prefix_refl(env@.errout);
        }
        return None;
    }
    proof {
        assert(instrs@.map_values(|x: Instr| x@)[k as int] == instrs@[k as int]@);
    }
    match exec_one(module, env, temps, slots, &instrs[k], fuel) {
        None => {
            let ghost mid_out = env@.output;
            let ghost mid_err = env@.errout;
            let r = exec_instrs(module, env, temps, slots, instrs, k + 1, fuel);
            proof {
                lemma_prefix_trans(old(env)@.output, mid_out, env@.output);
                lemma_prefix_trans(old(env)@.errout, mid_err, env@.errout);
            }
            r
        },
        Some(res) => Some(res),
    }
}

/// Runs the control-flow graph from one block onward.
fn run_blocks(
    module: &IrModule,
    env: &mut RunEnv,
    f: &IrFunction,
    temps: &mut Vec<Option<RtVal>>,
    slots: &mut Vec<RtVal>,
    block: usize,
    bfuel: u64,
    fuel: u64,
) -> (r: ExecResult)
    requires
        old(env).wf(),
    ensures
        final(env).wf(),
        old(env)@.output.is_prefix_of(final(env)@.output),
        old(env)@.errout.is_prefix_of(final(env)@.errout),
        ({
            let s = spec_run_blocks(
                module@,
                f@,
                FrameV {
                    env: old(env)@,
                    temps: temps_v(old(temps)@),
                    slots: slots_v(old(slots)@),
                },
                block,
                bfuel,
                fuel,
            );
            r@ == s.0 && final(env)@ == s.1
        }),
    decreases fuel, 2int, bfuel, 0int,
{
    proof {
        lemma_prefix_refl(env@.output);
        lemma_prefix_refl(env@.errout);
    }
    if bfuel == 0 {
        return ExecResult::OutOfFuel;
    }
    if block >= f.blocks.len() {
        return ExecResult::Trap("branch to a missing block".to_owned());
    }
    proof {
        assert(f@.blocks[block as int] == f.blocks@[block as int]@);
        assert(f@.blocks[block as int].instrs =~= f.blocks@[block as int].instrs@.map_values(
            |x: Instr| x@,
        ));
    }
    match exec_instrs(module, env, temps, slots, &f.blocks[block].instrs, 0, fuel) {
        Some(res) => res,
        None => {
            let ghost mid_out = env@.output;
            let ghost mid_err = env@.errout;
            match &f.blocks[block].term {
                None => ExecResult::Trap("fell off an unterminated block".to_owned()),
                Some(Term::Br { target }) => {
                    let r = run_blocks(module, env, f, temps, slots, *target, bfuel - 1, fuel);
                    proof {
                        lemma_prefix_trans(old(env)@.output, mid_out, env@.output);
                        lemma_prefix_trans(old(env)@.errout, mid_err, env@.errout);
                    }
                    r
                },
                Some(Term::CondBr { cond, then_to, else_to }) => {
                    match temp_val(temps, *cond) {
                        Some(RtVal::Bool(true)) => {
                            let r = run_blocks(
                                module,
                                env,
                                f,
                                temps,
                                slots,
                                *then_to,
                                bfuel - 1,
                                fuel,
                            );
                            proof {
                                lemma_prefix_trans(old(env)@.output, mid_out, env@.output);
                                lemma_prefix_trans(old(env)@.errout, mid_err, env@.errout);
                            }
                            r
                        },
                        Some(RtVal::Bool(false)) => {
                            let r = run_blocks(
                                module,
                                env,
                                f,
                                temps,
                                slots,
                                *else_to,
                                bfuel - 1,
                                fuel,
                            );
                            proof {
                                lemma_prefix_trans(old(env)@.output, mid_out, env@.output);
                                lemma_prefix_trans(old(env)@.errout, mid_err, env@.errout);
                            }
                            r
                        },
                        _ => ExecResult::Trap("branch on a non-boolean".to_owned()),
                    }
                },
                Some(Term::Ret { val }) => {
                    match val {
                        Some(t) => match temp_val(temps, *t) {
                            Some(v) => ExecResult::Value(Some(v)),
                            None => ExecResult::Trap("return of an unset temporary".to_owned()),
                        },
                        None => ExecResult::Value(None),
                    }
                },
            }
        },
    }
}

/// Executes one lowered function value (for callers that hold a cached
/// artifact); calls into other functions resolve by name in the module.
/// Computes exactly the stated execution semantics.
pub fn exec_ir_function(
    module: &IrModule,
    env: &mut RunEnv,
    f: &IrFunction,
    args: Vec<RtVal>,
    fuel: u64,
) -> (r: ExecResult)
    requires
        old(env).wf(),
    ensures
        final(env).wf(),
        old(env)@.output.is_prefix_of(final(env)@.output),
        old(env)@.errout.is_prefix_of(final(env)@.errout),
        ({
            let s = spec_exec_ir(module@, old(env)@, f@, vals_v(args@), fuel);
            r@ == s.0 && final(env)@ == s.1
        }),
    decreases fuel, 3int, 0int, 0int,
{
    proof {
        lemma_prefix_refl(env@.output);
        lemma_prefix_refl(env@.errout);
    }
    if fuel == 0 {
        return ExecResult::OutOfFuel;
    }
    if f.params.len() != args.len() {
        return ExecResult::Trap("argument count does not match the callee".to_owned());
    }
    let mut temps: Vec<Option<RtVal>> = Vec::new();
    let mut ai: usize = 0;
    while ai < args.len()
        invariant
            ai <= args@.len(),
            temps@.len() == ai,
            forall|j: int|
                0 <= j < ai ==> ((#[trigger] temps@[j]) matches Some(v) && v@ == args@[j]@),
        decreases args@.len() - ai,
    {
        temps.push(Some(args[ai].clone()));
        ai = ai + 1;
    }
    proof {
        assert(temps_v(temps@) =~= spec_seed(vals_v(args@)));
    }
    let mut slots: Vec<RtVal> = Vec::new();
    proof {
        assert(slots_v(slots@) =~= Seq::<RtValV>::empty());
    }
    run_blocks(module, env, f, &mut temps, &mut slots, 0, fuel, fuel)
}

/// The first module function of the given name, from position `i`.
fn find_fn_exec(module: &IrModule, name: &str, i: usize) -> (r: Option<usize>)
    requires
        i <= module.functions@.len(),
    ensures
        match r {
            Some(j) => i <= j < module.functions@.len() && spec_find_fn(module@, name@, i as nat)
                == Some(j as int) && module.functions@[j as int].name@ == name@,
            None => spec_find_fn(module@, name@, i as nat) is None,
        },
    decreases module.functions@.len() - i,
{
    if i == module.functions.len() {
        return None;
    }
    if str_eq(module.functions[i].name.as_str(), name) {
        proof {
            assert(module@[i as int].name == name@);
        }
        Some(i)
    } else {
        proof {
            assert(module@[i as int].name != name@);
        }
        find_fn_exec(module, name, i + 1)
    }
}

/// Executes the named function of a module on the given argument values,
/// with an instruction budget. Computes exactly the stated execution
/// semantics; an unknown name traps.
pub fn exec_function(
    module: &IrModule,
    env: &mut RunEnv,
    name: &str,
    args: Vec<RtVal>,
    fuel: u64,
) -> (r: ExecResult)
    requires
        old(env).wf(),
    ensures
        final(env).wf(),
        old(env)@.output.is_prefix_of(final(env)@.output),
        old(env)@.errout.is_prefix_of(final(env)@.errout),
        ({
            let s = spec_exec_fn(module@, old(env)@, name@, vals_v(args@), fuel);
            r@ == s.0 && final(env)@ == s.1
        }),
    decreases fuel, 4int, 0int, 0int,
{
    proof {
        lemma_prefix_refl(env@.output);
        lemma_prefix_refl(env@.errout);
    }
    if fuel == 0 {
        return ExecResult::OutOfFuel;
    }
    match find_fn_exec(module, name, 0) {
        None => ExecResult::Trap("call to a function missing from the module".to_owned()),
        Some(i) => {
            proof {
                assert(module@[i as int] == module.functions@[i as int]@);
            }
            exec_ir_function(module, env, &module.functions[i], args, fuel)
        },
    }
}

} // verus!
