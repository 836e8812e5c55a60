//! The execution engine: builds the whole module once, then runs functions
//! by name, consulting the function cache before regenerating code, and
//! keeps per-function profiling counters alongside the cache's statistics.
//! Each run's effect on the cache model and on the profiling counters is
//! stated exactly; the cache laws therefore carry up to the engine.

use vstd::prelude::*;
use crate::ast::Program;
use crate::cache::{
    CacheKey, CacheKeyV, CacheStats, EntryV, FunctionCache, find_from, lemma_find_none_all,
    lemma_find_some, spec_bump, spec_hit, spec_insert,
};
use crate::error::{BuildErrV, BuildError};
use crate::interp::{
    ExecResult, ExecResultV, RtVal, RunEnv, RunEnvV, exec_ir_function, spec_exec_ir, spec_find_fn,
    vals_v,
};
use crate::ir::{IrFunction, IrFunctionV, IrModule, clone_native_types};
use crate::lower::build_module;
use crate::registry::SymbolRegistry;
use crate::strutil::str_eq;
use crate::typing::{check_program, program_functions};

verus! {

/// The instruction budget of one execution; a run that exhausts it ends
/// with a reported exhaustion instead of hanging. This caps execution
/// where native code would run unboundedly: a total, verified executor
/// needs a bound, and an embedder needing longer runs raises this one
/// constant.
pub const DEFAULT_FUEL: u64 = 1000000;

/// How many compiled functions the engine's cache retains.
pub const CACHE_CAPACITY: usize = 16;

/// Per-function profiling counters: invocation count and executed
/// instruction steps, cumulative.
#[derive(Debug)]
pub struct FunctionMetrics {
    pub name: String,
    pub invocations: u64,
    pub steps: u64,
}

/// Ghost mirror of one profiling entry.
pub struct MetricV {
    pub name: Seq<char>,
    pub invocations: u64,
    pub steps: u64,
}

impl View for FunctionMetrics {
    type V = MetricV;

    open spec fn view(&self) -> MetricV {
        MetricV { name: self.name@, invocations: self.invocations, steps: self.steps }
    }
}

impl Clone for FunctionMetrics {
    fn clone(&self) -> (r: Self)
        ensures
            r@ == self@,
    {
        FunctionMetrics {
            name: self.name.clone(),
            invocations: self.invocations,
            steps: self.steps,
        }
    }
}

/// The counters after recording one invocation of a name that consumed
/// `used` steps, searching from position `i`: the first entry of that name
/// is bumped (saturating), or a fresh entry is appended.
pub open spec fn spec_record_metrics(ms: Seq<MetricV>, name: Seq<char>, used: u64, i: nat) -> Seq<
    MetricV,
>
    decreases ms.len() - i,
{
    if i >= ms.len() {
        ms.push(MetricV { name, invocations: 1, steps: used })
    } else if ms[i as int].name == name {
        ms.update(
            i as int,
            MetricV {
                name: ms[i as int].name,
                invocations: spec_bump(ms[i as int].invocations),
                steps: if ms[i as int].steps + used <= u64::MAX {
                    (ms[i as int].steps + used) as u64
                } else {
                    u64::MAX
                },
            },
        )
    } else {
        spec_record_metrics(ms, name, used, i + 1)
    }
}

/// The cache identity of a module function: its name and signature.
pub open spec fn spec_key_of(f: IrFunctionV) -> CacheKeyV {
    CacheKeyV { name: f.name, params: f.params, ret: f.ret }
}

/// A read-only snapshot of the profiling counters and the cache counters.
#[derive(Debug)]
pub struct ExecutorStats {
    pub profiler_metrics: Vec<FunctionMetrics>,
    pub cache_stats: CacheStats,
}

/// Why an execution did not complete.
#[derive(Debug)]
pub enum ExecError {
    /// The named function is not in the module.
    MissingFunction { name: String },
    /// The call supplied the wrong number of arguments.
    WrongArity { name: String, expected: usize, found: usize },
    /// Execution trapped, with the reason.
    Trapped { reason: String },
    /// The instruction budget ran out.
    OutOfFuel,
    /// Regenerating an evicted function failed.
    Rebuild { error: BuildError },
}

fn bump64(c: u64) -> (r: u64)
    ensures
        r == spec_bump(c),
{
    if c < u64::MAX {
        c + 1
    } else {
        c
    }
}

/// The cache transition one lookup of the key performs, against the
/// engine's model: a hit refreshes recency and bumps the hit counter; a
/// miss stores the module's own function under a fresh handle — evicting
/// the least-recently-used entry exactly when the cache is full — and
/// bumps the miss (and then eviction) counter.
pub open spec fn cache_transitioned(
    pre_cache: Seq<EntryV>,
    pre_stats: CacheStats,
    capacity: nat,
    f: IrFunctionV,
    post_cache: Seq<EntryV>,
    post_stats: CacheStats,
) -> bool {
    let key = spec_key_of(f);
    match find_from(pre_cache, key, 0) {
        Some(j) => {
            &&& post_cache == spec_hit(pre_cache, j)
            &&& post_stats == (CacheStats {
                hits: spec_bump(pre_stats.hits),
                misses: pre_stats.misses,
                evictions: pre_stats.evictions,
            })
        },
        None => {
            &&& exists|id: u64|
                post_cache == spec_insert(pre_cache, EntryV { key, id, func: f }, capacity)
            &&& post_stats == (CacheStats {
                hits: pre_stats.hits,
                misses: spec_bump(pre_stats.misses),
                evictions: if pre_cache.len() == capacity {
                    spec_bump(pre_stats.evictions)
                } else {
                    pre_stats.evictions
                },
            })
        },
    }
}

/// The execution engine. Building it lowers the whole program once, the
/// code generator invoked once per function in file order; afterwards each
/// `execute_function` consults the function cache for the per-function
/// artifact before regenerating it.
pub struct JitExecutor {
    module: IrModule,
    cache: FunctionCache,
    runtime: RunEnv,
    metrics: Vec<FunctionMetrics>,
}

impl JitExecutor {
    pub closed spec fn wf(&self) -> bool {
        &&& self.cache.wf()
        &&& self.runtime.wf()
    }

    /// The lowered module the engine executes.
    pub closed spec fn spec_module(&self) -> Seq<IrFunctionV> {
        self.module@
    }

    /// The function cache's model, in recency order.
    pub closed spec fn spec_cache(&self) -> Seq<EntryV> {
        self.cache@
    }

    /// The cache's capacity bound.
    pub closed spec fn spec_cache_capacity(&self) -> nat {
        self.cache.spec_capacity()
    }

    pub closed spec fn spec_cache_stats(&self) -> CacheStats {
        self.cache.spec_stats()
    }

    /// The profiling counters, one entry per executed function name.
    pub closed spec fn spec_metrics(&self) -> Seq<MetricV> {
        self.metrics@.map_values(|m: FunctionMetrics| m@)
    }

    /// The runtime state the execution semantics tracks.
    pub closed spec fn spec_runtime(&self) -> RunEnvV {
        self.runtime@
    }

    /// Everything executions have written to standard output so far.
    pub closed spec fn spec_output(&self) -> Seq<char> {
        self.runtime.output@
    }

    /// Everything executions have written to the error stream so far.
    pub closed spec fn spec_error_output(&self) -> Seq<char> {
        self.runtime.errout@
    }

    /// Builds the engine for a program: the build succeeds exactly when the
    /// typing rules accept the program, else it reports their error. A
    /// fresh engine has an empty cache, no counters and no output, and its
    /// module holds exactly the program's functions in file order.
    pub fn new(program: &Program, registry: &SymbolRegistry) -> (r: Result<JitExecutor, BuildError>)
        requires
            registry.wf(),
        ensures
            match r {
                Ok(e) => {
                    &&& e.wf()
                    &&& check_program(registry@, *program) == Ok::<(), BuildErrV>(())
                    &&& e.spec_output() == Seq::<char>::empty()
                    &&& e.spec_error_output() == Seq::<char>::empty()
                    &&& e.spec_cache() == Seq::<EntryV>::empty()
                    &&& e.spec_cache_capacity() == CACHE_CAPACITY
                    &&& e.spec_cache_stats() == (CacheStats { hits: 0, misses: 0, evictions: 0 })
                    &&& e.spec_metrics() == Seq::<MetricV>::empty()
                    &&& e.spec_module().len() == program_functions(program.statements@, 0).len()
                    &&& forall|j: int|
                        0 <= j < e.spec_module().len() ==> (#[trigger] e.spec_module()[j]).name
                            == program_functions(program.statements@, 0)[j].name@
                },
                Err(er) => check_program(registry@, *program) == Err::<(), BuildErrV>(er@),
            },
    {
        Self::new_with_backend(program, registry)
    }

    /// Builds the engine with the default backend.
    pub fn new_with_backend(program: &Program, registry: &SymbolRegistry) -> (r: Result<
        JitExecutor,
        BuildError,
    >)
        requires
            registry.wf(),
        ensures
            match r {
                Ok(e) => {
                    &&& e.wf()
                    &&& check_program(registry@, *program) == Ok::<(), BuildErrV>(())
                    &&& e.spec_output() == Seq::<char>::empty()
                    &&& e.spec_error_output() == Seq::<char>::empty()
                    &&& e.spec_cache() == Seq::<EntryV>::empty()
                    &&& e.spec_cache_capacity() == CACHE_CAPACITY
                    &&& e.spec_cache_stats() == (CacheStats { hits: 0, misses: 0, evictions: 0 })
                    &&& e.spec_metrics() == Seq::<MetricV>::empty()
                    &&& e.spec_module().len() == program_functions(program.statements@, 0).len()
                    &&& forall|j: int|
                        0 <= j < e.spec_module().len() ==> (#[trigger] e.spec_module()[j]).name
                            == program_functions(program.statements@, 0)[j].name@
                },
                Err(er) => check_program(registry@, *program) == Err::<(), BuildErrV>(er@),
            },
    {
        let module = match build_module(program, registry) {
            Ok(m) => m,
            Err(er) => {
                return Err(er);
            },
        };
        let engine = JitExecutor {
            module,
            cache: FunctionCache::new(CACHE_CAPACITY),
            runtime: RunEnv::new(),
            metrics: Vec::new(),
        };
        proof {
            assert(engine.spec_metrics() =~= Seq::<MetricV>::empty());
        }
        Ok(engine)
    }

    fn find_fn_from(module: &IrModule, name: &str, i: usize) -> (r: Option<usize>)
        requires
            i <= module.functions@.len(),
        ensures
            match r {
                Some(j) => i <= j < module.functions@.len() && spec_find_fn(
                    module@,
                    name@,
                    i as nat,
                ) == Some(j as int) && module.functions@[j as int].name@ == name@,
                None => spec_find_fn(module@, name@, i as nat) is None,
            },
        decreases module.functions@.len() - i,
    {
        if i == module.functions.len() {
            return None;
        }
        if str_eq(module.functions[i].name.as_str(), name) {
            proof {
                assert(module@[i as int].name == name@);
            }
            Some(i)
        } else {
            proof {
                assert(module@[i as int].name != name@);
            }
            Self::find_fn_from(module, name, i + 1)
        }
    }

    fn find_function(&self, name: &str) -> (r: Option<usize>)
        ensures
            match r {
                Some(i) => i < self.module.functions@.len() && spec_find_fn(
                    self.spec_module(),
                    name@,
                    0,
                ) == Some(i as int) && self.module.functions@[i as int].name@ == name@,
                None => spec_find_fn(self.spec_module(), name@, 0) is None,
            },
    {
        Self::find_fn_from(&self.module, name, 0)
    }

    fn record_metrics(&mut self, name: &str, steps: u64)
        requires
            old(self).wf(),
        ensures
            final(self).wf(),
            final(self).spec_runtime() == old(self).spec_runtime(),
            final(self).spec_output() == old(self).spec_output(),
            final(self).spec_error_output() == old(self).spec_error_output(),
            final(self).spec_cache() == old(self).spec_cache(),
            final(self).spec_cache_stats() == old(self).spec_cache_stats(),
            final(self).spec_cache_capacity() == old(self).spec_cache_capacity(),
            final(self).spec_module() == old(self).spec_module(),
            final(self).spec_metrics() == spec_record_metrics(
                old(self).spec_metrics(),
                name@,
                steps,
                0,
            ),
    {
        let ghost pre = self.spec_metrics();
        let mut i: usize = 0;
        while i < self.metrics.len()
            invariant
                i <= self.metrics@.len(),
                self.wf(),
                self == old(self),
                pre == self.spec_metrics(),
                spec_record_metrics(pre, name@, steps, 0) == spec_record_metrics(
                    pre,
                    name@,
                    steps,
                    i as nat,
                ),
            decreases self.metrics@.len() - i,
        {
            if str_eq(self.metrics[i].name.as_str(), name) {
                let mut m = self.metrics.remove(i);
                m.invocations = bump64(m.invocations);
                m.steps = if m.steps <= u64::MAX - steps {
                    m.steps + steps
                } else {
                    u64::MAX
                };
                self.metrics.insert(i, m);
                proof {
                    assert(self.spec_metrics() =~= spec_record_metrics(pre, name@, steps, i as nat));
                }
                return ;
            }
            proof {
                assert(pre[i as int].name != name@);
            }
            i = i + 1;
        }
        self.metrics.push(FunctionMetrics { name: name.to_owned(), invocations: 1, steps });
        proof {
            assert(self.spec_metrics() =~= spec_record_metrics(pre, name@, steps, pre.len() as nat));
        }
    }

    /// Runs the named function on the given argument values. An unknown
    /// name or a wrong argument count is reported with nothing changed;
    /// otherwise the artifact comes from the function cache — regenerated
    /// from the module on a miss — the cache transitions exactly per its
    /// model, the function's profiling counters are updated, and output is
    /// only ever appended.
    pub fn execute_function(&mut self, name: &str, args: Vec<RtVal>) -> (r: Result<
        Option<RtVal>,
        ExecError,
    >)
        requires
            old(self).wf(),
        ensures
            final(self).wf(),
            old(self).spec_output().is_prefix_of(final(self).spec_output()),
            old(self).spec_error_output().is_prefix_of(final(self).spec_error_output()),
            final(self).spec_module() == old(self).spec_module(),
            final(self).spec_cache_capacity() == old(self).spec_cache_capacity(),
            match spec_find_fn(old(self).spec_module(), name@, 0) {
                None => {
                    &&& r matches Err(ExecError::MissingFunction { name: n }) && n@ == name@
                    &&& *final(self) == *old(self)
                },
                Some(i) => ({
                    let f = old(self).spec_module()[i];
                    if f.params.len() != args@.len() {
                        &&& r matches Err(ExecError::WrongArity { name: n, expected, found })
                            && n@ == name@ && expected as int == f.params.len() && found as int
                            == args@.len()
                        &&& *final(self) == *old(self)
                    } else {
                        &&& cache_transitioned(
                            old(self).spec_cache(),
                            old(self).spec_cache_stats(),
                            old(self).spec_cache_capacity(),
                            f,
                            final(self).spec_cache(),
                            final(self).spec_cache_stats(),
                        )
                        &&& exists|used: u64|
                            final(self).spec_metrics() == spec_record_metrics(
                                old(self).spec_metrics(),
                                name@,
                                used,
                                0,
                            )
                        &&& find_from(final(self).spec_cache(), spec_key_of(f), 0) is Some
                        &&& ({
                            let j = find_from(final(self).spec_cache(), spec_key_of(f), 0)->Some_0;
                            let s = spec_exec_ir(
                                old(self).spec_module(),
                                old(self).spec_runtime(),
                                final(self).spec_cache()[j].func,
                                vals_v(args@),
                                DEFAULT_FUEL,
                            );
                            &&& final(self).spec_runtime() == s.1
                            &&& match (r, s.0) {
                                (Ok(v), ExecResultV::Value(w)) => match (v, w) {
                                    (Some(a), Some(b)) => a@ == b,
                                    (None, None) => true,
                                    _ => false,
                                },
                                (Err(ExecError::OutOfFuel), ExecResultV::OutOfFuel) => true,
                                (Err(ExecError::Trapped { .. }), ExecResultV::Trap) => true,
                                _ => false,
                            }
                        })
                    }
                }),
            },
    {
        let idx = match self.find_function(name) {
            Some(i) => i,
            None => {
                return Err(ExecError::MissingFunction { name: name.to_owned() });
            },
        };
        if self.module.functions[idx].params.len() != args.len() {
            return Err(
                ExecError::WrongArity {
                    name: name.to_owned(),
                    expected: self.module.functions[idx].params.len(),
                    found: args.len(),
                },
            );
        }
        let ghost fview = self.module.functions@[idx as int]@;
        let ghost keyv = spec_key_of(fview);
        let key = CacheKey {
            name: self.module.functions[idx].name.clone(),
            params: clone_native_types(&self.module.functions[idx].params),
            ret: self.module.functions[idx].ret,
        };
        proof {
            assert(key@ == keyv);
            assert(old(self).spec_module()[idx as int] == fview);
        }
        let lookup_key = key.clone();
        let regenerated = self.module.functions[idx].clone();
        let builder = (|| -> (b: Result<crate::ir::IrFunction, BuildError>)
            ensures
                b matches Ok(g) && g@ == fview,
            {
                Ok(regenerated)
            });
        match self.cache.get_or_compile(key, builder) {
            Ok(..) => {},
            Err(er) => {
                return Err(ExecError::Rebuild { error: er });
            },
        }
        proof {
            if find_from(self.cache@, keyv, 0) is None {
                lemma_find_none_all(self.cache@, keyv, 0);
                match find_from(old(self).cache@, keyv, 0) {
                    Some(j) => {
                        lemma_find_some(old(self).cache@, keyv, 0);
                        assert(self.cache@.last() == old(self).cache@[j]);
                        assert(false);
                    },
                    None => {
                        assert(self.cache@.last().key == keyv);
                        assert(false);
                    },
                }
            }
        }
        let func = match self.cache.handle(&lookup_key) {
            Some(h) => h.func.clone(),
            None => {
                return Err(
                    ExecError::Trapped { reason: "cached artifact vanished".to_owned() },
                );
            },
        };
        let steps_before = self.runtime.steps;
        let outcome = exec_ir_function(&self.module, &mut self.runtime, &func, args, DEFAULT_FUEL);
        let steps_after = self.runtime.steps;
        let used = if steps_after >= steps_before {
            steps_after - steps_before
        } else {
            0
        };
        self.record_metrics(name, used);
        proof {
            assert(self.spec_metrics() == spec_record_metrics(
                old(self).spec_metrics(),
                name@,
                used,
                0,
            ));
        }
        match outcome {
            ExecResult::Value(v) => Ok(v),
            ExecResult::OutOfFuel => Err(ExecError::OutOfFuel),
            ExecResult::Trap(reason) => Err(ExecError::Trapped { reason }),
        }
    }

    /// Runs the entry function: a zero-argument function named `main` must
    /// exist, and its absence is a hard error, never an implicit entry. A
    /// run pulls `main`'s artifact through the cache exactly as
    /// `execute_function` does, so repeated runs hit the cached artifact.
    pub fn execute_main(&mut self) -> (r: Result<(), ExecError>)
        requires
            old(self).wf(),
        ensures
            final(self).wf(),
            old(self).spec_output().is_prefix_of(final(self).spec_output()),
            old(self).spec_error_output().is_prefix_of(final(self).spec_error_output()),
            final(self).spec_module() == old(self).spec_module(),
            final(self).spec_cache_capacity() == old(self).spec_cache_capacity(),
            match spec_find_fn(old(self).spec_module(), "main"@, 0) {
                None => {
                    &&& r matches Err(ExecError::MissingFunction { name: n }) && n@ == "main"@
                    &&& *final(self) == *old(self)
                },
                Some(i) => ({
                    let f = old(self).spec_module()[i];
                    if f.params.len() != 0 {
                        &&& r matches Err(ExecError::WrongArity { name: n, expected, found })
                            && n@ == "main"@ && expected == 0 && found as int == f.params.len()
                        &&& *final(self) == *old(self)
                    } else {
                        &&& cache_transitioned(
                            old(self).spec_cache(),
                            old(self).spec_cache_stats(),
                            old(self).spec_cache_capacity(),
                            f,
                            final(self).spec_cache(),
                            final(self).spec_cache_stats(),
                        )
                        &&& exists|used: u64|
                            final(self).spec_metrics() == spec_record_metrics(
                                old(self).spec_metrics(),
                                "main"@,
                                used,
                                0,
                            )
                        &&& find_from(final(self).spec_cache(), spec_key_of(f), 0) is Some
                        &&& ({
                            let j = find_from(final(self).spec_cache(), spec_key_of(f), 0)->Some_0;
                            let s = spec_exec_ir(
                                old(self).spec_module(),
                                old(self).spec_runtime(),
                                final(self).spec_cache()[j].func,
                                Seq::<crate::interp::RtValV>::empty(),
                                DEFAULT_FUEL,
                            );
                            &&& final(self).spec_runtime() == s.1
                            &&& match (r, s.0) {
                                (Ok(()), ExecResultV::Value(..)) => true,
                                (Err(ExecError::OutOfFuel), ExecResultV::OutOfFuel) => true,
                                (Err(ExecError::Trapped { .. }), ExecResultV::Trap) => true,
                                _ => false,
                            }
                        })
                    }
                }),
            },
    {
        let idx = match self.find_function("main") {
            Some(i) => i,
            None => {
                return Err(ExecError::MissingFunction { name: "main".to_owned() });
            },
        };
        if self.module.functions[idx].params.len() != 0 {
            return Err(
                ExecError::WrongArity {
                    name: "main".to_owned(),
                    expected: 0,
                    found: self.module.functions[idx].params.len(),
                },
            );
        }
        let no_args: Vec<RtVal> = Vec::new();
        proof {
            assert(vals_v(no_args@) =~= Seq::<crate::interp::RtValV>::empty());
        }
        match self.execute_function("main", no_args) {
            Ok(..) => Ok(()),
            Err(er) => Err(er),
        }
    }

    /// Everything executions have written to standard output so far; the
    /// embedder forwards it to the real stream.
    pub fn captured_output(&self) -> (r: &String)
        ensures
            r@ == self.spec_output(),
    {
        &self.runtime.output
    }

    /// Everything executions have written to the error stream so far.
    pub fn captured_error_output(&self) -> (r: &String)
        ensures
            r@ == self.spec_error_output(),
    {
        &self.runtime.errout
    }

    /// A read-only snapshot of the profiling counters and cache statistics.
    pub fn get_stats(&self) -> (r: ExecutorStats)
        ensures
            r.cache_stats == self.spec_cache_stats(),
            r.profiler_metrics@.map_values(|m: FunctionMetrics| m@) == self.spec_metrics(),
    {
        let mut metrics: Vec<FunctionMetrics> = Vec::new();
        let mut i: usize = 0;
        while i < self.metrics.len()
            invariant
                i <= self.metrics@.len(),
                metrics@.len() == i,
                forall|j: int| 0 <= j < i ==> #[trigger] metrics@[j]@ == self.metrics@[j]@,
            decreases self.metrics@.len() - i,
        {
            metrics.push(self.metrics[i].clone());
            i = i + 1;
        }
        proof {
            assert(metrics@.map_values(|m: FunctionMetrics| m@) =~= self.metrics@.map_values(
                |m: FunctionMetrics| m@,
            ));
        }
        ExecutorStats { profiler_metrics: metrics, cache_stats: self.cache.stats() }
    }
}

} // verus!
