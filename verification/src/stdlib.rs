//! The runtime-service catalog: the registration calls that fill a symbol
//! registry with the printing, error-context and input/output services
//! generated code calls by qualified name. Registration runs once per
//! entry at startup.

use vstd::prelude::*;
use crate::ffi::{FfiFunction, FfiSignature, FfiType};
use crate::registry::SymbolRegistry;

verus! {

/// A service taking one string and returning nothing.
pub open spec fn is_str_to_unit(f: FfiFunction, symbol: Seq<char>) -> bool {
    &&& f.symbol@ == symbol
    &&& f.signature.params@.len() == 1
    &&& f.signature.params@[0] matches FfiType::Str
    &&& f.signature.result matches FfiType::Unit
}

/// The error-raising service: an opaque error value and a code, yielding a
/// boolean.
pub open spec fn is_raise_shape(f: FfiFunction, symbol: Seq<char>) -> bool {
    &&& f.symbol@ == symbol
    &&& f.signature.params@.len() == 2
    &&& f.signature.params@[0] matches FfiType::Opaque
    &&& f.signature.params@[1] matches FfiType::I64
    &&& f.signature.result matches FfiType::Bool
}

/// A service taking nothing and returning the given result type.
pub open spec fn is_nullary(f: FfiFunction, symbol: Seq<char>, result: FfiType) -> bool {
    &&& f.symbol@ == symbol
    &&& f.signature.params@.len() == 0
    &&& f.signature.result == result
}

fn str_to_unit_entry(name: &str, symbol: &str) -> (r: FfiFunction)
    ensures
        r.name@ == name@,
        is_str_to_unit(r, symbol@),
{
    let mut params: Vec<FfiType> = Vec::new();
    params.push(FfiType::Str);
    FfiFunction {
        name: name.to_owned(),
        symbol: symbol.to_owned(),
        signature: FfiSignature::new(params, FfiType::Unit),
    }
}

fn nullary_entry(name: &str, symbol: &str, result: FfiType) -> (r: FfiFunction)
    ensures
        r.name@ == name@,
        is_nullary(r, symbol@, result),
{
    FfiFunction {
        name: name.to_owned(),
        symbol: symbol.to_owned(),
        signature: FfiSignature::new(Vec::new(), result),
    }
}

/// Registers the standard output services the code generator's `print` and
/// `println` built-ins lower to.
pub fn register_std_io_symbols(registry: &mut SymbolRegistry)
    requires
        old(registry).wf(),
    ensures
        final(registry).wf(),
        final(registry)@.contains_key("std.io.print"@),
        is_str_to_unit(final(registry)@["std.io.print"@], "otter_std_io_print"@),
        final(registry)@.contains_key("std.io.println"@),
        is_str_to_unit(final(registry)@["std.io.println"@], "otter_std_io_println"@),
        forall|k: Seq<char>|
            k != "std.io.print"@ && k != "std.io.println"@ && old(registry)@.contains_key(k)
                ==> final(registry)@.contains_key(k) && final(registry)@[k] == old(registry)@[k],
        final(registry)@.dom() == old(registry)@.dom().insert("std.io.print"@).insert(
            "std.io.println"@,
        ),
{
    proof {
        reveal_strlit("std.io.print");
        reveal_strlit("std.io.println");
        reveal_strlit("otter_std_io_print");
        reveal_strlit("otter_std_io_println");
    }
    registry.register(str_to_unit_entry("std.io.print", "otter_std_io_print"));
    registry.register(str_to_unit_entry("std.io.println", "otter_std_io_println"));
    proof {
        reveal_strlit("std.io.print");
        reveal_strlit("std.io.println");
        assert("std.io.print"@.len() == 12);
        assert("std.io.println"@.len() == 14);
        assert(registry@.dom() =~= old(registry)@.dom().insert("std.io.print"@).insert(
            "std.io.println"@,
        ));
    }
}

/// Registers the formatted-printing services.
pub fn register_std_fmt_symbols(registry: &mut SymbolRegistry)
    requires
        old(registry).wf(),
    ensures
        final(registry).wf(),
        final(registry)@.contains_key("fmt.print"@),
        is_str_to_unit(final(registry)@["fmt.print"@], "otter_std_fmt_print"@),
        final(registry)@.contains_key("fmt.println"@),
        is_str_to_unit(final(registry)@["fmt.println"@], "otter_std_fmt_println"@),
        final(registry)@.contains_key("fmt.eprintln"@),
        is_str_to_unit(final(registry)@["fmt.eprintln"@], "otter_std_fmt_eprintln"@),
        forall|k: Seq<char>|
            k != "fmt.print"@ && k != "fmt.println"@ && k != "fmt.eprintln"@ && old(
                registry,
            )@.contains_key(k) ==> final(registry)@.contains_key(k) && final(registry)@[k] == old(
                registry,
            )@[k],
        final(registry)@.dom() == old(registry)@.dom().insert("fmt.println"@).insert(
            "fmt.print"@,
        ).insert("fmt.eprintln"@),
{
    proof {
        reveal_strlit("fmt.println");
        reveal_strlit("fmt.print");
        reveal_strlit("fmt.eprintln");
        reveal_strlit("otter_std_fmt_println");
        reveal_strlit("otter_std_fmt_print");
        reveal_strlit("otter_std_fmt_eprintln");
    }
    registry.register(str_to_unit_entry("fmt.println", "otter_std_fmt_println"));
    registry.register(str_to_unit_entry("fmt.print", "otter_std_fmt_print"));
    registry.register(str_to_unit_entry("fmt.eprintln", "otter_std_fmt_eprintln"));
    proof {
        reveal_strlit("fmt.println");
        reveal_strlit("fmt.print");
        reveal_strlit("fmt.eprintln");
        assert("fmt.println"@.len() == 11);
        assert("fmt.print"@.len() == 9);
        assert("fmt.eprintln"@.len() == 12);
        assert(registry@.dom() =~= old(registry)@.dom().insert("fmt.println"@).insert(
            "fmt.print"@,
        ).insert("fmt.eprintln"@));
    }
}

/// Registers the error-context services: context push and pop, raising,
/// clearing, querying and rethrowing the last error.
pub fn register_std_error_symbols(registry: &mut SymbolRegistry)
    requires
        old(registry).wf(),
    ensures
        final(registry).wf(),
        final(registry)@.contains_key("runtime.push_context"@),
        is_nullary(final(registry)@["runtime.push_context"@], "otter_error_push_context"@, FfiType::Unit),
        final(registry)@.contains_key("runtime.pop_context"@),
        is_nullary(final(registry)@["runtime.pop_context"@], "otter_error_pop_context"@, FfiType::Unit),
        final(registry)@.contains_key("runtime.raise"@),
        is_raise_shape(final(registry)@["runtime.raise"@], "otter_error_raise"@),
        final(registry)@.contains_key("runtime.clear"@),
        is_nullary(final(registry)@["runtime.clear"@], "otter_error_clear"@, FfiType::Bool),
        final(registry)@.contains_key("runtime.has_error"@),
        is_nullary(final(registry)@["runtime.has_error"@], "otter_error_has_error"@, FfiType::Bool),
        final(registry)@.contains_key("runtime.get_message"@),
        is_nullary(final(registry)@["runtime.get_message"@], "otter_error_get_message"@, FfiType::Str),
        final(registry)@.contains_key("runtime.rethrow"@),
        is_nullary(final(registry)@["runtime.rethrow"@], "otter_error_rethrow"@, FfiType::Unit),
        forall|k: Seq<char>|
            k != "runtime.push_context"@ && k != "runtime.pop_context"@ && k != "runtime.raise"@
                && k != "runtime.clear"@ && k != "runtime.has_error"@ && k
                != "runtime.get_message"@ && k != "runtime.rethrow"@ && old(
                registry,
            )@.contains_key(k) ==> final(registry)@.contains_key(k) && final(registry)@[k] == old(
                registry,
            )@[k],
        final(registry)@.dom() == old(registry)@.dom().insert("runtime.push_context"@).insert(
            "runtime.pop_context"@,
        ).insert("runtime.raise"@).insert("runtime.clear"@).insert("runtime.has_error"@).insert(
            "runtime.get_message"@,
        ).insert("runtime.rethrow"@),
{
    proof {
        reveal_strlit("runtime.push_context");
        reveal_strlit("runtime.pop_context");
        reveal_strlit("runtime.raise");
        reveal_strlit("runtime.clear");
        reveal_strlit("runtime.has_error");
        reveal_strlit("runtime.get_message");
        reveal_strlit("runtime.rethrow");
        reveal_strlit("otter_error_push_context");
        reveal_strlit("otter_error_pop_context");
        reveal_strlit("otter_error_raise");
        reveal_strlit("otter_error_clear");
        reveal_strlit("otter_error_has_error");
        reveal_strlit("otter_error_get_message");
        reveal_strlit("otter_error_rethrow");
    }
    registry.register(nullary_entry("runtime.push_context", "otter_error_push_context", FfiType::Unit));
    registry.register(nullary_entry("runtime.pop_context", "otter_error_pop_context", FfiType::Unit));
    let mut raise_params: Vec<FfiType> = Vec::new();
    raise_params.push(FfiType::Opaque);
    raise_params.push(FfiType::I64);
    registry.register(
        FfiFunction {
            name: "runtime.raise".to_owned(),
            symbol: "otter_error_raise".to_owned(),
            signature: FfiSignature::new(raise_params, FfiType::Bool),
        },
    );
    registry.register(nullary_entry("runtime.clear", "otter_error_clear", FfiType::Bool));
    registry.register(nullary_entry("runtime.has_error", "otter_error_has_error", FfiType::Bool));
    registry.register(nullary_entry("runtime.get_message", "otter_error_get_message", FfiType::Str));
    registry.register(nullary_entry("runtime.rethrow", "otter_error_rethrow", FfiType::Unit));
    proof {
        reveal_strlit("runtime.push_context");
        reveal_strlit("runtime.pop_context");
        reveal_strlit("runtime.raise");
        reveal_strlit("runtime.clear");
        reveal_strlit("runtime.has_error");
        reveal_strlit("runtime.get_message");
        reveal_strlit("runtime.rethrow");
        assert("runtime.push_context"@.len() == 20);
        assert("runtime.pop_context"@.len() == 19);
        assert("runtime.raise"@.len() == 13);
        assert("runtime.clear"@.len() == 13);
        assert("runtime.has_error"@.len() == 17);
        assert("runtime.get_message"@.len() == 19);
        assert("runtime.rethrow"@.len() == 15);
        assert("runtime.raise"@[8] != "runtime.clear"@[8]);
        assert("runtime.pop_context"@[8] != "runtime.get_message"@[8]);
        assert(registry@.dom() =~= old(registry)@.dom().insert("runtime.push_context"@).insert(
            "runtime.pop_context"@,
        ).insert("runtime.raise"@).insert("runtime.clear"@).insert("runtime.has_error"@).insert(
            "runtime.get_message"@,
        ).insert("runtime.rethrow"@));
    }
}

/// A fresh registry filled with every standard runtime service.
pub fn bootstrap_stdlib() -> (r: SymbolRegistry)
    ensures
        r.wf(),
        r@.contains_key("std.io.print"@),
        is_str_to_unit(r@["std.io.print"@], "otter_std_io_print"@),
        r@.contains_key("std.io.println"@),
        is_str_to_unit(r@["std.io.println"@], "otter_std_io_println"@),
        r@.contains_key("fmt.println"@),
        is_str_to_unit(r@["fmt.println"@], "otter_std_fmt_println"@),
{
    proof {
        reveal_strlit("std.io.print");
        reveal_strlit("std.io.println");
        reveal_strlit("fmt.println");
        reveal_strlit("runtime.push_context");
        reveal_strlit("runtime.pop_context");
        reveal_strlit("runtime.raise");
        reveal_strlit("runtime.clear");
        reveal_strlit("runtime.has_error");
        reveal_strlit("runtime.get_message");
        reveal_strlit("runtime.rethrow");
        reveal_strlit("otter_std_io_print");
        reveal_strlit("otter_std_io_println");
        reveal_strlit("otter_std_fmt_println");
    }
    let mut registry = SymbolRegistry::new();
    register_std_fmt_symbols(&mut registry);
    register_std_error_symbols(&mut registry);
    register_std_io_symbols(&mut registry);
    proof {
        reveal_strlit("std.io.print");
        reveal_strlit("std.io.println");
        reveal_strlit("fmt.println");
        reveal_strlit("fmt.print");
        reveal_strlit("fmt.eprintln");
        reveal_strlit("runtime.push_context");
        reveal_strlit("runtime.pop_context");
        reveal_strlit("runtime.raise");
        reveal_strlit("runtime.clear");
        reveal_strlit("runtime.has_error");
        reveal_strlit("runtime.get_message");
        reveal_strlit("runtime.rethrow");
        assert("std.io.print"@.len() == 12);
        assert("std.io.println"@.len() == 14);
        assert("fmt.println"@.len() == 11);
        assert("fmt.print"@.len() == 9);
        assert("fmt.eprintln"@.len() == 12);
        assert("runtime.push_context"@.len() == 20);
        assert("runtime.pop_context"@.len() == 19);
        assert("runtime.raise"@.len() == 13);
        assert("runtime.clear"@.len() == 13);
        assert("runtime.has_error"@.len() == 17);
        assert("runtime.get_message"@.len() == 19);
        assert("runtime.rethrow"@.len() == 15);
        assert("fmt.eprintln"@[0] != "std.io.print"@[0]);
        assert("runtime.raise"@[8] != "runtime.clear"@[8]);
        assert("runtime.pop_context"@[8] != "runtime.get_message"@[8]);
        assert(registry@.dom() =~= Set::<Seq<char>>::empty().insert("fmt.println"@).insert(
            "fmt.print"@,
        ).insert("fmt.eprintln"@).insert("runtime.push_context"@).insert(
            "runtime.pop_context"@,
        ).insert("runtime.raise"@).insert("runtime.clear"@).insert("runtime.has_error"@).insert(
            "runtime.get_message"@,
        ).insert("runtime.rethrow"@).insert("std.io.print"@).insert("std.io.println"@));
    }
    registry
}

} // verus!
