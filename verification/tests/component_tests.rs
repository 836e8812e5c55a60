//! Component-level behavior: the function cache's idempotence and eviction,
//! the symbol registry's last-write-wins catalog, and the memory manager's
//! allocator and root set.

use otterc::cache::{CacheKey, FunctionCache};
use otterc::ffi::{FfiFunction, FfiSignature, FfiType};
use otterc::ir::IrFunction;
use otterc::memory::MemoryManager;
use otterc::registry::SymbolRegistry;

fn key(name: &str) -> CacheKey {
    CacheKey {
        name: name.to_string(),
        params: vec![],
        ret: None,
    }
}

fn artifact(name: &str) -> IrFunction {
    IrFunction {
        name: name.to_string(),
        params: vec![],
        ret: None,
        blocks: vec![],
        n_temps: 0,
    }
}

#[test]
fn cache_hit_returns_the_same_handle_and_builds_once() {
    let mut cache = FunctionCache::new(4);
    let first = cache
        .get_or_compile(key("f"), || Ok(artifact("f")))
        .expect("first build");
    // The second builder would store a differently named artifact; a hit
    // must not invoke it.
    let second = cache
        .get_or_compile(key("f"), || Ok(artifact("not_f")))
        .expect("second lookup");
    assert_eq!(first, second);
    let handle = cache.handle(&key("f")).expect("cached artifact");
    assert_eq!(handle.func.name, "f");
    let stats = cache.stats();
    assert_eq!(stats.misses, 1);
    assert_eq!(stats.hits, 1);
    assert_eq!(stats.evictions, 0);
}

#[test]
fn cache_evicts_exactly_the_least_recently_used_key() {
    let mut cache = FunctionCache::new(2);
    cache.get_or_compile(key("a"), || Ok(artifact("a"))).expect("a");
    cache.get_or_compile(key("b"), || Ok(artifact("b"))).expect("b");
    cache.get_or_compile(key("c"), || Ok(artifact("c"))).expect("c");
    assert!(cache.handle(&key("a")).is_none());
    assert!(cache.handle(&key("b")).is_some());
    assert!(cache.handle(&key("c")).is_some());
    assert_eq!(cache.stats().evictions, 1);
    // A lookup of the evicted key misses and triggers exactly one rebuild.
    cache.get_or_compile(key("a"), || Ok(artifact("a"))).expect("rebuild");
    let stats = cache.stats();
    assert_eq!(stats.misses, 4);
    assert_eq!(stats.hits, 0);
}

#[test]
fn cache_hit_refreshes_recency() {
    let mut cache = FunctionCache::new(2);
    cache.get_or_compile(key("a"), || Ok(artifact("a"))).expect("a");
    cache.get_or_compile(key("b"), || Ok(artifact("b"))).expect("b");
    // Touch `a`, making `b` the least recently used; inserting `c` must
    // evict `b`.
    cache.get_or_compile(key("a"), || Ok(artifact("not_a"))).expect("touch a");
    cache.get_or_compile(key("c"), || Ok(artifact("c"))).expect("c");
    assert!(cache.handle(&key("a")).is_some());
    assert!(cache.handle(&key("b")).is_none());
    assert!(cache.handle(&key("c")).is_some());
}

#[test]
fn cache_passes_builder_failures_through_without_storing() {
    let mut cache = FunctionCache::new(2);
    let r = cache.get_or_compile(key("f"), || {
        Err(otterc::error::BuildError::MissingMain)
    });
    assert!(matches!(r, Err(otterc::error::BuildError::MissingMain)));
    assert!(cache.handle(&key("f")).is_none());
    assert_eq!(cache.stats().misses, 1);
}

fn entry(name: &str, symbol: &str, result: FfiType) -> FfiFunction {
    FfiFunction {
        name: name.to_string(),
        symbol: symbol.to_string(),
        signature: FfiSignature::new(vec![], result),
    }
}

#[test]
fn registry_register_is_idempotent_and_last_write_wins() {
    let mut registry = SymbolRegistry::new();
    registry.register(entry("io.read", "otter_io_read_v1", FfiType::Str));
    registry.register(entry("io.read", "otter_io_read_v2", FfiType::Str));
    let resolved = registry.resolve("io.read").expect("registered entry");
    assert_eq!(resolved.symbol, "otter_io_read_v2");
    assert_eq!(registry.all().len(), 1);
    assert!(registry.contains("io.read"));
    assert!(!registry.contains("io.write"));
    assert!(registry.resolve("io.write").is_none());
}

#[test]
fn registry_keeps_unrelated_entries() {
    let mut registry = SymbolRegistry::new();
    registry.register(entry("a.one", "otter_a_one", FfiType::Unit));
    registry.register(entry("b.two", "otter_b_two", FfiType::Bool));
    registry.register(entry("a.one", "otter_a_one_new", FfiType::Unit));
    assert_eq!(registry.all().len(), 2);
    assert_eq!(registry.resolve("b.two").expect("kept").symbol, "otter_b_two");
    assert_eq!(registry.resolve("a.one").expect("replaced").symbol, "otter_a_one_new");
}

#[test]
fn allocator_hands_out_distinct_nonzero_regions() {
    let mut memory = MemoryManager::new();
    let a = memory.allocate(16);
    let b = memory.allocate(8);
    let c = memory.allocate(1);
    assert!(a != 0 && b != 0 && c != 0);
    assert_eq!(b, a + 16);
    assert_eq!(c, b + 8);
}

#[test]
fn root_set_add_remove_and_nonroot_removal_is_a_noop() {
    let mut memory = MemoryManager::new();
    let a = memory.allocate(8);
    let b = memory.allocate(8);
    memory.add_root(a);
    memory.add_root(a);
    memory.add_root(b);
    assert!(memory.is_root(a));
    assert!(memory.is_root(b));
    memory.remove_root(a);
    assert!(!memory.is_root(a));
    assert!(memory.is_root(b));
    // Removing an address that is not a root changes nothing.
    memory.remove_root(0xdead);
    assert!(memory.is_root(b));
}
