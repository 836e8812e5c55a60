//! The symbol registry: a process-wide catalog mapping a dotted qualified
//! name to a callable's native symbol and signature. Registration inserts
//! or replaces by name, idempotent and last-write-wins; resolution is a
//! pure lookup; no entry is ever removed at runtime.

use vstd::prelude::*;
use crate::ffi::FfiFunction;
use crate::strutil::str_eq;

verus! {

/// The registered entries, keyed last-write-wins by qualified name.
pub open spec fn entries_map(s: Seq<FfiFunction>) -> Map<Seq<char>, FfiFunction>
    decreases s.len(),
{
    if s.len() == 0 {
        Map::empty()
    } else {
        entries_map(s.drop_last()).insert(s.last().name@, s.last())
    }
}

/// Each name occurs at most once among the stored entries.
pub open spec fn unique_names(s: Seq<FfiFunction>) -> bool {
    forall|i: int, j: int|
        0 <= i < j < s.len() ==> s[i].name@ != s[j].name@
}

proof fn lemma_entries_map_index(s: Seq<FfiFunction>, i: int)
    requires
        unique_names(s),
        0 <= i < s.len(),
    ensures
        entries_map(s).contains_key(s[i].name@),
        entries_map(s)[s[i].name@] == s[i],
    decreases s.len(),
{
    if i == s.len() - 1 {
    } else {
        lemma_entries_map_index(s.drop_last(), i);
        assert(s.drop_last()[i] == s[i]);
    }
}

proof fn lemma_entries_map_absent(s: Seq<FfiFunction>, n: Seq<char>)
    requires
        forall|i: int| 0 <= i < s.len() ==> s[i].name@ != n,
    ensures
        !entries_map(s).contains_key(n),
    decreases s.len(),
{
    if s.len() > 0 {
        lemma_entries_map_absent(s.drop_last(), n);
    }
}

proof fn lemma_entries_map_remove(s: Seq<FfiFunction>, i: int)
    requires
        unique_names(s),
        0 <= i < s.len(),
    ensures
        entries_map(s.remove(i)) == entries_map(s).remove(s[i].name@),
    decreases s.len(),
{
    if i == s.len() - 1 {
        assert(s.remove(i) =~= s.drop_last());
        assert(forall|j: int| 0 <= j < s.drop_last().len() ==> s.drop_last()[j].name@ != s[i].name@);
        lemma_entries_map_absent(s.drop_last(), s[i].name@);
        assert(entries_map(s.drop_last()).remove(s[i].name@) =~= entries_map(s.drop_last()));
        assert(entries_map(s).remove(s[i].name@) =~= entries_map(s.drop_last()).insert(
            s.last().name@,
            s.last(),
        ).remove(s[i].name@));
        assert(entries_map(s.drop_last()).insert(s.last().name@, s.last()).remove(s[i].name@)
            =~= entries_map(s.drop_last()));
    } else {
        lemma_entries_map_remove(s.drop_last(), i);
        assert(s.remove(i).drop_last() =~= s.drop_last().remove(i));
        assert(s.remove(i).last() == s.last());
        assert(entries_map(s.remove(i)) == entries_map(s.drop_last().remove(i)).insert(
            s.last().name@,
            s.last(),
        ));
        assert(s[i].name@ != s.last().name@);
        assert(entries_map(s.drop_last()).remove(s[i].name@).insert(s.last().name@, s.last())
            =~= entries_map(s.drop_last()).insert(s.last().name@, s.last()).remove(s[i].name@));
    }
}

/// The catalog after registering each entry in order: the effect of one
/// `register` call per entry, later entries winning on equal names.
pub open spec fn register_fold(m: Map<Seq<char>, FfiFunction>, fs: Seq<FfiFunction>) -> Map<
    Seq<char>,
    FfiFunction,
>
    decreases fs.len(),
{
    if fs.len() == 0 {
        m
    } else {
        register_fold(m.insert(fs[0].name@, fs[0]), fs.drop_first())
    }
}

/// The symbol registry. Concurrency control around a shared instance is the
/// embedder's: this value is the catalog itself, and every operation's
/// effect on the catalog is stated exactly.
pub struct SymbolRegistry {
    functions: Vec<FfiFunction>,
}

impl View for SymbolRegistry {
    type V = Map<Seq<char>, FfiFunction>;

    closed spec fn view(&self) -> Map<Seq<char>, FfiFunction> {
        entries_map(self.functions@)
    }
}

impl SymbolRegistry {
    /// Well-formed: no qualified name is stored twice.
    pub closed spec fn wf(&self) -> bool {
        unique_names(self.functions@)
    }

    /// An empty registry.
    pub fn new() -> (r: Self)
        ensures
            r.wf(),
            r@ == Map::<Seq<char>, FfiFunction>::empty(),
    {
        SymbolRegistry { functions: Vec::new() }
    }

    fn position_of(&self, name: &str) -> (r: Option<usize>)
        ensures
            match r {
                Some(i) => i < self.functions@.len() && self.functions@[i as int].name@ == name@,
                None => forall|i: int|
                    0 <= i < self.functions@.len() ==> self.functions@[i].name@ != name@,
            },
    {
        let mut i: usize = 0;
        while i < self.functions.len()
            invariant
                i <= self.functions.len(),
                forall|j: int| 0 <= j < i ==> self.functions@[j].name@ != name@,
            decreases self.functions.len() - i,
        {
            if str_eq(self.functions[i].name.as_str(), name) {
                return Some(i);
            }
            i = i + 1;
        }
        None
    }

    /// Inserts or replaces by qualified name: idempotent, last-write-wins.
    pub fn register(&mut self, function: FfiFunction)
        requires
            old(self).wf(),
        ensures
            final(self).wf(),
            final(self)@ == old(self)@.insert(function.name@, function),
    {
        let ghost pre = self.functions@;
        let ghost name = function.name@;
        match self.position_of(function.name.as_str()) {
            Some(i) => {
                self.functions.remove(i);
                proof {
                    lemma_entries_map_remove(pre, i as int);
                }
            },
            None => {
                proof {
                    lemma_entries_map_absent(pre, name);
                    assert(entries_map(pre).remove(name) =~= entries_map(pre));
                }
            },
        }
        let ghost mid = self.functions@;
        self.functions.push(function);
        proof {
            assert(self.functions@.drop_last() =~= mid);
            assert(entries_map(pre).remove(name).insert(name, self.functions@.last())
                =~= entries_map(pre).insert(name, self.functions@.last()));
        }
    }

    /// Registers each entry in order; later entries win on equal names.
    pub fn register_many(&mut self, functions: Vec<FfiFunction>)
        requires
            old(self).wf(),
        ensures
            final(self).wf(),
            final(self)@ == register_fold(old(self)@, functions@),
    {
        let mut fs = functions;
        let ghost whole = fs@;
        loop
            invariant
                self.wf(),
                register_fold(old(self)@, whole) == register_fold(self@, fs@),
            ensures
                self.wf(),
                fs@.len() == 0,
                register_fold(old(self)@, whole) == register_fold(self@, fs@),
            decreases fs@.len(),
        {
            if fs.len() == 0 {
                break;
            }
            let ghost pre = fs@;
            let f = fs.remove(0);
            proof {
                assert(pre.drop_first() =~= fs@);
            }
            self.register(f);
        }
    }

    /// Whether a qualified name is registered.
    pub fn contains(&self, name: &str) -> (r: bool)
        requires
            self.wf(),
        ensures
            r == self@.contains_key(name@),
    {
        match self.position_of(name) {
            Some(i) => {
                proof {
                    lemma_entries_map_index(self.functions@, i as int);
                }
                true
            },
            None => {
                proof {
                    lemma_entries_map_absent(self.functions@, name@);
                }
                false
            },
        }
    }

    /// Pure lookup of the entry registered under a qualified name. `None`
    /// is not itself an error: callers decide whether an unresolved name
    /// means "undefined" or "user-defined, look elsewhere".
    pub fn resolve(&self, name: &str) -> (r: Option<&FfiFunction>)
        requires
            self.wf(),
        ensures
            match r {
                Some(f) => self@.contains_key(name@) && *f == self@[name@],
                None => !self@.contains_key(name@),
            },
    {
        match self.position_of(name) {
            Some(i) => {
                proof {
                    lemma_entries_map_index(self.functions@, i as int);
                }
                Some(&self.functions[i])
            },
            None => {
                proof {
                    lemma_entries_map_absent(self.functions@, name@);
                }
                None
            },
        }
    }

    /// A snapshot of every registered entry, for diagnostics.
    pub fn all(&self) -> (r: &Vec<FfiFunction>)
        requires
            self.wf(),
        ensures
            r@.len() == self@.dom().len(),
            forall|i: int|
                0 <= i < r@.len() ==> self@.contains_key(#[trigger] r@[i].name@) && self@[r@[i].name@]
                    == r@[i],
            forall|i: int, j: int| 0 <= i < j < r@.len() ==> r@[i].name@ != r@[j].name@,
    {
        proof {
            lemma_entries_dom(self.functions@);
            assert forall|i: int| 0 <= i < self.functions@.len() implies self@.contains_key(
                #[trigger] self.functions@[i].name@,
            ) && self@[self.functions@[i].name@] == self.functions@[i] by {
                lemma_entries_map_index(self.functions@, i);
            }
        }
        &self.functions
    }
}

proof fn lemma_entries_dom(s: Seq<FfiFunction>)
    requires
        unique_names(s),
    ensures
        entries_map(s).dom().len() == s.len(),
        entries_map(s).dom().finite(),
    decreases s.len(),
{
    if s.len() > 0 {
        lemma_entries_dom(s.drop_last());
        lemma_entries_map_absent(s.drop_last(), s.last().name@);
    }
}

} // verus!
