//! The memory manager behind the narrow allocator boundary generated code
//! calls into: a bump allocator that never reports failure, and the
//! process-wide set of root addresses the collector must treat as always
//! reachable.

use vstd::prelude::*;

verus! {

/// The lowest address the allocator hands out; no allocation is ever the
/// null address.
pub const HEAP_BASE: u64 = 0x1000;

/// The set of addresses a sequence holds.
pub open spec fn addr_set(s: Seq<u64>) -> Set<u64>
    decreases s.len(),
{
    if s.len() == 0 {
        Set::empty()
    } else {
        addr_set(s.drop_last()).insert(s.last())
    }
}

proof fn lemma_addr_set_index(s: Seq<u64>, i: int)
    requires
        0 <= i < s.len(),
    ensures
        addr_set(s).contains(s[i]),
    decreases s.len(),
{
    if i < s.len() - 1 {
        lemma_addr_set_index(s.drop_last(), i);
        assert(s.drop_last()[i] == s[i]);
    }
}

proof fn lemma_addr_set_absent(s: Seq<u64>, a: u64)
    requires
        forall|i: int| 0 <= i < s.len() ==> s[i] != a,
    ensures
        !addr_set(s).contains(a),
    decreases s.len(),
{
    if s.len() > 0 {
        lemma_addr_set_absent(s.drop_last(), a);
    }
}

proof fn lemma_addr_set_remove(s: Seq<u64>, i: int)
    requires
        0 <= i < s.len(),
        forall|a: int, b: int| 0 <= a < b < s.len() ==> s[a] != s[b],
    ensures
        addr_set(s.remove(i)) == addr_set(s).remove(s[i]),
    decreases s.len(),
{
    if i == s.len() - 1 {
        assert(s.remove(i) =~= s.drop_last());
        lemma_addr_set_absent(s.drop_last(), s[i]);
        assert(addr_set(s).remove(s[i]) =~= addr_set(s.drop_last()).insert(s.last()).remove(s[i]));
        assert(addr_set(s.drop_last()).insert(s.last()).remove(s[i]) =~= addr_set(s.drop_last()));
    } else {
        lemma_addr_set_remove(s.drop_last(), i);
        assert(s.remove(i).drop_last() =~= s.drop_last().remove(i));
        assert(s.remove(i).last() == s.last());
        assert(s[i] != s.last());
        assert(addr_set(s.drop_last()).remove(s[i]).insert(s.last()) =~= addr_set(
            s.drop_last(),
        ).insert(s.last()).remove(s[i]));
    }
}

/// The allocator state and the root set. Generated code reaches it only
/// through the narrow boundary these methods model: allocate, add a root,
/// remove a root.
#[derive(Debug)]
pub struct MemoryManager {
    next: u64,
    roots: Vec<u64>,
}

impl MemoryManager {
    /// The root set.
    pub closed spec fn root_set(&self) -> Set<u64> {
        addr_set(self.roots@)
    }

    /// The next address the allocator would hand out.
    pub closed spec fn spec_next(&self) -> u64 {
        self.next
    }

    /// Well-formed: the heap cursor never reenters the null page, and no
    /// root is stored twice.
    pub closed spec fn wf(&self) -> bool {
        &&& self.next >= HEAP_BASE
        &&& forall|a: int, b: int| 0 <= a < b < self.roots@.len() ==> self.roots@[a] != self.roots@[b]
    }

    /// A fresh manager with an empty root set.
    pub fn new() -> (r: Self)
        ensures
            r.wf(),
            r.root_set() == Set::<u64>::empty(),
            r.spec_next() == HEAP_BASE,
    {
        let r = MemoryManager { next: HEAP_BASE, roots: Vec::new() };
        proof {
            assert(r.root_set() =~= Set::<u64>::empty());
        }
        r
    }

    /// Hands out the next region of at least `size` bytes. Never fails and
    /// never yields the null address; when the address space is exhausted
    /// the cursor saturates.
    pub fn allocate(&mut self, size: u64) -> (addr: u64)
        requires
            old(self).wf(),
        ensures
            final(self).wf(),
            addr == old(self).spec_next(),
            addr != 0,
            final(self).spec_next() == if old(self).spec_next() + size <= u64::MAX {
                (old(self).spec_next() + size) as u64
            } else {
                u64::MAX
            },
            final(self).root_set() == old(self).root_set(),
    {
        let addr = self.next;
        self.next = if self.next <= u64::MAX - size {
            self.next + size
        } else {
            u64::MAX
        };
        addr
    }

    fn root_position(&self, addr: u64) -> (r: Option<usize>)
        ensures
            match r {
                Some(i) => i < self.roots@.len() && self.roots@[i as int] == addr,
                None => forall|i: int| 0 <= i < self.roots@.len() ==> self.roots@[i] != addr,
            },
    {
        let mut i: usize = 0;
        while i < self.roots.len()
            invariant
                i <= self.roots.len(),
                forall|j: int| 0 <= j < i ==> self.roots@[j] != addr,
            decreases self.roots.len() - i,
        {
            if self.roots[i] == addr {
                return Some(i);
            }
            i = i + 1;
        }
        None
    }

    /// Marks an address as always reachable; adding a present root changes
    /// nothing.
    pub fn add_root(&mut self, addr: u64)
        requires
            old(self).wf(),
        ensures
            final(self).wf(),
            final(self).root_set() == old(self).root_set().insert(addr),
            final(self).spec_next() == old(self).spec_next(),
    {
        let ghost pre = self.roots@;
        match self.root_position(addr) {
            Some(i) => {
                proof {
                    lemma_addr_set_index(pre, i as int);
                    assert(addr_set(pre).insert(addr) =~= addr_set(pre));
                }
            },
            None => {
                self.roots.push(addr);
                proof {
                    assert(self.roots@.drop_last() =~= pre);
                }
            },
        }
    }

    /// Unmarks an address; removing an address that is not a root is a
    /// no-op, not an error.
    pub fn remove_root(&mut self, addr: u64)
        requires
            old(self).wf(),
        ensures
            final(self).wf(),
            final(self).root_set() == old(self).root_set().remove(addr),
            final(self).spec_next() == old(self).spec_next(),
    {
        let ghost pre = self.roots@;
        match self.root_position(addr) {
            Some(i) => {
                self.roots.remove(i);
                proof {
                    lemma_addr_set_remove(pre, i as int);
                }
            },
            None => {
                proof {
                    lemma_addr_set_absent(pre, addr);
                    assert(addr_set(pre).remove(addr) =~= addr_set(pre));
                }
            },
        }
    }

    /// Whether an address is currently a root.
    pub fn is_root(&self, addr: u64) -> (r: bool)
        requires
            self.wf(),
        ensures
            r == self.root_set().contains(addr),
    {
        match self.root_position(addr) {
            Some(i) => {
                proof {
                    lemma_addr_set_index(self.roots@, i as int);
                }
                true
            },
            None => {
                proof {
                    lemma_addr_set_absent(self.roots@, addr);
                }
                false
            },
        }
    }
}

} // verus!
