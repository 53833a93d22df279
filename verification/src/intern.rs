//! Symbol interning and the lock that guards it.
//!
//! Symbols are deduplicated text: interning the same text twice yields
//! handles that compare equal, and interning different texts yields handles
//! that compare unequal ([`lemma_intern_round_trip`]).  A handle, once
//! issued, keeps denoting the same text forever.
//!
//! The runtime that hosts the pool is not reentrant-safe when symbols are
//! created on another thread while a symbol list grows, so interning off the
//! calling thread must happen under the process-wide toggle [`SymbolLock`]: a
//! single boolean lock state with no queueing or fairness guarantee, exposed
//! explicitly because only the caller knows when cross-thread symbol creation
//! is in flight.

use vstd::prelude::*;
use vstd::string::StrSliceExecFns;

use crate::qtype;
use crate::construct::fresh_header;
use crate::record::{k0, k0_inner};

verus! {

/// No two entries of the pool hold the same text.
pub open spec fn distinct_texts(p: Seq<Seq<char>>) -> bool {
    forall|i: int, j: int|
        0 <= i < p.len() && 0 <= j < p.len() && i != j ==> #[trigger] p[i] != #[trigger] p[j]
}

/// Whether the pool already holds the text.
pub open spec fn contains_text(p: Seq<Seq<char>>, t: Seq<char>) -> bool {
    exists|i: int| 0 <= i < p.len() && #[trigger] p[i] == t
}

/// The handle interning `t` into pool `p` yields: the index of the entry that
/// holds `t`, or the next free index when no entry does.
pub open spec fn handle_of(p: Seq<Seq<char>>, t: Seq<char>) -> int {
    if contains_text(p, t) {
        choose|i: int| 0 <= i < p.len() && #[trigger] p[i] == t
    } else {
        p.len() as int
    }
}

/// The pool after interning `t`: unchanged when `t` is already held,
/// otherwise extended by `t`.
pub open spec fn pool_after(p: Seq<Seq<char>>, t: Seq<char>) -> Seq<Seq<char>> {
    if contains_text(p, t) {
        p
    } else {
        p.push(t)
    }
}

/// The symbol pool: the intern table of the runtime, deduplicated by
/// construction.  Its view is the sequence of held texts; a handle is an
/// index into that sequence.
pub struct SymbolPool {
    table: Vec<String>,
}

impl SymbolPool {
    /// The texts the pool holds, in the order their handles were issued.
    pub closed spec fn view(&self) -> Seq<Seq<char>> {
        Seq::new(self.table@.len(), |i: int| self.table@[i]@)
    }

    /// The pool's invariant: its texts are pairwise distinct.
    pub open spec fn wf(&self) -> bool {
        distinct_texts(self@)
    }

    /// An empty pool.
    pub fn new() -> (p: SymbolPool)
        ensures
            p.wf(),
            p@.len() == 0,
    {
        let p = SymbolPool { table: Vec::new() };
        proof {
            assert(p@ =~= Seq::<Seq<char>>::empty());
        }
        p
    }

    /// The number of texts the pool holds.
    pub fn len(&self) -> (n: usize)
        ensures
            n == self@.len(),
    {
        self.table.len()
    }

    /// Intern a text: return the handle of the entry already holding it, or
    /// issue the next handle for it.  Previously issued handles are
    /// unaffected.
    pub fn ss(&mut self, string: String) -> (handle: usize)
        requires
            old(self).wf(),
            old(self)@.len() < usize::MAX,
        ensures
            final(self).wf(),
            final(self)@ == pool_after(old(self)@, string@),
            handle == handle_of(old(self)@, string@),
            handle < final(self)@.len(),
            final(self)@[handle as int] == string@,
    {
        let ghost p = self@;
        let mut j: usize = 0;
        while j < self.table.len()
            invariant
                j <= self.table.len(),
                self@ == p,
                self.table@.len() == p.len(),
                distinct_texts(p),
                forall|i: int| 0 <= i < j ==> #[trigger] p[i] != string@,
            decreases self.table.len() - j,
        {
            if self.table[j] == string {
                proof {
                    assert(p[j as int] == string@);
                    assert(contains_text(p, string@));
                    let c = handle_of(p, string@);
                    assert(0 <= c < p.len() && p[c] == string@);
                    assert(c == j as int);
                    assert(pool_after(p, string@) == p);
                }
                return j;
            }
            j = j + 1;
        }
        proof {
            assert(!contains_text(p, string@));
        }
        let handle = self.table.len();
        self.table.push(string);
        proof {
            assert(self@ =~= p.push(string@));
            assert forall|i: int, k: int|
                0 <= i < self@.len() && 0 <= k < self@.len() && i != k implies #[trigger] self@[i]
                != #[trigger] self@[k] by {
                if i < p.len() && k < p.len() {
                    assert(p[i] != p[k]);
                } else if i == p.len() {
                    assert(self@[k] == p[k]);
                } else if k == p.len() {
                    assert(self@[i] == p[i]);
                }
            }
        }
        handle
    }

    /// Intern the text's first `n` characters.
    pub fn sn(&mut self, string: &str, n: usize) -> (handle: usize)
        requires
            old(self).wf(),
            old(self)@.len() < usize::MAX,
            n <= string@.len(),
        ensures
            final(self).wf(),
            final(self)@ == pool_after(old(self)@, string@.subrange(0, n as int)),
            handle == handle_of(old(self)@, string@.subrange(0, n as int)),
            handle < final(self)@.len(),
            final(self)@[handle as int] == string@.subrange(0, n as int),
    {
        let prefix = string.substring_char(0, n).to_owned();
        self.ss(prefix)
    }

    /// The text a handle denotes.
    pub fn S_to_str(&self, symbol: usize) -> (r: &String)
        requires
            symbol < self@.len(),
        ensures
            r@ == self@[symbol as int],
    {
        &self.table[symbol]
    }

    /// Constructor of a symbol record: intern the text and wrap its handle.
    pub fn ks(&mut self, symbol: String) -> (r: k0)
        requires
            old(self).wf(),
            old(self)@.len() < usize::MAX,
        ensures
            final(self).wf(),
            final(self)@ == pool_after(old(self)@, symbol@),
            fresh_header(r),
            r.qtype as int == -(qtype::SYMBOL as int),
            r.value == k0_inner::Symbol(handle_of(old(self)@, symbol@) as usize),
            r.wf(),
    {
        let handle = self.ss(symbol);
        k0 {
            m: 0,
            a: 0,
            qtype: -qtype::SYMBOL,
            attribute: 0,
            refcount: 0,
            value: k0_inner::Symbol(handle),
        }
    }
}

/// The process-wide toggle that guards concurrent interning: mutual exclusion
/// only, no queueing and no fairness.
pub struct SymbolLock {
    locked: bool,
}

impl SymbolLock {
    /// Whether the lock is currently set.
    pub closed spec fn spec_locked(&self) -> bool {
        self.locked
    }

    /// A released lock.
    pub fn new() -> (l: SymbolLock)
        ensures
            !l.spec_locked(),
    {
        SymbolLock { locked: false }
    }

    /// Set whether interning is locked — nonzero locks, zero releases — and
    /// return the previously set value.
    pub fn setm(&mut self, lock: i32) -> (prev: i32)
        ensures
            final(self).spec_locked() == (lock != 0),
            prev == if old(self).spec_locked() {
                1i32
            } else {
                0i32
            },
    {
        let prev: i32 = if self.locked {
            1
        } else {
            0
        };
        self.locked = lock != 0;
        prev
    }
}

/// Law: interning the same text twice yields handles that compare equal;
/// interning different texts yields handles that compare unequal.  The pool
/// may already hold either text.
pub proof fn lemma_intern_round_trip(p: Seq<Seq<char>>, t1: Seq<char>, t2: Seq<char>)
    requires
        distinct_texts(p),
    ensures
        handle_of(p, t1) == handle_of(pool_after(p, t1), t2) <==> t1 == t2,
{
    let h1 = handle_of(p, t1);
    let p1 = pool_after(p, t1);
    let h2 = handle_of(p1, t2);

    // After interning, t1 sits at h1, and p1 stays duplicate-free.
    assert(0 <= h1 < p1.len() && p1[h1] == t1);
    assert(distinct_texts(p1)) by {
        if !contains_text(p, t1) {
            assert forall|i: int, k: int|
                0 <= i < p1.len() && 0 <= k < p1.len() && i != k implies #[trigger] p1[i]
                != #[trigger] p1[k] by {
                if i < p.len() && k < p.len() {
                    assert(p[i] != p[k]);
                } else if i == p.len() {
                    assert(p1[k] == p[k]);
                    assert(!(p[k] == t1));
                } else if k == p.len() {
                    assert(p1[i] == p[i]);
                    assert(!(p[i] == t1));
                }
            }
        }
    }

    if t1 == t2 {
        // t2 is held at h1, and the duplicate-free invariant makes that
        // entry unique, so the chosen handle must be h1.
        assert(contains_text(p1, t2));
        assert(0 <= h2 < p1.len() && p1[h2] == t2);
        assert(h1 == h2);
    } else {
        if contains_text(p1, t2) {
            assert(0 <= h2 < p1.len() && p1[h2] == t2);
            // Two distinct texts cannot share an entry.
            assert(h1 != h2);
        } else {
            // t2 gets the next free handle, past t1's.
            assert(h2 == p1.len());
            assert(h1 != h2);
        }
    }
}

} // verus!
