//! The identifier generator: a process-wide counter that hands every
//! submission a fresh job identifier. It wraps on overflow, so identifiers
//! are unique only among the first 2^64 draws of one process lifetime — a
//! known limitation, not corrected here.

use vstd::prelude::*;
use vstd::arithmetic::div_mod::{lemma_fundamental_div_mod, lemma_small_mod};
use vstd::arithmetic::mul::lemma_mul_is_distributive_sub;

verus! {

/// One step of the wrapping counter.
pub open spec fn wrap_inc(c: u64) -> u64 {
    if c == u64::MAX {
        0
    } else {
        (c + 1) as u64
    }
}

/// The identifier handed out by the `k`-th draw of a generator whose
/// counter started at `base` (`k == 0` is the starting counter itself).
pub open spec fn nth_id(base: u64, k: nat) -> u64
    decreases k,
{
    if k == 0 {
        base
    } else {
        wrap_inc(nth_id(base, (k - 1) as nat))
    }
}

/// The wrapping counter behind job identifiers. `base` and `issued`
/// remember, in ghost state, where the counter started and how many
/// identifiers have been drawn.
pub struct IdGenerator {
    pub counter: u64,
    pub base: Ghost<u64>,
    pub issued: Ghost<nat>,
}

impl IdGenerator {
    pub open spec fn wf(&self) -> bool {
        self.counter == nth_id(self.base@, self.issued@)
    }

    /// A generator whose first draw will return `start + 1` (wrapping).
    pub fn new(start: u64) -> (g: IdGenerator)
        ensures
            g.wf(),
            g.base@ == start,
            g.issued@ == 0,
            g.counter == start,
    {
        IdGenerator { counter: start, base: Ghost(start), issued: Ghost(0) }
    }

    /// The identifier the next draw will return.
    pub fn peek_next(&self) -> (id: u64)
        ensures
            id == wrap_inc(self.counter),
    {
        if self.counter == u64::MAX {
            0
        } else {
            self.counter + 1
        }
    }

    /// Draws the next identifier: increments the counter, wrapping on
    /// overflow, and returns the new value. No two draws of the same
    /// generator return the same value within 2^64 draws
    /// (`law_identifiers_distinct`).
    pub fn next(&mut self) -> (id: u64)
        requires
            old(self).wf(),
        ensures
            final(self).wf(),
            final(self).base == old(self).base,
            final(self).issued@ == old(self).issued@ + 1,
            id == wrap_inc(old(self).counter),
            id == nth_id(final(self).base@, final(self).issued@),
            final(self).counter == id,
    {
        let id: u64 = if self.counter == u64::MAX {
            0
        } else {
            self.counter + 1
        };
        self.counter = id;
        proof {
            self.issued@ = self.issued@ + 1;
        }
        id
    }
}

/// The `k`-th identifier is the start value advanced by `k`, modulo 2^64.
pub proof fn lemma_nth_id_mod(base: u64, k: nat)
    ensures
        nth_id(base, k) == (base + k) % 0x1_0000_0000_0000_0000,
    decreases k,
{
    let m: int = 0x1_0000_0000_0000_0000;
    if k == 0 {
        lemma_small_mod(base as nat, 0x1_0000_0000_0000_0000);
    } else {
        lemma_nth_id_mod(base, (k - 1) as nat);
        let prev = nth_id(base, (k - 1) as nat);
        let a: int = base + k - 1;
        lemma_fundamental_div_mod(a, m);
        lemma_fundamental_div_mod(a + 1, m);
        if prev == u64::MAX {
            assert((a + 1) % m == 0) by {
                assert(a == m * (a / m) + (m - 1));
                assert(a + 1 == m * (a / m + 1));
                assert((a + 1) % m == (a + 1) - m * ((a + 1) / m));
                let q = (a + 1) / m;
                let p = a / m + 1;
                assert(m * q == m * p);
                assert(m * q - m * p == m * (q - p)) by (nonlinear_arith);
                assert(m * (q - p) == 0);
                assert(q == p) by (nonlinear_arith)
                    requires
                        m * (q - p) == 0,
                        m > 0,
                ;
            }
        } else {
            assert((a + 1) % m == a % m + 1) by {
                assert(a % m < m - 1);
                assert(a + 1 == m * (a / m) + (a % m + 1));
                let q = (a + 1) / m;
                let p = a / m;
                assert(a + 1 == m * q + (a + 1) % m);
                assert(m * q - m * p == m * (q - p)) by (nonlinear_arith);
                assert(m * (q - p) == (a % m + 1) - (a + 1) % m);
                assert(-m < m * (q - p) < m);
                assert(q == p) by (nonlinear_arith)
                    requires
                        -m < m * (q - p) < m,
                        m > 0,
                ;
            }
        }
    }
}

/// Distinct draws yield distinct identifiers, as long as the two draw
/// indices are fewer than 2^64 apart.
pub proof fn lemma_ids_distinct(base: u64, i: nat, j: nat)
    requires
        i < j,
        j - i < 0x1_0000_0000_0000_0000,
    ensures
        nth_id(base, i) != nth_id(base, j),
{
    let m: int = 0x1_0000_0000_0000_0000;
    lemma_nth_id_mod(base, i);
    lemma_nth_id_mod(base, j);
    let a: int = base + i;
    let b: int = base + j;
    if nth_id(base, i) == nth_id(base, j) {
        lemma_fundamental_div_mod(a, m);
        lemma_fundamental_div_mod(b, m);
        let p = a / m;
        let q = b / m;
        let d = q - p;
        lemma_mul_is_distributive_sub(m, q, p);
        assert(m * d == j - i);
        assert(false) by (nonlinear_arith)
            requires
                m * d == j - i,
                0 < j - i < m,
                m > 0,
        ;
    }
}

/// Law: among any `n <= 2^64` consecutive submissions, the generator
/// yields pairwise distinct identifiers.
pub proof fn law_identifiers_distinct(base: u64, n: nat)
    requires
        n <= 0x1_0000_0000_0000_0000,
    ensures
        forall|i: nat, j: nat|
            #![trigger nth_id(base, i), nth_id(base, j)]
            1 <= i < j <= n ==> nth_id(base, i) != nth_id(base, j),
{
    assert forall|i: nat, j: nat|
        #![trigger nth_id(base, i), nth_id(base, j)]
        1 <= i < j <= n implies nth_id(base, i) != nth_id(base, j) by {
        lemma_ids_distinct(base, i, j);
    }
}

} // verus!
