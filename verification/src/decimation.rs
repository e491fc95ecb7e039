//! Decimation for display: of every `factor` samples consumed, the last is
//! kept and the others are discarded.

use vstd::arithmetic::div_mod::{lemma_fundamental_div_mod, lemma_fundamental_div_mod_converse};
use vstd::prelude::*;

verus! {

/// The default decimation factor.
pub const DEFAULT_DECIMATION: usize = 128;

/// How many of `consumed` samples a decimator keeps that had consumed
/// `phase` samples since it last kept one.
pub open spec fn kept_count(consumed: nat, factor: nat, phase: nat) -> nat {
    (phase + consumed) / factor
}

/// Where in a batch the `j`-th kept sample stands, counted from 0.
pub open spec fn kept_index(j: int, factor: nat, phase: nat) -> int {
    (j + 1) * factor - phase - 1
}

/// The samples of a batch that are kept, in the order in which they came,
/// by a decimator that had consumed `phase < factor` samples since it last
/// kept one.
pub open spec fn kept_of<T>(samples: Seq<T>, factor: nat, phase: nat) -> Seq<T> {
    Seq::new(
        kept_count(samples.len(), factor, phase),
        |j: int| samples[kept_index(j, factor, phase)],
    )
}

/// Counting one more: the quotient grows exactly when the count reaches a
/// multiple of the factor.
pub proof fn lemma_count_step(count: nat, factor: nat)
    requires
        factor >= 1,
    ensures
        (count + 1) % factor == 0 <==> count % factor + 1 == factor,
        (count + 1) % factor == 0 ==> (count + 1) / factor == count / factor + 1,
        (count + 1) % factor != 0 ==> (count + 1) / factor == count / factor,
        (count + 1) % factor == (count % factor + 1) % factor,
{
    let k = factor as int;
    let a = count as int;
    let q = a / k;
    let r = a % k;
    lemma_fundamental_div_mod(a, k);
    assert(0 <= r < k) by (nonlinear_arith)
        requires
            r == a % k,
            a >= 0,
            k >= 1,
    ;
    assert(k * q == q * k) by (nonlinear_arith);
    if r + 1 == k {
        assert(a + 1 == (q + 1) * k + 0) by (nonlinear_arith)
            requires
                a == q * k + r,
                r + 1 == k,
        ;
        lemma_fundamental_div_mod_converse(a + 1, k, q + 1, 0);
        lemma_fundamental_div_mod_converse(r + 1, k, 1, 0);
    } else {
        lemma_fundamental_div_mod_converse(a + 1, k, q, r + 1);
        lemma_fundamental_div_mod_converse(r + 1, k, 0, r + 1);
    }
}

/// Every kept sample stands inside the batch it was taken from.
pub proof fn lemma_kept_index_in_batch(j: int, consumed: nat, factor: nat, phase: nat)
    requires
        factor >= 1,
        phase < factor,
        0 <= j < kept_count(consumed, factor, phase),
    ensures
        0 <= kept_index(j, factor, phase) < consumed,
{
    let k = factor as int;
    let a = (phase + consumed) as int;
    let q = a / k;
    lemma_fundamental_div_mod(a, k);
    assert(0 <= a % k) by (nonlinear_arith)
        requires
            k >= 1,
            a >= 0,
    ;
    assert((j + 1) * k <= q * k) by (nonlinear_arith)
        requires
            j + 1 <= q,
            k >= 1,
    ;
    assert(k * q == q * k) by (nonlinear_arith);
    assert((j + 1) * k >= k) by (nonlinear_arith)
        requires
            j >= 0,
            k >= 1,
    ;
}

/// One more sample at the end of a batch is kept exactly when it brings the
/// count to a multiple of the factor; what was kept before stays.
pub proof fn lemma_kept_of_push<T>(samples: Seq<T>, sample: T, factor: nat, phase: nat)
    requires
        factor >= 1,
        phase < factor,
    ensures
        kept_of(samples.push(sample), factor, phase) == if (phase + samples.len() + 1) % factor
            == 0 {
            kept_of(samples, factor, phase).push(sample)
        } else {
            kept_of(samples, factor, phase)
        },
{
    let k = factor as int;
    let count = phase + samples.len();
    let longer = samples.push(sample);
    let before = kept_of(samples, factor, phase);
    let after = kept_of(longer, factor, phase);
    lemma_count_step(count, factor);
    assert forall|j: int| 0 <= j < before.len() implies before[j] == after[j] by {
        lemma_kept_index_in_batch(j, samples.len(), factor, phase);
    }
    if (count + 1) % factor == 0 {
        let q = count as int / k;
        assert(after.len() == before.len() + 1);
        lemma_fundamental_div_mod(count as int + 1, k);
        assert(k * (q + 1) == (q + 1) * k) by (nonlinear_arith);
        assert(kept_index(q, factor, phase) == samples.len());
        assert(after =~= before.push(sample));
    } else {
        assert(after =~= before);
    }
}

/// Nothing consumed, nothing kept.
pub proof fn lemma_kept_of_empty<T>(factor: nat, phase: nat)
    requires
        factor >= 1,
        phase < factor,
    ensures
        kept_of(Seq::<T>::empty(), factor, phase) == Seq::<T>::empty(),
{
    lemma_fundamental_div_mod_converse(phase as int, factor as int, 0, phase as int);
    assert(kept_of(Seq::<T>::empty(), factor, phase) =~= Seq::<T>::empty());
}

/// The counter that decides which samples are kept for display.
#[derive(Clone, Copy, Debug)]
pub struct Decimator {
    factor: usize,
    phase: usize,
}

impl Decimator {
    /// Of how many samples one is kept.
    pub closed spec fn factor(&self) -> nat {
        self.factor as nat
    }

    /// How many samples were consumed since the last one kept.
    pub closed spec fn phase(&self) -> nat {
        self.phase as nat
    }

    /// Holds of every decimator: the factor is positive and the count stays
    /// below it.
    #[verifier::type_invariant]
    pub open spec fn counting(&self) -> bool {
        self.factor() >= 1 && self.phase() < self.factor()
    }

    /// A decimator that keeps one sample of every `factor`, the first time
    /// after `factor` samples. There is none for a factor of 0.
    pub fn new(factor: usize) -> (decimator: Option<Self>)
        ensures
            decimator is Some <==> factor >= 1,
            decimator is Some ==> decimator->0.factor() == factor && decimator->0.phase() == 0,
    {
        if factor == 0 {
            None
        } else {
            Some(Decimator { factor, phase: 0 })
        }
    }

    /// The default decimator: one sample of every 128.
    pub fn standard() -> (decimator: Self)
        ensures
            decimator.factor() == DEFAULT_DECIMATION,
            decimator.phase() == 0,
    {
        Decimator { factor: DEFAULT_DECIMATION, phase: 0 }
    }

    /// Of how many samples one is kept; at least 1.
    pub fn get_factor(&self) -> (factor: usize)
        ensures
            factor == self.factor(),
            factor >= 1,
    {
        proof {
            use_type_invariant(self);
        }
        self.factor
    }

    /// How many samples were consumed since the last one kept; less than the
    /// factor.
    pub fn get_phase(&self) -> (phase: usize)
        ensures
            phase == self.phase(),
            phase < self.factor(),
    {
        proof {
            use_type_invariant(self);
        }
        self.phase
    }

    /// Counts one consumed sample and says whether it is the one to keep.
    pub fn advance(&mut self) -> (keep: bool)
        ensures
            final(self).factor() == old(self).factor(),
            final(self).phase() == (old(self).phase() + 1) % old(self).factor(),
            keep == ((old(self).phase() + 1) % old(self).factor() == 0),
            keep == (kept_count(1, old(self).factor(), old(self).phase()) == 1),
    {
        proof {
            use_type_invariant(&*self);
            lemma_count_step(self.phase as nat, self.factor as nat);
            lemma_fundamental_div_mod_converse(
                self.phase as int,
                self.factor as int,
                0,
                self.phase as int,
            );
        }
        let next: usize = self.phase + 1;
        if next == self.factor {
            self.phase = 0;
            true
        } else {
            proof {
                lemma_fundamental_div_mod_converse(
                    next as int,
                    self.factor as int,
                    0,
                    next as int,
                );
            }
            self.phase = next;
            false
        }
    }
}

} // verus!
