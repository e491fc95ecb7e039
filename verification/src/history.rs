//! What the display shows of a stream: the samples that decimation keeps,
//! cut to the newest that the history has room for.

use crate::decimation::{kept_count, kept_index, kept_of, lemma_count_step, lemma_kept_index_in_batch,
    lemma_kept_of_empty, lemma_kept_of_push};
use crate::ring_buffer::{keep_last, lemma_keep_last_push};
use vstd::arithmetic::div_mod::{lemma_add_mod_noop, lemma_add_mod_noop_right, lemma_mod_bound,
    lemma_small_mod};
use vstd::prelude::*;

verus! {

/// The history that the display shows once a decimator in phase `phase` has
/// consumed `batch` after `history`: what it kept is appended, and the oldest
/// entries beyond `limit` are evicted.
pub open spec fn shown_after<T>(
    history: Seq<T>,
    limit: nat,
    batch: Seq<T>,
    factor: nat,
    phase: nat,
) -> Seq<T> {
    keep_last(history + kept_of(batch, factor, phase), limit)
}

/// Consuming one more sample extends the shown history by that sample if it
/// is the one to keep, and leaves it as it is otherwise.
pub proof fn lemma_shown_after_push<T>(
    history: Seq<T>,
    limit: nat,
    batch: Seq<T>,
    sample: T,
    factor: nat,
    phase: nat,
)
    requires
        factor >= 1,
        phase < factor,
    ensures
        shown_after(history, limit, batch.push(sample), factor, phase) == if (phase + batch.len()
            + 1) % factor == 0 {
            keep_last(shown_after(history, limit, batch, factor, phase).push(sample), limit)
        } else {
            shown_after(history, limit, batch, factor, phase)
        },
        (phase + batch.len() + 1) % factor == ((phase + batch.len()) % factor + 1) % factor,
{
    lemma_kept_of_push(batch, sample, factor, phase);
    lemma_count_step(phase + batch.len(), factor);
    let kept = kept_of(batch, factor, phase);
    if (phase + batch.len() + 1) % factor == 0 {
        lemma_keep_last_push(history + kept, limit, sample);
        assert((history + kept).push(sample) =~= history + kept.push(sample));
    }
}

/// Consuming nothing changes nothing: neither the history, which is within
/// its limit, nor the phase.
pub proof fn lemma_nothing_consumed<T>(history: Seq<T>, limit: nat, factor: nat, phase: nat)
    requires
        factor >= 1,
        phase < factor,
        history.len() <= limit,
    ensures
        shown_after(history, limit, Seq::<T>::empty(), factor, phase) == history,
        (phase + 0) % factor == phase,
{
    lemma_kept_of_empty::<T>(factor, phase);
    assert(history + Seq::<T>::empty() =~= history);
    lemma_small_mod(phase, factor);
}

/// Where a stream is cut into frames makes no difference: consuming `first`
/// and then `second` shows what consuming the two as one batch shows.
pub proof fn lemma_shown_after_concat<T>(
    history: Seq<T>,
    limit: nat,
    first: Seq<T>,
    second: Seq<T>,
    factor: nat,
    phase: nat,
)
    requires
        factor >= 1,
        phase < factor,
    ensures
        shown_after(
            shown_after(history, limit, first, factor, phase),
            limit,
            second,
            factor,
            (phase + first.len()) % factor,
        ) == shown_after(history, limit, first + second, factor, phase),
    decreases second.len(),
{
    let between = shown_after(history, limit, first, factor, phase);
    let phase_between = (phase + first.len()) % factor;
    lemma_mod_bound((phase + first.len()) as int, factor as int);
    if second.len() == 0 {
        lemma_nothing_consumed(between, limit, factor, phase_between);
        assert(second =~= Seq::<T>::empty());
        assert(first + second =~= first);
    } else {
        let earlier = second.drop_last();
        let sample = second.last();
        lemma_shown_after_concat(history, limit, first, earlier, factor, phase);
        lemma_shown_after_push(between, limit, earlier, sample, factor, phase_between);
        lemma_shown_after_push(history, limit, first + earlier, sample, factor, phase);
        lemma_add_mod_noop(
            (phase + first.len()) as int,
            (earlier.len() + 1) as int,
            factor as int,
        );
        lemma_small_mod((earlier.len() + 1) % factor, factor);
        lemma_mod_bound((earlier.len() + 1) as int, factor as int);
        lemma_add_mod_noop_right(
            phase_between as int,
            (earlier.len() + 1) as int,
            factor as int,
        );
        assert(earlier.push(sample) =~= second);
        assert((first + earlier).push(sample) =~= first + second);
    }
}

/// Fed from its start, the display shows the most recent kept samples in the
/// order in which they came: of `samples.len()` samples one in every `factor`
/// is kept, the last of each group, and the newest `limit` of those are shown.
pub proof fn lemma_history_of_fresh_feed<T>(samples: Seq<T>, factor: nat, limit: nat)
    requires
        factor >= 1,
    ensures
        ({
            let shown = shown_after(Seq::<T>::empty(), limit, samples, factor, 0);
            let kept = samples.len() / factor;
            &&& shown.len() == if kept <= limit {
                kept
            } else {
                limit
            }
            &&& shown.len() <= limit
            &&& forall|j: int|
                0 <= j < shown.len() ==> {
                    &&& 0 <= #[trigger] kept_index(kept - shown.len() + j, factor, 0)
                        < samples.len()
                    &&& shown[j] == samples[kept_index(kept - shown.len() + j, factor, 0)]
                }
        }),
{
    let all = kept_of(samples, factor, 0);
    let shown = shown_after(Seq::<T>::empty(), limit, samples, factor, 0);
    assert(Seq::<T>::empty() + all =~= all);
    assert(all.len() == kept_count(samples.len(), factor, 0));
    assert forall|j: int| 0 <= j < shown.len() implies {
        &&& 0 <= #[trigger] kept_index(all.len() - shown.len() + j, factor, 0) < samples.len()
        &&& shown[j] == samples[kept_index(all.len() - shown.len() + j, factor, 0)]
    } by {
        lemma_kept_index_in_batch(
            all.len() - shown.len() + j,
            samples.len(),
            factor,
            0,
        );
    }
}

} // verus!
