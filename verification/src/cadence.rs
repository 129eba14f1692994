//! Which epochs are sampled, which are announced, and how many samples a run
//! of a given length leaves.

use vstd::prelude::*;

verus! {

/// Every epoch whose index is a multiple of this is sampled; epoch 0 is.
pub const SAMPLE_INTERVAL: usize = 50;

/// Progress is due after every this many completed epochs.
pub const PROGRESS_INTERVAL: usize = 200;

/// Epoch `epoch` (counted from 0) is sampled.
pub open spec fn is_sample_epoch(epoch: nat) -> bool {
    epoch % (SAMPLE_INTERVAL as nat) == 0
}

/// Progress is due once epoch `epoch` (counted from 0) has completed.
pub open spec fn is_progress_epoch(epoch: nat) -> bool {
    (epoch + 1) % (PROGRESS_INTERVAL as nat) == 0
}

/// The number of sampled epochs among the first `epochs`: the quotient of
/// `epochs` by the sample interval, rounded up.
pub open spec fn samples_due(epochs: nat) -> nat {
    ((epochs + SAMPLE_INTERVAL - 1) / (SAMPLE_INTERVAL as int)) as nat
}

/// The index of the epoch that the sample at `position` was taken in.
pub open spec fn sample_epoch(position: nat) -> nat {
    position * (SAMPLE_INTERVAL as nat)
}

/// The entries of `trace` at the sampled epochs, in order.
pub open spec fn sampled<T>(trace: Seq<T>) -> Seq<T> {
    Seq::new(samples_due(trace.len()), |position: int| trace[position * SAMPLE_INTERVAL])
}

/// One more epoch leaves one more sample exactly when that epoch is a
/// sampled one, and then its index is that of the new sample.
pub proof fn lemma_samples_due_step(epochs: nat)
    ensures
        is_sample_epoch(epochs) ==> samples_due(epochs + 1) == samples_due(epochs) + 1,
        is_sample_epoch(epochs) ==> sample_epoch(samples_due(epochs)) == epochs,
        !is_sample_epoch(epochs) ==> samples_due(epochs + 1) == samples_due(epochs),
{
}

/// The number of samples is the quotient of the number of epochs by the
/// sample interval, rounded up: the least number of intervals that cover
/// the epochs.
pub proof fn lemma_samples_due_is_ceiling(epochs: nat)
    ensures
        samples_due(epochs) * SAMPLE_INTERVAL >= epochs,
        epochs > 0 ==> (samples_due(epochs) - 1) * SAMPLE_INTERVAL < epochs,
        epochs == 0 ==> samples_due(epochs) == 0,
{
}

/// Every sample position of a run of `epochs` epochs names a sampled epoch
/// of that run.
pub proof fn lemma_sample_epoch_in_run(epochs: nat, position: nat)
    requires
        position < samples_due(epochs),
    ensures
        sample_epoch(position) < epochs,
        is_sample_epoch(sample_epoch(position)),
{
}

/// Appending an epoch to a trace appends it to the sampled entries when its
/// index is a sampled one, and leaves them as they were otherwise.
pub proof fn lemma_sampled_push<T>(trace: Seq<T>, entry: T)
    ensures
        sampled(trace.push(entry)) == if is_sample_epoch(trace.len()) {
            sampled(trace).push(entry)
        } else {
            sampled(trace)
        },
{
    lemma_samples_due_step(trace.len());
    let longer = trace.push(entry);
    if is_sample_epoch(trace.len()) {
        assert forall|position: int| 0 <= position < sampled(longer).len() implies sampled(
            longer,
        )[position] == sampled(trace).push(entry)[position] by {
            if position < samples_due(trace.len()) {
                lemma_sample_epoch_in_run(trace.len(), position as nat);
            }
        }
        assert(sampled(longer) =~= sampled(trace).push(entry));
    } else {
        assert forall|position: int| 0 <= position < sampled(longer).len() implies sampled(
            longer,
        )[position] == sampled(trace)[position] by {
            lemma_sample_epoch_in_run(trace.len(), position as nat);
        }
        assert(sampled(longer) =~= sampled(trace));
    }
}

/// Tells whether epoch `epoch` (counted from 0) is sampled.
pub fn sample_is_due(epoch: usize) -> (due: bool)
    ensures
        due == is_sample_epoch(epoch as nat),
{
    epoch % SAMPLE_INTERVAL == 0
}

/// Tells whether progress is due once epoch `epoch` (counted from 0) has
/// completed.
pub fn progress_is_due(epoch: usize) -> (due: bool)
    ensures
        due == is_progress_epoch(epoch as nat),
{
    epoch % PROGRESS_INTERVAL == PROGRESS_INTERVAL - 1
}

/// The number of samples that a run of `epochs` epochs leaves in each metric
/// series.
pub fn sample_count(epochs: usize) -> (count: usize)
    ensures
        count == samples_due(epochs as nat),
{
    if epochs % SAMPLE_INTERVAL == 0 {
        epochs / SAMPLE_INTERVAL
    } else {
        epochs / SAMPLE_INTERVAL + 1
    }
}

} // verus!
