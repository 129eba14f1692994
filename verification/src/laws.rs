//! What holds of whole runs: the state machine replayed over any sequence
//! of events.

use vstd::prelude::*;
use crate::cadence::{
    lemma_sampled_push,
    lemma_samples_due_is_ceiling,
    sample_epoch,
    sampled,
    samples_due,
    SAMPLE_INTERVAL,
};
use crate::config::{config_valid, TrainingConfig};
use crate::probe::reading_or_zero;
use crate::run::{
    bias_after,
    bias_before,
    biases_of,
    inv,
    lemma_initial_inv,
    lemma_step_inv,
    losses_of,
    memory_of,
    run_of,
    sample_of,
    stepped_by,
    timestamps_of,
    trace_of,
    weight_after,
    weight_before,
    weights_of,
    EpochEvent,
    EpochOutcome,
};

verus! {

/// A run that has taken in some events, no more than it asks for, is in a
/// state that a run may be in; it has completed as many epochs as there were
/// events; its parameters are those that the events leave: those of the last
/// outcome, or positive zero before the first; and its samples are those of
/// the events at the sampled epochs, in order.
pub proof fn law_run_state(config: TrainingConfig, events: Seq<EpochEvent>)
    requires
        config_valid(config),
        events.len() <= config.epoch_count,
    ensures
        inv(run_of(config, events)),
        run_of(config, events).config == config,
        run_of(config, events).epoch == events.len(),
        run_of(config, events).weight == weight_after(events),
        run_of(config, events).bias == bias_after(events),
        run_of(config, events).samples == sampled(trace_of(events)),
    decreases events.len(),
{
    if events.len() == 0 {
        lemma_initial_inv(config);
        assert(run_of(config, events).samples =~= sampled(trace_of(events)));
    } else {
        let earlier = events.drop_last();
        law_run_state(config, earlier);
        lemma_step_inv(run_of(config, earlier), events.last());
        lemma_sampled_push(trace_of(earlier), sample_of(earlier.len(), events.last()));
        assert(trace_of(events) =~= trace_of(earlier).push(
            sample_of(earlier.len(), events.last()),
        ));
    }
}

/// A run that has executed all its epochs holds, in each of its five metric
/// series, as many entries as the epoch count divided by the sample
/// interval, rounded up.
pub proof fn law_series_lengths(config: TrainingConfig, events: Seq<EpochEvent>)
    requires
        config_valid(config),
        events.len() == config.epoch_count,
    ensures
        run_of(config, events).done(),
        losses_of(run_of(config, events).samples).len() == samples_due(config.epoch_count as nat),
        weights_of(run_of(config, events).samples).len() == samples_due(config.epoch_count as nat),
        biases_of(run_of(config, events).samples).len() == samples_due(config.epoch_count as nat),
        memory_of(run_of(config, events).samples).len() == samples_due(config.epoch_count as nat),
        timestamps_of(run_of(config, events).samples).len() == samples_due(
            config.epoch_count as nat,
        ),
        samples_due(config.epoch_count as nat) * SAMPLE_INTERVAL >= config.epoch_count,
        (samples_due(config.epoch_count as nat) - 1) * SAMPLE_INTERVAL < config.epoch_count,
{
    law_run_state(config, events);
    lemma_samples_due_is_ceiling(config.epoch_count as nat);
}

/// Entry `position` of each metric series of a run is the metric of the
/// event of epoch `position` times the sample interval: the loss, weight,
/// bias and elapsed time as they came, the memory reading degraded to zero
/// where there was none.
pub proof fn law_series_entries(config: TrainingConfig, events: Seq<EpochEvent>, position: nat)
    requires
        config_valid(config),
        events.len() <= config.epoch_count,
        position < samples_due(events.len()),
    ensures
        sample_epoch(position) < events.len(),
        run_of(config, events).samples[position as int] == sample_of(
            sample_epoch(position),
            events[sample_epoch(position) as int],
        ),
        losses_of(run_of(config, events).samples)[position as int] == events[sample_epoch(
            position,
        ) as int].outcome.mse,
        weights_of(run_of(config, events).samples)[position as int] == events[sample_epoch(
            position,
        ) as int].outcome.weight,
        biases_of(run_of(config, events).samples)[position as int] == events[sample_epoch(
            position,
        ) as int].outcome.bias,
        memory_of(run_of(config, events).samples)[position as int] == reading_or_zero(
            events[sample_epoch(position) as int].memory,
        ),
        timestamps_of(run_of(config, events).samples)[position as int] == events[sample_epoch(
            position,
        ) as int].elapsed_nanos,
{
    law_run_state(config, events);
    crate::cadence::lemma_sample_epoch_in_run(events.len(), position);
}

/// Two runs of one configuration whose epochs had the same outcomes end
/// with the same weight and bias and with the same series of losses,
/// weights and biases, whatever their probes read.
pub proof fn law_outcomes_determine_parameters(
    config: TrainingConfig,
    first: Seq<EpochEvent>,
    second: Seq<EpochEvent>,
)
    requires
        config_valid(config),
        first.len() <= config.epoch_count,
        first.len() == second.len(),
        forall|epoch: int| 0 <= epoch < first.len() ==> first[epoch].outcome == second[epoch].outcome,
    ensures
        run_of(config, first).weight == run_of(config, second).weight,
        run_of(config, first).bias == run_of(config, second).bias,
        losses_of(run_of(config, first).samples) == losses_of(run_of(config, second).samples),
        weights_of(run_of(config, first).samples) == weights_of(run_of(config, second).samples),
        biases_of(run_of(config, first).samples) == biases_of(run_of(config, second).samples),
{
    law_run_state(config, first);
    law_run_state(config, second);
    let left = run_of(config, first).samples;
    let right = run_of(config, second).samples;
    assert forall|position: int| 0 <= position < left.len() implies left[position].mse
        == right[position].mse && left[position].weight == right[position].weight
        && left[position].bias == right[position].bias by {
        law_series_entries(config, first, position as nat);
        law_series_entries(config, second, position as nat);
    }
    assert(losses_of(left) =~= losses_of(right));
    assert(weights_of(left) =~= weights_of(right));
    assert(biases_of(left) =~= biases_of(right));
}

/// `gradient_step` returns no more than one outcome for given parameters.
pub open spec fn single_valued<S: Fn(u64, u64) -> EpochOutcome>(gradient_step: S) -> bool {
    forall|weight: u64, bias: u64, first: EpochOutcome, second: EpochOutcome|
        #![trigger gradient_step.ensures((weight, bias), first), gradient_step.ensures((weight, bias), second)]
        gradient_step.ensures((weight, bias), first) && gradient_step.ensures(
            (weight, bias),
            second,
        ) ==> first == second
}

/// Two sequences of events of one length, both stepped by one single-valued
/// gradient step, have the same outcome in every epoch.
pub proof fn lemma_outcomes_agree<S: Fn(u64, u64) -> EpochOutcome>(
    gradient_step: S,
    first: Seq<EpochEvent>,
    second: Seq<EpochEvent>,
    epoch: int,
)
    requires
        single_valued(gradient_step),
        first.len() == second.len(),
        stepped_by(gradient_step, first),
        stepped_by(gradient_step, second),
        0 <= epoch < first.len(),
    ensures
        first[epoch].outcome == second[epoch].outcome,
    decreases epoch,
{
    if epoch > 0 {
        lemma_outcomes_agree(gradient_step, first, second, epoch - 1);
    }
    assert(weight_before(first, epoch) == weight_before(second, epoch));
    assert(bias_before(first, epoch) == bias_before(second, epoch));
    assert(gradient_step.ensures(
        (weight_before(first, epoch), bias_before(first, epoch)),
        first[epoch].outcome,
    ));
    assert(gradient_step.ensures(
        (weight_before(second, epoch), bias_before(second, epoch)),
        second[epoch].outcome,
    ));
}

/// Training is deterministic: two runs of one configuration over as many
/// epochs, both stepped by one gradient step that returns no more than one
/// outcome for given parameters, end with the same weight and bias and with
/// the same series of losses, weights and biases, whatever their probes
/// read.
pub proof fn law_training_deterministic<S: Fn(u64, u64) -> EpochOutcome>(
    config: TrainingConfig,
    gradient_step: S,
    first: Seq<EpochEvent>,
    second: Seq<EpochEvent>,
)
    requires
        config_valid(config),
        single_valued(gradient_step),
        first.len() <= config.epoch_count,
        first.len() == second.len(),
        stepped_by(gradient_step, first),
        stepped_by(gradient_step, second),
    ensures
        run_of(config, first).weight == run_of(config, second).weight,
        run_of(config, first).bias == run_of(config, second).bias,
        losses_of(run_of(config, first).samples) == losses_of(run_of(config, second).samples),
        weights_of(run_of(config, first).samples) == weights_of(run_of(config, second).samples),
        biases_of(run_of(config, first).samples) == biases_of(run_of(config, second).samples),
{
    assert forall|epoch: int| 0 <= epoch < first.len() implies first[epoch].outcome
        == second[epoch].outcome by {
        lemma_outcomes_agree(gradient_step, first, second, epoch);
    }
    law_outcomes_determine_parameters(config, first, second);
}

/// A run whose memory could not be read in any epoch, or was read as zero,
/// completes all the same, and every entry of its memory series is zero.
pub proof fn law_unread_memory_is_zero(config: TrainingConfig, events: Seq<EpochEvent>)
    requires
        config_valid(config),
        events.len() == config.epoch_count,
        forall|epoch: int| 0 <= epoch < events.len() ==> reading_or_zero(events[epoch].memory) == 0,
    ensures
        run_of(config, events).done(),
        memory_of(run_of(config, events).samples).len() == samples_due(config.epoch_count as nat),
        forall|position: int|
            0 <= position < memory_of(run_of(config, events).samples).len() ==> memory_of(
                run_of(config, events).samples,
            )[position] == 0,
{
    law_series_lengths(config, events);
    assert forall|position: int|
        0 <= position < memory_of(run_of(config, events).samples).len() implies memory_of(
        run_of(config, events).samples,
    )[position] == 0 by {
        law_series_entries(config, events, position as nat);
    }
}

/// A run of a single epoch leaves exactly one sample, that of epoch 0, and
/// its parameters are those of that epoch's outcome.
pub proof fn law_single_epoch(config: TrainingConfig, event: EpochEvent)
    requires
        config_valid(config),
    ensures
        run_of(config, seq![event]).samples == seq![sample_of(0, event)],
        run_of(config, seq![event]).weight == event.outcome.weight,
        run_of(config, seq![event]).bias == event.outcome.bias,
{
    let events = seq![event];
    law_run_state(config, events);
    law_series_entries(config, events, 0);
    assert(run_of(config, events).samples =~= seq![sample_of(0, event)]);
}

} // verus!
