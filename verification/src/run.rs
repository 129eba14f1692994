//! A training run as a state machine.
//!
//! The state holds the model parameters, the number of epochs completed and
//! the samples recorded so far. The event is what one epoch produced: the
//! outcome of its gradient step, a memory reading and the elapsed time. The
//! action is the report that tells the caller whether the epoch was sampled,
//! whether progress is due, and whether the run is over.

use vstd::prelude::*;
use crate::binary64::POSITIVE_ZERO;
use crate::cadence::{
    is_progress_epoch,
    is_sample_epoch,
    lemma_samples_due_step,
    progress_is_due,
    sample_epoch,
    sample_is_due,
    samples_due,
};
use crate::config::{config_valid, inputs_valid, validate, TrainError, TrainingConfig};
use crate::probe::{memory_or_zero, reading_or_zero};

verus! {

/// What the gradient step of one epoch produced. The three numbers are
/// binary64 bit patterns.
#[derive(Clone, Copy, Debug, PartialEq, Eq)]
pub struct EpochOutcome {
    /// The mean squared error of the parameters that the epoch started from.
    pub mse: u64,
    /// The weight after the step.
    pub weight: u64,
    /// The bias after the step.
    pub bias: u64,
}

/// Everything that one epoch hands to the run.
#[derive(Clone, Copy, Debug, PartialEq, Eq)]
pub struct EpochEvent {
    /// The outcome of the gradient step.
    pub outcome: EpochOutcome,
    /// The resident memory of the process in bytes, where it could be read.
    pub memory: Option<u64>,
    /// The nanoseconds since the run started.
    pub elapsed_nanos: u128,
}

/// The metrics of one sampled epoch.
#[derive(Clone, Copy, Debug, PartialEq, Eq)]
pub struct MetricSample {
    /// The index of the epoch, counted from 0.
    pub epoch: usize,
    /// The mean squared error before the epoch's step, as a bit pattern.
    pub mse: u64,
    /// The weight after the epoch's step, as a bit pattern.
    pub weight: u64,
    /// The bias after the epoch's step, as a bit pattern.
    pub bias: u64,
    /// The resident memory of the process in bytes; zero where it could not
    /// be read.
    pub memory_bytes: u64,
    /// The nanoseconds since the run started.
    pub elapsed_nanos: u128,
}

/// What the caller is told once an epoch has been taken in.
#[derive(Clone, Copy, Debug, PartialEq, Eq)]
pub struct EpochReport {
    /// The index of the epoch, counted from 0.
    pub epoch: usize,
    /// The epoch was recorded as a sample.
    pub sampled: bool,
    /// Progress is due to be announced.
    pub progress_due: bool,
    /// This was the last epoch of the run.
    pub finished: bool,
}

/// What a run hands out at its end. The five series run in parallel: entry
/// `k` of each belongs to the sample at position `k`.
#[derive(Debug, PartialEq, Eq)]
pub struct TrainingResult {
    /// The final weight, as a bit pattern.
    pub weight: u64,
    /// The final bias, as a bit pattern.
    pub bias: u64,
    /// The nanoseconds that the whole run took.
    pub execution_nanos: u128,
    /// The mean squared error of each sample, as bit patterns.
    pub losses: Vec<u64>,
    /// The weight of each sample, as bit patterns.
    pub weights: Vec<u64>,
    /// The bias of each sample, as bit patterns.
    pub biases: Vec<u64>,
    /// The resident memory of each sample, in bytes.
    pub memory_bytes: Vec<u64>,
    /// The elapsed time of each sample, in nanoseconds.
    pub timestamps_nanos: Vec<u128>,
}

/// The state of a run, as contracts see it.
pub struct RunState {
    /// The configuration that the run was started with.
    pub config: TrainingConfig,
    /// The number of epochs completed.
    pub epoch: nat,
    /// The current weight, as a bit pattern.
    pub weight: u64,
    /// The current bias, as a bit pattern.
    pub bias: u64,
    /// The samples recorded so far, oldest first.
    pub samples: Seq<MetricSample>,
}

impl RunState {
    /// The run has executed all its epochs.
    pub open spec fn done(self) -> bool {
        self.epoch >= self.config.epoch_count
    }
}

/// The state that a run starts from: no epoch completed, nothing recorded,
/// and both parameters at positive zero.
pub open spec fn initial(config: TrainingConfig) -> RunState {
    RunState {
        config,
        epoch: 0,
        weight: POSITIVE_ZERO,
        bias: POSITIVE_ZERO,
        samples: Seq::empty(),
    }
}

/// The sample that an event leaves when it arrives as epoch `epoch`: the
/// loss, weight, bias and elapsed time as they came, and the memory reading
/// degraded to zero where there was none.
pub open spec fn sample_of(epoch: nat, event: EpochEvent) -> MetricSample {
    MetricSample {
        epoch: epoch as usize,
        mse: event.outcome.mse,
        weight: event.outcome.weight,
        bias: event.outcome.bias,
        memory_bytes: reading_or_zero(event.memory),
        elapsed_nanos: event.elapsed_nanos,
    }
}

/// The state after the next epoch's event: the parameters become those of
/// the outcome, the epoch is counted, and the event is recorded as a sample
/// exactly when the epoch is a sampled one.
pub open spec fn step(state: RunState, event: EpochEvent) -> RunState {
    RunState {
        config: state.config,
        epoch: state.epoch + 1,
        weight: event.outcome.weight,
        bias: event.outcome.bias,
        samples: if is_sample_epoch(state.epoch) {
            state.samples.push(sample_of(state.epoch, event))
        } else {
            state.samples
        },
    }
}

/// The report on the epoch that `state` is about to take in.
pub open spec fn report_for(state: RunState) -> EpochReport {
    EpochReport {
        epoch: state.epoch as usize,
        sampled: is_sample_epoch(state.epoch),
        progress_due: is_progress_epoch(state.epoch),
        finished: state.epoch + 1 == state.config.epoch_count,
    }
}

/// What holds of every state that a run passes through: the configuration
/// is one that a run accepts, no more epochs are completed than it asks
/// for, there is one sample for every sampled epoch completed, and each
/// sample carries the index of its epoch.
pub open spec fn inv(state: RunState) -> bool {
    &&& config_valid(state.config)
    &&& state.epoch <= state.config.epoch_count
    &&& state.samples.len() == samples_due(state.epoch)
    &&& forall|position: int|
        0 <= position < state.samples.len() ==> (#[trigger] state.samples[position]).epoch
            == sample_epoch(position as nat)
}

/// The state that a run reaches from `start` by taking in `events` in order.
pub open spec fn replay(start: RunState, events: Seq<EpochEvent>) -> RunState
    decreases events.len(),
{
    if events.len() == 0 {
        start
    } else {
        step(replay(start, events.drop_last()), events.last())
    }
}

/// The state that a run of `config` is in once it has taken in `events`.
pub open spec fn run_of(config: TrainingConfig, events: Seq<EpochEvent>) -> RunState {
    replay(initial(config), events)
}

/// The sample that each event would leave if its epoch were sampled.
pub open spec fn trace_of(events: Seq<EpochEvent>) -> Seq<MetricSample> {
    Seq::new(events.len(), |epoch: int| sample_of(epoch as nat, events[epoch]))
}

/// The weight that epoch `epoch` of `events` starts from: positive zero for
/// the first epoch, the weight of the previous outcome for the others.
pub open spec fn weight_before(events: Seq<EpochEvent>, epoch: int) -> u64 {
    if epoch == 0 {
        POSITIVE_ZERO
    } else {
        events[epoch - 1].outcome.weight
    }
}

/// The bias that epoch `epoch` of `events` starts from: positive zero for
/// the first epoch, the bias of the previous outcome for the others.
pub open spec fn bias_before(events: Seq<EpochEvent>, epoch: int) -> u64 {
    if epoch == 0 {
        POSITIVE_ZERO
    } else {
        events[epoch - 1].outcome.bias
    }
}

/// The weight that `events` leave: that of the last outcome, or positive
/// zero where there is none.
pub open spec fn weight_after(events: Seq<EpochEvent>) -> u64 {
    weight_before(events, events.len() as int)
}

/// The bias that `events` leave: that of the last outcome, or positive zero
/// where there is none.
pub open spec fn bias_after(events: Seq<EpochEvent>) -> u64 {
    bias_before(events, events.len() as int)
}

/// Every outcome in `events` is one that `gradient_step` returns for the
/// parameters that its epoch starts from.
pub open spec fn stepped_by<S: Fn(u64, u64) -> EpochOutcome>(
    gradient_step: S,
    events: Seq<EpochEvent>,
) -> bool {
    forall|epoch: int|
        0 <= epoch < events.len() ==> gradient_step.ensures(
            (weight_before(events, epoch), bias_before(events, epoch)),
            (#[trigger] events[epoch]).outcome,
        )
}

/// The losses of a sequence of samples.
pub open spec fn losses_of(samples: Seq<MetricSample>) -> Seq<u64> {
    samples.map_values(|sample: MetricSample| sample.mse)
}

/// The weights of a sequence of samples.
pub open spec fn weights_of(samples: Seq<MetricSample>) -> Seq<u64> {
    samples.map_values(|sample: MetricSample| sample.weight)
}

/// The biases of a sequence of samples.
pub open spec fn biases_of(samples: Seq<MetricSample>) -> Seq<u64> {
    samples.map_values(|sample: MetricSample| sample.bias)
}

/// The memory readings of a sequence of samples.
pub open spec fn memory_of(samples: Seq<MetricSample>) -> Seq<u64> {
    samples.map_values(|sample: MetricSample| sample.memory_bytes)
}

/// The elapsed times of a sequence of samples.
pub open spec fn timestamps_of(samples: Seq<MetricSample>) -> Seq<u128> {
    samples.map_values(|sample: MetricSample| sample.elapsed_nanos)
}

impl TrainingResult {
    /// The five series have one length.
    pub open spec fn wf(&self) -> bool {
        &&& self.weights@.len() == self.losses@.len()
        &&& self.biases@.len() == self.losses@.len()
        &&& self.memory_bytes@.len() == self.losses@.len()
        &&& self.timestamps_nanos@.len() == self.losses@.len()
    }

    /// This is the result of a run that ended in `state` after
    /// `execution_nanos` nanoseconds: the parameters are the state's, and
    /// each series holds its metric of every sample, in order.
    pub open spec fn reports(&self, state: RunState, execution_nanos: u128) -> bool {
        &&& self.weight == state.weight
        &&& self.bias == state.bias
        &&& self.execution_nanos == execution_nanos
        &&& self.losses@ == losses_of(state.samples)
        &&& self.weights@ == weights_of(state.samples)
        &&& self.biases@ == biases_of(state.samples)
        &&& self.memory_bytes@ == memory_of(state.samples)
        &&& self.timestamps_nanos@ == timestamps_of(state.samples)
    }
}

/// The initial state of an accepted configuration is one that a run may be
/// in.
pub proof fn lemma_initial_inv(config: TrainingConfig)
    requires
        config_valid(config),
    ensures
        inv(initial(config)),
{
}

/// Taking in an epoch keeps a run that is not over within the states that a
/// run may be in.
pub proof fn lemma_step_inv(state: RunState, event: EpochEvent)
    requires
        inv(state),
        !state.done(),
    ensures
        inv(step(state, event)),
{
    lemma_samples_due_step(state.epoch);
    let next = step(state, event);
    assert forall|position: int| 0 <= position < next.samples.len() implies (
    #[trigger] next.samples[position]).epoch == sample_epoch(position as nat) by {
        if position < state.samples.len() {
            assert(next.samples[position] == state.samples[position]);
        }
    }
}

/// Replaying one more event is one more step.
pub proof fn lemma_replay_push(start: RunState, events: Seq<EpochEvent>, event: EpochEvent)
    ensures
        replay(start, events.push(event)) == step(replay(start, events), event),
{
    assert(events.push(event).drop_last() =~= events);
}

/// Events stepped by a gradient step stay so when one more is appended whose
/// outcome the gradient step returns for the parameters that they left.
pub proof fn lemma_stepped_by_push<S: Fn(u64, u64) -> EpochOutcome>(
    gradient_step: S,
    events: Seq<EpochEvent>,
    event: EpochEvent,
)
    requires
        stepped_by(gradient_step, events),
        gradient_step.ensures((weight_after(events), bias_after(events)), event.outcome),
    ensures
        stepped_by(gradient_step, events.push(event)),
{
    let longer = events.push(event);
    assert forall|epoch: int| 0 <= epoch < longer.len() implies gradient_step.ensures(
        (weight_before(longer, epoch), bias_before(longer, epoch)),
        (#[trigger] longer[epoch]).outcome,
    ) by {
        if epoch < events.len() {
            assert(longer[epoch] == events[epoch]);
            assert(weight_before(longer, epoch) == weight_before(events, epoch));
            assert(bias_before(longer, epoch) == bias_before(events, epoch));
        }
    }
}

/// A run without its probes: the state machine alone, fed with events.
pub struct TrainingRun {
    config: TrainingConfig,
    epoch: usize,
    weight: u64,
    bias: u64,
    samples: Vec<MetricSample>,
}

impl View for TrainingRun {
    type V = RunState;

    closed spec fn view(&self) -> RunState {
        RunState {
            config: self.config,
            epoch: self.epoch as nat,
            weight: self.weight,
            bias: self.bias,
            samples: self.samples@,
        }
    }
}

impl TrainingRun {
    /// The run is in a state that a run may be in.
    pub open spec fn wf(&self) -> bool {
        inv(self@)
    }

    /// Starts a run on a dataset of `input_count` inputs and `target_count`
    /// targets, in the initial state, or refuses inputs that are not valid.
    pub fn new(input_count: usize, target_count: usize, config: TrainingConfig) -> (outcome: Result<
        TrainingRun,
        TrainError,
    >)
        ensures
            match outcome {
                Ok(run) => inputs_valid(input_count as nat, target_count as nat, config)
                    && run.wf() && run@ == initial(config),
                Err(error) => !inputs_valid(input_count as nat, target_count as nat, config)
                    && error == TrainError::InvalidInput,
            },
    {
        match validate(input_count, target_count, &config) {
            Ok(()) => {
                let run = TrainingRun {
                    config,
                    epoch: 0,
                    weight: POSITIVE_ZERO,
                    bias: POSITIVE_ZERO,
                    samples: Vec::new(),
                };
                assert(run@.samples =~= initial(config).samples);
                Ok(run)
            },
            Err(error) => Err(error),
        }
    }

    /// The configuration that the run was started with.
    pub fn config(&self) -> (config: TrainingConfig)
        ensures
            config == self@.config,
    {
        self.config
    }

    /// The number of epochs completed, which is the index of the next one.
    pub fn epoch(&self) -> (epoch: usize)
        ensures
            epoch == self@.epoch,
    {
        self.epoch
    }

    /// Tells whether the run has executed all its epochs.
    pub fn is_done(&self) -> (done: bool)
        ensures
            done == self@.done(),
    {
        self.epoch >= self.config.epoch_count
    }

    /// The current weight, as a bit pattern.
    pub fn weight(&self) -> (weight: u64)
        ensures
            weight == self@.weight,
    {
        self.weight
    }

    /// The current bias, as a bit pattern.
    pub fn bias(&self) -> (bias: u64)
        ensures
            bias == self@.bias,
    {
        self.bias
    }

    /// The samples recorded so far, oldest first.
    pub fn samples(&self) -> (samples: &Vec<MetricSample>)
        ensures
            samples@ == self@.samples,
    {
        &self.samples
    }

    /// Takes in the event of the next epoch and reports on it.
    pub fn record(&mut self, event: EpochEvent) -> (report: EpochReport)
        requires
            old(self).wf(),
            !old(self)@.done(),
        ensures
            final(self).wf(),
            final(self)@ == step(old(self)@, event),
            report == report_for(old(self)@),
    {
        let epoch = self.epoch;
        let sampled = sample_is_due(epoch);
        if sampled {
            self.samples.push(
                MetricSample {
                    epoch,
                    mse: event.outcome.mse,
                    weight: event.outcome.weight,
                    bias: event.outcome.bias,
                    memory_bytes: memory_or_zero(event.memory),
                    elapsed_nanos: event.elapsed_nanos,
                },
            );
        }
        self.weight = event.outcome.weight;
        self.bias = event.outcome.bias;
        self.epoch = epoch + 1;
        proof {
            lemma_step_inv(old(self)@, event);
            assert(self@.samples =~= step(old(self)@, event).samples);
        }
        EpochReport {
            epoch,
            sampled,
            progress_due: progress_is_due(epoch),
            finished: epoch + 1 == self.config.epoch_count,
        }
    }

    /// Ends the run after `execution_nanos` nanoseconds and hands out its
    /// result: the parameters as they stand, and the samples recorded so
    /// far split into the five series.
    pub fn finish(self, execution_nanos: u128) -> (result: TrainingResult)
        requires
            self.wf(),
        ensures
            result.reports(self@, execution_nanos),
            result.wf(),
            result.losses@.len() == samples_due(self@.epoch),
            self@.done() ==> result.losses@.len() == samples_due(self@.config.epoch_count as nat),
    {
        let mut losses: Vec<u64> = Vec::new();
        let mut weights: Vec<u64> = Vec::new();
        let mut biases: Vec<u64> = Vec::new();
        let mut memory_bytes: Vec<u64> = Vec::new();
        let mut timestamps_nanos: Vec<u128> = Vec::new();
        let mut position: usize = 0;
        while position < self.samples.len()
            invariant
                position <= self.samples@.len(),
                losses@ == losses_of(self.samples@.take(position as int)),
                weights@ == weights_of(self.samples@.take(position as int)),
                biases@ == biases_of(self.samples@.take(position as int)),
                memory_bytes@ == memory_of(self.samples@.take(position as int)),
                timestamps_nanos@ == timestamps_of(self.samples@.take(position as int)),
            decreases self.samples@.len() - position,
        {
            let sample = self.samples[position];
            losses.push(sample.mse);
            weights.push(sample.weight);
            biases.push(sample.bias);
            memory_bytes.push(sample.memory_bytes);
            timestamps_nanos.push(sample.elapsed_nanos);
            proof {
                assert(self.samples@.take(position + 1) =~= self.samples@.take(
                    position as int,
                ).push(sample));
            }
            position = position + 1;
        }
        proof {
            assert(self.samples@.take(position as int) =~= self.samples@);
        }
        TrainingResult {
            weight: self.weight,
            bias: self.bias,
            execution_nanos,
            losses,
            weights,
            biases,
            memory_bytes,
            timestamps_nanos,
        }
    }
}

} // verus!
