//! A run together with its probes: the trainer reads the clock and the
//! process memory itself and feeds the run with what it read.

use vstd::prelude::*;
use crate::binary64::POSITIVE_ZERO;
use crate::cadence::samples_due;
use crate::config::{config_valid, inputs_valid, TrainError, TrainingConfig};
use crate::laws::law_run_state;
use crate::probe::{MemoryProbe, Stopwatch};
use crate::run::{
    initial,
    inv,
    lemma_replay_push,
    lemma_stepped_by_push,
    report_for,
    run_of,
    step,
    stepped_by,
    EpochEvent,
    EpochOutcome,
    EpochReport,
    RunState,
    TrainingResult,
    TrainingRun,
};

verus! {

/// A training run that times itself and samples the memory of its process.
///
/// Each epoch goes in three moves: `begin_epoch`, then the caller's gradient
/// step from `run().weight()` and `run().bias()`, then `end_epoch` with the
/// outcome of that step.
pub struct Trainer {
    run: TrainingRun,
    probe: MemoryProbe,
    clock: Stopwatch,
}

impl View for Trainer {
    type V = RunState;

    closed spec fn view(&self) -> RunState {
        self.run@
    }
}

impl Trainer {
    /// The trainer is in a state that a run may be in.
    pub open spec fn wf(&self) -> bool {
        inv(self@)
    }

    /// Starts the clock and a run on a dataset of `input_count` inputs and
    /// `target_count` targets, or refuses inputs that are not valid.
    pub fn new(input_count: usize, target_count: usize, config: TrainingConfig) -> (outcome: Result<
        Trainer,
        TrainError,
    >)
        ensures
            match outcome {
                Ok(trainer) => inputs_valid(input_count as nat, target_count as nat, config)
                    && trainer.wf() && trainer@ == initial(config),
                Err(error) => !inputs_valid(input_count as nat, target_count as nat, config)
                    && error == TrainError::InvalidInput,
            },
    {
        match TrainingRun::new(input_count, target_count, config) {
            Ok(run) => {
                let clock = Stopwatch::start();
                let probe = MemoryProbe::new();
                Ok(Trainer { run, probe, clock })
            },
            Err(error) => Err(error),
        }
    }

    /// The run as it stands.
    pub fn run(&self) -> (run: &TrainingRun)
        ensures
            run@ == self@,
    {
        &self.run
    }

    /// Opens the next epoch: reloads what the memory probe looks into. The
    /// run is left as it was.
    pub fn begin_epoch(&mut self)
        ensures
            final(self)@ == old(self)@,
    {
        self.probe.refresh();
    }

    /// Closes the epoch with the outcome of its gradient step: reads the
    /// elapsed time and the memory of the process, and has the run take the
    /// three in as its next event. Whatever the probes returned, the run
    /// moves by one step on an event with this outcome, and the report is
    /// the one for the epoch.
    pub fn end_epoch(&mut self, outcome: EpochOutcome) -> (report: EpochReport)
        requires
            old(self).wf(),
            !old(self)@.done(),
        ensures
            final(self).wf(),
            exists|memory: Option<u64>, elapsed_nanos: u128|
                final(self)@ == #[trigger] step(
                    old(self)@,
                    (EpochEvent { outcome, memory, elapsed_nanos }),
                ),
            report == report_for(old(self)@),
    {
        let elapsed_nanos = self.clock.elapsed_nanos();
        let memory = self.probe.read();
        self.run.record(EpochEvent { outcome, memory, elapsed_nanos })
    }

    /// Ends the run, reads its whole duration off the clock, and hands out
    /// the result. Whatever the clock returned, the result reports the state
    /// that the run ended in.
    pub fn finish(self) -> (result: TrainingResult)
        requires
            self.wf(),
        ensures
            exists|execution_nanos: u128| #[trigger] result.reports(self@, execution_nanos),
            result.wf(),
            result.losses@.len() == samples_due(self@.epoch),
            self@.done() ==> result.losses@.len() == samples_due(
                self@.config.epoch_count as nat,
            ),
    {
        let execution_nanos = self.clock.elapsed_nanos();
        self.run.finish(execution_nanos)
    }
}

/// Trains: runs `gradient_step` once per epoch, for exactly the number of
/// epochs that `config` asks for, each time from the parameters that the
/// previous epoch left, and returns the final parameters with the metric
/// series. `announce` is called after every epoch at which progress is due.
///
/// `gradient_step` has to accept zero parameters and whatever parameters it
/// returns; `announce` has to accept the reports on which progress is due.
///
/// Inputs that are not valid are refused before anything else happens. For
/// valid inputs the result is that of a run over one event per epoch, whose
/// outcomes are those that `gradient_step` returned, in order, and each
/// series has as many entries as the epoch count divided by the sample
/// interval, rounded up.
pub fn train<S, A>(
    input_count: usize,
    target_count: usize,
    config: TrainingConfig,
    gradient_step: S,
    announce: A,
) -> (outcome: Result<TrainingResult, TrainError>) where
    S: Fn(u64, u64) -> EpochOutcome,
    A: Fn(EpochReport, EpochOutcome),

    requires
        gradient_step.requires((POSITIVE_ZERO, POSITIVE_ZERO)),
        forall|weight: u64, bias: u64, outcome: EpochOutcome| #[trigger]
            gradient_step.ensures((weight, bias), outcome) ==> gradient_step.requires(
                (outcome.weight, outcome.bias),
            ),
        forall|report: EpochReport, outcome: EpochOutcome|
            report.progress_due ==> #[trigger] announce.requires((report, outcome)),
    ensures
        match outcome {
            Ok(result) => {
                &&& inputs_valid(input_count as nat, target_count as nat, config)
                &&& result.wf()
                &&& result.losses@.len() == samples_due(config.epoch_count as nat)
                &&& exists|events: Seq<EpochEvent>, execution_nanos: u128|
                    {
                        &&& events.len() == config.epoch_count
                        &&& stepped_by(gradient_step, events)
                        &&& #[trigger] result.reports(run_of(config, events), execution_nanos)
                    }
            },
            Err(error) => !inputs_valid(input_count as nat, target_count as nat, config) && error
                == TrainError::InvalidInput,
        },
{
    match Trainer::new(input_count, target_count, config) {
        Ok(trainer) => {
            let mut trainer = trainer;
            let ghost mut events: Seq<EpochEvent> = Seq::empty();
            while !trainer.run().is_done()
                invariant
                    config_valid(config),
                    trainer.wf(),
                    trainer@ == run_of(config, events),
                    events.len() <= config.epoch_count,
                    stepped_by(gradient_step, events),
                    gradient_step.requires((trainer@.weight, trainer@.bias)),
                    forall|weight: u64, bias: u64, outcome: EpochOutcome| #[trigger]
                        gradient_step.ensures((weight, bias), outcome) ==> gradient_step.requires(
                            (outcome.weight, outcome.bias),
                        ),
                    forall|report: EpochReport, outcome: EpochOutcome|
                        report.progress_due ==> #[trigger] announce.requires((report, outcome)),
                decreases config.epoch_count - events.len(),
            {
                proof {
                    law_run_state(config, events);
                }
                let ghost before = trainer@;
                trainer.begin_epoch();
                let outcome = gradient_step(trainer.run().weight(), trainer.run().bias());
                let report = trainer.end_epoch(outcome);
                proof {
                    let (memory, elapsed_nanos) = choose|memory: Option<u64>, elapsed_nanos: u128|
                        trainer@ == #[trigger] step(
                            before,
                            (EpochEvent { outcome, memory, elapsed_nanos }),
                        );
                    let event = EpochEvent { outcome, memory, elapsed_nanos };
                    lemma_stepped_by_push(gradient_step, events, event);
                    lemma_replay_push(initial(config), events, event);
                    events = events.push(event);
                }
                if report.progress_due {
                    announce(report, outcome);
                }
            }
            proof {
                law_run_state(config, events);
            }
            Ok(trainer.finish())
        },
        Err(error) => Err(error),
    }
}

} // verus!
