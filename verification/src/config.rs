//! The configuration of a run and the validation of its inputs.

use vstd::prelude::*;
use crate::binary64::{greater_than_zero, is_greater_than_zero};

verus! {

/// How a run is to be carried out. Fixed for the whole run.
#[derive(Clone, Copy, Debug, PartialEq, Eq)]
pub struct TrainingConfig {
    /// The step size, as a binary64 bit pattern.
    pub learning_rate: u64,
    /// The number of epochs that the run executes.
    pub epoch_count: usize,
}

/// Why a run was refused.
#[derive(Clone, Copy, Debug, PartialEq, Eq)]
pub enum TrainError {
    /// The inputs and the targets differ in number, there are none, the
    /// learning rate is not greater than zero, or no epoch is asked for.
    InvalidInput,
}

/// A configuration that a run accepts: a learning rate greater than zero
/// and at least one epoch.
pub open spec fn config_valid(config: TrainingConfig) -> bool {
    greater_than_zero(config.learning_rate) && config.epoch_count >= 1
}

/// The inputs that a run accepts: as many targets as inputs, at least one
/// of each, and a configuration that a run accepts.
pub open spec fn inputs_valid(input_count: nat, target_count: nat, config: TrainingConfig) -> bool {
    &&& input_count == target_count
    &&& input_count >= 1
    &&& config_valid(config)
}

/// Admits the inputs of a run, given the number of inputs and of targets in
/// the dataset, or refuses them as invalid.
pub fn validate(input_count: usize, target_count: usize, config: &TrainingConfig) -> (outcome:
    Result<(), TrainError>)
    ensures
        outcome is Ok <==> inputs_valid(input_count as nat, target_count as nat, *config),
        outcome is Err ==> outcome == Err::<(), TrainError>(TrainError::InvalidInput),
{
    if input_count != target_count || input_count == 0 {
        return Err(TrainError::InvalidInput);
    }
    if !is_greater_than_zero(config.learning_rate) || config.epoch_count == 0 {
        return Err(TrainError::InvalidInput);
    }
    Ok(())
}

} // verus!
