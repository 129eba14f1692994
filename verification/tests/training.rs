use std::cell::Cell;

use linear_regression::config::{TrainError, TrainingConfig};
use linear_regression::run::{EpochOutcome, EpochReport, TrainingResult};
use linear_regression::trainer::{train, Trainer};

/// One pass of batch gradient descent over the whole dataset.
fn gradient_step(x: &[f64], y: &[f64], learning_rate: f64, weight: u64, bias: u64) -> EpochOutcome {
    let w = f64::from_bits(weight);
    let b = f64::from_bits(bias);
    let m = x.len() as f64;
    let error: Vec<f64> = x.iter().zip(y.iter()).map(|(&xi, &yi)| (w * xi + b) - yi).collect();
    let dw = (2.0 / m) * error.iter().zip(x.iter()).map(|(&e, &xi)| e * xi).sum::<f64>();
    let db = (2.0 / m) * error.iter().sum::<f64>();
    let mse = error.iter().map(|&e| e * e).sum::<f64>() / m;
    EpochOutcome {
        mse: mse.to_bits(),
        weight: (w - learning_rate * dw).to_bits(),
        bias: (b - learning_rate * db).to_bits(),
    }
}

fn exact_line() -> (Vec<f64>, Vec<f64>) {
    (vec![1.0, 2.0, 3.0, 4.0, 5.0], vec![2.0, 4.0, 6.0, 8.0, 10.0])
}

fn fit(x: &[f64], y: &[f64], learning_rate: f64, epoch_count: usize) -> TrainingResult {
    let config = TrainingConfig { learning_rate: learning_rate.to_bits(), epoch_count };
    train(
        x.len(),
        y.len(),
        config,
        |weight: u64, bias: u64| gradient_step(x, y, learning_rate, weight, bias),
        |_report: EpochReport, _outcome: EpochOutcome| {},
    )
    .unwrap()
}

fn mean_squared_error(x: &[f64], y: &[f64], weight: f64, bias: f64) -> f64 {
    x.iter().zip(y.iter()).map(|(&xi, &yi)| (weight * xi + bias - yi).powi(2)).sum::<f64>()
        / x.len() as f64
}

#[test]
fn training_returns_series_of_one_length() {
    let (x, y) = exact_line();
    for (epoch_count, expected) in [(1, 1), (50, 1), (51, 2), (240, 5), (1000, 20)] {
        let result = fit(&x, &y, 0.01, epoch_count);
        assert_eq!(result.losses.len(), expected);
        assert_eq!(result.weights.len(), expected);
        assert_eq!(result.biases.len(), expected);
        assert_eq!(result.memory_bytes.len(), expected);
        assert_eq!(result.timestamps_nanos.len(), expected);
    }
}

#[test]
fn training_twice_gives_bit_identical_parameters_and_losses() {
    let (x, y) = exact_line();
    let first = fit(&x, &y, 0.01, 1000);
    let second = fit(&x, &y, 0.01, 1000);
    assert_eq!(first.weight, second.weight);
    assert_eq!(first.bias, second.bias);
    assert_eq!(first.losses, second.losses);
    assert_eq!(first.weights, second.weights);
    assert_eq!(first.biases, second.biases);
}

#[test]
fn training_converges_on_an_exact_line() {
    let (x, y) = exact_line();
    let result = fit(&x, &y, 0.01, 1000);
    let weight = f64::from_bits(result.weight);
    let bias = f64::from_bits(result.bias);
    assert!((weight - 2.0).abs() < 0.05, "weight {weight}");
    assert!(bias.abs() < 0.05, "bias {bias}");
    assert!(mean_squared_error(&x, &y, weight, bias) < 0.01);
    assert!(f64::from_bits(result.losses[19]) < 0.01);
}

#[test]
fn sampled_losses_do_not_increase() {
    let (x, y) = exact_line();
    let result = fit(&x, &y, 0.01, 1000);
    let losses: Vec<f64> = result.losses.iter().map(|&bits| f64::from_bits(bits)).collect();
    for pair in losses.windows(2) {
        assert!(pair[1] <= pair[0] + 1e-12, "{} then {}", pair[0], pair[1]);
    }
    assert!(losses[19] < losses[0]);
}

#[test]
fn sampled_losses_do_not_increase_on_a_shifted_line() {
    let x = vec![-2.0, -1.0, 0.0, 1.0, 2.0, 3.0];
    let y: Vec<f64> = x.iter().map(|&xi| -1.5 * xi + 4.0).collect();
    let result = fit(&x, &y, 0.005, 600);
    let losses: Vec<f64> = result.losses.iter().map(|&bits| f64::from_bits(bits)).collect();
    assert_eq!(losses.len(), 12);
    for pair in losses.windows(2) {
        assert!(pair[1] <= pair[0] + 1e-12, "{} then {}", pair[0], pair[1]);
    }
}

#[test]
fn one_epoch_leaves_one_sample_of_a_single_step_from_zero() {
    let (x, y) = exact_line();
    let result = fit(&x, &y, 0.01, 1);
    assert_eq!(result.losses.len(), 1);
    assert_eq!(result.weights.len(), 1);
    assert_eq!(result.biases.len(), 1);
    assert_eq!(result.memory_bytes.len(), 1);
    assert_eq!(result.timestamps_nanos.len(), 1);
    let step = gradient_step(&x, &y, 0.01, 0.0f64.to_bits(), 0.0f64.to_bits());
    assert_eq!(result.weight, step.weight);
    assert_eq!(result.bias, step.bias);
    assert_eq!(result.weights[0], step.weight);
    assert_eq!(result.biases[0], step.bias);
    assert_eq!(result.losses[0], step.mse);
    assert!((f64::from_bits(result.weight) - 0.44).abs() < 1e-12);
    assert!((f64::from_bits(result.bias) - 0.12).abs() < 1e-12);
    assert_eq!(f64::from_bits(result.losses[0]), 44.0);
}

#[test]
fn sample_pairs_the_loss_before_the_step_with_the_parameters_after_it() {
    let (x, y) = exact_line();
    let result = fit(&x, &y, 0.01, 51);
    // Replay the first fifty-one epochs by hand.
    let mut weight = 0.0f64.to_bits();
    let mut bias = 0.0f64.to_bits();
    let mut outcomes = Vec::new();
    for _ in 0..51 {
        let outcome = gradient_step(&x, &y, 0.01, weight, bias);
        weight = outcome.weight;
        bias = outcome.bias;
        outcomes.push(outcome);
    }
    assert_eq!(result.losses, vec![outcomes[0].mse, outcomes[50].mse]);
    assert_eq!(result.weights, vec![outcomes[0].weight, outcomes[50].weight]);
    assert_eq!(result.biases, vec![outcomes[0].bias, outcomes[50].bias]);
    let before = (f64::from_bits(outcomes[49].weight), f64::from_bits(outcomes[49].bias));
    assert_eq!(f64::from_bits(result.losses[1]), {
        let m = x.len() as f64;
        x.iter()
            .zip(y.iter())
            .map(|(&xi, &yi)| (before.0 * xi + before.1) - yi)
            .map(|e| e * e)
            .sum::<f64>()
            / m
    });
    assert_eq!(result.weight, outcomes[50].weight);
    assert_eq!(result.bias, outcomes[50].bias);
}

#[test]
fn mismatched_lengths_are_refused_before_any_step() {
    let steps = Cell::new(0usize);
    let config = TrainingConfig { learning_rate: 0.01f64.to_bits(), epoch_count: 1000 };
    let outcome = train(
        3,
        4,
        config,
        |weight: u64, bias: u64| {
            steps.set(steps.get() + 1);
            EpochOutcome { mse: 0, weight, bias }
        },
        |_report: EpochReport, _outcome: EpochOutcome| {},
    );
    assert_eq!(outcome, Err(TrainError::InvalidInput));
    assert_eq!(steps.get(), 0);
}

#[test]
fn every_invalid_input_is_refused() {
    let refuse = |input_count: usize, target_count: usize, learning_rate: f64, epoch_count: usize| {
        let config = TrainingConfig { learning_rate: learning_rate.to_bits(), epoch_count };
        train(
            input_count,
            target_count,
            config,
            |weight: u64, bias: u64| EpochOutcome { mse: 0, weight, bias },
            |_report: EpochReport, _outcome: EpochOutcome| {},
        )
    };
    assert_eq!(refuse(0, 0, 0.01, 10), Err(TrainError::InvalidInput));
    assert_eq!(refuse(2, 1, 0.01, 10), Err(TrainError::InvalidInput));
    assert_eq!(refuse(2, 2, 0.0, 10), Err(TrainError::InvalidInput));
    assert_eq!(refuse(2, 2, -1.0, 10), Err(TrainError::InvalidInput));
    assert_eq!(refuse(2, 2, f64::NAN, 10), Err(TrainError::InvalidInput));
    assert_eq!(refuse(2, 2, 0.01, 0), Err(TrainError::InvalidInput));
    assert!(refuse(2, 2, 0.01, 10).is_ok());
}

#[test]
fn training_runs_exactly_the_epochs_asked_for() {
    let steps = Cell::new(0usize);
    let config = TrainingConfig { learning_rate: 0.01f64.to_bits(), epoch_count: 437 };
    let result = train(
        2,
        2,
        config,
        |_weight: u64, _bias: u64| {
            steps.set(steps.get() + 1);
            EpochOutcome { mse: 1, weight: steps.get() as u64, bias: 2 * steps.get() as u64 }
        },
        |_report: EpochReport, _outcome: EpochOutcome| {},
    )
    .unwrap();
    assert_eq!(steps.get(), 437);
    assert_eq!(result.weight, 437);
    assert_eq!(result.bias, 874);
    assert_eq!(result.weights, vec![1, 51, 101, 151, 201, 251, 301, 351, 401]);
}

#[test]
fn each_step_starts_from_the_parameters_of_the_previous_one() {
    let config = TrainingConfig { learning_rate: 0.01f64.to_bits(), epoch_count: 101 };
    let result = train(
        2,
        2,
        config,
        |weight: u64, bias: u64| EpochOutcome { mse: weight + bias, weight: weight + 1, bias: bias + 3 },
        |_report: EpochReport, _outcome: EpochOutcome| {},
    )
    .unwrap();
    assert_eq!(result.weight, 101);
    assert_eq!(result.bias, 303);
    assert_eq!(result.losses, vec![0, 200, 400]);
    assert_eq!(result.weights, vec![1, 51, 101]);
    assert_eq!(result.biases, vec![3, 153, 303]);
}

#[test]
fn progress_is_announced_after_every_two_hundredth_epoch() {
    let announced = std::cell::RefCell::new(Vec::new());
    let config = TrainingConfig { learning_rate: 0.01f64.to_bits(), epoch_count: 650 };
    train(
        2,
        2,
        config,
        |weight: u64, bias: u64| EpochOutcome { mse: 5, weight: weight + 1, bias },
        |report: EpochReport, outcome: EpochOutcome| {
            announced.borrow_mut().push((report.epoch, outcome.weight));
        },
    )
    .unwrap();
    assert_eq!(*announced.borrow(), vec![(199, 200), (399, 400), (599, 600)]);
}

#[test]
fn timestamps_do_not_run_backwards() {
    let (x, y) = exact_line();
    let result = fit(&x, &y, 0.01, 500);
    for pair in result.timestamps_nanos.windows(2) {
        assert!(pair[0] <= pair[1]);
    }
    assert!(*result.timestamps_nanos.last().unwrap() <= result.execution_nanos);
}

#[test]
fn trainer_goes_through_its_epochs_one_by_one() {
    let config = TrainingConfig { learning_rate: 0.01f64.to_bits(), epoch_count: 2 };
    let mut trainer = Trainer::new(3, 3, config).unwrap();
    assert_eq!(trainer.run().epoch(), 0);
    assert_eq!(trainer.run().weight(), 0);
    assert_eq!(trainer.run().bias(), 0);

    trainer.begin_epoch();
    assert_eq!(trainer.run().epoch(), 0);
    let report = trainer.end_epoch(EpochOutcome { mse: 9, weight: 8, bias: 7 });
    assert_eq!(report, EpochReport { epoch: 0, sampled: true, progress_due: false, finished: false });
    assert_eq!(trainer.run().weight(), 8);
    assert_eq!(trainer.run().bias(), 7);
    assert_eq!(trainer.run().samples().len(), 1);
    assert_eq!(trainer.run().samples()[0].epoch, 0);
    assert_eq!(trainer.run().samples()[0].mse, 9);

    trainer.begin_epoch();
    let report = trainer.end_epoch(EpochOutcome { mse: 6, weight: 5, bias: 4 });
    assert_eq!(report, EpochReport { epoch: 1, sampled: false, progress_due: false, finished: true });
    assert!(trainer.run().is_done());

    let result = trainer.finish();
    assert_eq!(result.weight, 5);
    assert_eq!(result.bias, 4);
    assert_eq!(result.losses, vec![9]);
    assert_eq!(result.weights, vec![8]);
    assert_eq!(result.biases, vec![7]);
}

#[test]
fn trainer_on_invalid_inputs_is_refused() {
    let config = TrainingConfig { learning_rate: 0.01f64.to_bits(), epoch_count: 1000 };
    assert_eq!(Trainer::new(3, 4, config).err(), Some(TrainError::InvalidInput));
}

#[test]
fn memory_reads_as_zero_before_the_first_refresh() {
    let config = TrainingConfig { learning_rate: 0.01f64.to_bits(), epoch_count: 1 };
    let mut trainer = Trainer::new(3, 3, config).unwrap();
    trainer.end_epoch(EpochOutcome { mse: 9, weight: 8, bias: 7 });
    assert_eq!(trainer.run().samples()[0].memory_bytes, 0);
    let result = trainer.finish();
    assert_eq!(result.memory_bytes, vec![0]);
}

#[test]
fn memory_is_read_exactly_where_the_system_shows_the_process() {
    let mut system = sysinfo::System::new();
    system.refresh_all();
    let shown = match sysinfo::get_current_pid() {
        Ok(pid) => system.process(pid).is_some(),
        Err(_) => false,
    };
    let config = TrainingConfig { learning_rate: 0.01f64.to_bits(), epoch_count: 1 };
    let mut trainer = Trainer::new(3, 3, config).unwrap();
    trainer.begin_epoch();
    trainer.end_epoch(EpochOutcome { mse: 9, weight: 8, bias: 7 });
    let memory_bytes = trainer.run().samples()[0].memory_bytes;
    assert_eq!(memory_bytes > 0, shown);
}

#[test]
fn elapsed_time_of_a_sample_is_within_the_time_of_the_run() {
    let config = TrainingConfig { learning_rate: 0.01f64.to_bits(), epoch_count: 1 };
    let mut trainer = Trainer::new(3, 3, config).unwrap();
    trainer.begin_epoch();
    trainer.end_epoch(EpochOutcome { mse: 9, weight: 8, bias: 7 });
    let sampled_at = trainer.run().samples()[0].elapsed_nanos;
    let result = trainer.finish();
    assert_eq!(result.timestamps_nanos, vec![sampled_at]);
    assert!(sampled_at <= result.execution_nanos);
}
