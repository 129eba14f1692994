use linear_regression::cadence::{
    progress_is_due, sample_count, sample_is_due, PROGRESS_INTERVAL, SAMPLE_INTERVAL,
};

#[test]
fn intervals_are_fifty_and_two_hundred() {
    assert_eq!(SAMPLE_INTERVAL, 50);
    assert_eq!(PROGRESS_INTERVAL, 200);
}

#[test]
fn sample_count_rounds_up() {
    assert_eq!(sample_count(0), 0);
    assert_eq!(sample_count(1), 1);
    assert_eq!(sample_count(49), 1);
    assert_eq!(sample_count(50), 1);
    assert_eq!(sample_count(51), 2);
    assert_eq!(sample_count(100), 2);
    assert_eq!(sample_count(101), 3);
    assert_eq!(sample_count(1000), 20);
    assert_eq!(sample_count(1001), 21);
}

#[test]
fn sample_count_of_the_largest_epoch_count_does_not_overflow() {
    let expected = usize::MAX / 50 + if usize::MAX % 50 == 0 { 0 } else { 1 };
    assert_eq!(sample_count(usize::MAX), expected);
}

#[test]
fn every_fiftieth_epoch_is_sampled_from_epoch_zero() {
    assert!(sample_is_due(0));
    assert!(!sample_is_due(1));
    assert!(!sample_is_due(49));
    assert!(sample_is_due(50));
    assert!(!sample_is_due(51));
    assert!(sample_is_due(950));
    assert!(!sample_is_due(999));
}

#[test]
fn progress_is_due_after_every_two_hundredth_epoch() {
    assert!(!progress_is_due(0));
    assert!(!progress_is_due(198));
    assert!(progress_is_due(199));
    assert!(!progress_is_due(200));
    assert!(progress_is_due(399));
    assert!(progress_is_due(999));
    assert!(!progress_is_due(usize::MAX));
}

#[test]
fn sample_count_agrees_with_counting_sampled_epochs() {
    for epochs in 0..400usize {
        let counted = (0..epochs).filter(|&epoch| sample_is_due(epoch)).count();
        assert_eq!(sample_count(epochs), counted);
    }
}
