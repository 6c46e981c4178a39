use learners::{Phase, Run};

#[test]
fn run_with_zero_cap_never_starts() {
    let run = Run::new(0);
    assert!(!run.is_running());
    assert_eq!(run.phase, Phase::MaxIterationsReached);
    assert_eq!(run.rounds, 0);
}

#[test]
fn run_stops_at_cap() {
    let mut run = Run::new(3);
    let mut rounds = 0;
    while run.is_running() {
        run.record_round(false);
        rounds += 1;
    }
    assert_eq!(rounds, 3);
    assert_eq!(run.rounds, 3);
    assert_eq!(run.phase, Phase::MaxIterationsReached);
}

#[test]
fn run_stops_on_first_converged_round() {
    let mut run = Run::new(100);
    run.record_round(false);
    run.record_round(false);
    assert!(run.is_running());
    run.record_round(true);
    assert!(!run.is_running());
    assert_eq!(run.phase, Phase::Converged);
    assert_eq!(run.rounds, 3);
}

#[test]
fn run_converging_on_last_round_counts_as_converged() {
    let mut run = Run::new(1);
    run.record_round(true);
    assert_eq!(run.phase, Phase::Converged);
    assert_eq!(run.rounds, 1);
}
