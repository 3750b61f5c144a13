use seismic_forward::ensemble::{Outcome, RunSchedule, Step};

fn drive(schedule: &mut RunSchedule, fail_at: Option<usize>) -> (Vec<Step>, Step) {
    let mut runs = Vec::new();
    loop {
        let step = schedule.next_step();
        match step {
            Step::Run { index, .. } => {
                runs.push(step);
                let outcome = if fail_at == Some(index) { Outcome::Failed } else { Outcome::Succeeded };
                schedule.record(outcome);
            }
            Step::Finish { .. } => return (runs, step),
        }
    }
}

#[test]
fn monte_carlo_runs_three_realizations_with_noise() {
    let mut schedule = RunSchedule::monte_carlo(false, 3);
    let (runs, finish) = drive(&mut schedule, None);
    assert_eq!(
        runs,
        vec![
            Step::Run { index: 0, add_noise: true },
            Step::Run { index: 1, add_noise: true },
            Step::Run { index: 2, add_noise: true },
        ]
    );
    assert_eq!(finish, Step::Finish { add_noise: false, complete: true });
}

#[test]
fn monte_carlo_restores_setting_after_failure() {
    let mut schedule = RunSchedule::monte_carlo(false, 5);
    let (runs, finish) = drive(&mut schedule, Some(1));
    assert_eq!(runs.len(), 2);
    assert_eq!(finish, Step::Finish { add_noise: false, complete: false });
}

#[test]
fn monte_carlo_keeps_noise_on_when_it_was_on() {
    let mut schedule = RunSchedule::monte_carlo(true, 2);
    let (runs, finish) = drive(&mut schedule, None);
    assert_eq!(runs.len(), 2);
    assert_eq!(finish, Step::Finish { add_noise: true, complete: true });
}

#[test]
fn monte_carlo_with_no_realizations() {
    let schedule = RunSchedule::monte_carlo(false, 0);
    assert_eq!(schedule.next_step(), Step::Finish { add_noise: false, complete: true });
}

#[test]
fn batch_keeps_the_noise_setting() {
    let mut schedule = RunSchedule::batch(false, 2);
    let (runs, finish) = drive(&mut schedule, None);
    assert_eq!(
        runs,
        vec![Step::Run { index: 0, add_noise: false }, Step::Run { index: 1, add_noise: false }]
    );
    assert_eq!(finish, Step::Finish { add_noise: false, complete: true });
}

#[test]
fn batch_stops_at_first_failure() {
    let mut schedule = RunSchedule::batch(true, 4);
    let (runs, finish) = drive(&mut schedule, Some(0));
    assert_eq!(runs, vec![Step::Run { index: 0, add_noise: true }]);
    assert_eq!(finish, Step::Finish { add_noise: true, complete: false });
}

#[test]
fn recording_after_finish_changes_nothing() {
    let mut schedule = RunSchedule::batch(false, 1);
    schedule.record(Outcome::Failed);
    assert_eq!(schedule.next_step(), Step::Finish { add_noise: false, complete: false });
    schedule.record(Outcome::Succeeded);
    assert_eq!(schedule.next_step(), Step::Finish { add_noise: false, complete: false });
}
