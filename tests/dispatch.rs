use approx_host::dispatch::{worker_command, Action, Dispatcher, Event, Phase, DEFAULT_WORKER};

#[test]
fn missing_command_runs_the_default_worker() {
    assert_eq!(vec![DEFAULT_WORKER.to_string()], worker_command(Vec::new()));
    assert_eq!("/usr/sbin/approx", DEFAULT_WORKER);
}

#[test]
fn given_command_is_kept() {
    let given = vec!["cat".to_string(), "-u".to_string()];
    assert_eq!(given.clone(), worker_command(given));
}

#[test]
fn connection_runs_through_to_a_worker() {
    let mut d = Dispatcher::new();
    assert_eq!(Action::Accept, d.next_action());
    assert_eq!(Action::Duplicate, d.step(Event::Accepted));
    assert_eq!(Phase::Duplicating, d.phase());
    assert_eq!(Action::Spawn, d.step(Event::Duplicated));
    assert_eq!(Action::Reap, d.step(Event::Spawned));
    assert_eq!(Phase::Accepting, d.phase());
    assert_eq!(Action::Accept, d.next_action());
}

#[test]
fn second_connection_is_taken_while_first_worker_runs() {
    let mut d = Dispatcher::new();
    d.step(Event::Accepted);
    d.step(Event::Duplicated);
    assert_eq!(Action::Reap, d.step(Event::Spawned));
    assert_eq!(Action::Duplicate, d.step(Event::Accepted));
    assert_eq!(Action::Spawn, d.step(Event::Duplicated));
    assert_eq!(Action::Reap, d.step(Event::Spawned));
}

#[test]
fn each_connection_gets_one_worker() {
    let mut d = Dispatcher::new();
    let mut reaped = 0;
    for _ in 0..5 {
        d.step(Event::Accepted);
        d.step(Event::Duplicated);
        if d.step(Event::Spawned) == Action::Reap {
            reaped += 1;
        }
    }
    assert_eq!(5, reaped);
}

#[test]
fn failed_duplication_refuses_only_that_connection() {
    let mut d = Dispatcher::new();
    d.step(Event::Accepted);
    assert_eq!(Action::Refuse, d.step(Event::DuplicationFailed));
    assert_eq!(Phase::Accepting, d.phase());
    assert_eq!(Action::Duplicate, d.step(Event::Accepted));
}

#[test]
fn failed_spawn_refuses_only_that_connection() {
    let mut d = Dispatcher::new();
    d.step(Event::Accepted);
    d.step(Event::Duplicated);
    assert_eq!(Action::Refuse, d.step(Event::SpawnFailed));
    assert_eq!(Action::Accept, d.next_action());
}

#[test]
fn accept_failure_is_fatal() {
    let mut d = Dispatcher::new();
    assert_eq!(Action::Terminate, d.step(Event::AcceptFailed));
    assert_eq!(Phase::Stopped, d.phase());
    assert_eq!(Action::Terminate, d.step(Event::Accepted));
}

#[test]
fn event_out_of_turn_repeats_the_due_action() {
    let mut d = Dispatcher::new();
    assert_eq!(Action::Accept, d.step(Event::Spawned));
    d.step(Event::Accepted);
    assert_eq!(Action::Duplicate, d.step(Event::Accepted));
    assert_eq!(Phase::Duplicating, d.phase());
}
