use git_pipeline::chain::{Chain, ChainError, ChainResult, Terminus};
use git_pipeline::commands::Stage;
use git_pipeline::run::{Action, ChainRun, Event, StdinSource, StdoutTarget};

fn stage(program: &str) -> Stage {
    Stage { program: program.to_string(), args: Vec::new() }
}

fn chain(programs: &[&str], terminus: Terminus) -> Chain {
    Chain { stages: programs.iter().map(|program| stage(program)).collect(), terminus }
}

fn start(programs: &[&str], terminus: Terminus) -> ChainRun {
    match ChainRun::new(chain(programs, terminus)) {
        Some(run) => run,
        None => panic!("a chain has a stage"),
    }
}

/// Feeds the events one by one and returns the run with every action it
/// turned to on the way, the first one included.
fn feed(run: ChainRun, events: Vec<Event>) -> (ChainRun, Vec<Action>) {
    let mut run = run;
    let mut actions = vec![run.action()];
    for event in events {
        run = run.step(event);
        actions.push(run.action());
    }
    (run, actions)
}

fn launch(stage: usize, stdout: StdoutTarget) -> Action {
    let stdin = if stage == 0 {
        StdinSource::Inherit
    } else {
        StdinSource::Upstream { stage: stage - 1 }
    };
    Action::Launch { stage, stdin, stdout }
}

fn waited(exit_status: i32) -> Event {
    Event::Waited { exit_status }
}

#[test]
fn a_plan_without_stages_is_no_chain() {
    assert!(ChainRun::new(chain(&[], Terminus::Capture)).is_none());
    assert!(ChainRun::new(chain(&[], Terminus::Inherit)).is_none());
}

#[test]
fn a_run_starts_with_the_first_stage() {
    let run = start(&["a", "b"], Terminus::Capture);
    assert_eq!(run.action(), launch(0, StdoutTarget::Capture));
    assert!(!run.is_finished());
    assert_eq!(run.stage_count(), 2);
    assert_eq!(run.stage(1), Some(&stage("b")));
    assert_eq!(run.stage(2), None);
    assert!(run.captured().is_empty());
    assert_eq!(run.outcome(), None);
}

#[test]
fn passthrough_of_one_stage() {
    let run = start(&["git"], Terminus::Inherit);
    let (run, actions) = feed(run, vec![Event::Launched, waited(0)]);
    assert_eq!(
        actions,
        vec![launch(0, StdoutTarget::Inherit), Action::Wait { stage: 0 }, Action::Finish]
    );
    assert!(run.is_finished());
    assert_eq!(run.outcome(), Some(Ok(ChainResult::Passthrough { exit_status: 0 })));
}

#[test]
fn passthrough_reports_exit_code_seven() {
    let (run, _) = feed(start(&["git"], Terminus::Inherit), vec![Event::Launched, waited(7)]);
    assert_eq!(run.outcome(), Some(Ok(ChainResult::Passthrough { exit_status: 7 })));
}

#[test]
fn passthrough_that_cannot_start() {
    let (run, actions) = feed(start(&["nope"], Terminus::Inherit), vec![Event::LaunchFailed]);
    assert_eq!(actions, vec![launch(0, StdoutTarget::Inherit), Action::Finish]);
    assert_eq!(run.outcome(), Some(Err(ChainError::Spawn { program: "nope".to_string() })));
}

#[test]
fn passthrough_of_a_longer_chain_inherits_only_at_the_end() {
    let (run, actions) = feed(
        start(&["a", "b"], Terminus::Inherit),
        vec![Event::Launched, Event::Launched, waited(2), waited(0)],
    );
    assert_eq!(
        actions,
        vec![
            launch(0, StdoutTarget::Capture),
            launch(1, StdoutTarget::Inherit),
            Action::Wait { stage: 1 },
            Action::Wait { stage: 0 },
            Action::Finish,
        ]
    );
    assert_eq!(run.outcome(), Some(Ok(ChainResult::Passthrough { exit_status: 2 })));
}

#[test]
fn collecting_chain_of_three_stages() {
    let (run, actions) = feed(
        start(&["a", "b", "c"], Terminus::Capture),
        vec![
            Event::Launched,
            Event::Launched,
            Event::Launched,
            Event::Drained { stdout: b"3\n".to_vec() },
            waited(0),
            waited(0),
            waited(0),
        ],
    );
    assert_eq!(
        actions,
        vec![
            launch(0, StdoutTarget::Capture),
            launch(1, StdoutTarget::Capture),
            launch(2, StdoutTarget::Capture),
            Action::Drain { stage: 2 },
            Action::Wait { stage: 2 },
            Action::Wait { stage: 1 },
            Action::Wait { stage: 0 },
            Action::Finish,
        ]
    );
    assert_eq!(
        run.outcome(),
        Some(Ok(ChainResult::Collected { captured_stdout: b"3\n".to_vec(), exit_status: 0 }))
    );
}

#[test]
fn captured_bytes_are_kept_as_they_came() {
    let bytes: Vec<u8> = vec![0, 255, 10, 13, 0, 128];
    let run = start(&["a"], Terminus::Capture);
    let run = run.step(Event::Launched).step(Event::Drained { stdout: bytes.clone() });
    assert_eq!(run.captured(), &bytes);
    let run = run.step(waited(0));
    assert_eq!(
        run.outcome(),
        Some(Ok(ChainResult::Collected { captured_stdout: bytes, exit_status: 0 }))
    );
}

#[test]
fn exit_status_is_that_of_the_last_stage() {
    let (run, _) = feed(
        start(&["a", "b"], Terminus::Capture),
        vec![
            Event::Launched,
            Event::Launched,
            Event::Drained { stdout: b"partial".to_vec() },
            waited(0),
            waited(1),
        ],
    );
    assert_eq!(
        run.outcome(),
        Some(Ok(ChainResult::Collected { captured_stdout: b"partial".to_vec(), exit_status: 0 }))
    );
}

#[test]
fn failing_last_stage_still_hands_out_what_was_captured() {
    let (run, _) = feed(
        start(&["a", "b"], Terminus::Capture),
        vec![
            Event::Launched,
            Event::Launched,
            Event::Drained { stdout: b"half".to_vec() },
            waited(5),
            waited(0),
        ],
    );
    assert_eq!(
        run.outcome(),
        Some(Ok(ChainResult::Collected { captured_stdout: b"half".to_vec(), exit_status: 5 }))
    );
}

#[test]
fn upstream_status_changes_nothing() {
    let events = |upstream: i32| {
        vec![
            Event::Launched,
            Event::Launched,
            Event::Drained { stdout: b"x".to_vec() },
            waited(0),
            waited(upstream),
        ]
    };
    let (clean, clean_actions) = feed(start(&["a", "b"], Terminus::Capture), events(0));
    let (broken, broken_actions) = feed(start(&["a", "b"], Terminus::Capture), events(141));
    assert_eq!(clean_actions, broken_actions);
    assert_eq!(clean.outcome(), broken.outcome());
}

#[test]
fn spawn_failure_in_the_middle_reaps_what_runs() {
    let (run, actions) = feed(
        start(&["a", "b", "c", "d"], Terminus::Forward),
        vec![Event::Launched, Event::Launched, Event::LaunchFailed, waited(141), waited(0)],
    );
    assert_eq!(
        actions,
        vec![
            launch(0, StdoutTarget::Capture),
            launch(1, StdoutTarget::Capture),
            launch(2, StdoutTarget::Capture),
            Action::Wait { stage: 1 },
            Action::Wait { stage: 0 },
            Action::Finish,
        ]
    );
    assert_eq!(run.outcome(), Some(Err(ChainError::Spawn { program: "c".to_string() })));
}

#[test]
fn spawn_failure_of_the_first_stage_ends_the_run_at_once() {
    let (run, actions) = feed(start(&["a", "b"], Terminus::Capture), vec![Event::LaunchFailed]);
    assert_eq!(actions, vec![launch(0, StdoutTarget::Capture), Action::Finish]);
    assert_eq!(run.outcome(), Some(Err(ChainError::Spawn { program: "a".to_string() })));
}

#[test]
fn drain_failure_is_a_pipe_error_after_all_are_reaped() {
    let (run, actions) = feed(
        start(&["a", "b"], Terminus::Forward),
        vec![Event::Launched, Event::Launched, Event::DrainFailed, waited(0), waited(0)],
    );
    assert_eq!(
        actions,
        vec![
            launch(0, StdoutTarget::Capture),
            launch(1, StdoutTarget::Capture),
            Action::Drain { stage: 1 },
            Action::Wait { stage: 1 },
            Action::Wait { stage: 0 },
            Action::Finish,
        ]
    );
    assert_eq!(run.outcome(), Some(Err(ChainError::Pipe)));
}

#[test]
fn forwarding_writes_after_everything_is_reaped() {
    let (run, actions) = feed(
        start(&["a", "b"], Terminus::Forward),
        vec![
            Event::Launched,
            Event::Launched,
            Event::Drained { stdout: b"table".to_vec() },
            waited(0),
            waited(0),
            Event::Written,
        ],
    );
    assert_eq!(
        actions,
        vec![
            launch(0, StdoutTarget::Capture),
            launch(1, StdoutTarget::Capture),
            Action::Drain { stage: 1 },
            Action::Wait { stage: 1 },
            Action::Wait { stage: 0 },
            Action::Write,
            Action::Finish,
        ]
    );
    assert_eq!(
        run.outcome(),
        Some(Ok(ChainResult::Collected { captured_stdout: b"table".to_vec(), exit_status: 0 }))
    );
}

#[test]
fn forwarding_writes_what_a_failing_last_stage_wrote() {
    let (run, actions) = feed(
        start(&["a"], Terminus::Forward),
        vec![Event::Launched, Event::Drained { stdout: b"some".to_vec() }, waited(1)],
    );
    assert_eq!(actions.last(), Some(&Action::Write));
    assert_eq!(run.captured(), &b"some".to_vec());
    let run = run.step(Event::Written);
    assert_eq!(
        run.outcome(),
        Some(Ok(ChainResult::Collected { captured_stdout: b"some".to_vec(), exit_status: 1 }))
    );
}

#[test]
fn write_failure_is_a_write_error() {
    let (run, actions) = feed(
        start(&["a"], Terminus::Forward),
        vec![
            Event::Launched,
            Event::Drained { stdout: b"table".to_vec() },
            waited(0),
            Event::WriteFailed,
        ],
    );
    assert_eq!(actions.last(), Some(&Action::Finish));
    assert_eq!(run.outcome(), Some(Err(ChainError::Write)));
}

#[test]
fn capturing_chain_writes_nothing() {
    let (_, actions) = feed(
        start(&["a"], Terminus::Capture),
        vec![Event::Launched, Event::Drained { stdout: b"table".to_vec() }, waited(0)],
    );
    assert!(!actions.contains(&Action::Write));
    assert_eq!(actions.last(), Some(&Action::Finish));
}

#[test]
fn events_that_answer_nothing_change_nothing() {
    let run = start(&["a", "b"], Terminus::Capture);
    assert!(run.accepts(&Event::Launched));
    assert!(run.accepts(&Event::LaunchFailed));
    assert!(!run.accepts(&waited(0)));
    assert!(!run.accepts(&Event::Drained { stdout: Vec::new() }));
    assert!(!run.accepts(&Event::Written));
    let (run, actions) = feed(
        run,
        vec![waited(3), Event::Drained { stdout: b"x".to_vec() }, Event::WriteFailed],
    );
    assert_eq!(actions, vec![launch(0, StdoutTarget::Capture); 4]);
    assert!(run.captured().is_empty());
    let (run, _) = feed(
        run,
        vec![
            Event::Launched,
            Event::Launched,
            Event::Launched,
            Event::Drained { stdout: b"y".to_vec() },
            Event::Drained { stdout: b"z".to_vec() },
            waited(4),
            waited(0),
        ],
    );
    assert!(run.is_finished());
    assert!(!run.accepts(&waited(0)));
    assert!(!run.accepts(&Event::Launched));
    let run = run.step(waited(9)).step(Event::LaunchFailed).step(Event::WriteFailed);
    assert_eq!(
        run.outcome(),
        Some(Ok(ChainResult::Collected { captured_stdout: b"y".to_vec(), exit_status: 4 }))
    );
}

#[test]
fn every_started_stage_is_waited_on_once_on_every_path() {
    let paths: Vec<Vec<Event>> = vec![
        vec![Event::LaunchFailed],
        vec![Event::Launched, Event::LaunchFailed, waited(1)],
        vec![Event::Launched, Event::Launched, Event::LaunchFailed, waited(1), waited(1)],
        vec![
            Event::Launched,
            Event::Launched,
            Event::Launched,
            Event::DrainFailed,
            waited(1),
            waited(0),
            waited(0),
        ],
        vec![
            Event::Launched,
            Event::Launched,
            Event::Launched,
            Event::Drained { stdout: Vec::new() },
            waited(0),
            waited(0),
            waited(0),
            Event::WriteFailed,
        ],
        vec![
            Event::Launched,
            Event::Launched,
            Event::Launched,
            Event::Drained { stdout: Vec::new() },
            waited(2),
            waited(0),
            waited(0),
            Event::Written,
        ],
    ];
    for events in paths {
        let started = events.iter().filter(|event| **event == Event::Launched).count();
        let (run, actions) = feed(start(&["a", "b", "c"], Terminus::Forward), events);
        assert!(run.is_finished());
        let mut stage: usize = 0;
        while stage < 3 {
            let waits = actions.iter().filter(|action| **action == Action::Wait { stage }).count();
            let expected: usize = if stage < started { 1 } else { 0 };
            assert_eq!(waits, expected);
            stage += 1;
        }
    }
}

#[test]
fn no_wait_before_all_stages_run() {
    let (_, actions) = feed(
        start(&["a", "b", "c"], Terminus::Capture),
        vec![Event::Launched, Event::Launched, Event::Launched],
    );
    assert_eq!(
        actions,
        vec![
            launch(0, StdoutTarget::Capture),
            launch(1, StdoutTarget::Capture),
            launch(2, StdoutTarget::Capture),
            Action::Drain { stage: 2 },
        ]
    );
}

#[test]
fn two_stage_chain_hands_out_what_the_counting_stage_wrote() {
    let lines: usize = 5;
    let counted = format!("{}\n", lines).into_bytes();
    let (run, actions) = feed(
        start(&["printf", "wc"], Terminus::Capture),
        vec![Event::Launched, Event::Launched, Event::Drained { stdout: counted }, waited(0), waited(0)],
    );
    assert_eq!(
        actions,
        vec![
            launch(0, StdoutTarget::Capture),
            launch(1, StdoutTarget::Capture),
            Action::Drain { stage: 1 },
            Action::Wait { stage: 1 },
            Action::Wait { stage: 0 },
            Action::Finish,
        ]
    );
    match run.outcome() {
        Some(Ok(ChainResult::Collected { captured_stdout, exit_status })) => {
            assert_eq!(exit_status, 0);
            let text = String::from_utf8_lossy(&captured_stdout).trim().to_string();
            assert_eq!(text.parse::<usize>(), Ok(lines));
        }
        other => panic!("unexpected outcome: {:?}", other),
    }
}

#[test]
fn producer_cut_short_by_its_reader_raises_no_error() {
    // the reader took ten lines and left; the producer ended on the closed pipe
    let (run, _) = feed(
        start(&["producer", "head"], Terminus::Capture),
        vec![
            Event::Launched,
            Event::Launched,
            Event::Drained { stdout: b"ten lines".to_vec() },
            waited(0),
            waited(141),
        ],
    );
    assert_eq!(
        run.outcome(),
        Some(Ok(ChainResult::Collected { captured_stdout: b"ten lines".to_vec(), exit_status: 0 }))
    );
}

fn takes_output_of(action: &Action, stage: usize) -> bool {
    match action {
        Action::Launch { stdin: StdinSource::Upstream { stage: from }, .. } => *from == stage,
        Action::Drain { stage: from } => *from == stage,
        _ => false,
    }
}

#[test]
fn every_output_is_taken_once_by_the_next_stage_or_the_reader() {
    let (_, actions) = feed(
        start(&["a", "b", "c"], Terminus::Forward),
        vec![
            Event::Launched,
            Event::Launched,
            Event::Launched,
            Event::Drained { stdout: Vec::new() },
            waited(0),
            waited(0),
            waited(0),
            Event::Written,
        ],
    );
    let mut stage: usize = 0;
    while stage < 3 {
        assert_eq!(actions.iter().filter(|action| takes_output_of(action, stage)).count(), 1);
        stage += 1;
    }
}

#[test]
fn output_of_an_inheriting_last_stage_is_never_taken() {
    let (_, actions) = feed(
        start(&["a", "b"], Terminus::Inherit),
        vec![Event::Launched, Event::Launched, waited(0), waited(0)],
    );
    assert_eq!(actions.iter().filter(|action| takes_output_of(action, 0)).count(), 1);
    assert_eq!(actions.iter().filter(|action| takes_output_of(action, 1)).count(), 0);
}

#[test]
fn output_of_the_stage_before_a_failed_launch_is_not_taken_again() {
    let (_, actions) = feed(
        start(&["a", "b", "c"], Terminus::Capture),
        vec![Event::Launched, Event::Launched, Event::LaunchFailed, waited(0), waited(0)],
    );
    assert_eq!(actions.iter().filter(|action| takes_output_of(action, 0)).count(), 1);
    assert_eq!(actions.iter().filter(|action| takes_output_of(action, 1)).count(), 1);
    assert_eq!(actions.iter().filter(|action| takes_output_of(action, 2)).count(), 0);
}

#[test]
fn a_run_is_finished_after_two_events_for_each_stage_and_two_more() {
    let programs = ["a", "b", "c", "d"];
    let mut run = start(&programs, Terminus::Forward);
    let mut events: usize = 0;
    while !run.is_finished() {
        let event = match run.action() {
            Action::Launch { .. } => Event::Launched,
            Action::Drain { .. } => Event::Drained { stdout: Vec::new() },
            Action::Wait { .. } => waited(0),
            Action::Write => Event::Written,
            Action::Finish => unreachable!(),
        };
        assert!(run.accepts(&event));
        run = run.step(event);
        events += 1;
        assert!(events <= 2 * programs.len() + 2);
    }
    assert_eq!(events, 2 * programs.len() + 2);
}
