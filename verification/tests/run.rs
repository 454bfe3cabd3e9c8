use procexec::command::{Arg, Command};
use procexec::error::Error;
use procexec::exec::ExecRequest;
use procexec::run::{step, Action, Event, RunState};
use procexec::wait::WaitStatus;

fn command(words: &[&str]) -> Command {
    Command::new(words.iter().map(|w| Arg::Word(w.to_string())).collect())
}

fn strings(items: &[&str]) -> Vec<String> {
    items.iter().map(|s| s.to_string()).collect()
}

fn waited(ret: i32, status: i32, errno: i32) -> Event {
    Event::Waited { ret, status, errno }
}

#[test]
fn run_begins_with_a_duplication() {
    let cmd = command(&["/bin/true"]);
    assert_eq!(step(&cmd, RunState::Idle, Event::Start), Some((RunState::Duplicating, Action::Duplicate)));
}

#[test]
fn parent_of_bin_true_observes_exit_zero() {
    let cmd = command(&["/bin/true"]);
    let (state, action) = step(&cmd, RunState::Idle, Event::Start).unwrap();
    assert_eq!(action, Action::Duplicate);
    let (state, action) = step(&cmd, state, Event::Duplicated(4711)).unwrap();
    assert_eq!((state, &action), (RunState::Waiting, &Action::Wait));
    let (state, action) = step(&cmd, state, waited(4711, libc::W_EXITCODE(0, 0), 0)).unwrap();
    assert_eq!(state, RunState::Finished);
    assert_eq!(action, Action::Return(Ok(WaitStatus::Exited(0))));
}

#[test]
fn child_of_bin_true_asks_for_the_replacement() {
    let cmd = command(&["/bin/true"]);
    let (state, action) = step(&cmd, RunState::Duplicating, Event::Duplicated(0)).unwrap();
    assert_eq!(state, RunState::Replacing);
    let expected = ExecRequest::new("/bin/true", &strings(&["/bin/true"])).unwrap();
    assert_eq!(action, Action::Replace(expected));
}

#[test]
fn first_word_is_the_path_and_all_words_are_arguments() {
    let cmd = command(&["ls", "-l", "/tmp"]);
    match step(&cmd, RunState::Duplicating, Event::Duplicated(0)) {
        Some((RunState::Replacing, Action::Replace(request))) => {
            assert_eq!(request.path(), "ls");
            assert_eq!(request.argv(), &strings(&["ls", "-l", "/tmp"]));
        }
        other => panic!("unexpected step: {:?}", other),
    }
}

#[test]
fn blank_line_is_a_trivial_success() {
    let cmd = command(&[]);
    let (state, action) = step(&cmd, RunState::Duplicating, Event::Duplicated(0)).unwrap();
    assert_eq!(state, RunState::Finished);
    assert_eq!(action, Action::Return(Ok(WaitStatus::Exited(0))));
}

#[test]
fn blank_line_never_asks_for_a_replacement() {
    let cmd = command(&[]);
    let states = [
        RunState::Idle,
        RunState::Duplicating,
        RunState::Replacing,
        RunState::Waiting,
        RunState::Finished,
    ];
    let events = [
        Event::Start,
        Event::Duplicated(-1),
        Event::Duplicated(0),
        Event::Duplicated(99),
        Event::ReplaceFailed(libc::ENOENT),
        waited(99, 0, 0),
        waited(-1, 0, libc::ECHILD),
    ];
    for state in states {
        for event in events {
            if let Some((next, action)) = step(&cmd, state, event) {
                assert!(!matches!(action, Action::Replace(_)));
                assert_ne!(next, RunState::Replacing);
            }
        }
    }
}

#[test]
fn missing_binary_is_reported_from_the_child() {
    let cmd = command(&["/no/such/binary"]);
    let (state, action) = step(&cmd, RunState::Duplicating, Event::Duplicated(0)).unwrap();
    assert_eq!(state, RunState::Replacing);
    assert!(matches!(action, Action::Replace(_)));
    let (state, action) = step(&cmd, state, Event::ReplaceFailed(libc::ENOENT)).unwrap();
    assert_eq!(state, RunState::Finished);
    assert_eq!(action, Action::Return(Err(Error::NotFound)));
}

#[test]
fn other_replacement_failure_is_an_os_error() {
    let cmd = command(&["/etc/passwd"]);
    assert_eq!(
        step(&cmd, RunState::Replacing, Event::ReplaceFailed(libc::EACCES)),
        Some((RunState::Finished, Action::Return(Err(Error::Os(libc::EACCES)))))
    );
}

#[test]
fn failed_duplication_aborts() {
    let cmd = command(&["ls"]);
    assert_eq!(
        step(&cmd, RunState::Duplicating, Event::Duplicated(-1)),
        Some((RunState::Finished, Action::Abort))
    );
    assert_eq!(
        step(&cmd, RunState::Duplicating, Event::Duplicated(i32::MIN)),
        Some((RunState::Finished, Action::Abort))
    );
}

#[test]
fn parent_observes_exit_code() {
    let cmd = command(&["sh", "-c", "exit 3"]);
    for code in [0, 1, 3, 127, 255] {
        assert_eq!(
            step(&cmd, RunState::Waiting, waited(10, libc::W_EXITCODE(code, 0), 0)),
            Some((RunState::Finished, Action::Return(Ok(WaitStatus::Exited(code)))))
        );
    }
}

#[test]
fn parent_observes_terminating_signal() {
    let cmd = command(&["sh", "-c", "kill -TERM $$"]);
    assert_eq!(
        step(&cmd, RunState::Waiting, waited(10, libc::SIGTERM, 0)),
        Some((RunState::Finished, Action::Return(Ok(WaitStatus::TermSignal(libc::SIGTERM)))))
    );
    assert_eq!(
        step(&cmd, RunState::Waiting, waited(10, libc::SIGABRT | 0x80, 0)),
        Some((RunState::Finished, Action::Return(Ok(WaitStatus::TermSignal(libc::SIGABRT)))))
    );
}

#[test]
fn parent_observes_stop_and_continuation() {
    let cmd = command(&["cat"]);
    assert_eq!(
        step(&cmd, RunState::Waiting, waited(10, libc::W_STOPCODE(libc::SIGTSTP), 0)),
        Some((RunState::Finished, Action::Return(Ok(WaitStatus::Stopped(libc::SIGTSTP)))))
    );
    assert_eq!(
        step(&cmd, RunState::Waiting, waited(10, 0xffff, 0)),
        Some((RunState::Finished, Action::Return(Ok(WaitStatus::Continued))))
    );
    assert_eq!(
        step(&cmd, RunState::Waiting, waited(10, 0x00ff, 0)),
        Some((RunState::Finished, Action::Return(Ok(WaitStatus::Unknown))))
    );
}

#[test]
fn failed_wait_is_an_os_error() {
    let cmd = command(&["ls"]);
    assert_eq!(
        step(&cmd, RunState::Waiting, waited(-1, 0, libc::ECHILD)),
        Some((RunState::Finished, Action::Return(Err(Error::Os(libc::ECHILD)))))
    );
    assert_eq!(
        step(&cmd, RunState::Waiting, waited(-1, 0, libc::EINTR)),
        Some((RunState::Finished, Action::Return(Err(Error::Os(libc::EINTR)))))
    );
}

#[test]
fn nul_in_program_name_fails_before_any_replacement() {
    let cmd = command(&["l\0s", "-l"]);
    assert_eq!(
        step(&cmd, RunState::Duplicating, Event::Duplicated(0)),
        Some((RunState::Finished, Action::Return(Err(Error::Encoding))))
    );
}

#[test]
fn nul_in_later_word_is_dropped_from_the_arguments() {
    let cmd = command(&["echo", "a\0b", "c"]);
    match step(&cmd, RunState::Duplicating, Event::Duplicated(0)) {
        Some((RunState::Replacing, Action::Replace(request))) => {
            assert_eq!(request.path(), "echo");
            assert_eq!(request.argv(), &strings(&["echo", "c"]));
        }
        other => panic!("unexpected step: {:?}", other),
    }
}

#[test]
fn event_that_answers_nothing_is_refused() {
    let cmd = command(&["ls"]);
    assert_eq!(step(&cmd, RunState::Idle, Event::Duplicated(0)), None);
    assert_eq!(step(&cmd, RunState::Idle, waited(1, 0, 0)), None);
    assert_eq!(step(&cmd, RunState::Duplicating, Event::Start), None);
    assert_eq!(step(&cmd, RunState::Duplicating, Event::ReplaceFailed(2)), None);
    assert_eq!(step(&cmd, RunState::Replacing, waited(1, 0, 0)), None);
    assert_eq!(step(&cmd, RunState::Replacing, Event::Duplicated(0)), None);
    assert_eq!(step(&cmd, RunState::Waiting, Event::ReplaceFailed(2)), None);
    assert_eq!(step(&cmd, RunState::Waiting, Event::Start), None);
}

#[test]
fn finished_run_takes_no_event() {
    let cmd = command(&["ls"]);
    for event in [Event::Start, Event::Duplicated(0), Event::ReplaceFailed(2), waited(1, 0, 0)] {
        assert_eq!(step(&cmd, RunState::Finished, event), None);
    }
}

#[test]
fn run_is_over_after_three_actions() {
    let cmd = command(&["ls"]);
    let answers = [
        Event::Start,
        Event::Duplicated(-1),
        Event::Duplicated(0),
        Event::Duplicated(7),
        Event::ReplaceFailed(libc::ENOENT),
        waited(7, 0, 0),
    ];
    for second in answers {
        for third in answers {
            for fourth in answers {
                let mut state = RunState::Idle;
                let mut taken = 0;
                for event in [Event::Start, second, third, fourth] {
                    match step(&cmd, state, event) {
                        Some((next, _)) => {
                            state = next;
                            taken += 1;
                        }
                        None => break,
                    }
                }
                assert!(taken <= 3);
            }
        }
    }
}
