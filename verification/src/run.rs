//! Running one command: a state machine that says which operating-system call
//! comes next and what its answer means.
//!
//! The caller owns the loop. It starts in [`RunState::Idle`] with
//! [`Event::Start`], performs the [`Action`] that [`step`] hands back, and
//! feeds the call's raw answer in as the next [`Event`], until the action is
//! [`Action::Return`] or [`Action::Abort`]. A successful replacement of the
//! process image has no answer: the process that asked no longer runs this
//! code.

use crate::command::{word_of, words_of, ArgView, Command};
use crate::error::Error;
use crate::exec::{exec_plan, sendable, ExecPlan, ExecRequest};
use crate::fork::ForkReturn;
use crate::text::has_nul;
use crate::wait::{WaitReturn, WaitStatus};
use vstd::prelude::*;

verus! {

/// Where a run stands.
#[derive(Clone, Copy, Debug, PartialEq, Eq, Structural)]
pub enum RunState {
    /// Nothing has been asked for yet.
    Idle,
    /// A duplication of the process was asked for.
    Duplicating,
    /// In the child: a replacement of the process image was asked for.
    Replacing,
    /// In the parent: a wait for a child was asked for.
    Waiting,
    /// The run is over.
    Finished,
}

/// What the caller reports to the run.
#[derive(Clone, Copy, Debug, PartialEq, Eq, Structural)]
pub enum Event {
    /// The run begins.
    Start,
    /// The duplication returned this value.
    Duplicated(libc::pid_t),
    /// The replacement returned, which it only does on failure, and left this
    /// `errno` behind.
    ReplaceFailed(libc::c_int),
    /// The wait returned `ret`, filled in `status`, and left `errno` behind.
    Waited { ret: libc::pid_t, status: libc::c_int, errno: libc::c_int },
}

/// What the caller is to do next.
#[derive(Debug, PartialEq, Eq)]
pub enum Action {
    /// Duplicate the calling process. The process must be single-threaded at
    /// this moment.
    Duplicate,
    /// Replace the process image as the request says, with the environment
    /// unchanged.
    Replace(ExecRequest),
    /// Block until any child changes state.
    Wait,
    /// The duplication failed and nothing consistent is left to go on with:
    /// abort the process.
    Abort,
    /// Hand this outcome to whoever asked for the run.
    Return(Result<WaitStatus, Error>),
}

/// The mathematical value of an [`Action`].
pub ghost enum ActionView {
    Duplicate,
    Replace(ExecPlan),
    Wait,
    Abort,
    Return(Result<WaitStatus, Error>),
}

impl View for Action {
    type V = ActionView;

    open spec fn view(&self) -> ActionView {
        match self {
            Action::Duplicate => ActionView::Duplicate,
            Action::Replace(request) => ActionView::Replace(request@),
            Action::Wait => ActionView::Wait,
            Action::Abort => ActionView::Abort,
            Action::Return(outcome) => ActionView::Return(*outcome),
        }
    }
}

/// What the child branch does with the command. Without a word there is
/// nothing to run, which counts as a normal exit with code 0. Otherwise the
/// first word names the program and all the words are its arguments.
pub open spec fn child_action(args: Seq<ArgView>) -> ActionView {
    let words = words_of(args);
    if words.len() == 0 {
        ActionView::Return(Ok(WaitStatus::Exited(0)))
    } else {
        match exec_plan(words[0], words) {
            Ok(plan) => ActionView::Replace(plan),
            Err(e) => ActionView::Return(Err(e)),
        }
    }
}

/// What the parent branch reports once its wait has returned.
pub open spec fn parent_outcome(ret: i32, status: i32, errno: i32) -> Result<WaitStatus, Error> {
    match WaitReturn::of_raw(ret, status, errno) {
        Ok(waited) => Ok(waited.status),
        Err(e) => Err(e),
    }
}

/// One step of a run of the command `args`: the state that follows `state`
/// on `event`, and the action to perform. `None` where the event is not an
/// answer to what the state asked for.
pub open spec fn step_spec(args: Seq<ArgView>, state: RunState, event: Event) -> Option<
    (RunState, ActionView),
> {
    match (state, event) {
        (RunState::Idle, Event::Start) => Some((RunState::Duplicating, ActionView::Duplicate)),
        (RunState::Duplicating, Event::Duplicated(res)) => Some(
            if res < 0 {
                (RunState::Finished, ActionView::Abort)
            } else {
                match ForkReturn::of_raw(res) {
                    ForkReturn::Parent(_) => (RunState::Waiting, ActionView::Wait),
                    ForkReturn::Child => {
                        let action = child_action(args);
                        if action is Replace {
                            (RunState::Replacing, action)
                        } else {
                            (RunState::Finished, action)
                        }
                    },
                }
            },
        ),
        (RunState::Replacing, Event::ReplaceFailed(errno)) => Some(
            (RunState::Finished, ActionView::Return(Err(Error::replace_failure(errno)))),
        ),
        (RunState::Waiting, Event::Waited { ret, status, errno }) => Some(
            (RunState::Finished, ActionView::Return(parent_outcome(ret, status, errno))),
        ),
        _ => None,
    }
}

/// Takes one step of a run of `cmd`.
pub fn step(cmd: &Command, state: RunState, event: Event) -> (r: Option<(RunState, Action)>)
    ensures
        match r {
            Some((next, action)) => step_spec(cmd@, state, event) == Some((next, action@)),
            None => step_spec(cmd@, state, event) is None,
        },
{
    match state {
        RunState::Idle => match event {
            Event::Start => Some((RunState::Duplicating, Action::Duplicate)),
            _ => None,
        },
        RunState::Duplicating => match event {
            Event::Duplicated(res) => {
                if res < 0 {
                    Some((RunState::Finished, Action::Abort))
                } else {
                    match ForkReturn::from_raw(res) {
                        ForkReturn::Parent(_) => Some((RunState::Waiting, Action::Wait)),
                        ForkReturn::Child => Some(child_step(cmd)),
                    }
                }
            },
            _ => None,
        },
        RunState::Replacing => match event {
            Event::ReplaceFailed(errno) => Some(
                (RunState::Finished, Action::Return(Err(Error::from_replace_errno(errno)))),
            ),
            _ => None,
        },
        RunState::Waiting => match event {
            Event::Waited { ret, status, errno } => {
                let outcome = match WaitReturn::from_raw(ret, status, errno) {
                    Ok(waited) => Ok(WaitStatus::from(waited)),
                    Err(e) => Err(e),
                };
                Some((RunState::Finished, Action::Return(outcome)))
            },
            _ => None,
        },
        RunState::Finished => None,
    }
}

/// The step that the child branch takes right after the duplication.
fn child_step(cmd: &Command) -> (r: (RunState, Action))
    ensures
        r.1@ == child_action(cmd@),
        r.0 == if r.1@ is Replace {
            RunState::Replacing
        } else {
            RunState::Finished
        },
{
    let args = cmd.words();
    if args.len() == 0 {
        (RunState::Finished, Action::Return(Ok(WaitStatus::Exited(0))))
    } else {
        assert(args.deep_view()[0] == args[0]@);
        match ExecRequest::new(args[0].as_str(), args.as_slice()) {
            Ok(request) => (RunState::Replacing, Action::Replace(request)),
            Err(e) => (RunState::Finished, Action::Return(Err(e))),
        }
    }
}

/// The actions that a run of `args` asks for when it is fed `events` one by
/// one from `state`, up to the first event that does not fit.
pub open spec fn actions_of(args: Seq<ArgView>, state: RunState, events: Seq<Event>) -> Seq<
    ActionView,
>
    decreases events.len(),
{
    if events.len() == 0 {
        Seq::empty()
    } else {
        match step_spec(args, state, events[0]) {
            None => Seq::empty(),
            Some((next, action)) => seq![action] + actions_of(args, next, events.drop_first()),
        }
    }
}

/// A command without a word spawns no program. Its child branch ends the run
/// at once with a normal exit of code 0, and whatever the caller reports, in
/// whatever state, no action of the run asks for a replacement.
pub proof fn lemma_wordless_spawns_nothing(
    args: Seq<ArgView>,
    state: RunState,
    events: Seq<Event>,
)
    requires
        forall|i: int| 0 <= i < args.len() ==> word_of(#[trigger] args[i]) is None,
    ensures
        step_spec(args, RunState::Duplicating, Event::Duplicated(0)) == Some(
            (RunState::Finished, ActionView::Return(Ok(WaitStatus::Exited(0)))),
        ),
        forall|i: int|
            0 <= i < actions_of(args, state, events).len() ==> !(#[trigger] actions_of(
                args,
                state,
                events,
            )[i] is Replace),
    decreases events.len(),
{
    crate::command::lemma_no_word_no_words(args);
    if events.len() > 0 {
        match step_spec(args, state, events[0]) {
            None => {},
            Some((next, action)) => {
                lemma_wordless_spawns_nothing(args, next, events.drop_first());
                let rest = actions_of(args, next, events.drop_first());
                assert(!(action is Replace));
                assert forall|i: int|
                    0 <= i < actions_of(args, state, events).len() implies !(#[trigger] actions_of(
                    args,
                    state,
                    events,
                )[i] is Replace) by {
                    if i > 0 {
                        assert(actions_of(args, state, events)[i] == rest[i - 1]);
                    }
                }
            },
        }
    }
}

/// A run is over after at most three actions, whatever the caller reports,
/// and only the last of them can be `Return` or `Abort`.
pub proof fn lemma_run_is_short(args: Seq<ArgView>, events: Seq<Event>)
    ensures
        actions_of(args, RunState::Idle, events).len() <= 3,
        forall|i: int|
            0 <= i < actions_of(args, RunState::Idle, events).len() - 1 ==> {
                let action = #[trigger] actions_of(args, RunState::Idle, events)[i];
                !(action is Return) && !(action is Abort)
            },
{
    reveal_with_fuel(actions_of, 5);
}

/// In the parent, a child that exits with a code between 0 and 255 ends the
/// run with `Exited` of that code: the run duplicates, waits and returns.
pub proof fn lemma_parent_observes_exit(
    args: Seq<ArgView>,
    child: i32,
    waited: i32,
    code: i32,
    errno: i32,
)
    requires
        child > 0,
        waited >= 0,
        0 <= code <= 255,
    ensures
        actions_of(
            args,
            RunState::Idle,
            seq![
                Event::Start,
                Event::Duplicated(child),
                Event::Waited { ret: waited, status: code << 8, errno },
            ],
        ) == seq![
            ActionView::Duplicate,
            ActionView::Wait,
            ActionView::Return(Ok(WaitStatus::Exited(code))),
        ],
{
    reveal_with_fuel(actions_of, 5);
    crate::wait::lemma_exit_code_observed(code);
    let events = seq![
        Event::Start,
        Event::Duplicated(child),
        Event::Waited { ret: waited, status: code << 8, errno },
    ];
    assert(events.drop_first() =~= seq![
        Event::Duplicated(child),
        Event::Waited { ret: waited, status: code << 8, errno },
    ]);
    assert(events.drop_first().drop_first() =~= seq![
        Event::Waited { ret: waited, status: code << 8, errno },
    ]);
    assert(events.drop_first().drop_first().drop_first() =~= Seq::<Event>::empty());
    assert(actions_of(args, RunState::Idle, events) =~= seq![
        ActionView::Duplicate,
        ActionView::Wait,
        ActionView::Return(Ok(WaitStatus::Exited(code))),
    ]);
}

/// In the parent, a child that a signal terminates ends the run with
/// `TermSignal` of that signal's number, with or without a core dump.
pub proof fn lemma_parent_observes_signal(
    args: Seq<ArgView>,
    waited: i32,
    signal: i32,
    core_dumped: bool,
    errno: i32,
)
    requires
        waited >= 0,
        1 <= signal <= 126,
    ensures
        step_spec(
            args,
            RunState::Waiting,
            Event::Waited {
                ret: waited,
                status: if core_dumped {
                    signal | 0x80
                } else {
                    signal
                },
                errno,
            },
        ) == Some(
            (RunState::Finished, ActionView::Return(Ok(WaitStatus::TermSignal(signal)))),
        ),
{
    crate::wait::lemma_signal_observed(signal, core_dumped);
}

/// A NUL byte in the first word, which names the program, ends the child
/// branch with an encoding error: no replacement is asked for.
pub proof fn lemma_nul_in_path_fails_early(args: Seq<ArgView>)
    requires
        words_of(args).len() > 0,
        has_nul(words_of(args)[0]),
    ensures
        step_spec(args, RunState::Duplicating, Event::Duplicated(0)) == Some(
            (RunState::Finished, ActionView::Return(Err(Error::Encoding))),
        ),
{
}

/// A NUL byte in any other word is no failure. The replacement is asked for
/// with the first word as its path, and its argument vector holds exactly the
/// words without a NUL byte, in their order: the others are dropped.
pub proof fn lemma_nul_in_argument_is_dropped(args: Seq<ArgView>)
    requires
        words_of(args).len() > 0,
        !has_nul(words_of(args)[0]),
    ensures
        step_spec(args, RunState::Duplicating, Event::Duplicated(0)) == Some(
            (
                RunState::Replacing,
                ActionView::Replace(
                    ExecPlan { path: words_of(args)[0], argv: sendable(words_of(args)) },
                ),
            ),
        ),
        sendable(words_of(args)).len() > 0,
        sendable(words_of(args))[0] == words_of(args)[0],
        forall|i: int|
            0 <= i < words_of(args).len() && has_nul(#[trigger] words_of(args)[i]) ==> !sendable(
                words_of(args),
            ).contains(words_of(args)[i]),
        forall|i: int|
            0 <= i < words_of(args).len() && !has_nul(#[trigger] words_of(args)[i]) ==> sendable(
                words_of(args),
            ).contains(words_of(args)[i]),
{
    let words = words_of(args);
    let clean = |arg: Seq<char>| !has_nul(arg);
    crate::exec::lemma_sendable_keeps_clean(words);
    assert forall|i: int| 0 <= i < words.len() && has_nul(#[trigger] words[i]) implies !sendable(
        words,
    ).contains(words[i]) by {
        if sendable(words).contains(words[i]) {
            let k = choose|k: int| 0 <= k < sendable(words).len() && sendable(words)[k] == words[i];
            assert(!has_nul(sendable(words)[k]));
        }
    }
    assert(sendable(words).len() > 0 && sendable(words)[0] == words[0]) by {
        let head = words.take(1);
        let tail = words.skip(1);
        assert(words =~= head + tail);
        Seq::filter_distributes_over_add(head, tail, clean);
        reveal_with_fuel(Seq::filter, 2);
        assert(head.drop_last() =~= Seq::<Seq<char>>::empty());
        assert(head.filter(clean) =~= seq![words[0]]);
    }
}

} // verus!
