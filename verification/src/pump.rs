//! What the message loop does with each thing it retrieves, and what a whole run of the
//! loop comes to.
//!
//! [`step_of`] is the rule for one retrieval and [`replay`] the loop built from it.
//! [`crate::window::Window::pump`] and [`crate::window::Window::run`] apply them.
use crate::dispatch::{calls_of, phase_after, route_of, Phase};
use crate::error::Error;
use crate::handler::Call;
use crate::message::{kind_of, Message};
use vstd::prelude::*;

verus! {

/// What one blocking retrieval from the thread's message queue came back with.
#[derive(Clone, Copy, Debug, PartialEq, Eq, Structural)]
pub struct Retrieval {
    /// What the retrieval returned; `-1` means that it failed.
    pub status: i32,
    /// The thread's last error code, read after the retrieval.
    pub code: i32,
    /// The message that was retrieved, if the retrieval did not fail.
    pub message: Message,
}

/// What the loop does after one retrieval.
#[derive(Clone, Copy, Debug, PartialEq, Eq, Structural)]
pub enum Step {
    /// The retrieval failed: the loop is over, with this error.
    Fail(Error),
    /// The quit sentinel was retrieved: the loop is over, and nothing is dispatched.
    Stop,
    /// This message is to be translated and then dispatched to the platform, which calls
    /// the callback with it before the dispatch returns.
    Dispatch(Message),
}

/// How a run of the loop over given retrievals ended.
#[derive(Clone, Copy, Debug, PartialEq, Eq, Structural)]
pub enum Exit {
    /// The quit sentinel was retrieved.
    Quit,
    /// The retrievals ran out; the loop would now wait for the next message.
    Waiting,
}

/// What a run of the loop comes to.
pub struct Replay {
    /// The phase the window is left in.
    pub phase: Phase,
    /// The calls made on the handler, in order.
    pub calls: Seq<Call>,
    /// How many retrievals the loop made.
    pub taken: nat,
    /// How the loop ended.
    pub result: Result<Exit, Error>,
}

/// What the loop does after `retrieval`.
pub open spec fn step_of(retrieval: Retrieval) -> Step {
    if retrieval.status == -1 {
        Step::Fail(Error::PlatformCallFailed(retrieval.code))
    } else if kind_of(retrieval.message.kind) is Quit {
        Step::Stop
    } else {
        Step::Dispatch(retrieval.message)
    }
}

/// The phase after `retrieval`: the quit sentinel terminates; nothing else changes the
/// phase.
pub open spec fn phase_pumped(phase: Phase, retrieval: Retrieval) -> Phase {
    if step_of(retrieval) is Stop {
        Phase::Terminated
    } else {
        phase
    }
}

/// The loop, run for the window `hwnd` from `phase` over what the queue yields, first to
/// last: it ends at the first failure or quit sentinel, and dispatches every message
/// before to the callback.
pub open spec fn replay(hwnd: isize, phase: Phase, queue: Seq<Retrieval>) -> Replay
    decreases queue.len(),
{
    if queue.len() == 0 {
        Replay { phase, calls: Seq::empty(), taken: 0, result: Ok(Exit::Waiting) }
    } else {
        match step_of(queue.first()) {
            Step::Fail(error) => Replay {
                phase,
                calls: Seq::empty(),
                taken: 1,
                result: Err(error),
            },
            Step::Stop => Replay {
                phase: Phase::Terminated,
                calls: Seq::empty(),
                taken: 1,
                result: Ok(Exit::Quit),
            },
            Step::Dispatch(message) => {
                let rest = replay(hwnd, phase_after(phase, message), queue.drop_first());
                Replay {
                    phase: rest.phase,
                    calls: calls_of(route_of(hwnd, phase, message)) + rest.calls,
                    taken: rest.taken + 1,
                    result: rest.result,
                }
            },
        }
    }
}

/// A loop that is still waiting after `first` goes on with `second` from where it stands;
/// a loop that ended within `first` never sees `second`.
pub proof fn lemma_replay_concat(
    hwnd: isize,
    phase: Phase,
    first: Seq<Retrieval>,
    second: Seq<Retrieval>,
)
    ensures
        replay(hwnd, phase, first).taken <= first.len(),
        replay(hwnd, phase, first).result == Ok::<Exit, Error>(Exit::Waiting) ==> {
            let head = replay(hwnd, phase, first);
            let tail = replay(hwnd, head.phase, second);
            &&& head.taken == first.len()
            &&& replay(hwnd, phase, first + second).phase == tail.phase
            &&& replay(hwnd, phase, first + second).calls == head.calls + tail.calls
            &&& replay(hwnd, phase, first + second).taken == head.taken + tail.taken
            &&& replay(hwnd, phase, first + second).result == tail.result
        },
        replay(hwnd, phase, first).result != Ok::<Exit, Error>(Exit::Waiting) ==> replay(
            hwnd,
            phase,
            first + second,
        ) == replay(hwnd, phase, first),
    decreases first.len(),
{
    if first.len() == 0 {
        assert(first + second =~= second);
        assert(Seq::<Call>::empty() + replay(hwnd, phase, second).calls =~= replay(
            hwnd,
            phase,
            second,
        ).calls);
    } else {
        let whole = first + second;
        assert(whole.first() == first.first());
        assert(whole.drop_first() =~= first.drop_first() + second);
        match step_of(first.first()) {
            Step::Dispatch(message) => {
                let next = phase_after(phase, message);
                lemma_replay_concat(hwnd, next, first.drop_first(), second);
                let here = calls_of(route_of(hwnd, phase, message));
                let head = replay(hwnd, next, first.drop_first());
                if head.result == Ok::<Exit, Error>(Exit::Waiting) {
                    let tail = replay(hwnd, head.phase, second);
                    assert(here + (head.calls + tail.calls) =~= (here + head.calls) + tail.calls);
                }
            },
            _ => {},
        }
    }
}

/// From a quitting or terminated window no retrieval reaches the handler, and the window
/// stays quitting or terminated.
pub proof fn lemma_silent_after_destroy(hwnd: isize, phase: Phase, queue: Seq<Retrieval>)
    requires
        phase is Quitting || phase is Terminated,
    ensures
        replay(hwnd, phase, queue).calls == Seq::<Call>::empty(),
        replay(hwnd, phase, queue).phase is Quitting || replay(hwnd, phase, queue).phase
            is Terminated,
    decreases queue.len(),
{
    if queue.len() > 0 {
        match step_of(queue.first()) {
            Step::Dispatch(message) => {
                lemma_silent_after_destroy(hwnd, phase_after(phase, message), queue.drop_first());
                assert(Seq::<Call>::empty() + Seq::<Call>::empty() =~= Seq::<Call>::empty());
            },
            _ => {},
        }
    }
}

/// A loop that ended with the quit sentinel leaves the window terminated.
pub proof fn lemma_quit_terminates(hwnd: isize, phase: Phase, queue: Seq<Retrieval>)
    ensures
        replay(hwnd, phase, queue).result == Ok::<Exit, Error>(Exit::Quit) ==> replay(
            hwnd,
            phase,
            queue,
        ).phase is Terminated,
    decreases queue.len(),
{
    if queue.len() > 0 {
        match step_of(queue.first()) {
            Step::Dispatch(message) => {
                lemma_quit_terminates(hwnd, phase_after(phase, message), queue.drop_first());
            },
            _ => {},
        }
    }
}

/// Once a destroy message has been dispatched, no later retrieval reaches the handler:
/// the calls of the whole run are those made before the destroy message. And if the
/// retrieval that follows the destroy message is the quit sentinel, the loop ends with
/// that retrieval at the latest, and is not left waiting.
pub proof fn lemma_destroy_terminates(
    hwnd: isize,
    phase: Phase,
    before: Seq<Retrieval>,
    destroy: Retrieval,
    after: Seq<Retrieval>,
)
    requires
        destroy.status != -1,
        kind_of(destroy.message.kind) is Destroy,
    ensures
        replay(hwnd, phase, before + seq![destroy] + after).calls == replay(
            hwnd,
            phase,
            before,
        ).calls,
        after.len() > 0 && step_of(after.first()) is Stop ==> {
            let run = replay(hwnd, phase, before + seq![destroy] + after);
            &&& run.taken <= before.len() + 2
            &&& run.result != Ok::<Exit, Error>(Exit::Waiting)
            &&& run.result == Ok::<Exit, Error>(Exit::Quit) ==> run.phase is Terminated
        },
{
    let rest = seq![destroy] + after;
    assert(before + seq![destroy] + after =~= before + rest);
    lemma_replay_concat(hwnd, phase, before, rest);
    lemma_quit_terminates(hwnd, phase, before + rest);
    let head = replay(hwnd, phase, before);
    if head.result == Ok::<Exit, Error>(Exit::Waiting) {
        let quitting = phase_after(head.phase, destroy.message);
        assert(rest.first() == destroy);
        assert(rest.drop_first() =~= after);
        assert(step_of(destroy) == Step::Dispatch(destroy.message));
        lemma_silent_after_destroy(hwnd, quitting, after);
        let tail = replay(hwnd, head.phase, rest);
        assert(tail.calls =~= Seq::<Call>::empty());
        assert(head.calls + tail.calls =~= head.calls);
        if after.len() > 0 && step_of(after.first()) is Stop {
            assert(replay(hwnd, quitting, after).taken == 1);
            assert(tail.taken == 2);
        }
    }
}

} // verus!
