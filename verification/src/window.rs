//! A window and the handler bound to it.
//!
//! A [`Window`] holds what the platform keeps for the shim: the handle, the storage slot
//! with the attached handler, and how far the loop has come. It applies the rules of
//! [`crate::dispatch`] and [`crate::pump`], and it is the only place where a handler is
//! called.
use crate::dispatch::{calls_of, phase_after, phase_attached, route_of, Phase, Route};
use crate::error::Error;
use crate::handler::{delivered, Call, EventHandler};
use crate::message::{classify, decode_size, Kind, Message};
use crate::pump::{phase_pumped, replay, step_of, Exit, Replay, Retrieval, Step};
use vstd::prelude::*;

verus! {

/// How far the loop of a window has come.
enum Pace {
    /// No destroy message has been seen.
    Running,
    /// A destroy message has been seen.
    Quitting,
    /// The quit sentinel has been retrieved.
    Terminated,
}

/// One native window, with the handler attached to it.
pub struct Window<EH: EventHandler> {
    hwnd: isize,
    pace: Pace,
    handler: Option<EH>,
}

/// Whether `after` is what a route leaves in the storage slot that held `before`: on a
/// delivery the same handler after the call that was made on it, else what was there.
pub open spec fn slot_after<EH: EventHandler>(
    before: Option<EH>,
    route: Route,
    after: Option<EH>,
) -> bool {
    match route {
        Route::Delivered(call) => {
            &&& before is Some
            &&& after is Some
            &&& before.unwrap().handled(call, &after.unwrap())
        },
        _ => after == before,
    }
}

/// Whether `whole` is the run that made `calls` in `taken` retrievals and then went on as
/// `rest`.
spec fn resumes(whole: Replay, calls: Seq<Call>, taken: nat, rest: Replay) -> bool {
    &&& whole.phase == rest.phase
    &&& whole.calls == calls + rest.calls
    &&& whole.taken == taken + rest.taken
    &&& whole.result == rest.result
}

impl<EH: EventHandler> Window<EH> {
    /// The window's handle.
    pub closed spec fn spec_hwnd(&self) -> isize {
        self.hwnd
    }

    /// The window's phase.
    pub closed spec fn spec_phase(&self) -> Phase {
        match self.pace {
            Pace::Running => if self.handler is Some {
                Phase::Bound
            } else {
                Phase::Created
            },
            Pace::Quitting => Phase::Quitting,
            Pace::Terminated => Phase::Terminated,
        }
    }

    /// What the window's storage slot holds: the attached handler, if there is one.
    pub closed spec fn slot(&self) -> Option<EH> {
        self.handler
    }

    /// The window with `handler` stored in its slot, in place of what was there.
    pub closed spec fn attached(self, handler: EH) -> Self {
        Window { hwnd: self.hwnd, pace: self.pace, handler: Some(handler) }
    }

    /// What running the loop over `queue` comes to, once a handler has been attached.
    pub open spec fn run_of(&self, queue: Seq<Retrieval>) -> Replay {
        replay(self.hwnd(), phase_attached(self.phase()), queue)
    }

    /// The window of the handle `hwnd`, as creation leaves it: no handler is attached.
    pub fn new(hwnd: isize) -> (window: Self)
        ensures
            window.hwnd() == hwnd,
            window.phase() is Created,
            window.slot() is None,
    {
        Window { hwnd, pace: Pace::Running, handler: None }
    }

    /// The window's handle.
    #[verifier::when_used_as_spec(spec_hwnd)]
    pub fn hwnd(&self) -> (hwnd: isize)
        ensures
            hwnd == self.hwnd(),
    {
        self.hwnd
    }

    /// The window's phase.
    #[verifier::when_used_as_spec(spec_phase)]
    pub fn phase(&self) -> (phase: Phase)
        ensures
            phase == self.phase(),
    {
        match self.pace {
            Pace::Running => if self.handler.is_some() {
                Phase::Bound
            } else {
                Phase::Created
            },
            Pace::Quitting => Phase::Quitting,
            Pace::Terminated => Phase::Terminated,
        }
    }

    /// The attached handler, if there is one.
    pub fn handler(&self) -> (handler: Option<&EH>)
        ensures
            handler is Some == self.slot() is Some,
            handler is Some ==> *handler.unwrap() == self.slot().unwrap(),
    {
        self.handler.as_ref()
    }

    /// Gives up the window and hands out the attached handler, if there is one.
    pub fn into_handler(self) -> (handler: Option<EH>)
        ensures
            handler == self.slot(),
    {
        self.handler
    }

    /// Stores `handler` in the window's slot and hands out what the slot held. A created
    /// window is bound from now on; a window in any other phase stays in it. An earlier
    /// handler is never called again.
    pub fn attach(&mut self, handler: EH) -> (previous: Option<EH>)
        ensures
            *final(self) == old(self).attached(handler),
            previous == old(self).slot(),
            final(self).slot() == Some(handler),
            final(self).hwnd() == old(self).hwnd(),
            final(self).phase() == phase_attached(old(self).phase()),
    {
        let previous = self.handler.take();
        self.handler = Some(handler);
        previous
    }

    /// The platform's callback: takes one message that the platform dispatched and says
    /// which route it took.
    ///
    /// A paint or size-changed message that reaches the handler is delivered here, by the
    /// one call that the route names, before this function returns. What is left to the
    /// caller is the platform's part: to post the quit sentinel on the quit route, to call
    /// the default window procedure with the forwarded message on the forward route, and
    /// to return [`Route::reply`].
    pub fn callback(&mut self, message: &Message) -> (route: Route)
        ensures
            route == route_of(old(self).hwnd(), old(self).phase(), *message),
            final(self).hwnd() == old(self).hwnd(),
            final(self).phase() == phase_after(old(self).phase(), *message),
            slot_after(old(self).slot(), route, final(self).slot()),
    {
        match classify(message.kind) {
            Kind::Destroy => {
                match self.pace {
                    Pace::Running => {
                        self.pace = Pace::Quitting;
                    },
                    _ => {},
                }
                Route::Quit
            },
            Kind::Paint => {
                if self.listens(message.hwnd) {
                    match &mut self.handler {
                        Some(handler) => {
                            handler.on_paint();
                            Route::Delivered(Call::Paint)
                        },
                        None => Route::Forward(*message),
                    }
                } else {
                    Route::Forward(*message)
                }
            },
            Kind::Size => {
                if self.listens(message.hwnd) {
                    match &mut self.handler {
                        Some(handler) => {
                            let (width, height) = decode_size(message.lparam);
                            handler.on_resize(width, height);
                            Route::Delivered(Call::Resize(width, height))
                        },
                        None => Route::Forward(*message),
                    }
                } else {
                    Route::Forward(*message)
                }
            },
            _ => Route::Forward(*message),
        }
    }

    /// Whether a message for the window `target` is one for this window while its loop
    /// has seen no destroy message.
    fn listens(&self, target: isize) -> (listens: bool)
        ensures
            listens == (self.pace is Running && target == self.hwnd),
    {
        match self.pace {
            Pace::Running => target == self.hwnd,
            _ => false,
        }
    }

    /// One turn of the loop: takes what a retrieval came back with and says what the loop
    /// does next. The quit sentinel terminates the window.
    pub fn pump(&mut self, retrieval: &Retrieval) -> (step: Step)
        ensures
            step == step_of(*retrieval),
            final(self).hwnd() == old(self).hwnd(),
            final(self).phase() == phase_pumped(old(self).phase(), *retrieval),
            final(self).slot() == old(self).slot(),
    {
        if retrieval.status == -1 {
            Step::Fail(Error::PlatformCallFailed(retrieval.code))
        } else {
            match classify(retrieval.message.kind) {
                Kind::Quit => {
                    self.pace = Pace::Terminated;
                    Step::Stop
                },
                _ => Step::Dispatch(retrieval.message),
            }
        }
    }

    /// Attaches `handler` and runs the loop over what the queue yields, first to last,
    /// dispatching each message straight to the callback as the platform would.
    ///
    /// The loop ends with the first retrieval that failed, whose error is returned, or
    /// with the quit sentinel. If the queue runs out before that, the loop would wait, and
    /// the result says so.
    pub fn run(&mut self, handler: EH, queue: &Vec<Retrieval>) -> (result: Result<Exit, Error>)
        ensures
            result == old(self).run_of(queue@).result,
            final(self).hwnd() == old(self).hwnd(),
            final(self).phase() == old(self).run_of(queue@).phase,
            final(self).slot() is Some,
            delivered(handler, old(self).run_of(queue@).calls, final(self).slot().unwrap()),
    {
        let ghost whole = self.run_of(queue@);
        let ghost first = handler;
        self.attach(handler);
        let ghost mut calls: Seq<Call> = Seq::empty();
        let mut index: usize = 0;
        proof {
            assert(queue@.skip(0) =~= queue@);
            assert(calls + whole.calls =~= whole.calls);
        }
        while index < queue.len()
            invariant
                index <= queue.len(),
                whole == old(self).run_of(queue@),
                first == handler,
                self.hwnd() == old(self).hwnd(),
                self.slot() is Some,
                delivered(first, calls, self.slot().unwrap()),
                resumes(
                    whole,
                    calls,
                    index as nat,
                    replay(self.hwnd(), self.phase(), queue@.skip(index as int)),
                ),
            decreases queue.len() - index,
        {
            let ghost rest = queue@.skip(index as int);
            let ghost before = *self;
            proof {
                assert(rest.first() == queue@[index as int]);
                assert(rest.drop_first() =~= queue@.skip(index + 1));
            }
            let retrieval = queue[index];
            match self.pump(&retrieval) {
                Step::Fail(error) => {
                    proof {
                        assert(calls + Seq::<Call>::empty() =~= calls);
                    }
                    return Err(error);
                },
                Step::Stop => {
                    proof {
                        assert(calls + Seq::<Call>::empty() =~= calls);
                    }
                    return Ok(Exit::Quit);
                },
                Step::Dispatch(message) => {
                    let route = self.callback(&message);
                    proof {
                        let made = calls_of(route);
                        let next = replay(self.hwnd(), self.phase(), queue@.skip(index + 1));
                        assert(calls + (made + next.calls) =~= (calls + made) + next.calls);
                        match route {
                            Route::Delivered(call) => {
                                assert((calls + made).drop_last() =~= calls);
                                assert((calls + made).last() == call);
                                assert(before.slot().unwrap().handled(
                                    (calls + made).last(),
                                    &self.slot().unwrap(),
                                ));
                            },
                            _ => {
                                assert(calls + made =~= calls);
                            },
                        }
                        calls = calls + made;
                    }
                },
            }
            index = index + 1;
        }
        proof {
            assert(queue@.skip(index as int) =~= Seq::<Retrieval>::empty());
            assert(calls + Seq::<Call>::empty() =~= calls);
        }
        Ok(Exit::Waiting)
    }
}

/// A created window's slot is empty and a bound window's slot holds a handler: the slot
/// holds no handler before the first attachment, and a handler is bound only by being
/// stored in the slot.
pub proof fn lemma_phase_and_slot<EH: EventHandler>(window: Window<EH>)
    ensures
        window.phase() is Created ==> window.slot() is None,
        window.phase() is Bound ==> window.slot() is Some,
{
}

/// Of two attachments to one window the later one wins: the window is as if the earlier
/// had never been made, and its slot holds the later handler alone.
pub proof fn lemma_last_attachment_wins<EH: EventHandler>(window: Window<EH>, first: EH, second: EH)
    ensures
        window.attached(first).attached(second) == window.attached(second),
        window.attached(first).attached(second).slot() == Some(second),
        window.attached(first).attached(second).phase() == phase_attached(window.phase()),
{
}

} // verus!
