//! What the platform's callback does with one message.
//!
//! These are the rules alone, over plain values: the phase of a window, the message, and
//! the route the message takes. [`crate::window::Window::callback`] applies them.
use crate::handler::Call;
use crate::message::{kind_of, lemma_decode_packed, size_in, Kind, Message};
use vstd::prelude::*;

verus! {

/// Where a window stands in its life.
#[derive(Clone, Copy, Debug, PartialEq, Eq, Structural)]
pub enum Phase {
    /// The window exists and no handler is attached to it.
    Created,
    /// A handler is attached; paint and resize messages reach it.
    Bound,
    /// A destroy message has been seen; the quit sentinel is on its way.
    Quitting,
    /// The quit sentinel has been retrieved; the loop is over.
    Terminated,
}

/// What becomes of one message in the callback.
#[derive(Clone, Copy, Debug, PartialEq, Eq, Structural)]
pub enum Route {
    /// The quit sentinel is to be posted; the message counts as handled.
    Quit,
    /// The handler has received this call; the message counts as handled.
    Delivered(Call),
    /// This message, which is the one that came in, is to be passed to the platform's
    /// default window procedure, whose result is the callback's result.
    Forward(Message),
}

/// The callback's result for a message that counts as handled.
pub open spec fn handled_reply() -> isize {
    0
}

/// Whether a message for the window `target` reaches the handler of the window `hwnd` in
/// `phase`.
pub open spec fn reaches_handler(hwnd: isize, phase: Phase, target: isize) -> bool {
    phase is Bound && target == hwnd
}

/// The route of `message` in the callback, for the window `hwnd` in `phase`.
///
/// A destroy message always takes the quit route, whatever the window and its phase. A
/// paint or a size-changed message for this window is delivered to the handler while one
/// is bound. Everything else is forwarded.
pub open spec fn route_of(hwnd: isize, phase: Phase, message: Message) -> Route {
    match kind_of(message.kind) {
        Kind::Destroy => Route::Quit,
        Kind::Paint => if reaches_handler(hwnd, phase, message.hwnd) {
            Route::Delivered(Call::Paint)
        } else {
            Route::Forward(message)
        },
        Kind::Size => if reaches_handler(hwnd, phase, message.hwnd) {
            Route::Delivered(Call::Resize(size_in(message.lparam).0, size_in(message.lparam).1))
        } else {
            Route::Forward(message)
        },
        _ => Route::Forward(message),
    }
}

/// The phase after `message` went through the callback: a destroy message takes a created
/// or bound window to quitting; nothing else changes the phase.
pub open spec fn phase_after(phase: Phase, message: Message) -> Phase {
    if kind_of(message.kind) is Destroy && (phase is Created || phase is Bound) {
        Phase::Quitting
    } else {
        phase
    }
}

/// The phase after a handler was attached: a created window becomes bound; any other
/// phase stays.
pub open spec fn phase_attached(phase: Phase) -> Phase {
    if phase is Created {
        Phase::Bound
    } else {
        phase
    }
}

/// The calls that a route has made on the handler.
pub open spec fn calls_of(route: Route) -> Seq<Call> {
    match route {
        Route::Delivered(call) => seq![call],
        _ => Seq::empty(),
    }
}

impl Route {
    /// The callback's result on this route, where `forwarded` is what the default window
    /// procedure returned for the forwarded message: on the forward route that result,
    /// unchanged; on every other route the fixed result of a handled message.
    pub open spec fn reply_of(self, forwarded: isize) -> isize {
        match self {
            Route::Forward(_) => forwarded,
            _ => handled_reply(),
        }
    }

    /// Tells whether the message is to be passed to the default window procedure.
    pub fn forwards(&self) -> (forwards: bool)
        ensures
            forwards == (*self is Forward),
    {
        match self {
            Route::Forward(_) => true,
            _ => false,
        }
    }

    /// The callback's result on this route. `forwarded` is what the default window
    /// procedure returned for the forwarded message; it is read on the forward route only.
    pub fn reply(&self, forwarded: isize) -> (result: isize)
        ensures
            result == self.reply_of(forwarded),
    {
        match self {
            Route::Forward(_) => forwarded,
            _ => 0,
        }
    }
}

/// While no handler is attached, every message but a destroy message is forwarded as it
/// came, and the callback's result is whatever the default window procedure returned.
pub proof fn lemma_unattached_forwards(hwnd: isize, message: Message, forwarded: isize)
    requires
        !(kind_of(message.kind) is Destroy),
    ensures
        route_of(hwnd, Phase::Created, message) == Route::Forward(message),
        route_of(hwnd, Phase::Created, message).reply_of(forwarded) == forwarded,
{
}

/// A message that is neither paint, nor size-changed, nor destroy is forwarded as it came
/// in every phase, and the callback's result is whatever the default window procedure
/// returned.
pub proof fn lemma_unhandled_passthrough(
    hwnd: isize,
    phase: Phase,
    message: Message,
    forwarded: isize,
)
    requires
        !(kind_of(message.kind) is Paint),
        !(kind_of(message.kind) is Size),
        !(kind_of(message.kind) is Destroy),
    ensures
        route_of(hwnd, phase, message) == Route::Forward(message),
        route_of(hwnd, phase, message).reply_of(forwarded) == forwarded,
{
}

/// A size-changed message for a bound window whose second parameter is
/// `(height << 16) | width`, with `width` and `height` of at most sixteen bits, is
/// delivered as a resize to exactly `width` by `height`.
pub proof fn lemma_resize_decoding(hwnd: isize, message: Message, width: isize, height: isize)
    requires
        kind_of(message.kind) is Size,
        message.hwnd == hwnd,
        0 <= width <= 0xFFFF,
        0 <= height <= 0xFFFF,
        message.lparam == (height << 16) | width,
    ensures
        route_of(hwnd, Phase::Bound, message) == Route::Delivered(
            Call::Resize(width as u32, height as u32),
        ),
{
    lemma_decode_packed(width, height);
}

/// A destroy message is answered by posting the quit sentinel in every phase, and leaves
/// the window in a phase in which no message reaches the handler.
pub proof fn lemma_destroy_quits(hwnd: isize, phase: Phase, destroy: Message, later: Message)
    requires
        kind_of(destroy.kind) is Destroy,
    ensures
        route_of(hwnd, phase, destroy) == Route::Quit,
        phase_after(phase, destroy) is Quitting || phase_after(phase, destroy) is Terminated,
        !(route_of(hwnd, phase_after(phase, destroy), later) is Delivered),
{
}

} // verus!
