//! What a handler is: the object that paint and resize messages are forwarded to.
use vstd::prelude::*;

verus! {

/// One call made on a handler.
#[derive(Clone, Copy, Debug, PartialEq, Eq, Structural)]
pub enum Call {
    /// `on_paint()`.
    Paint,
    /// `on_resize(width, height)`.
    Resize(u32, u32),
}

/// The capability a window's handler must have.
///
/// A handler may say, in `handled`, how each call changes it. The library promises nothing
/// about a handler on its own account: its contracts only pass on what `handled` says, for
/// exactly the calls it makes. A handler that says nothing keeps the default, which allows
/// every change.
pub trait EventHandler {
    /// Whether `call`, made on `self`, may leave the handler as `after`.
    open spec fn handled(&self, call: Call, after: &Self) -> bool {
        true
    }

    /// The window has to be painted. The shim does not acknowledge the paint to the
    /// platform: a handler that does not do so itself is asked again and again.
    fn on_paint(&mut self)
        ensures
            old(self).handled(Call::Paint, final(self)),
    ;

    /// The window's client area now measures `width` by `height`.
    fn on_resize(&mut self, width: u32, height: u32)
        ensures
            old(self).handled(Call::Resize(width, height), final(self)),
    ;
}

/// Whether the calls of `calls`, made in order on a handler that starts as `before`, may
/// leave it as `after`.
pub open spec fn delivered<EH: EventHandler>(before: EH, calls: Seq<Call>, after: EH) -> bool
    decreases calls.len(),
{
    if calls.len() == 0 {
        after == before
    } else {
        exists|middle: EH|
            delivered(before, calls.drop_last(), middle) && #[trigger] middle.handled(
                calls.last(),
                &after,
            )
    }
}

/// A handler that keeps count: how often it was asked to paint, and the last size it was
/// told.
#[derive(Clone, Copy, Debug, PartialEq, Eq)]
pub struct Tally {
    /// The number of paint calls so far; it stays at `u64::MAX` once it gets there.
    pub paints: u64,
    /// The size of the last resize call, if there was one.
    pub size: Option<(u32, u32)>,
}

impl Tally {
    /// A tally that has seen no call.
    pub fn new() -> (tally: Tally)
        ensures
            tally == (Tally { paints: 0, size: None }),
    {
        Tally { paints: 0, size: None }
    }
}

impl EventHandler for Tally {
    open spec fn handled(&self, call: Call, after: &Self) -> bool {
        match call {
            Call::Paint => *after == (Tally {
                paints: if self.paints < u64::MAX {
                    (self.paints + 1) as u64
                } else {
                    self.paints
                },
                size: self.size,
            }),
            Call::Resize(width, height) => *after == (Tally {
                paints: self.paints,
                size: Some((width, height)),
            }),
        }
    }

    fn on_paint(&mut self) {
        if self.paints < u64::MAX {
            self.paints = self.paints + 1;
        }
    }

    fn on_resize(&mut self, width: u32, height: u32) {
        self.size = Some((width, height));
    }
}

} // verus!
