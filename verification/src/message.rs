//! Message records, the kinds the shim tells apart, and the size packed into a resize.
use crate::platform::{wm_destroy, wm_paint, wm_quit, wm_size};
use vstd::prelude::*;

verus! {

/// One record pulled from the platform's message queue.
#[derive(Clone, Copy, Debug, PartialEq, Eq, Structural)]
pub struct Message {
    /// The window the message is for.
    pub hwnd: isize,
    /// The message kind code.
    pub kind: u32,
    /// The first parameter word.
    pub wparam: usize,
    /// The second parameter word.
    pub lparam: isize,
}

/// What a message kind code means to the shim.
#[derive(Clone, Copy, Debug, PartialEq, Eq, Structural)]
pub enum Kind {
    /// The window is being destroyed.
    Destroy,
    /// The window is asked to paint itself.
    Paint,
    /// The window's size has changed.
    Size,
    /// The quit sentinel.
    Quit,
    /// Any other message.
    Other,
}

/// The meaning of a message kind code.
pub open spec fn kind_of(code: u32) -> Kind {
    if code == 0x0002 {
        Kind::Destroy
    } else if code == 0x000F {
        Kind::Paint
    } else if code == 0x0005 {
        Kind::Size
    } else if code == 0x0012 {
        Kind::Quit
    } else {
        Kind::Other
    }
}

/// The low sixteen bits of a parameter word, as a number.
pub open spec fn low_word(word: int) -> int {
    word % 0x1_0000
}

/// The sixteen bits above the low sixteen of a parameter word, as a number.
pub open spec fn high_word(word: int) -> int {
    (word / 0x1_0000) % 0x1_0000
}

/// The width and height that the second parameter of a size-changed message carries: the
/// width in its low sixteen bits, the height in the sixteen bits above them.
pub open spec fn size_in(lparam: isize) -> (u32, u32) {
    (low_word(lparam as int) as u32, high_word(lparam as int) as u32)
}

/// Tells what a message kind code means.
pub fn classify(code: u32) -> (kind: Kind)
    ensures
        kind == kind_of(code),
{
    if code == wm_destroy() {
        Kind::Destroy
    } else if code == wm_paint() {
        Kind::Paint
    } else if code == wm_size() {
        Kind::Size
    } else if code == wm_quit() {
        Kind::Quit
    } else {
        Kind::Other
    }
}

/// Unpacks the width and height from the second parameter of a size-changed message.
pub fn decode_size(lparam: isize) -> (size: (u32, u32))
    ensures
        size == size_in(lparam),
        size.0 <= 0xFFFF,
        size.1 <= 0xFFFF,
{
    let low: isize = lparam & 0xFFFF;
    let high: isize = (lparam >> 16) & 0xFFFF;
    assert(0 <= lparam & 0xFFFF <= 0xFFFF) by (bit_vector);
    assert(0 <= (lparam >> 16) & 0xFFFF <= 0xFFFF) by (bit_vector);
    assert(lparam & 0xFFFF == lparam as int % 0x1_0000) by (bit_vector);
    assert((lparam >> 16) & 0xFFFF == (lparam as int / 0x1_0000) % 0x1_0000) by (bit_vector);
    (low as u32, high as u32)
}

/// A width and a height of at most sixteen bits each, packed as `(height << 16) | width`,
/// unpack to exactly that width and that height.
pub proof fn lemma_decode_packed(width: isize, height: isize)
    requires
        0 <= width <= 0xFFFF,
        0 <= height <= 0xFFFF,
    ensures
        size_in((height << 16) | width) == (width as u32, height as u32),
{
    let packed: isize = (height << 16) | width;
    assert(packed as int % 0x1_0000 == width) by (bit_vector)
        requires
            packed == (height << 16) | width,
            0 <= width <= 0xFFFF,
            0 <= height <= 0xFFFF,
    ;
    assert((packed as int / 0x1_0000) % 0x1_0000 == height) by (bit_vector)
        requires
            packed == (height << 16) | width,
            0 <= width <= 0xFFFF,
            0 <= height <= 0xFFFF,
    ;
}

} // verus!
