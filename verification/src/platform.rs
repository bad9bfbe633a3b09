//! The numbers that the `windows` crate gives to the message kinds and styles used here.
//!
//! Nothing in this file is proved. Each function hands out one constant of the `windows`
//! crate and states, on trust, the value that the crate's source gives it. The rest of the
//! library reads these constants only through these functions.
use vstd::prelude::*;
use windows::Win32::UI::WindowsAndMessaging::{
    CS_HREDRAW, CS_VREDRAW, CW_USEDEFAULT, WM_DESTROY, WM_PAINT, WM_QUIT, WM_SIZE,
    WS_OVERLAPPEDWINDOW,
};

verus! {

/// `WM_DESTROY` of the `windows` crate, the kind of the message sent when a window is being
/// destroyed. Trusted: the constant is the `u32` 2.
#[verifier::external_body]
pub(crate) fn wm_destroy() -> (code: u32)
    ensures
        code == 0x0002,
{
    WM_DESTROY
}

/// `WM_SIZE` of the `windows` crate, the kind of the message sent after a window's size has
/// changed. Trusted: the constant is the `u32` 5.
#[verifier::external_body]
pub(crate) fn wm_size() -> (code: u32)
    ensures
        code == 0x0005,
{
    WM_SIZE
}

/// `WM_PAINT` of the `windows` crate, the kind of the message that asks a window to paint
/// itself. Trusted: the constant is the `u32` 15.
#[verifier::external_body]
pub(crate) fn wm_paint() -> (code: u32)
    ensures
        code == 0x000F,
{
    WM_PAINT
}

/// `WM_QUIT` of the `windows` crate, the kind of the quit sentinel. Trusted: the constant is
/// the `u32` 18.
#[verifier::external_body]
pub(crate) fn wm_quit() -> (code: u32)
    ensures
        code == 0x0012,
{
    WM_QUIT
}

/// The bits of `CS_HREDRAW` of the `windows` crate, the class style that redraws the whole
/// window when its width changes. Trusted: the constant wraps the `u32` 2.
#[verifier::external_body]
pub(crate) fn cs_hredraw() -> (bits: u32)
    ensures
        bits == 0x0002,
{
    CS_HREDRAW.0
}

/// The bits of `CS_VREDRAW` of the `windows` crate, the class style that redraws the whole
/// window when its height changes. Trusted: the constant wraps the `u32` 1.
#[verifier::external_body]
pub(crate) fn cs_vredraw() -> (bits: u32)
    ensures
        bits == 0x0001,
{
    CS_VREDRAW.0
}

/// The bits of `WS_OVERLAPPEDWINDOW` of the `windows` crate, the style of a window with a
/// title bar, a system menu, a sizing border and minimize and maximize boxes. Trusted: the
/// constant wraps the `u32` 13565952, which is `0x00CF_0000`.
#[verifier::external_body]
pub(crate) fn ws_overlappedwindow() -> (bits: u32)
    ensures
        bits == 0x00CF_0000,
{
    WS_OVERLAPPEDWINDOW.0
}

/// `CW_USEDEFAULT` of the `windows` crate, the coordinate that leaves a window's position to
/// the platform. Trusted: the constant is the `i32` -2147483648.
#[verifier::external_body]
pub(crate) fn cw_usedefault() -> (coordinate: i32)
    ensures
        coordinate == -0x8000_0000,
{
    CW_USEDEFAULT
}

} // verus!
