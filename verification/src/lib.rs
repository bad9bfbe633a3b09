//! A verified core for owning one top-level window on a desktop windowing system.
//!
//! The platform itself is never called from here. Every decision the shim has to make is a
//! function from plain values to plain values with a proved contract; the caller performs
//! the platform work in between and hands the results back.
//!
//! * [`factory`]: which platform calls create a window, in which order, and with what.
//! * [`window`]: a window, the handler attached to it, the callback and the loop.
//! * [`dispatch`]: the rules of the callback, and what follows from them.
//! * [`pump`]: the rules of the loop, and what follows from them.
//! * [`message`]: message records, their kinds, and the size packed into a resize.
//! * [`handler`]: the trait a handler implements.
pub mod dispatch;
pub mod error;
pub mod factory;
pub mod handler;
pub mod message;
mod platform;
pub mod pump;
pub mod window;

pub use crate::dispatch::{Phase, Route};
pub use crate::error::Error;
pub use crate::factory::{
    CreateRequest, Creation, Cursor, Factory, Progress, Rect, Request, Response, Stage,
    WindowClass,
};
pub use crate::handler::{Call, EventHandler, Tally};
pub use crate::message::{classify, decode_size, Kind, Message};
pub use crate::pump::{Exit, Retrieval, Step};
pub use crate::window::Window;
