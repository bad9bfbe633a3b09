//! Creating a window: which platform calls are made, in which order, and with what.
//!
//! The caller performs each [`Request`] on the platform and reports what came back as a
//! [`Response`]; [`Creation::advance`] then says what to do next. The only state that
//! outlives one creation is the [`Factory`], which remembers that the window class has been
//! registered.
use crate::error::Error;
use crate::platform::{cs_hredraw, cs_vredraw, cw_usedefault, ws_overlappedwindow};
use vstd::prelude::*;

verus! {

/// A rectangle in screen units, as the platform measures one.
#[derive(Clone, Copy, Debug, PartialEq, Eq, Structural)]
pub struct Rect {
    pub left: i32,
    pub top: i32,
    pub right: i32,
    pub bottom: i32,
}

/// The cursor shown over a window of the class.
#[derive(Clone, Copy, Debug, PartialEq, Eq, Structural)]
pub enum Cursor {
    /// The platform's standard arrow.
    Arrow,
}

/// How the windows of this library's class behave.
#[derive(Clone, Copy, Debug, PartialEq, Eq)]
pub struct WindowClass {
    /// The class style bits.
    pub style: u32,
    /// The cursor of the class.
    pub cursor: Cursor,
    /// The name the class is registered under.
    pub name: &'static str,
}

/// What window creation asks of the platform.
#[derive(Clone, Copy, Debug, PartialEq, Eq)]
pub struct CreateRequest<'a> {
    /// The name of the registered class.
    pub class: &'static str,
    /// The window's title.
    pub title: &'a str,
    /// The extended style bits.
    pub ex_style: u32,
    /// The style bits.
    pub style: u32,
    /// The horizontal position.
    pub x: i32,
    /// The vertical position.
    pub y: i32,
    /// The outer width.
    pub width: i32,
    /// The outer height.
    pub height: i32,
    /// The parent window's handle; zero for none.
    pub parent: isize,
    /// The menu's handle; zero for none.
    pub menu: isize,
}

/// One call that the caller makes on the platform.
#[derive(Clone, Copy, Debug, PartialEq, Eq)]
pub enum Request<'a> {
    /// Register the window class, with the window procedure of the caller, for the current
    /// module.
    Register(WindowClass),
    /// Grow `rect` from a client area to the outer rectangle of a window of `style`, with
    /// a menu bar if `menu`.
    Adjust { rect: Rect, style: u32, menu: bool },
    /// Create the window, for the current module.
    Create(CreateRequest<'a>),
}

/// What the platform answered to a [`Request`].
#[derive(Clone, Copy, Debug, PartialEq, Eq, Structural)]
pub enum Response {
    /// The call, or a call needed to prepare it, reported failure with this error code.
    Failed(i32),
    /// Class registration returned `atom`, and the thread's last error code is `code`.
    /// An atom of zero means that the registration failed.
    Registered { atom: u16, code: i32 },
    /// The rectangle was adjusted to this one.
    Adjusted(Rect),
    /// Window creation returned `handle`, and the thread's last error code is `code`.
    /// A handle of zero means that the creation failed.
    Created { handle: isize, code: i32 },
}

/// How far a creation has come.
#[derive(Clone, Copy, Debug, PartialEq, Eq, Structural)]
pub enum Stage {
    /// The class is to be registered.
    Registering,
    /// The client rectangle is to be adjusted.
    Adjusting,
    /// The window is to be created with this outer size.
    Creating { width: i32, height: i32 },
}

/// One window creation under way.
#[derive(Clone, Copy, Debug, PartialEq, Eq)]
pub struct Creation<'a> {
    /// The client size asked for, width first.
    pub size: (u32, u32),
    /// The title asked for.
    pub title: &'a str,
    /// How far the creation has come.
    pub stage: Stage,
}

/// What follows a platform answer.
#[derive(Clone, Copy, Debug, PartialEq, Eq)]
pub enum Progress<'a> {
    /// The creation goes on; its next request is to be performed.
    Ask(Creation<'a>),
    /// The window exists; this is its handle.
    Ready(isize),
    /// The creation has failed and is over.
    Failed(Error),
}

/// The process-wide gate that lets the window class be registered once.
#[derive(Debug)]
pub struct Factory {
    registered: bool,
}

/// The class of every window of this library: the whole window is redrawn when its width
/// or its height changes, and the cursor is the arrow.
pub open spec fn window_class() -> WindowClass {
    WindowClass { style: 0x0003, cursor: Cursor::Arrow, name: "winwin-rs-class-name" }
}

/// The style of every window of this library.
pub open spec fn window_style() -> u32 {
    0x00CF_0000
}

/// The coordinate that leaves a window's position to the platform.
pub open spec fn default_position() -> i32 {
    i32::MIN
}

/// The rectangle at the origin that is `size.0` wide and `size.1` high. A width or height
/// beyond `i32::MAX` is cut to its low 32 bits, read as an `i32`.
pub open spec fn client_rect(size: (u32, u32)) -> Rect {
    Rect { left: 0, top: 0, right: size.0 as i32, bottom: size.1 as i32 }
}

/// Whether the width and the height of `rect` are each an `i32`.
pub open spec fn extent_fits(rect: Rect) -> bool {
    &&& i32::MIN <= rect.right - rect.left <= i32::MAX
    &&& i32::MIN <= rect.bottom - rect.top <= i32::MAX
}

impl<'a> Creation<'a> {
    /// The request that is to be performed at this stage.
    pub open spec fn pending(self) -> Request<'a> {
        match self.stage {
            Stage::Registering => Request::Register(window_class()),
            Stage::Adjusting => Request::Adjust {
                rect: client_rect(self.size),
                style: window_style(),
                menu: false,
            },
            Stage::Creating { width, height } => Request::Create(
                CreateRequest {
                    class: window_class().name,
                    title: self.title,
                    ex_style: 0,
                    style: window_style(),
                    x: default_position(),
                    y: default_position(),
                    width,
                    height,
                    parent: 0,
                    menu: 0,
                },
            ),
        }
    }

    /// Whether `response` can be the answer to the pending request: it is a failure, or it
    /// is of the kind that the request calls for, an adjusted rectangle being one whose
    /// width and height are each an `i32`.
    pub open spec fn expects(self, response: Response) -> bool {
        match response {
            Response::Failed(_) => true,
            Response::Registered { .. } => self.stage is Registering,
            Response::Adjusted(rect) => self.stage is Adjusting && extent_fits(rect),
            Response::Created { .. } => self.stage is Creating,
        }
    }

    /// What follows `response`: a failed call ends the creation with the platform's error
    /// code; a registered class is followed by the adjustment, an adjusted rectangle by
    /// the creation of a window of that rectangle's width and height, and a created window
    /// ends the creation with its handle.
    pub open spec fn after(self, response: Response) -> Progress<'a> {
        match response {
            Response::Failed(code) => Progress::Failed(Error::PlatformCallFailed(code)),
            Response::Registered { atom, code } => if atom == 0 {
                Progress::Failed(Error::PlatformCallFailed(code))
            } else {
                Progress::Ask(Creation { stage: Stage::Adjusting, ..self })
            },
            Response::Adjusted(rect) => Progress::Ask(
                Creation {
                    stage: Stage::Creating {
                        width: (rect.right - rect.left) as i32,
                        height: (rect.bottom - rect.top) as i32,
                    },
                    ..self
                },
            ),
            Response::Created { handle, code } => if handle == 0 {
                Progress::Failed(Error::PlatformCallFailed(code))
            } else {
                Progress::Ready(handle)
            },
        }
    }

    /// Whether `response` tells that the class is now registered.
    pub open spec fn registers(self, response: Response) -> bool {
        match response {
            Response::Registered { atom, .. } => self.stage is Registering && atom != 0,
            _ => false,
        }
    }

    /// The request that is to be performed at this stage.
    pub fn request(&self) -> (request: Request<'a>)
        ensures
            request == self.pending(),
    {
        match self.stage {
            Stage::Registering => {
                let horizontal: u32 = cs_hredraw();
                let vertical: u32 = cs_vredraw();
                assert(0x0002u32 | 0x0001u32 == 0x0003u32) by (bit_vector);
                Request::Register(
                    WindowClass {
                        style: horizontal | vertical,
                        cursor: Cursor::Arrow,
                        name: "winwin-rs-class-name",
                    },
                )
            },
            Stage::Adjusting => Request::Adjust {
                rect: Rect {
                    left: 0,
                    top: 0,
                    right: #[verifier::truncate]
                    (self.size.0 as i32),
                    bottom: #[verifier::truncate]
                    (self.size.1 as i32),
                },
                style: ws_overlappedwindow(),
                menu: false,
            },
            Stage::Creating { width, height } => Request::Create(
                CreateRequest {
                    class: "winwin-rs-class-name",
                    title: self.title,
                    ex_style: 0,
                    style: ws_overlappedwindow(),
                    x: cw_usedefault(),
                    y: cw_usedefault(),
                    width,
                    height,
                    parent: 0,
                    menu: 0,
                },
            ),
        }
    }

    /// Tells whether `response` can be the answer to the pending request.
    pub fn accepts(&self, response: &Response) -> (accepted: bool)
        ensures
            accepted == self.expects(*response),
    {
        match response {
            Response::Failed(_) => true,
            Response::Registered { .. } => match self.stage {
                Stage::Registering => true,
                _ => false,
            },
            Response::Adjusted(rect) => match self.stage {
                Stage::Adjusting => rect.right.checked_sub(rect.left).is_some()
                    && rect.bottom.checked_sub(rect.top).is_some(),
                _ => false,
            },
            Response::Created { .. } => match self.stage {
                Stage::Creating { .. } => true,
                _ => false,
            },
        }
    }

    /// Takes the platform's answer to the pending request and says what follows. The
    /// factory learns of a registration that succeeded.
    pub fn advance(self, factory: &mut Factory, response: Response) -> (progress: Progress<'a>)
        requires
            self.expects(response),
        ensures
            progress == self.after(response),
            final(factory).is_registered() == (old(factory).is_registered() || self.registers(
                response,
            )),
    {
        match response {
            Response::Failed(code) => Progress::Failed(Error::PlatformCallFailed(code)),
            Response::Registered { atom, code } => {
                if atom == 0 {
                    Progress::Failed(Error::PlatformCallFailed(code))
                } else {
                    factory.registered = true;
                    Progress::Ask(
                        Creation { size: self.size, title: self.title, stage: Stage::Adjusting },
                    )
                }
            },
            Response::Adjusted(rect) => Progress::Ask(
                Creation {
                    size: self.size,
                    title: self.title,
                    stage: Stage::Creating {
                        width: rect.right - rect.left,
                        height: rect.bottom - rect.top,
                    },
                },
            ),
            Response::Created { handle, code } => {
                if handle == 0 {
                    Progress::Failed(Error::PlatformCallFailed(code))
                } else {
                    Progress::Ready(handle)
                }
            },
        }
    }
}

impl Factory {
    /// Whether the window class has been registered.
    pub closed spec fn is_registered(&self) -> bool {
        self.registered
    }

    /// A factory that has registered nothing yet.
    pub fn new() -> (factory: Factory)
        ensures
            !factory.is_registered(),
    {
        Factory { registered: false }
    }

    /// Tells whether the window class has been registered.
    pub fn registered(&self) -> (registered: bool)
        ensures
            registered == self.is_registered(),
    {
        self.registered
    }

    /// Begins the creation of a window whose client area is `size.0` wide and `size.1`
    /// high and whose title is `title`. The class is registered first unless it already
    /// has been.
    pub fn begin<'a>(&self, size: (u32, u32), title: &'a str) -> (creation: Creation<'a>)
        ensures
            creation == (Creation {
                size,
                title,
                stage: if self.is_registered() {
                    Stage::Adjusting
                } else {
                    Stage::Registering
                },
            }),
    {
        let stage = if self.registered {
            Stage::Adjusting
        } else {
            Stage::Registering
        };
        Creation { size, title, stage }
    }
}

} // verus!
