use windows::Win32::UI::WindowsAndMessaging::{WM_DESTROY, WM_PAINT, WM_QUIT, WM_SIZE};
use winwin::{
    Call, Creation, Error, EventHandler, Exit, Factory, Message, Phase, Progress, Rect, Request,
    Response, Retrieval, Route, Stage, Step, Window,
};

/// A handler written as a user of the library would write one.
#[derive(Debug, Default, PartialEq)]
struct App {
    paints: u32,
    width: u32,
    height: u32,
    resizes: u32,
}

impl EventHandler for App {
    fn on_paint(&mut self) {
        self.paints += 1;
    }

    fn on_resize(&mut self, width: u32, height: u32) {
        self.width = width;
        self.height = height;
        self.resizes += 1;
    }
}

fn message(hwnd: isize, kind: u32, lparam: isize) -> Message {
    Message { hwnd, kind, wparam: 0, lparam }
}

fn retrieved(hwnd: isize, kind: u32, lparam: isize) -> Retrieval {
    Retrieval { status: 1, code: 0, message: message(hwnd, kind, lparam) }
}

fn quit() -> Retrieval {
    Retrieval { status: 0, code: 0, message: message(0, WM_QUIT, 0) }
}

/// Plays the platform for one creation: every call succeeds, the frame adds 8 units at the
/// sides and the bottom and 31 at the top, and the window gets the handle 0x5151.
fn create(factory: &mut Factory, size: (u32, u32), title: &str) -> Result<isize, Error> {
    let mut creation: Creation = factory.begin(size, title);
    loop {
        let response = match creation.request() {
            Request::Register(_) => Response::Registered { atom: 0xC001, code: 0 },
            Request::Adjust { rect, .. } => Response::Adjusted(Rect {
                left: rect.left - 8,
                top: rect.top - 31,
                right: rect.right + 8,
                bottom: rect.bottom + 8,
            }),
            Request::Create(_) => Response::Created { handle: 0x5151, code: 0 },
        };
        assert!(creation.accepts(&response));
        match creation.advance(factory, response) {
            Progress::Ask(next) => creation = next,
            Progress::Ready(handle) => return Ok(handle),
            Progress::Failed(error) => return Err(error),
        }
    }
}

#[test]
fn test() {
    let mut factory = Factory::new();
    let handle = create(&mut factory, (400, 300), "Window").unwrap();
    let mut window: Window<App> = Window::new(handle);
    assert_eq!(window.hwnd(), handle);
    assert_eq!(window.phase(), Phase::Created);

    window.attach(App::default());
    assert_eq!(window.phase(), Phase::Bound);

    let resize = message(handle, WM_SIZE, (480 << 16) | 640);
    assert_eq!(window.callback(&resize), Route::Delivered(Call::Resize(640, 480)));
    let app = window.handler().unwrap();
    assert_eq!((app.width, app.height), (640, 480));

    let destroy = retrieved(handle, WM_DESTROY, 0);
    assert_eq!(window.pump(&destroy), Step::Dispatch(destroy.message));
    assert_eq!(window.callback(&destroy.message), Route::Quit);
    assert_eq!(window.phase(), Phase::Quitting);

    assert_eq!(window.pump(&quit()), Step::Stop);
    assert_eq!(window.phase(), Phase::Terminated);

    assert_eq!(
        window.callback(&message(handle, WM_PAINT, 0)),
        Route::Forward(message(handle, WM_PAINT, 0))
    );
    assert_eq!(
        window.into_handler(),
        Some(App { paints: 0, width: 640, height: 480, resizes: 1 })
    );
}

#[test]
fn scenario_through_run() {
    let mut factory = Factory::new();
    let handle = create(&mut factory, (400, 300), "Window").unwrap();
    let mut window: Window<App> = Window::new(handle);
    let queue = vec![
        retrieved(handle, WM_PAINT, 0),
        retrieved(handle, WM_SIZE, (480 << 16) | 640),
        retrieved(handle, WM_DESTROY, 0),
        quit(),
        retrieved(handle, WM_PAINT, 0),
        retrieved(handle, WM_SIZE, (1 << 16) | 1),
    ];
    assert_eq!(window.run(App::default(), &queue), Ok(Exit::Quit));
    assert_eq!(window.phase(), Phase::Terminated);
    assert_eq!(
        window.into_handler(),
        Some(App { paints: 1, width: 640, height: 480, resizes: 1 })
    );
}

#[test]
fn new_window_is_created_and_unattached() {
    let window: Window<App> = Window::new(42);
    assert_eq!(window.hwnd(), 42);
    assert_eq!(window.phase(), Phase::Created);
    assert!(window.handler().is_none());
    assert_eq!(window.into_handler(), None);
}

#[test]
fn unattached_window_forwards_everything_but_destroy() {
    let mut window: Window<App> = Window::new(42);
    for kind in [WM_PAINT, WM_SIZE, WM_QUIT, 0, 1, 0x0200, u32::MAX] {
        let incoming = Message { hwnd: 42, kind, wparam: 3, lparam: -9 };
        let route = window.callback(&incoming);
        assert_eq!(route, Route::Forward(incoming));
        assert!(route.forwards());
        for default_result in [0, 1, -1, isize::MAX, isize::MIN] {
            assert_eq!(route.reply(default_result), default_result);
        }
        assert_eq!(window.phase(), Phase::Created);
    }
}

#[test]
fn destroy_quits_without_a_handler() {
    let mut window: Window<App> = Window::new(42);
    let route = window.callback(&message(42, WM_DESTROY, 0));
    assert_eq!(route, Route::Quit);
    assert!(!route.forwards());
    assert_eq!(route.reply(77), 0);
    assert_eq!(window.phase(), Phase::Quitting);
}

#[test]
fn destroy_for_another_window_quits_too() {
    let mut window: Window<App> = Window::new(42);
    window.attach(App::default());
    assert_eq!(window.callback(&message(43, WM_DESTROY, 0)), Route::Quit);
    assert_eq!(window.phase(), Phase::Quitting);
}

#[test]
fn bound_window_delivers_paint_and_resize() {
    let mut window: Window<App> = Window::new(42);
    window.attach(App::default());
    let paint = window.callback(&message(42, WM_PAINT, 0));
    assert_eq!(paint, Route::Delivered(Call::Paint));
    assert_eq!(paint.reply(123), 0);
    assert_eq!(window.callback(&message(42, WM_PAINT, 0)), Route::Delivered(Call::Paint));
    let resize = window.callback(&message(42, WM_SIZE, (600 << 16) | 800));
    assert_eq!(resize, Route::Delivered(Call::Resize(800, 600)));
    assert_eq!(resize.reply(123), 0);
    assert_eq!(window.phase(), Phase::Bound);
    assert_eq!(
        window.into_handler(),
        Some(App { paints: 2, width: 800, height: 600, resizes: 1 })
    );
}

#[test]
fn bound_window_forwards_other_kinds_unchanged() {
    let mut window: Window<App> = Window::new(42);
    window.attach(App::default());
    for kind in [0, 1, 3, 4, 6, 0x0010, 0x0011, WM_QUIT, 0x0100, 0x0200, u32::MAX] {
        let incoming = Message { hwnd: 42, kind, wparam: usize::MAX, lparam: isize::MIN };
        let route = window.callback(&incoming);
        assert_eq!(route, Route::Forward(incoming));
        assert_eq!(route.reply(-12345), -12345);
    }
    assert_eq!(window.into_handler(), Some(App::default()));
}

#[test]
fn message_for_another_window_does_not_reach_the_handler() {
    let mut window: Window<App> = Window::new(42);
    window.attach(App::default());
    let paint = message(43, WM_PAINT, 0);
    assert_eq!(window.callback(&paint), Route::Forward(paint));
    let resize = message(43, WM_SIZE, (600 << 16) | 800);
    assert_eq!(window.callback(&resize), Route::Forward(resize));
    assert_eq!(window.into_handler(), Some(App::default()));
}

#[test]
fn resize_decodes_every_corner() {
    let mut window: Window<App> = Window::new(1);
    window.attach(App::default());
    for (width, height) in [(0, 0), (1, 0), (0, 1), (0xFFFF, 0), (0, 0xFFFF), (0xFFFF, 0xFFFF), (640, 480)] {
        let lparam = ((height as isize) << 16) | (width as isize);
        let route = window.callback(&message(1, WM_SIZE, lparam));
        assert_eq!(route, Route::Delivered(Call::Resize(width, height)));
        let app = window.handler().unwrap();
        assert_eq!((app.width, app.height), (width, height));
    }
}

#[test]
fn second_attachment_replaces_the_first() {
    let mut window: Window<App> = Window::new(42);
    let first = App { paints: 100, width: 1, height: 2, resizes: 3 };
    let second = App { paints: 200, width: 4, height: 5, resizes: 6 };
    assert_eq!(window.attach(first), None);
    assert_eq!(
        window.attach(second),
        Some(App { paints: 100, width: 1, height: 2, resizes: 3 })
    );
    assert_eq!(window.phase(), Phase::Bound);
    window.callback(&message(42, WM_PAINT, 0));
    window.callback(&message(42, WM_SIZE, (9 << 16) | 8));
    assert_eq!(
        window.into_handler(),
        Some(App { paints: 201, width: 8, height: 9, resizes: 7 })
    );
}

#[test]
fn attachment_after_destroy_never_gets_a_call() {
    let mut window: Window<App> = Window::new(42);
    window.callback(&message(42, WM_DESTROY, 0));
    assert_eq!(window.attach(App::default()), None);
    assert_eq!(window.phase(), Phase::Quitting);
    let paint = message(42, WM_PAINT, 0);
    assert_eq!(window.callback(&paint), Route::Forward(paint));
    window.pump(&quit());
    assert_eq!(window.attach(App { paints: 5, ..App::default() }), Some(App::default()));
    assert_eq!(window.phase(), Phase::Terminated);
    assert_eq!(window.callback(&paint), Route::Forward(paint));
    assert_eq!(window.into_handler(), Some(App { paints: 5, ..App::default() }));
}

#[test]
fn nothing_leaves_the_terminated_phase() {
    let mut window: Window<App> = Window::new(42);
    window.attach(App::default());
    assert_eq!(window.pump(&quit()), Step::Stop);
    assert_eq!(window.phase(), Phase::Terminated);
    window.callback(&message(42, WM_DESTROY, 0));
    assert_eq!(window.phase(), Phase::Terminated);
    window.pump(&retrieved(42, WM_PAINT, 0));
    assert_eq!(window.phase(), Phase::Terminated);
    window.attach(App::default());
    assert_eq!(window.phase(), Phase::Terminated);
}

#[test]
fn stage_of_a_fresh_creation() {
    let factory = Factory::new();
    assert_eq!(factory.begin((1, 2), "t").stage, Stage::Registering);
}
