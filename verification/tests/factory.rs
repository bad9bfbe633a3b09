use windows::Win32::UI::WindowsAndMessaging::{
    CS_HREDRAW, CS_VREDRAW, CW_USEDEFAULT, WS_OVERLAPPEDWINDOW,
};
use winwin::{
    CreateRequest, Creation, Cursor, Error, Factory, Progress, Rect, Request, Response, Stage,
    WindowClass,
};

fn at(stage: Stage) -> Creation<'static> {
    Creation { size: (400, 300), title: "Window", stage }
}

#[test]
fn a_new_factory_registers_first() {
    let factory = Factory::new();
    assert!(!factory.registered());
    let creation = factory.begin((400, 300), "Window");
    assert_eq!(creation, at(Stage::Registering));
    assert_eq!(
        creation.request(),
        Request::Register(WindowClass {
            style: 3,
            cursor: Cursor::Arrow,
            name: "winwin-rs-class-name",
        })
    );
}

#[test]
fn the_class_style_is_both_redraw_flags() {
    match at(Stage::Registering).request() {
        Request::Register(class) => assert_eq!(class.style, (CS_HREDRAW | CS_VREDRAW).0),
        other => panic!("{:?}", other),
    }
}

#[test]
fn registration_happens_once() {
    let mut factory = Factory::new();
    let first = factory.begin((400, 300), "Window");
    let next = first.advance(&mut factory, Response::Registered { atom: 0xC001, code: 0 });
    assert_eq!(next, Progress::Ask(at(Stage::Adjusting)));
    assert!(factory.registered());
    let second = factory.begin((10, 20), "Other");
    assert_eq!(second, Creation { size: (10, 20), title: "Other", stage: Stage::Adjusting });
}

#[test]
fn failed_registration_leaves_the_gate_open() {
    let mut factory = Factory::new();
    let creation = factory.begin((400, 300), "Window");
    assert_eq!(
        creation.advance(&mut factory, Response::Registered { atom: 0, code: 1410 }),
        Progress::Failed(Error::PlatformCallFailed(1410))
    );
    assert!(!factory.registered());
    assert_eq!(factory.begin((400, 300), "Window").stage, Stage::Registering);
}

#[test]
fn a_failure_ends_any_stage() {
    for stage in [Stage::Registering, Stage::Adjusting, Stage::Creating { width: 1, height: 1 }] {
        let mut factory = Factory::new();
        assert!(at(stage).accepts(&Response::Failed(-5)));
        assert_eq!(
            at(stage).advance(&mut factory, Response::Failed(-5)),
            Progress::Failed(Error::PlatformCallFailed(-5))
        );
        assert!(!factory.registered());
    }
}

#[test]
fn adjustment_asks_for_the_client_rectangle() {
    assert_eq!(
        at(Stage::Adjusting).request(),
        Request::Adjust {
            rect: Rect { left: 0, top: 0, right: 400, bottom: 300 },
            style: WS_OVERLAPPEDWINDOW.0,
            menu: false,
        }
    );
    assert_eq!(WS_OVERLAPPEDWINDOW.0, 0x00CF_0000);
}

#[test]
fn a_size_beyond_i32_is_cut_to_its_low_bits() {
    let creation = Creation { size: (u32::MAX, 0x8000_0000), title: "", stage: Stage::Adjusting };
    assert_eq!(
        creation.request(),
        Request::Adjust {
            rect: Rect { left: 0, top: 0, right: -1, bottom: i32::MIN },
            style: 0x00CF_0000,
            menu: false,
        }
    );
}

#[test]
fn the_outer_size_is_the_adjusted_extent() {
    let mut factory = Factory::new();
    let adjusted = Rect { left: -8, top: -31, right: 408, bottom: 308 };
    let next = at(Stage::Adjusting).advance(&mut factory, Response::Adjusted(adjusted));
    assert_eq!(next, Progress::Ask(at(Stage::Creating { width: 416, height: 339 })));
    assert!(!factory.registered());
}

#[test]
fn creation_asks_for_a_default_placed_overlapped_window() {
    assert_eq!(
        at(Stage::Creating { width: 416, height: 339 }).request(),
        Request::Create(CreateRequest {
            class: "winwin-rs-class-name",
            title: "Window",
            ex_style: 0,
            style: WS_OVERLAPPEDWINDOW.0,
            x: CW_USEDEFAULT,
            y: CW_USEDEFAULT,
            width: 416,
            height: 339,
            parent: 0,
            menu: 0,
        })
    );
    assert_eq!(CW_USEDEFAULT, i32::MIN);
}

#[test]
fn a_created_window_is_ready() {
    let mut factory = Factory::new();
    let creating = at(Stage::Creating { width: 416, height: 339 });
    assert_eq!(
        creating.advance(&mut factory, Response::Created { handle: 0x5151, code: 0 }),
        Progress::Ready(0x5151)
    );
    assert_eq!(
        creating.advance(&mut factory, Response::Created { handle: -1, code: 9 }),
        Progress::Ready(-1)
    );
}

#[test]
fn a_null_handle_is_a_failure() {
    let mut factory = Factory::new();
    let creating = at(Stage::Creating { width: 416, height: 339 });
    assert_eq!(
        creating.advance(&mut factory, Response::Created { handle: 0, code: 1407 }),
        Progress::Failed(Error::PlatformCallFailed(1407))
    );
}

#[test]
fn accepts_only_the_answer_the_stage_calls_for() {
    let registered = Response::Registered { atom: 1, code: 0 };
    let adjusted = Response::Adjusted(Rect { left: 0, top: 0, right: 1, bottom: 1 });
    let created = Response::Created { handle: 1, code: 0 };
    let creating = Stage::Creating { width: 1, height: 1 };

    assert!(at(Stage::Registering).accepts(&registered));
    assert!(!at(Stage::Registering).accepts(&adjusted));
    assert!(!at(Stage::Registering).accepts(&created));

    assert!(!at(Stage::Adjusting).accepts(&registered));
    assert!(at(Stage::Adjusting).accepts(&adjusted));
    assert!(!at(Stage::Adjusting).accepts(&created));

    assert!(!at(creating).accepts(&registered));
    assert!(!at(creating).accepts(&adjusted));
    assert!(at(creating).accepts(&created));
}

#[test]
fn accepts_no_rectangle_whose_extent_overflows() {
    let adjusting = at(Stage::Adjusting);
    let wide = Rect { left: i32::MIN, top: 0, right: 0, bottom: 1 };
    let tall = Rect { left: 0, top: 1, right: 1, bottom: i32::MIN };
    let widest = Rect { left: i32::MIN, top: i32::MIN, right: -1, bottom: -1 };
    assert!(!adjusting.accepts(&Response::Adjusted(wide)));
    assert!(!adjusting.accepts(&Response::Adjusted(tall)));
    assert!(adjusting.accepts(&Response::Adjusted(widest)));
    let mut factory = Factory::new();
    assert_eq!(
        adjusting.advance(&mut factory, Response::Adjusted(widest)),
        Progress::Ask(at(Stage::Creating { width: i32::MAX, height: i32::MAX }))
    );
}

#[test]
fn an_inverted_rectangle_gives_a_negative_size() {
    let mut factory = Factory::new();
    let inverted = Rect { left: 10, top: 20, right: 4, bottom: 5 };
    assert_eq!(
        at(Stage::Adjusting).advance(&mut factory, Response::Adjusted(inverted)),
        Progress::Ask(at(Stage::Creating { width: -6, height: -15 }))
    );
}
