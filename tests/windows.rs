use porcupine::window::{WS_OVERLAPPEDWINDOW, WS_VISIBLE};
use porcupine::{
    CmdShow, DroplessWindow, Error, ExtendedWindowStyle, HandleTable, LastError, NativeCall,
    OwnedWindowClass, Point, Rect, WString, Win32Function, Window, WindowClass, WindowPlacement,
    WindowStyle, WinRect,
};

fn no_error() -> LastError {
    LastError { code: 0, message: Vec::new() }
}

fn window(t: &mut HandleTable, hwnd: usize) -> Window {
    Window::new(t, hwnd, &no_error()).unwrap()
}

#[test]
fn payload_round_trip() {
    let mut t = HandleTable::new();
    let mut w = window(&mut t, 0x10);
    assert!(!w.has_user_data());
    w.set_user_data_box(Box::new(42i32));
    assert!(w.has_user_data());
    assert_eq!(w.user_data::<i32>(), Ok(&42));
    assert_eq!(w.take_user_data::<i32>(), Ok(Box::new(42)));
    assert!(!w.has_user_data());
}

#[test]
fn payload_of_other_type_fails_downcast() {
    let mut t = HandleTable::new();
    let mut w = window(&mut t, 0x10);
    w.set_user_data_box(Box::new(42i32));
    assert_eq!(w.user_data::<String>(), Err(Error::DowncastFailure));
    assert_eq!(w.take_user_data::<String>(), Err(Error::DowncastFailure));
    assert!(!w.has_user_data());
}

#[test]
fn missing_payload_is_reported() {
    let mut t = HandleTable::new();
    let mut w = window(&mut t, 0x10);
    assert_eq!(w.user_data::<i32>(), Err(Error::StaticMsg("Window has no user data")));
    assert_eq!(w.take_user_data::<i32>(), Err(Error::StaticMsg("Window has no user data")));
    w.set_user_data_box(Box::new("text".to_string()));
    w.set_user_data_box(Box::new(vec![1u8, 2]));
    assert_eq!(w.take_user_data::<Vec<u8>>(), Ok(Box::new(vec![1u8, 2])));
}

#[test]
fn window_teardown_destroys_handle_once() {
    let mut t = HandleTable::new();
    let mut w = window(&mut t, 0x10);
    w.set_user_data_box(Box::new(7u64));
    let weak = w.weak_reference(&t);
    assert_eq!(weak.hwnd(&t), Ok(0x10));
    assert_eq!(w.release(&mut t), vec![NativeCall::DestroyWindow { hwnd: 0x10 }]);
    assert_eq!(weak.hwnd(&t), Err(Error::ExpiredWeakPtr));
    assert_eq!(weak.weak_reference(), weak);
}

#[test]
fn window_creation_failure() {
    let mut t = HandleTable::new();
    let last = LastError { code: 1407, message: b"Cannot find window class.".to_vec() };
    match Window::new(&mut t, 0, &last) {
        Err(Error::Win32 { code, message, function }) => {
            assert_eq!(code, 1407);
            assert_eq!(message, "Cannot find window class.");
            assert_eq!(function, Win32Function::CreateWindowExA);
        }
        _ => panic!("expected a native error"),
    }
}

#[test]
fn creation_call_terminates_names() {
    let mut t = HandleTable::new();
    let parent = window(&mut t, 0x99);
    let c = Window::creation(
        &"Cls",
        "Title",
        WindowStyle::from_bits(WS_OVERLAPPEDWINDOW).union(WindowStyle::from_bits(WS_VISIBLE)),
        ExtendedWindowStyle::from_bits(0),
        Rect::new(1, 2, 400, 200),
        Some(&parent),
        &t,
    )
    .unwrap();
    assert_eq!(
        c,
        NativeCall::CreateWindow {
            class_name: WString::encode("Cls").unwrap(),
            window_name: WString::encode("Title").unwrap(),
            style: 0x10CF0000,
            extended_style: 0,
            x: 1,
            y: 2,
            width: 400,
            height: 200,
            parent: 0x99
        }
    );
    let bad = Window::creation(
        &"Cls".to_string(),
        "Ti\0tle",
        WindowStyle::from_bits(0),
        ExtendedWindowStyle::from_bits(0),
        Rect::new(0, 0, 1, 1),
        None,
        &t,
    );
    assert_eq!(bad, Err(Error::WideStringNul));
}

#[test]
fn window_calls() {
    let mut t = HandleTable::new();
    let w = window(&mut t, 0x10);
    assert_eq!(w.hwnd(&t), 0x10);
    assert_eq!(w.show(CmdShow::Show, &t), NativeCall::ShowWindow { hwnd: 0x10, cmd: 5 });
    assert_eq!(w.show(CmdShow::ShowMaximize(), &t), NativeCall::ShowWindow { hwnd: 0x10, cmd: 3 });
    assert_eq!(w.update(&t), NativeCall::UpdateWindow { hwnd: 0x10 });
    assert_eq!(w.enable(false, &t), NativeCall::EnableWindow { hwnd: 0x10, enable: 0 });
    assert_eq!(
        w.set_text("Hi", &t),
        Ok(NativeCall::SetWindowText { hwnd: 0x10, text: WString::encode("Hi").unwrap() })
    );
    assert_eq!(w.set_text("a\0", &t), Err(Error::WideStringNul));
    assert_eq!(
        w.invalidate(Some(Rect::new(1, 1, 2, 2)), &t),
        NativeCall::InvalidateRect {
            hwnd: 0x10,
            bounds: Some(WinRect { left: 1, top: 1, right: 3, bottom: 3 }),
            erase: 1
        }
    );
    assert_eq!(w.invalidate(None, &t), NativeCall::InvalidateRect { hwnd: 0x10, bounds: None, erase: 1 });
    assert_eq!(
        w.screen_to_client(Point::new(8, 9), &t),
        NativeCall::ScreenToClient { hwnd: 0x10, point: Point::new(8, 9) }
    );
    assert_eq!(w.placement_request(&t), NativeCall::GetWindowPlacement { hwnd: 0x10 });
    let before = WindowPlacement {
        flags: 1,
        show_cmd: 5,
        min_position: Point::new(-1, -1),
        max_position: Point::new(-1, -1),
        normal_position: WinRect { left: 0, top: 0, right: 1, bottom: 1 },
    };
    let mut after = before;
    after.normal_position = WinRect { left: 10, top: 20, right: 110, bottom: 70 };
    assert_eq!(
        w.reshape(before, Rect::new(10, 20, 100, 50), &t),
        NativeCall::SetWindowPlacement { hwnd: 0x10, placement: after }
    );
    assert_eq!(DroplessWindow::new(0x33).hwnd(), 0x33);
}

#[test]
fn class_registration_steps() {
    let mut wc = OwnedWindowClass::new("Demo".to_string());
    assert_eq!(wc.identifier(), "Demo");
    wc.set_style(3);
    assert_eq!(wc.style(), 3);
    assert_eq!(
        wc.register_request(),
        Ok(NativeCall::RegisterClass { class_name: WString::encode("Demo").unwrap(), style: 3 })
    );
    let last = LastError { code: 1410, message: b"Class already exists.".to_vec() };
    assert!(matches!(
        wc.register(0, &last),
        Err(Error::Win32 { code: 1410, function: Win32Function::RegisterClassExA, .. })
    ));
    assert!(!wc.is_registered());
    assert_eq!(wc.register(1, &no_error()), Ok(()));
    assert!(wc.is_registered());
    assert_eq!(
        wc.register_request(),
        Ok(NativeCall::UnregisterClass { class_name: WString::encode("Demo").unwrap() })
    );
    assert!(matches!(
        wc.register(0, &last),
        Err(Error::Win32 { function: Win32Function::UnregisterClassA, .. })
    ));
    assert!(wc.is_registered());
    assert_eq!(wc.register(1, &no_error()), Ok(()));
    assert!(!wc.is_registered());
    assert_eq!(wc.set_class_name("Other".to_string()), Ok(()));
    assert_eq!(wc.class_name(), "Other");
    wc.set_class_name("Bad\0".to_string()).unwrap();
    assert_eq!(wc.register_request(), Err(Error::WideStringNul));
}
