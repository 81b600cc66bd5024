use porcupine::window::WS_OVERLAPPEDWINDOW;
use porcupine::{
    Error, ExtendedWindowStyle, HandleTable, LastError, NativeCall, OwnedWindowClass,
    PaintStruct, Point, Rect, Win32Function, Window, WindowStyle, WinRect, CmdShow,
};

/// A stand-in for the native layer: hands out fresh handles, records every call, and
/// fails the one kind of call it is told to fail.
struct Mock {
    next: usize,
    fail: Option<&'static str>,
    log: Vec<NativeCall>,
}

fn kind(c: &NativeCall) -> &'static str {
    match c {
        NativeCall::RegisterClass { .. } => "RegisterClass",
        NativeCall::CreateWindow { .. } => "CreateWindow",
        NativeCall::BeginPaint { .. } => "BeginPaint",
        NativeCall::UpdateWindow { .. } => "UpdateWindow",
        NativeCall::MoveTo { .. } => "MoveTo",
        NativeCall::LineTo { .. } => "LineTo",
        _ => "other",
    }
}

impl Mock {
    fn new(fail: Option<&'static str>) -> Mock {
        Mock { next: 0x1000, fail, log: Vec::new() }
    }

    fn perform(&mut self, c: &NativeCall) -> i64 {
        self.log.push(c.clone());
        if self.fail == Some(kind(c)) {
            return 0;
        }
        match c {
            NativeCall::CreateWindow { .. } | NativeCall::BeginPaint { .. } => {
                self.next += 0x10;
                self.next as i64
            }
            _ => 1,
        }
    }

    fn last(&self) -> LastError {
        LastError { code: 1400, message: b"Invalid handle.".to_vec() }
    }

    fn paint(&self) -> PaintStruct {
        PaintStruct {
            hdc: self.next,
            erase: true,
            paint: WinRect { left: 0, top: 0, right: 400, bottom: 200 },
            restore: false,
            inc_update: false,
            reserved: [0; 32],
        }
    }
}

fn run(mock: &mut Mock) -> Result<(), Error> {
    let mut t = HandleTable::new();
    let mut wc = OwnedWindowClass::new("PorcupineBasicsTest".to_string());
    let req = wc.register_request()?;
    let ret = mock.perform(&req);
    wc.register(ret, &mock.last())?;

    let req = Window::creation(
        &wc,
        "Hello world!",
        WindowStyle::from_bits(WS_OVERLAPPEDWINDOW),
        ExtendedWindowStyle::from_bits(0),
        Rect::new(0, 0, 400, 200),
        None,
        &t,
    )?;
    let ret = mock.perform(&req);
    let w = Window::new(&mut t, ret as usize, &mock.last())?;

    let show = w.show(CmdShow::Show, &t);
    let ret = mock.perform(&show);
    show.check(ret, &mock.last())?;
    let update = w.update(&t);
    let ret = mock.perform(&update);
    update.check(ret, &mock.last())?;

    let req = w.paint_request(&t);
    let ret = mock.perform(&req);
    let dc = w.begin_paint(ret as usize, mock.paint(), &mock.last(), &t)?;
    for c in dc.draw_line(Point::new(0, 0), Point::new(100, 100)) {
        let ret = mock.perform(&c);
        c.check(ret, &mock.last())?;
    }
    for c in dc.release(&t) {
        mock.perform(&c);
    }
    for c in w.release(&mut t) {
        mock.perform(&c);
    }
    Ok(())
}

#[test]
fn end_to_end_with_healthy_platform() {
    let mut mock = Mock::new(None);
    assert_eq!(run(&mut mock), Ok(()));
    let names: Vec<&str> = mock
        .log
        .iter()
        .map(|c| match c {
            NativeCall::RegisterClass { .. } => "register",
            NativeCall::CreateWindow { .. } => "create",
            NativeCall::ShowWindow { .. } => "show",
            NativeCall::UpdateWindow { .. } => "update",
            NativeCall::BeginPaint { .. } => "begin_paint",
            NativeCall::MoveTo { .. } => "move_to",
            NativeCall::LineTo { .. } => "line_to",
            NativeCall::EndPaint { .. } => "end_paint",
            NativeCall::DestroyWindow { .. } => "destroy",
            _ => "other",
        })
        .collect();
    assert_eq!(
        names,
        vec![
            "register",
            "create",
            "show",
            "update",
            "begin_paint",
            "move_to",
            "line_to",
            "end_paint",
            "destroy"
        ]
    );
    assert_eq!(mock.log[1], NativeCall::CreateWindow {
        class_name: porcupine::WString::encode("PorcupineBasicsTest").unwrap(),
        window_name: porcupine::WString::encode("Hello world!").unwrap(),
        style: 0x00CF0000,
        extended_style: 0,
        x: 0,
        y: 0,
        width: 400,
        height: 200,
        parent: 0
    });
    assert_eq!(mock.log[6], NativeCall::LineTo { hdc: 0x1020, x: 100, y: 100 });
    assert_eq!(mock.log[8], NativeCall::DestroyWindow { hwnd: 0x1010 });
}

fn failing_at(step: &'static str) -> (Result<(), Error>, usize) {
    let mut mock = Mock::new(Some(step));
    let r = run(&mut mock);
    (r, mock.log.len())
}

#[test]
fn end_to_end_stops_at_failed_registration() {
    let (r, n) = failing_at("RegisterClass");
    assert!(matches!(r, Err(Error::Win32 { code: 1400, function: Win32Function::RegisterClassExA, .. })));
    assert_eq!(n, 1);
}

#[test]
fn end_to_end_stops_at_failed_window_creation() {
    let (r, n) = failing_at("CreateWindow");
    assert!(matches!(r, Err(Error::Win32 { function: Win32Function::CreateWindowExA, .. })));
    assert_eq!(n, 2);
}

#[test]
fn end_to_end_stops_at_failed_update() {
    let (r, n) = failing_at("UpdateWindow");
    assert!(matches!(r, Err(Error::Win32 { function: Win32Function::UpdateWindow, .. })));
    assert_eq!(n, 4);
}

#[test]
fn end_to_end_stops_at_failed_paint() {
    let (r, n) = failing_at("BeginPaint");
    assert!(matches!(r, Err(Error::Win32 { function: Win32Function::BeginPaint, .. })));
    assert_eq!(n, 5);
}

#[test]
fn end_to_end_stops_at_failed_line() {
    let (r, n) = failing_at("LineTo");
    assert!(matches!(r, Err(Error::Win32 { function: Win32Function::LineTo, .. })));
    assert_eq!(n, 7);
}
