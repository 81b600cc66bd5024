use porcupine::{
    ArcDirection, Bitmap, Brush, CopyOperation, DeviceContext, DeviceContextKind, Error,
    HandleTable, LastError, NativeCall, PaintStruct, Pen, PenStyle, Point, Rect, Size, WinRect,
    Win32Function,
};

fn no_error() -> LastError {
    LastError { code: 0, message: Vec::new() }
}

fn paint() -> PaintStruct {
    PaintStruct {
        hdc: 0x300,
        erase: false,
        paint: WinRect { left: 0, top: 0, right: 10, bottom: 10 },
        restore: false,
        inc_update: false,
        reserved: [0; 32],
    }
}

fn compatible(hdc: usize) -> DeviceContext {
    let mut t = HandleTable::new();
    let owner = t.insert(1);
    let screen = DeviceContext::begin_paint(t.downgrade(&owner), 0x10, paint(), &no_error()).unwrap();
    screen.create_compatible(hdc, &no_error()).unwrap()
}

#[test]
fn second_selection_is_refused() {
    let mut t = HandleTable::new();
    let bmp = t.insert(0xB0);
    let w = t.downgrade(&bmp);
    let mut dc = compatible(0x20);
    assert_eq!(dc.bitmap_selection(0xB0), Ok(NativeCall::SelectObject { hdc: 0x20, object: 0xB0 }));
    assert_eq!(dc.set_bitmap(w, 0x99), Ok(()));
    assert_eq!(dc.bitmap_selection(0xB1), Err(Error::AlreadyHadGDIStorage));
    assert_eq!(dc.set_bitmap(w, 0x98), Err(Error::AlreadyHadGDIStorage));
    match dc.kind() {
        DeviceContextKind::Compatible { old_object, storage } => {
            assert_eq!(old_object, Some(0x99));
            assert!(storage.is_some());
        }
        _ => panic!("expected a memory context"),
    }
}

#[test]
fn painter_has_no_storage() {
    let mut t = HandleTable::new();
    let win = t.insert(0x1);
    let bmp = t.insert(0xB0);
    let mut dc = DeviceContext::begin_paint(t.downgrade(&win), 0x30, paint(), &no_error()).unwrap();
    assert_eq!(dc.set_bitmap(t.downgrade(&bmp), 0), Err(Error::NoGDIStorage));
    assert_eq!(dc.bitmap_selection(0xB0), Err(Error::NoGDIStorage));
}

#[test]
fn null_contexts_are_failures() {
    let last = LastError { code: 1400, message: b"Invalid window handle.".to_vec() };
    let mut t = HandleTable::new();
    let win = t.insert(0x1);
    assert!(matches!(
        DeviceContext::begin_paint(t.downgrade(&win), 0, paint(), &last),
        Err(Error::Win32 { code: 1400, function: Win32Function::BeginPaint, .. })
    ));
    let dc = compatible(0x20);
    assert!(matches!(
        dc.create_compatible(0, &last),
        Err(Error::Win32 { function: Win32Function::CreateCompatibleDC, .. })
    ));
    assert_eq!(dc.compatible_request(), NativeCall::CreateCompatibleDC { hdc: 0x20 });
}

#[test]
fn memory_context_teardown_restores_then_deletes() {
    let t = HandleTable::new();
    let plain = compatible(0x21);
    assert_eq!(plain.release(&t), vec![NativeCall::DeleteDC { hdc: 0x21 }]);
    let mut t = HandleTable::new();
    let bmp = t.insert(0xB0);
    let mut dc = compatible(0x22);
    dc.set_bitmap(t.downgrade(&bmp), 0x77).unwrap();
    assert_eq!(
        dc.release(&t),
        vec![
            NativeCall::SelectObject { hdc: 0x22, object: 0x77 },
            NativeCall::DeleteDC { hdc: 0x22 }
        ]
    );
}

#[test]
fn painter_teardown_needs_live_window() {
    let mut t = HandleTable::new();
    let win = t.insert(0x55);
    let w = t.downgrade(&win);
    let dc = DeviceContext::begin_paint(w, 0x30, paint(), &no_error()).unwrap();
    assert_eq!(dc.release(&t), vec![NativeCall::EndPaint { hwnd: 0x55, paint: paint() }]);
    let dc = DeviceContext::begin_paint(w, 0x31, paint(), &no_error()).unwrap();
    t.release(win);
    assert_eq!(dc.release(&t), vec![]);
}

#[test]
fn drawing_calls_carry_arguments() {
    let dc = compatible(0x40);
    let src = compatible(0x41);
    assert_eq!(
        dc.draw_line(Point::new(0, 0), Point::new(100, 100)),
        vec![
            NativeCall::MoveTo { hdc: 0x40, x: 0, y: 0 },
            NativeCall::LineTo { hdc: 0x40, x: 100, y: 100 }
        ]
    );
    assert_eq!(
        dc.draw_arc(Rect::new(1, 2, 10, 20), Point::new(3, 4), Point::new(5, 6)),
        NativeCall::Arc {
            hdc: 0x40,
            bounds: WinRect { left: 1, top: 2, right: 11, bottom: 22 },
            start: Point::new(3, 4),
            end: Point::new(5, 6)
        }
    );
    assert_eq!(
        dc.draw_rect(Rect::new(-5, -5, 5, 5)),
        NativeCall::Rectangle { hdc: 0x40, bounds: WinRect { left: -5, top: -5, right: 0, bottom: 0 } }
    );
    assert_eq!(
        dc.draw_ellipse(Rect::new(0, 0, 8, 4)),
        NativeCall::Ellipse { hdc: 0x40, bounds: WinRect { left: 0, top: 0, right: 8, bottom: 4 } }
    );
    assert_eq!(
        dc.copy_from(&src, Rect::new(1, 2, 3, 4), Point::new(5, 6), CopyOperation::SrcAnd),
        NativeCall::BitBlt {
            dest: 0x40,
            x: 5,
            y: 6,
            width: 3,
            height: 4,
            source: 0x41,
            source_x: 1,
            source_y: 2,
            rop: 0x008800C6
        }
    );
    assert_eq!(dc.set_pen_color(1, 2, 3), NativeCall::SetDCPenColor { hdc: 0x40, color: 0x030201 });
    assert_eq!(dc.set_brush_color(1, 2, 3), NativeCall::SetDCBrushColor { hdc: 0x40, color: 0x030201 });
}

#[test]
fn enumeration_codes() {
    assert_eq!(ArcDirection::Clockwise.code(), 2);
    assert_eq!(ArcDirection::CounterClockwise.code(), 1);
    assert_eq!(CopyOperation::SrcCopy.code(), 0x00CC0020);
    assert_eq!(CopyOperation::SrcAnd.code(), 0x008800C6);
    assert_eq!(CopyOperation::SrcErase.code(), 0x00440328);
    assert_eq!(CopyOperation::SrcPaint.code(), 0x00EE0086);
    assert_eq!(PenStyle::Solid.code(), 0);
    assert_eq!(PenStyle::InsideFrame.code(), 6);
    let dc = compatible(0x40);
    assert_eq!(
        dc.set_arc_direction(ArcDirection::CounterClockwise),
        NativeCall::SetArcDirection { hdc: 0x40, direction: 1 }
    );
}

#[test]
fn pens_and_brushes() {
    let mut t = HandleTable::new();
    assert_eq!(
        Pen::creation(255, 0, 0, 3, PenStyle::Dash),
        NativeCall::CreatePen { style: 1, width: 3, color: 0xFF }
    );
    assert_eq!(Brush::creation(0, 0, 255), NativeCall::CreateSolidBrush { color: 0xFF0000 });
    let pen = Pen::new(&mut t, 0x70, &no_error()).unwrap();
    let brush = Brush::solid(&mut t, 0x71, &no_error()).unwrap();
    assert!(matches!(
        Pen::new(&mut t, 0, &no_error()),
        Err(Error::Win32 { function: Win32Function::CreatePen, .. })
    ));
    assert!(matches!(
        Brush::solid(&mut t, 0, &no_error()),
        Err(Error::Win32 { function: Win32Function::CreateBrush, .. })
    ));
    let dc = compatible(0x40);
    assert_eq!(dc.set_pen(&pen, &t), NativeCall::SelectObject { hdc: 0x40, object: 0x70 });
    assert_eq!(dc.set_brush(&brush, &t), NativeCall::SelectObject { hdc: 0x40, object: 0x71 });
    assert_eq!(pen.release(&mut t), vec![NativeCall::DeleteObject { object: 0x70 }]);
    assert_eq!(brush.release(&mut t), vec![NativeCall::DeleteObject { object: 0x71 }]);
}

#[test]
fn bitmap_teardown_deletes_context_first() {
    let mut t = HandleTable::new();
    let companion = compatible(0x50);
    let (b, cleanup) =
        Bitmap::from_dc_and_data(&mut t, 0xB0, &no_error(), Ok(Size::new(4, 2)), Ok(companion), 0x66);
    let b = b.unwrap();
    assert!(cleanup.is_empty());
    assert_eq!(b.width(), 4);
    assert_eq!(b.height(), 2);
    assert_eq!(b.hbitmap(&t), 0xB0);
    assert_eq!(b.dc().hdc(), 0x50);
    let w = b.weak_reference(&t);
    assert_eq!(
        b.release(&mut t),
        vec![
            NativeCall::SelectObject { hdc: 0x50, object: 0x66 },
            NativeCall::DeleteDC { hdc: 0x50 },
            NativeCall::DeleteObject { object: 0xB0 }
        ]
    );
    assert_eq!(t.raw_of_weak(&w), Err(Error::ExpiredWeakPtr));
}

#[test]
fn bitmap_keeps_reported_size() {
    assert_eq!(
        Bitmap::creation(Size::new(3, 5), vec![1, 2, 3]),
        NativeCall::CreateBitmap { width: 3, height: 5, planes: 1, bits_per_pixel: 24, data: vec![1, 2, 3] }
    );
    let mut t = HandleTable::new();
    let (b, _) =
        Bitmap::from_dc_and_data(&mut t, 0xB0, &no_error(), Ok(Size::new(4, 6)), Ok(compatible(0x50)), 0);
    let b = b.unwrap();
    assert_eq!((b.width(), b.height()), (4, 6));
}

#[test]
fn bitmap_partial_failures_release_what_was_made() {
    let last = LastError { code: 8, message: Vec::new() };
    let mut t = HandleTable::new();
    let (b, cleanup) =
        Bitmap::from_dc_and_data(&mut t, 0, &last, Ok(Size::new(1, 1)), Ok(compatible(0x50)), 0);
    assert!(matches!(b, Err(Error::Win32 { code: 8, function: Win32Function::CreateBitmap, .. })));
    assert!(cleanup.is_empty());
    let failed = Err(Error::Win32 {
        code: 2,
        message: "x".to_string(),
        function: Win32Function::GetObjectA,
    });
    let (b, cleanup) = Bitmap::from_dc_and_data(&mut t, 0xB0, &last, failed, Ok(compatible(0x51)), 0);
    assert!(matches!(b, Err(Error::Win32 { code: 2, function: Win32Function::GetObjectA, .. })));
    assert_eq!(
        cleanup,
        vec![NativeCall::DeleteDC { hdc: 0x51 }, NativeCall::DeleteObject { object: 0xB0 }]
    );
    let no_dc = Err(Error::Win32 {
        code: 3,
        message: "y".to_string(),
        function: Win32Function::CreateCompatibleDC,
    });
    let (b, cleanup) = Bitmap::from_dc_and_data(&mut t, 0xB1, &last, Ok(Size::new(1, 1)), no_dc, 0);
    assert!(matches!(b, Err(Error::Win32 { code: 3, .. })));
    assert_eq!(cleanup, vec![NativeCall::DeleteObject { object: 0xB1 }]);
    assert_eq!(t.len(), 0);
}
