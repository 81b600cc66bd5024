use vstd::prelude::*;

use crate::error::{reports, win32_error, LastError, Result, Win32Function};
use crate::geometry::{Point, WinRect};
use crate::string::WString;

verus! {

/// The value a color call returns when it fails.
pub const CLR_INVALID: u32 = 0xFFFFFFFF;

/// The state of a paint session, as the platform hands it out when the session begins
/// and takes it back when it ends.
#[derive(Debug, Clone, Copy, PartialEq, Eq)]
pub struct PaintStruct {
    pub hdc: usize,
    pub erase: bool,
    pub paint: WinRect,
    pub restore: bool,
    pub inc_update: bool,
    pub reserved: [u8; 32],
}

/// Where a window stands when it is shown normally, minimized and maximized.
#[derive(Debug, Clone, Copy, PartialEq, Eq)]
pub struct WindowPlacement {
    pub flags: u32,
    pub show_cmd: u32,
    pub min_position: Point,
    pub max_position: Point,
    pub normal_position: WinRect,
}

/// One call into the native windowing and graphics interface, with its arguments.
/// The library decides which calls to make and in what order; the caller makes them
/// and hands back what each returned.
#[derive(Debug, Clone, PartialEq, Eq)]
#[allow(inconsistent_fields)]
pub enum NativeCall {
    CreatePen { style: u32, width: u32, color: u32 },
    CreateSolidBrush { color: u32 },
    CreateBitmap { width: i32, height: i32, planes: u32, bits_per_pixel: u32, data: Vec<u8> },
    CreateCompatibleDC { hdc: usize },
    BeginPaint { hwnd: usize },
    EndPaint { hwnd: usize, paint: PaintStruct },
    SelectObject { hdc: usize, object: usize },
    DeleteDC { hdc: usize },
    DeleteObject { object: usize },
    BitBlt {
        dest: usize,
        x: i32,
        y: i32,
        width: i32,
        height: i32,
        source: usize,
        source_x: i32,
        source_y: i32,
        rop: u32,
    },
    MoveTo { hdc: usize, x: i32, y: i32 },
    LineTo { hdc: usize, x: i32, y: i32 },
    Arc { hdc: usize, bounds: WinRect, start: Point, end: Point },
    SetArcDirection { hdc: usize, direction: i32 },
    Rectangle { hdc: usize, bounds: WinRect },
    Ellipse { hdc: usize, bounds: WinRect },
    SetDCBrushColor { hdc: usize, color: u32 },
    SetDCPenColor { hdc: usize, color: u32 },
    RegisterClass { class_name: WString, style: u32 },
    UnregisterClass { class_name: WString },
    CreateWindow {
        class_name: WString,
        window_name: WString,
        style: u32,
        extended_style: u32,
        x: i32,
        y: i32,
        width: i32,
        height: i32,
        parent: usize,
    },
    DestroyWindow { hwnd: usize },
    ShowWindow { hwnd: usize, cmd: i32 },
    UpdateWindow { hwnd: usize },
    EnableWindow { hwnd: usize, enable: i32 },
    SetWindowText { hwnd: usize, text: WString },
    InvalidateRect { hwnd: usize, bounds: Option<WinRect>, erase: i32 },
    ScreenToClient { hwnd: usize, point: Point },
    GetWindowPlacement { hwnd: usize },
    SetWindowPlacement { hwnd: usize, placement: WindowPlacement },
}

/// The operation a failure of `call` is reported under; `None` for calls whose
/// failure this library does not distinguish.
pub open spec fn failure_tag(call: NativeCall) -> Option<Win32Function> {
    match call {
        NativeCall::CreatePen { .. } => Some(Win32Function::CreatePen),
        NativeCall::CreateSolidBrush { .. } => Some(Win32Function::CreateBrush),
        NativeCall::CreateBitmap { .. } => Some(Win32Function::CreateBitmap),
        NativeCall::CreateCompatibleDC { .. } => Some(Win32Function::CreateCompatibleDC),
        NativeCall::BeginPaint { .. } => Some(Win32Function::BeginPaint),
        NativeCall::BitBlt { .. } => Some(Win32Function::BitBlt),
        NativeCall::MoveTo { .. } => Some(Win32Function::MoveToEx),
        NativeCall::LineTo { .. } => Some(Win32Function::LineTo),
        NativeCall::Arc { .. } => Some(Win32Function::Arc),
        NativeCall::SetArcDirection { .. } => Some(Win32Function::SetArcDirection),
        NativeCall::Rectangle { .. } => Some(Win32Function::Rectangle),
        NativeCall::Ellipse { .. } => Some(Win32Function::Ellipse),
        NativeCall::SetDCBrushColor { .. } => Some(Win32Function::SetDCBrushColor),
        NativeCall::SetDCPenColor { .. } => Some(Win32Function::SetDCPenColor),
        NativeCall::RegisterClass { .. } => Some(Win32Function::RegisterClassExA),
        NativeCall::UnregisterClass { .. } => Some(Win32Function::UnregisterClassA),
        NativeCall::CreateWindow { .. } => Some(Win32Function::CreateWindowExA),
        NativeCall::UpdateWindow { .. } => Some(Win32Function::UpdateWindow),
        NativeCall::SetWindowText { .. } => Some(Win32Function::SetWindowTextA),
        NativeCall::InvalidateRect { .. } => Some(Win32Function::InvalidateRect),
        NativeCall::ScreenToClient { .. } => Some(Win32Function::ScreenToClient),
        NativeCall::GetWindowPlacement { .. } => Some(Win32Function::GetWindowPlacement),
        NativeCall::SetWindowPlacement { .. } => Some(Win32Function::SetWindowPlacement),
        _ => None,
    }
}

/// Whether `ret`, returned by `call`, signals its failure: the invalid color for the
/// color calls, zero for the others.
pub open spec fn signals_failure(call: NativeCall, ret: i64) -> bool {
    match call {
        NativeCall::SetDCBrushColor { .. } | NativeCall::SetDCPenColor { .. } => ret
            == CLR_INVALID as i64,
        _ => ret == 0,
    }
}

impl NativeCall {
    /// The operation a failure of this call is reported under, if any.
    pub fn failure_tag(&self) -> (r: Option<Win32Function>)
        ensures
            r == failure_tag(*self),
    {
        match self {
            NativeCall::CreatePen { .. } => Some(Win32Function::CreatePen),
            NativeCall::CreateSolidBrush { .. } => Some(Win32Function::CreateBrush),
            NativeCall::CreateBitmap { .. } => Some(Win32Function::CreateBitmap),
            NativeCall::CreateCompatibleDC { .. } => Some(Win32Function::CreateCompatibleDC),
            NativeCall::BeginPaint { .. } => Some(Win32Function::BeginPaint),
            NativeCall::BitBlt { .. } => Some(Win32Function::BitBlt),
            NativeCall::MoveTo { .. } => Some(Win32Function::MoveToEx),
            NativeCall::LineTo { .. } => Some(Win32Function::LineTo),
            NativeCall::Arc { .. } => Some(Win32Function::Arc),
            NativeCall::SetArcDirection { .. } => Some(Win32Function::SetArcDirection),
            NativeCall::Rectangle { .. } => Some(Win32Function::Rectangle),
            NativeCall::Ellipse { .. } => Some(Win32Function::Ellipse),
            NativeCall::SetDCBrushColor { .. } => Some(Win32Function::SetDCBrushColor),
            NativeCall::SetDCPenColor { .. } => Some(Win32Function::SetDCPenColor),
            NativeCall::RegisterClass { .. } => Some(Win32Function::RegisterClassExA),
            NativeCall::UnregisterClass { .. } => Some(Win32Function::UnregisterClassA),
            NativeCall::CreateWindow { .. } => Some(Win32Function::CreateWindowExA),
            NativeCall::UpdateWindow { .. } => Some(Win32Function::UpdateWindow),
            NativeCall::SetWindowText { .. } => Some(Win32Function::SetWindowTextA),
            NativeCall::InvalidateRect { .. } => Some(Win32Function::InvalidateRect),
            NativeCall::ScreenToClient { .. } => Some(Win32Function::ScreenToClient),
            NativeCall::GetWindowPlacement { .. } => Some(Win32Function::GetWindowPlacement),
            NativeCall::SetWindowPlacement { .. } => Some(Win32Function::SetWindowPlacement),
            _ => None,
        }
    }

    /// Turns what this call returned into its outcome: an error built from `last`
    /// when the value signals a failure this library reports, success otherwise.
    pub fn check(&self, ret: i64, last: &LastError) -> (r: Result<()>)
        ensures
            r is Err <==> failure_tag(*self) is Some && signals_failure(*self, ret),
            r matches Err(e) ==> reports(e, failure_tag(*self)->Some_0, *last),
    {
        let failed = match self {
            NativeCall::SetDCBrushColor { .. } | NativeCall::SetDCPenColor { .. } => ret
                == CLR_INVALID as i64,
            _ => ret == 0,
        };
        match self.failure_tag() {
            Some(f) => if failed {
                Err(win32_error(f, last))
            } else {
                Ok(())
            },
            None => Ok(()),
        }
    }
}

} // verus!
