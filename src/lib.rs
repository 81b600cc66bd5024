//! A safe layer over the graphical part of the Win32 interface. Native handles are
//! owned through a table of strong and weak references, drawing contexts follow a small
//! state machine, and wide strings keep their null terminator. The native calls
//! themselves are made by the caller: the library says which calls to make, in which
//! order, and turns what they returned into typed results.

use vstd::prelude::*;

pub mod bitmap;
pub mod commctrl;
pub mod dc;
pub mod draw;
pub mod error;
pub mod geometry;
pub mod handle;
pub mod module;
pub mod msg;
pub mod native;
pub mod string;
pub mod window;

pub use bitmap::Bitmap;
pub use commctrl::{init_commctrl, ControlClasses};
pub use dc::{ArcDirection, CopyOperation, DeviceContext, DeviceContextKind, DeviceContextStorage};
pub use draw::{rgb, Brush, Pen, PenStyle};
pub use error::{win32_error, Error, LastError, Result, Win32Function};
pub use geometry::{eurect_to_winrect, Point, Rect, Size, WinRect};
pub use handle::{HandleTable, Strong, Weak};
pub use module::ModuleInfo;
pub use msg::{get_message, Msg};
pub use native::{NativeCall, PaintStruct, WindowPlacement};
pub use string::{WStr, WString};
pub use window::{
    CmdShow, DroplessWindow, ExtendedWindowStyle, OwnedWindowClass, Payload, UserData, WeakWindow,
    Window, WindowClass, WindowStyle,
};

verus! {

/// Converts a boolean into the integer truth value of the native interface.
pub fn wboolify(rbool: bool) -> (r: i32)
    ensures
        r == (if rbool { 1i32 } else { 0i32 }),
{
    if rbool {
        1
    } else {
        0
    }
}

/// Interprets what the cursor-position call returned: on success, the point it wrote.
pub fn cursor_pos(ret: i32, point: Point, last: &LastError) -> (r: Result<Point>)
    ensures
        r is Ok <==> ret != 0,
        r matches Ok(p) ==> p == point,
        r matches Err(e) ==> error::reports(e, Win32Function::GetCursorPos, *last),
{
    if ret == 0 {
        Err(win32_error(Win32Function::GetCursorPos, last))
    } else {
        Ok(point)
    }
}

} // verus!
