use vstd::prelude::*;

use crate::error::{reports, win32_error, LastError, Result, Win32Function};
use crate::geometry::Point;

verus! {

/// A message taken from a thread's message queue.
#[derive(Debug, Clone, Copy, PartialEq, Eq)]
pub struct Msg {
    pub hwnd: usize,
    pub message: u32,
    pub wparam: usize,
    pub lparam: isize,
    pub time: u32,
    pub pt: Point,
}

/// Interprets what the blocking message call returned: a positive value delivers
/// `msg`, zero is the quit message and ends the loop, a negative value is a failure.
pub fn get_message(ret: i32, msg: Msg, last: &LastError) -> (r: Result<Option<Msg>>)
    ensures
        ret > 0 ==> r == Ok::<Option<Msg>, crate::error::Error>(Some(msg)),
        ret == 0 ==> r == Ok::<Option<Msg>, crate::error::Error>(None),
        ret < 0 ==> (r matches Err(e) && reports(e, Win32Function::GetMessageA, *last)),
{
    if ret > 0 {
        Ok(Some(msg))
    } else if ret == 0 {
        Ok(None)
    } else {
        Err(win32_error(Win32Function::GetMessageA, last))
    }
}

} // verus!
