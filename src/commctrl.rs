use vstd::prelude::*;

use crate::error::{reports, win32_error, LastError, Result, Win32Function};

verus! {

/// The common-control classes to initialize.
#[derive(Debug, Clone, Copy, PartialEq, Eq, Hash)]
pub struct ControlClasses {
    pub bits: u32,
}

pub const ICC_ANIMATE_CLASS: u32 = 0x00000080;
pub const ICC_BAR_CLASSES: u32 = 0x00000004;

impl ControlClasses {
    pub fn from_bits(bits: u32) -> (r: Self)
        ensures
            r.bits == bits,
    {
        ControlClasses { bits }
    }

    pub fn bits(&self) -> (r: u32)
        ensures
            r == self.bits,
    {
        self.bits
    }
}

/// Interprets what the initialization of the common controls returned.
pub fn init_commctrl(classes: ControlClasses, ret: i32, last: &LastError) -> (r: Result<()>)
    ensures
        r is Ok <==> ret != 0,
        r matches Err(e) ==> reports(e, Win32Function::InitCommonControlsEx, *last),
{
    if ret == 0 {
        Err(win32_error(Win32Function::InitCommonControlsEx, last))
    } else {
        Ok(())
    }
}

} // verus!
