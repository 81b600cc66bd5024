use vstd::prelude::*;

use crate::error::{reports, win32_error, LastError, Result, Win32Function};

verus! {

/// The handle of the module this process runs, which window classes and windows are
/// registered under. The caller creates it once, before the first window class, and
/// frees it when the process ends.
#[derive(Debug)]
pub struct ModuleInfo {
    handle: usize,
}

impl ModuleInfo {
    /// The handle value this module information holds.
    pub closed spec fn raw(&self) -> usize {
        self.handle
    }

    /// Takes the module handle the lookup call wrote; a zero return is its failure.
    pub fn new(ret: i32, handle: usize, last: &LastError) -> (r: Result<ModuleInfo>)
        ensures
            r is Ok <==> ret != 0,
            r matches Ok(m) ==> m.raw() == handle,
            r matches Err(e) ==> reports(e, Win32Function::GetModuleHandleExA, *last),
    {
        if ret == 0 {
            Err(win32_error(Win32Function::GetModuleHandleExA, last))
        } else {
            Ok(ModuleInfo { handle })
        }
    }

    /// The module handle.
    pub fn handle(&self) -> (r: usize)
        ensures
            r == self.raw(),
    {
        self.handle
    }
}

} // verus!
