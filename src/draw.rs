use vstd::prelude::*;

use crate::error::{reports, LastError, Result, Win32Function};
use crate::handle::{HandleTable, Strong};
use crate::native::NativeCall;

verus! {

/// The color value of three 8-bit channels: red in the low byte, then green, then blue.
pub open spec fn rgb_spec(r: u8, g: u8, b: u8) -> u32 {
    (r as int + g as int * 0x100 + b as int * 0x10000) as u32
}

/// The color value of three 8-bit channels.
pub fn rgb(r: u8, g: u8, b: u8) -> (c: u32)
    ensures
        c == rgb_spec(r, g, b),
        c as int == r as int + g as int * 0x100 + b as int * 0x10000,
{
    r as u32 + g as u32 * 0x100 + b as u32 * 0x10000
}

/// The styles a pen can have.
#[derive(Debug, Clone, Copy, PartialEq, Eq, Hash)]
pub enum PenStyle {
    Solid,
    Dash,
    Dot,
    DashDot,
    DashDotDot,
    Null,
    InsideFrame,
}

/// The native code of a pen style.
pub open spec fn pen_style_code(s: PenStyle) -> u32 {
    match s {
        PenStyle::Solid => 0,
        PenStyle::Dash => 1,
        PenStyle::Dot => 2,
        PenStyle::DashDot => 3,
        PenStyle::DashDotDot => 4,
        PenStyle::Null => 5,
        PenStyle::InsideFrame => 6,
    }
}

impl PenStyle {
    /// The native code of this style.
    pub fn code(&self) -> (r: u32)
        ensures
            r == pen_style_code(*self),
    {
        match self {
            PenStyle::Solid => 0,
            PenStyle::Dash => 1,
            PenStyle::Dot => 2,
            PenStyle::DashDot => 3,
            PenStyle::DashDotDot => 4,
            PenStyle::Null => 5,
            PenStyle::InsideFrame => 6,
        }
    }
}

/// A pen that draws lines: the strong owner of one native pen handle.
#[derive(Debug)]
pub struct Pen {
    hpen: Strong,
}

impl Pen {
    /// Whether this pen's handle is live in `t`.
    pub open spec fn valid_in(&self, t: HandleTable) -> bool {
        t.holds(&self.handle())
    }

    /// The table entry of this pen's handle.
    pub closed spec fn handle(&self) -> Strong {
        self.hpen
    }

    /// The call that creates a pen of this color, width and style.
    pub fn creation(r: u8, g: u8, b: u8, width: u32, style: PenStyle) -> (c: NativeCall)
        ensures
            c == (NativeCall::CreatePen {
                style: pen_style_code(style),
                width,
                color: rgb_spec(r, g, b),
            }),
    {
        NativeCall::CreatePen { style: style.code(), width, color: rgb(r, g, b) }
    }

    /// Takes ownership of what the creation call returned; a null handle is its failure.
    pub fn new(handles: &mut HandleTable, created: usize, last: &LastError) -> (r: Result<Pen>)
        requires
            old(handles)@.len() < usize::MAX,
        ensures
            r is Ok <==> created != 0,
            r matches Ok(p) ==> final(handles)@ == old(handles)@.push((created, 1u64))
                && p.handle().id() == old(handles)@.len() && p.valid_in(*final(handles)),
            r matches Err(e) ==> final(handles)@ == old(handles)@ && reports(
                e,
                Win32Function::CreatePen,
                *last,
            ),
    {
        match handles.acquire(created, Win32Function::CreatePen, last) {
            Ok(hpen) => Ok(Pen { hpen }),
            Err(e) => Err(e),
        }
    }

    /// The raw handle of this pen.
    pub fn hpen(&self, handles: &HandleTable) -> (r: usize)
        requires
            self.valid_in(*handles),
        ensures
            r == handles@[self.handle().id()].0,
    {
        handles.raw(&self.hpen)
    }

    /// Releases this pen; the calls returned, made in order, tear it down.
    pub fn release(self, handles: &mut HandleTable) -> (r: Vec<NativeCall>)
        requires
            self.valid_in(*old(handles)),
        ensures
            final(handles)@ == crate::handle::after_release(old(handles)@, self.handle().id()),
            r@ == (if old(handles)@[self.handle().id()].1 == 1 {
                seq![NativeCall::DeleteObject { object: old(handles)@[self.handle().id()].0 }]
            } else {
                Seq::empty()
            }),
    {
        let mut calls: Vec<NativeCall> = Vec::new();
        match handles.release(self.hpen) {
            Some(object) => calls.push(NativeCall::DeleteObject { object }),
            None => {},
        }
        calls
    }
}

/// A brush that fills shapes: the strong owner of one native brush handle.
#[derive(Debug)]
pub struct Brush {
    hbrush: Strong,
}

impl Brush {
    /// Whether this brush's handle is live in `t`.
    pub open spec fn valid_in(&self, t: HandleTable) -> bool {
        t.holds(&self.handle())
    }

    /// The table entry of this brush's handle.
    pub closed spec fn handle(&self) -> Strong {
        self.hbrush
    }

    /// The call that creates a solid brush of this color.
    pub fn creation(r: u8, g: u8, b: u8) -> (c: NativeCall)
        ensures
            c == (NativeCall::CreateSolidBrush { color: rgb_spec(r, g, b) }),
    {
        NativeCall::CreateSolidBrush { color: rgb(r, g, b) }
    }

    /// Takes ownership of what the creation call returned; a null handle is its failure.
    pub fn solid(handles: &mut HandleTable, created: usize, last: &LastError) -> (r: Result<Brush>)
        requires
            old(handles)@.len() < usize::MAX,
        ensures
            r is Ok <==> created != 0,
            r matches Ok(b) ==> final(handles)@ == old(handles)@.push((created, 1u64))
                && b.handle().id() == old(handles)@.len() && b.valid_in(*final(handles)),
            r matches Err(e) ==> final(handles)@ == old(handles)@ && reports(
                e,
                Win32Function::CreateBrush,
                *last,
            ),
    {
        match handles.acquire(created, Win32Function::CreateBrush, last) {
            Ok(hbrush) => Ok(Brush { hbrush }),
            Err(e) => Err(e),
        }
    }

    /// The raw handle of this brush.
    pub fn hbrush(&self, handles: &HandleTable) -> (r: usize)
        requires
            self.valid_in(*handles),
        ensures
            r == handles@[self.handle().id()].0,
    {
        handles.raw(&self.hbrush)
    }

    /// Releases this brush; the calls returned, made in order, tear it down.
    pub fn release(self, handles: &mut HandleTable) -> (r: Vec<NativeCall>)
        requires
            self.valid_in(*old(handles)),
        ensures
            final(handles)@ == crate::handle::after_release(old(handles)@, self.handle().id()),
            r@ == (if old(handles)@[self.handle().id()].1 == 1 {
                seq![NativeCall::DeleteObject { object: old(handles)@[self.handle().id()].0 }]
            } else {
                Seq::empty()
            }),
    {
        let mut calls: Vec<NativeCall> = Vec::new();
        match handles.release(self.hbrush) {
            Some(object) => calls.push(NativeCall::DeleteObject { object }),
            None => {},
        }
        calls
    }
}

} // verus!
