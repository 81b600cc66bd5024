use vstd::prelude::*;

use crate::draw::{rgb, rgb_spec, Brush, Pen};
use crate::error::{reports, Error, LastError, Result, Win32Function};
use crate::geometry::{eurect_to_winrect, rect_fits, Point, Rect};
use crate::handle::{live, HandleTable, Weak};
use crate::native::{NativeCall, PaintStruct};

verus! {

/// The direction an arc is drawn in.
#[derive(Debug, Clone, Copy, PartialEq, Eq, Ord, PartialOrd, Hash)]
pub enum ArcDirection {
    Clockwise,
    CounterClockwise,
}

/// The native code of an arc direction.
pub open spec fn arc_direction_code(d: ArcDirection) -> i32 {
    match d {
        ArcDirection::Clockwise => 2,
        ArcDirection::CounterClockwise => 1,
    }
}

impl ArcDirection {
    /// The native code of this direction.
    pub fn code(&self) -> (r: i32)
        ensures
            r == arc_direction_code(*self),
    {
        match self {
            ArcDirection::Clockwise => 2,
            ArcDirection::CounterClockwise => 1,
        }
    }
}

/// The ways pixels can be combined when copied between contexts.
#[derive(Debug, Clone, Copy, PartialEq, Eq, Hash)]
pub enum CopyOperation {
    SrcCopy,
    SrcAnd,
    SrcErase,
    SrcPaint,
}

/// The native raster-operation code of a copy operation.
pub open spec fn copy_operation_code(op: CopyOperation) -> u32 {
    match op {
        CopyOperation::SrcCopy => 0x00CC0020,
        CopyOperation::SrcAnd => 0x008800C6,
        CopyOperation::SrcErase => 0x00440328,
        CopyOperation::SrcPaint => 0x00EE0086,
    }
}

impl CopyOperation {
    /// The native raster-operation code of this operation.
    pub fn code(&self) -> (r: u32)
        ensures
            r == copy_operation_code(*self),
    {
        match self {
            CopyOperation::SrcCopy => 0x00CC0020,
            CopyOperation::SrcAnd => 0x008800C6,
            CopyOperation::SrcErase => 0x00440328,
            CopyOperation::SrcPaint => 0x00EE0086,
        }
    }
}

/// A drawable resource recorded as selected into a context.
#[derive(Debug, Clone, Copy, PartialEq, Eq)]
pub enum DeviceContextStorage {
    /// A bitmap, observed weakly: the context does not keep it alive.
    Bitmap(Weak),
}

/// How a context was obtained, which decides how it is torn down.
#[derive(Debug, Clone, Copy, PartialEq, Eq)]
pub enum DeviceContextKind {
    /// A context for one paint session of a window.
    Painter { owner: Weak, paint: PaintStruct },
    /// A memory context compatible with another one. `old_object` is what its slot
    /// held before the current selection; `storage` records that selection.
    Compatible { old_object: Option<usize>, storage: Option<DeviceContextStorage> },
}

/// A drawing context: the exclusive owner of one native context handle.
#[derive(Debug)]
pub struct DeviceContext {
    hdc: usize,
    kind: DeviceContextKind,
}

/// The calls that tear down a context with handle `hdc` of kind `kind`, given the
/// table that says whether a painter's window is still alive.
pub open spec fn teardown_calls(hdc: usize, kind: DeviceContextKind, t: Seq<(usize, u64)>) -> Seq<
    NativeCall,
> {
    match kind {
        DeviceContextKind::Painter { owner, paint } => if live(t, owner.id()) {
            seq![NativeCall::EndPaint { hwnd: t[owner.id()].0, paint }]
        } else {
            Seq::empty()
        },
        DeviceContextKind::Compatible { old_object, storage } => match old_object {
            Some(o) => seq![
                NativeCall::SelectObject { hdc, object: o },
                NativeCall::DeleteDC { hdc },
            ],
            None => seq![NativeCall::DeleteDC { hdc }],
        },
    }
}

/// Whether a context of kind `kind` can take a drawable resource now.
pub open spec fn storage_free(kind: DeviceContextKind) -> bool {
    kind matches DeviceContextKind::Compatible { old_object: None, storage: None }
}

/// The error an attempt to attach a resource to a context of kind `kind` fails with.
pub open spec fn storage_error(kind: DeviceContextKind) -> Error {
    match kind {
        DeviceContextKind::Painter { .. } => Error::NoGDIStorage,
        DeviceContextKind::Compatible { .. } => Error::AlreadyHadGDIStorage,
    }
}

impl DeviceContext {
    /// The raw handle of this context.
    pub closed spec fn handle(&self) -> usize {
        self.hdc
    }

    /// The kind and selection state of this context.
    pub closed spec fn kind_spec(&self) -> DeviceContextKind {
        self.kind
    }

    /// The call that begins a paint session on a window.
    pub fn paint_request(hwnd: usize) -> (c: NativeCall)
        ensures
            c == (NativeCall::BeginPaint { hwnd }),
    {
        NativeCall::BeginPaint { hwnd }
    }

    /// Takes ownership of the context a paint session began with; a null context is
    /// the session's failure. `owner` observes the painted window.
    pub fn begin_paint(owner: Weak, hdc: usize, paint: PaintStruct, last: &LastError) -> (r: Result<
        Self,
    >)
        ensures
            r is Ok <==> hdc != 0,
            r matches Ok(dc) ==> dc.handle() == hdc && dc.kind_spec() == (DeviceContextKind::Painter {
                owner,
                paint,
            }),
            r matches Err(e) ==> reports(e, Win32Function::BeginPaint, *last),
    {
        if hdc == 0 {
            Err(crate::error::win32_error(Win32Function::BeginPaint, last))
        } else {
            Ok(DeviceContext { hdc, kind: DeviceContextKind::Painter { owner, paint } })
        }
    }

    /// The call that creates a memory context compatible with this one.
    pub fn compatible_request(&self) -> (c: NativeCall)
        ensures
            c == (NativeCall::CreateCompatibleDC { hdc: self.handle() }),
    {
        NativeCall::CreateCompatibleDC { hdc: self.hdc }
    }

    /// Takes ownership of the compatible context that was created; a null context is
    /// the creation's failure. The new context starts with nothing selected.
    pub fn create_compatible(&self, created: usize, last: &LastError) -> (r: Result<Self>)
        ensures
            r is Ok <==> created != 0,
            r matches Ok(dc) ==> dc.handle() == created && dc.kind_spec() == (
            DeviceContextKind::Compatible { old_object: None, storage: None }),
            r matches Err(e) ==> reports(e, Win32Function::CreateCompatibleDC, *last),
    {
        if created == 0 {
            Err(crate::error::win32_error(Win32Function::CreateCompatibleDC, last))
        } else {
            Ok(
                DeviceContext {
                    hdc: created,
                    kind: DeviceContextKind::Compatible { old_object: None, storage: None },
                },
            )
        }
    }

    /// The raw handle of this context.
    pub fn hdc(&self) -> (r: usize)
        ensures
            r == self.handle(),
    {
        self.hdc
    }

    /// The kind and selection state of this context.
    pub fn kind(&self) -> (r: DeviceContextKind)
        ensures
            r == self.kind_spec(),
    {
        self.kind
    }

    /// The call that selects a pen into this context.
    pub fn set_pen(&self, pen: &Pen, handles: &HandleTable) -> (c: NativeCall)
        requires
            pen.valid_in(*handles),
        ensures
            c == (NativeCall::SelectObject {
                hdc: self.handle(),
                object: handles@[pen.handle().id()].0,
            }),
    {
        NativeCall::SelectObject { hdc: self.hdc, object: pen.hpen(handles) }
    }

    /// The call that selects a brush into this context.
    pub fn set_brush(&self, brush: &Brush, handles: &HandleTable) -> (c: NativeCall)
        requires
            brush.valid_in(*handles),
        ensures
            c == (NativeCall::SelectObject {
                hdc: self.handle(),
                object: handles@[brush.handle().id()].0,
            }),
    {
        NativeCall::SelectObject { hdc: self.hdc, object: brush.hbrush(handles) }
    }

    /// The call that selects a bitmap into this context, when the context can take
    /// one: a painter cannot, and a memory context holds at most one selection.
    pub fn bitmap_selection(&self, hbitmap: usize) -> (r: Result<NativeCall>)
        ensures
            r is Ok <==> storage_free(self.kind_spec()),
            r matches Ok(c) ==> c == (NativeCall::SelectObject { hdc: self.handle(), object: hbitmap }),
            r matches Err(e) ==> e == storage_error(self.kind_spec()),
    {
        match self.kind {
            DeviceContextKind::Painter { .. } => Err(Error::NoGDIStorage),
            DeviceContextKind::Compatible { old_object, storage } => {
                if old_object.is_some() || storage.is_some() {
                    Err(Error::AlreadyHadGDIStorage)
                } else {
                    Ok(NativeCall::SelectObject { hdc: self.hdc, object: hbitmap })
                }
            },
        }
    }

    /// Records that a bitmap was selected into this memory context, displacing
    /// `previous`, which teardown puts back. Fails on a painter, and on a context that
    /// already holds a selection, which is left as it was.
    pub fn set_bitmap(&mut self, bitmap: Weak, previous: usize) -> (r: Result<()>)
        ensures
            r is Ok <==> storage_free(old(self).kind_spec()),
            final(self).handle() == old(self).handle(),
            r is Ok ==> final(self).kind_spec() == (DeviceContextKind::Compatible {
                old_object: Some(previous),
                storage: Some(DeviceContextStorage::Bitmap(bitmap)),
            }),
            r matches Err(e) ==> e == storage_error(old(self).kind_spec()) && final(self).kind_spec()
                == old(self).kind_spec(),
    {
        match self.kind {
            DeviceContextKind::Painter { .. } => Err(Error::NoGDIStorage),
            DeviceContextKind::Compatible { old_object, storage } => {
                if old_object.is_some() || storage.is_some() {
                    Err(Error::AlreadyHadGDIStorage)
                } else {
                    self.kind =
                    DeviceContextKind::Compatible {
                        old_object: Some(previous),
                        storage: Some(DeviceContextStorage::Bitmap(bitmap)),
                    };
                    Ok(())
                }
            },
        }
    }

    /// The call that copies a block of pixels from `source` into this context.
    pub fn copy_from(&self, source: &Self, source_rect: Rect, dest_pt: Point, op: CopyOperation) -> (c:
        NativeCall)
        ensures
            c == (NativeCall::BitBlt {
                dest: self.handle(),
                x: dest_pt.x,
                y: dest_pt.y,
                width: source_rect.size.width,
                height: source_rect.size.height,
                source: source.handle(),
                source_x: source_rect.origin.x,
                source_y: source_rect.origin.y,
                rop: copy_operation_code(op),
            }),
    {
        NativeCall::BitBlt {
            dest: self.hdc,
            x: dest_pt.x,
            y: dest_pt.y,
            width: source_rect.size.width,
            height: source_rect.size.height,
            source: source.hdc,
            source_x: source_rect.origin.x,
            source_y: source_rect.origin.y,
            rop: op.code(),
        }
    }

    /// The call that moves the current position to a point.
    pub fn move_to(&self, p: Point) -> (c: NativeCall)
        ensures
            c == (NativeCall::MoveTo { hdc: self.handle(), x: p.x, y: p.y }),
    {
        NativeCall::MoveTo { hdc: self.hdc, x: p.x, y: p.y }
    }

    /// The calls that draw a line between two points, to be made in order and
    /// stopped at the first failure.
    pub fn draw_line(&self, p1: Point, p2: Point) -> (r: Vec<NativeCall>)
        ensures
            r@ == seq![
                NativeCall::MoveTo { hdc: self.handle(), x: p1.x, y: p1.y },
                NativeCall::LineTo { hdc: self.handle(), x: p2.x, y: p2.y },
            ],
    {
        let mut calls: Vec<NativeCall> = Vec::new();
        calls.push(self.move_to(p1));
        calls.push(NativeCall::LineTo { hdc: self.hdc, x: p2.x, y: p2.y });
        assert(calls@ =~= seq![
            NativeCall::MoveTo { hdc: self.handle(), x: p1.x, y: p1.y },
            NativeCall::LineTo { hdc: self.handle(), x: p2.x, y: p2.y },
        ]);
        calls
    }

    /// The call that draws an arc from `p1` to `p2` along the ellipse in `bounds`.
    pub fn draw_arc(&self, bounds: Rect, p1: Point, p2: Point) -> (c: NativeCall)
        requires
            rect_fits(bounds),
        ensures
            c matches NativeCall::Arc { hdc, bounds: b, start, end } && hdc == self.handle()
                && start == p1 && end == p2 && b.left == bounds.origin.x && b.top == bounds.origin.y
                && b.right == bounds.origin.x + bounds.size.width && b.bottom == bounds.origin.y
                + bounds.size.height,
    {
        NativeCall::Arc { hdc: self.hdc, bounds: eurect_to_winrect(bounds), start: p1, end: p2 }
    }

    /// The call that sets the direction arcs are drawn in.
    pub fn set_arc_direction(&self, dir: ArcDirection) -> (c: NativeCall)
        ensures
            c == (NativeCall::SetArcDirection {
                hdc: self.handle(),
                direction: arc_direction_code(dir),
            }),
    {
        NativeCall::SetArcDirection { hdc: self.hdc, direction: dir.code() }
    }

    /// The call that draws a rectangle.
    pub fn draw_rect(&self, rect: Rect) -> (c: NativeCall)
        requires
            rect_fits(rect),
        ensures
            c matches NativeCall::Rectangle { hdc, bounds: b } && hdc == self.handle() && b.left
                == rect.origin.x && b.top == rect.origin.y && b.right == rect.origin.x
                + rect.size.width && b.bottom == rect.origin.y + rect.size.height,
    {
        NativeCall::Rectangle { hdc: self.hdc, bounds: eurect_to_winrect(rect) }
    }

    /// The call that draws the ellipse inscribed in a rectangle.
    pub fn draw_ellipse(&self, bounding_rect: Rect) -> (c: NativeCall)
        requires
            rect_fits(bounding_rect),
        ensures
            c matches NativeCall::Ellipse { hdc, bounds: b } && hdc == self.handle() && b.left
                == bounding_rect.origin.x && b.top == bounding_rect.origin.y && b.right
                == bounding_rect.origin.x + bounding_rect.size.width && b.bottom
                == bounding_rect.origin.y + bounding_rect.size.height,
    {
        NativeCall::Ellipse { hdc: self.hdc, bounds: eurect_to_winrect(bounding_rect) }
    }

    /// The call that sets the color of this context's stock brush.
    pub fn set_brush_color(&self, r: u8, g: u8, b: u8) -> (c: NativeCall)
        ensures
            c == (NativeCall::SetDCBrushColor { hdc: self.handle(), color: rgb_spec(r, g, b) }),
    {
        NativeCall::SetDCBrushColor { hdc: self.hdc, color: rgb(r, g, b) }
    }

    /// The call that sets the color of this context's stock pen.
    pub fn set_pen_color(&self, r: u8, g: u8, b: u8) -> (c: NativeCall)
        ensures
            c == (NativeCall::SetDCPenColor { hdc: self.handle(), color: rgb_spec(r, g, b) }),
    {
        NativeCall::SetDCPenColor { hdc: self.hdc, color: rgb(r, g, b) }
    }

    /// Tears this context down: a painter ends its session against its window if that
    /// window is still alive, and is skipped silently otherwise; a memory context puts
    /// back what its slot held before the selection, then is deleted. The calls are
    /// returned in the order they are to be made; none of them is reported as failing.
    pub fn release(self, handles: &HandleTable) -> (r: Vec<NativeCall>)
        ensures
            r@ == teardown_calls(self.handle(), self.kind_spec(), handles@),
    {
        let mut calls: Vec<NativeCall> = Vec::new();
        match self.kind {
            DeviceContextKind::Painter { owner, paint } => {
                match handles.raw_of_weak(&owner) {
                    Ok(hwnd) => calls.push(NativeCall::EndPaint { hwnd, paint }),
                    Err(_) => {},
                }
            },
            DeviceContextKind::Compatible { old_object, storage } => {
                match old_object {
                    Some(o) => calls.push(NativeCall::SelectObject { hdc: self.hdc, object: o }),
                    None => {},
                }
                calls.push(NativeCall::DeleteDC { hdc: self.hdc });
            },
        }
        assert(calls@ =~= teardown_calls(self.handle(), self.kind_spec(), handles@));
        calls
    }
}

/// A memory context takes one selection and refuses a second one, whatever it is, with
/// `AlreadyHadGDIStorage`; a painter refuses every selection with `NoGDIStorage`.
pub proof fn law_single_selection(kind: DeviceContextKind, previous: usize, bitmap: Weak)
    ensures
        storage_free(kind) ==> !storage_free(
            DeviceContextKind::Compatible {
                old_object: Some(previous),
                storage: Some(DeviceContextStorage::Bitmap(bitmap)),
            },
        ),
        storage_error(
            DeviceContextKind::Compatible {
                old_object: Some(previous),
                storage: Some(DeviceContextStorage::Bitmap(bitmap)),
            },
        ) == Error::AlreadyHadGDIStorage,
        kind is Painter ==> !storage_free(kind) && storage_error(kind) == Error::NoGDIStorage,
{
}

} // verus!
