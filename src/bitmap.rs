use vstd::prelude::*;

use crate::dc::{teardown_calls, DeviceContext, DeviceContextKind, DeviceContextStorage};
use crate::error::{reports, LastError, Result, Win32Function};
use crate::geometry::Size;
use crate::handle::{after_release, HandleTable, Strong, Weak};
use crate::native::NativeCall;

verus! {

/// A bitmap: the strong owner of a native bitmap handle and of the memory context
/// that was made to draw into it.
#[derive(Debug)]
pub struct Bitmap {
    hbitmap: Strong,
    owning_dc: DeviceContext,
    width: i32,
    height: i32,
}

/// The calls that tear down a bitmap whose handle is entry `id` of table `t` and whose
/// companion context has handle `hdc` and kind `kind`: the context first, then the
/// bitmap handle, once its last owner goes.
pub open spec fn bitmap_teardown_calls(
    hdc: usize,
    kind: DeviceContextKind,
    id: int,
    t: Seq<(usize, u64)>,
) -> Seq<NativeCall> {
    teardown_calls(hdc, kind, t) + if t[id].1 == 1 {
        seq![NativeCall::DeleteObject { object: t[id].0 }]
    } else {
        Seq::empty()
    }
}

impl Bitmap {
    /// The table entry of the bitmap handle.
    pub closed spec fn handle(&self) -> Strong {
        self.hbitmap
    }

    /// The companion context.
    pub closed spec fn companion(&self) -> DeviceContext {
        self.owning_dc
    }

    /// The width the platform reports.
    pub closed spec fn width_spec(&self) -> i32 {
        self.width
    }

    /// The height the platform reports.
    pub closed spec fn height_spec(&self) -> i32 {
        self.height
    }

    /// Whether this bitmap's handle is live in `t`.
    pub open spec fn valid_in(&self, t: HandleTable) -> bool {
        t.holds(&self.handle())
    }

    /// The call that creates a bitmap of this size from rows of 24-bit RGB pixels.
    pub fn creation(size: Size, data: Vec<u8>) -> (c: NativeCall)
        ensures
            c == (NativeCall::CreateBitmap {
                width: size.width,
                height: size.height,
                planes: 1,
                bits_per_pixel: 24,
                data,
            }),
    {
        NativeCall::CreateBitmap {
            width: size.width,
            height: size.height,
            planes: 1,
            bits_per_pixel: 24,
            data,
        }
    }

    /// Assembles a bitmap from the outcome of each construction step: the handle the
    /// creation call returned (null on failure, reported from `last`), the size the
    /// platform then reported for it, and the compatible context made to host it,
    /// into whose slot the bitmap was selected, displacing `previous`. The size kept is
    /// the one the platform reported, not the one asked for.
    ///
    /// When a step after the creation failed, the first such failure is returned
    /// together with the calls that release what was made: the context first, then the
    /// bitmap handle, so nothing leaks. On success no call is returned.
    pub fn from_dc_and_data(
        handles: &mut HandleTable,
        created: usize,
        last: &LastError,
        dimensions: Result<Size>,
        companion: Result<DeviceContext>,
        previous: usize,
    ) -> (r: (Result<Bitmap>, Vec<NativeCall>))
        requires
            old(handles)@.len() < usize::MAX,
            companion matches Ok(dc) ==> dc.kind_spec() == (DeviceContextKind::Compatible {
                old_object: None,
                storage: None,
            }),
        ensures
            r.0 is Ok <==> created != 0 && dimensions is Ok && companion is Ok,
            created == 0 ==> final(handles)@ == old(handles)@ && r.1@.len() == 0 && (r.0 matches Err(
                e,
            ) && reports(e, Win32Function::CreateBitmap, *last)),
            created != 0 && dimensions is Err ==> r.0 == Err::<Bitmap, _>(dimensions->Err_0),
            created != 0 && dimensions is Ok && companion is Err ==> r.0 == Err::<Bitmap, _>(
                companion->Err_0,
            ),
            created != 0 && r.0 is Err ==> final(handles)@ == old(handles)@ && r.1@ == (match companion {
                Ok(dc) => teardown_calls(dc.handle(), dc.kind_spec(), old(handles)@),
                Err(_) => Seq::empty(),
            }) + seq![NativeCall::DeleteObject { object: created }],
            r.0 matches Ok(b) ==> {
                &&& r.1@.len() == 0
                &&& final(handles)@ == old(handles)@.push((created, 1u64))
                &&& b.handle().id() == old(handles)@.len()
                &&& b.valid_in(*final(handles))
                &&& b.width_spec() == dimensions->Ok_0.width
                &&& b.height_spec() == dimensions->Ok_0.height
                &&& b.companion().handle() == companion->Ok_0.handle()
                &&& (b.companion().kind_spec() matches DeviceContextKind::Compatible {
                    old_object: Some(o),
                    storage: Some(DeviceContextStorage::Bitmap(w)),
                } && o == previous && w.id() == b.handle().id())
            },
    {
        if created == 0 {
            return (Err(crate::error::win32_error(Win32Function::CreateBitmap, last)), Vec::new());
        }
        match dimensions {
            Err(e) => {
                let mut cleanup = match companion {
                    Ok(dc) => dc.release(handles),
                    Err(_) => Vec::new(),
                };
                cleanup.push(NativeCall::DeleteObject { object: created });
                (Err(e), cleanup)
            },
            Ok(size) => match companion {
                Err(e) => {
                    let mut cleanup: Vec<NativeCall> = Vec::new();
                    cleanup.push(NativeCall::DeleteObject { object: created });
                    (Err(e), cleanup)
                },
                Ok(dc) => {
                    let mut owning_dc = dc;
                    let hbitmap = handles.insert(created);
                    let weak = handles.downgrade(&hbitmap);
                    // a fresh memory context always takes its first selection
                    let _selected = owning_dc.set_bitmap(weak, previous);
                    let b = Bitmap { hbitmap, owning_dc, width: size.width, height: size.height };
                    (Ok(b), Vec::new())
                },
            },
        }
    }

    /// The raw handle of this bitmap.
    pub fn hbitmap(&self, handles: &HandleTable) -> (r: usize)
        requires
            self.valid_in(*handles),
        ensures
            r == handles@[self.handle().id()].0,
    {
        handles.raw(&self.hbitmap)
    }

    /// The context that draws into this bitmap.
    pub fn dc(&self) -> (r: &DeviceContext)
        ensures
            *r == self.companion(),
    {
        &self.owning_dc
    }

    /// The width of the image, as the platform reported it.
    pub fn width(&self) -> (r: i32)
        ensures
            r == self.width_spec(),
    {
        self.width
    }

    /// The height of the image, as the platform reported it.
    pub fn height(&self) -> (r: i32)
        ensures
            r == self.height_spec(),
    {
        self.height
    }

    /// A weak observer of this bitmap's handle.
    pub fn weak_reference(&self, handles: &HandleTable) -> (w: Weak)
        ensures
            w.id() == self.handle().id(),
    {
        handles.downgrade(&self.hbitmap)
    }

    /// Tears this bitmap down: its companion context first, then the bitmap handle.
    /// The calls are returned in the order they are to be made.
    pub fn release(self, handles: &mut HandleTable) -> (r: Vec<NativeCall>)
        requires
            self.valid_in(*old(handles)),
        ensures
            final(handles)@ == after_release(old(handles)@, self.handle().id()),
            r@ == bitmap_teardown_calls(
                self.companion().handle(),
                self.companion().kind_spec(),
                self.handle().id(),
                old(handles)@,
            ),
    {
        let Bitmap { hbitmap, owning_dc, width, height } = self;
        let mut calls = owning_dc.release(handles);
        let ghost first = calls@;
        match handles.release(hbitmap) {
            Some(object) => calls.push(NativeCall::DeleteObject { object }),
            None => {},
        }
        assert(calls@ =~= bitmap_teardown_calls(
            self.companion().handle(),
            self.companion().kind_spec(),
            self.handle().id(),
            old(handles)@,
        ));
        calls
    }
}

/// Tearing down a bitmap deletes its companion context before the bitmap handle:
/// every call on the context comes before the deletion of the bitmap, which comes last.
pub proof fn law_bitmap_teardown_order(hdc: usize, kind: DeviceContextKind, id: int, t: Seq<(usize, u64)>)
    requires
        kind is Compatible,
        0 <= id < t.len(),
        t[id].1 == 1,
    ensures
        ({
            let calls = bitmap_teardown_calls(hdc, kind, id, t);
            let n = calls.len() as int;
            &&& n >= 2
            &&& calls[n - 1] == (NativeCall::DeleteObject { object: t[id].0 })
            &&& calls[n - 2] == (NativeCall::DeleteDC { hdc })
            &&& forall|i: int| 0 <= i < n - 1 ==> !(calls[i] is DeleteObject)
        }),
{
    let calls = bitmap_teardown_calls(hdc, kind, id, t);
    let first = teardown_calls(hdc, kind, t);
    assert(calls == first + seq![NativeCall::DeleteObject { object: t[id].0 }]);
}

} // verus!
