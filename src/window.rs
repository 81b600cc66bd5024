use vstd::prelude::*;

use crate::dc::DeviceContext;
use crate::error::{reports, win32_error, Error, LastError, Result, Win32Function};
use crate::geometry::{eurect_to_winrect, rect_fits, Point, Rect};
use crate::handle::{after_release, live, HandleTable, Strong, Weak};
use crate::native::{NativeCall, PaintStruct, WindowPlacement};
use crate::string::{utf16_of, WString};

verus! {

/// A window class: something that names one.
pub trait WindowClass {
    /// The name of the class.
    spec fn class_text(&self) -> Seq<char>;

    /// The name of the class.
    fn identifier(&self) -> (r: &str)
        ensures
            r@ == self.class_text(),
    ;
}

impl WindowClass for String {
    open spec fn class_text(&self) -> Seq<char> {
        self@
    }

    fn identifier(&self) -> (r: &str) {
        self.as_str()
    }
}

impl<'a> WindowClass for &'a str {
    open spec fn class_text(&self) -> Seq<char> {
        self@
    }

    fn identifier(&self) -> (r: &str) {
        *self
    }
}

/// A window class this library registers, and whether it currently is registered.
#[derive(Debug, Clone)]
pub struct OwnedWindowClass {
    class_name: String,
    style: u32,
    is_registered: bool,
}

impl WindowClass for OwnedWindowClass {
    open spec fn class_text(&self) -> Seq<char> {
        self.name_spec()
    }

    fn identifier(&self) -> (r: &str) {
        self.class_name()
    }
}

impl OwnedWindowClass {
    /// The name of the class.
    pub closed spec fn name_spec(&self) -> Seq<char> {
        self.class_name@
    }

    /// The class style bits.
    pub closed spec fn style_spec(&self) -> u32 {
        self.style
    }

    /// Whether the class is currently registered.
    pub closed spec fn registered_spec(&self) -> bool {
        self.is_registered
    }

    /// A class of this name with no style bits, not yet registered.
    pub fn new(name: String) -> (r: Self)
        ensures
            r.name_spec() == name@,
            r.style_spec() == 0,
            !r.registered_spec(),
    {
        OwnedWindowClass { class_name: name, style: 0, is_registered: false }
    }

    /// The name of the class.
    pub fn class_name(&self) -> (r: &str)
        ensures
            r@ == self.name_spec(),
    {
        self.class_name.as_str()
    }

    /// Renames the class; a registered class keeps its registration under the old name
    /// until it is registered again.
    pub fn set_class_name(&mut self, name: String) -> (r: Result<()>)
        ensures
            r is Ok,
            final(self).name_spec() == name@,
            final(self).style_spec() == old(self).style_spec(),
            final(self).registered_spec() == old(self).registered_spec(),
    {
        self.class_name = name;
        Ok(())
    }

    /// The class style bits.
    pub fn style(&self) -> (r: u32)
        ensures
            r == self.style_spec(),
    {
        self.style
    }

    /// Sets the class style bits.
    pub fn set_style(&mut self, style: u32)
        ensures
            final(self).style_spec() == style,
            final(self).name_spec() == old(self).name_spec(),
            final(self).registered_spec() == old(self).registered_spec(),
    {
        self.style = style;
    }

    /// Whether the class is currently registered.
    pub fn is_registered(&self) -> (r: bool)
        ensures
            r == self.registered_spec(),
    {
        self.is_registered
    }

    /// The first call of a registration: a registered class is unregistered before it
    /// is registered again, an unregistered one is registered at once. Fails if the
    /// class name holds a null character.
    pub fn register_request(&self) -> (r: Result<NativeCall>)
        requires
            utf16_of(self.name_spec()).len() < usize::MAX,
        ensures
            r is Ok <==> !self.name_spec().contains('\0'),
            r matches Ok(c) ==> (if self.registered_spec() {
                c matches NativeCall::UnregisterClass { class_name } && class_name.text() == utf16_of(
                    self.name_spec(),
                )
            } else {
                c matches NativeCall::RegisterClass { class_name, style } && class_name.text()
                    == utf16_of(self.name_spec()) && style == self.style_spec()
            }),
            r matches Err(e) ==> e == Error::WideStringNul,
    {
        let class_name = WString::encode(self.class_name.as_str())?;
        if self.is_registered {
            Ok(NativeCall::UnregisterClass { class_name })
        } else {
            Ok(NativeCall::RegisterClass { class_name, style: self.style })
        }
    }

    /// Records the outcome of the call `register_request` gave, whose return value was
    /// `ret`. A successful unregistration leaves the class unregistered, and
    /// `register_request` then gives the registration itself; a successful
    /// registration leaves it registered. A failure leaves the class as it was.
    pub fn register(&mut self, ret: i64, last: &LastError) -> (r: Result<()>)
        ensures
            r is Ok <==> ret != 0,
            final(self).name_spec() == old(self).name_spec(),
            final(self).style_spec() == old(self).style_spec(),
            r is Ok ==> final(self).registered_spec() == !old(self).registered_spec(),
            r is Err ==> final(self).registered_spec() == old(self).registered_spec(),
            r matches Err(e) ==> reports(
                e,
                if old(self).registered_spec() {
                    Win32Function::UnregisterClassA
                } else {
                    Win32Function::RegisterClassExA
                },
                *last,
            ),
    {
        if ret == 0 {
            if self.is_registered {
                Err(win32_error(Win32Function::UnregisterClassA, last))
            } else {
                Err(win32_error(Win32Function::RegisterClassExA, last))
            }
        } else {
            self.is_registered = !self.is_registered;
            Ok(())
        }
    }
}

/// Window style bits.
#[derive(Debug, Clone, Copy, PartialEq, Eq, Hash)]
pub struct WindowStyle {
    pub bits: u32,
}

/// Extended window style bits.
#[derive(Debug, Clone, Copy, PartialEq, Eq, Hash)]
pub struct ExtendedWindowStyle {
    pub bits: u32,
}

pub const WS_OVERLAPPED: u32 = 0x00000000;
pub const WS_POPUP: u32 = 0x80000000;
pub const WS_CHILD: u32 = 0x40000000;
pub const WS_MINIMIZE: u32 = 0x20000000;
pub const WS_VISIBLE: u32 = 0x10000000;
pub const WS_DISABLED: u32 = 0x08000000;
pub const WS_CLIPSIBLINGS: u32 = 0x04000000;
pub const WS_CLIPCHILDREN: u32 = 0x02000000;
pub const WS_MAXIMIZE: u32 = 0x01000000;
pub const WS_CAPTION: u32 = 0x00C00000;
pub const WS_BORDER: u32 = 0x00800000;
pub const WS_DLGFRAME: u32 = 0x00400000;
pub const WS_VSCROLL: u32 = 0x00200000;
pub const WS_HSCROLL: u32 = 0x00100000;
pub const WS_SYSMENU: u32 = 0x00080000;
pub const WS_THICKFRAME: u32 = 0x00040000;
pub const WS_GROUP: u32 = 0x00020000;
pub const WS_TABSTOP: u32 = 0x00010000;
pub const WS_MINIMIZEBOX: u32 = 0x00020000;
pub const WS_MAXIMIZEBOX: u32 = 0x00010000;
pub const WS_OVERLAPPEDWINDOW: u32 = 0x00CF0000;
pub const WS_POPUPWINDOW: u32 = 0x80880000;

pub const WS_EX_DLGMODALFRAME: u32 = 0x00000001;
pub const WS_EX_NOPARENTNOTIFY: u32 = 0x00000004;
pub const WS_EX_TOPMOST: u32 = 0x00000008;
pub const WS_EX_ACCEPTFILES: u32 = 0x00000010;
pub const WS_EX_TRANSPARENT: u32 = 0x00000020;
pub const WS_EX_MDICHILD: u32 = 0x00000040;
pub const WS_EX_TOOLWINDOW: u32 = 0x00000080;
pub const WS_EX_WINDOWEDGE: u32 = 0x00000100;
pub const WS_EX_CLIENTEDGE: u32 = 0x00000200;
pub const WS_EX_CONTEXTHELP: u32 = 0x00000400;
pub const WS_EX_APPWINDOW: u32 = 0x00040000;
pub const WS_EX_LAYERED: u32 = 0x00080000;
pub const WS_EX_OVERLAPPEDWINDOW: u32 = 0x00000300;

impl WindowStyle {
    pub fn from_bits(bits: u32) -> (r: Self)
        ensures
            r.bits == bits,
    {
        WindowStyle { bits }
    }

    pub fn bits(&self) -> (r: u32)
        ensures
            r == self.bits,
    {
        self.bits
    }

    /// The styles of both.
    pub fn union(&self, other: Self) -> (r: Self)
        ensures
            r.bits == self.bits | other.bits,
    {
        WindowStyle { bits: self.bits | other.bits }
    }

    /// Whether every bit of `other` is set here.
    pub fn contains(&self, other: Self) -> (r: bool)
        ensures
            r == (self.bits & other.bits == other.bits),
    {
        self.bits & other.bits == other.bits
    }
}

impl ExtendedWindowStyle {
    pub fn from_bits(bits: u32) -> (r: Self)
        ensures
            r.bits == bits,
    {
        ExtendedWindowStyle { bits }
    }

    pub fn bits(&self) -> (r: u32)
        ensures
            r == self.bits,
    {
        self.bits
    }

    /// The styles of both.
    pub fn union(&self, other: Self) -> (r: Self)
        ensures
            r.bits == self.bits | other.bits,
    {
        ExtendedWindowStyle { bits: self.bits | other.bits }
    }

    /// Whether every bit of `other` is set here.
    pub fn contains(&self, other: Self) -> (r: bool)
        ensures
            r == (self.bits & other.bits == other.bits),
    {
        self.bits & other.bits == other.bits
    }
}

/// Ways to show a window.
#[derive(Debug, Clone, Copy, PartialEq, Eq, Hash)]
pub enum CmdShow {
    Hide,
    ForceMinimize,
    Maximize,
    Minimize,
    Show,
    ShowDefault,
    ShowMinimized,
    ShowNA,
    ShowNoActivate,
    ShowNormal,
}

/// The native code of a way to show a window.
pub open spec fn cmd_show_code(c: CmdShow) -> i32 {
    match c {
        CmdShow::Hide => 0,
        CmdShow::ShowNormal => 1,
        CmdShow::ShowMinimized => 2,
        CmdShow::Maximize => 3,
        CmdShow::ShowNoActivate => 4,
        CmdShow::Show => 5,
        CmdShow::Minimize => 6,
        CmdShow::ShowNA => 8,
        CmdShow::ShowDefault => 10,
        CmdShow::ForceMinimize => 11,
    }
}

impl CmdShow {
    /// Another name for `Maximize`.
    #[allow(non_snake_case)]
    pub fn ShowMaximize() -> (r: Self)
        ensures
            r == CmdShow::Maximize,
    {
        CmdShow::Maximize
    }

    /// The native code of this way to show a window.
    pub fn code(&self) -> (r: i32)
        ensures
            r == cmd_show_code(*self),
    {
        match self {
            CmdShow::Hide => 0,
            CmdShow::ShowNormal => 1,
            CmdShow::ShowMinimized => 2,
            CmdShow::Maximize => 3,
            CmdShow::ShowNoActivate => 4,
            CmdShow::Show => 5,
            CmdShow::Minimize => 6,
            CmdShow::ShowNA => 8,
            CmdShow::ShowDefault => 10,
            CmdShow::ForceMinimize => 11,
        }
    }
}

/// A value attached to a window, tagged with its type.
#[derive(Debug, Clone, PartialEq, Eq)]
pub enum UserData {
    I32(i32),
    I64(i64),
    U64(u64),
    Bool(bool),
    Text(String),
    Bytes(Vec<u8>),
}

/// A type whose values can be attached to a window and recovered by their type.
pub trait Payload: Sized {
    /// The tagged value that holds `v`.
    spec fn tagged(v: Self) -> UserData;

    /// Tags a value.
    fn wrap(self) -> (r: UserData)
        ensures
            r == Self::tagged(self),
    ;

    /// Recovers a value of this type, or hands the tagged value back if it holds
    /// another type.
    fn unwrap(d: UserData) -> (r: core::result::Result<Self, UserData>)
        ensures
            match r {
                Ok(v) => Self::tagged(v) == d,
                Err(e) => e == d && forall|v: Self| Self::tagged(v) != d,
            },
    ;

    /// Borrows the value of this type that `d` holds, if it holds one.
    fn peek(d: &UserData) -> (r: Option<&Self>)
        ensures
            match r {
                Some(v) => Self::tagged(*v) == *d,
                None => forall|v: Self| Self::tagged(v) != *d,
            },
    ;
}

impl Payload for i32 {
    open spec fn tagged(v: Self) -> UserData {
        UserData::I32(v)
    }

    fn wrap(self) -> (r: UserData) {
        UserData::I32(self)
    }

    fn unwrap(d: UserData) -> (r: core::result::Result<Self, UserData>) {
        match d {
            UserData::I32(v) => Ok(v),
            other => Err(other),
        }
    }

    fn peek(d: &UserData) -> (r: Option<&Self>) {
        match d {
            UserData::I32(v) => Some(v),
            _ => None,
        }
    }
}

impl Payload for i64 {
    open spec fn tagged(v: Self) -> UserData {
        UserData::I64(v)
    }

    fn wrap(self) -> (r: UserData) {
        UserData::I64(self)
    }

    fn unwrap(d: UserData) -> (r: core::result::Result<Self, UserData>) {
        match d {
            UserData::I64(v) => Ok(v),
            other => Err(other),
        }
    }

    fn peek(d: &UserData) -> (r: Option<&Self>) {
        match d {
            UserData::I64(v) => Some(v),
            _ => None,
        }
    }
}

impl Payload for u64 {
    open spec fn tagged(v: Self) -> UserData {
        UserData::U64(v)
    }

    fn wrap(self) -> (r: UserData) {
        UserData::U64(self)
    }

    fn unwrap(d: UserData) -> (r: core::result::Result<Self, UserData>) {
        match d {
            UserData::U64(v) => Ok(v),
            other => Err(other),
        }
    }

    fn peek(d: &UserData) -> (r: Option<&Self>) {
        match d {
            UserData::U64(v) => Some(v),
            _ => None,
        }
    }
}

impl Payload for bool {
    open spec fn tagged(v: Self) -> UserData {
        UserData::Bool(v)
    }

    fn wrap(self) -> (r: UserData) {
        UserData::Bool(self)
    }

    fn unwrap(d: UserData) -> (r: core::result::Result<Self, UserData>) {
        match d {
            UserData::Bool(v) => Ok(v),
            other => Err(other),
        }
    }

    fn peek(d: &UserData) -> (r: Option<&Self>) {
        match d {
            UserData::Bool(v) => Some(v),
            _ => None,
        }
    }
}

impl Payload for String {
    open spec fn tagged(v: Self) -> UserData {
        UserData::Text(v)
    }

    fn wrap(self) -> (r: UserData) {
        UserData::Text(self)
    }

    fn unwrap(d: UserData) -> (r: core::result::Result<Self, UserData>) {
        match d {
            UserData::Text(v) => Ok(v),
            other => Err(other),
        }
    }

    fn peek(d: &UserData) -> (r: Option<&Self>) {
        match d {
            UserData::Text(v) => Some(v),
            _ => None,
        }
    }
}

impl Payload for Vec<u8> {
    open spec fn tagged(v: Self) -> UserData {
        UserData::Bytes(v)
    }

    fn wrap(self) -> (r: UserData) {
        UserData::Bytes(self)
    }

    fn unwrap(d: UserData) -> (r: core::result::Result<Self, UserData>) {
        match d {
            UserData::Bytes(v) => Ok(v),
            other => Err(other),
        }
    }

    fn peek(d: &UserData) -> (r: Option<&Self>) {
        match d {
            UserData::Bytes(v) => Some(v),
            _ => None,
        }
    }
}

/// A window: the strong owner of a native window handle, with at most one attached
/// payload, which is dropped when the window is torn down if it was not taken before.
#[derive(Debug)]
pub struct Window {
    hwnd: Strong,
    user_data: Option<UserData>,
}

/// A weak observer of a window's handle, which does not keep the window alive.
#[derive(Debug, Clone, Copy, PartialEq, Eq)]
pub struct WeakWindow {
    hwnd: Weak,
}

/// A window handle borrowed for the length of a callback, which this library never
/// tears down.
#[derive(Debug, Clone, Copy, PartialEq, Eq)]
pub struct DroplessWindow {
    hwnd: usize,
}

/// The error for a window that has no payload attached.
pub open spec fn no_payload_error() -> Error {
    Error::StaticMsg("Window has no user data")
}

/// The calls that tear down a window whose handle is entry `id` of table `t`: the
/// handle is destroyed once its last owner goes.
pub open spec fn window_teardown_calls(id: int, t: Seq<(usize, u64)>) -> Seq<NativeCall> {
    if t[id].1 == 1 {
        seq![NativeCall::DestroyWindow { hwnd: t[id].0 }]
    } else {
        Seq::empty()
    }
}

impl Window {
    /// The table entry of the window handle.
    pub closed spec fn handle(&self) -> Strong {
        self.hwnd
    }

    /// The attached payload, if any.
    pub closed spec fn payload(&self) -> Option<UserData> {
        self.user_data
    }

    /// Whether this window's handle is live in `t`.
    pub open spec fn valid_in(&self, t: HandleTable) -> bool {
        t.holds(&self.handle())
    }

    /// The raw handle of this window in table `t`.
    pub open spec fn raw_in(&self, t: HandleTable) -> usize {
        t@[self.handle().id()].0
    }

    /// The call that creates a window of a class, with a title, styles, bounds and an
    /// optional parent. Fails if the class name or the title holds a null character.
    pub fn creation<WC: WindowClass>(
        window_class: &WC,
        window_name: &str,
        style: WindowStyle,
        extended_style: ExtendedWindowStyle,
        bounds: Rect,
        parent: Option<&Self>,
        handles: &HandleTable,
    ) -> (r: Result<NativeCall>)
        requires
            utf16_of(window_class.class_text()).len() < usize::MAX,
            utf16_of(window_name@).len() < usize::MAX,
            parent matches Some(p) ==> p.valid_in(*handles),
        ensures
            r is Ok <==> !window_class.class_text().contains('\0') && !window_name@.contains('\0'),
            r matches Err(e) ==> e == Error::WideStringNul,
            r matches Ok(c) ==> (c matches NativeCall::CreateWindow {
                class_name,
                window_name: title,
                style: s,
                extended_style: es,
                x,
                y,
                width,
                height,
                parent: p,
            } && class_name.text() == utf16_of(window_class.class_text()) && title.text()
                == utf16_of(window_name@) && s == style.bits && es == extended_style.bits && x
                == bounds.origin.x && y == bounds.origin.y && width == bounds.size.width && height
                == bounds.size.height && p == match parent {
                Some(w) => w.raw_in(*handles),
                None => 0usize,
            }),
    {
        let class_name = WString::encode(window_class.identifier())?;
        let title = WString::encode(window_name)?;
        let parent_hwnd = match parent {
            Some(w) => w.hwnd(handles),
            None => 0,
        };
        Ok(
            NativeCall::CreateWindow {
                class_name,
                window_name: title,
                style: style.bits,
                extended_style: extended_style.bits,
                x: bounds.origin.x,
                y: bounds.origin.y,
                width: bounds.size.width,
                height: bounds.size.height,
                parent: parent_hwnd,
            },
        )
    }

    /// Takes ownership of the window the creation call returned; a null handle is its
    /// failure. The new window has no payload.
    pub fn new(handles: &mut HandleTable, created: usize, last: &LastError) -> (r: Result<Window>)
        requires
            old(handles)@.len() < usize::MAX,
        ensures
            r is Ok <==> created != 0,
            r matches Ok(w) ==> final(handles)@ == old(handles)@.push((created, 1u64))
                && w.handle().id() == old(handles)@.len() && w.valid_in(*final(handles))
                && w.payload() is None,
            r matches Err(e) ==> final(handles)@ == old(handles)@ && reports(
                e,
                Win32Function::CreateWindowExA,
                *last,
            ),
    {
        match handles.acquire(created, Win32Function::CreateWindowExA, last) {
            Ok(hwnd) => Ok(Window { hwnd, user_data: None }),
            Err(e) => Err(e),
        }
    }

    /// The raw handle of this window.
    pub fn hwnd(&self, handles: &HandleTable) -> (r: usize)
        requires
            self.valid_in(*handles),
        ensures
            r == self.raw_in(*handles),
    {
        handles.raw(&self.hwnd)
    }

    /// A weak observer of this window.
    pub fn weak_reference(&self, handles: &HandleTable) -> (r: WeakWindow)
        ensures
            r.handle().id() == self.handle().id(),
    {
        WeakWindow { hwnd: handles.downgrade(&self.hwnd) }
    }

    /// Whether a payload is attached.
    pub fn has_user_data(&self) -> (r: bool)
        ensures
            r == self.payload() is Some,
    {
        self.user_data.is_some()
    }

    /// Attaches a payload, replacing any attached before.
    pub fn set_user_data_box<T: Payload>(&mut self, b: Box<T>)
        ensures
            final(self).payload() == Some(T::tagged(*b)),
            final(self).handle() == old(self).handle(),
    {
        self.user_data = Some((*b).wrap());
    }

    /// Borrows the attached payload as a `T`.
    pub fn user_data<T: Payload>(&self) -> (r: Result<&T>)
        ensures
            self.payload() is None ==> r == Err::<&T, Error>(no_payload_error()),
            self.payload() matches Some(d) ==> match r {
                Ok(v) => T::tagged(*v) == d,
                Err(e) => e == Error::DowncastFailure && forall|v: T| T::tagged(v) != d,
            },
    {
        match &self.user_data {
            None => Err(Error::StaticMsg("Window has no user data")),
            Some(d) => match T::peek(d) {
                Some(v) => Ok(v),
                None => Err(Error::DowncastFailure),
            },
        }
    }

    /// Detaches the payload and returns it as a `T`. The payload is detached whatever
    /// its type; one of another type is dropped and reported as a failed downcast.
    pub fn take_user_data<T: Payload>(&mut self) -> (r: Result<Box<T>>)
        ensures
            final(self).payload() is None,
            final(self).handle() == old(self).handle(),
            old(self).payload() is None ==> r == Err::<Box<T>, Error>(no_payload_error()),
            old(self).payload() matches Some(d) ==> match r {
                Ok(v) => T::tagged(*v) == d,
                Err(e) => e == Error::DowncastFailure && forall|v: T| T::tagged(v) != d,
            },
    {
        match self.user_data.take() {
            None => Err(Error::StaticMsg("Window has no user data")),
            Some(d) => match T::unwrap(d) {
                Ok(v) => Ok(Box::new(v)),
                Err(_) => Err(Error::DowncastFailure),
            },
        }
    }

    /// The call that shows the window in the given way.
    pub fn show(&self, cmd_show: CmdShow, handles: &HandleTable) -> (c: NativeCall)
        requires
            self.valid_in(*handles),
        ensures
            c == (NativeCall::ShowWindow { hwnd: self.raw_in(*handles), cmd: cmd_show_code(cmd_show) }),
    {
        NativeCall::ShowWindow { hwnd: self.hwnd(handles), cmd: cmd_show.code() }
    }

    /// The call that repaints the window's pending region.
    pub fn update(&self, handles: &HandleTable) -> (c: NativeCall)
        requires
            self.valid_in(*handles),
        ensures
            c == (NativeCall::UpdateWindow { hwnd: self.raw_in(*handles) }),
    {
        NativeCall::UpdateWindow { hwnd: self.hwnd(handles) }
    }

    /// The call that enables or disables the window.
    pub fn enable(&self, do_display: bool, handles: &HandleTable) -> (c: NativeCall)
        requires
            self.valid_in(*handles),
        ensures
            c == (NativeCall::EnableWindow {
                hwnd: self.raw_in(*handles),
                enable: if do_display { 1i32 } else { 0i32 },
            }),
    {
        NativeCall::EnableWindow { hwnd: self.hwnd(handles), enable: crate::wboolify(do_display) }
    }

    /// The call that sets the window's title; fails if the text holds a null character.
    pub fn set_text(&self, text: &str, handles: &HandleTable) -> (r: Result<NativeCall>)
        requires
            self.valid_in(*handles),
            utf16_of(text@).len() < usize::MAX,
        ensures
            r is Ok <==> !text@.contains('\0'),
            r matches Ok(c) ==> (c matches NativeCall::SetWindowText { hwnd, text: t } && hwnd
                == self.raw_in(*handles) && t.text() == utf16_of(text@)),
            r matches Err(e) ==> e == Error::WideStringNul,
    {
        let t = WString::encode(text)?;
        Ok(NativeCall::SetWindowText { hwnd: self.hwnd(handles), text: t })
    }

    /// The call that marks a region of the window, or all of it, for repainting.
    pub fn invalidate(&self, invalidated_rect: Option<Rect>, handles: &HandleTable) -> (c: NativeCall)
        requires
            self.valid_in(*handles),
            invalidated_rect matches Some(r) ==> rect_fits(r),
        ensures
            c matches NativeCall::InvalidateRect { hwnd, bounds, erase } && hwnd == self.raw_in(
                *handles,
            ) && erase == 1 && bounds is Some == invalidated_rect is Some && (bounds matches Some(
                b,
            ) ==> b.left == invalidated_rect->Some_0.origin.x && b.top
                == invalidated_rect->Some_0.origin.y && b.right == invalidated_rect->Some_0.origin.x
                + invalidated_rect->Some_0.size.width && b.bottom
                == invalidated_rect->Some_0.origin.y + invalidated_rect->Some_0.size.height),
    {
        let bounds = match invalidated_rect {
            Some(r) => Some(eurect_to_winrect(r)),
            None => None,
        };
        NativeCall::InvalidateRect { hwnd: self.hwnd(handles), bounds, erase: 1 }
    }

    /// The call that converts a screen point into the window's client coordinates.
    pub fn screen_to_client(&self, pt: Point, handles: &HandleTable) -> (c: NativeCall)
        requires
            self.valid_in(*handles),
        ensures
            c == (NativeCall::ScreenToClient { hwnd: self.raw_in(*handles), point: pt }),
    {
        NativeCall::ScreenToClient { hwnd: self.hwnd(handles), point: pt }
    }

    /// The call that reads the window's placement, the first step of a reshape.
    pub fn placement_request(&self, handles: &HandleTable) -> (c: NativeCall)
        requires
            self.valid_in(*handles),
        ensures
            c == (NativeCall::GetWindowPlacement { hwnd: self.raw_in(*handles) }),
    {
        NativeCall::GetWindowPlacement { hwnd: self.hwnd(handles) }
    }

    /// The call that moves the window's normal position to `rect`, keeping the rest of
    /// the placement that was read.
    pub fn reshape(&self, placement: WindowPlacement, rect: Rect, handles: &HandleTable) -> (c:
        NativeCall)
        requires
            self.valid_in(*handles),
            rect_fits(rect),
        ensures
            c matches NativeCall::SetWindowPlacement { hwnd, placement: p } && hwnd == self.raw_in(
                *handles,
            ) && p.flags == placement.flags && p.show_cmd == placement.show_cmd && p.min_position
                == placement.min_position && p.max_position == placement.max_position
                && p.normal_position.left == rect.origin.x && p.normal_position.top == rect.origin.y
                && p.normal_position.right == rect.origin.x + rect.size.width
                && p.normal_position.bottom == rect.origin.y + rect.size.height,
    {
        let mut p = placement;
        p.normal_position = eurect_to_winrect(rect);
        NativeCall::SetWindowPlacement { hwnd: self.hwnd(handles), placement: p }
    }

    /// The call that begins a paint session on this window.
    pub fn paint_request(&self, handles: &HandleTable) -> (c: NativeCall)
        requires
            self.valid_in(*handles),
        ensures
            c == (NativeCall::BeginPaint { hwnd: self.raw_in(*handles) }),
    {
        DeviceContext::paint_request(self.hwnd(handles))
    }

    /// Takes ownership of the context the paint session began with; it observes this
    /// window weakly.
    pub fn begin_paint(&self, hdc: usize, paint: PaintStruct, last: &LastError, handles: &HandleTable) -> (r:
        Result<DeviceContext>)
        ensures
            r is Ok <==> hdc != 0,
            r matches Ok(dc) ==> dc.handle() == hdc && (dc.kind_spec() matches crate::dc::DeviceContextKind::Painter {
                owner,
                paint: p,
            } && owner.id() == self.handle().id() && p == paint),
            r matches Err(e) ==> reports(e, Win32Function::BeginPaint, *last),
    {
        DeviceContext::begin_paint(handles.downgrade(&self.hwnd), hdc, paint, last)
    }

    /// Tears this window down: the payload, if any, is dropped first, then the handle is
    /// destroyed once its last owner goes. The calls are returned in the order they are
    /// to be made.
    pub fn release(self, handles: &mut HandleTable) -> (r: Vec<NativeCall>)
        requires
            self.valid_in(*old(handles)),
        ensures
            final(handles)@ == after_release(old(handles)@, self.handle().id()),
            r@ == window_teardown_calls(self.handle().id(), old(handles)@),
    {
        let Window { hwnd, user_data } = self;
        let _dropped = user_data;
        let mut calls: Vec<NativeCall> = Vec::new();
        match handles.release(hwnd) {
            Some(raw) => calls.push(NativeCall::DestroyWindow { hwnd: raw }),
            None => {},
        }
        assert(calls@ =~= window_teardown_calls(self.handle().id(), old(handles)@));
        calls
    }
}

impl WeakWindow {
    /// The table entry this observer refers to.
    pub closed spec fn handle(&self) -> Weak {
        self.hwnd
    }

    /// The raw handle of the observed window, while it is alive.
    pub fn hwnd(&self, handles: &HandleTable) -> (r: Result<usize>)
        ensures
            r is Ok <==> live(handles@, self.handle().id()),
            r matches Ok(h) ==> h == handles@[self.handle().id()].0,
            r matches Err(e) ==> e == Error::ExpiredWeakPtr,
    {
        handles.raw_of_weak(&self.hwnd)
    }

    /// Another observer of the same window.
    pub fn weak_reference(&self) -> (r: WeakWindow)
        ensures
            r == *self,
    {
        *self
    }
}

impl DroplessWindow {
    /// Wraps a window handle that is owned elsewhere.
    pub fn new(hwnd: usize) -> (r: DroplessWindow)
        ensures
            r.raw() == hwnd,
    {
        DroplessWindow { hwnd }
    }

    /// The wrapped handle.
    pub closed spec fn raw(&self) -> usize {
        self.hwnd
    }

    /// The wrapped handle.
    pub fn hwnd(&self) -> (r: usize)
        ensures
            r == self.raw(),
    {
        self.hwnd
    }
}

/// A payload attached as an `i32` is taken back as that same `i32`, and no `String`
/// is ever taken from it, so asking for one is a failed downcast.
pub proof fn law_payload_round_trip(v: i32)
    ensures
        forall|w: i32| #[trigger] <i32 as Payload>::tagged(w) == <i32 as Payload>::tagged(v) ==> w == v,
        forall|s: String| #[trigger] <String as Payload>::tagged(s) != <i32 as Payload>::tagged(v),
{
}

} // verus!
