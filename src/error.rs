use vstd::prelude::*;

verus! {

/// The native calls whose failure this library reports.
#[derive(Debug, Clone, Copy, PartialEq, Eq, Hash)]
pub enum Win32Function {
    MultiByteToWideChar,
    WideCharToMultiByte,
    GetModuleHandleExA,
    UnregisterClassA,
    RegisterClassExA,
    GetClassInfoExA,
    CreateWindowExA,
    GetWindowPlacement,
    SetWindowPlacement,
    SetWindowTextA,
    InvalidateRect,
    MoveToEx,
    LineTo,
    SetDCBrushColor,
    SetDCPenColor,
    Arc,
    SetArcDirection,
    Rectangle,
    Ellipse,
    ShowWindow,
    UpdateWindow,
    CreateCompatibleBitmap,
    BeginPaint,
    CreateCompatibleDC,
    CreateBitmap,
    GetObjectA,
    BitBlt,
    InitCommonControlsEx,
    GetMessageA,
    SetWindowLongPtrA,
    GetWindowLongPtrA,
    ScreenToClient,
    GetCursorPos,
    CreatePen,
    CreateBrush,
    Other(&'static str),
}

/// The name of the native call an operation tag stands for.
pub open spec fn function_name(f: Win32Function) -> Seq<char> {
    match f {
        Win32Function::MultiByteToWideChar => "MultiByteToWideChar"@,
        Win32Function::WideCharToMultiByte => "WideCharToMultiByte"@,
        Win32Function::GetModuleHandleExA => "GetModuleHandleExA"@,
        Win32Function::UnregisterClassA => "UnregisterClassA"@,
        Win32Function::RegisterClassExA => "RegisterClassExA"@,
        Win32Function::GetClassInfoExA => "GetClassInfoExA"@,
        Win32Function::CreateWindowExA => "CreateWindowExA"@,
        Win32Function::GetWindowPlacement => "GetWindowPlacement"@,
        Win32Function::SetWindowPlacement => "SetWindowPlacement"@,
        Win32Function::SetWindowTextA => "SetWindowTextA"@,
        Win32Function::InvalidateRect => "InvalidateRect"@,
        Win32Function::MoveToEx => "MoveToEx"@,
        Win32Function::LineTo => "LineTo"@,
        Win32Function::SetDCBrushColor => "SetDCBrushColor"@,
        Win32Function::SetDCPenColor => "SetDCPenColor"@,
        Win32Function::Arc => "Arc"@,
        Win32Function::SetArcDirection => "SetArcDirection"@,
        Win32Function::Rectangle => "Rectangle"@,
        Win32Function::Ellipse => "Ellipse"@,
        Win32Function::ShowWindow => "ShowWindow"@,
        Win32Function::UpdateWindow => "UpdateWindow"@,
        Win32Function::CreateCompatibleBitmap => "CreateCompatibleBitmap"@,
        Win32Function::BeginPaint => "BeginPaint"@,
        Win32Function::CreateCompatibleDC => "CreateCompatibleDC"@,
        Win32Function::CreateBitmap => "CreateBitmap"@,
        Win32Function::GetObjectA => "GetObjectA"@,
        Win32Function::BitBlt => "BitBlt"@,
        Win32Function::InitCommonControlsEx => "InitCommonControlsEx"@,
        Win32Function::GetMessageA => "GetMessageA"@,
        Win32Function::SetWindowLongPtrA => "SetWindowLongPtrA"@,
        Win32Function::GetWindowLongPtrA => "GetWindowLongPtrA"@,
        Win32Function::ScreenToClient => "ScreenToClient"@,
        Win32Function::GetCursorPos => "GetCursorPos"@,
        Win32Function::CreatePen => "CreatePen"@,
        Win32Function::CreateBrush => "CreateBrush"@,
        Win32Function::Other(s) => s@,
    }
}

impl Win32Function {
    /// The name of the native call this tag stands for.
    pub fn name(&self) -> (r: &'static str)
        ensures
            r@ == function_name(*self),
    {
        match self {
            Win32Function::MultiByteToWideChar => "MultiByteToWideChar",
            Win32Function::WideCharToMultiByte => "WideCharToMultiByte",
            Win32Function::GetModuleHandleExA => "GetModuleHandleExA",
            Win32Function::UnregisterClassA => "UnregisterClassA",
            Win32Function::RegisterClassExA => "RegisterClassExA",
            Win32Function::GetClassInfoExA => "GetClassInfoExA",
            Win32Function::CreateWindowExA => "CreateWindowExA",
            Win32Function::GetWindowPlacement => "GetWindowPlacement",
            Win32Function::SetWindowPlacement => "SetWindowPlacement",
            Win32Function::SetWindowTextA => "SetWindowTextA",
            Win32Function::InvalidateRect => "InvalidateRect",
            Win32Function::MoveToEx => "MoveToEx",
            Win32Function::LineTo => "LineTo",
            Win32Function::SetDCBrushColor => "SetDCBrushColor",
            Win32Function::SetDCPenColor => "SetDCPenColor",
            Win32Function::Arc => "Arc",
            Win32Function::SetArcDirection => "SetArcDirection",
            Win32Function::Rectangle => "Rectangle",
            Win32Function::Ellipse => "Ellipse",
            Win32Function::ShowWindow => "ShowWindow",
            Win32Function::UpdateWindow => "UpdateWindow",
            Win32Function::CreateCompatibleBitmap => "CreateCompatibleBitmap",
            Win32Function::BeginPaint => "BeginPaint",
            Win32Function::CreateCompatibleDC => "CreateCompatibleDC",
            Win32Function::CreateBitmap => "CreateBitmap",
            Win32Function::GetObjectA => "GetObjectA",
            Win32Function::BitBlt => "BitBlt",
            Win32Function::InitCommonControlsEx => "InitCommonControlsEx",
            Win32Function::GetMessageA => "GetMessageA",
            Win32Function::SetWindowLongPtrA => "SetWindowLongPtrA",
            Win32Function::GetWindowLongPtrA => "GetWindowLongPtrA",
            Win32Function::ScreenToClient => "ScreenToClient",
            Win32Function::GetCursorPos => "GetCursorPos",
            Win32Function::CreatePen => "CreatePen",
            Win32Function::CreateBrush => "CreateBrush",
            Win32Function::Other(s) => s,
        }
    }
}

/// Every failure this library reports.
#[derive(Debug, Clone, PartialEq, Eq)]
pub enum Error {
    /// A path that the types rule out was taken.
    Unreachable,
    /// A failure described by a fixed message.
    StaticMsg(&'static str),
    /// A native call failed.
    Win32 { code: u32, message: String, function: Win32Function },
    /// Code units that are not valid UTF-16 were decoded strictly.
    Utf16DecodeError,
    /// A wide string held a null code unit where none may stand, or lacked its terminator.
    WideStringNul,
    /// A weak handle was used after its last strong owner was released.
    ExpiredWeakPtr,
    /// A drawable resource was attached to a context that cannot hold one.
    NoGDIStorage,
    /// A drawable resource was attached to a context that already holds one.
    AlreadyHadGDIStorage,
    /// The payload attached to a window is not of the requested type.
    DowncastFailure,
}

pub type Result<T> = core::result::Result<T, Error>;

/// What the platform reported right after a failed call: its error code, and the
/// bytes its message formatter produced for that code (empty when formatting failed).
#[derive(Debug, Clone, PartialEq, Eq)]
pub struct LastError {
    pub code: u32,
    pub message: Vec<u8>,
}

/// The message used when the platform has none to give.
pub open spec fn no_message() -> Seq<char> {
    "No error message detected"@
}

/// The UTF-8 encoding of one character.
pub open spec fn utf8_of_char(c: char) -> Seq<u8> {
    let v = c as int;
    if v < 0x80 {
        seq![v as u8]
    } else if v < 0x800 {
        seq![(0xC0 + v / 64) as u8, (0x80 + v % 64) as u8]
    } else if v < 0x10000 {
        seq![(0xE0 + v / 4096) as u8, (0x80 + (v / 64) % 64) as u8, (0x80 + v % 64) as u8]
    } else {
        seq![
            (0xF0 + v / 262144) as u8,
            (0x80 + (v / 4096) % 64) as u8,
            (0x80 + (v / 64) % 64) as u8,
            (0x80 + v % 64) as u8,
        ]
    }
}

/// The UTF-8 encoding of a character sequence.
pub open spec fn utf8_of(s: Seq<char>) -> Seq<u8>
    decreases s.len(),
{
    if s.len() == 0 {
        Seq::empty()
    } else {
        utf8_of_char(s[0]) + utf8_of(s.drop_first())
    }
}

/// Whether some character sequence encodes to `bytes` in UTF-8.
pub open spec fn is_utf8(bytes: Seq<u8>) -> bool {
    exists|t: Seq<char>| utf8_of(t) == bytes
}

/// Relies on `String::from_utf8`: it succeeds exactly on well-formed UTF-8, and the
/// characters it returns encode back to the given bytes.
#[verifier::external_body]
fn decode_utf8(bytes: &[u8]) -> (r: Option<String>)
    ensures
        match r {
            Some(s) => utf8_of(s@) == bytes@,
            None => !is_utf8(bytes@),
        },
{
    String::from_utf8(bytes.to_vec()).ok()
}

/// Whether `e` is the error that `win32_error` builds for `function` from `last`.
pub open spec fn reports(e: Error, function: Win32Function, last: LastError) -> bool {
    e matches Error::Win32 { code, message, function: f } && code == last.code && f == function
        && (if last.message@.len() > 0 && is_utf8(last.message@) {
        utf8_of(message@) == last.message@
    } else {
        message@ == no_message()
    })
}

/// Builds the error for a failed native call from what the platform reported.
/// The formatted message is used when there is one and it is valid UTF-8; otherwise
/// the fixed fallback message stands in for it, and no second error is raised.
pub fn win32_error(function: Win32Function, last: &LastError) -> (r: Error)
    ensures
        reports(r, function, *last),
{
    let text = if last.message.len() == 0 {
        None
    } else {
        decode_utf8(last.message.as_slice())
    };
    let message = match text {
        Some(s) => s,
        None => String::from_str("No error message detected"),
    };
    Error::Win32 { code: last.code, message, function }
}

} // verus!
