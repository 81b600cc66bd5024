use vstd::prelude::*;
use vstd::slice::slice_subrange;

use crate::error::{Error, Result};

verus! {

/// The UTF-16 encoding of one character: one code unit below U+10000, else a
/// surrogate pair.
pub open spec fn utf16_of_char(c: char) -> Seq<u16> {
    let v = c as int;
    if v < 0x10000 {
        seq![v as u16]
    } else {
        seq![(0xD800 + (v - 0x10000) / 0x400) as u16, (0xDC00 + (v - 0x10000) % 0x400) as u16]
    }
}

/// The UTF-16 encoding of a character sequence.
pub open spec fn utf16_of(s: Seq<char>) -> Seq<u16>
    decreases s.len(),
{
    if s.len() == 0 {
        Seq::empty()
    } else {
        utf16_of_char(s[0]) + utf16_of(s.drop_first())
    }
}

/// Whether some character sequence encodes to `units` in UTF-16.
pub open spec fn is_utf16(units: Seq<u16>) -> bool {
    exists|t: Seq<char>| utf16_of(t) == units
}

/// A buffer that ends in exactly one null code unit and holds no other.
pub open spec fn is_terminated(units: Seq<u16>) -> bool {
    &&& units.len() >= 1
    &&& units.last() == 0u16
    &&& forall|i: int| 0 <= i < units.len() - 1 ==> units[i] != 0u16
}

proof fn lemma_char_units(c: char)
    ensures
        1 <= utf16_of_char(c).len() <= 2,
        (c as int) < 0x10000 ==> utf16_of_char(c)[0] as int == c as int,
        (c as int) < 0x10000 ==> !(0xD800 <= c as int <= 0xDFFF),
        (c as int) >= 0x10000 ==> 0xD800 <= utf16_of_char(c)[0] <= 0xDBFF,
        (c as int) >= 0x10000 ==> c as int <= 0x10FFFF,
{
}

proof fn lemma_utf16_len(s: Seq<char>)
    ensures
        s.len() > 0 ==> utf16_of(s).len() >= 1,
        s.len() == 0 ==> utf16_of(s).len() == 0,
{
    if s.len() > 0 {
        lemma_char_units(s[0]);
    }
}

/// UTF-16 encoding is injective: equal code units come from equal text.
pub proof fn lemma_utf16_injective(a: Seq<char>, b: Seq<char>)
    requires
        utf16_of(a) == utf16_of(b),
    ensures
        a == b,
    decreases a.len(),
{
    lemma_utf16_len(a);
    lemma_utf16_len(b);
    if a.len() > 0 {
        let (x, y) = (a[0], b[0]);
        lemma_char_units(x);
        lemma_char_units(y);
        let ex = utf16_of_char(x);
        let ey = utf16_of_char(y);
        assert(utf16_of(a)[0] == ex[0]);
        assert(utf16_of(b)[0] == ey[0]);
        if (x as int) >= 0x10000 {
            assert(utf16_of(a)[1] == ex[1]);
            assert(utf16_of(b)[1] == ey[1]);
            let vx = x as int - 0x10000;
            let vy = y as int - 0x10000;
            assert(vx == (vx / 0x400) * 0x400 + vx % 0x400);
            assert(vy == (vy / 0x400) * 0x400 + vy % 0x400);
        }
        assert(x == y);
        assert(utf16_of(a.drop_first()) =~= utf16_of(a).subrange(ex.len() as int, utf16_of(a).len() as int));
        assert(utf16_of(b.drop_first()) =~= utf16_of(b).subrange(ey.len() as int, utf16_of(b).len() as int));
        lemma_utf16_injective(a.drop_first(), b.drop_first());
        assert(a =~= seq![x] + a.drop_first());
        assert(b =~= seq![y] + b.drop_first());
    }
}

/// The encoding holds a null code unit exactly where the text holds a null character.
pub proof fn lemma_utf16_nul(s: Seq<char>)
    ensures
        utf16_of(s).contains(0u16) <==> s.contains('\0'),
    decreases s.len(),
{
    if s.len() > 0 {
        lemma_char_units(s[0]);
        lemma_utf16_nul(s.drop_first());
        let e = utf16_of_char(s[0]);
        let t = utf16_of(s.drop_first());
        assert(utf16_of(s) == e + t);
        if s.contains('\0') {
            let i = choose|i: int| 0 <= i < s.len() && s[i] == '\0';
            if i == 0 {
                assert(utf16_of(s)[0] == 0u16);
            } else {
                assert(s.drop_first()[i - 1] == '\0');
                let j = choose|j: int| 0 <= j < t.len() && t[j] == 0u16;
                assert(utf16_of(s)[e.len() + j] == 0u16);
            }
        }
        if utf16_of(s).contains(0u16) {
            let j = choose|j: int| 0 <= j < utf16_of(s).len() && utf16_of(s)[j] == 0u16;
            if j < e.len() {
                assert(s[0] == '\0');
            } else {
                assert(t[j - e.len()] == 0u16);
                let i = choose|i: int| 0 <= i < s.len() - 1 && s.drop_first()[i] == '\0';
                assert(s[i + 1] == '\0');
            }
        }
    }
}

/// Text without null characters survives a round trip: its encoding holds no null,
/// so a wide string can be made of it; the encoding is valid UTF-16, so strict decoding
/// succeeds; and any text that encodes to the same units, which is what both the strict
/// and the lossy decoder return, is the text itself.
pub proof fn law_utf16_round_trip(s: Seq<char>)
    requires
        !s.contains('\0'),
    ensures
        !utf16_of(s).contains(0u16),
        is_utf16(utf16_of(s)),
        forall|t: Seq<char>| utf16_of(t) == utf16_of(s) ==> t == s,
{
    lemma_utf16_nul(s);
    assert forall|t: Seq<char>| utf16_of(t) == utf16_of(s) implies t == s by {
        lemma_utf16_injective(t, s);
    }
}

/// Relies on `str::encode_utf16`: the code units of the text's UTF-16 encoding.
#[verifier::external_body]
fn encode_utf16(s: &str) -> (r: Vec<u16>)
    ensures
        r@ == utf16_of(s@),
{
    s.encode_utf16().collect()
}

/// Relies on `String::from_utf16`: it succeeds exactly on valid UTF-16, and the
/// characters it returns encode back to the given units.
#[verifier::external_body]
fn decode_utf16(units: &[u16]) -> (r: Option<String>)
    ensures
        match r {
            Some(s) => utf16_of(s@) == units@,
            None => !is_utf16(units@),
        },
{
    String::from_utf16(units).ok()
}

/// Relies on `String::from_utf16_lossy`: on valid UTF-16 it decodes exactly, as
/// `String::from_utf16` does.
#[verifier::external_body]
fn decode_utf16_lossy(units: &[u16]) -> (r: String)
    ensures
        is_utf16(units@) ==> utf16_of(r@) == units@,
{
    String::from_utf16_lossy(units)
}

/// An owned, null-terminated wide string.
#[derive(PartialEq, Eq, PartialOrd, Ord, Hash, Debug)]
pub struct WString {
    inner: Vec<u16>,
}

impl Clone for WString {
    fn clone(&self) -> (r: Self)
        ensures
            r@ == self@,
    {
        proof {
            use_type_invariant(self);
        }
        WString { inner: vstd::slice::slice_to_vec(self.inner.as_slice()) }
    }
}

impl View for WString {
    type V = Seq<u16>;

    /// The code units, terminator included.
    closed spec fn view(&self) -> Seq<u16> {
        self.inner@
    }
}

impl WString {
    #[verifier::type_invariant]
    spec fn terminated(&self) -> bool {
        is_terminated(self.inner@)
    }

    /// The code units before the terminator.
    pub open spec fn text(&self) -> Seq<u16> {
        self@.drop_last()
    }

    /// Appends the terminator to code units that hold no null.
    pub fn from_vec_unchecked(v: Vec<u16>) -> (r: Self)
        requires
            !v@.contains(0u16),
            v@.len() < usize::MAX,
        ensures
            r@ == v@.push(0u16),
    {
        let ghost before = v@;
        let mut v = v;
        v.push(0);
        assert(is_terminated(v@)) by {
            assert forall|i: int| 0 <= i < v@.len() - 1 implies v@[i] != 0u16 by {
                if v@[i] == 0u16 {
                    assert(before[i] == 0u16);
                }
            }
        }
        WString { inner: v }
    }

    /// Copies code units into a new wide string; fails if any of them is null.
    pub fn new(v: Vec<u16>) -> (r: Result<Self>)
        requires
            v@.len() < usize::MAX,
        ensures
            r is Ok <==> !v@.contains(0u16),
            r matches Ok(w) ==> w@ == v@.push(0u16),
            r matches Err(e) ==> e == Error::WideStringNul,
    {
        let mut i: usize = v.len();
        while i > 0
            invariant
                i <= v@.len(),
                forall|j: int| i <= j < v@.len() ==> v@[j] != 0u16,
            decreases i,
        {
            i = i - 1;
            if v[i] == 0 {
                return Err(Error::WideStringNul);
            }
        }
        Ok(Self::from_vec_unchecked(v))
    }

    /// Encodes text in UTF-16 and terminates it; fails if the text holds a null character.
    pub fn encode(s: &str) -> (r: Result<Self>)
        requires
            utf16_of(s@).len() < usize::MAX,
        ensures
            r is Ok <==> !s@.contains('\0'),
            r matches Ok(w) ==> w.text() == utf16_of(s@),
            r matches Err(e) ==> e == Error::WideStringNul,
    {
        proof {
            lemma_utf16_nul(s@);
        }
        let r = Self::new(encode_utf16(s));
        proof {
            if r is Ok {
                assert(r->Ok_0.text() =~= utf16_of(s@));
            }
        }
        r
    }

    /// A wide string of `len` spaces, ready to be written into.
    pub fn buffer(len: usize) -> (r: Self)
        requires
            len < usize::MAX,
        ensures
            r.text() == Seq::new(len as nat, |_i: int| 32u16),
    {
        let mut v: Vec<u16> = Vec::new();
        while v.len() < len
            invariant
                v@.len() <= len,
                v@ == Seq::new(v@.len(), |_i: int| 32u16),
            decreases len - v@.len(),
        {
            v.push(32);
        }
        let r = Self::from_vec_unchecked(v);
        assert(r.text() =~= v@);
        r
    }

    /// The code units, terminator included.
    pub fn into_bytes(self) -> (r: Vec<u16>)
        ensures
            r@ == self@,
    {
        self.inner
    }

    /// The code units without the terminator.
    pub fn into_bytes_no_nul(self) -> (r: Vec<u16>)
        ensures
            r@ == self.text(),
    {
        proof {
            use_type_invariant(&self);
        }
        let mut v = self.inner;
        v.pop();
        v
    }

    /// The code units, terminator included.
    pub fn as_bytes(&self) -> (r: &[u16])
        ensures
            r@ == self@,
    {
        self.inner.as_slice()
    }

    /// The code units without the terminator.
    pub fn as_bytes_no_nul(&self) -> (r: &[u16])
        ensures
            r@ == self.text(),
    {
        proof {
            use_type_invariant(self);
        }
        let r = slice_subrange(self.inner.as_slice(), 0, self.inner.len() - 1);
        assert(r@ =~= self.text());
        r
    }

    /// A borrowed view of this string.
    pub fn as_wstr(&self) -> (r: WStr<'_>)
        ensures
            r@ == self@,
    {
        proof {
            use_type_invariant(self);
        }
        WStr { inner: self.inner.as_slice() }
    }

    /// Decodes the text strictly.
    pub fn into_string(&self) -> (r: Result<String>)
        ensures
            r is Ok <==> is_utf16(self.text()),
            r matches Ok(s) ==> utf16_of(s@) == self.text(),
            r matches Err(e) ==> e == Error::Utf16DecodeError,
    {
        self.as_wstr().into_string()
    }

    /// Decodes the text, replacing invalid sequences.
    pub fn into_string_lossy(&self) -> (r: String)
        ensures
            is_utf16(self.text()) ==> utf16_of(r@) == self.text(),
    {
        self.as_wstr().into_string_lossy()
    }
}

impl Default for WString {
    /// The empty wide string: the terminator alone.
    fn default() -> (r: Self)
        ensures
            r@ == seq![0u16],
    {
        let r = Self::from_vec_unchecked(Vec::new());
        assert(r@ =~= seq![0u16]);
        r
    }
}

/// A borrowed, null-terminated wide string.
#[derive(Clone, Copy, Debug)]
pub struct WStr<'a> {
    inner: &'a [u16],
}

impl<'a> View for WStr<'a> {
    type V = Seq<u16>;

    /// The code units, terminator included.
    closed spec fn view(&self) -> Seq<u16> {
        self.inner@
    }
}

impl<'a> WStr<'a> {
    #[verifier::type_invariant]
    spec fn terminated(&self) -> bool {
        is_terminated(self.inner@)
    }

    /// The code units before the terminator.
    pub open spec fn text(&self) -> Seq<u16> {
        self@.drop_last()
    }

    /// Borrows code units that are already terminated.
    pub fn from_bytes_unchecked(bytes: &'a [u16]) -> (r: WStr<'a>)
        requires
            is_terminated(bytes@),
        ensures
            r@ == bytes@,
    {
        WStr { inner: bytes }
    }

    /// Borrows code units as a wide string; they must end in a null and hold no other.
    pub fn from_bytes(bytes: &'a [u16]) -> (r: Result<WStr<'a>>)
        ensures
            r is Ok <==> is_terminated(bytes@),
            r matches Ok(w) ==> w@ == bytes@,
            r matches Err(e) ==> e == Error::WideStringNul,
    {
        let n = bytes.len();
        if n == 0 || bytes[n - 1] != 0 {
            return Err(Error::WideStringNul);
        }
        let mut i: usize = n - 1;
        while i > 0
            invariant
                i <= n - 1,
                n == bytes@.len(),
                forall|j: int| i <= j < n - 1 ==> bytes@[j] != 0u16,
            decreases i,
        {
            i = i - 1;
            if bytes[i] == 0 {
                return Err(Error::WideStringNul);
            }
        }
        Ok(WStr { inner: bytes })
    }

    /// The code units, terminator included.
    pub fn to_bytes(&self) -> (r: &'a [u16])
        ensures
            r@ == self@,
    {
        self.inner
    }

    /// The code units without the terminator.
    pub fn to_bytes_no_nul(&self) -> (r: &'a [u16])
        ensures
            r@ == self.text(),
    {
        proof {
            use_type_invariant(self);
        }
        let r = slice_subrange(self.inner, 0, self.inner.len() - 1);
        assert(r@ =~= self.text());
        r
    }

    /// Decodes the text, replacing invalid sequences.
    pub fn into_string_lossy(&self) -> (r: String)
        ensures
            is_utf16(self.text()) ==> utf16_of(r@) == self.text(),
    {
        decode_utf16_lossy(self.to_bytes_no_nul())
    }

    /// Decodes the text strictly.
    pub fn into_string(&self) -> (r: Result<String>)
        ensures
            r is Ok <==> is_utf16(self.text()),
            r matches Ok(s) ==> utf16_of(s@) == self.text(),
            r matches Err(e) ==> e == Error::Utf16DecodeError,
    {
        match decode_utf16(self.to_bytes_no_nul()) {
            Some(s) => Ok(s),
            None => Err(Error::Utf16DecodeError),
        }
    }

    /// Copies this string into an owned one.
    pub fn to_owned(&self) -> (r: WString)
        ensures
            r@ == self@,
    {
        proof {
            use_type_invariant(self);
        }
        WString { inner: vstd::slice::slice_to_vec(self.inner) }
    }
}

} // verus!
