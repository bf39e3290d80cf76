//! Small value types shared across the crate, and the wide / narrow string
//! buffers handed to the OS layer.

use vstd::prelude::*;

use vstd::string::StrSliceExecFns;
use vstd::string::StringSliceAdditionalSpecFns;

verus! {

/// The UTF-16 encoding of one character: a single code unit below the
/// supplementary planes, a surrogate pair above them.
pub open spec fn utf16_char(c: char) -> Seq<u16> {
    if (c as int) < 0x10000 {
        seq![c as u16]
    } else {
        seq![
            (0xD800 + ((c as int - 0x10000) / 0x400)) as u16,
            (0xDC00 + ((c as int - 0x10000) % 0x400)) as u16,
        ]
    }
}

/// The UTF-16 encoding of a character sequence: each character's code
/// units, in order.
pub open spec fn utf16_of(s: Seq<char>) -> Seq<u16>
    decreases s.len(),
{
    if s.len() == 0 {
        Seq::empty()
    } else {
        utf16_char(s[0]) + utf16_of(s.drop_first())
    }
}

/// Appending one character appends its code units.
pub proof fn lemma_utf16_of_push(s: Seq<char>, c: char)
    ensures
        utf16_of(s.push(c)) == utf16_of(s) + utf16_char(c),
    decreases s.len(),
{
    if s.len() == 0 {
        assert(s.push(c).drop_first() =~= Seq::<char>::empty());
        assert(utf16_char(c) + utf16_of(Seq::<char>::empty()) =~= utf16_char(c));
        assert(utf16_of(s) + utf16_char(c) =~= utf16_char(c));
    } else {
        lemma_utf16_of_push(s.drop_first(), c);
        assert(s.push(c).drop_first() =~= s.drop_first().push(c));
        assert(utf16_char(s[0]) + (utf16_of(s.drop_first()) + utf16_char(c)) =~= (utf16_char(s[0])
            + utf16_of(s.drop_first())) + utf16_char(c));
    }
}

/// Encodes a string slice as UTF-16 code units, without a terminator.
pub fn utf16_units(s: &str) -> (v: Vec<u16>)
    ensures
        v@ == utf16_of(s@),
{
    let n = s.unicode_len();
    let mut v: Vec<u16> = Vec::new();
    let mut i: usize = 0;
    while i < n
        invariant
            n == s@.len(),
            i <= n,
            v@ == utf16_of(s@.take(i as int)),
        decreases n - i,
    {
        let c = s.get_char(i);
        proof {
            assert(s@.take(i as int).push(c) =~= s@.take(i + 1));
            lemma_utf16_of_push(s@.take(i as int), c);
        }
        let cp: u32 = c as u32;
        if cp < 0x10000 {
            v.push(cp as u16);
            assert(v@ =~= utf16_of(s@.take(i as int)) + utf16_char(c));
        } else {
            let off: u32 = cp - 0x10000;
            assert(off as int / 0x400 <= 0xFFFFFint / 0x400) by {
                vstd::arithmetic::div_mod::lemma_div_is_ordered(off as int, 0xFFFFF, 0x400);
            }
            let hi: u32 = 0xD800 + off / 0x400;
            let lo: u32 = 0xDC00 + off % 0x400;
            v.push(hi as u16);
            v.push(lo as u16);
            assert(v@ =~= utf16_of(s@.take(i as int)) + utf16_char(c));
        }
        i = i + 1;
    }
    proof {
        assert(s@.take(n as int) =~= s@);
    }
    v
}

/// A byte sequence reinterpreted as signed bytes, one for one.
pub open spec fn signed_bytes(bs: Seq<u8>) -> Seq<i8> {
    bs.map_values(|b: u8| b as i8)
}

/// Encodes a string slice as UTF-8 bytes reinterpreted as signed bytes,
/// without a terminator.
pub fn signed_byte_units(s: &str) -> (v: Vec<i8>)
    ensures
        v@ == signed_bytes(s.spec_bytes()),
{
    let bytes = s.as_bytes();
    let n = bytes.len();
    let mut v: Vec<i8> = Vec::new();
    let mut i: usize = 0;
    while i < n
        invariant
            n == bytes@.len(),
            bytes@ == s.spec_bytes(),
            i <= n,
            v@.len() == i,
            forall|j: int| 0 <= j < i ==> v@[j] == bytes@[j] as i8,
        decreases n - i,
    {
        let b = bytes[i];
        v.push(b as i8);
        i = i + 1;
    }
    assert(v@ =~= signed_bytes(s.spec_bytes()));
    v
}

/// A wide (UTF-16) string buffer, as the OS layer's wide-character entry
/// points expect. The buffer holds the code units of the content; the NUL
/// terminator is appended when the buffer is handed out.
#[derive(Clone, Debug, PartialEq, Eq)]
pub struct Wstring {
    /// The content's UTF-16 code units, without a terminator.
    pub data: Vec<u16>,
}

impl View for Wstring {
    type V = Seq<u16>;

    /// The content's code units.
    open spec fn view(&self) -> Seq<u16> {
        self.data@
    }
}

impl Wstring {
    /// Creates a new empty wide string.
    pub fn new() -> (w: Self)
        ensures
            w@ == Seq::<u16>::empty(),
    {
        Wstring { data: Vec::new() }
    }

    /// The length of the wide string in code units, excluding the
    /// terminator that [`Self::units`] appends.
    pub fn len(&self) -> (n: usize)
        ensures
            n == self@.len(),
    {
        self.data.len()
    }

    /// Creates a wide string holding the UTF-16 encoding of `data`.
    pub fn from(data: &str) -> (w: Self)
        ensures
            w@ == utf16_of(data@),
    {
        Wstring { data: utf16_units(data) }
    }

    /// Replaces the content with the UTF-16 encoding of `data`.
    pub fn set(&mut self, data: &str)
        ensures
            final(self)@ == utf16_of(data@),
    {
        self.data = utf16_units(data);
    }

    /// Appends the UTF-16 encoding of `data` to the content.
    pub fn push(&mut self, data: &str)
        ensures
            final(self)@ == old(self)@ + utf16_of(data@),
    {
        let mut tail = utf16_units(data);
        self.data.append(&mut tail);
    }

    /// The NUL-terminated buffer to hand to a wide-character OS entry
    /// point.
    pub fn units(&self) -> (v: Vec<u16>)
        ensures
            v@ == self@.push(0u16),
    {
        let mut v = self.data.clone();
        assert(v@ =~= self.data@);
        v.push(0);
        v
    }
}

impl Default for Wstring {
    /// An empty wide string.
    fn default() -> (w: Self)
        ensures
            w@ == Seq::<u16>::empty(),
    {
        Wstring::new()
    }
}

/// A narrow string buffer of signed bytes, as the OS layer's narrow
/// entry points expect. The buffer holds the UTF-8 bytes of the content,
/// reinterpreted as signed; the NUL terminator is appended when the buffer
/// is handed out.
#[derive(Clone, Debug, PartialEq, Eq)]
pub struct Astring {
    /// The content's bytes, without a terminator.
    pub data: Vec<i8>,
}

impl View for Astring {
    type V = Seq<i8>;

    /// The content's signed bytes.
    open spec fn view(&self) -> Seq<i8> {
        self.data@
    }
}

impl Astring {
    /// Creates a new empty narrow string.
    pub fn new() -> (a: Self)
        ensures
            a@ == Seq::<i8>::empty(),
    {
        Astring { data: Vec::new() }
    }

    /// The length of the narrow string in bytes, excluding the terminator
    /// that [`Self::units`] appends.
    pub fn len(&self) -> (n: usize)
        ensures
            n == self@.len(),
    {
        self.data.len()
    }

    /// Creates a narrow string holding the UTF-8 bytes of `data`,
    /// reinterpreted as signed.
    pub fn from(data: &str) -> (a: Self)
        ensures
            a@ == signed_bytes(data.spec_bytes()),
    {
        Astring { data: signed_byte_units(data) }
    }

    /// Replaces the content with the bytes of `data`.
    pub fn set(&mut self, data: &str)
        ensures
            final(self)@ == signed_bytes(data.spec_bytes()),
    {
        self.data = signed_byte_units(data);
    }

    /// Appends the bytes of `data` to the content.
    pub fn push(&mut self, data: &str)
        ensures
            final(self)@ == old(self)@ + signed_bytes(data.spec_bytes()),
    {
        let mut tail = signed_byte_units(data);
        self.data.append(&mut tail);
    }

    /// The NUL-terminated buffer to hand to a narrow OS entry point.
    pub fn units(&self) -> (v: Vec<i8>)
        ensures
            v@ == self@.push(0i8),
    {
        let mut v = self.data.clone();
        assert(v@ =~= self.data@);
        v.push(0);
        v
    }
}

impl Default for Astring {
    /// An empty narrow string.
    fn default() -> (a: Self)
        ensures
            a@ == Seq::<i8>::empty(),
    {
        Astring::new()
    }
}

/// A width and height pair, used by windows and window builders.
#[derive(Debug, Clone, Copy, PartialEq, Eq, Structural)]
pub struct Size {
    /// Width in pixels.
    pub width: i32,
    /// Height in pixels.
    pub height: i32,
}

impl Size {
    /// Creates a new size.
    pub fn new(width: i32, height: i32) -> (s: Self)
        ensures
            s.width == width,
            s.height == height,
    {
        Size { width, height }
    }
}

impl Default for Size {
    /// The zero size.
    fn default() -> (s: Self)
        ensures
            s.width == 0 && s.height == 0,
    {
        Size { width: 0, height: 0 }
    }
}

/// A two-dimensional point.
#[derive(Debug, Clone, Copy, PartialEq, Eq, Structural)]
pub struct Point {
    /// Horizontal position.
    pub x: i32,
    /// Vertical position.
    pub y: i32,
}

impl Point {
    /// Creates a new point.
    pub fn new(x: i32, y: i32) -> (p: Self)
        ensures
            p.x == x,
            p.y == y,
    {
        Point { x, y }
    }
}

impl Default for Point {
    /// The origin.
    fn default() -> (p: Self)
        ensures
            p.x == 0 && p.y == 0,
    {
        Point { x: 0, y: 0 }
    }
}

/// Theme of the window chrome.
#[derive(Debug, Clone, Copy, PartialEq, Eq, Structural)]
pub enum Theme {
    /// Dark mode.
    Dark,
    /// Light mode.
    Light,
}

impl Default for Theme {
    /// Light mode is the default.
    fn default() -> (t: Self)
        ensures
            t == Theme::Light,
    {
        Theme::Light
    }
}

} // verus!
