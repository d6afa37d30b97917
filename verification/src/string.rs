use vstd::prelude::*;
use vstd::string::StringSliceAdditionalSpecFns;
use vstd::utf8::*;

use crate::value::JsValue;

verus! {


/// A JavaScript string, identified by the engine's reference; `None` once the
/// string has been released through this handle.
#[derive(Debug)]
pub struct JsString {
    rf: Option<usize>,
}

impl View for JsString {
    type V = Option<usize>;

    closed spec fn view(&self) -> Option<usize> {
        self.rf
    }
}

impl JsString {
    /// Wraps a string reference that the engine handed out.
    pub fn from_rf(rf: usize) -> (r: Self)
        ensures
            r@ == Some(rf),
    {
        JsString { rf: Some(rf) }
    }

    /// Wraps a reference the engine handed out without an exception slot: the
    /// null reference stands for no string, as if released.
    pub fn from_nullable_rf(rf: usize) -> (r: Self)
        ensures
            rf == 0 ==> r@ is None,
            rf != 0 ==> r@ == Some(rf),
    {
        if rf == 0 {
            JsString { rf: None }
        } else {
            JsString { rf: Some(rf) }
        }
    }

    /// The answer of an engine call that copies a value into a new string or
    /// returns the null reference and an exception.
    pub fn from_rf_or_exception<'ctx>(rf: usize, exception: JsValue<'ctx>) -> (r: Result<
        JsString,
        JsValue<'ctx>,
    >)
        ensures
            r is Err <==> rf == 0,
            r matches Ok(s) ==> s@ == Some(rf),
            r matches Err(e) ==> e == exception,
    {
        if rf == 0 {
            Err(exception)
        } else {
            Ok(JsString::from_rf(rf))
        }
    }

    /// The reference, or `None` once the string has been released.
    pub fn rf(&self) -> (r: Option<usize>)
        ensures
            r == self@,
    {
        self.rf
    }

    /// Gives up the reference for releasing: the reference that was held, if
    /// any; afterwards the handle holds none, so it is released only once.
    pub fn take_rf(&mut self) -> (r: Option<usize>)
        ensures
            r == old(self)@,
            final(self)@ is None,
    {
        let r = self.rf;
        self.rf = None;
        r
    }

    /// The reference; only a string that has not been released has one.
    pub fn as_ptr(&self) -> (r: usize)
        requires
            self@ is Some,
        ensures
            Some(r) == self@,
    {
        match self.rf {
            Some(rf) => rf,
            None => 0,
        }
    }
}

/// The UTF-16 code units of one character: one unit in the Basic Multilingual
/// Plane, a surrogate pair above it.
pub open spec fn utf16_of_char(c: char) -> Seq<u16> {
    let v = c as u32;
    if v < 0x10000 {
        seq![v as u16]
    } else {
        let w = (v - 0x10000) as u32;
        seq![(0xD800 + w / 0x400) as u16, (0xDC00 + w % 0x400) as u16]
    }
}

/// The UTF-16 encoding of a character sequence.
pub open spec fn utf16_encode(s: Seq<char>) -> Seq<u16>
    decreases s.len(),
{
    if s.len() == 0 {
        seq![]
    } else {
        utf16_encode(s.drop_last()) + utf16_of_char(s.last())
    }
}

/// The scalar value that one UTF-16 unit, or one surrogate pair, stands for.
pub open spec fn utf16_decode_scalar(units: Seq<u16>) -> int {
    if units.len() == 1 {
        units[0] as int
    } else {
        0x10000 + (units[0] - 0xD800) * 0x400 + (units[1] - 0xDC00)
    }
}

/// A UTF-16 unit that belongs to a surrogate pair.
pub open spec fn is_surrogate_unit(u: u16) -> bool {
    0xD800 <= u < 0xE000
}

/// The UTF-16 units of a character stand for that character: a character
/// below U+10000 is the single unit of the same value (never a surrogate), and
/// any other character is a high surrogate followed by a low surrogate that
/// decode to its value.
pub proof fn law_utf16_of_char_decodes(c: char)
    ensures
        utf16_decode_scalar(utf16_of_char(c)) == c as u32,
        (c as u32) < 0x10000 ==> utf16_of_char(c).len() == 1 && utf16_of_char(c)[0] as u32
            == c as u32 && !is_surrogate_unit(utf16_of_char(c)[0]),
        (c as u32) >= 0x10000 ==> utf16_of_char(c).len() == 2 && 0xD800 <= utf16_of_char(c)[0]
            < 0xDC00 && 0xDC00 <= utf16_of_char(c)[1] < 0xE000,
{
    vstd::utf8::char_is_scalar(c);
    let v = c as u32;
    if v >= 0x10000 {
        let w = (v - 0x10000) as u32;
        assert(w <= 0xFFFFF);
        let q = w / 0x400;
        let m = w % 0x400;
        assert(w == 0x400 * q + m && 0 <= m < 0x400) by (nonlinear_arith)
            requires q == w / 0x400, m == w % 0x400;
        assert(q < 0x400);
    }
}

/// Distinct characters have distinct UTF-16 units.
pub proof fn law_utf16_of_char_injective(a: char, b: char)
    ensures
        utf16_of_char(a) == utf16_of_char(b) ==> a == b,
{
    law_utf16_of_char_decodes(a);
    law_utf16_of_char_decodes(b);
    if utf16_of_char(a) == utf16_of_char(b) {
        assert(a as u32 == b as u32);
        vstd::utf8::char_u32_cast(a, a as u32);
        vstd::utf8::char_u32_cast(b, b as u32);
    }
}

/// The units of one character in a two-unit buffer that starts zeroed: a
/// character of the Basic Multilingual Plane leaves the second unit at zero.
pub open spec fn utf16_char_buffer(c: char) -> Seq<u16> {
    let u = utf16_of_char(c);
    if u.len() == 1 {
        u.push(0)
    } else {
        u
    }
}

/// A buffer of UTF-16 code units, as the engine takes them to create a string.
pub struct JsChars {
    buf: Vec<u16>,
}

impl View for JsChars {
    type V = Seq<u16>;

    closed spec fn view(&self) -> Seq<u16> {
        self.buf@
    }
}

fn utf16_units_of_char(c: char) -> (r: (u16, Option<u16>))
    ensures
        r.1 is None ==> r.0 as u32 == c as u32,
        r.1 matches Some(lo) ==> 0x10000 + (r.0 - 0xD800) * 0x400 + (lo - 0xDC00) == c as u32,
        utf16_of_char(c) == (match r.1 {
            None => seq![r.0],
            Some(lo) => seq![r.0, lo],
        }),
{
    let v: u32 = c as u32;
    if v < 0x10000 {
        (v as u16, None)
    } else {
        proof {
            law_utf16_of_char_decodes(c);
        }
        proof {
            vstd::utf8::char_is_scalar(c);
        }
        let w: u32 = v - 0x10000;
        assert(w / 0x400 < 0x400) by {
            assert(w <= 0xFFFFF);
        }
        (((0xD800 + w / 0x400) as u16), Some((0xDC00 + w % 0x400) as u16))
    }
}

impl JsChars {
    /// An empty buffer.
    pub fn new() -> (r: Self)
        ensures
            r@ == Seq::<u16>::empty(),
    {
        JsChars { buf: Vec::new() }
    }

    /// Number of code units.
    pub fn len(&self) -> (r: usize)
        ensures
            r == self@.len(),
    {
        self.buf.len()
    }

    /// The code units.
    pub fn as_slice(&self) -> (r: &[u16])
        ensures
            r@ == self@,
    {
        self.buf.as_slice()
    }

    /// The units of one character, in a buffer of exactly two units: a
    /// character of the Basic Multilingual Plane is followed by a zero unit.
    pub fn from_char(value: char) -> (r: Self)
        ensures
            r@ == utf16_char_buffer(value),
            r@.len() == 2,
    {
        let (hi, lo) = utf16_units_of_char(value);
        let mut buf: Vec<u16> = Vec::new();
        buf.push(hi);
        match lo {
            Some(l) => buf.push(l),
            None => buf.push(0),
        }
        JsChars { buf }
    }

    /// The UTF-16 encoding of a string slice.
    pub fn from_str(value: &str) -> (r: Self)
        ensures
            r@ == utf16_encode(value@),
    {
        let mut buf: Vec<u16> = Vec::new();
        let ghost chars = value@;
        proof {
            broadcast use vstd::string::axiom_spec_iter;
        }
        for c in it: value.chars()
            invariant
                it.seq() == chars,
                buf@ == utf16_encode(chars.take(it.index() as int)),
        {
            let ghost i = it.index() as int;
            assert(chars.take(i + 1).drop_last() == chars.take(i));
            let (hi, lo) = utf16_units_of_char(c);
            buf.push(hi);
            match lo {
                Some(l) => buf.push(l),
                None => {},
            }
        }
        assert(chars.take(chars.len() as int) == chars);
        JsChars { buf }
    }

    /// The UTF-16 encoding of an owned string.
    pub fn from_string(value: String) -> (r: Self)
        ensures
            r@ == utf16_encode(value@),
    {
        JsChars::from_str(value.as_str())
    }
}


/// Length of the C string at the start of a buffer: the index of its first
/// zero byte (the whole buffer when it holds none).
pub open spec fn cstring_len(b: Seq<u8>) -> nat
    decreases b.len(),
{
    if b.len() == 0 {
        0
    } else if b[0] == 0 {
        0
    } else {
        1 + cstring_len(b.drop_first())
    }
}

/// The bytes of the C string at the start of a buffer, without its terminator.
pub open spec fn cstring_bytes(b: Seq<u8>) -> Seq<u8> {
    b.take(cstring_len(b) as int)
}

/// The first zero byte of a buffer is at `n` when no earlier byte is zero.
proof fn lemma_cstring_len(b: Seq<u8>, n: int)
    requires
        0 <= n < b.len(),
        b[n] == 0,
        forall|j: int| 0 <= j < n ==> b[j] != 0,
    ensures
        cstring_len(b) == n,
    decreases n,
{
    if n > 0 {
        let t = b.drop_first();
        assert forall|j: int| 0 <= j < n - 1 implies t[j] != 0 by {
            assert(t[j] == b[j + 1]);
        }
        lemma_cstring_len(t, n - 1);
    }
}

/// `std::str::from_utf8`: the bytes are a string slice exactly when they are
/// valid UTF-8, and the slice then holds those very bytes.
#[verifier::external_body]
fn str_from_utf8(v: &[u8]) -> (r: Option<&str>)
    ensures
        r is Some <==> valid_utf8(v@),
        r matches Some(s) ==> s.spec_bytes() == v@,
{
    std::str::from_utf8(v).ok()
}

/// Reads the null-terminated UTF-8 string that the engine wrote into `buf`:
/// the bytes before the first zero byte, decoded, or `None` when they are not
/// valid UTF-8.
pub fn string_from_utf8_cstring(buf: &[u8]) -> (r: Option<String>)
    requires
        buf@.contains(0u8),
    ensures
        r is Some <==> valid_utf8(cstring_bytes(buf@)),
        r matches Some(s) ==> s@ == decode_utf8(cstring_bytes(buf@)),
{
    let mut n: usize = 0;
    while buf[n] != 0
        invariant
            n < buf@.len(),
            buf@.contains(0u8),
            forall|j: int| 0 <= j < n ==> buf@[j] != 0,
        decreases buf@.len() - n,
    {
        proof {
            let k = choose|k: int| 0 <= k < buf@.len() && buf@[k] == 0u8;
            assert(k > n);
        }
        n = n + 1;
    }
    proof {
        lemma_cstring_len(buf@, n as int);
    }
    let bytes = vstd::slice::slice_subrange(buf, 0, n);
    assert(bytes@ == cstring_bytes(buf@));
    match str_from_utf8(bytes) {
        Some(s) => {
            proof {
                vstd::utf8::encode_utf8_decode_utf8(s@);
            }
            Some(s.to_owned())
        },
        None => None,
    }
}


/// The two-unit buffer of one character starts with the character's UTF-16
/// encoding; it is exactly that encoding for a character above the Basic
/// Multilingual Plane, and that encoding followed by a zero unit otherwise.
pub proof fn law_char_buffer_pads_bmp(c: char)
    ensures
        utf16_char_buffer(c).take(utf16_encode(seq![c]).len() as int) == utf16_encode(seq![c]),
        (c as u32) < 0x10000 ==> utf16_char_buffer(c) == utf16_encode(seq![c]).push(0u16),
        (c as u32) >= 0x10000 ==> utf16_char_buffer(c) == utf16_encode(seq![c]),
{
    let s = seq![c];
    assert(s.drop_last() =~= Seq::<char>::empty());
    assert(utf16_encode(Seq::<char>::empty()) =~= Seq::<u16>::empty());
    assert(utf16_encode(s) =~= utf16_of_char(c));
}

/// Appending a character appends its UTF-16 units, so a string's encoding is
/// the units of its characters one after another.
pub proof fn law_utf16_encode_push(s: Seq<char>, c: char)
    ensures
        utf16_encode(s.push(c)) == utf16_encode(s) + utf16_of_char(c),
        utf16_encode(seq![c]) == utf16_of_char(c),
{
    assert(s.push(c).drop_last() == s);
    assert(seq![c].drop_last() =~= Seq::<char>::empty());
    assert(utf16_encode(Seq::<char>::empty()) + utf16_of_char(c) =~= utf16_of_char(c));
}

/// Encoding a concatenation gives the concatenation of the encodings.
pub proof fn law_utf16_encode_concat(a: Seq<char>, b: Seq<char>)
    ensures
        utf16_encode(a + b) == utf16_encode(a) + utf16_encode(b),
    decreases b.len(),
{
    if b.len() == 0 {
        assert(a + b == a);
    } else {
        assert((a + b).drop_last() == a + b.drop_last());
        assert((a + b).last() == b.last());
        law_utf16_encode_concat(a, b.drop_last());
    }
}


/// No byte of the UTF-8 encoding of a non-zero scalar is zero.
proof fn lemma_encode_scalar_no_zero(v: u32)
    requires
        v != 0,
    ensures
        forall|j: int| 0 <= j < encode_scalar(v).len() ==> encode_scalar(v)[j] != 0,
{
    assert(v != 0 && v <= 0x7F ==> ((v & 0x7F) as u8) != 0u8) by (bit_vector);
    assert((0xC0 | ((v >> 6) & 0x1F) as u8) != 0u8) by (bit_vector);
    assert((0xE0 | ((v >> 12) & 0x0F) as u8) != 0u8) by (bit_vector);
    assert((0xF0 | ((v >> 18) & 0x7) as u8) != 0u8) by (bit_vector);
    assert((0x80 | (v & 0x3F) as u8) != 0u8) by (bit_vector);
    assert((0x80 | ((v >> 6) & 0x3F) as u8) != 0u8) by (bit_vector);
    assert((0x80 | ((v >> 12) & 0x3F) as u8) != 0u8) by (bit_vector);
}

/// No byte of the UTF-8 encoding of a string without zero characters is zero.
proof fn lemma_encode_utf8_no_zero(s: Seq<char>)
    requires
        !s.contains('\0'),
    ensures
        forall|j: int| 0 <= j < encode_utf8(s).len() ==> encode_utf8(s)[j] != 0,
    decreases s.len(),
{
    if s.len() > 0 {
        let c = s[0];
        assert(c != '\0');
        if c as u32 == 0 {
            vstd::utf8::char_u32_cast(c, 0u32);
            vstd::utf8::char_u32_cast('\0', 0u32);
        }
        lemma_encode_scalar_no_zero(c as u32);
        let rest = s.drop_first();
        assert forall|k: int| 0 <= k < rest.len() implies rest[k] != '\0' by {
            assert(rest[k] == s[k + 1]);
        }
        lemma_encode_utf8_no_zero(rest);
        let head = encode_scalar(c as u32);
        assert forall|j: int| 0 <= j < encode_utf8(s).len() implies encode_utf8(s)[j] != 0 by {
            if j < head.len() {
                assert(encode_utf8(s)[j] == head[j]);
            } else {
                assert(encode_utf8(s)[j] == encode_utf8(rest)[j - head.len()]);
            }
        }
    }
}
/// A string that holds no zero character, written by the engine as UTF-8
/// followed by a zero byte, reads back as the same string whatever the buffer
/// holds after the terminator.
pub proof fn law_cstring_round_trip(s: Seq<char>, rest: Seq<u8>)
    requires
        !s.contains('\0'),
    ensures
        cstring_bytes(encode_utf8(s) + seq![0u8] + rest) == encode_utf8(s),
        valid_utf8(cstring_bytes(encode_utf8(s) + seq![0u8] + rest)),
        decode_utf8(cstring_bytes(encode_utf8(s) + seq![0u8] + rest)) == s,
{
    let e = encode_utf8(s);
    let b = e + seq![0u8] + rest;
    lemma_encode_utf8_no_zero(s);
    assert forall|j: int| 0 <= j < e.len() implies b[j] != 0 by {
        assert(b[j] == e[j]);
    }
    lemma_cstring_len(b, e.len() as int);
    assert(b.take(e.len() as int) == e);
    vstd::utf8::encode_utf8_valid_utf8(s);
    vstd::utf8::encode_utf8_decode_utf8(s);
}
} // verus!
