//! Character-set conversions between text and the engine's buffers: UTF-16
//! for the wide entry point, Shift_JIS in and EUC-KR out for the narrow one.
use vstd::prelude::*;

verus! {

/// The UTF-16 code units of one character.
pub open spec fn utf16_char(c: char) -> Seq<u16> {
    let v = c as u32;
    if v < 0x10000 {
        seq![v as u16]
    } else {
        seq![(0xD800 + ((v - 0x10000) / 0x400)) as u16, (0xDC00 + ((v - 0x10000) % 0x400)) as u16]
    }
}

/// The UTF-16 encoding of a text.
pub open spec fn utf16_of(s: Seq<char>) -> Seq<u16>
    decreases s.len(),
{
    if s.len() == 0 {
        Seq::empty()
    } else {
        utf16_of(s.drop_last()) + utf16_char(s.last())
    }
}

pub open spec fn high_surrogate(u: u16) -> bool {
    0xD800 <= u && u <= 0xDBFF
}

pub open spec fn low_surrogate(u: u16) -> bool {
    0xDC00 <= u && u <= 0xDFFF
}

/// Decodes UTF-16, or `None` where a surrogate stands unpaired.
pub open spec fn utf16_decode(u: Seq<u16>) -> Option<Seq<char>>
    decreases u.len(),
{
    if u.len() == 0 {
        Some(Seq::empty())
    } else if high_surrogate(u[0]) && u.len() >= 2 && low_surrogate(u[1]) {
        let v = 0x10000 + (u[0] - 0xD800) * 0x400 + (u[1] - 0xDC00);
        match utf16_decode(u.subrange(2, u.len() as int)) {
            Some(rest) => Some(seq![v as char] + rest),
            None => None,
        }
    } else if high_surrogate(u[0]) || low_surrogate(u[0]) {
        None
    } else {
        match utf16_decode(u.drop_first()) {
            Some(rest) => Some(seq![u[0] as char] + rest),
            None => None,
        }
    }
}

/// Encodes `s` as UTF-16 with a terminating zero unit.
pub fn utf16_nul_terminated(s: &str) -> (r: Vec<u16>)
    ensures
        r@ == utf16_of(s@).push(0),
{
    let v = crate::text::chars_of(s);
    let mut out: Vec<u16> = Vec::new();
    let mut i: usize = 0;
    while i < v.len()
        invariant
            v@ == s@,
            i <= v.len(),
            out@ == utf16_of(v@.take(i as int)),
        decreases v.len() - i,
    {
        let c = v[i];
        let code = c as u32;
        if code < 0x10000 {
            out.push(code as u16);
        } else {
            out.push((0xD800 + (code - 0x10000) / 0x400) as u16);
            out.push((0xDC00 + (code - 0x10000) % 0x400) as u16);
        }
        assert(v@.take(i + 1).drop_last() =~= v@.take(i as int));
        assert(out@ =~= utf16_of(v@.take(i + 1)));
        i = i + 1;
    }
    assert(v@.take(i as int) =~= v@);
    out.push(0);
    out
}

/// `head` put before a decoded text, if there is one.
pub open spec fn prepend(head: Seq<char>, o: Option<Seq<char>>) -> Option<Seq<char>> {
    match o {
        Some(rest) => Some(head + rest),
        None => None,
    }
}

/// Decodes UTF-16 code units; `None` where a surrogate stands unpaired.
pub fn utf16_to_string(u: &Vec<u16>) -> (r: Option<String>)
    ensures
        r is Some <==> utf16_decode(u@) is Some,
        r matches Some(t) ==> utf16_decode(u@) == Some(t@),
{
    let len = u.len();
    let mut out = String::new();
    let mut i: usize = 0;
    assert(u@.subrange(0, len as int) =~= u@);
    assert(prepend(out@, utf16_decode(u@)) =~= utf16_decode(u@)) by {
        assert(Seq::<char>::empty() + Seq::<char>::empty() =~= Seq::<char>::empty());
        match utf16_decode(u@) {
            Some(t) => {
                assert(out@ + t =~= t);
            },
            None => {},
        }
    }
    while i < len
        invariant
            len == u.len(),
            i <= len,
            utf16_decode(u@) == prepend(out@, utf16_decode(u@.subrange(i as int, len as int))),
        decreases len - i,
    {
        let ghost s = u@.subrange(i as int, len as int);
        let ghost out0 = out@;
        let a = u[i];
        if 0xD800 <= a && a <= 0xDBFF && i + 1 < len && 0xDC00 <= u[i + 1] && u[i + 1] <= 0xDFFF {
            let b = u[i + 1];
            let v: u32 = 0x10000 + (a as u32 - 0xD800) * 0x400 + (b as u32 - 0xDC00);
            let d = char::from_u32(v);
            match d {
                Some(c) => {
                    proof {
                        crate::text::lemma_char_of_code(c, v);
                    }
                    out.push(c);
                    assert(s.subrange(2, s.len() as int) =~= u@.subrange(i + 2, len as int));
                    let ghost tail = utf16_decode(u@.subrange(i + 2, len as int));
                    assert(utf16_decode(s) == prepend(seq![c], tail));
                    proof {
                        if let Some(t) = tail {
                            assert(out@ + t =~= out0 + (seq![c] + t));
                        }
                    }
                },
                None => {
                    return None;
                },
            }
            i = i + 2;
        } else if 0xD800 <= a && a <= 0xDFFF {
            assert(utf16_decode(s) is None);
            return None;
        } else {
            let d = char::from_u32(a as u32);
            match d {
                Some(c) => {
                    proof {
                        crate::text::lemma_char_of_code(c, a as u32);
                    }
                    out.push(c);
                    assert(s.drop_first() =~= u@.subrange(i + 1, len as int));
                    let ghost tail = utf16_decode(u@.subrange(i + 1, len as int));
                    assert(utf16_decode(s) == prepend(seq![c], tail));
                    proof {
                        if let Some(t) = tail {
                            assert(out@ + t =~= out0 + (seq![c] + t));
                        }
                    }
                },
                None => {
                    return None;
                },
            }
            i = i + 1;
        }
    }
    assert(u@.subrange(i as int, len as int) =~= Seq::<u16>::empty());
    assert(out@ + Seq::<char>::empty() =~= out@);
    Some(out)
}

/// The longest text, in characters, handed to the legacy encoders: keeps
/// their buffer size computations far from overflow.
pub const MAX_TEXT_CHARS: usize = 0x1000_0000;

/// The Shift_JIS bytes of a text, unmappable characters written as HTML
/// numeric character references.
pub uninterp spec fn shift_jis_of(s: Seq<char>) -> Seq<u8>;

/// Relies on `encoding_rs::Encoding::encode` with `SHIFT_JIS`: the bytes
/// depend on the text alone.
#[verifier::external_body]
fn encode_shift_jis(s: &str) -> (r: Vec<u8>)
    requires
        s@.len() <= MAX_TEXT_CHARS,
    ensures
        r@ == shift_jis_of(s@),
{
    encoding_rs::SHIFT_JIS.encode(s).0.into_owned()
}

/// Encodes `s` as Shift_JIS with a terminating zero byte.
pub fn shift_jis_nul_terminated(s: &str) -> (r: Vec<u8>)
    requires
        s@.len() <= MAX_TEXT_CHARS,
    ensures
        r@ == shift_jis_of(s@).push(0),
{
    let mut r = encode_shift_jis(s);
    r.push(0);
    r
}

/// What EUC-KR decoding makes of some bytes: the text, malformed sequences
/// replaced, and whether any were.
pub uninterp spec fn euc_kr_decode_of(b: Seq<u8>) -> (Seq<char>, bool);

/// Relies on `encoding_rs::Encoding::decode` with `EUC_KR`: the text and the
/// error flag depend on the bytes alone.
#[verifier::external_body]
fn decode_euc_kr(b: &Vec<u8>) -> (r: (String, bool))
    requires
        b@.len() <= MAX_TEXT_CHARS,
    ensures
        (r.0@, r.1) == euc_kr_decode_of(b@),
{
    let (text, _, had_errors) = encoding_rs::EUC_KR.decode(b);
    (text.into_owned(), had_errors)
}

/// Decodes EUC-KR bytes; `None` where a sequence is malformed.
pub fn euc_kr_to_string(b: &Vec<u8>) -> (r: Option<String>)
    requires
        b@.len() <= MAX_TEXT_CHARS,
    ensures
        r is Some <==> !euc_kr_decode_of(b@).1,
        r matches Some(t) ==> t@ == euc_kr_decode_of(b@).0,
{
    let (text, had_errors) = decode_euc_kr(b);
    if had_errors {
        None
    } else {
        Some(text)
    }
}

} // verus!
