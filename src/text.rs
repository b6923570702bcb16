//! The escape transform: characters the engine cannot consume are written
//! as `+x` or `+X` followed by four uppercase hex digits, and read back.
use vstd::prelude::*;
use vstd::std_specs::iter::IteratorSpec;

use crate::engine::EzTransLib;

verus! {

/// Relies on `String::push`: appends one character.
pub assume_specification[ String::push ](s: &mut String, ch: char)
    ensures
        final(s)@ == old(s)@.push(ch),
;

/// Hangul Jamo, Compatibility Jamo, Jamo Extended-A and -B, and Syllables.
pub open spec fn hangul_code(code: u32) -> bool {
    (0x1100 <= code && code <= 0x11FF) || (0x3130 <= code && code <= 0x318F) || (0xA960 <= code
        && code <= 0xA97F) || (0xAC00 <= code && code <= 0xD7A3) || (0xD7B0 <= code && code
        <= 0xD7FF)
}

/// The fixed set of symbols (box drawing, units, enclosed alphanumerics and
/// the like) that the engine mangles, by code point.
pub open spec fn special_code(code: u32) -> bool {
    code == 0x00A1 || (0x00BC <= code && code <= 0x00BF) || code == 0x0111
        || (0x0126 <= code && code <= 0x0127) || (0x0131 <= code && code <= 0x0133) || code == 0x0138
        || (0x013F <= code && code <= 0x0142) || (0x0149 <= code && code <= 0x014B) || (0x0152 <= code && code <= 0x0153)
        || (0x0166 <= code && code <= 0x0167) || code == 0x02C7 || code == 0x02D0
        || (0x02D8 <= code && code <= 0x02DB) || code == 0x02DD || code == 0x03A9
        || code == 0x207F || (0x2081 <= code && code <= 0x2084) || code == 0x20AC
        || code == 0x2109 || code == 0x2113 || code == 0x2122
        || (0x2153 <= code && code <= 0x2154) || (0x215B <= code && code <= 0x215E) || (0x2170 <= code && code <= 0x2179)
        || (0x2194 <= code && code <= 0x2199) || code == 0x220F || code == 0x223C
        || code == 0x2299 || (0x2460 <= code && code <= 0x246E) || (0x2474 <= code && code <= 0x2482)
        || (0x249C <= code && code <= 0x24B5) || (0x24D0 <= code && code <= 0x24E9) || (0x250D <= code && code <= 0x250E)
        || (0x2511 <= code && code <= 0x2512) || (0x2515 <= code && code <= 0x2516) || (0x2519 <= code && code <= 0x251A)
        || (0x251E <= code && code <= 0x251F) || (0x2521 <= code && code <= 0x2522) || (0x2526 <= code && code <= 0x2527)
        || code == 0x252A || (0x252D <= code && code <= 0x252E) || (0x2531 <= code && code <= 0x2532)
        || (0x2535 <= code && code <= 0x2536) || (0x2539 <= code && code <= 0x253A) || (0x253D <= code && code <= 0x253E)
        || (0x2540 <= code && code <= 0x2541) || (0x2543 <= code && code <= 0x254A) || code == 0x2592
        || (0x25A3 <= code && code <= 0x25A9) || (0x25B6 <= code && code <= 0x25B7) || (0x25C0 <= code && code <= 0x25C1)
        || code == 0x25C8 || (0x25D0 <= code && code <= 0x25D1) || (0x260E <= code && code <= 0x260F)
        || code == 0x261C || code == 0x261E || (0x2660 <= code && code <= 0x2661)
        || (0x2663 <= code && code <= 0x2665) || (0x2667 <= code && code <= 0x2669) || code == 0x266C
        || (0x3200 <= code && code <= 0x321C) || (0x3260 <= code && code <= 0x327B) || code == 0x327F
        || (0x3380 <= code && code <= 0x3384) || (0x3388 <= code && code <= 0x338D) || (0x3390 <= code && code <= 0x339B)
        || (0x339F <= code && code <= 0x33A0) || (0x33A2 <= code && code <= 0x33B8) || (0x33BA <= code && code <= 0x33C3)
        || (0x33C5 <= code && code <= 0x33CA) || (0x33CF <= code && code <= 0x33D0) || code == 0x33D3
        || code == 0x33D6 || code == 0x33D8 || (0x33DB <= code && code <= 0x33DD)
        || code == 0xFF02 || code == 0xFF07 || code == 0xFFE6
}

/// Characters escaped with the lower-case marker `x`.
pub open spec fn plain_escaped(c: char) -> bool {
    c == '@' || c == '\0' || hangul_code(c as u32)
}

/// Characters the escape transform rewrites.
pub open spec fn needs_escape(c: char) -> bool {
    plain_escaped(c) || special_code(c as u32)
}

/// The uppercase hex digit of `d`, for `d < 16`.
pub open spec fn hex_digit(d: u32) -> char {
    if d < 10 {
        ((48 + d) as u8) as char
    } else {
        ((55 + d) as u8) as char
    }
}

/// Four uppercase hex digits of the low 16 bits of `v`, most significant first.
pub open spec fn hex4(v: u32) -> Seq<char> {
    seq![
        hex_digit((v / 4096) % 16),
        hex_digit((v / 256) % 16),
        hex_digit((v / 16) % 16),
        hex_digit(v % 16),
    ]
}

/// What `escape` makes of one character.
pub open spec fn escape_char(c: char) -> Seq<char> {
    if plain_escaped(c) {
        seq!['+', 'x'] + hex4(c as u32)
    } else if special_code(c as u32) {
        seq!['+', 'X'] + hex4(c as u32)
    } else {
        seq![c]
    }
}

/// Each character of `s` escaped in turn.
pub open spec fn escape_seq(s: Seq<char>) -> Seq<char>
    decreases s.len(),
{
    if s.len() == 0 {
        Seq::empty()
    } else {
        escape_seq(s.drop_last()) + escape_char(s.last())
    }
}

pub open spec fn is_hex(c: char) -> bool {
    ('0' <= c && c <= '9') || ('a' <= c && c <= 'f') || ('A' <= c && c <= 'F')
}

pub open spec fn hex_val(c: char) -> u32 {
    if '0' <= c && c <= '9' {
        (c as u32 - 48) as u32
    } else if 'a' <= c && c <= 'f' {
        (c as u32 - 87) as u32
    } else {
        (c as u32 - 55) as u32
    }
}

/// The number that four hex digits spell.
pub open spec fn hex4_value(h: Seq<char>) -> u32 {
    (((hex_val(h[0]) * 16 + hex_val(h[1])) * 16 + hex_val(h[2])) * 16 + hex_val(h[3])) as u32
}

/// A 16-bit value that is a Unicode scalar value (no surrogate).
pub open spec fn scalar16(v: u32) -> bool {
    v < 0xD800 || (0xE000 <= v && v <= 0xFFFF)
}

/// Whether the four characters `h` form an escape that decodes.
pub open spec fn decodable(h: Seq<char>) -> bool {
    h.len() == 4 && is_hex(h[0]) && is_hex(h[1]) && is_hex(h[2]) && is_hex(h[3]) && scalar16(
        hex4_value(h),
    )
}

/// How many characters after a marker an escape consumes: four, or what is left.
pub open spec fn taken(s: Seq<char>) -> int {
    if s.len() >= 6 {
        4
    } else {
        s.len() - 2
    }
}

/// Reads escapes back, left to right. A `+x` or `+X` marker consumes up to
/// four following characters; when they are not four hex digits of a scalar
/// value, the marker and what it consumed are kept as they were.
pub open spec fn unescape_seq(s: Seq<char>) -> Seq<char>
    decreases s.len(),
{
    if s.len() == 0 {
        Seq::empty()
    } else if s[0] == '+' && s.len() >= 2 && (s[1] == 'x' || s[1] == 'X') {
        let n = taken(s);
        let h = s.subrange(2, 2 + n);
        let rest = s.subrange(2 + n, s.len() as int);
        if decodable(h) {
            seq![hex4_value(h) as char] + unescape_seq(rest)
        } else {
            seq!['+', s[1]] + h + unescape_seq(rest)
        }
    } else {
        seq![s[0]] + unescape_seq(s.drop_first())
    }
}

/// The characters of a string, in order.
pub fn chars_of(s: &str) -> (r: Vec<char>)
    ensures
        r@ == s@,
{
    let mut out: Vec<char> = Vec::new();
    for c in it: s.chars()
        invariant
            out@ == it.seq().take(it.index() as int),
    {
        out.push(c);
    }
    out
}

/// Relies on `char::from_u32`: `None` exactly off the Unicode scalar values.
pub assume_specification[ char::from_u32 ](i: u32) -> (r: Option<char>)
    ensures
        r.is_some() <==> (i < 0xD800 || (0xE000 <= i && i <= 0x10FFFF)),
        r matches Some(c) ==> c as u32 == i,
;

fn special_symbol(code: u32) -> (r: bool)
    ensures
        r == special_code(code),
{
    code == 0x00A1 || (0x00BC <= code && code <= 0x00BF) || code == 0x0111
        || (0x0126 <= code && code <= 0x0127) || (0x0131 <= code && code <= 0x0133) || code == 0x0138
        || (0x013F <= code && code <= 0x0142) || (0x0149 <= code && code <= 0x014B) || (0x0152 <= code && code <= 0x0153)
        || (0x0166 <= code && code <= 0x0167) || code == 0x02C7 || code == 0x02D0
        || (0x02D8 <= code && code <= 0x02DB) || code == 0x02DD || code == 0x03A9
        || code == 0x207F || (0x2081 <= code && code <= 0x2084) || code == 0x20AC
        || code == 0x2109 || code == 0x2113 || code == 0x2122
        || (0x2153 <= code && code <= 0x2154) || (0x215B <= code && code <= 0x215E) || (0x2170 <= code && code <= 0x2179)
        || (0x2194 <= code && code <= 0x2199) || code == 0x220F || code == 0x223C
        || code == 0x2299 || (0x2460 <= code && code <= 0x246E) || (0x2474 <= code && code <= 0x2482)
        || (0x249C <= code && code <= 0x24B5) || (0x24D0 <= code && code <= 0x24E9) || (0x250D <= code && code <= 0x250E)
        || (0x2511 <= code && code <= 0x2512) || (0x2515 <= code && code <= 0x2516) || (0x2519 <= code && code <= 0x251A)
        || (0x251E <= code && code <= 0x251F) || (0x2521 <= code && code <= 0x2522) || (0x2526 <= code && code <= 0x2527)
        || code == 0x252A || (0x252D <= code && code <= 0x252E) || (0x2531 <= code && code <= 0x2532)
        || (0x2535 <= code && code <= 0x2536) || (0x2539 <= code && code <= 0x253A) || (0x253D <= code && code <= 0x253E)
        || (0x2540 <= code && code <= 0x2541) || (0x2543 <= code && code <= 0x254A) || code == 0x2592
        || (0x25A3 <= code && code <= 0x25A9) || (0x25B6 <= code && code <= 0x25B7) || (0x25C0 <= code && code <= 0x25C1)
        || code == 0x25C8 || (0x25D0 <= code && code <= 0x25D1) || (0x260E <= code && code <= 0x260F)
        || code == 0x261C || code == 0x261E || (0x2660 <= code && code <= 0x2661)
        || (0x2663 <= code && code <= 0x2665) || (0x2667 <= code && code <= 0x2669) || code == 0x266C
        || (0x3200 <= code && code <= 0x321C) || (0x3260 <= code && code <= 0x327B) || code == 0x327F
        || (0x3380 <= code && code <= 0x3384) || (0x3388 <= code && code <= 0x338D) || (0x3390 <= code && code <= 0x339B)
        || (0x339F <= code && code <= 0x33A0) || (0x33A2 <= code && code <= 0x33B8) || (0x33BA <= code && code <= 0x33C3)
        || (0x33C5 <= code && code <= 0x33CA) || (0x33CF <= code && code <= 0x33D0) || code == 0x33D3
        || code == 0x33D6 || code == 0x33D8 || (0x33DB <= code && code <= 0x33DD)
        || code == 0xFF02 || code == 0xFF07 || code == 0xFFE6
}

fn push_hex_digit(out: &mut String, d: u32)
    requires
        d < 16,
    ensures
        final(out)@ == old(out)@.push(hex_digit(d)),
{
    if d < 10 {
        out.push(((48 + d) as u8) as char);
    } else {
        out.push(((55 + d) as u8) as char);
    }
}

/// Appends `+`, the marker and four hex digits of `code`.
fn push_escape(out: &mut String, marker: char, code: u32)
    ensures
        final(out)@ == old(out)@ + seq!['+', marker] + hex4(code),
{
    out.push('+');
    out.push(marker);
    push_hex_digit(out, (code / 4096) % 16);
    push_hex_digit(out, (code / 256) % 16);
    push_hex_digit(out, (code / 16) % 16);
    push_hex_digit(out, code % 16);
    assert(final(out)@ =~= old(out)@ + seq!['+', marker] + hex4(code));
}

fn hex_char(c: char) -> (r: bool)
    ensures
        r == is_hex(c),
{
    ('0' <= c && c <= '9') || ('a' <= c && c <= 'f') || ('A' <= c && c <= 'F')
}

fn hex_char_value(c: char) -> (r: u32)
    requires
        is_hex(c),
    ensures
        r == hex_val(c),
        r < 16,
{
    let code = c as u32;
    if '0' <= c && c <= '9' {
        code - 48
    } else if 'a' <= c && c <= 'f' {
        code - 87
    } else {
        code - 55
    }
}

impl EzTransLib {
    /// Whether `code` lies in one of the Hangul blocks.
    pub fn is_hangul_range(&self, code: u32) -> (r: bool)
        ensures
            r == hangul_code(code),
    {
        (0x1100 <= code && code <= 0x11FF) || (0x3130 <= code && code <= 0x318F) || (0xA960
            <= code && code <= 0xA97F) || (0xAC00 <= code && code <= 0xD7A3) || (0xD7B0 <= code
            && code <= 0xD7FF)
    }

    /// Whether `c` is one of the special symbols the engine mangles.
    pub fn needs_encoding(&self, c: char) -> (r: bool)
        ensures
            r == special_code(c as u32),
    {
        special_symbol(c as u32)
    }

    /// Writes every Hangul character, `@` and NUL as `+x` and four uppercase
    /// hex digits of its code point, and every special symbol as `+X` and the
    /// same digits; all other characters are kept.
    pub fn hangul_encode(&self, input: &str) -> (r: String)
        ensures
            r@ == escape_seq(input@),
    {
        let v = chars_of(input);
        let mut out = String::new();
        let mut i: usize = 0;
        while i < v.len()
            invariant
                v@ == input@,
                i <= v.len(),
                out@ == escape_seq(v@.take(i as int)),
            decreases v.len() - i,
        {
            let c = v[i];
            let code = c as u32;
            if c == '@' || c == '\0' || self.is_hangul_range(code) {
                push_escape(&mut out, 'x', code);
            } else if self.needs_encoding(c) {
                push_escape(&mut out, 'X', code);
            } else {
                out.push(c);
            }
            assert(v@.take(i + 1).drop_last() =~= v@.take(i as int));
            i = i + 1;
        }
        assert(v@.take(i as int) =~= v@);
        out
    }

    /// Reads back what `hangul_encode` wrote: `+x` or `+X` with four hex
    /// digits of a scalar value becomes that character. A marker followed by
    /// anything else is kept with the characters it consumed, and a `+`
    /// without a marker is kept as it is: no input is dropped.
    pub fn hangul_decode(&self, input: &str) -> (r: String)
        ensures
            r@ == unescape_seq(input@),
    {
        let v = chars_of(input);
        let len = v.len();
        let mut out = String::new();
        let mut i: usize = 0;
        assert(v@.subrange(0, len as int) =~= v@);
        assert(out@ + unescape_seq(v@) =~= unescape_seq(v@));
        while i < len
            invariant
                v@ == input@,
                len == v.len(),
                i <= len,
                out@ + unescape_seq(v@.subrange(i as int, len as int)) == unescape_seq(v@),
            decreases len - i,
        {
            i = unescape_step(&v, i, &mut out);
        }
        assert(v@.subrange(i as int, len as int) =~= Seq::<char>::empty());
        assert(out@ + Seq::<char>::empty() =~= out@);
        out
    }
}

/// A code point that names a character names only that one.
pub(crate) proof fn lemma_char_of_code(c: char, v: u32)
    requires
        c as u32 == v,
    ensures
        c == v as char,
{
}

/// Reads the escape, or the single character, that starts at `i`.
fn unescape_step(v: &Vec<char>, i: usize, out: &mut String) -> (next: usize)
    requires
        i < v.len(),
    ensures
        i < next <= v.len(),
        final(out)@ + unescape_seq(v@.subrange(next as int, v.len() as int)) == old(out)@
            + unescape_seq(v@.subrange(i as int, v.len() as int)),
{
    let len = v.len();
    let ghost s = v@.subrange(i as int, len as int);
    let ghost out0 = out@;
    let c = v[i];
    if c == '+' && i + 1 < len && (v[i + 1] == 'x' || v[i + 1] == 'X') {
        let marker = v[i + 1];
        let start = i + 2;
        let end = if len - start >= 4 {
            start + 4
        } else {
            len
        };
        let ghost h = v@.subrange(start as int, end as int);
        let ghost rest = v@.subrange(end as int, len as int);
        assert(end - start == taken(s));
        assert(s.subrange(2, 2 + taken(s)) =~= h);
        assert(s.subrange(2 + taken(s), s.len() as int) =~= rest);
        let mut decoded: Option<char> = None;
        if end - start == 4 && hex_char(v[start]) && hex_char(v[start + 1]) && hex_char(
            v[start + 2],
        ) && hex_char(v[start + 3]) {
            let value = ((hex_char_value(v[start]) * 16 + hex_char_value(v[start + 1])) * 16
                + hex_char_value(v[start + 2])) * 16 + hex_char_value(v[start + 3]);
            assert(value == hex4_value(h));
            decoded = char::from_u32(value);
            if let Some(d) = decoded {
                proof {
                    lemma_char_of_code(d, value);
                }
            }
        }
        assert(decoded is Some <==> decodable(h));
        match decoded {
            Some(d) => {
                out.push(d);
                assert(unescape_seq(s) == seq![d] + unescape_seq(rest));
                assert(out@ + unescape_seq(rest) =~= out0 + unescape_seq(s));
            },
            None => {
                out.push('+');
                out.push(marker);
                let mut k: usize = start;
                while k < end
                    invariant
                        start <= k <= end <= len,
                        len == v.len(),
                        out@ == out0 + seq!['+', marker] + v@.subrange(start as int, k as int),
                    decreases end - k,
                {
                    out.push(v[k]);
                    assert(v@.subrange(start as int, k + 1) =~= v@.subrange(
                        start as int,
                        k as int,
                    ).push(v@[k as int]));
                    k = k + 1;
                }
                assert(unescape_seq(s) == seq!['+', marker] + h + unescape_seq(rest));
                assert(out@ + unescape_seq(rest) =~= out0 + unescape_seq(s));
            },
        }
        end
    } else {
        out.push(c);
        assert(s.drop_first() =~= v@.subrange(i + 1, len as int));
        assert(unescape_seq(s) == seq![c] + unescape_seq(s.drop_first()));
        assert(out@ + unescape_seq(s.drop_first()) =~= out0 + unescape_seq(s));
        i + 1
    }
}

/// Splits `escape_seq` at its first character.
proof fn lemma_escape_front(t: Seq<char>)
    requires
        t.len() > 0,
    ensures
        escape_seq(t) == escape_char(t[0]) + escape_seq(t.drop_first()),
    decreases t.len(),
{
    if t.len() == 1 {
        assert(t.drop_first() =~= Seq::<char>::empty());
        assert(t.drop_last() =~= Seq::<char>::empty());
        assert(escape_seq(t.drop_last()) == Seq::<char>::empty());
        assert(escape_seq(t.drop_first()) == Seq::<char>::empty());
        assert(escape_seq(t) =~= escape_char(t[0]) + escape_seq(t.drop_first()));
    } else {
        lemma_escape_front(t.drop_last());
        assert(t.drop_last().drop_first() =~= t.drop_first().drop_last());
        assert(t.drop_last()[0] == t[0]);
        assert(t.drop_first().last() == t.last());
        assert(escape_seq(t.drop_first()) == escape_seq(t.drop_first().drop_last()) + escape_char(
            t.last(),
        ));
        assert(escape_seq(t) =~= escape_char(t[0]) + escape_seq(t.drop_first()));
    }
}

/// Four hex digits read back to the 16-bit value they were written from.
proof fn lemma_hex4_round_trip(v: u32)
    requires
        v <= 0xFFFF,
    ensures
        is_hex(hex4(v)[0]) && is_hex(hex4(v)[1]) && is_hex(hex4(v)[2]) && is_hex(hex4(v)[3]),
        hex4_value(hex4(v)) == v,
{
    let a = (v / 4096) % 16;
    let b = (v / 256) % 16;
    let c = (v / 16) % 16;
    let d = v % 16;
    assert(hex_val(hex_digit(a)) == a);
    assert(hex_val(hex_digit(b)) == b);
    assert(hex_val(hex_digit(c)) == c);
    assert(hex_val(hex_digit(d)) == d);
    assert(((a * 16 + b) * 16 + c) * 16 + d == v) by (nonlinear_arith)
        requires
            v <= 0xFFFF,
            a == (v / 4096) % 16,
            b == (v / 256) % 16,
            c == (v / 16) % 16,
            d == v % 16,
    ;
}

/// Every character that is escaped has a 16-bit code point.
proof fn lemma_escaped_is_16_bit(c: char)
    requires
        needs_escape(c),
    ensures
        c as u32 <= 0xFFFF,
        scalar16(c as u32),
{
}

/// Unescaping an escaped character that is not `+` gives the character back,
/// whatever follows it.
proof fn lemma_unescape_piece(c: char, rest: Seq<char>)
    requires
        c != '+',
    ensures
        unescape_seq(escape_char(c) + rest) == seq![c] + unescape_seq(rest),
{
    let s = escape_char(c) + rest;
    if needs_escape(c) {
        lemma_escaped_is_16_bit(c);
        let code = c as u32;
        lemma_hex4_round_trip(code);
        lemma_char_of_code(c, code);
        assert(s.len() >= 6);
        assert(s.subrange(2, 6) =~= hex4(code));
        assert(s.subrange(6, s.len() as int) =~= rest);
        assert(decodable(hex4(code)));
    } else {
        assert(s.drop_first() =~= rest);
    }
}

/// Text holding nothing that needs escaping is left as it is.
pub proof fn lemma_escape_identity(t: Seq<char>)
    requires
        forall|i: int| 0 <= i < t.len() ==> !needs_escape(#[trigger] t[i]),
    ensures
        escape_seq(t) == t,
    decreases t.len(),
{
    if t.len() > 0 {
        lemma_escape_identity(t.drop_last());
        assert(escape_seq(t) =~= t);
    }
}

/// Unescaping undoes escaping for every text without a `+` of its own.
pub proof fn lemma_round_trip_without_plus(t: Seq<char>)
    requires
        forall|i: int| 0 <= i < t.len() ==> #[trigger] t[i] != '+',
    ensures
        unescape_seq(escape_seq(t)) == t,
    decreases t.len(),
{
    if t.len() > 0 {
        lemma_escape_front(t);
        lemma_round_trip_without_plus(t.drop_first());
        lemma_unescape_piece(t[0], escape_seq(t.drop_first()));
        assert(unescape_seq(escape_seq(t)) =~= t);
    }
}

/// Unescaping undoes escaping for every text made only of characters that
/// are escaped: Hangul, `@`, NUL and the special symbols.
pub proof fn lemma_round_trip(t: Seq<char>)
    requires
        forall|i: int| 0 <= i < t.len() ==> needs_escape(#[trigger] t[i]),
    ensures
        unescape_seq(escape_seq(t)) == t,
{
    assert forall|i: int| 0 <= i < t.len() implies #[trigger] t[i] != '+' by {
        assert(needs_escape(t[i]));
    }
    lemma_round_trip_without_plus(t);
}

/// Escaping at most multiplies the length by six.
pub proof fn lemma_escape_len(t: Seq<char>)
    ensures
        escape_seq(t).len() <= 6 * t.len(),
    decreases t.len(),
{
    if t.len() > 0 {
        lemma_escape_len(t.drop_last());
    }
}

/// A marker whose following characters are not four hex digits of a scalar
/// value is kept, with the characters it consumed (four, or all that is
/// left), and reading goes on after them.
pub proof fn lemma_malformed_kept(marker: char, h: Seq<char>, rest: Seq<char>)
    requires
        marker == 'x' || marker == 'X',
        h.len() == 4 || (h.len() < 4 && rest.len() == 0),
        !decodable(h),
    ensures
        unescape_seq(seq!['+', marker] + h + rest) == seq!['+', marker] + h + unescape_seq(rest),
{
    let s = seq!['+', marker] + h + rest;
    assert(taken(s) == h.len());
    assert(s.subrange(2, 2 + taken(s)) =~= h);
    assert(s.subrange(2 + taken(s), s.len() as int) =~= rest);
}

} // verus!
