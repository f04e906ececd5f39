//! Hex encoding of byte payloads for display, and decoding of hex text typed
//! by the user into bytes to send.
//!
//! Encoding writes every byte as two upper-case hex digits and separates the
//! bytes with single spaces. Decoding drops every white-space character,
//! requires an even number of UTF-8 bytes in what is left, and reads it two
//! bytes at a time as a base-16 number (an optional leading `+` is accepted,
//! as unsigned integer parsing does).
use vstd::prelude::*;
use vstd::string::*;
use crate::text::digit_char;

verus! {

// ---------------------------------------------------------------------------
// Model
// ---------------------------------------------------------------------------

/// The Unicode `White_Space` characters (what `char::is_whitespace` and
/// `str::split_whitespace` treat as separators).
pub open spec fn is_white_space(c: char) -> bool {
    let u = c as u32;
    ||| 0x09 <= u <= 0x0D
    ||| u == 0x20
    ||| u == 0x85
    ||| u == 0xA0
    ||| u == 0x1680
    ||| 0x2000 <= u <= 0x200A
    ||| u == 0x2028
    ||| u == 0x2029
    ||| u == 0x202F
    ||| u == 0x205F
    ||| u == 0x3000
}

/// The characters of `s` with every white-space character removed, in order.
pub open spec fn strip_white_space(s: Seq<char>) -> Seq<char>
    decreases s.len(),
{
    if s.len() == 0 {
        seq![]
    } else if is_white_space(s.last()) {
        strip_white_space(s.drop_last())
    } else {
        strip_white_space(s.drop_last()).push(s.last())
    }
}

/// Number of bytes of the UTF-8 encoding of one character.
pub open spec fn utf8_width(c: char) -> nat {
    let u = c as u32;
    if u < 0x80 {
        1
    } else if u < 0x800 {
        2
    } else if u < 0x10000 {
        3
    } else {
        4
    }
}

/// Number of bytes of the UTF-8 encoding of a character sequence.
pub open spec fn utf8_len(s: Seq<char>) -> nat
    decreases s.len(),
{
    if s.len() == 0 {
        0
    } else {
        utf8_len(s.drop_last()) + utf8_width(s.last())
    }
}

/// Value of a base-16 digit (`0-9`, `a-f`, `A-F`).
pub open spec fn hex_digit_value(c: char) -> Option<u8> {
    let u = c as u32;
    if 0x30 <= u <= 0x39 {
        Some((u - 0x30) as u8)
    } else if 0x61 <= u <= 0x66 {
        Some((u - 0x61 + 10) as u8)
    } else if 0x41 <= u <= 0x46 {
        Some((u - 0x41 + 10) as u8)
    } else {
        None
    }
}

/// Value of a two-character base-16 number: two digits, or `+` and a digit.
pub open spec fn pair_value(a: char, b: char) -> Option<u8> {
    match hex_digit_value(b) {
        None => None,
        Some(lo) => if a == '+' {
            Some(lo)
        } else {
            match hex_digit_value(a) {
                Some(hi) => Some((hi * 16 + lo) as u8),
                None => None,
            }
        },
    }
}

/// What reading a white-space free text two bytes at a time gives.
pub enum PairScan {
    /// Every pair was a base-16 number; these are their values.
    Decoded(Seq<u8>),
    /// A pair is not a base-16 number.
    InvalidDigit,
    /// A two-byte window ends inside a character (or past the end), where
    /// slicing the text panics.
    SliceFails,
}

/// `Decoded` results of the rest of a scan, with `done` in front.
pub open spec fn prepend_scan(done: Seq<u8>, rest: PairScan) -> PairScan {
    match rest {
        PairScan::Decoded(b) => PairScan::Decoded(done + b),
        other => other,
    }
}

/// Reads `cs` two UTF-8 bytes at a time from the front and stops at the
/// first window that is no base-16 number or that cannot be sliced.
pub open spec fn scan_pairs(cs: Seq<char>) -> PairScan
    decreases cs.len(),
{
    if cs.len() == 0 {
        PairScan::Decoded(seq![])
    } else if utf8_width(cs[0]) == 1 {
        if cs.len() < 2 || utf8_width(cs[1]) != 1 {
            PairScan::SliceFails
        } else {
            match pair_value(cs[0], cs[1]) {
                Some(v) => prepend_scan(seq![v], scan_pairs(cs.subrange(2, cs.len() as int))),
                None => PairScan::InvalidDigit,
            }
        }
    } else if utf8_width(cs[0]) == 2 {
        PairScan::InvalidDigit
    } else {
        PairScan::SliceFails
    }
}

/// The outcome of decoding a hex text.
pub enum HexDecode {
    /// The decoded bytes.
    Bytes(Seq<u8>),
    /// The white-space free text has an odd number of UTF-8 bytes.
    OddLength,
    /// A two-byte window is no base-16 number.
    InvalidDigit,
    /// Slicing a two-byte window panics (it would end inside a character).
    SliceFails,
}

/// Decoding of a hex text, as the terminal's hex mode does it.
pub open spec fn hex_decode(s: Seq<char>) -> HexDecode {
    let cs = strip_white_space(s);
    if utf8_len(cs) % 2 != 0 {
        HexDecode::OddLength
    } else {
        match scan_pairs(cs) {
            PairScan::Decoded(b) => HexDecode::Bytes(b),
            PairScan::InvalidDigit => HexDecode::InvalidDigit,
            PairScan::SliceFails => HexDecode::SliceFails,
        }
    }
}

/// Upper-case hex digit of a value below 16.
pub open spec fn hex_upper(d: nat) -> char {
    if d < 10 {
        digit_char(d)
    } else if d == 10 {
        'A'
    } else if d == 11 {
        'B'
    } else if d == 12 {
        'C'
    } else if d == 13 {
        'D'
    } else if d == 14 {
        'E'
    } else {
        'F'
    }
}

/// The two upper-case hex digits of a byte (`{:02X}`).
pub open spec fn byte_hex(b: u8) -> Seq<char> {
    seq![hex_upper((b / 16) as nat), hex_upper((b % 16) as nat)]
}

/// Hex dump of a byte sequence: two digits per byte, bytes separated by a
/// single space.
pub open spec fn hex_dump(bs: Seq<u8>) -> Seq<char>
    decreases bs.len(),
{
    if bs.len() == 0 {
        seq![]
    } else if bs.len() == 1 {
        byte_hex(bs[0])
    } else {
        hex_dump(bs.drop_last()) + seq![' '] + byte_hex(bs.last())
    }
}

/// Text of the error that integer parsing reports for a bad digit.
pub open spec fn invalid_digit_text() -> Seq<char> {
    "invalid digit found in string"@
}

// ---------------------------------------------------------------------------
// Laws
// ---------------------------------------------------------------------------

/// The hex digits of a byte sequence without separators, front to back.
pub open spec fn hex_digits(bs: Seq<u8>) -> Seq<char>
    decreases bs.len(),
{
    if bs.len() == 0 {
        seq![]
    } else {
        byte_hex(bs[0]) + hex_digits(bs.subrange(1, bs.len() as int))
    }
}

proof fn lemma_strip_concat(a: Seq<char>, b: Seq<char>)
    ensures
        strip_white_space(a + b) == strip_white_space(a) + strip_white_space(b),
    decreases b.len(),
{
    if b.len() == 0 {
        assert(a + b == a);
        assert(strip_white_space(a) + Seq::<char>::empty() == strip_white_space(a));
    } else {
        lemma_strip_concat(a, b.drop_last());
        assert((a + b).drop_last() == a + b.drop_last());
        assert((a + b).last() == b.last());
        if !is_white_space(b.last()) {
            assert(strip_white_space(a) + strip_white_space(b.drop_last()).push(b.last())
                == (strip_white_space(a) + strip_white_space(b.drop_last())).push(b.last()));
        }
    }
}

proof fn lemma_strip_idempotent(s: Seq<char>)
    ensures
        strip_white_space(strip_white_space(s)) == strip_white_space(s),
        forall|i: int|
            0 <= i < strip_white_space(s).len() ==> !is_white_space(
                #[trigger] strip_white_space(s)[i],
            ),
    decreases s.len(),
{
    if s.len() > 0 {
        lemma_strip_idempotent(s.drop_last());
        let t = strip_white_space(s.drop_last());
        if !is_white_space(s.last()) {
            assert(t.push(s.last()).drop_last() == t);
            assert forall|i: int| 0 <= i < t.push(s.last()).len() implies !is_white_space(
                #[trigger] t.push(s.last())[i],
            ) by {
                if i < t.len() {
                    assert(t.push(s.last())[i] == t[i]);
                }
            }
        }
    }
}

proof fn lemma_hex_upper(d: nat)
    requires
        d < 16,
    ensures
        hex_digit_value(hex_upper(d)) == Some(d as u8),
        utf8_width(hex_upper(d)) == 1,
        !is_white_space(hex_upper(d)),
        hex_upper(d) != '+',
{
}

proof fn lemma_byte_hex(b: u8)
    ensures
        pair_value(byte_hex(b)[0], byte_hex(b)[1]) == Some(b),
        utf8_width(byte_hex(b)[0]) == 1,
        utf8_width(byte_hex(b)[1]) == 1,
        strip_white_space(byte_hex(b)) == byte_hex(b),
        utf8_len(byte_hex(b)) == 2,
{
    lemma_hex_upper((b / 16) as nat);
    lemma_hex_upper((b % 16) as nat);
    let h = byte_hex(b);
    let one = seq![h[0]];
    assert(h.drop_last() == one);
    assert(h.last() == h[1]);
    assert(one.drop_last() == Seq::<char>::empty());
    assert(one.last() == h[0]);
    assert(strip_white_space(one.drop_last()) == Seq::<char>::empty());
    assert(Seq::<char>::empty().push(h[0]) == one);
    assert(strip_white_space(one) == one);
    assert(one.push(h[1]) == h);
    assert(utf8_len(one.drop_last()) == 0);
    assert(utf8_len(one) == 1);
}

proof fn lemma_utf8_len_concat(a: Seq<char>, b: Seq<char>)
    ensures
        utf8_len(a + b) == utf8_len(a) + utf8_len(b),
    decreases b.len(),
{
    if b.len() == 0 {
        assert(a + b == a);
    } else {
        lemma_utf8_len_concat(a, b.drop_last());
        assert((a + b).drop_last() == a + b.drop_last());
        assert((a + b).last() == b.last());
    }
}

proof fn lemma_hex_digits_push(bs: Seq<u8>)
    requires
        bs.len() > 0,
    ensures
        hex_digits(bs) == hex_digits(bs.drop_last()) + byte_hex(bs.last()),
    decreases bs.len(),
{
    if bs.len() == 1 {
        assert(bs.subrange(1, 1) == Seq::<u8>::empty());
        assert(bs.drop_last() == Seq::<u8>::empty());
        assert(byte_hex(bs[0]) + Seq::<char>::empty() == byte_hex(bs[0]));
        assert(Seq::<char>::empty() + byte_hex(bs[0]) == byte_hex(bs[0]));
    } else {
        let tail = bs.subrange(1, bs.len() as int);
        lemma_hex_digits_push(tail);
        assert(tail.drop_last() == bs.drop_last().subrange(1, bs.len() - 1));
        assert(tail.last() == bs.last());
        assert(bs.drop_last()[0] == bs[0]);
        assert(byte_hex(bs[0]) + (hex_digits(tail.drop_last()) + byte_hex(bs.last())) == (
        byte_hex(bs[0]) + hex_digits(tail.drop_last())) + byte_hex(bs.last()));
    }
}

proof fn lemma_hex_digits_facts(bs: Seq<u8>)
    ensures
        utf8_len(hex_digits(bs)) == 2 * bs.len(),
        scan_pairs(hex_digits(bs)) == PairScan::Decoded(bs),
    decreases bs.len(),
{
    if bs.len() == 0 {
        assert(bs == Seq::<u8>::empty());
    } else {
        let tail = bs.subrange(1, bs.len() as int);
        lemma_hex_digits_facts(tail);
        lemma_byte_hex(bs[0]);
        let h = byte_hex(bs[0]);
        let cs = hex_digits(bs);
        lemma_utf8_len_concat(h, hex_digits(tail));
        assert(cs[0] == h[0]);
        assert(cs[1] == h[1]);
        assert(cs.len() >= 2);
        assert(cs.subrange(2, cs.len() as int) == hex_digits(tail));
        assert(seq![bs[0]] + tail == bs);
        assert(pair_value(cs[0], cs[1]) == Some(bs[0]));
        assert(scan_pairs(cs) == prepend_scan(seq![bs[0]], scan_pairs(hex_digits(tail))));
    }
}

proof fn lemma_strip_hex_dump(bs: Seq<u8>)
    ensures
        strip_white_space(hex_dump(bs)) == hex_digits(bs),
    decreases bs.len(),
{
    if bs.len() == 0 {
    } else if bs.len() == 1 {
        lemma_byte_hex(bs[0]);
        lemma_hex_digits_push(bs);
        assert(bs.drop_last() == Seq::<u8>::empty());
        assert(Seq::<char>::empty() + byte_hex(bs[0]) == byte_hex(bs[0]));
    } else {
        lemma_strip_hex_dump(bs.drop_last());
        lemma_byte_hex(bs.last());
        lemma_hex_digits_push(bs);
        let d = hex_dump(bs.drop_last());
        lemma_strip_concat(d + seq![' '], byte_hex(bs.last()));
        lemma_strip_concat(d, seq![' ']);
        let sp = seq![' '];
        assert(sp.drop_last() == Seq::<char>::empty());
        assert(sp.last() == ' ');
        assert(' ' as u32 == 0x20);
        assert(is_white_space(sp.last()));
        assert(strip_white_space(sp.drop_last()) == Seq::<char>::empty());
        assert(strip_white_space(sp) == Seq::<char>::empty());
        assert(strip_white_space(d) + Seq::<char>::empty() == strip_white_space(d));
    }
}

/// Decoding a hex dump gives back the bytes that were dumped: what the
/// terminal logs of a payload reads back as that payload.
pub proof fn law_hex_round_trip(bs: Seq<u8>)
    ensures
        hex_decode(hex_dump(bs)) == HexDecode::Bytes(bs),
{
    lemma_strip_hex_dump(bs);
    lemma_hex_digits_facts(bs);
    assert((2 * bs.len()) % 2 == 0) by (nonlinear_arith);
}

/// A hex dump has two digits per byte and one space between neighbouring
/// bytes: three characters per byte, less one.
pub proof fn law_hex_dump_length(bs: Seq<u8>)
    requires
        bs.len() > 0,
    ensures
        hex_dump(bs).len() == 3 * bs.len() - 1,
    decreases bs.len(),
{
    if bs.len() > 1 {
        law_hex_dump_length(bs.drop_last());
    }
}

/// White space never changes a decoding: a text decodes as its white-space
/// free characters do.
pub proof fn law_hex_ignores_white_space(s: Seq<char>)
    ensures
        hex_decode(s) == hex_decode(strip_white_space(s)),
{
    lemma_strip_idempotent(s);
}

/// Every ASCII hex digit, in either case, is a digit with its base-16 value,
/// and no other character is a digit.
pub proof fn law_hex_digit_values(c: char)
    ensures
        ('0' <= c <= '9') ==> hex_digit_value(c) == Some(((c as u32) - 48) as u8),
        ('a' <= c <= 'f') ==> hex_digit_value(c) == Some(((c as u32) - 87) as u8),
        ('A' <= c <= 'F') ==> hex_digit_value(c) == Some(((c as u32) - 55) as u8),
        !('0' <= c <= '9' || 'a' <= c <= 'f' || 'A' <= c <= 'F') ==> hex_digit_value(c) is None,
{
}

/// The digits of a hex dump are `0`-`9` for values below ten and `A`-`F`
/// above.
pub proof fn law_hex_dump_digits(d: nat)
    requires
        d < 16,
    ensures
        (hex_upper(d) as u32) == (if d < 10 { 48 + d } else { 55 + d }),
{
}

/// Lower-case hex digit of a value below 16.
pub open spec fn hex_lower(d: nat) -> char {
    if d == 0 { '0' } else if d == 1 { '1' } else if d == 2 { '2' } else if d == 3 { '3' }
    else if d == 4 { '4' } else if d == 5 { '5' } else if d == 6 { '6' } else if d == 7 { '7' }
    else if d == 8 { '8' } else if d == 9 { '9' } else if d == 10 { 'a' } else if d == 11 { 'b' }
    else if d == 12 { 'c' } else if d == 13 { 'd' } else if d == 14 { 'e' } else { 'f' }
}

proof fn lemma_two_char_decode(a: char, b: char, v: u8)
    requires
        utf8_width(a) == 1,
        utf8_width(b) == 1,
        !is_white_space(a),
        !is_white_space(b),
        pair_value(a, b) == Some(v),
    ensures
        hex_decode(seq![a, b]) == HexDecode::Bytes(seq![v]),
{
    let h = seq![a, b];
    let one = seq![a];
    assert(h.drop_last() == one);
    assert(h.last() == b);
    assert(one.drop_last() == Seq::<char>::empty());
    assert(one.last() == a);
    assert(strip_white_space(one.drop_last()) == Seq::<char>::empty());
    assert(Seq::<char>::empty().push(a) == one);
    assert(strip_white_space(one) == one);
    assert(one.push(b) == h);
    assert(strip_white_space(h) == h);
    assert(utf8_len(one.drop_last()) == 0);
    assert(utf8_len(one) == 1);
    assert(utf8_len(h) == 2);
    assert(h.subrange(2, 2) == Seq::<char>::empty());
    assert(scan_pairs(Seq::<char>::empty()) == PairScan::Decoded(Seq::<u8>::empty()));
    assert(seq![v] + Seq::<u8>::empty() == seq![v]);
    assert(scan_pairs(h) == PairScan::Decoded(seq![v]));
}

/// Every byte written as two hex digits, upper- or lower-case, decodes to
/// that byte.
pub proof fn law_hex_byte_in_either_case(b: u8)
    ensures
        hex_decode(seq![hex_lower((b / 16) as nat), hex_lower((b % 16) as nat)])
            == HexDecode::Bytes(seq![b]),
        hex_decode(seq![hex_upper((b / 16) as nat), hex_upper((b % 16) as nat)])
            == HexDecode::Bytes(seq![b]),
{
    let hi = (b / 16) as nat;
    let lo = (b % 16) as nat;
    assert(hex_digit_value(hex_lower(hi)) == Some(hi as u8));
    assert(hex_digit_value(hex_lower(lo)) == Some(lo as u8));
    assert(hex_digit_value(hex_upper(hi)) == Some(hi as u8));
    assert(hex_digit_value(hex_upper(lo)) == Some(lo as u8));
    assert(hi * 16 + lo == b);
    lemma_two_char_decode(hex_lower(hi), hex_lower(lo), b);
    lemma_two_char_decode(hex_upper(hi), hex_upper(lo), b);
}

/// A character with the hex letters `a`-`f` turned to upper case.
pub open spec fn upper_hex_letter(c: char) -> char {
    if c == 'a' { 'A' } else if c == 'b' { 'B' } else if c == 'c' { 'C' }
    else if c == 'd' { 'D' } else if c == 'e' { 'E' } else if c == 'f' { 'F' } else { c }
}

/// A text with the hex letters `a`-`f` turned to upper case.
pub open spec fn upper_hex_letters(s: Seq<char>) -> Seq<char> {
    s.map_values(|c: char| upper_hex_letter(c))
}

proof fn lemma_upper_char(c: char)
    ensures
        is_white_space(upper_hex_letter(c)) == is_white_space(c),
        utf8_width(upper_hex_letter(c)) == utf8_width(c),
        hex_digit_value(upper_hex_letter(c)) == hex_digit_value(c),
        (upper_hex_letter(c) == '+') == (c == '+'),
{
}

proof fn lemma_upper_strip(s: Seq<char>)
    ensures
        strip_white_space(upper_hex_letters(s)) == upper_hex_letters(strip_white_space(s)),
        utf8_len(upper_hex_letters(s)) == utf8_len(s),
    decreases s.len(),
{
    let u = upper_hex_letters(s);
    if s.len() == 0 {
        assert(u == Seq::<char>::empty());
        assert(upper_hex_letters(Seq::<char>::empty()) == Seq::<char>::empty());
    } else {
        lemma_upper_strip(s.drop_last());
        lemma_upper_char(s.last());
        assert(u.drop_last() == upper_hex_letters(s.drop_last()));
        assert(u.last() == upper_hex_letter(s.last()));
        let t = strip_white_space(s.drop_last());
        assert(upper_hex_letters(t.push(s.last())) == upper_hex_letters(t).push(
            upper_hex_letter(s.last()),
        ));
    }
}

proof fn lemma_upper_scan(cs: Seq<char>)
    ensures
        scan_pairs(upper_hex_letters(cs)) == scan_pairs(cs),
    decreases cs.len(),
{
    let u = upper_hex_letters(cs);
    if cs.len() > 0 {
        lemma_upper_char(cs[0]);
        assert(u[0] == upper_hex_letter(cs[0]));
        if cs.len() >= 2 {
            lemma_upper_char(cs[1]);
            assert(u[1] == upper_hex_letter(cs[1]));
            let rest = cs.subrange(2, cs.len() as int);
            lemma_upper_scan(rest);
            assert(u.subrange(2, u.len() as int) == upper_hex_letters(rest));
        }
    }
}

/// Decoding does not depend on the case of hex letters: a text decodes as
/// the same text with `a`-`f` turned to `A`-`F`.
pub proof fn law_hex_case_insensitive(s: Seq<char>)
    ensures
        hex_decode(upper_hex_letters(s)) == hex_decode(s),
{
    lemma_upper_strip(s);
    lemma_upper_strip(strip_white_space(s));
    lemma_upper_scan(strip_white_space(s));
}

// ---------------------------------------------------------------------------
// Executable code
// ---------------------------------------------------------------------------

/// Whether `c` is a white-space character.
pub fn is_white_space_char(c: char) -> (r: bool)
    ensures
        r == is_white_space(c),
{
    let u = c as u32;
    (0x09 <= u && u <= 0x0D) || u == 0x20 || u == 0x85 || u == 0xA0 || u == 0x1680 || (0x2000
        <= u && u <= 0x200A) || u == 0x2028 || u == 0x2029 || u == 0x202F || u == 0x205F || u
        == 0x3000
}

fn utf8_width_of(c: char) -> (w: u8)
    ensures
        w as nat == utf8_width(c),
{
    let u = c as u32;
    if u < 0x80 {
        1
    } else if u < 0x800 {
        2
    } else if u < 0x10000 {
        3
    } else {
        4
    }
}

fn hex_digit(c: char) -> (r: Option<u8>)
    ensures
        r == hex_digit_value(c),
{
    let u = c as u32;
    if 0x30 <= u && u <= 0x39 {
        Some((u - 0x30) as u8)
    } else if 0x61 <= u && u <= 0x66 {
        Some((u - 0x61 + 10) as u8)
    } else if 0x41 <= u && u <= 0x46 {
        Some((u - 0x41 + 10) as u8)
    } else {
        None
    }
}

fn pair_number(a: char, b: char) -> (r: Option<u8>)
    ensures
        r == pair_value(a, b),
{
    match hex_digit(b) {
        None => None,
        Some(lo) => if a == '+' {
            Some(lo)
        } else {
            match hex_digit(a) {
                Some(hi) => Some(hi * 16 + lo),
                None => None,
            }
        },
    }
}

/// The white-space free characters of `s`, and whether their UTF-8 encoding
/// has an odd number of bytes.
fn strip_and_parity(s: &str) -> (r: (Vec<char>, bool))
    ensures
        r.0@ == strip_white_space(s@),
        r.1 == (utf8_len(strip_white_space(s@)) % 2 == 1),
{
    let n = s.unicode_len();
    let mut out: Vec<char> = Vec::new();
    let mut odd = false;
    let mut i: usize = 0;
    while i < n
        invariant
            n == s@.len(),
            i <= n,
            out@ == strip_white_space(s@.take(i as int)),
            odd == (utf8_len(out@) % 2 == 1),
        decreases n - i,
    {
        let c = s.get_char(i);
        assert(s@.take(i + 1).drop_last() == s@.take(i as int));
        assert(s@.take(i + 1).last() == c);
        if !is_white_space_char(c) {
            let w = utf8_width_of(c);
            let ghost before = out@;
            out.push(c);
            assert(out@.drop_last() == before);
            if w % 2 == 1 {
                odd = !odd;
            }
        }
        i = i + 1;
    }
    assert(s@.take(n as int) == s@);
    (out, odd)
}

/// Executable counterpart of [`PairScan`].
enum PairScanResult {
    Decoded(Vec<u8>),
    InvalidDigit,
    SliceFails,
}

/// Reads the white-space free characters two UTF-8 bytes at a time.
fn scan_pair_values(cs: &Vec<char>) -> (r: PairScanResult)
    ensures
        match scan_pairs(cs@) {
            PairScan::Decoded(b) => r matches PairScanResult::Decoded(v) && v@ == b,
            PairScan::InvalidDigit => r is InvalidDigit,
            PairScan::SliceFails => r is SliceFails,
        },
{
    let n = cs.len();
    let mut out: Vec<u8> = Vec::new();
    let mut j: usize = 0;
    proof {
        assert(cs@.subrange(0, n as int) == cs@);
        match scan_pairs(cs@) {
            PairScan::Decoded(b) => {
                assert(Seq::<u8>::empty() + b == b);
            },
            _ => {},
        }
    }
    while j < n
        invariant
            n == cs@.len(),
            j <= n,
            scan_pairs(cs@) == prepend_scan(out@, scan_pairs(cs@.subrange(j as int, n as int))),
        decreases n - j,
    {
        let ghost rest = cs@.subrange(j as int, n as int);
        assert(rest[0] == cs@[j as int]);
        let w = utf8_width_of(cs[j]);
        if w == 1 {
            if j + 1 >= n {
                return PairScanResult::SliceFails;
            }
            assert(rest[1] == cs@[j + 1]);
            let w2 = utf8_width_of(cs[j + 1]);
            if w2 != 1 {
                return PairScanResult::SliceFails;
            }
            match pair_number(cs[j], cs[j + 1]) {
                Some(v) => {
                    assert(rest.subrange(2, rest.len() as int) == cs@.subrange(j + 2, n as int));
                    let ghost before = out@;
                    out.push(v);
                    assert(before + (seq![v] + Seq::<u8>::empty()) == out@);
                    proof {
                        let tail = scan_pairs(cs@.subrange(j + 2, n as int));
                        match tail {
                            PairScan::Decoded(b) => {
                                assert(before + (seq![v] + b) == out@ + b);
                            },
                            _ => {},
                        }
                    }
                    j = j + 2;
                },
                None => {
                    return PairScanResult::InvalidDigit;
                },
            }
        } else if w == 2 {
            return PairScanResult::InvalidDigit;
        } else {
            return PairScanResult::SliceFails;
        }
    }
    assert(cs@.subrange(n as int, n as int) == Seq::<char>::empty());
    assert(out@ + Seq::<u8>::empty() == out@);
    PairScanResult::Decoded(out)
}

/// Decodes hex text, reporting an odd length with `odd_length_text`.
pub fn decode_hex_text(s: &str, odd_length_text: &str) -> (r: Result<Vec<u8>, String>)
    requires
        !(hex_decode(s@) is SliceFails),
    ensures
        match hex_decode(s@) {
            HexDecode::Bytes(b) => r matches Ok(v) && v@ == b,
            HexDecode::OddLength => r matches Err(e) && e@ == odd_length_text@,
            _ => r matches Err(e) && e@ == invalid_digit_text(),
        },
{
    let (cleaned, odd) = strip_and_parity(s);
    if odd {
        return Err(String::from_str(odd_length_text));
    }
    match scan_pair_values(&cleaned) {
        PairScanResult::Decoded(v) => Ok(v),
        PairScanResult::InvalidDigit => Err(String::from_str("invalid digit found in string")),
        PairScanResult::SliceFails => {
            proof {
                assert(false);
            }
            Err(String::from_str("invalid digit found in string"))
        },
    }
}

/// Whether decoding `s` as hex would slice a two-byte window that ends inside
/// a character, which panics; callers check this before decoding.
pub fn hex_decode_splits_char(s: &str) -> (r: bool)
    ensures
        r == (hex_decode(s@) is SliceFails),
{
    let (cleaned, odd) = strip_and_parity(s);
    if odd {
        return false;
    }
    match scan_pair_values(&cleaned) {
        PairScanResult::SliceFails => true,
        _ => false,
    }
}

/// Appends the upper-case hex digit of a value below 16.
fn push_hex_digit(out: &mut String, d: u8)
    requires
        d < 16,
    ensures
        final(out)@ == old(out)@.push(hex_upper(d as nat)),
{
    let c = if d < 10 {
        if d == 0 { '0' } else if d == 1 { '1' } else if d == 2 { '2' } else if d == 3 { '3' }
        else if d == 4 { '4' } else if d == 5 { '5' } else if d == 6 { '6' } else if d == 7 { '7' }
        else if d == 8 { '8' } else { '9' }
    } else if d == 10 {
        'A'
    } else if d == 11 {
        'B'
    } else if d == 12 {
        'C'
    } else if d == 13 {
        'D'
    } else if d == 14 {
        'E'
    } else {
        'F'
    };
    out.push(c);
}

/// Renders bytes as upper-case hex, two digits per byte, separated by single
/// spaces: `[0x0A, 0xFF]` gives `"0A FF"`.
pub fn bytes_to_hex(bytes: &[u8]) -> (r: String)
    ensures
        r@ == hex_dump(bytes@),
{
    let mut out = String::new();
    let n = bytes.len();
    let mut i: usize = 0;
    while i < n
        invariant
            n == bytes@.len(),
            i <= n,
            out@ == hex_dump(bytes@.take(i as int)),
        decreases n - i,
    {
        let b = bytes[i];
        let ghost before = out@;
        if i > 0 {
            out.push(' ');
        }
        push_hex_digit(&mut out, b / 16);
        push_hex_digit(&mut out, b % 16);
        proof {
            let t = bytes@.take(i + 1);
            assert(t.drop_last() == bytes@.take(i as int));
            assert(t.last() == b);
            if i > 0 {
                assert(out@ == before + seq![' '] + byte_hex(b));
            } else {
                assert(out@ == byte_hex(b));
            }
        }
        i = i + 1;
    }
    assert(bytes@.take(n as int) == bytes@);
    out
}

/// Decodes hex text into bytes. White space anywhere is ignored; what is
/// left must have an even number of bytes ("Odd length" otherwise) and
/// consist of two-digit base-16 numbers ("invalid digit found in string"
/// otherwise): `"0a ff"` gives `[0x0A, 0xFF]`.
pub fn hex_to_bytes(s: &str) -> (r: Result<Vec<u8>, String>)
    requires
        !(hex_decode(s@) is SliceFails),
    ensures
        match hex_decode(s@) {
            HexDecode::Bytes(b) => r matches Ok(v) && v@ == b,
            HexDecode::OddLength => r matches Err(e) && e@ == "Odd length"@,
            _ => r matches Err(e) && e@ == invalid_digit_text(),
        },
{
    decode_hex_text(s, "Odd length")
}

} // verus!
