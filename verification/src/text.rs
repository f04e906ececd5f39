//! Text building blocks shared by the terminal front-ends: decimal
//! rendering of counters and appending characters to a `String`.
use vstd::prelude::*;
use vstd::string::*;

verus! {

/// `String::push` appends one character at the end of the string.
pub assume_specification[ String::push ](s: &mut String, ch: char)
    ensures
        final(s)@ == old(s)@.push(ch),
;

/// The ASCII character of a decimal digit.
pub open spec fn digit_char(d: nat) -> char {
    if d == 0 { '0' } else if d == 1 { '1' } else if d == 2 { '2' } else if d == 3 { '3' }
    else if d == 4 { '4' } else if d == 5 { '5' } else if d == 6 { '6' } else if d == 7 { '7' }
    else if d == 8 { '8' } else { '9' }
}

/// Decimal rendering of a natural number, most significant digit first,
/// without leading zeros (zero renders as "0").
pub open spec fn decimal(n: nat) -> Seq<char>
    decreases n,
{
    if n < 10 {
        seq![digit_char(n)]
    } else {
        decimal(n / 10).push(digit_char(n % 10))
    }
}

fn digit_to_char(d: u64) -> (c: char)
    requires
        d < 10,
    ensures
        c == digit_char(d as nat),
{
    if d == 0 { '0' } else if d == 1 { '1' } else if d == 2 { '2' } else if d == 3 { '3' }
    else if d == 4 { '4' } else if d == 5 { '5' } else if d == 6 { '6' } else if d == 7 { '7' }
    else if d == 8 { '8' } else { '9' }
}

/// Appends the decimal rendering of `n` to `s`.
pub fn push_decimal(s: &mut String, n: u64)
    ensures
        final(s)@ == old(s)@ + decimal(n as nat),
    decreases n,
{
    if n >= 10 {
        push_decimal(s, n / 10);
    }
    let c = digit_to_char(n % 10);
    s.push(c);
    proof {
        if n >= 10 {
            assert(decimal(n as nat) == decimal((n / 10) as nat).push(digit_char((n % 10) as nat)));
        }
    }
}

} // verus!

verus! {

/// The character sequences of a sequence of strings.
pub open spec fn texts(v: Seq<String>) -> Seq<Seq<char>> {
    v.map_values(|s: String| s@)
}

/// The character sequence of an optional string.
pub open spec fn opt_text(o: Option<String>) -> Option<Seq<char>> {
    match o {
        Some(s) => Some(s@),
        None => None,
    }
}

/// Appends a line to a terminal log.
pub fn log_line(out: &mut std::collections::VecDeque<String>, line: String)
    ensures
        texts(final(out)@) == texts(old(out)@).push(line@),
{
    let ghost before = out@;
    out.push_back(line);
    assert(texts(out@) =~= texts(before).push(line@));
}

/// Empties a terminal log.
pub fn log_clear(out: &mut std::collections::VecDeque<String>)
    ensures
        texts(final(out)@) == Seq::<Seq<char>>::empty(),
{
    out.clear();
    assert(texts(out@) =~= Seq::<Seq<char>>::empty());
}

/// A new string holding `a` followed by `b`.
pub fn concat2(a: &str, b: &str) -> (r: String)
    ensures
        r@ == a@ + b@,
{
    let mut s = String::from_str(a);
    s.append(b);
    s
}

/// A new string holding `a`, `b` and `c` in order.
pub fn concat3(a: &str, b: &str, c: &str) -> (r: String)
    ensures
        r@ == a@ + b@ + c@,
{
    let mut s = String::from_str(a);
    s.append(b);
    s.append(c);
    s
}

/// A new string holding `a` followed by the decimal rendering of `n`.
pub fn text_and_number(a: &str, n: u64) -> (r: String)
    ensures
        r@ == a@ + decimal(n as nat),
{
    let mut s = String::from_str(a);
    push_decimal(&mut s, n);
    s
}

/// Number of bytes of the UTF-8 encoding of a text, as `str::len` gives it.
pub open spec fn byte_count(s: Seq<char>) -> usize {
    vstd::utf8::encode_utf8(s).len() as usize
}

/// Number of UTF-8 bytes of a string.
pub fn byte_len(s: &String) -> (n: usize)
    ensures
        n == byte_count(s@),
{
    s.as_str().len()
}

} // verus!

verus! {

/// The first `n` lines of a log (all of them if there are fewer).
pub open spec fn first_lines(lines: Seq<Seq<char>>, n: nat) -> Seq<Seq<char>> {
    if lines.len() <= n {
        lines
    } else {
        lines.take(n as int)
    }
}

/// Copies of the first `n` lines of a log, oldest first.
pub fn log_head(out: &std::collections::VecDeque<String>, n: usize) -> (r: Vec<String>)
    ensures
        texts(r@) == first_lines(texts(out@), n as nat),
{
    let mut r: Vec<String> = Vec::new();
    let len = out.len();
    let end = if len < n { len } else { n };
    let mut i: usize = 0;
    while i < end
        invariant
            len == out@.len(),
            end <= len,
            i <= end,
            texts(r@) == texts(out@).take(i as int),
        decreases end - i,
    {
        let ghost before = r@;
        let line = out[i].clone();
        assert(line == out@[i as int]);
        r.push(line);
        assert(texts(r@) =~= texts(before).push(line@));
        assert(texts(r@) =~= texts(out@).take(i + 1));
        i = i + 1;
    }
    assert(texts(out@).take(len as int) =~= texts(out@));
    r
}

} // verus!
