//! Building text out of source bytes, one character per byte.
use vstd::prelude::*;

verus! {

/// The text of a run of bytes, where each byte stands for the character with
/// the same code point.
pub open spec fn bytes_text(bytes: Seq<u8>) -> Seq<char> {
    bytes.map_values(|b: u8| b as char)
}

/// What `String::from_utf8_lossy` makes of a byte sequence.
pub uninterp spec fn utf8_lossy(bytes: Seq<u8>) -> Seq<char>;

/// Relies on `String::push`: the character is appended at the end.
#[verifier::external_body]
pub(crate) fn push_char(s: &mut String, c: char)
    ensures
        final(s)@ == old(s)@.push(c),
{
    s.push(c);
}

/// Relies on `String::from_utf8_lossy`: a function of the bytes alone, which
/// leaves valid UTF-8, and so every ASCII sequence, unchanged.
#[verifier::external_body]
pub(crate) fn lossy_string(bytes: &[u8]) -> (r: String)
    ensures
        r@ == utf8_lossy(bytes@),
        (forall|k: int| 0 <= k < bytes@.len() ==> bytes@[k] < 128) ==> r@ == bytes_text(bytes@),
{
    String::from_utf8_lossy(bytes).into_owned()
}

/// The text of `bytes[from..to]`.
pub fn text_of(bytes: &[u8], from: usize, to: usize) -> (r: String)
    requires
        from <= to <= bytes@.len(),
    ensures
        r@ == bytes_text(bytes@.subrange(from as int, to as int)),
{
    let mut out = String::new();
    let mut k: usize = from;
    while k < to
        invariant
            from <= k <= to <= bytes@.len(),
            out@ == bytes_text(bytes@.subrange(from as int, k as int)),
        decreases to - k,
    {
        let b = bytes[k];
        push_char(&mut out, b as char);
        k = k + 1;
        assert(bytes_text(bytes@.subrange(from as int, k as int)) =~= bytes_text(
            bytes@.subrange(from as int, k - 1),
        ).push(b as char));
    }
    out
}

/// `n` copies of `c`; none when `n` is not positive.
pub open spec fn repeat(c: char, n: int) -> Seq<char> {
    Seq::new(if n > 0 { n as nat } else { 0 }, |_k: int| c)
}

/// Appends `n` copies of `c`.
pub fn push_repeat(s: &mut String, c: char, n: u32)
    ensures
        final(s)@ == old(s)@ + repeat(c, n as int),
{
    let mut k: u32 = 0;
    while k < n
        invariant
            k <= n,
            s@ == old(s)@ + repeat(c, k as int),
        decreases n - k,
    {
        push_char(s, c);
        k = k + 1;
        assert(repeat(c, k as int) =~= repeat(c, k - 1).push(c));
    }
}

/// The character of a decimal digit.
pub open spec fn digit_char(d: nat) -> char {
    ((48 + d) as u8) as char
}

/// The decimal numeral of `n`, without leading zeros.
pub open spec fn decimal(n: nat) -> Seq<char>
    decreases n,
{
    if n < 10 {
        seq![digit_char(n)]
    } else {
        decimal(n / 10).push(digit_char(n % 10))
    }
}

/// Appends the decimal numeral of `n`.
pub fn push_decimal(s: &mut String, n: u32)
    ensures
        final(s)@ == old(s)@ + decimal(n as nat),
    decreases n,
{
    if n >= 10 {
        push_decimal(s, n / 10);
    }
    let d = (48 + n % 10) as u8;
    push_char(s, d as char);
    assert(old(s)@ + decimal(n as nat) =~= s@);
}

} // verus!
