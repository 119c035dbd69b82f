//! Decimal text of integers: what Rust's `{}` and `{:0N}` print for an
//! integer, and what `str::parse` accepts for one, together with the
//! executable routines that produce and read that text.

use vstd::prelude::*;
use vstd::utf8::is_ascii_chars;

verus! {

/// The ASCII digit for a value in `0..10`.
pub open spec fn digit_char(d: int) -> char {
    (d + 48) as char
}

/// The decimal digits of `n`, most significant first, with no leading zero.
pub open spec fn dec_chars(n: nat) -> Seq<char>
    decreases n,
{
    if n < 10 {
        seq![digit_char(n as int)]
    } else {
        dec_chars(n / 10).push(digit_char((n % 10) as int))
    }
}

/// `s` with zeros put in front until it is `width` long.
pub open spec fn zero_pad(s: Seq<char>, width: nat) -> Seq<char> {
    if s.len() >= width {
        s
    } else {
        Seq::new((width - s.len()) as nat, |_i: int| '0') + s
    }
}

/// What `{:0width}` prints for a non-negative integer.
pub open spec fn padded_dec(n: nat, width: nat) -> Seq<char> {
    zero_pad(dec_chars(n), width)
}

/// What `{}` prints for a signed integer.
pub open spec fn signed_dec(v: int) -> Seq<char> {
    if v < 0 {
        seq!['-'] + dec_chars((-v) as nat)
    } else {
        dec_chars(v as nat)
    }
}

/// What `{:0width}` prints for a signed integer: the sign counts toward the width.
pub open spec fn signed_padded(v: int, width: nat) -> Seq<char> {
    if v < 0 {
        seq!['-'] + zero_pad(dec_chars((-v) as nat), (width - 1) as nat)
    } else {
        padded_dec(v as nat, width)
    }
}

/// `10^k`.
pub open spec fn pow10(k: nat) -> nat
    decreases k,
{
    if k == 0 {
        1
    } else {
        10 * pow10((k - 1) as nat)
    }
}

/// A number below `10^k` has at most `k` digits, and one at or above has more.
pub proof fn lemma_dec_len_pow(n: nat, k: nat)
    ensures
        1 <= dec_chars(n).len(),
        n < pow10(k) && k >= 1 ==> dec_chars(n).len() <= k,
        n >= pow10(k) ==> dec_chars(n).len() > k,
    decreases n,
{
    if n >= 10 {
        if k >= 1 {
            lemma_dec_len_pow(n / 10, (k - 1) as nat);
            assert(pow10(k) == 10 * pow10((k - 1) as nat));
            if n < pow10(k) {
                assert(n / 10 < pow10((k - 1) as nat)) by (nonlinear_arith)
                    requires
                        n < 10 * pow10((k - 1) as nat),
                ;
                if k == 1 {
                    assert(pow10(0) == 1);
                }
            }
            if n >= pow10(k) {
                assert(n / 10 >= pow10((k - 1) as nat)) by (nonlinear_arith)
                    requires
                        n >= 10 * pow10((k - 1) as nat),
                ;
            }
        } else {
            lemma_dec_len_pow(n / 10, k);
        }
    } else {
        if k >= 1 {
            lemma_pow10_ge_10(k);
        }
    }
}

/// `10^k` is at least 10 for `k >= 1`.
pub proof fn lemma_pow10_ge_10(k: nat)
    requires
        k >= 1,
    ensures
        pow10(k) >= 10,
    decreases k,
{
    reveal_with_fuel(pow10, 2);
    if k > 1 {
        lemma_pow10_ge_10((k - 1) as nat);
    }
}

/// `10^39` is above the largest `u128`.
pub proof fn lemma_pow10_39()
    ensures
        pow10(39) > u128::MAX,
        pow10(8) == 100_000_000,
        pow10(9) == 1_000_000_000,
        pow10(1) == 10,
        pow10(2) == 100,
        pow10(3) == 1000,
{
    reveal_with_fuel(pow10, 40);
}

/// The decimal digits of a number have no more than 39 of them below `2^128`.
pub proof fn lemma_dec_len(n: nat)
    ensures
        1 <= dec_chars(n).len(),
        n < 10 ==> dec_chars(n).len() == 1,
        10 <= n < 100 ==> dec_chars(n).len() == 2,
        100 <= n < 1000 ==> dec_chars(n).len() == 3,
        n >= 1000 ==> dec_chars(n).len() >= 4,
        n <= u128::MAX ==> dec_chars(n).len() <= 39,
{
    lemma_dec_len_pow(n, 1);
    lemma_dec_len_pow(n, 2);
    lemma_dec_len_pow(n, 3);
    lemma_dec_len_pow(n, 39);
    lemma_pow10_39();
}

/// The digits of `n` are all ASCII digits.
pub proof fn lemma_dec_chars_digits(n: nat)
    ensures
        forall|i: int|
            0 <= i < dec_chars(n).len() ==> exists|d: int|
                0 <= d < 10 && #[trigger] dec_chars(n)[i] == digit_char(d),
    decreases n,
{
    if n >= 10 {
        lemma_dec_chars_digits(n / 10);
        let s = dec_chars(n);
        let p = dec_chars(n / 10);
        assert forall|i: int| 0 <= i < s.len() implies exists|d: int|
            0 <= d < 10 && #[trigger] s[i] == digit_char(d) by {
            if i < p.len() {
                assert(s[i] == p[i]);
            } else {
                assert(s[i] == digit_char((n % 10) as int));
            }
        }
    } else {
        assert(dec_chars(n)[0] == digit_char(n as int));
    }
}

/// The ASCII digit for `d < 10`.
pub fn digit(d: u8) -> (c: char)
    requires
        d < 10,
    ensures
        c == digit_char(d as int),
{
    (d + 48) as char
}

/// Number of decimal digits of `n`.
pub fn dec_len(n: u128) -> (r: usize)
    ensures
        r == dec_chars(n as nat).len(),
    decreases n,
{
    proof {
        lemma_dec_len(n as nat);
    }
    if n < 10 {
        1
    } else {
        dec_len(n / 10) + 1
    }
}

/// Appends the decimal digits of `n`.
pub fn push_dec(out: &mut Vec<char>, n: u128)
    ensures
        final(out)@ == old(out)@ + dec_chars(n as nat),
    decreases n,
{
    if n >= 10 {
        push_dec(out, n / 10);
    }
    out.push(digit((n % 10) as u8));
    proof {
        if n < 10 {
            assert(dec_chars(n as nat) =~= seq![digit_char(n as int)]);
        }
    }
}

/// Appends `n` in decimal, with zeros in front up to `width` digits.
pub fn push_padded(out: &mut Vec<char>, n: u128, width: usize)
    ensures
        final(out)@ == old(out)@ + padded_dec(n as nat, width as nat),
{
    let len = dec_len(n);
    let ghost start = out@;
    if len < width {
        let mut i: usize = len;
        while i < width
            invariant
                len <= i <= width,
                len == dec_chars(n as nat).len(),
                out@ =~= start + Seq::new((i - len) as nat, |_j: int| '0'),
            decreases width - i,
        {
            out.push('0');
            i = i + 1;
        }
    }
    push_dec(out, n);
}

/// Appends what `{:0width}` prints for the signed `v`.
pub fn push_signed_padded(out: &mut Vec<char>, v: i64, width: usize)
    requires
        width >= 1,
    ensures
        final(out)@ == old(out)@ + signed_padded(v as int, width as nat),
{
    if v < 0 {
        out.push('-');
        let mag: u128 = (0i128 - v as i128) as u128;
        push_padded(out, mag, width - 1);
    } else {
        push_padded(out, v as u128, width);
    }
}

/// Appends what `{}` prints for the signed `v`.
pub fn push_signed_dec(out: &mut Vec<char>, v: i64)
    ensures
        final(out)@ == old(out)@ + signed_dec(v as int),
{
    if v < 0 {
        out.push('-');
        let mag: u128 = (0i128 - v as i128) as u128;
        push_dec(out, mag);
    } else {
        push_dec(out, v as u128);
    }
}

/// The reasons `str::parse` gives for refusing an integer.
#[derive(Clone, Copy, Debug, PartialEq, Eq, Structural)]
pub enum IntErrorKind {
    /// The text is empty.
    Empty,
    /// The text holds something other than an optional sign and digits.
    InvalidDigit,
    /// The value is above the type's maximum.
    PosOverflow,
    /// The value is below the type's minimum.
    NegOverflow,
}

impl IntErrorKind {
    /// The message that `ParseIntError` displays for this reason.
    pub fn message(&self) -> (r: &'static str)
        ensures
            r@ == self.spec_message(),
    {
        match self {
            IntErrorKind::Empty => "cannot parse integer from empty string",
            IntErrorKind::InvalidDigit => "invalid digit found in string",
            IntErrorKind::PosOverflow => "number too large to fit in target type",
            IntErrorKind::NegOverflow => "number too small to fit in target type",
        }
    }

    /// The message for this reason, as text.
    /// Each error has the message given here.
    pub proof fn lemma_messages()
        ensures
            IntErrorKind::Empty.spec_message() == "cannot parse integer from empty string"@,
            IntErrorKind::InvalidDigit.spec_message() == "invalid digit found in string"@,
            IntErrorKind::PosOverflow.spec_message() == "number too large to fit in target type"@,
            IntErrorKind::NegOverflow.spec_message() == "number too small to fit in target type"@,
    {
    }

    pub open spec fn spec_message(&self) -> Seq<char> {
        match self {
            IntErrorKind::Empty => "cannot parse integer from empty string"@,
            IntErrorKind::InvalidDigit => "invalid digit found in string"@,
            IntErrorKind::PosOverflow => "number too large to fit in target type"@,
            IntErrorKind::NegOverflow => "number too small to fit in target type"@,
        }
    }
}

/// An ASCII decimal digit.
pub open spec fn is_digit_byte(b: u8) -> bool {
    48 <= b <= 57
}

/// Reads the digits `ds` from the left, as `str::parse` does: the first
/// byte that is not a digit, or the first digit that takes the running
/// value above `bound`, ends the reading with that error.
pub open spec fn parse_magnitude(ds: Seq<u8>, bound: int, overflow: IntErrorKind) -> Result<
    int,
    IntErrorKind,
>
    decreases ds.len(),
{
    if ds.len() == 0 {
        Ok(0)
    } else {
        match parse_magnitude(ds.drop_last(), bound, overflow) {
            Err(e) => Err(e),
            Ok(v) => {
                let b = ds.last();
                if !is_digit_byte(b) {
                    Err(IntErrorKind::InvalidDigit)
                } else if v * 10 + (b - 48) > bound {
                    Err(overflow)
                } else {
                    Ok(v * 10 + (b - 48))
                }
            },
        }
    }
}

/// What `str::parse` gives for an integer type with maximum `max` (and,
/// when `signed`, minimum `-max - 1`) on the bytes `src`: an optional `+`
/// (or `-` for a signed type) followed by at least one digit.
pub open spec fn parse_integer(src: Seq<u8>, signed: bool, max: int) -> Result<int, IntErrorKind> {
    if src.len() == 0 {
        Err(IntErrorKind::Empty)
    } else if (src[0] == 43 || src[0] == 45) && src.len() == 1 {
        Err(IntErrorKind::InvalidDigit)
    } else if src[0] == 43 {
        parse_magnitude(src.drop_first(), max, IntErrorKind::PosOverflow)
    } else if src[0] == 45 && signed {
        match parse_magnitude(src.drop_first(), max + 1, IntErrorKind::NegOverflow) {
            Ok(m) => Ok(-m),
            Err(e) => Err(e),
        }
    } else {
        parse_magnitude(src, max, IntErrorKind::PosOverflow)
    }
}

/// A successful reading stays within its bound.
pub proof fn lemma_parse_magnitude_bound(ds: Seq<u8>, bound: int, overflow: IntErrorKind)
    requires
        bound >= 0,
    ensures
        parse_magnitude(ds, bound, overflow) matches Ok(v) ==> 0 <= v <= bound,
    decreases ds.len(),
{
    if ds.len() > 0 {
        lemma_parse_magnitude_bound(ds.drop_last(), bound, overflow);
    }
}

/// Reads `b[lo..hi]` as digits, as [`parse_magnitude`] says.
fn read_magnitude(b: &[u8], lo: usize, hi: usize, bound: u64, overflow: IntErrorKind) -> (r: Result<
    u64,
    IntErrorKind,
>)
    requires
        lo <= hi <= b@.len(),
    ensures
        match parse_magnitude(b@.subrange(lo as int, hi as int), bound as int, overflow) {
            Ok(v) => r == Ok::<u64, IntErrorKind>(v as u64),
            Err(e) => r == Err::<u64, IntErrorKind>(e),
        },
{
    let mut acc: u64 = 0;
    let mut i: usize = lo;
    while i < hi
        invariant
            lo <= i <= hi <= b@.len(),
            parse_magnitude(b@.subrange(lo as int, i as int), bound as int, overflow) == Ok::<
                int,
                IntErrorKind,
            >(acc as int),
        decreases hi - i,
    {
        let c = b[i];
        proof {
            assert(b@.subrange(lo as int, i + 1).drop_last() =~= b@.subrange(lo as int, i as int));
        }
        if c < 48 || c > 57 {
            proof {
                lemma_parse_prefix_error(b@, lo as int, i + 1, hi as int, bound as int, overflow);
            }
            return Err(IntErrorKind::InvalidDigit);
        }
        let next: u128 = acc as u128 * 10 + (c - 48) as u128;
        if next > bound as u128 {
            proof {
                lemma_parse_prefix_error(b@, lo as int, i + 1, hi as int, bound as int, overflow);
            }
            return Err(overflow);
        }
        acc = next as u64;
        i = i + 1;
    }
    Ok(acc)
}

/// Once a prefix of the digits is refused, the whole is refused for the same reason.
proof fn lemma_parse_prefix_error(b: Seq<u8>, lo: int, mid: int, hi: int, bound: int, overflow: IntErrorKind)
    requires
        0 <= lo <= mid <= hi <= b.len(),
        parse_magnitude(b.subrange(lo, mid), bound, overflow) is Err,
    ensures
        parse_magnitude(b.subrange(lo, hi), bound, overflow) == parse_magnitude(
            b.subrange(lo, mid),
            bound,
            overflow,
        ),
    decreases hi - mid,
{
    if hi > mid {
        lemma_parse_prefix_error(b, lo, mid, hi - 1, bound, overflow);
        assert(b.subrange(lo, hi).drop_last() =~= b.subrange(lo, hi - 1));
    }
}

/// A successful reading of `L` digits is below `10^L`.
pub proof fn lemma_parse_magnitude_pow(ds: Seq<u8>, bound: int, overflow: IntErrorKind)
    ensures
        parse_magnitude(ds, bound, overflow) matches Ok(v) ==> 0 <= v < pow10(ds.len()),
    decreases ds.len(),
{
    if ds.len() > 0 {
        lemma_parse_magnitude_pow(ds.drop_last(), bound, overflow);
        reveal_with_fuel(pow10, 2);
        assert(pow10(ds.len()) == 10 * pow10((ds.len() - 1) as nat));
    }
}

/// An unsigned reading of `L` bytes is below `10^L`.
pub proof fn lemma_parse_unsigned_pow(src: Seq<u8>, max: int)
    requires
        max >= 0,
    ensures
        parse_integer(src, false, max) matches Ok(v) ==> 0 <= v < pow10(src.len()),
{
    if src.len() > 0 && src[0] == 43 {
        lemma_parse_magnitude_pow(src.drop_first(), max, IntErrorKind::PosOverflow);
        lemma_pow10_mono((src.len() - 1) as nat, src.len());
    } else {
        lemma_parse_magnitude_pow(src, max, IntErrorKind::PosOverflow);
    }
}

/// `10^a <= 10^b` for `a <= b`.
pub proof fn lemma_pow10_mono(a: nat, b: nat)
    requires
        a <= b,
    ensures
        pow10(a) <= pow10(b),
    decreases b - a,
{
    if a < b {
        lemma_pow10_mono(a, (b - 1) as nat);
        reveal_with_fuel(pow10, 2);
        assert(pow10(b) == 10 * pow10((b - 1) as nat));
    }
}

/// `10^a * 10^b == 10^(a + b)`.
pub proof fn lemma_pow10_add(a: nat, b: nat)
    ensures
        pow10(a) * pow10(b) == pow10(a + b),
    decreases a,
{
    if a == 0 {
        assert(pow10(0) == 1);
    } else {
        lemma_pow10_add((a - 1) as nat, b);
        assert(pow10(a) == 10 * pow10((a - 1) as nat));
        assert(pow10(a + b) == 10 * pow10((a - 1 + b) as nat));
        assert(pow10(a) * pow10(b) == 10 * (pow10((a - 1) as nat) * pow10(b))) by (nonlinear_arith)
            requires
                pow10(a) == 10 * pow10((a - 1) as nat),
        ;
        assert((a - 1 + b) as nat == (a + b - 1) as nat);
    }
}

/// `10^k` for `k <= 9`, as `10u32.pow(k)` computes it.
pub fn pow10_u32(k: u32) -> (r: u32)
    requires
        k <= 9,
    ensures
        r == pow10(k as nat),
{
    let mut r: u32 = 1;
    let mut i: u32 = 0;
    while i < k
        invariant
            i <= k <= 9,
            r == pow10(i as nat),
        decreases k - i,
    {
        proof {
            lemma_pow10_mono(i as nat, 8);
            lemma_pow10_39();
            reveal_with_fuel(pow10, 2);
            assert(pow10((i + 1) as nat) == 10 * pow10(i as nat));
        }
        r = r * 10;
        i = i + 1;
    }
    r
}

/// Reads `b[lo..hi]` as an `i64`, as `str::parse::<i64>` does.
pub fn parse_i64(b: &[u8], lo: usize, hi: usize) -> (r: Result<i64, IntErrorKind>)
    requires
        lo <= hi <= b@.len(),
    ensures
        match parse_integer(b@.subrange(lo as int, hi as int), true, i64::MAX as int) {
            Ok(v) => r == Ok::<i64, IntErrorKind>(v as i64) && i64::MIN <= v <= i64::MAX,
            Err(e) => r == Err::<i64, IntErrorKind>(e),
        },
{
    let ghost src = b@.subrange(lo as int, hi as int);
    if lo == hi {
        return Err(IntErrorKind::Empty);
    }
    let first = b[lo];
    if (first == 43 || first == 45) && hi - lo == 1 {
        return Err(IntErrorKind::InvalidDigit);
    }
    assert(src.drop_first() =~= b@.subrange(lo + 1, hi as int));
    if first == 43 {
        let m = read_magnitude(b, lo + 1, hi, 0x7fff_ffff_ffff_ffff, IntErrorKind::PosOverflow);
        proof {
            lemma_parse_magnitude_bound(src.drop_first(), i64::MAX as int, IntErrorKind::PosOverflow);
        }
        match m {
            Ok(v) => Ok(v as i64),
            Err(e) => Err(e),
        }
    } else if first == 45 {
        let m = read_magnitude(b, lo + 1, hi, 0x8000_0000_0000_0000, IntErrorKind::NegOverflow);
        proof {
            lemma_parse_magnitude_bound(src.drop_first(), i64::MAX + 1, IntErrorKind::NegOverflow);
        }
        match m {
            Ok(v) => Ok((0i128 - v as i128) as i64),
            Err(e) => Err(e),
        }
    } else {
        let m = read_magnitude(b, lo, hi, 0x7fff_ffff_ffff_ffff, IntErrorKind::PosOverflow);
        proof {
            lemma_parse_magnitude_bound(src, i64::MAX as int, IntErrorKind::PosOverflow);
        }
        match m {
            Ok(v) => Ok(v as i64),
            Err(e) => Err(e),
        }
    }
}

/// Reads `b[lo..hi]` as an unsigned integer of maximum `max`, as
/// `str::parse` does for `u32` (with `max == u32::MAX`) or `u64`.
pub fn parse_unsigned(b: &[u8], lo: usize, hi: usize, max: u64) -> (r: Result<u64, IntErrorKind>)
    requires
        lo <= hi <= b@.len(),
    ensures
        match parse_integer(b@.subrange(lo as int, hi as int), false, max as int) {
            Ok(v) => r == Ok::<u64, IntErrorKind>(v as u64) && 0 <= v <= max,
            Err(e) => r == Err::<u64, IntErrorKind>(e),
        },
{
    let ghost src = b@.subrange(lo as int, hi as int);
    if lo == hi {
        return Err(IntErrorKind::Empty);
    }
    let first = b[lo];
    if (first == 43 || first == 45) && hi - lo == 1 {
        return Err(IntErrorKind::InvalidDigit);
    }
    assert(src.drop_first() =~= b@.subrange(lo + 1, hi as int));
    proof {
        lemma_parse_magnitude_bound(src.drop_first(), max as int, IntErrorKind::PosOverflow);
        lemma_parse_magnitude_bound(src, max as int, IntErrorKind::PosOverflow);
    }
    if first == 43 {
        read_magnitude(b, lo + 1, hi, max, IntErrorKind::PosOverflow)
    } else {
        read_magnitude(b, lo, hi, max, IntErrorKind::PosOverflow)
    }
}

/// The bytes of an ASCII text, one per character.
pub open spec fn ascii_bytes(c: Seq<char>) -> Seq<u8> {
    Seq::new(c.len(), |i: int| c[i] as u8)
}

/// Every byte is an ASCII digit.
pub open spec fn all_digits(ds: Seq<u8>) -> bool {
    forall|i: int| 0 <= i < ds.len() ==> is_digit_byte(#[trigger] ds[i])
}

/// The number that the digits `ds` denote.
pub open spec fn digits_value(ds: Seq<u8>) -> int
    decreases ds.len(),
{
    if ds.len() == 0 {
        0
    } else {
        digits_value(ds.drop_last()) * 10 + (ds.last() - 48)
    }
}

/// Bytes of a concatenation are the concatenation of the bytes.
pub proof fn lemma_ascii_bytes_concat(a: Seq<char>, b: Seq<char>)
    ensures
        ascii_bytes(a + b) =~= ascii_bytes(a) + ascii_bytes(b),
{
}

/// The value of digits is not negative.
pub proof fn lemma_digits_value_nonneg(ds: Seq<u8>)
    requires
        all_digits(ds),
    ensures
        digits_value(ds) >= 0,
    decreases ds.len(),
{
    if ds.len() > 0 {
        lemma_digits_value_nonneg(ds.drop_last());
    }
}

/// Reading digits whose value is within the bound gives that value.
pub proof fn lemma_parse_all_digits(ds: Seq<u8>, bound: int, overflow: IntErrorKind)
    requires
        all_digits(ds),
        digits_value(ds) <= bound,
    ensures
        parse_magnitude(ds, bound, overflow) == Ok::<int, IntErrorKind>(digits_value(ds)),
    decreases ds.len(),
{
    if ds.len() > 0 {
        lemma_digits_value_nonneg(ds.drop_last());
        assert(ds.last() == ds[ds.len() - 1]);
        lemma_parse_all_digits(ds.drop_last(), bound, overflow);
    }
}

/// The value of two runs of digits side by side.
pub proof fn lemma_digits_value_concat(a: Seq<u8>, b: Seq<u8>)
    ensures
        digits_value(a + b) == digits_value(a) * pow10(b.len()) + digits_value(b),
    decreases b.len(),
{
    if b.len() == 0 {
        assert(a + b =~= a);
        assert(pow10(0) == 1);
    } else {
        assert((a + b).drop_last() =~= a + b.drop_last());
        assert((a + b).last() == b.last());
        lemma_digits_value_concat(a, b.drop_last());
        assert(pow10(b.len()) == 10 * pow10((b.len() - 1) as nat));
        assert(digits_value(a + b) == (digits_value(a) * pow10((b.len() - 1) as nat)
            + digits_value(b.drop_last())) * 10 + (b.last() - 48));
        assert((digits_value(a) * pow10((b.len() - 1) as nat) + digits_value(b.drop_last())) * 10
            == digits_value(a) * (10 * pow10((b.len() - 1) as nat)) + digits_value(b.drop_last())
            * 10) by (nonlinear_arith);
    }
}

/// The bytes of the decimal text of `n` are digits that denote `n`.
pub proof fn lemma_dec_chars_value(n: nat)
    ensures
        all_digits(ascii_bytes(dec_chars(n))),
        digits_value(ascii_bytes(dec_chars(n))) == n,
    decreases n,
{
    let c = dec_chars(n);
    if n >= 10 {
        lemma_dec_chars_value(n / 10);
        let p = dec_chars(n / 10);
        assert(c == p.push(digit_char((n % 10) as int)));
        assert(ascii_bytes(c).drop_last() =~= ascii_bytes(p));
        assert(ascii_bytes(c).last() == (n % 10) + 48);
        vstd::arithmetic::div_mod::lemma_fundamental_div_mod(n as int, 10);
        assert(digits_value(ascii_bytes(c)) == digits_value(ascii_bytes(c).drop_last()) * 10 + (
        ascii_bytes(c).last() - 48));
        assert forall|i: int| 0 <= i < ascii_bytes(c).len() implies is_digit_byte(
            #[trigger] ascii_bytes(c)[i],
        ) by {
            if i < p.len() {
                assert(ascii_bytes(c)[i] == ascii_bytes(p)[i]);
            }
        }
    } else {
        assert(c == seq![digit_char(n as int)]);
        assert(ascii_bytes(c).drop_last() =~= Seq::<u8>::empty());
        assert(ascii_bytes(c).last() == n + 48);
        assert(digits_value(ascii_bytes(c)) == digits_value(ascii_bytes(c).drop_last()) * 10 + (
        ascii_bytes(c).last() - 48));
    }
}

/// Zeros in front of digits do not change their value, and the padded
/// decimal text of `n` has exactly `width` digits when `n < 10^width`.
pub proof fn lemma_padded_dec_value(n: nat, width: nat)
    ensures
        all_digits(ascii_bytes(padded_dec(n, width))),
        digits_value(ascii_bytes(padded_dec(n, width))) == n,
        n < pow10(width) && width >= 1 ==> padded_dec(n, width).len() == width,
        padded_dec(n, width).len() >= 1,
{
    lemma_dec_chars_value(n);
    lemma_dec_len_pow(n, width);
    let d = dec_chars(n);
    if d.len() < width {
        let z = Seq::new((width - d.len()) as nat, |_i: int| '0');
        lemma_ascii_bytes_concat(z, d);
        lemma_digits_value_concat(ascii_bytes(z), ascii_bytes(d));
        lemma_zeros_value(z.len());
        assert(ascii_bytes(z) =~= Seq::new(z.len(), |_i: int| 48u8));
        assert forall|i: int| 0 <= i < ascii_bytes(padded_dec(n, width)).len() implies is_digit_byte(
            #[trigger] ascii_bytes(padded_dec(n, width))[i],
        ) by {
            if i >= z.len() {
                assert(ascii_bytes(padded_dec(n, width))[i] == ascii_bytes(d)[i - z.len()]);
            }
        }
    }
}

/// The decimal text of `n` is ASCII, and its first byte is a digit.
pub proof fn lemma_dec_chars_ascii(n: nat)
    ensures
        is_ascii_chars(dec_chars(n)),
        dec_chars(n).len() >= 1,
        is_digit_byte(ascii_bytes(dec_chars(n))[0]),
{
    lemma_dec_chars_digits(n);
    lemma_dec_chars_value(n);
    lemma_dec_len(n);
    assert forall|i: int| 0 <= i < dec_chars(n).len() implies '\0' <= #[trigger] dec_chars(n)[i]
        <= '\u{7f}' by {
        let d = choose|d: int| 0 <= d < 10 && dec_chars(n)[i] == digit_char(d);
    }
}

/// The padded decimal text of `n` is ASCII.
pub proof fn lemma_padded_dec_ascii(n: nat, width: nat)
    ensures
        is_ascii_chars(padded_dec(n, width)),
{
    lemma_dec_chars_ascii(n);
    let d = dec_chars(n);
    if d.len() < width {
        let z = Seq::new((width - d.len()) as nat, |_i: int| '0');
        assert forall|i: int| 0 <= i < padded_dec(n, width).len() implies '\0'
            <= #[trigger] padded_dec(n, width)[i] <= '\u{7f}' by {
            if i >= z.len() {
                assert(padded_dec(n, width)[i] == d[i - z.len()]);
            }
        }
    }
}

/// A run of `0` digits denotes zero.
pub proof fn lemma_zeros_value(k: nat)
    ensures
        digits_value(Seq::new(k, |_i: int| 48u8)) == 0,
    decreases k,
{
    if k > 0 {
        assert(Seq::new(k, |_i: int| 48u8).drop_last() =~= Seq::new((k - 1) as nat, |_i: int| 48u8));
        lemma_zeros_value((k - 1) as nat);
    }
}

} // verus!
