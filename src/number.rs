//! Numbers as exchanges send them: decimal text, read exactly.
use vstd::prelude::*;

verus! {

broadcast use vstd::string::group_string_axioms;

pub open spec fn is_digit(c: char) -> bool {
    '0' <= c && c <= '9'
}

pub open spec fn digit_value(c: char) -> nat {
    (c as int - '0' as int) as nat
}

pub open spec fn all_digits(s: Seq<char>) -> bool {
    forall|i: int| 0 <= i < s.len() ==> is_digit(#[trigger] s[i])
}

/// The number that a string of decimal digits denotes, most significant digit first.
pub open spec fn digits_value(s: Seq<char>) -> nat
    decreases s.len(),
{
    if s.len() == 0 {
        0
    } else {
        digits_value(s.drop_last()) * 10 + digit_value(s.last())
    }
}

/// What follows the optional leading `+` of an unsigned integer literal.
pub open spec fn unsigned_body(s: Seq<char>) -> Seq<char> {
    if s.len() > 0 && s[0] == '+' {
        s.drop_first()
    } else {
        s
    }
}

/// Text that reads as an unsigned 128-bit integer: an optional `+`, then one or
/// more decimal digits whose value fits.
pub open spec fn is_u128_text(s: Seq<char>) -> bool {
    let body = unsigned_body(s);
    &&& body.len() > 0
    &&& all_digits(body)
    &&& digits_value(body) <= u128::MAX
}

pub open spec fn u128_text_value(s: Seq<char>) -> nat {
    digits_value(unsigned_body(s))
}

proof fn lemma_digits_value_push(s: Seq<char>, c: char)
    ensures
        digits_value(s.push(c)) == digits_value(s) * 10 + digit_value(c),
{
    assert(s.push(c).drop_last() =~= s);
}

/// Appending digits never makes the value smaller.
proof fn lemma_digits_value_prefix(s: Seq<char>, t: Seq<char>)
    ensures
        digits_value(s) <= digits_value(s + t),
    decreases t.len(),
{
    if t.len() > 0 {
        assert((s + t).drop_last() =~= s + t.drop_last());
        lemma_digits_value_prefix(s, t.drop_last());
    } else {
        assert(s + t =~= s);
    }
}

/// The bytes of ASCII text, one for each character.
pub(crate) open spec fn ascii_bytes(bytes: Seq<u8>, text: Seq<char>) -> bool {
    &&& bytes.len() == text.len()
    &&& forall|i: int|
        0 <= i < text.len() ==> '\0' <= #[trigger] text[i] <= '\u{7f}' && bytes[i] as int
            == text[i] as int
}

pub(crate) fn ascii_bytes_of(text: &str) -> (r: Option<&[u8]>)
    ensures
        r is Some <==> vstd::string::is_ascii(text),
        r is Some ==> ascii_bytes(r->0@, text@),
{
    if text.is_ascii() {
        let bytes = text.as_bytes();
        proof {
            assert forall|i: int| 0 <= i < text@.len() implies bytes@[i] as int == text@[i] as int by {
                let c = text@[i];
                assert('\0' <= c <= '\u{7f}');
                assert(bytes@[i] == c as u8);
            }
        }
        Some(bytes)
    } else {
        None
    }
}

const ASCII_ZERO: u8 = 48;

const ASCII_NINE: u8 = 57;

const ASCII_PLUS: u8 = 43;

const ASCII_MINUS: u8 = 45;

const ASCII_POINT: u8 = 46;

fn is_digit_byte(b: u8) -> (r: bool)
    ensures
        r == (48 <= b && b <= 57),
{
    ASCII_ZERO <= b && b <= ASCII_NINE
}

/// Checks that `text[from..to]` is all decimal digits.
fn digits_between(bytes: &[u8], Ghost(text): Ghost<Seq<char>>, from: usize, to: usize) -> (r: bool)
    requires
        ascii_bytes(bytes@, text),
        from <= to <= text.len(),
    ensures
        r == all_digits(text.subrange(from as int, to as int)),
{
    let mut i = from;
    while i < to
        invariant
            ascii_bytes(bytes@, text),
            from <= i <= to <= text.len(),
            all_digits(text.subrange(from as int, i as int)),
        decreases to - i,
    {
        if !is_digit_byte(bytes[i]) {
            assert(!is_digit(text.subrange(from as int, to as int)[i - from]));
            return false;
        }
        assert(text.subrange(from as int, i + 1) =~= text.subrange(from as int, i as int).push(
            text[i as int],
        ));
        i = i + 1;
    }
    true
}

/// Reads the digits `text[from..to]` after those of `prefix`, whose value is `acc`.
fn accumulate_digits(
    bytes: &[u8],
    Ghost(text): Ghost<Seq<char>>,
    from: usize,
    to: usize,
    acc: u128,
    Ghost(prefix): Ghost<Seq<char>>,
) -> (r: Option<u128>)
    requires
        ascii_bytes(bytes@, text),
        from <= to <= text.len(),
        all_digits(text.subrange(from as int, to as int)),
        acc as int == digits_value(prefix),
    ensures
        r is Some <==> digits_value(prefix + text.subrange(from as int, to as int)) <= u128::MAX,
        r is Some ==> r->0 as int == digits_value(prefix + text.subrange(from as int, to as int)),
{
    let mut acc = acc;
    let mut i = from;
    assert(prefix + text.subrange(from as int, from as int) =~= prefix);
    while i < to
        invariant
            ascii_bytes(bytes@, text),
            from <= i <= to <= text.len(),
            all_digits(text.subrange(from as int, to as int)),
            acc as int == digits_value(prefix + text.subrange(from as int, i as int)),
        decreases to - i,
    {
        let ghost done = prefix + text.subrange(from as int, i as int);
        let ghost next = prefix + text.subrange(from as int, i + 1);
        let ghost whole = prefix + text.subrange(from as int, to as int);
        assert(is_digit(text.subrange(from as int, to as int)[i - from]));
        assert(next =~= done.push(text[i as int]));
        proof {
            lemma_digits_value_push(done, text[i as int]);
        }
        let d = (bytes[i] - ASCII_ZERO) as u128;
        let step = match acc.checked_mul(10) {
            Some(m) => m.checked_add(d),
            None => None,
        };
        match step {
            Some(v) => {
                acc = v;
            },
            None => {
                proof {
                    assert(whole =~= next + text.subrange(i + 1, to as int));
                    lemma_digits_value_prefix(next, text.subrange(i + 1, to as int));
                }
                return None;
            },
        }
        i = i + 1;
    }
    Some(acc)
}

/// Reads a timestamp, or any unsigned 128-bit integer, from its decimal text.
pub fn parse_timestamp(text: &str) -> (r: Option<u128>)
    ensures
        r is Some <==> is_u128_text(text@),
        r is Some ==> r->0 as int == u128_text_value(text@),
{
    let bytes = match ascii_bytes_of(text) {
        Some(b) => b,
        None => {
            proof {
                let k = choose|k: int| 0 <= k < text@.len() && !('\0' <= #[trigger] text@[k] <= '\u{7f}');
                if text@.len() > 0 && text@[0] == '+' {
                    assert(!is_digit(unsigned_body(text@)[k - 1]));
                } else {
                    assert(!is_digit(unsigned_body(text@)[k]));
                }
            }
            return None;
        },
    };
    let n = bytes.len();
    let start: usize = if n > 0 && bytes[0] == ASCII_PLUS {
        1
    } else {
        0
    };
    assert(unsigned_body(text@) =~= text@.subrange(start as int, n as int));
    if start == n || !digits_between(bytes, Ghost(text@), start, n) {
        return None;
    }
    let ghost empty: Seq<char> = Seq::empty();
    assert(empty + text@.subrange(start as int, n as int) =~= unsigned_body(text@));
    accumulate_digits(bytes, Ghost(text@), start, n, 0, Ghost(empty))
}

/// An exact decimal number: `mantissa / 10^scale`, negated when `negative` is set.
///
/// Prices and sizes keep the digits the exchange sent; `8533.02` is the mantissa
/// `853302` with scale `2`.
#[derive(Debug, Clone, Copy, PartialEq, Eq, Structural)]
pub struct Decimal {
    pub negative: bool,
    pub mantissa: u128,
    pub scale: usize,
}

/// Length of the optional sign in front of a decimal literal.
pub open spec fn sign_len(s: Seq<char>) -> int {
    if s.len() > 0 && (s[0] == '+' || s[0] == '-') {
        1
    } else {
        0
    }
}

/// What follows the optional sign of a decimal literal.
pub open spec fn decimal_body(s: Seq<char>) -> Seq<char> {
    s.subrange(sign_len(s), s.len() as int)
}

/// `k` splits `b` into integer digits `b[..k]` and, where `k` is not the end,
/// a point at `k` followed by fraction digits; there is at least one digit.
pub open spec fn is_point_split(b: Seq<char>, k: int) -> bool {
    &&& 0 <= k <= b.len()
    &&& all_digits(b.take(k))
    &&& k == b.len() || (b[k] == '.' && all_digits(b.skip(k + 1)))
    &&& b.len() - (if k < b.len() { 1int } else { 0int }) >= 1
}

/// `b` is `digits`, `digits.`, `.digits` or `digits.digits`, with a digit somewhere.
pub open spec fn is_decimal_body(b: Seq<char>) -> bool {
    exists|k: int| is_point_split(b, k)
}

pub open spec fn point_split(b: Seq<char>) -> int {
    choose|k: int| is_point_split(b, k)
}

pub open spec fn int_digits(b: Seq<char>) -> Seq<char> {
    b.take(point_split(b))
}

pub open spec fn frac_digits(b: Seq<char>) -> Seq<char> {
    let k = point_split(b);
    if k < b.len() {
        b.skip(k + 1)
    } else {
        Seq::empty()
    }
}

/// Text that reads as a plain decimal number whose digits fit the mantissa.
pub open spec fn is_decimal_text(s: Seq<char>) -> bool {
    let b = decimal_body(s);
    &&& is_decimal_body(b)
    &&& digits_value(int_digits(b) + frac_digits(b)) <= u128::MAX
}

/// The decimal that such text denotes.
pub open spec fn decimal_of(s: Seq<char>) -> Decimal {
    let b = decimal_body(s);
    Decimal {
        negative: s.len() > 0 && s[0] == '-',
        mantissa: digits_value(int_digits(b) + frac_digits(b)) as u128,
        scale: frac_digits(b).len() as usize,
    }
}

/// Where the integer digits of `b` end, the split is.
proof fn lemma_point_split_unique(b: Seq<char>, k: int, j: int)
    requires
        is_point_split(b, j),
        0 <= k <= b.len(),
        all_digits(b.take(k)),
        k == b.len() || !is_digit(b[k]),
    ensures
        j == k,
{
    if j < k {
        assert(is_digit(b.take(k)[j]));
    } else if j > k {
        assert(!is_digit(b.take(j)[k]));
    }
}

/// Reads a plain decimal number: an optional sign, digits, and an optional point
/// with more digits. Exponents and non-finite forms are not decimal text.
pub fn parse_decimal(text: &str) -> (r: Option<Decimal>)
    ensures
        r is Some <==> is_decimal_text(text@),
        r is Some ==> r->0 == decimal_of(text@),
{
    let bytes = match ascii_bytes_of(text) {
        Some(b) => b,
        None => {
            proof {
                let i = choose|i: int| 0 <= i < text@.len() && !('\0' <= #[trigger] text@[i] <= '\u{7f}');
                let b = decimal_body(text@);
                if is_decimal_body(b) {
                    let k = point_split(b);
                    let j = i - sign_len(text@);
                    assert(b[j] == text@[i]);
                    if j < k {
                        assert(is_digit(b.take(k)[j]));
                    } else if j > k {
                        assert(is_digit(b.skip(k + 1)[j - k - 1]));
                    }
                }
            }
            return None;
        },
    };
    let n = bytes.len();
    let signed = n > 0 && (bytes[0] == ASCII_PLUS || bytes[0] == ASCII_MINUS);
    let negative = n > 0 && bytes[0] == ASCII_MINUS;
    let start: usize = if signed {
        1
    } else {
        0
    };
    let ghost b = decimal_body(text@);
    assert(b =~= text@.subrange(start as int, n as int));
    let mut point = start;
    while point < n && is_digit_byte(bytes[point])
        invariant
            ascii_bytes(bytes@, text@),
            start <= point <= n == text@.len(),
            all_digits(text@.subrange(start as int, point as int)),
        decreases n - point,
    {
        assert(text@.subrange(start as int, point + 1) =~= text@.subrange(
            start as int,
            point as int,
        ).push(text@[point as int]));
        point = point + 1;
    }
    let ghost k = point - start;
    assert(b.take(k) =~= text@.subrange(start as int, point as int));
    let has_fraction = point < n;
    if has_fraction {
        if bytes[point] != ASCII_POINT || !digits_between(bytes, Ghost(text@), point + 1, n) {
            proof {
                if is_decimal_body(b) {
                    lemma_point_split_unique(b, k, point_split(b));
                    assert(b.skip(k + 1) =~= text@.subrange(point + 1, n as int));
                }
            }
            return None;
        }
    }
    let digit_count = if has_fraction {
        n - start - 1
    } else {
        n - start
    };
    if digit_count == 0 {
        proof {
            if is_decimal_body(b) {
                lemma_point_split_unique(b, k, point_split(b));
            }
        }
        return None;
    }
    assert(is_point_split(b, k)) by {
        if has_fraction {
            assert(b.skip(k + 1) =~= text@.subrange(point + 1, n as int));
        }
    }
    proof {
        lemma_point_split_unique(b, k, point_split(b));
    }
    let ghost empty: Seq<char> = Seq::empty();
    assert(empty + text@.subrange(start as int, point as int) =~= int_digits(b));
    let whole = match accumulate_digits(bytes, Ghost(text@), start, point, 0, Ghost(empty)) {
        Some(v) => v,
        None => {
            proof {
                lemma_digits_value_prefix(int_digits(b), frac_digits(b));
            }
            return None;
        },
    };
    if has_fraction {
        assert(frac_digits(b) =~= text@.subrange(point + 1, n as int));
        let mantissa = match accumulate_digits(
            bytes,
            Ghost(text@),
            point + 1,
            n,
            whole,
            Ghost(int_digits(b)),
        ) {
            Some(v) => v,
            None => {
                return None;
            },
        };
        Some(Decimal { negative, mantissa, scale: n - point - 1 })
    } else {
        assert(frac_digits(b) =~= Seq::<char>::empty());
        assert(int_digits(b) + frac_digits(b) =~= int_digits(b));
        Some(Decimal { negative, mantissa: whole, scale: 0 })
    }
}

} // verus!
