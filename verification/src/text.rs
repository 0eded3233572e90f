//! Byte-level text encodings used when building request paths and bodies.

use vstd::prelude::*;

verus! {

/// The upper-case hexadecimal digit for a value below sixteen.
pub open spec fn hex_upper(n: u8) -> u8 {
    if n < 10 {
        (48 + n) as u8
    } else {
        (55 + n) as u8
    }
}

/// `%XX` with the two upper-case hexadecimal digits of the byte.
pub open spec fn percent_encoded(b: u8) -> Seq<u8> {
    seq![37u8, hex_upper(b / 16), hex_upper(b % 16)]
}

/// Bytes which must be escaped within a single path segment: controls,
/// non-ASCII bytes and ` "#<>`?{}%/`.
pub open spec fn path_segment_reserved(b: u8) -> bool {
    ||| b < 0x20
    ||| b >= 0x7f
    ||| b == 0x20
    ||| b == 0x22
    ||| b == 0x23
    ||| b == 0x3c
    ||| b == 0x3e
    ||| b == 0x60
    ||| b == 0x3f
    ||| b == 0x7b
    ||| b == 0x7d
    ||| b == 0x25
    ||| b == 0x2f
}

pub open spec fn path_escape_byte(b: u8) -> Seq<u8> {
    if path_segment_reserved(b) {
        percent_encoded(b)
    } else {
        seq![b]
    }
}

/// Percent-encoding of a byte string so that it forms a single path segment.
pub open spec fn path_escape(s: Seq<u8>) -> Seq<u8>
    decreases s.len(),
{
    if s.len() == 0 {
        seq![]
    } else {
        path_escape(s.drop_last()) + path_escape_byte(s.last())
    }
}

/// Bytes left alone by `application/x-www-form-urlencoded` serialization.
pub open spec fn form_unreserved(b: u8) -> bool {
    ||| b == 0x2a
    ||| b == 0x2d
    ||| b == 0x2e
    ||| 0x30 <= b <= 0x39
    ||| 0x41 <= b <= 0x5a
    ||| b == 0x5f
    ||| 0x61 <= b <= 0x7a
}

pub open spec fn form_escape_byte(b: u8) -> Seq<u8> {
    if form_unreserved(b) {
        seq![b]
    } else if b == 0x20 {
        seq![0x2bu8]
    } else {
        percent_encoded(b)
    }
}

/// `application/x-www-form-urlencoded` serialization of a byte string.
pub open spec fn form_escape(s: Seq<u8>) -> Seq<u8>
    decreases s.len(),
{
    if s.len() == 0 {
        seq![]
    } else {
        form_escape(s.drop_last()) + form_escape_byte(s.last())
    }
}

/// The decimal digits of a number, without leading zeros.
pub open spec fn decimal(n: nat) -> Seq<u8>
    decreases n,
{
    if n < 10 {
        seq![(48 + n) as u8]
    } else {
        decimal(n / 10).push((48 + n % 10) as u8)
    }
}

/// The characters with the given ASCII codes.
pub open spec fn ascii_chars(s: Seq<u8>) -> Seq<char> {
    Seq::new(s.len(), |i: int| s[i] as char)
}

pub open spec fn is_ascii_bytes(s: Seq<u8>) -> bool {
    forall|i: int| 0 <= i < s.len() ==> s[i] < 128
}

fn hex_digit(n: u8) -> (r: u8)
    requires
        n < 16,
    ensures
        r == hex_upper(n),
        r < 128,
{
    if n < 10 {
        48 + n
    } else {
        55 + n
    }
}

fn push_percent_encoded(out: &mut Vec<u8>, b: u8)
    ensures
        final(out)@ == old(out)@ + percent_encoded(b),
{
    out.push(37);
    out.push(hex_digit(b / 16));
    out.push(hex_digit(b % 16));
}

/// Append the path-segment escaping of `s` to `out`.
pub fn push_path_escaped(out: &mut Vec<u8>, s: &[u8])
    ensures
        final(out)@ == old(out)@ + path_escape(s@),
{
    let ghost start = out@;
    let mut i: usize = 0;
    assert(s@.take(0) =~= Seq::<u8>::empty());
    while i < s.len()
        invariant
            i <= s@.len(),
            out@ == start + path_escape(s@.take(i as int)),
        decreases s@.len() - i,
    {
        let b = s[i];
        let ghost before = out@;
        if b < 0x20 || b >= 0x7f || b == 0x20 || b == 0x22 || b == 0x23 || b == 0x3c || b == 0x3e
            || b == 0x60 || b == 0x3f || b == 0x7b || b == 0x7d || b == 0x25 || b == 0x2f {
            push_percent_encoded(out, b);
        } else {
            out.push(b);
        }
        assert(out@ == before + path_escape_byte(b));
        assert(s@.take(i + 1).drop_last() =~= s@.take(i as int));
        assert(s@.take(i + 1).last() == b);
        i = i + 1;
    }
    assert(s@.take(s@.len() as int) =~= s@);
}

/// Append the form serialization of `s` to `out`.
pub fn push_form_escaped(out: &mut Vec<u8>, s: &[u8])
    ensures
        final(out)@ == old(out)@ + form_escape(s@),
{
    let ghost start = out@;
    let mut i: usize = 0;
    assert(s@.take(0) =~= Seq::<u8>::empty());
    while i < s.len()
        invariant
            i <= s@.len(),
            out@ == start + form_escape(s@.take(i as int)),
        decreases s@.len() - i,
    {
        let b = s[i];
        let ghost before = out@;
        if b == 0x2a || b == 0x2d || b == 0x2e || (0x30 <= b && b <= 0x39) || (0x41 <= b && b
            <= 0x5a) || b == 0x5f || (0x61 <= b && b <= 0x7a) {
            out.push(b);
        } else if b == 0x20 {
            out.push(0x2b);
        } else {
            push_percent_encoded(out, b);
        }
        assert(out@ == before + form_escape_byte(b));
        assert(s@.take(i + 1).drop_last() =~= s@.take(i as int));
        assert(s@.take(i + 1).last() == b);
        i = i + 1;
    }
    assert(s@.take(s@.len() as int) =~= s@);
}

/// Append the decimal digits of `n` to `out`.
pub fn push_decimal(out: &mut Vec<u8>, n: u64)
    ensures
        final(out)@ == old(out)@ + decimal(n as nat),
    decreases n,
{
    if n < 10 {
        out.push(48 + n as u8);
        assert(decimal(n as nat) =~= seq![(48 + n) as u8]);
    } else {
        push_decimal(out, n / 10);
        out.push(48 + (n % 10) as u8);
        assert(decimal(n as nat) =~= decimal((n / 10) as nat).push((48 + n % 10) as u8));
    }
}

/// Escaping a path segment always yields ASCII bytes.
pub proof fn lemma_path_escape_ascii(s: Seq<u8>)
    ensures
        is_ascii_bytes(path_escape(s)),
    decreases s.len(),
{
    if s.len() > 0 {
        lemma_path_escape_ascii(s.drop_last());
        let b = s.last();
        assert(hex_upper(b / 16) < 128 && hex_upper(b % 16) < 128);
        assert(is_ascii_bytes(path_escape_byte(b)));
        let l = path_escape(s.drop_last());
        let r = path_escape_byte(b);
        assert forall|i: int| 0 <= i < (l + r).len() implies (l + r)[i] < 128 by {
            if i < l.len() {
                assert((l + r)[i] == l[i]);
            } else {
                assert((l + r)[i] == r[i - l.len()]);
            }
        }
    }
}

/// Form-encoding any bytes always yields ASCII bytes.
pub proof fn lemma_form_escape_ascii(s: Seq<u8>)
    ensures
        is_ascii_bytes(form_escape(s)),
    decreases s.len(),
{
    if s.len() > 0 {
        lemma_form_escape_ascii(s.drop_last());
        let b = s.last();
        assert(hex_upper(b / 16) < 128 && hex_upper(b % 16) < 128);
        assert(is_ascii_bytes(form_escape_byte(b)));
        let l = form_escape(s.drop_last());
        let r = form_escape_byte(b);
        assert forall|i: int| 0 <= i < (l + r).len() implies (l + r)[i] < 128 by {
            if i < l.len() {
                assert((l + r)[i] == l[i]);
            } else {
                assert((l + r)[i] == r[i - l.len()]);
            }
        }
    }
}

/// The decimal digits of a number are ASCII and never empty.
pub proof fn lemma_decimal_ascii(n: nat)
    ensures
        is_ascii_bytes(decimal(n)),
        decimal(n).len() > 0,
    decreases n,
{
    if n >= 10 {
        lemma_decimal_ascii(n / 10);
        let l = decimal(n / 10);
        let d = l.push((48 + n % 10) as u8);
        assert forall|i: int| 0 <= i < d.len() implies #[trigger] d[i] < 128 by {
            if i < l.len() {
                assert(d[i] == l[i]);
            }
        }
    }
}

/// Appends a character to a string through `String::push`.
#[verifier::external_body]
pub(crate) fn string_push(s: &mut String, c: char)
    ensures
        final(s)@ == old(s)@.push(c),
{
    s.push(c);
}

/// The string whose characters have the given ASCII codes.
pub fn ascii_string(bytes: &[u8]) -> (r: String)
    requires
        is_ascii_bytes(bytes@),
    ensures
        r@ == ascii_chars(bytes@),
{
    let mut r = String::new();
    let mut i: usize = 0;
    while i < bytes.len()
        invariant
            i <= bytes@.len(),
            is_ascii_bytes(bytes@),
            r@ =~= ascii_chars(bytes@.take(i as int)),
        decreases bytes@.len() - i,
    {
        let b = bytes[i];
        string_push(&mut r, b as char);
        i = i + 1;
    }
    assert(bytes@.take(bytes@.len() as int) =~= bytes@);
    r
}

/// The path-segment escaping of `s` as a string.
pub fn path_escaped(s: &str) -> (r: String)
    ensures
        r@ == ascii_chars(path_escape(vstd::utf8::encode_utf8(s@))),
{
    let mut out: Vec<u8> = Vec::new();
    push_path_escaped(&mut out, s.as_bytes());
    proof {
        assert(out@ =~= path_escape(vstd::utf8::encode_utf8(s@)));
        lemma_path_escape_ascii(vstd::utf8::encode_utf8(s@));
    }
    ascii_string(out.as_slice())
}

/// The decimal digits of `n` as a string.
pub fn decimal_string(n: u64) -> (r: String)
    ensures
        r@ == ascii_chars(decimal(n as nat)),
{
    let mut out: Vec<u8> = Vec::new();
    push_decimal(&mut out, n);
    proof {
        assert(out@ =~= decimal(n as nat));
        lemma_decimal_ascii(n as nat);
    }
    ascii_string(out.as_slice())
}


/// A vector holding the bytes of `s`.
pub fn bytes_to_vec(s: &[u8]) -> (r: Vec<u8>)
    ensures
        r@ == s@,
{
    let mut r: Vec<u8> = Vec::new();
    let mut i: usize = 0;
    while i < s.len()
        invariant
            i <= s@.len(),
            r@ =~= s@.take(i as int),
        decreases s@.len() - i,
    {
        r.push(s[i]);
        i = i + 1;
    }
    assert(s@.take(s@.len() as int) =~= s@);
    r
}

/// Whether every character is a decimal digit.
pub open spec fn all_digits(s: Seq<char>) -> bool {
    forall|i: int| 0 <= i < s.len() ==> '0' <= #[trigger] s[i] <= '9'
}

/// The number that decimal digits stand for.
pub open spec fn digits_value(s: Seq<char>) -> nat
    decreases s.len(),
{
    if s.len() == 0 {
        0
    } else {
        digits_value(s.drop_last()) * 10 + (s.last() as nat - '0' as nat) as nat
    }
}

/// The number that `str::parse::<usize>` reads from `s`: an optional `+`
/// sign, then at least one decimal digit, and a value that fits.
pub open spec fn spec_parse_usize(s: Seq<char>) -> Option<usize> {
    let d = if s.len() > 0 && s[0] == '+' {
        s.drop_first()
    } else {
        s
    };
    if d.len() > 0 && all_digits(d) && digits_value(d) <= usize::MAX {
        Some(digits_value(d) as usize)
    } else {
        None
    }
}

/// A longer run of digits stands for a number at least as large.
proof fn lemma_digits_value_prefix(s: Seq<char>, j: int, n: int)
    requires
        all_digits(s),
        0 <= j <= n <= s.len(),
    ensures
        digits_value(s.take(j)) <= digits_value(s.take(n)),
    decreases n - j,
{
    if j < n {
        lemma_digits_value_prefix(s, j, n - 1);
        assert(s.take(n).drop_last() =~= s.take(n - 1));
        assert(digits_value(s.take(n)) == digits_value(s.take(n - 1)) * 10 + (s[n - 1] as nat
            - '0' as nat) as nat);
        assert(digits_value(s.take(n - 1)) <= digits_value(s.take(n - 1)) * 10) by (nonlinear_arith);
    }
}

/// Reads a decimal number as `str::parse::<usize>` does.
pub fn parse_usize(s: &str) -> (r: Option<usize>)
    ensures
        r == spec_parse_usize(s@),
{
    let n = s.unicode_len();
    let mut i: usize = 0;
    if n > 0 && s.get_char(0) == '+' {
        i = 1;
    }
    let start = i;
    let ghost d = if s@.len() > 0 && s@[0] == '+' {
        s@.drop_first()
    } else {
        s@
    };
    assert(d =~= s@.subrange(start as int, s@.len() as int));
    if start == n {
        return None;
    }
    let mut value: usize = 0;
    while i < n
        invariant
            start <= i <= n,
            n == s@.len(),
            d =~= s@.subrange(start as int, n as int),
            d == (if s@.len() > 0 && s@[0] == '+' {
                s@.drop_first()
            } else {
                s@
            }),
            all_digits(d.take(i - start)),
            value == digits_value(d.take(i - start)),
        decreases n - i,
    {
        let c = s.get_char(i);
        proof {
            assert(d[i - start] == c);
        }
        if c < '0' || c > '9' {
            proof {
                assert(!('0' <= d[(i - start) as int] <= '9'));
            }
            return None;
        }
        let digit = (c as u32 - '0' as u32) as usize;
        proof {
            let k = (i - start) as int;
            assert(d.take(k + 1).drop_last() =~= d.take(k));
            assert(d.take(k + 1).last() == c);
            assert forall|x: int| 0 <= x < k + 1 implies '0' <= #[trigger] d.take(k + 1)[x] <= '9'
                by {
                if x < k {
                    assert(d.take(k + 1)[x] == d.take(k)[x]);
                }
            }
        }
        match value.checked_mul(10) {
            None => {
                proof {
                    let k = (i - start) as int;
                    assert(value * 10 > usize::MAX);
                    assert(digits_value(d.take(k + 1)) == value * 10 + digit);
                    if all_digits(d) {
                        assert(d.take(d.len() as int) =~= d);
                        lemma_digits_value_prefix(d, k + 1, d.len() as int);
                    }
                }
                return None;
            },
            Some(tens) => match tens.checked_add(digit) {
                None => {
                    proof {
                        let k = (i - start) as int;
                        if all_digits(d) {
                            assert(d.take(d.len() as int) =~= d);
                            lemma_digits_value_prefix(d, k + 1, d.len() as int);
                        }
                    }
                    return None;
                },
                Some(v) => {
                    value = v;
                },
            },
        }
        i = i + 1;
    }
    proof {
        assert(d.take(n - start) =~= d);
    }
    Some(value)
}

/// An escaped path segment holds no `/` and no space: a name always stays
/// a single segment of the path.
pub proof fn lemma_path_escape_single_segment(s: Seq<u8>)
    ensures
        forall|i: int| 0 <= i < path_escape(s).len() ==> #[trigger] path_escape(s)[i] != 0x2fu8 && path_escape(s)[i] != 0x20u8,
    decreases s.len(),
{
    if s.len() > 0 {
        lemma_path_escape_single_segment(s.drop_last());
        let l = path_escape(s.drop_last());
        let r = path_escape_byte(s.last());
        let b = s.last();
        assert(hex_upper(b / 16) != 0x2f && hex_upper(b % 16) != 0x2f);
        assert(hex_upper(b / 16) != 0x20 && hex_upper(b % 16) != 0x20);
        assert forall|i: int| 0 <= i < (l + r).len() implies (l + r)[i] != 0x2fu8 && (l + r)[i] != 0x20u8 by {
            if i < l.len() {
                assert((l + r)[i] == l[i]);
            } else {
                assert((l + r)[i] == r[i - l.len()]);
            }
        }
        assert(path_escape(s) == l + r);
    }
}

} // verus!
