//! Verified conversions between integers and their decimal, hexadecimal and
//! binary text forms, as the command grammar writes them.

use vstd::prelude::*;
use vstd::string::*;

verus! {

/// The decimal digit character for a value below ten.
pub open spec fn dec_digit(d: int) -> char {
    if d == 0 {
        '0'
    } else if d == 1 {
        '1'
    } else if d == 2 {
        '2'
    } else if d == 3 {
        '3'
    } else if d == 4 {
        '4'
    } else if d == 5 {
        '5'
    } else if d == 6 {
        '6'
    } else if d == 7 {
        '7'
    } else if d == 8 {
        '8'
    } else {
        '9'
    }
}

/// The decimal digits of a non-negative number, most significant first.
pub open spec fn dec_seq(n: int) -> Seq<char>
    decreases n,
{
    if n < 10 {
        seq![dec_digit(n)]
    } else {
        dec_seq(n / 10).push(dec_digit(n % 10))
    }
}

/// A signed number in decimal: a minus sign for negative values, then the
/// digits of the magnitude.
pub open spec fn int_seq(n: int) -> Seq<char> {
    if n < 0 {
        seq!['-'] + dec_seq(-n)
    } else {
        dec_seq(n)
    }
}

/// The one-character string for a decimal digit.
pub fn digit_str(d: u8) -> (r: &'static str)
    requires
        d < 10,
    ensures
        r@ =~= seq![dec_digit(d as int)],
{
    proof {
        reveal_strlit("0");
        reveal_strlit("1");
        reveal_strlit("2");
        reveal_strlit("3");
        reveal_strlit("4");
        reveal_strlit("5");
        reveal_strlit("6");
        reveal_strlit("7");
        reveal_strlit("8");
        reveal_strlit("9");
    }
    match d {
        0 => "0",
        1 => "1",
        2 => "2",
        3 => "3",
        4 => "4",
        5 => "5",
        6 => "6",
        7 => "7",
        8 => "8",
        _ => "9",
    }
}

/// Writes a number in decimal, as [`dec_seq`] describes.
pub fn u64_string(n: u64) -> (r: String)
    ensures
        r@ == dec_seq(n as int),
    decreases n,
{
    if n < 10 {
        digit_str(n as u8).to_owned()
    } else {
        let mut s = u64_string(n / 10);
        s.append(digit_str((n % 10) as u8));
        proof {
            assert(s@ =~= dec_seq(n as int / 10).push(dec_digit(n as int % 10)));
        }
        s
    }
}

/// Writes a number in decimal.
pub fn u32_string(n: u32) -> (r: String)
    ensures
        r@ == dec_seq(n as int),
{
    u64_string(n as u64)
}

/// Writes a number in decimal.
pub fn usize_string(n: usize) -> (r: String)
    ensures
        r@ == dec_seq(n as int),
{
    u64_string(n as u64)
}

/// Writes a signed number in decimal, as [`int_seq`] describes.
pub fn i32_string(n: i32) -> (r: String)
    ensures
        r@ == int_seq(n as int),
{
    if n < 0 {
        let m = -(n as i64);
        let mut s = "-".to_owned();
        s.append(u64_string(m as u64).as_str());
        proof {
            reveal_strlit("-");
            assert("-"@ =~= seq!['-']);
        }
        s
    } else {
        u64_string(n as u64)
    }
}

/// Whether `c` is a decimal digit.
pub open spec fn is_dec_digit(c: char) -> bool {
    48 <= c as int <= 57
}

/// The value of a decimal digit character.
pub open spec fn digit_val(c: char) -> int {
    c as int - 48
}

/// The value of a digit string read in base ten.
pub open spec fn dec_val(s: Seq<char>) -> int
    decreases s.len(),
{
    if s.len() == 0 {
        0
    } else {
        dec_val(s.drop_last()) * 10 + digit_val(s.last())
    }
}

pub open spec fn all_dec_digits(s: Seq<char>) -> bool {
    forall|i: int| 0 <= i < s.len() ==> is_dec_digit(#[trigger] s[i])
}

pub proof fn lemma_dec_val_nonneg(s: Seq<char>)
    requires
        all_dec_digits(s),
    ensures
        dec_val(s) >= 0,
    decreases s.len(),
{
    if s.len() > 0 {
        assert(all_dec_digits(s.drop_last()));
        lemma_dec_val_nonneg(s.drop_last());
    }
}

/// Reading more digits never shrinks the value.
pub proof fn lemma_dec_val_prefix(s: Seq<char>, k: int)
    requires
        all_dec_digits(s),
        0 <= k <= s.len(),
    ensures
        dec_val(s.take(k)) <= dec_val(s),
    decreases s.len(),
{
    if k < s.len() {
        assert(all_dec_digits(s.drop_last()));
        assert(s.take(k) =~= s.drop_last().take(k));
        lemma_dec_val_prefix(s.drop_last(), k);
        lemma_dec_val_nonneg(s.drop_last());
        assert(dec_val(s.drop_last()) * 10 >= dec_val(s.drop_last()));
        assert(digit_val(s.last()) >= 0);
    } else {
        assert(s.take(k) =~= s);
    }
}

/// The value of a digit string after an optional plus sign; `None` where the
/// text is not a plain decimal number.
pub open spec fn parse_uint_spec(s: Seq<char>) -> Option<int> {
    let body = if s.len() > 0 && s[0] == '+' {
        s.drop_first()
    } else {
        s
    };
    if body.len() > 0 && all_dec_digits(body) {
        Some(dec_val(body))
    } else {
        None
    }
}

/// The value of a digit string after an optional sign; `None` where the
/// text is not a plain decimal number.
pub open spec fn parse_int_spec(s: Seq<char>) -> Option<int> {
    let body = if s.len() > 0 && (s[0] == '-' || s[0] == '+') {
        s.drop_first()
    } else {
        s
    };
    if body.len() > 0 && all_dec_digits(body) {
        if s.len() > 0 && s[0] == '-' {
            Some(-dec_val(body))
        } else {
            Some(dec_val(body))
        }
    } else {
        None
    }
}

/// A signed 32-bit reading: the decimal value where the text is a plain
/// decimal number in range, `None` otherwise.
pub open spec fn parse_i32_spec(s: Seq<char>) -> Option<i32> {
    match parse_int_spec(s) {
        Some(v) => if i32::MIN <= v <= i32::MAX {
            Some(v as i32)
        } else {
            None
        },
        None => None,
    }
}

/// A signed 64-bit reading.
pub open spec fn parse_i64_spec(s: Seq<char>) -> Option<i64> {
    match parse_int_spec(s) {
        Some(v) => if i64::MIN <= v <= i64::MAX {
            Some(v as i64)
        } else {
            None
        },
        None => None,
    }
}

/// An unsigned 32-bit reading; a minus sign is never accepted.
pub open spec fn parse_u32_spec(s: Seq<char>) -> Option<u32> {
    match parse_uint_spec(s) {
        Some(v) => if v <= u32::MAX {
            Some(v as u32)
        } else {
            None
        },
        None => None,
    }
}

/// An unsigned 16-bit reading; a minus sign is never accepted.
pub open spec fn parse_u16_spec(s: Seq<char>) -> Option<u16> {
    match parse_uint_spec(s) {
        Some(v) => if v <= u16::MAX {
            Some(v as u16)
        } else {
            None
        },
        None => None,
    }
}

/// Reads the decimal digits of `s` from position `off` on. `Some(v)` exactly
/// when the rest is one or more digits whose value is at most `u64::MAX`.
fn parse_digits(s: &str, off: usize) -> (r: Option<u64>)
    requires
        off <= s@.len(),
    ensures
        (match r {
            Some(v) => {
                let body = s@.skip(off as int);
                body.len() > 0 && all_dec_digits(body) && v == dec_val(body)
            },
            None => {
                let body = s@.skip(off as int);
                body.len() == 0 || !all_dec_digits(body) || dec_val(body) > u64::MAX
            },
        }),
{
    let n = s.unicode_len();
    let ghost body = s@.skip(off as int);
    if off == n {
        return None;
    }
    let mut acc: u128 = 0;
    let mut i: usize = off;
    while i < n
        invariant
            off <= i <= n,
            n == s@.len(),
            body == s@.skip(off as int),
            acc == dec_val(s@.subrange(off as int, i as int)),
            acc <= u64::MAX,
            all_dec_digits(s@.subrange(off as int, i as int)),
        decreases n - i,
    {
        let c = s.get_char(i);
        let cv = c as u32;
        let ghost prefix = s@.subrange(off as int, i as int);
        let ghost prefix1 = s@.subrange(off as int, i + 1);
        proof {
            assert(prefix1.drop_last() =~= prefix);
            assert(prefix1.last() == s@[i as int]);
        }
        if cv < 48 || cv > 57 {
            proof {
                assert(body[i - off] == s@[i as int]);
                assert(!is_dec_digit(body[i - off]));
            }
            return None;
        }
        assert(all_dec_digits(prefix1));
        acc = acc * 10 + ((cv - 48) as u128);
        if acc > u64::MAX as u128 {
            proof {
                assert(body.take(i + 1 - off) =~= prefix1);
                if all_dec_digits(body) {
                    lemma_dec_val_prefix(body, i + 1 - off);
                }
            }
            return None;
        }
        i = i + 1;
    }
    proof {
        assert(s@.subrange(off as int, n as int) =~= body);
    }
    Some(acc as u64)
}

/// Reads a signed 32-bit decimal number, as [`parse_i32_spec`] describes.
pub fn parse_i32(s: &str) -> (r: Option<i32>)
    ensures
        r == parse_i32_spec(s@),
{
    let n = s.unicode_len();
    let mut neg = false;
    let mut off: usize = 0;
    if n > 0 {
        let c = s.get_char(0);
        if c == '-' {
            neg = true;
            off = 1;
        } else if c == '+' {
            off = 1;
        }
    }
    proof {
        if off == 0 {
            assert(s@.skip(0) =~= s@);
        } else {
            assert(s@.skip(1) =~= s@.drop_first());
        }
    }
    match parse_digits(s, off) {
        None => None,
        Some(v) => {
            if neg {
                if v > 2147483648 {
                    None
                } else if v == 2147483648 {
                    Some(i32::MIN)
                } else {
                    Some(-(v as i32))
                }
            } else {
                if v > 2147483647 {
                    None
                } else {
                    Some(v as i32)
                }
            }
        },
    }
}

/// Reads a signed 64-bit decimal number, as [`parse_i64_spec`] describes.
pub fn parse_i64(s: &str) -> (r: Option<i64>)
    ensures
        r == parse_i64_spec(s@),
{
    let n = s.unicode_len();
    let mut neg = false;
    let mut off: usize = 0;
    if n > 0 {
        let c = s.get_char(0);
        if c == '-' {
            neg = true;
            off = 1;
        } else if c == '+' {
            off = 1;
        }
    }
    proof {
        if off == 0 {
            assert(s@.skip(0) =~= s@);
        } else {
            assert(s@.skip(1) =~= s@.drop_first());
        }
    }
    match parse_digits(s, off) {
        None => None,
        Some(v) => {
            if neg {
                if v > 9223372036854775808 {
                    None
                } else if v == 9223372036854775808 {
                    Some(i64::MIN)
                } else {
                    Some(-(v as i64))
                }
            } else {
                if v > 9223372036854775807 {
                    None
                } else {
                    Some(v as i64)
                }
            }
        },
    }
}

/// Reads an unsigned 32-bit decimal number, as [`parse_u32_spec`] describes.
pub fn parse_u32(s: &str) -> (r: Option<u32>)
    ensures
        r == parse_u32_spec(s@),
{
    let n = s.unicode_len();
    let mut off: usize = 0;
    if n > 0 && s.get_char(0) == '+' {
        off = 1;
    }
    proof {
        if off == 0 {
            assert(s@.skip(0) =~= s@);
        } else {
            assert(s@.skip(1) =~= s@.drop_first());
        }
    }
    match parse_digits(s, off) {
        None => None,
        Some(v) => {
            if v > 4294967295 {
                None
            } else {
                Some(v as u32)
            }
        },
    }
}

/// Reads an unsigned 16-bit decimal number, as [`parse_u16_spec`] describes.
pub fn parse_u16(s: &str) -> (r: Option<u16>)
    ensures
        r == parse_u16_spec(s@),
{
    let n = s.unicode_len();
    let mut off: usize = 0;
    if n > 0 && s.get_char(0) == '+' {
        off = 1;
    }
    proof {
        if off == 0 {
            assert(s@.skip(0) =~= s@);
        } else {
            assert(s@.skip(1) =~= s@.drop_first());
        }
    }
    match parse_digits(s, off) {
        None => None,
        Some(v) => {
            if v > 65535 {
                None
            } else {
                Some(v as u16)
            }
        },
    }
}

/// Whether `c` is a hexadecimal digit, of either case.
pub open spec fn is_hex_digit(c: char) -> bool {
    48 <= c as int <= 57 || 97 <= c as int <= 102 || 65 <= c as int <= 70
}

/// The value of a hexadecimal digit character.
pub open spec fn hex_digit_val(c: char) -> int {
    if 48 <= c as int <= 57 {
        c as int - 48
    } else if 97 <= c as int <= 102 {
        c as int - 87
    } else {
        c as int - 55
    }
}

/// The value of a digit string read in base sixteen.
pub open spec fn hex_val(s: Seq<char>) -> int
    decreases s.len(),
{
    if s.len() == 0 {
        0
    } else {
        hex_val(s.drop_last()) * 16 + hex_digit_val(s.last())
    }
}

pub open spec fn all_hex_digits(s: Seq<char>) -> bool {
    forall|i: int| 0 <= i < s.len() ==> is_hex_digit(#[trigger] s[i])
}

pub proof fn lemma_hex_val_nonneg(s: Seq<char>)
    requires
        all_hex_digits(s),
    ensures
        hex_val(s) >= 0,
    decreases s.len(),
{
    if s.len() > 0 {
        assert(all_hex_digits(s.drop_last()));
        lemma_hex_val_nonneg(s.drop_last());
    }
}

pub proof fn lemma_hex_val_prefix(s: Seq<char>, k: int)
    requires
        all_hex_digits(s),
        0 <= k <= s.len(),
    ensures
        hex_val(s.take(k)) <= hex_val(s),
    decreases s.len(),
{
    if k < s.len() {
        assert(all_hex_digits(s.drop_last()));
        assert(s.take(k) =~= s.drop_last().take(k));
        lemma_hex_val_prefix(s.drop_last(), k);
        lemma_hex_val_nonneg(s.drop_last());
        assert(hex_val(s.drop_last()) * 16 >= hex_val(s.drop_last()));
        assert(hex_digit_val(s.last()) >= 0);
    } else {
        assert(s.take(k) =~= s);
    }
}

/// An unsigned 32-bit reading of hexadecimal text, after an optional plus
/// sign; `None` where the text is not hexadecimal or out of range.
pub open spec fn parse_hex_u32_spec(s: Seq<char>) -> Option<u32> {
    let body = if s.len() > 0 && s[0] == '+' {
        s.drop_first()
    } else {
        s
    };
    if body.len() > 0 && all_hex_digits(body) && hex_val(body) <= u32::MAX {
        Some(hex_val(body) as u32)
    } else {
        None
    }
}

/// Reads an unsigned 32-bit hexadecimal number, as [`parse_hex_u32_spec`]
/// describes.
pub fn parse_hex_u32(s: &str) -> (r: Option<u32>)
    ensures
        r == parse_hex_u32_spec(s@),
{
    let n = s.unicode_len();
    let mut off: usize = 0;
    if n > 0 && s.get_char(0) == '+' {
        off = 1;
    }
    proof {
        if off == 0 {
            assert(s@.skip(0) =~= s@);
        } else {
            assert(s@.skip(1) =~= s@.drop_first());
        }
    }
    let ghost body = s@.skip(off as int);
    if off == n {
        return None;
    }
    let mut acc: u64 = 0;
    let mut i: usize = off;
    while i < n
        invariant
            off <= i <= n,
            n == s@.len(),
            body == s@.skip(off as int),
            (s@.len() > 0 && s@[0] == '+') ==> (off == 1 && body == s@.drop_first()),
            !(s@.len() > 0 && s@[0] == '+') ==> (off == 0 && body == s@),
            acc == hex_val(s@.subrange(off as int, i as int)),
            acc <= u32::MAX,
            all_hex_digits(s@.subrange(off as int, i as int)),
        decreases n - i,
    {
        let c = s.get_char(i);
        let cv = c as u32;
        let ghost prefix = s@.subrange(off as int, i as int);
        let ghost prefix1 = s@.subrange(off as int, i + 1);
        proof {
            assert(prefix1.drop_last() =~= prefix);
            assert(prefix1.last() == s@[i as int]);
        }
        let d: u64 = if 48 <= cv && cv <= 57 {
            (cv - 48) as u64
        } else if 97 <= cv && cv <= 102 {
            (cv - 87) as u64
        } else if 65 <= cv && cv <= 70 {
            (cv - 55) as u64
        } else {
            proof {
                assert(body[i - off] == s@[i as int]);
                assert(!is_hex_digit(body[i - off]));
            }
            return None;
        };
        assert(all_hex_digits(prefix1));
        acc = acc * 16 + d;
        if acc > 4294967295 {
            proof {
                assert(body.take(i + 1 - off) =~= prefix1);
                if all_hex_digits(body) {
                    lemma_hex_val_prefix(body, i + 1 - off);
                }
            }
            return None;
        }
        i = i + 1;
    }
    proof {
        assert(s@.subrange(off as int, n as int) =~= body);
    }
    Some(acc as u32)
}

/// The lowercase hexadecimal digit character for a value below sixteen.
pub open spec fn hex_digit(d: int) -> char {
    if d < 10 {
        dec_digit(d)
    } else if d == 10 {
        'a'
    } else if d == 11 {
        'b'
    } else if d == 12 {
        'c'
    } else if d == 13 {
        'd'
    } else if d == 14 {
        'e'
    } else {
        'f'
    }
}

/// The lowercase hexadecimal digits of a non-negative number, most
/// significant first, no padding.
pub open spec fn hex_seq(n: int) -> Seq<char>
    decreases n,
{
    if n < 16 {
        seq![hex_digit(n)]
    } else {
        hex_seq(n / 16).push(hex_digit(n % 16))
    }
}

/// The one-character string for a lowercase hexadecimal digit.
pub fn hex_digit_str(d: u8) -> (r: &'static str)
    requires
        d < 16,
    ensures
        r@ =~= seq![hex_digit(d as int)],
{
    if d < 10 {
        digit_str(d)
    } else {
        proof {
            reveal_strlit("a");
            reveal_strlit("b");
            reveal_strlit("c");
            reveal_strlit("d");
            reveal_strlit("e");
            reveal_strlit("f");
        }
        match d {
            10 => "a",
            11 => "b",
            12 => "c",
            13 => "d",
            14 => "e",
            _ => "f",
        }
    }
}

/// Writes a number in lowercase hexadecimal, as [`hex_seq`] describes.
pub fn u32_hex_string(n: u32) -> (r: String)
    ensures
        r@ == hex_seq(n as int),
    decreases n,
{
    if n < 16 {
        hex_digit_str(n as u8).to_owned()
    } else {
        let mut s = u32_hex_string(n / 16);
        s.append(hex_digit_str((n % 16) as u8));
        proof {
            assert(s@ =~= hex_seq(n as int / 16).push(hex_digit(n as int % 16)));
        }
        s
    }
}

/// The binary digits of a non-negative number, most significant first,
/// no padding.
pub open spec fn bin_seq(n: int) -> Seq<char>
    decreases n,
{
    if n < 2 {
        seq![dec_digit(n)]
    } else {
        bin_seq(n / 2).push(dec_digit(n % 2))
    }
}

/// A string of `k` zero characters.
pub open spec fn zeros(k: int) -> Seq<char> {
    Seq::new(if k < 0 {
        0
    } else {
        k as nat
    }, |i: int| '0')
}

/// A number written as the interpreter's flag word: a `0b` prefix, then the
/// binary digits zero-padded to at least ten places.
pub open spec fn flags_binary_spec(n: int) -> Seq<char> {
    seq!['0', 'b'] + zeros(10 - bin_seq(n).len()) + bin_seq(n)
}

/// Writes a flag word in padded binary, as [`flags_binary_spec`] describes.
pub fn u32_flags_binary(n: u32) -> (r: String)
    ensures
        r@ == flags_binary_spec(n as int),
{
    let digits = u32_bin_string(n);
    let mut r = "0b".to_owned();
    proof {
        reveal_strlit("0b");
        assert("0b"@ =~= seq!['0', 'b']);
    }
    let dn = digits.as_str().unicode_len();
    let mut k: usize = dn;
    while k < 10
        invariant
            dn == bin_seq(n as int).len(),
            dn <= k <= 10 || (k == dn && dn >= 10),
            r@ == seq!['0', 'b'] + zeros(k - dn),
        decreases 10 - k,
    {
        r.append("0");
        proof {
            reveal_strlit("0");
            assert("0"@ =~= seq!['0']);
            assert(seq!['0', 'b'] + zeros(k + 1 - dn) =~= (seq!['0', 'b'] + zeros(k - dn)) + seq![
                '0',
            ]);
        }
        k = k + 1;
    }
    r.append(digits.as_str());
    proof {
        assert(zeros(0) =~= Seq::<char>::empty());
        assert(r@ =~= flags_binary_spec(n as int));
    }
    r
}

/// Writes a number in binary, as [`bin_seq`] describes.
pub fn u32_bin_string(n: u32) -> (r: String)
    ensures
        r@ == bin_seq(n as int),
    decreases n,
{
    if n < 2 {
        digit_str(n as u8).to_owned()
    } else {
        let mut s = u32_bin_string(n / 2);
        s.append(digit_str((n % 2) as u8));
        proof {
            assert(s@ =~= bin_seq(n as int / 2).push(dec_digit(n as int % 2)));
        }
        s
    }
}

/// A string of `k` space characters.
pub open spec fn spaces(k: int) -> Seq<char> {
    Seq::new(if k < 0 {
        0
    } else {
        k as nat
    }, |i: int| ' ')
}

/// `s` padded with spaces on the left to at least `w` characters.
pub open spec fn pad_left_spec(s: Seq<char>, w: int) -> Seq<char> {
    spaces(w - s.len()) + s
}

/// `s` padded with spaces on the right to at least `w` characters.
pub open spec fn pad_right_spec(s: Seq<char>, w: int) -> Seq<char> {
    s + spaces(w - s.len())
}

/// Pads on the left with spaces, as [`pad_left_spec`] describes.
pub fn pad_left(s: &str, w: usize) -> (r: String)
    ensures
        r@ == pad_left_spec(s@, w as int),
{
    let n = s.unicode_len();
    let mut r = String::new();
    let mut k: usize = n;
    proof {
        assert(spaces(0) =~= Seq::<char>::empty());
        assert(r@ =~= spaces(n - n));
    }
    while k < w
        invariant
            n == s@.len(),
            n <= k <= w || k == n,
            r@ == spaces(k - n),
        decreases w - k,
    {
        r.append(" ");
        proof {
            reveal_strlit(" ");
            assert(" "@ =~= seq![' ']);
            assert(spaces(k + 1 - n) =~= spaces(k - n) + seq![' ']);
        }
        k = k + 1;
    }
    r.append(s);
    proof {
        assert(r@ =~= pad_left_spec(s@, w as int));
    }
    r
}

/// Pads on the right with spaces, as [`pad_right_spec`] describes.
pub fn pad_right(s: &str, w: usize) -> (r: String)
    ensures
        r@ == pad_right_spec(s@, w as int),
{
    let n = s.unicode_len();
    let mut r = s.to_owned();
    let mut k: usize = n;
    proof {
        assert(spaces(0) =~= Seq::<char>::empty());
        assert(r@ =~= s@ + spaces(k - n));
    }
    while k < w
        invariant
            n == s@.len(),
            n <= k <= w || k == n,
            r@ == s@ + spaces(k - n),
        decreases w - k,
    {
        r.append(" ");
        proof {
            reveal_strlit(" ");
            assert(" "@ =~= seq![' ']);
            assert(s@ + spaces(k + 1 - n) =~= (s@ + spaces(k - n)) + seq![' ']);
        }
        k = k + 1;
    }
    proof {
        assert(r@ =~= pad_right_spec(s@, w as int));
    }
    r
}


/// Writes a signed number in decimal, as [`int_seq`] describes.
pub fn i64_string(n: i64) -> (r: String)
    ensures
        r@ == int_seq(n as int),
{
    if n < 0 {
        let m = if n == i64::MIN {
            9223372036854775808u64
        } else {
            (-n) as u64
        };
        let mut s = "-".to_owned();
        s.append(u64_string(m).as_str());
        proof {
            reveal_strlit("-");
            assert("-"@ =~= seq!['-']);
        }
        s
    } else {
        u64_string(n as u64)
    }
}


/// Division truncated toward zero, as the machine divides signed numbers.
pub open spec fn trunc_div(n: int, d: int) -> int {
    if n >= 0 {
        n / d
    } else {
        -((-n) / d)
    }
}

/// Divides a signed number by a positive constant, truncating toward zero,
/// as [`trunc_div`] describes.
pub fn i32_div(n: i32, d: u32) -> (r: i32)
    requires
        0 < d,
    ensures
        r == trunc_div(n as int, d as int),
{
    if n >= 0 {
        let q = (n as u32) / d;
        proof {
            assert((n as u32) / d <= n as u32) by (nonlinear_arith)
                requires 0 < d,
            ;
        }
        q as i32
    } else {
        let m = ((-(n as i64)) as u64) / (d as u64);
        proof {
            assert(((-(n as i64)) as u64) / (d as u64) <= (-(n as i64)) as u64)
                by (nonlinear_arith)
                requires 0 < d,
            ;
        }
        (-(m as i64)) as i32
    }
}

/// The product of a signed number and a small positive factor, widened so
/// that it cannot overflow.
pub fn scale_i32(n: i32, k: u32) -> (r: i64)
    requires
        k <= 1000000,
    ensures
        r == n as int * k as int,
{
    proof {
        assert(-9223372036854775808 <= n as int * k as int <= 9223372036854775807)
            by (nonlinear_arith)
            requires -2147483648 <= n as int <= 2147483647 && 0 <= k as int <= 1000000,
        ;
    }
    (n as i64) * (k as i64)
}


/// Addition clamped to the signed 64-bit range.
pub open spec fn sat_add_i64(a: int, b: int) -> int {
    if a + b > 9223372036854775807 {
        9223372036854775807
    } else if a + b < -9223372036854775808 {
        -9223372036854775808
    } else {
        a + b
    }
}

/// Adds two signed numbers, clamping at the 64-bit bounds, as
/// [`sat_add_i64`] describes.
pub fn i64_sat_add(a: i64, b: i64) -> (r: i64)
    ensures
        r == sat_add_i64(a as int, b as int),
{
    if b >= 0 {
        if a <= i64::MAX - b {
            a + b
        } else {
            i64::MAX
        }
    } else {
        if a >= i64::MIN - b {
            a + b
        } else {
            i64::MIN
        }
    }
}

} // verus!
