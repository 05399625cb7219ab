//! Rendering and parsing of the small textual forms the framework uses:
//! decimal indices in object paths, fixed-width hexadecimal, and
//! hexadecimal access tokens.

use vstd::prelude::*;
use vstd::string::*;

verus! {

/// The character for one digit value, lower-case hexadecimal.
pub open spec fn spec_hex_char(d: nat) -> char {
    if d == 0 {
        '0'
    } else if d == 1 {
        '1'
    } else if d == 2 {
        '2'
    } else if d == 3 {
        '3'
    } else if d == 4 {
        '4'
    } else if d == 5 {
        '5'
    } else if d == 6 {
        '6'
    } else if d == 7 {
        '7'
    } else if d == 8 {
        '8'
    } else if d == 9 {
        '9'
    } else if d == 10 {
        'a'
    } else if d == 11 {
        'b'
    } else if d == 12 {
        'c'
    } else if d == 13 {
        'd'
    } else if d == 14 {
        'e'
    } else {
        'f'
    }
}

/// The decimal rendering of a number, without sign or padding.
pub open spec fn spec_decimal(n: nat) -> Seq<char>
    decreases n,
{
    if n < 10 {
        seq![spec_hex_char(n)]
    } else {
        spec_decimal(n / 10).push(spec_hex_char(n % 10))
    }
}

/// The decimal rendering of a number, zero-padded to at least two digits.
pub open spec fn spec_two_digit(n: nat) -> Seq<char> {
    if n < 10 {
        seq!['0'] + spec_decimal(n)
    } else {
        spec_decimal(n)
    }
}

/// The hexadecimal rendering of the low `width` nibbles of a number,
/// most significant first, lower case.
pub open spec fn spec_hex_fixed(n: nat, width: nat) -> Seq<char>
    decreases width,
{
    if width == 0 {
        Seq::empty()
    } else {
        spec_hex_fixed(n / 16, (width - 1) as nat).push(spec_hex_char(n % 16))
    }
}

/// One digit value as a string slice.
fn digit_str(d: u64) -> (r: &'static str)
    requires
        d < 16,
    ensures
        r@.len() == 1,
        r@[0] == spec_hex_char(d as nat),
{
    proof {
        reveal_strlit("0");
        reveal_strlit("1");
        reveal_strlit("2");
        reveal_strlit("3");
        reveal_strlit("4");
        reveal_strlit("5");
        reveal_strlit("6");
        reveal_strlit("7");
        reveal_strlit("8");
        reveal_strlit("9");
        reveal_strlit("a");
        reveal_strlit("b");
        reveal_strlit("c");
        reveal_strlit("d");
        reveal_strlit("e");
        reveal_strlit("f");
    }
    match d {
        0 => "0",
        1 => "1",
        2 => "2",
        3 => "3",
        4 => "4",
        5 => "5",
        6 => "6",
        7 => "7",
        8 => "8",
        9 => "9",
        10 => "a",
        11 => "b",
        12 => "c",
        13 => "d",
        14 => "e",
        _ => "f",
    }
}

/// Renders a number in decimal.
pub fn format_decimal(n: u64) -> (r: String)
    ensures
        r@ == spec_decimal(n as nat),
    decreases n,
{
    if n < 10 {
        let s = String::from_str(digit_str(n));
        assert(s@ =~= spec_decimal(n as nat));
        s
    } else {
        let mut s = format_decimal(n / 10);
        s.append(digit_str(n % 10));
        assert(s@ =~= spec_decimal(n as nat));
        s
    }
}

/// Renders a number in decimal, zero-padded to at least two digits.
pub fn format_two_digit(n: u64) -> (r: String)
    ensures
        r@ == spec_two_digit(n as nat),
{
    if n < 10 {
        let mut s = String::from_str("0");
        proof {
            reveal_strlit("0");
        }
        s.append(digit_str(n));
        assert(s@ =~= spec_two_digit(n as nat));
        s
    } else {
        format_decimal(n)
    }
}

/// Renders the low `width` nibbles of a number in fixed-width lower-case
/// hexadecimal, most significant first.
pub fn format_hex_fixed(n: u128, width: u32) -> (r: String)
    ensures
        r@ == spec_hex_fixed(n as nat, width as nat),
    decreases width,
{
    if width == 0 {
        let s = String::new();
        assert(s@ =~= spec_hex_fixed(n as nat, width as nat));
        s
    } else {
        let mut s = format_hex_fixed(n / 16, width - 1);
        s.append(digit_str((n % 16) as u64));
        assert(s@ =~= spec_hex_fixed(n as nat, width as nat));
        s
    }
}

/// A decimal rendering consists of decimal digit characters alone.
pub proof fn lemma_decimal_chars_are_digits(n: nat)
    ensures
        forall|i: int|
            0 <= i < spec_decimal(n).len() ==> 48 <= (#[trigger] spec_decimal(n)[i]) as int <= 57,
    decreases n,
{
    if n < 10 {
        assert(48 <= spec_hex_char(n) as int <= 57);
    } else {
        lemma_decimal_chars_are_digits(n / 10);
        assert(48 <= spec_hex_char(n % 10) as int <= 57);
        assert forall|i: int|
            0 <= i < spec_decimal(n).len() implies 48 <= (#[trigger] spec_decimal(n)[i]) as int
            <= 57 by {
            if i < spec_decimal(n / 10).len() {
                assert(spec_decimal(n)[i] == spec_decimal(n / 10)[i]);
            } else {
                assert(spec_decimal(n)[i] == spec_hex_char(n % 10));
            }
        }
    }
}

/// A two-digit rendering consists of decimal digit characters alone.
pub proof fn lemma_two_digit_chars_are_digits(n: nat)
    ensures
        forall|i: int|
            0 <= i < spec_two_digit(n).len() ==> 48 <= (#[trigger] spec_two_digit(n)[i]) as int
                <= 57,
{
    lemma_decimal_chars_are_digits(n);
    if n < 10 {
        assert forall|i: int|
            0 <= i < spec_two_digit(n).len() implies 48 <= (#[trigger] spec_two_digit(n)[i]) as int
            <= 57 by {
            if i == 0 {
                assert(spec_two_digit(n)[0] == '0');
            } else {
                assert(spec_two_digit(n)[i] == spec_decimal(n)[i - 1]);
            }
        }
    }
}

/// A hexadecimal digit, either case.
pub open spec fn is_hex_digit(c: char) -> bool {
    ||| 48 <= c as int <= 57
    ||| 97 <= c as int <= 102
    ||| 65 <= c as int <= 70
}

/// The value of a hexadecimal digit (zero on other characters).
pub open spec fn spec_hex_digit_val(c: char) -> nat {
    if 48 <= c as int <= 57 {
        (c as int - 48) as nat
    } else if 97 <= c as int <= 102 {
        (c as int - 87) as nat
    } else if 65 <= c as int <= 70 {
        (c as int - 55) as nat
    } else {
        0
    }
}

/// The value of a sequence of hexadecimal digits, most significant first.
pub open spec fn spec_hex_value(s: Seq<char>) -> nat
    decreases s.len(),
{
    if s.len() == 0 {
        0
    } else {
        spec_hex_value(s.drop_last()) * 16 + spec_hex_digit_val(s.last())
    }
}

/// Every character is a hexadecimal digit.
pub open spec fn all_hex_digits(s: Seq<char>) -> bool {
    forall|i: int| 0 <= i < s.len() ==> is_hex_digit(s[i])
}

/// The digits of a hexadecimal token: everything after an optional
/// leading plus sign.
pub open spec fn spec_hex_body(s: Seq<char>) -> Seq<char> {
    if s.len() > 0 && s[0] == '+' {
        s.drop_first()
    } else {
        s
    }
}

/// How a hexadecimal access token is read: an optional leading plus sign,
/// then one or more hexadecimal digits of either case, and the value must
/// fit in 64 bits.
pub open spec fn spec_parse_hex_u64(s: Seq<char>) -> Option<u64> {
    let body = spec_hex_body(s);
    if body.len() == 0 || !all_hex_digits(body) || spec_hex_value(body)
        > 0xffff_ffff_ffff_ffff {
        None
    } else {
        Some(spec_hex_value(body) as u64)
    }
}

/// The value of a digit prefix never exceeds the value of the whole
/// digit sequence.
proof fn lemma_hex_value_prefix_le(s: Seq<char>, k: int)
    requires
        0 <= k <= s.len(),
    ensures
        spec_hex_value(s.subrange(0, k)) <= spec_hex_value(s),
    decreases s.len() - k,
{
    if k == s.len() {
        assert(s.subrange(0, k) =~= s);
    } else {
        let shorter = s.subrange(0, k);
        let longer = s.subrange(0, k + 1);
        assert(longer.drop_last() =~= shorter);
        assert(spec_hex_value(longer) == spec_hex_value(shorter) * 16 + spec_hex_digit_val(
            longer.last(),
        ));
        lemma_hex_value_prefix_le(s, k + 1);
        assert(spec_hex_value(s.subrange(0, k + 1)) <= spec_hex_value(s));
    }
}

/// The value of a hexadecimal digit, where it is one.
fn hex_digit_val(c: char) -> (r: Option<u64>)
    ensures
        r is Some <==> is_hex_digit(c),
        r matches Some(v) ==> v == spec_hex_digit_val(c),
{
    let u = c as u32;
    if 48 <= u && u <= 57 {
        Some((u - 48) as u64)
    } else if 97 <= u && u <= 102 {
        Some((u - 87) as u64)
    } else if 65 <= u && u <= 70 {
        Some((u - 55) as u64)
    } else {
        None
    }
}

/// Parses a hexadecimal access token.
pub fn parse_hex_u64(s: &str) -> (r: Option<u64>)
    ensures
        r == spec_parse_hex_u64(s@),
{
    let n = s.unicode_len();
    let start: usize = if n > 0 && s.get_char(0) == '+' {
        1
    } else {
        0
    };
    let ghost body = spec_hex_body(s@);
    assert(body =~= s@.subrange(start as int, n as int));
    if n == start {
        return None;
    }
    let mut acc: u64 = 0;
    let mut i: usize = start;
    while i < n
        invariant
            start <= i <= n,
            start < n,
            n == s@.len(),
            body == spec_hex_body(s@),
            body == s@.subrange(start as int, n as int),
            all_hex_digits(body.subrange(0, i - start)),
            acc == spec_hex_value(body.subrange(0, i - start)),
        decreases n - i,
    {
        let c = s.get_char(i);
        let d = match hex_digit_val(c) {
            None => {
                proof {
                    assert(body[i - start] == c);
                    assert(!is_hex_digit(body[i - start]));
                    assert(!all_hex_digits(body));
                }
                return None;
            },
            Some(d) => d,
        };
        let ghost prefix = body.subrange(0, i - start);
        let ghost prefix1 = body.subrange(0, i + 1 - start);
        assert(prefix1.drop_last() =~= prefix);
        assert(prefix1.last() == c);
        if acc > (u64::MAX - d) / 16 {
            proof {
                assert(spec_hex_value(prefix1) == acc * 16 + d);
                assert(acc * 16 + d > u64::MAX) by (nonlinear_arith)
                    requires
                        acc > (u64::MAX - d) / 16,
                        d < 16,
                ;
                lemma_hex_value_prefix_le(body, i + 1 - start);
            }
            return None;
        }
        assert(acc * 16 + d <= u64::MAX) by (nonlinear_arith)
            requires
                acc <= (u64::MAX - d) / 16,
                d < 16,
        ;
        acc = acc * 16 + d;
        i = i + 1;
    }
    assert(body.subrange(0, n - start) =~= body);
    Some(acc)
}

} // verus!
