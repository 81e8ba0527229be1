//! Text helpers shared by the rest of the crate: digit rendering and parsing,
//! whitespace trimming and the parts of a file name.

use vstd::prelude::*;
use vstd::arithmetic::div_mod::lemma_div_denominator;
use trim_in_place::TrimInPlace;

verus! {

/// Sixteen to the power `n`.
pub open spec fn pow16(n: nat) -> int
    decreases n,
{
    if n == 0 {
        1
    } else {
        16 * pow16((n - 1) as nat)
    }
}

/// The lowercase hexadecimal digit of a value below sixteen.
pub open spec fn hex_digit(d: int) -> char {
    if d < 10 {
        (('0' as u8) + d) as u8 as char
    } else {
        (('a' as u8) + (d - 10)) as u8 as char
    }
}

/// The digits of `value` in base sixteen, most significant first, padded with
/// zeros to `width` digits.
pub open spec fn hex_digits(value: int, width: nat) -> Seq<char>
    decreases width,
{
    if width == 0 {
        Seq::empty()
    } else {
        hex_digits(value / 16, (width - 1) as nat).push(hex_digit(value % 16))
    }
}

/// The value of a lowercase hexadecimal digit, if `c` is one.
pub open spec fn hex_digit_value(c: char) -> Option<int> {
    if '0' <= c && c <= '9' {
        Some((c as u8) - ('0' as u8))
    } else if 'a' <= c && c <= 'f' {
        Some((c as u8) - ('a' as u8) + 10)
    } else {
        None
    }
}

/// Whether every character of `s` is a lowercase hexadecimal digit.
pub open spec fn is_lower_hex(s: Seq<char>) -> bool {
    forall|i: int| 0 <= i < s.len() ==> (#[trigger] hex_digit_value(s[i])) is Some
}

/// The number that the lowercase hexadecimal digits of `s` spell.
pub open spec fn hex_value(s: Seq<char>) -> int
    decreases s.len(),
{
    if s.len() == 0 {
        0
    } else {
        hex_value(s.drop_last()) * 16 + hex_digit_value(s.last()).unwrap()
    }
}

/// What `parse_hex32` returns: the value spelled by exactly 32 lowercase
/// hexadecimal digits, and nothing for any other text.
pub open spec fn parse_hex32_spec(s: Seq<char>) -> Option<u128> {
    if s.len() == 32 && is_lower_hex(s) {
        Some(hex_value(s) as u128)
    } else {
        None
    }
}

/// Appends one character to a string.
///
/// Trusted: wraps `String::push`, which appends the given `char` to the end
/// of the string.
#[verifier::external_body]
pub(crate) fn push_char(s: &mut String, c: char)
    ensures
        final(s)@ == old(s)@.push(c),
{
    s.push(c)
}

fn hex_char(d: u8) -> (c: char)
    requires
        d < 16,
    ensures
        c == hex_digit(d as int),
{
    if d < 10 {
        (('0' as u8) + d) as char
    } else {
        (('a' as u8) + (d - 10)) as char
    }
}

proof fn lemma_pow16_positive(n: nat)
    ensures
        pow16(n) > 0,
    decreases n,
{
    if n > 0 {
        lemma_pow16_positive((n - 1) as nat);
    }
}

proof fn lemma_pow16_31()
    ensures
        pow16(31) == 0x1000_0000_0000_0000_0000_0000_0000_0000int,
        pow16(32) == 0x1_0000_0000_0000_0000_0000_0000_0000_0000int,
{
    reveal_with_fuel(pow16, 33);
}

/// Renders a 128-bit value as exactly 32 lowercase hexadecimal digits.
pub fn hex32(value: u128) -> (s: String)
    ensures
        s@ == hex_digits(value as int, 32),
{
    let mut s = String::new();
    let mut i: u32 = 0;
    let mut p: u128 = 0x1000_0000_0000_0000_0000_0000_0000_0000;
    proof {
        lemma_pow16_31();
        assert((value as int) / pow16(32) == 0);
    }
    while i < 32
        invariant
            i <= 32,
            i < 32 ==> p as int == pow16((31 - i) as nat),
            s@ == hex_digits((value as int) / pow16((32 - i) as nat), i as nat),
        decreases 32 - i,
    {
        proof {
            lemma_pow16_positive((31 - i) as nat);
        }
        let q: u128 = value / p;
        let d: u8 = (q % 16) as u8;
        proof {
            lemma_div_denominator(value as int, p as int, 16);
            assert(pow16((32 - i) as nat) == 16 * pow16((31 - i) as nat));
            assert(p as int * 16 == pow16((32 - i) as nat)) by (nonlinear_arith)
                requires
                    pow16((32 - i) as nat) == 16 * pow16((31 - i) as nat),
                    p as int == pow16((31 - i) as nat),
            ;
        }
        let c = hex_char(d);
        push_char(&mut s, c);
        if i < 31 {
            proof {
                assert(pow16((31 - i) as nat) == 16 * pow16((30 - i) as nat));
            }
            p = p / 16;
        }
        i = i + 1;
    }
    assert(pow16(0) == 1);
    s
}

proof fn lemma_hex_digit_round_trip(d: int)
    requires
        0 <= d < 16,
    ensures
        hex_digit_value(hex_digit(d)) == Some(d),
{
}

proof fn lemma_hex_digit_inverse(c: char)
    requires
        hex_digit_value(c) is Some,
    ensures
        0 <= hex_digit_value(c).unwrap() < 16,
        hex_digit(hex_digit_value(c).unwrap()) == c,
{
}

/// The digits of a number spell that number.
pub proof fn lemma_hex_digits_value(value: int, width: nat)
    requires
        0 <= value < pow16(width),
    ensures
        hex_digits(value, width).len() == width,
        is_lower_hex(hex_digits(value, width)),
        hex_value(hex_digits(value, width)) == value,
    decreases width,
{
    if width > 0 {
        let rest = hex_digits(value / 16, (width - 1) as nat);
        let s = hex_digits(value, width);
        assert(value / 16 < pow16((width - 1) as nat)) by (nonlinear_arith)
            requires
                0 <= value < 16 * pow16((width - 1) as nat),
        ;
        lemma_hex_digits_value(value / 16, (width - 1) as nat);
        lemma_hex_digit_round_trip(value % 16);
        assert(s.drop_last() =~= rest);
        assert forall|i: int| 0 <= i < s.len() implies (#[trigger] hex_digit_value(s[i])) is Some by {
            if i < rest.len() {
                assert(s[i] == rest[i]);
            }
        }
    }
}

/// A text of hexadecimal digits is the rendering of the number it spells.
pub proof fn lemma_hex_value_digits(s: Seq<char>)
    requires
        is_lower_hex(s),
    ensures
        0 <= hex_value(s) < pow16(s.len()),
        hex_digits(hex_value(s), s.len()) == s,
    decreases s.len(),
{
    if s.len() > 0 {
        let rest = s.drop_last();
        assert forall|i: int| 0 <= i < rest.len() implies (#[trigger] hex_digit_value(rest[i])) is Some by {
            assert(rest[i] == s[i]);
        }
        lemma_hex_value_digits(rest);
        lemma_hex_digit_inverse(s.last());
        let d = hex_digit_value(s.last()).unwrap();
        let v = hex_value(s);
        assert(v / 16 == hex_value(rest) && v % 16 == d) by (nonlinear_arith)
            requires
                v == hex_value(rest) * 16 + d,
                0 <= d < 16,
        ;
        assert(v < 16 * pow16(rest.len())) by (nonlinear_arith)
            requires
                v == hex_value(rest) * 16 + d,
                0 <= d < 16,
                0 <= hex_value(rest) < pow16(rest.len()),
        ;
        assert(hex_digits(v, s.len()) =~= s);
    }
}

/// Rendering then parsing gives the value back.
pub proof fn law_hex32_round_trip(value: u128)
    ensures
        parse_hex32_spec(hex_digits(value as int, 32)) == Some(value),
{
    lemma_pow16_31();
    lemma_hex_digits_value(value as int, 32);
}

/// Only the rendering of a value parses to that value.
pub proof fn law_hex32_names_one_value(s: Seq<char>)
    ensures
        parse_hex32_spec(s) matches Some(value) ==> s == hex_digits(value as int, 32),
{
    if s.len() == 32 && is_lower_hex(s) {
        lemma_pow16_31();
        lemma_hex_value_digits(s);
    }
}

fn hex_char_value(c: char) -> (r: Option<u8>)
    ensures
        match r {
            Some(d) => hex_digit_value(c) == Some(d as int) && d < 16,
            None => hex_digit_value(c) is None,
        },
{
    if '0' <= c && c <= '9' {
        Some((c as u8) - ('0' as u8))
    } else if 'a' <= c && c <= 'f' {
        Some((c as u8) - ('a' as u8) + 10)
    } else {
        None
    }
}

/// Reads a text of exactly 32 lowercase hexadecimal digits as a 128-bit
/// value. Any other text gives nothing.
pub fn parse_hex32(s: &str) -> (r: Option<u128>)
    ensures
        r == parse_hex32_spec(s@),
{
    if s.unicode_len() != 32 {
        return None;
    }
    let mut acc: u128 = 0;
    let mut i: usize = 0;
    while i < 32
        invariant
            i <= 32,
            s@.len() == 32,
            is_lower_hex(s@.subrange(0, i as int)),
            acc as int == hex_value(s@.subrange(0, i as int)),
        decreases 32 - i,
    {
        let c = s.get_char(i);
        let prefix = Ghost(s@.subrange(0, i as int));
        let next = Ghost(s@.subrange(0, i as int + 1));
        proof {
            assert(next@.drop_last() =~= prefix@);
            assert(next@.last() == c);
        }
        match hex_char_value(c) {
            None => {
                proof {
                    assert(s@[i as int] == c);
                }
                return None;
            },
            Some(d) => {
                proof {
                    lemma_hex_value_digits(prefix@);
                    lemma_pow16_31();
                    lemma_pow16_monotone(i as nat, 31);
                    assert forall|j: int| 0 <= j < next@.len() implies (#[trigger] hex_digit_value(
                        next@[j],
                    )) is Some by {
                        if j < i {
                            assert(next@[j] == prefix@[j]);
                        }
                    }
                }
                acc = acc * 16 + d as u128;
            },
        }
        i = i + 1;
    }
    proof {
        assert(s@.subrange(0, 32) =~= s@);
    }
    Some(acc)
}

proof fn lemma_pow16_monotone(a: nat, b: nat)
    requires
        a <= b,
    ensures
        pow16(a) <= pow16(b),
    decreases b,
{
    if a < b {
        lemma_pow16_monotone(a, (b - 1) as nat);
        lemma_pow16_positive((b - 1) as nat);
    }
}

/// The decimal digit of a value below ten.
pub open spec fn decimal_digit(d: int) -> char {
    (('0' as u8) + d) as u8 as char
}

/// The decimal digits of a natural number, most significant first, without
/// leading zeros.
pub open spec fn decimal_digits(n: nat) -> Seq<char>
    decreases n,
{
    if n < 10 {
        seq![decimal_digit(n as int)]
    } else {
        decimal_digits(n / 10).push(decimal_digit((n % 10) as int))
    }
}

/// The decimal rendering of an integer: a minus sign, if negative, then the
/// digits of its magnitude.
pub open spec fn decimal(n: int) -> Seq<char> {
    if n < 0 {
        seq!['-'] + decimal_digits((-n) as nat)
    } else {
        decimal_digits(n as nat)
    }
}

fn push_decimal_digits(s: &mut String, n: u64)
    ensures
        final(s)@ == old(s)@ + decimal_digits(n as nat),
    decreases n,
{
    if n >= 10 {
        push_decimal_digits(s, n / 10);
    }
    let d: u8 = (n % 10) as u8;
    push_char(s, (('0' as u8) + d) as char);
    proof {
        if n >= 10 {
            assert(final(s)@ =~= old(s)@ + decimal_digits(n as nat));
        } else {
            assert(final(s)@ =~= old(s)@ + decimal_digits(n as nat));
        }
    }
}

/// Renders a signed integer in decimal.
pub fn decimal_string(n: i64) -> (s: String)
    ensures
        s@ == decimal(n as int),
{
    let mut s = String::new();
    if n < 0 {
        push_char(&mut s, '-');
        let magnitude: u64 = (-(n as i128)) as u64;
        push_decimal_digits(&mut s, magnitude);
        proof {
            assert(s@ =~= decimal(n as int));
        }
    } else {
        push_decimal_digits(&mut s, n as u64);
        proof {
            assert(s@ =~= decimal(n as int));
        }
    }
    s
}

/// Whether every character of a text is a decimal digit.
pub open spec fn is_decimal(s: Seq<char>) -> bool {
    forall|i: int| 0 <= i < s.len() ==> '0' <= #[trigger] s[i] <= '9'
}

/// The number that decimal digits spell.
pub open spec fn decimal_value(s: Seq<char>) -> int
    decreases s.len(),
{
    if s.len() == 0 {
        0
    } else {
        decimal_value(s.drop_last()) * 10 + ((s.last() as u8) - ('0' as u8))
    }
}

/// A text without the plus sign that it may begin with.
pub open spec fn unsigned_digits(s: Seq<char>) -> Seq<char> {
    if s.len() > 0 && s[0] == '+' {
        s.drop_first()
    } else {
        s
    }
}

/// The number no greater than `max` that a text spells: one or more decimal
/// digits, which a plus sign may precede. Any other text spells none.
pub open spec fn unsigned_of_text(s: Seq<char>, max: u64) -> Option<u64> {
    let digits = unsigned_digits(s);
    if digits.len() > 0 && is_decimal(digits) && decimal_value(digits) <= max {
        Some(decimal_value(digits) as u64)
    } else {
        None
    }
}

proof fn lemma_decimal_value_grows(s: Seq<char>, i: int)
    requires
        is_decimal(s),
        0 <= i <= s.len(),
    ensures
        0 <= decimal_value(s.subrange(0, i)) <= decimal_value(s),
    decreases s.len() - i,
{
    if i < s.len() {
        lemma_decimal_value_grows(s, i + 1);
        let longer = s.subrange(0, i + 1);
        assert(longer.drop_last() =~= s.subrange(0, i));
        assert(longer.last() == s[i]);
        assert forall|j: int| 0 <= j < i implies '0' <= #[trigger] s.subrange(0, i)[j] <= '9' by {
            assert(s.subrange(0, i)[j] == s[j]);
        }
        lemma_decimal_value_nonnegative(s.subrange(0, i));
    } else {
        assert(s.subrange(0, i) =~= s);
        lemma_decimal_value_nonnegative(s);
    }
}

proof fn lemma_decimal_value_nonnegative(s: Seq<char>)
    requires
        is_decimal(s),
    ensures
        decimal_value(s) >= 0,
    decreases s.len(),
{
    if s.len() > 0 {
        assert forall|j: int| 0 <= j < s.len() - 1 implies '0' <= #[trigger] s.drop_last()[j]
            <= '9' by {
            assert(s.drop_last()[j] == s[j]);
        }
        lemma_decimal_value_nonnegative(s.drop_last());
        assert('0' <= s[s.len() - 1] <= '9');
    }
}

/// Reads a number no greater than `max` from its decimal digits.
pub fn parse_unsigned(text: &str, max: u64) -> (r: Option<u64>)
    ensures
        r == unsigned_of_text(text@, max),
{
    let n = text.unicode_len();
    let start: usize = if n > 0 && text.get_char(0) == '+' {
        1
    } else {
        0
    };
    let ghost digits = unsigned_digits(text@);
    proof {
        assert(digits =~= text@.subrange(start as int, n as int));
    }
    if start == n {
        return None;
    }
    let mut acc: u64 = 0;
    let mut i: usize = start;
    while i < n
        invariant
            start <= i <= n,
            n == text@.len(),
            digits == text@.subrange(start as int, n as int),
            digits == unsigned_digits(text@),
            is_decimal(digits.subrange(0, i - start)),
            acc == decimal_value(digits.subrange(0, i - start)),
            acc <= max,
        decreases n - i,
    {
        let c = text.get_char(i);
        let ghost before = digits.subrange(0, i - start);
        let ghost after = digits.subrange(0, i - start + 1);
        proof {
            assert(digits[i - start] == c);
            assert(after.drop_last() =~= before);
            assert(after.last() == c);
        }
        if !('0' <= c && c <= '9') {
            proof {
                assert(!is_decimal(digits));
            }
            return None;
        }
        let d: u64 = ((c as u8) - ('0' as u8)) as u64;
        proof {
            assert forall|j: int| 0 <= j < after.len() implies '0' <= #[trigger] after[j]
                <= '9' by {
                if j < before.len() {
                    assert(after[j] == before[j]);
                }
            }
        }
        if d > max || acc > (max - d) / 10 {
            proof {
                assert(decimal_value(after) > max) by (nonlinear_arith)
                    requires
                        decimal_value(after) == acc * 10 + d,
                        acc > (max - d) / 10 || d > max,
                        0 <= d <= 9,
                        acc >= 0,
                        max >= 0,
                ;
                if is_decimal(digits) {
                    lemma_decimal_value_grows(digits, i - start + 1);
                }
            }
            return None;
        }
        assert(acc * 10 + d <= max) by (nonlinear_arith)
            requires
                acc <= (max - d) / 10,
                d <= max,
        ;
        acc = acc * 10 + d;
        i = i + 1;
    }
    proof {
        assert(digits.subrange(0, n - start) =~= digits);
    }
    Some(acc)
}

/// Whether `c` has the Unicode property `White_Space`.
pub open spec fn is_whitespace(c: char) -> bool {
    let u = c as u32;
    ||| 0x09 <= u <= 0x0d
    ||| u == 0x20
    ||| u == 0x85
    ||| u == 0xa0
    ||| u == 0x1680
    ||| 0x2000 <= u <= 0x200a
    ||| u == 0x2028
    ||| u == 0x2029
    ||| u == 0x202f
    ||| u == 0x205f
    ||| u == 0x3000
}

/// `s` without its leading whitespace.
pub open spec fn trim_start(s: Seq<char>) -> Seq<char>
    decreases s.len(),
{
    if s.len() > 0 && is_whitespace(s[0]) {
        trim_start(s.drop_first())
    } else {
        s
    }
}

/// `s` without its trailing whitespace.
pub open spec fn trim_end(s: Seq<char>) -> Seq<char>
    decreases s.len(),
{
    if s.len() > 0 && is_whitespace(s.last()) {
        trim_end(s.drop_last())
    } else {
        s
    }
}

/// `s` without its leading and trailing whitespace.
pub open spec fn trimmed(s: Seq<char>) -> Seq<char> {
    trim_end(trim_start(s))
}

/// Removes leading and trailing whitespace from a string.
///
/// Trusted: wraps `TrimInPlace::trim_in_place` of the crate `trim_in_place`,
/// which leaves in the string what `str::trim` returns: the text without its
/// leading and trailing characters of the Unicode property `White_Space`.
#[verifier::external_body]
pub(crate) fn trim_in_place(s: &mut String)
    ensures
        final(s)@ == trimmed(old(s)@),
{
    s.trim_in_place();
}

/// The extension that `std::path::Path::extension` finds in a path.
pub uninterp spec fn path_extension(path: Seq<char>) -> Option<Seq<char>>;

/// The stem that `std::path::Path::file_stem` finds in a path.
pub uninterp spec fn path_file_stem(path: Seq<char>) -> Option<Seq<char>>;

/// The final component that `std::path::Path::file_name` finds in a path.
pub uninterp spec fn path_file_name(path: Seq<char>) -> Option<Seq<char>>;

/// The final component of a path: the name of the file or directory.
///
/// Trusted: wraps `std::path::Path::file_name`. The result is a function of
/// the text alone.
#[verifier::external_body]
pub(crate) fn file_name_of_path(path: &str) -> (r: Option<String>)
    ensures
        match r {
            Some(e) => path_file_name(path@) == Some(e@),
            None => path_file_name(path@) is None,
        },
{
    std::path::Path::new(path).file_name().and_then(|e| e.to_str()).map(|e| e.to_string())
}

/// The extension of a file name, without its dot.
///
/// Trusted: wraps `std::path::Path::extension`. The result is a function of
/// the text alone; an extension that is not valid Unicode cannot arise from a
/// `str`.
#[verifier::external_body]
pub(crate) fn file_extension(name: &str) -> (r: Option<String>)
    ensures
        match r {
            Some(e) => path_extension(name@) == Some(e@),
            None => path_extension(name@) is None,
        },
{
    std::path::Path::new(name).extension().and_then(|e| e.to_str()).map(|e| e.to_string())
}

/// The stem of a file name: the name without its extension.
///
/// Trusted: wraps `std::path::Path::file_stem`. The result is a function of
/// the text alone.
#[verifier::external_body]
pub(crate) fn file_stem(name: &str) -> (r: Option<String>)
    ensures
        match r {
            Some(e) => path_file_stem(name@) == Some(e@),
            None => path_file_stem(name@) is None,
        },
{
    std::path::Path::new(name).file_stem().and_then(|e| e.to_str()).map(|e| e.to_string())
}

} // verus!
