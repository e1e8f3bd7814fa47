//! Verified decimal formatting and parsing: integers become their
//! decimal strings, and membership-id strings are read back as `i64`.

use vstd::prelude::*;

verus! {

/// The character for one decimal digit.
pub open spec fn digit_char(d: int) -> char {
    if d == 0 {
        '0'
    } else if d == 1 {
        '1'
    } else if d == 2 {
        '2'
    } else if d == 3 {
        '3'
    } else if d == 4 {
        '4'
    } else if d == 5 {
        '5'
    } else if d == 6 {
        '6'
    } else if d == 7 {
        '7'
    } else if d == 8 {
        '8'
    } else {
        '9'
    }
}

/// The decimal representation of a nonnegative integer.
pub open spec fn dec_str(n: nat) -> Seq<char>
    decreases n,
{
    if n < 10 {
        seq![digit_char(n as int)]
    } else {
        dec_str(n / 10) + seq![digit_char((n % 10) as int)]
    }
}

/// The decimal representation of a signed integer.
pub open spec fn dec_str_signed(v: int) -> Seq<char> {
    if v >= 0 {
        dec_str(v as nat)
    } else {
        seq!['-'] + dec_str((-v) as nat)
    }
}

/// One digit as a string slice.
fn digit_str(d: u64) -> (r: &'static str)
    requires
        d < 10,
    ensures
        r@ == seq![digit_char(d as int)],
{
    proof {
        reveal_strlit("0");
        reveal_strlit("1");
        reveal_strlit("2");
        reveal_strlit("3");
        reveal_strlit("4");
        reveal_strlit("5");
        reveal_strlit("6");
        reveal_strlit("7");
        reveal_strlit("8");
        reveal_strlit("9");
    }
    if d == 0 {
        "0"
    } else if d == 1 {
        "1"
    } else if d == 2 {
        "2"
    } else if d == 3 {
        "3"
    } else if d == 4 {
        "4"
    } else if d == 5 {
        "5"
    } else if d == 6 {
        "6"
    } else if d == 7 {
        "7"
    } else if d == 8 {
        "8"
    } else {
        "9"
    }
}

/// Formats an unsigned integer in decimal.
pub fn u64_to_string(n: u64) -> (r: String)
    ensures
        r@ == dec_str(n as nat),
    decreases n,
{
    if n < 10 {
        digit_str(n).to_owned()
    } else {
        let mut s = u64_to_string(n / 10);
        s.append(digit_str(n % 10));
        s
    }
}

/// Formats a signed integer in decimal.
pub fn i64_to_string(v: i64) -> (r: String)
    ensures
        r@ == dec_str_signed(v as int),
{
    if v >= 0 {
        u64_to_string(v as u64)
    } else {
        let m: u64 = if v == i64::MIN {
            9223372036854775808u64
        } else {
            (-v) as u64
        };
        assert(m as nat == (-(v as int)) as nat);
        let mut s = String::new();
        proof {
            reveal_strlit("-");
        }
        s.append("-");
        let digits = u64_to_string(m);
        let r = s.concat(digits.as_str());
        assert(r@ =~= dec_str_signed(v as int));
        r
    }
}

/// Formats a 32-bit signed integer in decimal.
pub fn i32_to_string(v: i32) -> (r: String)
    ensures
        r@ == dec_str_signed(v as int),
{
    i64_to_string(v as i64)
}

/// A 32-bit hash reinterpreted as the signed key the reference
/// database stores it under.
pub open spec fn wrap_u32_as_i32(x: u32) -> int {
    if x <= i32::MAX {
        x as int
    } else {
        x - 0x1_0000_0000
    }
}

/// Reinterprets a hash as its signed database key.
pub fn u32_to_i32_wrapping(x: u32) -> (r: i32)
    ensures
        r as int == wrap_u32_as_i32(x),
{
    if x <= 2147483647u32 {
        x as i32
    } else {
        let wide: i64 = (x as i64) - 4294967296i64;
        wide as i32
    }
}

/// Whether `c` is a decimal digit.
pub open spec fn is_digit(c: char) -> bool {
    '0' as int <= c as int <= '9' as int
}

/// The numeric value of a digit character.
pub open spec fn digit_val(c: char) -> int {
    c as int - '0' as int
}

/// All characters are digits, and there is at least one.
pub open spec fn all_digits(s: Seq<char>) -> bool {
    s.len() > 0 && forall|i: int| 0 <= i < s.len() ==> is_digit(#[trigger] s[i])
}

/// The value of an all-digit sequence.
pub open spec fn dec_val(s: Seq<char>) -> int
    decreases s.len(),
{
    if s.len() == 0 {
        0
    } else {
        dec_val(s.take(s.len() - 1)) * 10 + digit_val(s[s.len() - 1])
    }
}

/// The digit part of a decimal string with an optional sign.
pub open spec fn unsigned_part(s: Seq<char>) -> Seq<char> {
    if s.len() > 0 && (s[0] == '-' || s[0] == '+') {
        s.skip(1)
    } else {
        s
    }
}

/// Whether the string is a well-formed decimal integer: an optional
/// sign followed by one or more digits.
pub open spec fn is_dec_string(s: Seq<char>) -> bool {
    all_digits(unsigned_part(s))
}

/// The integer a well-formed decimal string denotes.
pub open spec fn dec_string_val(s: Seq<char>) -> int {
    if s.len() > 0 && s[0] == '-' {
        -dec_val(unsigned_part(s))
    } else {
        dec_val(unsigned_part(s))
    }
}

proof fn lemma_dec_val_nonneg(s: Seq<char>)
    requires
        forall|i: int| 0 <= i < s.len() ==> is_digit(#[trigger] s[i]),
    ensures
        dec_val(s) >= 0,
    decreases s.len(),
{
    if s.len() > 0 {
        lemma_dec_val_nonneg(s.take(s.len() - 1));
    }
}

proof fn lemma_dec_val_monotonic(s: Seq<char>, i: int)
    requires
        forall|k: int| 0 <= k < s.len() ==> is_digit(#[trigger] s[k]),
        0 <= i <= s.len(),
    ensures
        dec_val(s) >= dec_val(s.take(i)),
    decreases s.len() - i,
{
    if i < s.len() {
        lemma_dec_val_monotonic(s, i + 1);
        let t = s.take(i + 1);
        assert(t.take(t.len() - 1) =~= s.take(i));
        assert(forall|k: int| 0 <= k < i ==> s.take(i)[k] == s[k]);
        lemma_dec_val_nonneg(s.take(i));
        assert(dec_val(t) == dec_val(s.take(i)) * 10 + digit_val(s[i]));
        assert(digit_val(s[i]) >= 0);
        assert(dec_val(s.take(i)) * 10 >= dec_val(s.take(i))) by (nonlinear_arith)
            requires
                dec_val(s.take(i)) >= 0,
        ;
    } else {
        assert(s.take(i) =~= s);
    }
}

/// Reads a decimal integer with optional sign, exactly when the string
/// is well formed and its value fits in an `i64`.
pub fn parse_i64(s: &str) -> (r: Option<i64>)
    ensures
        r is Some <==> is_dec_string(s@) && i64::MIN <= dec_string_val(s@) <= i64::MAX,
        r is Some ==> r->0 as int == dec_string_val(s@),
{
    let len: usize = s.unicode_len();
    if len == 0 {
        return None;
    }
    let first = s.get_char(0);
    let negative: bool = first == '-';
    let start: usize = if first == '-' || first == '+' {
        1
    } else {
        0
    };
    let ghost digits = unsigned_part(s@);
    proof {
        assert(digits =~= s@.skip(start as int));
    }
    if start == len {
        // a bare sign has no digits
        return None;
    }
    let limit: u64 = if negative {
        9223372036854775808u64
    } else {
        9223372036854775807u64
    };
    let mut acc: u64 = 0;
    let mut i: usize = start;
    while i < len
        invariant
            start <= i <= len,
            start < len,
            start <= 1,
            len == s@.len(),
            digits == unsigned_part(s@),
            digits == s@.skip(start as int),
            digits.len() == len - start,
            negative == (s@[0] == '-'),
            limit == (if negative {
                9223372036854775808u64
            } else {
                9223372036854775807u64
            }),
            forall|k: int| 0 <= k < i - start ==> is_digit(#[trigger] digits[k]),
            acc as int == dec_val(digits.take(i - start)),
            acc <= limit,
        decreases len - i,
    {
        let c = s.get_char(i);
        let cu: u32 = c as u32;
        if cu < 48 || cu > 57 {
            proof {
                assert(digits[i - start] == s@[i as int]);
                assert(!is_digit(digits[i - start]));
                assert(!all_digits(digits));
                assert(!is_dec_string(s@));
            }
            return None;
        }
        let d: u64 = (cu - 48) as u64;
        assert(d == digit_val(s@[i as int]));
        assert(d < 10);
        if acc > (limit - d) / 10 {
            proof {
                let j = i - start + 1;
                assert(digits.take(j).take(j - 1) =~= digits.take(i - start));
                assert(dec_val(digits.take(j)) == acc * 10 + d);
                assert(acc * 10 + d > limit) by (nonlinear_arith)
                    requires
                        acc > (limit - d) / 10,
                        d < 10,
                        acc >= 0,
                        limit >= 0,
                ;
                assert(forall|k: int| 0 <= k < j ==> is_digit(#[trigger] digits.take(j)[k]));
                if is_dec_string(s@) {
                    assert(forall|k: int| 0 <= k < digits.len() ==> is_digit(
                        #[trigger] digits[k],
                    ));
                    lemma_dec_val_monotonic(digits, j);
                    assert(dec_val(digits) >= dec_val(digits.take(j)));
                    assert(dec_val(digits) > limit);
                    if negative {
                        assert(s@[0] == '-');
                        assert(dec_string_val(s@) == -dec_val(digits));
                        assert(dec_string_val(s@) < i64::MIN);
                    } else {
                        assert(s@[0] != '-');
                        assert(dec_string_val(s@) == dec_val(digits));
                        assert(dec_string_val(s@) > i64::MAX);
                    }
                }
            }
            return None;
        }
        assert(acc * 10 + d <= limit) by (nonlinear_arith)
            requires
                acc <= (limit - d) / 10,
                d < 10,
                acc >= 0,
                d <= limit,
        ;
        acc = acc * 10 + d;
        proof {
            let j = i - start + 1;
            assert(digits.take(j).take(j - 1) =~= digits.take(i - start));
            assert(digits.take(j)[j - 1] == s@[i as int]);
            assert(acc as int == dec_val(digits.take(j)));
        }
        i = i + 1;
    }
    proof {
        assert(digits.take(len - start) =~= digits);
        assert(all_digits(digits));
        assert(is_dec_string(s@));
    }
    if negative {
        let v: i64 = if acc == 9223372036854775808u64 {
            i64::MIN
        } else {
            -(acc as i64)
        };
        assert(v as int == -(acc as int));
        Some(v)
    } else {
        Some(acc as i64)
    }
}

} // verus!
