//! Decimal integers: reading them the way `str::parse::<i32>` does and
//! writing them the way `Display` does.
use vstd::prelude::*;
use crate::text::push_char;
use crate::text::chars_of;

verus! {

/// An ASCII decimal digit.
pub open spec fn is_digit(c: char) -> bool {
    '0' <= c && c <= '9'
}

/// The value of a decimal digit.
pub open spec fn digit_val(c: char) -> int {
    (c as int) - ('0' as int)
}

/// Every character of `s` is a decimal digit.
pub open spec fn all_digits(s: Seq<char>) -> bool {
    forall|i: int| 0 <= i < s.len() ==> is_digit(#[trigger] s[i])
}

/// The number that the digits of `s` spell, most significant first.
pub open spec fn digits_value(s: Seq<char>) -> int
    decreases s.len(),
{
    if s.len() == 0 {
        0
    } else {
        10 * digits_value(s.drop_last()) + digit_val(s.last())
    }
}

/// What `s.parse::<i32>()` gives back: an optional sign, then at least one
/// digit and nothing else, with the value inside the range of `i32`.
pub open spec fn parse_i32_spec(s: Seq<char>) -> Option<i32> {
    let neg = s.len() > 0 && s[0] == '-';
    let body = if s.len() > 0 && (s[0] == '-' || s[0] == '+') {
        s.drop_first()
    } else {
        s
    };
    if body.len() == 0 || !all_digits(body) {
        None
    } else {
        let v = if neg {
            -digits_value(body)
        } else {
            digits_value(body)
        };
        if i32::MIN <= v && v <= i32::MAX {
            Some(v as i32)
        } else {
            None
        }
    }
}

/// The digit character for `d` in `0..10`.
pub open spec fn digit_char(d: int) -> char {
    ((48 + d) as u8) as char
}

/// The decimal spelling of `n`, without leading zeros.
pub open spec fn dec_spec(n: nat) -> Seq<char>
    decreases n,
{
    if n < 10 {
        seq![digit_char(n as int)]
    } else {
        dec_spec(n / 10).push(digit_char((n % 10) as int))
    }
}

/// The decimal spelling of `n` as `Display` writes it.
pub open spec fn i32_dec_spec(n: i32) -> Seq<char> {
    if n < 0 {
        seq!['-'] + dec_spec((-n) as nat)
    } else {
        dec_spec(n as nat)
    }
}

proof fn lemma_digits_value_nonneg(s: Seq<char>)
    requires
        all_digits(s),
    ensures
        digits_value(s) >= 0,
    decreases s.len(),
{
    if s.len() > 0 {
        assert(all_digits(s.drop_last())) by {
            assert forall|i: int| 0 <= i < s.drop_last().len() implies is_digit(
                #[trigger] s.drop_last()[i],
            ) by {
                assert(s.drop_last()[i] == s[i]);
            }
        }
        lemma_digits_value_nonneg(s.drop_last());
        assert(is_digit(s[s.len() - 1]));
    }
}

proof fn lemma_digits_value_prefix(s: Seq<char>, k: int)
    requires
        all_digits(s),
        0 <= k <= s.len(),
    ensures
        digits_value(s.take(k)) <= digits_value(s),
    decreases s.len(),
{
    if k < s.len() {
        let t = s.drop_last();
        assert(all_digits(t)) by {
            assert forall|i: int| 0 <= i < t.len() implies is_digit(#[trigger] t[i]) by {
                assert(t[i] == s[i]);
            }
        }
        lemma_digits_value_prefix(t, k);
        assert(t.take(k) =~= s.take(k));
        lemma_digits_value_nonneg(t);
        assert(is_digit(s[s.len() - 1]));
    } else {
        assert(s.take(k) =~= s);
    }
}

/// Reading back the decimal spelling of `n` gives `n`.
pub proof fn lemma_dec_value(n: nat)
    ensures
        digits_value(dec_spec(n)) == n,
        all_digits(dec_spec(n)),
    decreases n,
{
    if n < 10 {
        assert(digit_val(digit_char(n as int)) == n);
        assert(dec_spec(n).drop_last() =~= Seq::<char>::empty());
        assert(digits_value(dec_spec(n)) == 10 * digits_value(Seq::<char>::empty()) + digit_val(
            digit_char(n as int),
        ));
    } else {
        lemma_dec_value(n / 10);
        let d = (n % 10) as int;
        assert(digit_val(digit_char(d)) == d);
        vstd::arithmetic::div_mod::lemma_fundamental_div_mod(n as int, 10);
        let s = dec_spec(n);
        assert(s.drop_last() =~= dec_spec(n / 10));
        assert(s.last() == digit_char(d));
        assert(digits_value(s) == 10 * digits_value(dec_spec(n / 10)) + d);
        assert forall|i: int| 0 <= i < s.len() implies is_digit(#[trigger] s[i]) by {
            if i < s.len() - 1 {
                assert(s[i] == dec_spec(n / 10)[i]);
            }
        }
    }
}

/// Different numbers are spelled differently.
pub proof fn lemma_dec_injective(a: nat, b: nat)
    requires
        dec_spec(a) == dec_spec(b),
    ensures
        a == b,
{
    lemma_dec_value(a);
    lemma_dec_value(b);
}

/// Reads `s` as `str::parse::<i32>` does.
pub fn parse_i32(s: &str) -> (r: Option<i32>)
    ensures
        r == parse_i32_spec(s@),
{
    let v = chars_of(s);
    let n = v.len();
    let neg = n > 0 && v[0] == '-';
    let start: usize = if n > 0 && (v[0] == '-' || v[0] == '+') {
        1
    } else {
        0
    };
    let ghost body = if s@.len() > 0 && (s@[0] == '-' || s@[0] == '+') {
        s@.drop_first()
    } else {
        s@
    };
    proof {
        assert(body =~= v@.subrange(start as int, n as int));
    }
    if start == n {
        return None;
    }
    let mut acc: i64 = 0;
    let mut i = start;
    while i < n
        invariant
            start <= i <= n,
            n == v@.len(),
            v@ == s@,
            body == v@.subrange(start as int, n as int),
            body == (if s@.len() > 0 && (s@[0] == '-' || s@[0] == '+') {
                s@.drop_first()
            } else {
                s@
            }),
            neg == (s@.len() > 0 && s@[0] == '-'),
            all_digits(body.take(i - start)),
            acc == digits_value(body.take(i - start)),
            0 <= acc <= 2147483648,
        decreases n - i,
    {
        let c = v[i];
        if !('0' <= c && c <= '9') {
            proof {
                assert(body[i - start] == c);
                assert(!is_digit(body[i - start]));
                assert(!all_digits(body));
            }
            return None;
        }
        let d = (c as u32 - '0' as u32) as i64;
        proof {
            let p = body.take(i + 1 - start);
            assert(p.drop_last() =~= body.take(i - start));
            assert(p.last() == c);
            assert(digits_value(p) == 10 * acc + digit_val(c));
            assert(all_digits(p)) by {
                assert forall|j: int| 0 <= j < p.len() implies is_digit(#[trigger] p[j]) by {
                    if j < p.len() - 1 {
                        assert(p[j] == body.take(i - start)[j]);
                    }
                }
            }
        }
        acc = acc * 10 + d;
        i = i + 1;
        if acc > 2147483648 {
            proof {
                if all_digits(body) {
                    lemma_digits_value_prefix(body, i - start);
                    assert(digits_value(body) >= acc);
                }
            }
            return None;
        }
    }
    proof {
        assert(body.take(n - start) =~= body);
    }
    if neg {
        Some((-acc) as i32)
    } else if acc <= 2147483647 {
        Some(acc as i32)
    } else {
        None
    }
}

/// The digit character for `d`.
pub fn digit_char_exec(d: u64) -> (c: char)
    requires
        d < 10,
    ensures
        c == digit_char(d as int),
{
    ((48u8 + d as u8) as char)
}

/// Appends the decimal spelling of `n`.
pub fn push_dec(out: &mut String, n: u64)
    ensures
        final(out)@ == old(out)@ + dec_spec(n as nat),
    decreases n,
{
    if n >= 10 {
        push_dec(out, n / 10);
        push_char(out, digit_char_exec(n % 10));
        proof {
            assert(out@ =~= old(out)@ + dec_spec(n as nat));
        }
    } else {
        push_char(out, digit_char_exec(n));
        proof {
            assert(out@ =~= old(out)@ + dec_spec(n as nat));
        }
    }
}

/// Appends `n` as `Display` writes it.
pub fn push_i32(out: &mut String, n: i32)
    ensures
        final(out)@ == old(out)@ + i32_dec_spec(n),
{
    if n < 0 {
        push_char(out, '-');
        let m: u64 = (0i64 - n as i64) as u64;
        push_dec(out, m);
        proof {
            assert(out@ =~= old(out)@ + i32_dec_spec(n));
        }
    } else {
        push_dec(out, n as u64);
    }
}

} // verus!
