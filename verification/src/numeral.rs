//! Decimal rendering of unsigned integers, used to format balance replies.

use vstd::prelude::*;

verus! {

/// The character for one decimal digit.
pub open spec fn dec_digit(d: int) -> char {
    if d == 0 {
        '0'
    } else if d == 1 {
        '1'
    } else if d == 2 {
        '2'
    } else if d == 3 {
        '3'
    } else if d == 4 {
        '4'
    } else if d == 5 {
        '5'
    } else if d == 6 {
        '6'
    } else if d == 7 {
        '7'
    } else if d == 8 {
        '8'
    } else {
        '9'
    }
}

/// The decimal notation of `n`, most significant digit first, no leading
/// zeros except for `n == 0` itself.
pub open spec fn dec_str(n: nat) -> Seq<char>
    decreases n,
{
    if n < 10 {
        seq![dec_digit(n as int)]
    } else {
        dec_str(n / 10).push(dec_digit((n % 10) as int))
    }
}

fn digit_str(d: u128) -> (r: &'static str)
    requires
        d < 10,
    ensures
        r@ == seq![dec_digit(d as int)],
{
    proof {
        reveal_strlit("0");
        reveal_strlit("1");
        reveal_strlit("2");
        reveal_strlit("3");
        reveal_strlit("4");
        reveal_strlit("5");
        reveal_strlit("6");
        reveal_strlit("7");
        reveal_strlit("8");
        reveal_strlit("9");
    }
    let r = match d {
        0 => "0",
        1 => "1",
        2 => "2",
        3 => "3",
        4 => "4",
        5 => "5",
        6 => "6",
        7 => "7",
        8 => "8",
        _ => "9",
    };
    proof {
        assert(r@ =~= seq![dec_digit(d as int)]);
    }
    r
}

/// Whether `c` is a decimal digit.
pub open spec fn is_digit(c: char) -> bool {
    '0' <= c && c <= '9'
}

/// The value of the digit `c`.
pub open spec fn digit_val(c: char) -> int {
    c as int - 48
}

/// Whether every character of `s` is a decimal digit.
pub open spec fn all_digits(s: Seq<char>) -> bool {
    forall|i: int| 0 <= i < s.len() ==> is_digit(#[trigger] s[i])
}

/// The number the digit string `s` denotes, most significant digit first.
pub open spec fn dec_val(s: Seq<char>) -> int
    decreases s.len(),
{
    if s.len() == 0 {
        0
    } else {
        dec_val(s.drop_last()) * 10 + digit_val(s.last())
    }
}

/// A digit string denotes a non-negative number.
proof fn lemma_dec_val_nonneg(s: Seq<char>)
    requires
        all_digits(s),
    ensures
        dec_val(s) >= 0,
    decreases s.len(),
{
    if s.len() == 0 {
    } else {
        assert forall|i: int| 0 <= i < s.drop_last().len() implies is_digit(
            #[trigger] s.drop_last()[i],
        ) by {
            assert(s.drop_last()[i] == s[i]);
        }
        lemma_dec_val_nonneg(s.drop_last());
    }
}

/// A digit string denotes at least what any of its prefixes denotes.
proof fn lemma_dec_val_prefix_le(s: Seq<char>, k: int)
    requires
        0 <= k <= s.len(),
        all_digits(s),
    ensures
        0 <= dec_val(s.take(k)) <= dec_val(s),
    decreases s.len() - k,
{
    assert forall|i: int| 0 <= i < s.take(k).len() implies is_digit(#[trigger] s.take(k)[i]) by {
        assert(s.take(k)[i] == s[i]);
    }
    lemma_dec_val_nonneg(s.take(k));
    if k == s.len() {
        assert(s.take(k) =~= s);
    } else {
        assert(s.take(k + 1).drop_last() =~= s.take(k));
        assert(s.take(k + 1).last() == s[k]);
        assert(dec_val(s.take(k + 1)) == dec_val(s.take(k)) * 10 + digit_val(s[k]));
        lemma_dec_val_prefix_le(s, k + 1);
    }
}

/// The digit strings that denote a value a `u128` can hold.
pub open spec fn is_dec_u128(s: Seq<char>) -> bool {
    s.len() > 0 && all_digits(s) && dec_val(s) <= u128::MAX
}

/// The digit strings that denote a value a `u64` can hold.
pub open spec fn is_dec_u64(s: Seq<char>) -> bool {
    s.len() > 0 && all_digits(s) && dec_val(s) <= u64::MAX
}

/// Parses a decimal `u128`: accepts exactly the non-empty all-digit strings
/// whose value fits, and returns that value.
pub fn parse_u128(s: &str) -> (r: Option<u128>)
    ensures
        (r is Some) == is_dec_u128(s@),
        r matches Some(v) ==> v == dec_val(s@),
{
    let n = s.unicode_len();
    if n == 0 {
        return None;
    }
    let mut i: usize = 0;
    let mut acc: u128 = 0;
    while i < n
        invariant
            0 <= i <= n,
            n == s@.len(),
            all_digits(s@.take(i as int)),
            acc == dec_val(s@.take(i as int)),
        decreases n - i,
    {
        let c = s.get_char(i);
        let u = c as u32;
        if u < 48 || u > 57 {
            proof {
                assert(!is_digit(s@[i as int]));
            }
            return None;
        }
        let d = (u - 48) as u128;
        proof {
            assert(s@.take(i + 1).drop_last() =~= s@.take(i as int));
            assert(s@.take(i + 1).last() == s@[i as int]);
            assert(d == digit_val(s@[i as int]));
        }
        if acc > (u128::MAX - d) / 10 {
            proof {
                let q = (u128::MAX - d) as int / 10;
                vstd::arithmetic::div_mod::lemma_fundamental_div_mod((u128::MAX - d) as int, 10);
                let rem = (u128::MAX - d) as int % 10;
                assert(acc * 10 >= (q + 1) * 10) by (nonlinear_arith)
                    requires
                        acc >= q + 1,
                ;
                assert(acc * 10 + d > u128::MAX);
                assert(dec_val(s@.take(i + 1)) > u128::MAX);
                if all_digits(s@) {
                    lemma_dec_val_prefix_le(s@, i + 1);
                }
            }
            return None;
        }
        proof {
            let q = (u128::MAX - d) as int / 10;
            vstd::arithmetic::div_mod::lemma_fundamental_div_mod((u128::MAX - d) as int, 10);
            assert(acc * 10 <= q * 10) by (nonlinear_arith)
                requires
                    0 <= acc <= q,
            ;
        }
        acc = acc * 10 + d;
        i = i + 1;
    }
    proof {
        assert(s@.take(n as int) =~= s@);
    }
    Some(acc)
}

/// Parses a decimal `u64`: accepts exactly the non-empty all-digit strings
/// whose value fits, and returns that value.
pub fn parse_u64(s: &str) -> (r: Option<u64>)
    ensures
        (r is Some) == is_dec_u64(s@),
        r matches Some(v) ==> v == dec_val(s@),
{
    match parse_u128(s) {
        Some(v) => {
            if v <= u64::MAX as u128 {
                Some(v as u64)
            } else {
                None
            }
        },
        None => None,
    }
}

/// Rendering is the inverse of parsing: the decimal notation of `n` is a
/// non-empty digit string that denotes `n` again, so a rendered balance
/// pins the number it came from.
pub proof fn lemma_dec_str_round_trip(n: nat)
    ensures
        dec_str(n).len() > 0,
        all_digits(dec_str(n)),
        dec_val(dec_str(n)) == n,
    decreases n,
{
    if n < 10 {
        assert(dec_str(n) == seq![dec_digit(n as int)]);
        assert(dec_str(n).drop_last() =~= Seq::<char>::empty());
        assert(dec_val(Seq::<char>::empty()) == 0);
        assert(is_digit(dec_digit(n as int)));
        assert(digit_val(dec_digit(n as int)) == n);
    } else {
        lemma_dec_str_round_trip(n / 10);
        let s = dec_str(n);
        assert(s.drop_last() == dec_str(n / 10));
        assert(s.last() == dec_digit((n % 10) as int));
        assert(is_digit(dec_digit((n % 10) as int)));
        assert(digit_val(dec_digit((n % 10) as int)) == n % 10);
        assert forall|i: int| 0 <= i < s.len() implies is_digit(#[trigger] s[i]) by {
            if i < s.len() - 1 {
                assert(s[i] == dec_str(n / 10)[i]);
            } else {
                assert(s[i] == s.last());
            }
        }
        assert(dec_val(s) == (n / 10) * 10 + n % 10);
        assert((n / 10) * 10 + n % 10 == n) by {
            vstd::arithmetic::div_mod::lemma_fundamental_div_mod(n as int, 10);
        }
    }
}

/// Renders `n` in decimal.
pub fn u128_to_dec(n: u128) -> (s: String)
    ensures
        s@ == dec_str(n as nat),
    decreases n,
{
    if n < 10 {
        String::from_str(digit_str(n))
    } else {
        let mut s = u128_to_dec(n / 10);
        s.append(digit_str(n % 10));
        proof {
            assert(s@ =~= dec_str(n as nat));
        }
        s
    }
}

} // verus!
