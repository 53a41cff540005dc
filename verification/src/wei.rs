//! Exact integer arithmetic on wei amounts.
//!
//! Amounts travel as decimal strings; anything unparseable counts as zero.
//! The minimum-increment rule for bids is the exact integer ceiling of
//! `current * 102 / 100`, never floating point, so that large currency
//! values lose no precision.

use vstd::prelude::*;

use vstd::arithmetic::div_mod::lemma_fundamental_div_mod_converse;

verus! {

/// Whether `c` is a decimal digit.
pub open spec fn is_digit(c: char) -> bool {
    '0' as int <= c as int && c as int <= '9' as int
}

/// The value of one decimal digit.
pub open spec fn digit_val(c: char) -> int {
    c as int - '0' as int
}

/// Whether every character is a decimal digit.
pub open spec fn all_digits(s: Seq<char>) -> bool {
    forall|j: int| 0 <= j < s.len() ==> is_digit(s[j])
}

/// The value of a sequence of decimal digits, most significant first.
pub open spec fn digits_val(s: Seq<char>) -> int
    decreases s.len(),
{
    if s.len() == 0 {
        0
    } else {
        digits_val(s.drop_last()) * 10 + digit_val(s.last())
    }
}

/// Whether the string begins with an explicit sign.
pub open spec fn has_sign(s: Seq<char>) -> bool {
    s.len() > 0 && (s[0] == '+' || s[0] == '-')
}

/// The digits of the string, after any sign.
pub open spec fn int_body(s: Seq<char>) -> Seq<char> {
    if has_sign(s) {
        s.drop_first()
    } else {
        s
    }
}

/// The sign of the string: `-1` exactly under a leading minus.
pub open spec fn int_sign(s: Seq<char>) -> int {
    if s.len() > 0 && s[0] == '-' {
        -1
    } else {
        1
    }
}

/// Whether the string is an optionally signed, non-empty run of digits.
pub open spec fn valid_int_str(s: Seq<char>) -> bool {
    int_body(s).len() > 0 && all_digits(int_body(s))
}

/// The signed value of a valid integer string.
pub open spec fn int_str_val(s: Seq<char>) -> int {
    int_sign(s) * digits_val(int_body(s))
}

/// Whether a mathematical integer is representable as an `i128`.
pub open spec fn fits_i128(v: int) -> bool {
    -170141183460469231731687303715884105728 <= v
        && v <= 170141183460469231731687303715884105727
}

/// What parsing an optional wei string yields: the exact value of a valid,
/// in-range integer string; zero for everything else.
pub open spec fn parse_wei_of(x: Option<Seq<char>>) -> int {
    match x {
        None => 0,
        Some(s) => if valid_int_str(s) && fits_i128(int_str_val(s)) {
            int_str_val(s)
        } else {
            0
        },
    }
}

/// The view of an optional string slice.
pub open spec fn opt_str_view(x: Option<&str>) -> Option<Seq<char>> {
    match x {
        Some(s) => Some(s@),
        None => None,
    }
}

/// A run of digits never has a negative value.
pub proof fn lemma_digits_val_nonneg(s: Seq<char>)
    requires
        all_digits(s),
    ensures
        digits_val(s) >= 0,
    decreases s.len(),
{
    if s.len() > 0 {
        assert(all_digits(s.drop_last()));
        lemma_digits_val_nonneg(s.drop_last());
        assert(is_digit(s.last()));
    }
}

/// Parses an optional decimal string as a wei amount; anything missing,
/// malformed or out of the `i128` range counts as zero.
pub fn parse_wei(x: Option<&str>) -> (r: i128)
    ensures
        r as int == parse_wei_of(opt_str_view(x)),
{
    match x {
        None => 0,
        Some(s) => parse_wei_str(s),
    }
}

/// Parses one decimal string as a wei amount.
pub fn parse_wei_str(s: &str) -> (r: i128)
    ensures
        r as int == parse_wei_of(Some(s@)),
{
    let n = s.unicode_len();
    let mut start: usize = 0;
    let mut neg = false;
    if n > 0 {
        let c0 = s.get_char(0);
        if c0 == '-' {
            neg = true;
            start = 1;
        } else if c0 == '+' {
            start = 1;
        }
    }
    if start >= n {
        // No digits at all: "", "+" and "-" are invalid.
        return 0;
    }
    let ghost body = s@.subrange(start as int, n as int);
    proof {
        assert(body =~= int_body(s@));
        assert(neg == (int_sign(s@) == -1));
    }
    let limit: u128 = if neg {
        170141183460469231731687303715884105728
    } else {
        170141183460469231731687303715884105727
    };
    let mut mag: u128 = 0;
    let mut over = false;
    let mut i = start;
    while i < n
        invariant
            start <= i <= n,
            n == s@.len(),
            body == s@.subrange(start as int, n as int),
            body == int_body(s@),
            neg == (int_sign(s@) == -1),
            start < n,
            limit == if neg {
                170141183460469231731687303715884105728u128
            } else {
                170141183460469231731687303715884105727u128
            },
            all_digits(s@.subrange(start as int, i as int)),
            !over ==> mag as int == digits_val(s@.subrange(start as int, i as int)) && mag
                <= limit,
            over ==> digits_val(s@.subrange(start as int, i as int)) > limit,
        decreases n - i,
    {
        let c = s.get_char(i);
        let cv = c as u32;
        if cv < 48 || cv > 57 {
            proof {
                assert('0' as int == 48 && '9' as int == 57);
                assert(cv as int == c as int);
                assert(body[i - start] == s@[i as int]);
                assert(!is_digit(s@[i as int]));
                assert(!all_digits(int_body(s@)));
                assert(!valid_int_str(s@));
            }
            return 0;
        }
        let d = (cv - 48) as u128;
        let ghost pre = s@.subrange(start as int, i as int);
        let ghost cur = s@.subrange(start as int, i + 1int);
        proof {
            assert(cur.drop_last() =~= pre);
            assert(cur.last() == s@[i as int]);
            assert(digits_val(cur) == digits_val(pre) * 10 + digit_val(s@[i as int]));
            assert(digit_val(s@[i as int]) == d as int);
            lemma_digits_val_nonneg(pre);
        }
        if !over {
            if mag > (limit - d) / 10 {
                proof {
                    assert(10 * ((limit - d) as u128 / 10) as int >= limit - d - 9) by {
                        let a = (limit - d) as int;
                        assert(a == 10 * (a / 10) + a % 10);
                        assert(0 <= a % 10 < 10);
                    };
                    assert(digits_val(cur) > limit);
                }
                over = true;
            } else {
                proof {
                    assert(10 * (mag as int) <= limit - d) by {
                        let a = (limit - d) as int;
                        assert(a == 10 * (a / 10) + a % 10);
                        assert(0 <= a % 10 < 10);
                    };
                }
                mag = mag * 10 + d;
            }
        } else {
            proof {
                assert(digits_val(pre) > limit);
                assert(digits_val(cur) >= digits_val(pre) * 10);
            }
        }
        i += 1;
    }
    proof {
        assert(s@.subrange(start as int, i as int) =~= body);
        assert(valid_int_str(s@));
    }
    if over {
        proof {
            if neg {
                assert(int_str_val(s@) == -1 * digits_val(body));
            } else {
                assert(int_str_val(s@) == digits_val(body));
            }
            assert(!fits_i128(int_str_val(s@)));
        }
        return 0;
    }
    if neg {
        if mag == 170141183460469231731687303715884105728 {
            proof {
                assert(int_str_val(s@) == -1 * digits_val(body));
            }
            i128::MIN
        } else {
            proof {
                assert(int_str_val(s@) == -1 * digits_val(body));
            }
            -(mag as i128)
        }
    } else {
        proof {
            assert(int_str_val(s@) == 1 * digits_val(body));
        }
        mag as i128
    }
}

/// The ceiling of `a / b` for positive `b`.
pub open spec fn ceil_div(a: int, b: int) -> int {
    (a + b - 1) / b
}

/// The smallest acceptable next bid over a current top bid: the exact
/// integer ceiling of `current * 102 / 100`.
pub open spec fn min_next_wei(current: int) -> int {
    ceil_div(current * 102, 100)
}

/// Closed form of the minimum next bid for a non-negative current bid.
pub proof fn lemma_min_next_nonneg(c: int)
    requires
        c >= 0,
    ensures
        min_next_wei(c) == c + (c + 49) / 50,
{
    let q = (c + 49) / 50;
    let r = (c + 49) % 50;
    assert(c + 49 == q * 50 + r && 0 <= r < 50) by {
        assert(c + 49 == 50 * ((c + 49) / 50) + (c + 49) % 50);
        assert(0 <= (c + 49) % 50 < 50);
    };
    lemma_fundamental_div_mod_converse(c * 102 + 99, 100, c + q, 2 * r + 1);
}

/// Closed form of the minimum next bid for a negative current bid, over the
/// magnitude `m == -current`.
proof fn lemma_min_next_neg(m: int)
    requires
        m > 0,
    ensures
        min_next_wei(-m) == -(m + m / 50),
{
    let q = m / 50;
    let r = m % 50;
    assert(m == q * 50 + r && 0 <= r < 50) by {
        assert(m == 50 * (m / 50) + m % 50);
        assert(0 <= m % 50 < 50);
    };
    lemma_fundamental_div_mod_converse((-m) * 102 + 99, 100, -(m + q), 99 - 2 * r);
}

/// Over a positive top bid the minimum next bid is strictly larger, so a
/// run of accepted bids strictly raises the top.
pub proof fn lemma_min_next_increases(c: int)
    requires
        c > 0,
    ensures
        min_next_wei(c) > c,
{
    lemma_min_next_nonneg(c);
    assert((c + 49) / 50 >= 1) by {
        assert(c + 49 == 50 * ((c + 49) / 50) + (c + 49) % 50);
        assert(0 <= (c + 49) % 50 < 50);
    };
}

/// Whether `next` meets the minimum-increment rule over `current`, computed
/// without overflow for the whole `i128` range.
pub fn meets_increment(next: i128, current: i128) -> (b: bool)
    ensures
        b == (next as int >= min_next_wei(current as int)),
{
    if current >= 0 {
        proof {
            lemma_min_next_nonneg(current as int);
        }
        if next < 0 {
            false
        } else {
            let cu = current as u128;
            let extra = (cu + 49) / 50;
            let min_mag = cu + extra;
            (next as u128) >= min_mag
        }
    } else {
        let m = ((-(current + 1)) as u128) + 1;
        proof {
            assert(m as int == -(current as int));
            lemma_min_next_neg(m as int);
        }
        if next >= 0 {
            true
        } else {
            let mn = ((-(next + 1)) as u128) + 1;
            let extra = m / 50;
            mn <= m + extra
        }
    }
}

} // verus!
