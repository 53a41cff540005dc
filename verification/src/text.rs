//! Text helpers: decimal rendering of integers, address normalization, and
//! deterministic id derivation for events, listings, auctions, bids and
//! matches.

use vstd::prelude::*;

verus! {

/// The decimal digit character for `d` (`0 <= d <= 9`).
pub open spec fn digit_char(d: int) -> char {
    if d == 0 {
        '0'
    } else if d == 1 {
        '1'
    } else if d == 2 {
        '2'
    } else if d == 3 {
        '3'
    } else if d == 4 {
        '4'
    } else if d == 5 {
        '5'
    } else if d == 6 {
        '6'
    } else if d == 7 {
        '7'
    } else if d == 8 {
        '8'
    } else {
        '9'
    }
}

/// The decimal rendering of a non-negative integer, most significant digit
/// first, without leading zeroes (except for zero itself).
pub open spec fn dec_nat(n: nat) -> Seq<char>
    decreases n,
{
    if n < 10 {
        seq![digit_char(n as int)]
    } else {
        dec_nat((n / 10) as nat) + seq![digit_char((n % 10) as int)]
    }
}

/// The decimal rendering of a signed integer.
pub open spec fn dec_int(n: int) -> Seq<char> {
    if n >= 0 {
        dec_nat(n as nat)
    } else {
        seq!['-'] + dec_nat((-n) as nat)
    }
}

/// One decimal digit as a string slice.
fn digit_str(d: u64) -> (r: &'static str)
    requires
        d < 10,
    ensures
        r@ =~= seq![digit_char(d as int)],
{
    if d == 0 {
        proof {
            reveal_strlit("0");
        }
        "0"
    } else if d == 1 {
        proof {
            reveal_strlit("1");
        }
        "1"
    } else if d == 2 {
        proof {
            reveal_strlit("2");
        }
        "2"
    } else if d == 3 {
        proof {
            reveal_strlit("3");
        }
        "3"
    } else if d == 4 {
        proof {
            reveal_strlit("4");
        }
        "4"
    } else if d == 5 {
        proof {
            reveal_strlit("5");
        }
        "5"
    } else if d == 6 {
        proof {
            reveal_strlit("6");
        }
        "6"
    } else if d == 7 {
        proof {
            reveal_strlit("7");
        }
        "7"
    } else if d == 8 {
        proof {
            reveal_strlit("8");
        }
        "8"
    } else {
        proof {
            reveal_strlit("9");
        }
        "9"
    }
}

/// Renders a `u64` in decimal.
pub fn dec_u64(n: u64) -> (r: String)
    ensures
        r@ =~= dec_nat(n as nat),
    decreases n,
{
    if n < 10 {
        String::from_str(digit_str(n))
    } else {
        assert(n / 10 < n);
        let mut s = dec_u64(n / 10);
        s.append(digit_str(n % 10));
        s
    }
}

/// Renders an `i64` in decimal, with a leading minus sign when negative.
pub fn dec_i64(n: i64) -> (r: String)
    ensures
        r@ =~= dec_int(n as int),
{
    if n >= 0 {
        dec_u64(n as u64)
    } else {
        let m: u64 = (-(n as i128)) as u64;
        proof {
            reveal_strlit("-");
        }
        let mut s = String::from_str("-");
        let digits = dec_u64(m);
        s.append(digits.as_str());
        s
    }
}

/// What `str::to_lowercase` returns: a function of the characters alone.
pub uninterp spec fn lower_of(s: Seq<char>) -> Seq<char>;

/// Relies on `str::to_lowercase` (Unicode lowercase mapping): the result
/// depends on the input characters alone; an empty string stays empty.
#[verifier::external_body]
fn to_lowercase_str(s: &str) -> (r: String)
    ensures
        r@ == lower_of(s@),
        s@.len() == 0 ==> r@.len() == 0,
{
    s.to_lowercase()
}

/// Normalizes an address to its lowercase form, so that one address has one
/// wallet-link key however a caller spells it.
pub fn normalize(addr: &str) -> (r: String)
    ensures
        r@ == lower_of(addr@),
{
    to_lowercase_str(addr)
}

/// What the name-based UUID derivation returns for a given name: a function
/// of the name alone, stable across processes and machines.
pub uninterp spec fn uuid_v5_of(name: Seq<char>) -> Seq<char>;

/// Relies on `uuid::Uuid::new_v5` (SHA-1 name-based UUID, here in the URL
/// namespace) and the hyphenated rendering of `uuid::Uuid::to_string`: the
/// result is a function of the name bytes alone.
#[verifier::external_body]
fn uuid_v5_url(name: &str) -> (r: String)
    ensures
        r@ == uuid_v5_of(name@),
{
    uuid::Uuid::new_v5(&uuid::Uuid::NAMESPACE_URL, name.as_bytes()).to_string()
}

/// The name a derived id is computed over: kind, timestamp and context,
/// colon-separated.
pub open spec fn id_base(kind: Seq<char>, ts_ms: int, extra: Seq<char>) -> Seq<char> {
    kind + ":"@ + dec_int(ts_ms) + ":"@ + extra
}

/// The derived id for a kind, timestamp and context.
pub open spec fn new_id_of(kind: Seq<char>, ts_ms: int, extra: Seq<char>) -> Seq<char> {
    uuid_v5_of(id_base(kind, ts_ms, extra))
}

/// Derives a reproducible id from a kind tag, a timestamp and extra
/// context, so that replaying the same mutation yields the same id.
pub fn new_id(kind: &str, ts_ms: i64, extra: &str) -> (r: String)
    ensures
        r@ == new_id_of(kind@, ts_ms as int, extra@),
{
    let mut base = String::from_str(kind);
    base.append(":");
    let ts = dec_i64(ts_ms);
    base.append(ts.as_str());
    base.append(":");
    base.append(extra);
    assert(base@ =~= id_base(kind@, ts_ms as int, extra@));
    uuid_v5_url(base.as_str())
}

} // verus!
