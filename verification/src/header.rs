//! Trusted boundary around `ntex_http::HeaderMap` plus the verified parsing
//! of the `content-length` header value.

use vstd::prelude::*;
use ntex_http::HeaderMap;
use ntex_http::header::HeaderValue;

verus! {

#[verifier::external_type_specification]
#[verifier::external_body]
pub struct ExHeaderMap(HeaderMap);

#[verifier::external_type_specification]
#[verifier::external_body]
pub struct ExHeaderValue(HeaderValue);

/// The first value stored under each header name, keyed by the lower-case
/// name the map normalizes to.
pub uninterp spec fn header_entries(m: HeaderMap) -> Map<Seq<char>, Seq<u8>>;

/// The octets a single header value holds.
pub uninterp spec fn header_value_view(v: HeaderValue) -> Seq<u8>;

/// The key the `content-length` header is stored under.
pub open spec fn content_length_key() -> Seq<char> {
    "content-length"@
}

/// Relies on ntex_http::HeaderMap::get: returns the first value stored for
/// the name, or None when the map holds no value for it.
#[verifier::external_body]
pub fn get_content_length(map: &HeaderMap) -> (r: Option<&HeaderValue>)
    ensures
        match r {
            Some(v) => header_entries(*map).contains_key(content_length_key())
                && header_value_view(*v) == header_entries(*map)[content_length_key()],
            None => !header_entries(*map).contains_key(content_length_key()),
        },
{
    map.get(ntex_http::header::CONTENT_LENGTH)
}

/// Relies on ntex_http::header::HeaderValue::as_bytes: the returned slice is
/// exactly the value's octets, copied out here into a vector.
#[verifier::external_body]
pub fn header_value_bytes(v: &HeaderValue) -> (r: Vec<u8>)
    ensures
        r@ == header_value_view(*v),
{
    v.as_bytes().to_vec()
}

/// The content-length value carried by the header map, when one is carried
/// and is a plain decimal number that fits in a u64.
pub open spec fn spec_content_length(m: HeaderMap) -> Option<u64> {
    if header_entries(m).contains_key(content_length_key()) {
        let b = header_entries(m)[content_length_key()];
        if b.len() > 0 && all_digits(b) && decimal_value(b) <= u64::MAX {
            Some(decimal_value(b) as u64)
        } else {
            None
        }
    } else {
        None
    }
}

/// The header map either carries no content-length or a well-formed one.
pub open spec fn spec_content_length_ok(m: HeaderMap) -> bool {
    header_entries(m).contains_key(content_length_key()) ==> spec_content_length(m) is Some
}

/// Reads and parses the `content-length` header: `Ok(None)` when absent,
/// `Ok(Some(v))` when present and a well-formed decimal number, `Err` when
/// present but malformed.
pub fn content_length_of(map: &HeaderMap) -> (r: Result<Option<u64>, ()>)
    ensures
        spec_content_length_ok(*map) ==> r == Ok::<Option<u64>, ()>(spec_content_length(*map)),
        !spec_content_length_ok(*map) ==> r == Err::<Option<u64>, ()>(()),
{
    match get_content_length(map) {
        None => Ok(None),
        Some(v) => {
            let bytes = header_value_bytes(v);
            match parse_content_length(&bytes) {
                Some(n) => Ok(Some(n)),
                None => Err(()),
            }
        },
    }
}

/// The numeric value of a sequence of ASCII decimal digits.
pub open spec fn decimal_value(s: Seq<u8>) -> int
    decreases s.len(),
{
    if s.len() == 0 {
        0
    } else {
        decimal_value(s.drop_last()) * 10 + (s.last() - 0x30)
    }
}

/// Every octet is an ASCII decimal digit.
pub open spec fn all_digits(s: Seq<u8>) -> bool {
    forall|i: int| 0 <= i < s.len() ==> 0x30 <= #[trigger] s[i] <= 0x39
}

/// Parses a `content-length` header value: a nonempty string of decimal
/// digits whose value fits in a u64. Anything else is rejected.
pub fn parse_content_length(bytes: &Vec<u8>) -> (r: Option<u64>)
    ensures
        (r is Some) <==> (bytes@.len() > 0 && all_digits(bytes@) && decimal_value(bytes@)
            <= u64::MAX),
        r matches Some(v) ==> v == decimal_value(bytes@),
{
    if bytes.len() == 0 {
        return None;
    }
    let mut value: u64 = 0;
    let mut i: usize = 0;
    while i < bytes.len()
        invariant
            0 <= i <= bytes@.len(),
            all_digits(bytes@.take(i as int)),
            value == decimal_value(bytes@.take(i as int)),
        decreases bytes@.len() - i,
    {
        let b = bytes[i];
        if b < 0x30 || b > 0x39 {
            proof {
                assert(bytes@[i as int] == b);
                assert(!all_digits(bytes@));
            }
            return None;
        }
        let digit: u64 = (b - 0x30) as u64;
        if value > (u64::MAX - digit) / 10 {
            proof {
                assert(bytes@.take(i as int + 1).drop_last() =~= bytes@.take(i as int));
                assert(bytes@.take(i as int + 1).last() == b);
                assert(decimal_value(bytes@.take(i as int + 1)) == value * 10 + digit);
                assert(value * 10 + digit > u64::MAX) by (nonlinear_arith)
                    requires
                        value > (u64::MAX - digit) / 10,
                        digit <= 9,
                {}
                if all_digits(bytes@) {
                    lemma_decimal_value_monotonic(bytes@, i as int + 1);
                }
            }
            return None;
        }
        proof {
            assert(value * 10 + digit <= u64::MAX) by (nonlinear_arith)
                requires
                    value <= (u64::MAX - digit) / 10,
                    digit <= 9,
            {}
            assert(bytes@.take(i as int + 1).drop_last() =~= bytes@.take(i as int));
            assert(bytes@.take(i as int + 1).last() == b);
        }
        value = value * 10 + digit;
        i = i + 1;
        proof {
            assert forall|j: int| 0 <= j < i implies 0x30 <= #[trigger] bytes@.take(i as int)[j]
                <= 0x39 by {
                assert(bytes@.take(i as int)[j] == bytes@[j]);
                if j < i - 1 {
                    assert(bytes@.take(i as int - 1)[j] == bytes@[j]);
                } else {
                    assert(bytes@[j] == b);
                }
            }
        }
    }
    proof {
        assert(bytes@.take(bytes@.len() as int) =~= bytes@);
    }
    Some(value)
}

/// For a string of decimal digits, the value of a prefix never exceeds the
/// value of the whole: appending digits can only grow the number.
pub proof fn lemma_decimal_value_monotonic(s: Seq<u8>, n: int)
    requires
        0 <= n <= s.len(),
        all_digits(s),
    ensures
        decimal_value(s.take(n)) <= decimal_value(s),
        decimal_value(s) >= 0,
    decreases s.len() - n,
{
    lemma_decimal_value_nonneg(s.take(n));
    if n < s.len() {
        lemma_decimal_value_monotonic(s, n + 1);
        assert(s.take(n + 1).drop_last() =~= s.take(n));
        assert(s.take(n + 1).last() == s[n]);
        assert(decimal_value(s.take(n + 1)) == decimal_value(s.take(n)) * 10 + (s[n] - 0x30));
        lemma_decimal_value_nonneg(s.take(n));
        assert(decimal_value(s.take(n)) * 10 >= decimal_value(s.take(n))) by (nonlinear_arith)
            requires
                decimal_value(s.take(n)) >= 0,
        {}
    } else {
        assert(s.take(n) =~= s);
        lemma_decimal_value_nonneg(s);
    }
}

/// The decimal value of a digit string is never negative.
pub proof fn lemma_decimal_value_nonneg(s: Seq<u8>)
    requires
        all_digits(s),
    ensures
        decimal_value(s) >= 0,
    decreases s.len(),
{
    if s.len() > 0 {
        assert(all_digits(s.drop_last())) by {
            assert(forall|i: int| 0 <= i < s.len() - 1 ==> #[trigger] s.drop_last()[i] == s[i]);
        }
        lemma_decimal_value_nonneg(s.drop_last());
        assert(0x30 <= s.last() <= 0x39);
        assert(decimal_value(s.drop_last()) * 10 >= 0) by (nonlinear_arith)
            requires
                decimal_value(s.drop_last()) >= 0,
        {}
    }
}

} // verus!
