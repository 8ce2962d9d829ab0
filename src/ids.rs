use vstd::prelude::*;
use vstd::string::StringSliceAdditionalSpecFns;

verus! {

/// The 128-bit value of the UUID that `s` spells, if it spells one in any of
/// the textual forms the uuid crate reads.
pub uninterp spec fn uuid_parsed(s: Seq<char>) -> Option<u128>;

/// Relies on `uuid::Uuid::parse_str` and `Uuid::as_u128`: the outcome is a
/// function of the text alone, and empty text is no UUID.
#[verifier::external_body]
pub(crate) fn parse_uuid(s: &str) -> (r: Option<u128>)
    ensures
        r == uuid_parsed(s@),
        s@.len() == 0 ==> r.is_none(),
{
    uuid::Uuid::parse_str(s).ok().map(|u| u.as_u128())
}

/// Relies on `uuid::Uuid::new_v4`: a random id; nothing is known of its value.
#[verifier::external_body]
pub(crate) fn random_uuid() -> (r: u128) {
    uuid::Uuid::new_v4().as_u128()
}

/// The earliest Unix time, in seconds, that chrono's `DateTime<Utc>` holds
/// (January 1, 262144 BCE).
pub const CLOCK_MIN_SECS: i64 = -8_334_601_315_200;

/// The latest Unix time, in whole seconds, that chrono's `DateTime<Utc>`
/// holds (December 31, 262142 CE, 23:59:59).
pub const CLOCK_MAX_SECS: i64 = 8_210_266_876_799;

/// Relies on `chrono::Utc::now` and `DateTime::timestamp`: the current Unix
/// time in seconds. `Utc::now` builds its result with
/// `DateTime::from_timestamp(..).unwrap()`, which only succeeds inside the
/// range of `DateTime<Utc>`, so a returned value lies within it.
#[verifier::external_body]
pub(crate) fn unix_now() -> (r: i64)
    ensures
        CLOCK_MIN_SECS <= r <= CLOCK_MAX_SECS,
{
    chrono::Utc::now().timestamp()
}

pub open spec fn is_digit(b: u8) -> bool {
    48 <= b && b <= 57
}

pub open spec fn all_digits(b: Seq<u8>) -> bool {
    forall|i: int| 0 <= i < b.len() ==> is_digit(#[trigger] b[i])
}

/// The value of a string of decimal digits.
pub open spec fn digits_value(b: Seq<u8>) -> int
    decreases b.len(),
{
    if b.len() == 0 {
        0
    } else {
        10 * digits_value(b.drop_last()) + (b.last() - 48)
    }
}

/// The value of `b`, a non-empty run of decimal digits, if it is at most
/// `limit`.
pub open spec fn digits_within(b: Seq<u8>, limit: int) -> Option<int> {
    if b.len() > 0 && all_digits(b) && digits_value(b) <= limit {
        Some(digits_value(b))
    } else {
        None
    }
}

/// The identity id that the provider's textual id spells, read as an `i64`
/// is read from text: an optional `+` or `-`, then one or more decimal
/// digits, with a value from `i64::MIN` to `i64::MAX`.
pub open spec fn identity_id_of(b: Seq<u8>) -> Option<i64> {
    if b.len() > 0 && b[0] == 45 {
        match digits_within(b.subrange(1, b.len() as int), -(i64::MIN as int)) {
            Some(v) => Some((-v) as i64),
            None => None,
        }
    } else {
        let d = if b.len() > 0 && b[0] == 43 { b.subrange(1, b.len() as int) } else { b };
        match digits_within(d, i64::MAX as int) {
            Some(v) => Some(v as i64),
            None => None,
        }
    }
}

proof fn lemma_digits_value_nonneg(b: Seq<u8>)
    requires
        all_digits(b),
    ensures
        digits_value(b) >= 0,
    decreases b.len(),
{
    if b.len() > 0 {
        let p = b.drop_last();
        assert forall|i: int| 0 <= i < p.len() implies is_digit(#[trigger] p[i]) by {
            assert(p[i] == b[i]);
        }
        lemma_digits_value_nonneg(p);
    }
}

proof fn lemma_digits_value_grows(b: Seq<u8>, n: int)
    requires
        0 <= n <= b.len(),
        all_digits(b),
    ensures
        digits_value(b.subrange(0, n)) <= digits_value(b),
    decreases b.len() - n,
{
    if n < b.len() {
        lemma_digits_value_grows(b, n + 1);
        let q = b.subrange(0, n + 1);
        assert(q.drop_last() =~= b.subrange(0, n));
        assert forall|i: int| 0 <= i < b.subrange(0, n).len() implies is_digit(
            #[trigger] b.subrange(0, n)[i],
        ) by {
            assert(b.subrange(0, n)[i] == b[i]);
        }
        lemma_digits_value_nonneg(b.subrange(0, n));
    } else {
        assert(b.subrange(0, n) =~= b);
    }
}

/// Reads the digits of `b` from `start` on as a number no larger than
/// `limit`.
fn digits_up_to(b: &[u8], start: usize, limit: u64) -> (r: Option<u64>)
    requires
        start <= b@.len(),
        limit >= 9,
    ensures
        match digits_within(b@.subrange(start as int, b@.len() as int), limit as int) {
            Some(v) => r.is_some() && r.unwrap() as int == v,
            None => r.is_none(),
        },
        r.is_some() ==> r.unwrap() <= limit,
{
    let ghost d = b@.subrange(start as int, b@.len() as int);
    let n = b.len();
    if start == n {
        return None;
    }
    let mut acc: u64 = 0;
    let mut i: usize = start;
    while i < n
        invariant
            n == b@.len(),
            d == b@.subrange(start as int, n as int),
            start <= i <= n,
            limit >= 9,
            forall|j: int| start <= j < i ==> is_digit(#[trigger] b@[j]),
            acc as int == digits_value(b@.subrange(start as int, i as int)),
            acc <= limit,
        decreases n - i,
    {
        let c = b[i];
        if c < 48 || c > 57 {
            proof {
                assert(d[i - start] == c);
                assert(!all_digits(d));
            }
            return None;
        }
        let x = (c - 48) as u64;
        proof {
            assert(b@.subrange(start as int, i + 1).drop_last() =~= b@.subrange(start as int, i as int));
            assert(b@.subrange(start as int, i + 1).last() == c);
        }
        if acc > (limit - x) / 10 {
            proof {
                assert(digits_value(b@.subrange(start as int, i + 1)) == 10 * acc + x);
                assert(10 * acc + x > limit) by (nonlinear_arith)
                    requires
                        acc > (limit - x) / 10,
                        0 <= x <= 9,
                        limit >= 9,
                ;
                let k = (i + 1 - start) as int;
                assert(d.subrange(0, k) =~= b@.subrange(start as int, i + 1));
                if all_digits(d) {
                    lemma_digits_value_grows(d, k);
                }
            }
            return None;
        }
        assert(10 * acc + x <= limit) by (nonlinear_arith)
            requires
                acc <= (limit - x) / 10,
                0 <= x <= 9,
                limit >= 9,
        ;
        acc = 10 * acc + x;
        i = i + 1;
    }
    proof {
        assert(b@.subrange(start as int, n as int) =~= d);
        assert forall|j: int| 0 <= j < d.len() implies is_digit(#[trigger] d[j]) by {
            assert(d[j] == b@[start + j]);
        }
    }
    Some(acc)
}

/// Reads the provider's textual identity id as a number, as an `i64` is
/// read from text: an optional sign, then decimal digits.
pub fn parse_identity_id(s: &str) -> (r: Option<i64>)
    ensures
        r == identity_id_of(s.spec_bytes()),
{
    let b = s.as_bytes();
    let n = b.len();
    if n > 0 && b[0] == 45 {
        match digits_up_to(b, 1, 9_223_372_036_854_775_808u64) {
            Some(v) => {
                if v == 9_223_372_036_854_775_808u64 {
                    Some(i64::MIN)
                } else {
                    Some(-(v as i64))
                }
            },
            None => None,
        }
    } else {
        let start: usize = if n > 0 && b[0] == 43 { 1 } else { 0 };
        proof {
            if start == 0 {
                assert(b@.subrange(0, n as int) =~= b@);
            }
        }
        match digits_up_to(b, start, 9_223_372_036_854_775_807u64) {
            Some(v) => Some(v as i64),
            None => None,
        }
    }
}

} // verus!
