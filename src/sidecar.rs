//! The companion JSON file that photo exports write beside each photo,
//! holding when it was taken and when it was uploaded.

use vstd::prelude::*;
use vstd::string::*;
use crate::name_timestamp::{is_digit, number_at};
use crate::names::chars_of;

verus! {

pub const U64_MAX: u64 = 18446744073709551615;

/// A timestamp field of the companion file: Unix seconds, written as a
/// string.
pub struct GooglePhotoTimestamp {
    pub timestamp: String,
}

/// The two fields of the companion file that this library reads.
pub struct GooglePhotoJsonData {
    pub creation_time: Option<GooglePhotoTimestamp>,
    pub photo_taken_time: Option<GooglePhotoTimestamp>,
}

/// The digits of an unsigned decimal: `s` without one leading `+`.
pub open spec fn unsigned_digits(s: Seq<char>) -> Seq<char> {
    if s.len() > 0 && s[0] == '+' {
        s.subrange(1, s.len() as int)
    } else {
        s
    }
}

/// The value of `s` read as a `u64` the way `str::parse` reads it: an
/// optional `+`, then at least one ASCII digit, and nothing else; `None`
/// when the text is not of that shape or the value exceeds `u64::MAX`.
pub open spec fn parse_u64(s: Seq<char>) -> Option<u64> {
    let d = unsigned_digits(s);
    if d.len() > 0 && (forall|k: int| 0 <= k < d.len() ==> is_digit(#[trigger] d[k])) && number_at(
        d,
        0,
        d.len(),
    ) <= U64_MAX {
        Some(number_at(d, 0, d.len()) as u64)
    } else {
        None
    }
}

pub open spec fn field_seconds(f: Option<GooglePhotoTimestamp>) -> Option<u64> {
    match f {
        Some(t) => parse_u64(t.timestamp@),
        None => None,
    }
}

/// When the photo was taken, else when it was uploaded, as far as the
/// companion file says it with a readable number.
pub open spec fn sidecar_seconds(data: GooglePhotoJsonData) -> Option<u64> {
    match field_seconds(data.photo_taken_time) {
        Some(t) => Some(t),
        None => field_seconds(data.creation_time),
    }
}

proof fn lemma_number_grows(s: Seq<char>, k: nat, m: nat)
    requires
        k <= m <= s.len(),
        forall|j: int| 0 <= j < s.len() ==> is_digit(#[trigger] s[j]),
    ensures
        0 <= number_at(s, 0, k) <= number_at(s, 0, m),
    decreases m,
{
    if k < m {
        lemma_number_grows(s, k, (m - 1) as nat);
        assert(is_digit(s[m - 1]));
    } else {
        lemma_number_nonneg(s, k);
    }
}

proof fn lemma_number_nonneg(s: Seq<char>, k: nat)
    requires
        k <= s.len(),
        forall|j: int| 0 <= j < s.len() ==> is_digit(#[trigger] s[j]),
    ensures
        0 <= number_at(s, 0, k),
    decreases k,
{
    if k > 0 {
        lemma_number_nonneg(s, (k - 1) as nat);
        assert(is_digit(s[k - 1]));
    }
}

/// Reads an unsigned decimal the way `str::parse::<u64>` does.
pub fn parse_unsigned(text: &str) -> (r: Option<u64>)
    ensures
        r == parse_u64(text@),
{
    let s = chars_of(text);
    let n = s.len();
    let start: usize = if n > 0 && s[0] == '+' {
        1
    } else {
        0
    };
    let ghost d = unsigned_digits(s@);
    assert(d =~= s@.subrange(start as int, n as int));
    if start == n {
        return None;
    }
    let mut v: u64 = 0;
    let mut k: usize = start;
    while k < n
        invariant
            start <= k <= n,
            n == s.len(),
            d == s@.subrange(start as int, n as int),
            d == unsigned_digits(s@),
            s@ == text@,
            forall|j: int| start <= j < k ==> is_digit(#[trigger] s@[j]),
            v as int == number_at(d, 0, (k - start) as nat),
        decreases n - k,
    {
        let c = s[k];
        if !('0' <= c && c <= '9') {
            assert(d[(k - start) as int] == s@[k as int]);
            assert(!is_digit(d[(k - start) as int]));
            return None;
        }
        let digit: u64 = (c as u32 - '0' as u32) as u64;
        assert(number_at(d, 0, (k + 1 - start) as nat) == number_at(d, 0, (k - start) as nat) * 10
            + digit);
        if v > 1844674407370955161 || (v == 1844674407370955161 && digit > 5) {
            proof {
                if forall|j: int| 0 <= j < d.len() ==> is_digit(#[trigger] d[j]) {
                    lemma_number_grows(d, (k + 1 - start) as nat, d.len());
                }
            }
            return None;
        }
        v = v * 10 + digit;
        k = k + 1;
    }
    Some(v)
}

/// Where the companion file of the photo at `path` lies: beside it, named
/// after the whole file name with `.json` added.
pub fn sidecar_path(path: &str) -> (r: String)
    ensures
        r@ == path@ + ".json"@,
{
    let mut s = String::from_str(path);
    s.append(".json");
    s
}

impl GooglePhotoJsonData {
    /// The upload time, in Unix seconds.
    pub fn u64_creation_time(&self) -> (r: Option<u64>)
        ensures
            r == field_seconds(self.creation_time),
    {
        match &self.creation_time {
            Some(t) => parse_unsigned(t.timestamp.as_str()),
            None => None,
        }
    }

    /// The time the photo was taken, in Unix seconds.
    pub fn u64_photo_taken_time(&self) -> (r: Option<u64>)
        ensures
            r == field_seconds(self.photo_taken_time),
    {
        match &self.photo_taken_time {
            Some(t) => parse_unsigned(t.timestamp.as_str()),
            None => None,
        }
    }

    /// The time the photo was taken, else its upload time.
    pub fn json_timestamp(&self) -> (r: Option<u64>)
        ensures
            r == sidecar_seconds(*self),
    {
        match self.u64_photo_taken_time() {
            Some(t) => Some(t),
            None => self.u64_creation_time(),
        }
    }
}

} // verus!
