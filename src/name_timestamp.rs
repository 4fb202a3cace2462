//! When a photo was taken, read from the digits of its file name.
//!
//! Three patterns are tried in turn on the file stem, each on its leftmost
//! occurrence only:
//! - a date and a time: four digits, then five groups of two digits, with
//!   runs of non-digits allowed between the groups (`IMG_20160922_160430`,
//!   `2016-09-22-16-04-30`);
//! - a date alone: four digits, two and two, each pair after at most one
//!   non-digit (`20160922`, `2016_09_22`); the time is midnight;
//! - thirteen consecutive digits, read as Unix milliseconds; of several, the
//!   last one on the line of the first is taken.

use vstd::prelude::*;
use crate::datetime::{DateTime, valid_date, valid_time, unix_moment, from_unix_timestamp};
use crate::names::{chars_of, file_name, file_name_of, file_stem, stem_of};

verus! {

pub open spec fn is_digit(c: char) -> bool {
    '0' <= c && c <= '9'
}

/// `n` digits stand in `s` from position `i` on.
pub open spec fn digits_at(s: Seq<char>, i: int, n: int) -> bool {
    0 <= i && 0 <= n && i + n <= s.len() && forall|k: int| i <= k < i + n ==> is_digit(#[trigger] s[k])
}

/// The decimal number written by the `n` characters of `s` from `i` on.
pub open spec fn number_at(s: Seq<char>, i: int, n: nat) -> int
    decreases n,
{
    if n == 0 {
        0
    } else {
        number_at(s, i, (n - 1) as nat) * 10 + (s[i + n - 1] as int - '0' as int)
    }
}

pub open spec fn pow10(n: nat) -> int
    decreases n,
{
    if n == 0 {
        1
    } else {
        10 * pow10((n - 1) as nat)
    }
}

/// The first position from `i` on that holds a digit, or the length.
pub open spec fn skip_non_digits(s: Seq<char>, i: int) -> int
    decreases s.len() - i,
{
    if 0 <= i < s.len() && !is_digit(s[i]) {
        skip_non_digits(s, i + 1)
    } else {
        i
    }
}

/// Where the six groups of the date-and-time pattern start, for a match
/// that starts at `i`.
pub open spec fn date_time_groups(s: Seq<char>, i: int) -> Seq<int> {
    let p1 = skip_non_digits(s, i + 4);
    let p2 = skip_non_digits(s, p1 + 2);
    let p3 = skip_non_digits(s, p2 + 2);
    let p4 = skip_non_digits(s, p3 + 2);
    let p5 = skip_non_digits(s, p4 + 2);
    seq![i, p1, p2, p3, p4, p5]
}

/// The date-and-time pattern matches at `i`.
pub open spec fn date_time_match_at(s: Seq<char>, i: int) -> bool {
    let g = date_time_groups(s, i);
    digits_at(s, g[0], 4) && digits_at(s, g[1], 2) && digits_at(s, g[2], 2) && digits_at(s, g[3], 2)
        && digits_at(s, g[4], 2) && digits_at(s, g[5], 2)
}

/// After a group that ends at `j`, the next group starts past at most one
/// non-digit.
pub open spec fn after_optional_separator(s: Seq<char>, j: int) -> int {
    if 0 <= j < s.len() && !is_digit(s[j]) {
        j + 1
    } else {
        j
    }
}

/// Where the three groups of the date pattern start, for a match that starts
/// at `i`.
pub open spec fn date_groups(s: Seq<char>, i: int) -> Seq<int> {
    let q1 = after_optional_separator(s, i + 4);
    let q2 = after_optional_separator(s, q1 + 2);
    seq![i, q1, q2]
}

pub open spec fn date_match_at(s: Seq<char>, i: int) -> bool {
    let g = date_groups(s, i);
    digits_at(s, g[0], 4) && digits_at(s, g[1], 2) && digits_at(s, g[2], 2)
}

/// The leftmost position from `i` on where `date_time_match_at` holds.
pub open spec fn first_date_time_match(s: Seq<char>, i: int) -> Option<int>
    decreases s.len() + 1 - i,
{
    if i < 0 || i > s.len() {
        None
    } else if date_time_match_at(s, i) {
        Some(i)
    } else {
        first_date_time_match(s, i + 1)
    }
}

/// The leftmost position from `i` on where `date_match_at` holds.
pub open spec fn first_date_match(s: Seq<char>, i: int) -> Option<int>
    decreases s.len() + 1 - i,
{
    if i < 0 || i > s.len() {
        None
    } else if date_match_at(s, i) {
        Some(i)
    } else {
        first_date_match(s, i + 1)
    }
}

/// The moment written by the date-and-time pattern, if it matches and names
/// a real moment.
pub open spec fn date_time_stage(s: Seq<char>) -> Option<DateTime> {
    match first_date_time_match(s, 0) {
        Some(i) => {
            let g = date_time_groups(s, i);
            let y = number_at(s, g[0], 4);
            let mo = number_at(s, g[1], 2);
            let d = number_at(s, g[2], 2);
            let h = number_at(s, g[3], 2);
            let mi = number_at(s, g[4], 2);
            let se = number_at(s, g[5], 2);
            if valid_date(y, mo, d) && valid_time(h, mi, se) {
                Some(DateTime::spec_new(y, mo, d, h, mi, se))
            } else {
                None
            }
        },
        None => None,
    }
}

/// Midnight of the day written by the date pattern, if it matches and names
/// a real day.
pub open spec fn date_stage(s: Seq<char>) -> Option<DateTime> {
    match first_date_match(s, 0) {
        Some(i) => {
            let g = date_groups(s, i);
            let y = number_at(s, g[0], 4);
            let mo = number_at(s, g[1], 2);
            let d = number_at(s, g[2], 2);
            if valid_date(y, mo, d) {
                Some(DateTime::spec_new(y, mo, d, 0, 0, 0))
            } else {
                None
            }
        },
        None => None,
    }
}

pub open spec fn no_newline(s: Seq<char>, a: int, b: int) -> bool {
    forall|k: int| a <= k < b ==> #[trigger] s[k] != '\n'
}

/// Thirteen digits start at `p`, every such run before `p` lies on the same
/// line as `p`, and every one after `p` lies on a later line.
pub open spec fn is_millis_run(s: Seq<char>, p: int) -> bool {
    &&& digits_at(s, p, 13)
    &&& forall|q: int| 0 <= q < p && #[trigger] digits_at(s, q, 13) ==> no_newline(s, q, p)
    &&& forall|q: int| p < q && #[trigger] digits_at(s, q, 13) ==> !no_newline(s, p, q)
}

pub open spec fn has_millis_run(s: Seq<char>) -> bool {
    exists|q: int| #[trigger] digits_at(s, q, 13)
}

/// The moment of the thirteen-digit run read as Unix milliseconds.
pub open spec fn millis_stage(s: Seq<char>) -> Option<DateTime> {
    if has_millis_run(s) {
        let p = choose|p: int| is_millis_run(s, p);
        unix_moment(number_at(s, p, 13) / 1000)
    } else {
        None
    }
}

/// The first of the three patterns that yields a moment.
pub open spec fn stem_timestamp(s: Seq<char>) -> Option<DateTime> {
    match date_time_stage(s) {
        Some(d) => Some(d),
        None => match date_stage(s) {
            Some(d) => Some(d),
            None => millis_stage(s),
        },
    }
}

/// What the file name of `path` says of when the photo was taken.
pub open spec fn path_timestamp(path: Seq<char>) -> Option<DateTime> {
    match file_name_of(path) {
        Some(n) => stem_timestamp(stem_of(n)),
        None => None,
    }
}

fn is_digit_char(c: char) -> (r: bool)
    ensures
        r == is_digit(c),
{
    '0' <= c && c <= '9'
}

fn skip_non_digits_from(s: &Vec<char>, i: usize) -> (r: usize)
    requires
        i <= s.len(),
    ensures
        r as int == skip_non_digits(s@, i as int),
        i <= r <= s.len(),
{
    let mut j = i;
    while j < s.len() && !is_digit_char(s[j])
        invariant
            i <= j <= s.len(),
            skip_non_digits(s@, j as int) == skip_non_digits(s@, i as int),
        decreases s.len() - j,
    {
        j = j + 1;
    }
    j
}

fn has_digits(s: &Vec<char>, i: usize, n: usize) -> (r: bool)
    ensures
        r == digits_at(s@, i as int, n as int),
{
    if i > s.len() || n > s.len() - i {
        return false;
    }
    let mut k: usize = 0;
    while k < n
        invariant
            i + n <= s.len(),
            k <= n,
            forall|m: int| i <= m < i + k ==> is_digit(#[trigger] s@[m]),
        decreases n - k,
    {
        if !is_digit_char(s[i + k]) {
            return false;
        }
        k = k + 1;
    }
    true
}

/// The number written by `n` digits from `i` on.
fn read_number(s: &Vec<char>, i: usize, n: usize) -> (r: u64)
    requires
        digits_at(s@, i as int, n as int),
        n <= 18,
    ensures
        r as int == number_at(s@, i as int, n as nat),
        r < pow10(n as nat),
{
    let mut v: u64 = 0;
    let mut k: usize = 0;
    proof {
        lemma_pow10_mono(0, 18);
    }
    while k < n
        invariant
            digits_at(s@, i as int, n as int),
            n <= 18,
            k <= n,
            v as int == number_at(s@, i as int, k as nat),
            v < pow10(k as nat),
            pow10(k as nat) <= pow10(18),
        decreases n - k,
    {
        assert(i + k < s.len());
        let c = s[i + k];
        assert(is_digit(s@[i + k]));
        let d: u64 = (c as u32 - '0' as u32) as u64;
        proof {
            lemma_pow10_mono(k as nat + 1, 18);
            reveal_with_fuel(pow10, 19);
            assert(pow10(18) == 1000000000000000000);
            assert(pow10(k as nat + 1) == 10 * pow10(k as nat));
            assert(v * 10 + d < 10 * pow10(k as nat)) by (nonlinear_arith)
                requires
                    v < pow10(k as nat),
                    d < 10,
            ;
        }
        v = v * 10 + d;
        k = k + 1;
    }
    v
}

proof fn lemma_pow10_mono(a: nat, b: nat)
    requires
        a <= b,
    ensures
        1 <= pow10(a) <= pow10(b),
    decreases b,
{
    if a == b {
        lemma_pow10_pos(a);
    } else {
        lemma_pow10_mono(a, (b - 1) as nat);
    }
}

proof fn lemma_pow10_pos(a: nat)
    ensures
        1 <= pow10(a),
    decreases a,
{
    if a > 0 {
        lemma_pow10_pos((a - 1) as nat);
    }
}

/// The six group starts when the date-and-time pattern matches at `i`.
fn date_time_match(s: &Vec<char>, i: usize) -> (r: Option<(usize, usize, usize, usize, usize, usize)>)
    requires
        i <= s.len(),
    ensures
        r is Some <==> date_time_match_at(s@, i as int),
        r matches Some(g) ==> seq![g.0 as int, g.1 as int, g.2 as int, g.3 as int, g.4 as int, g.5 as int]
            == date_time_groups(s@, i as int),
{
    if !has_digits(s, i, 4) {
        return None;
    }
    let p1 = skip_non_digits_from(s, i + 4);
    if !has_digits(s, p1, 2) {
        return None;
    }
    let p2 = skip_non_digits_from(s, p1 + 2);
    if !has_digits(s, p2, 2) {
        return None;
    }
    let p3 = skip_non_digits_from(s, p2 + 2);
    if !has_digits(s, p3, 2) {
        return None;
    }
    let p4 = skip_non_digits_from(s, p3 + 2);
    if !has_digits(s, p4, 2) {
        return None;
    }
    let p5 = skip_non_digits_from(s, p4 + 2);
    if !has_digits(s, p5, 2) {
        return None;
    }
    assert(seq![i as int, p1 as int, p2 as int, p3 as int, p4 as int, p5 as int] =~= date_time_groups(
        s@,
        i as int,
    ));
    Some((i, p1, p2, p3, p4, p5))
}

fn after_separator(s: &Vec<char>, j: usize) -> (r: usize)
    requires
        j <= s.len(),
    ensures
        r as int == after_optional_separator(s@, j as int),
        r <= s.len(),
{
    if j < s.len() && !is_digit_char(s[j]) {
        j + 1
    } else {
        j
    }
}

/// The three group starts when the date pattern matches at `i`.
fn date_match(s: &Vec<char>, i: usize) -> (r: Option<(usize, usize, usize)>)
    requires
        i <= s.len(),
    ensures
        r is Some <==> date_match_at(s@, i as int),
        r matches Some(g) ==> seq![g.0 as int, g.1 as int, g.2 as int] == date_groups(s@, i as int),
{
    if !has_digits(s, i, 4) {
        return None;
    }
    let q1 = after_separator(s, i + 4);
    if !has_digits(s, q1, 2) {
        return None;
    }
    let q2 = after_separator(s, q1 + 2);
    if !has_digits(s, q2, 2) {
        return None;
    }
    assert(seq![i as int, q1 as int, q2 as int] =~= date_groups(s@, i as int));
    Some((i, q1, q2))
}

/// The moment written by the leftmost match of the date-and-time pattern.
fn date_time_from(s: &Vec<char>) -> (r: Option<DateTime>)
    ensures
        r == date_time_stage(s@),
{
    let mut i: usize = 0;
    while i < s.len()
        invariant
            i <= s.len(),
            first_date_time_match(s@, 0) == first_date_time_match(s@, i as int),
        decreases s.len() - i,
    {
        match date_time_match(s, i) {
            Some(g) => {
                let (g0, g1, g2, g3, g4, g5) = g;
                let y = read_number(s, g0, 4);
                let mo = read_number(s, g1, 2);
                let d = read_number(s, g2, 2);
                let h = read_number(s, g3, 2);
                let mi = read_number(s, g4, 2);
                let se = read_number(s, g5, 2);
                proof {
                    reveal_with_fuel(pow10, 5);
                }
                return DateTime::new(y as i32, mo as u8, d as u8, h as u8, mi as u8, se as u8);
            },
            None => {},
        }
        i = i + 1;
    }
    assert(!date_time_match_at(s@, s.len() as int));
    assert(first_date_time_match(s@, s.len() + 1) is None);
    None
}

/// Midnight of the day written by the leftmost match of the date pattern.
fn date_from(s: &Vec<char>) -> (r: Option<DateTime>)
    ensures
        r == date_stage(s@),
{
    let mut i: usize = 0;
    while i < s.len()
        invariant
            i <= s.len(),
            first_date_match(s@, 0) == first_date_match(s@, i as int),
        decreases s.len() - i,
    {
        match date_match(s, i) {
            Some(g) => {
                let (g0, g1, g2) = g;
                let y = read_number(s, g0, 4);
                let mo = read_number(s, g1, 2);
                let d = read_number(s, g2, 2);
                proof {
                    reveal_with_fuel(pow10, 5);
                }
                return DateTime::midnight(y as i32, mo as u8, d as u8);
            },
            None => {},
        }
        i = i + 1;
    }
    assert(!date_match_at(s@, s.len() as int));
    assert(first_date_match(s@, s.len() + 1) is None);
    None
}

proof fn lemma_millis_run_unique(s: Seq<char>, p: int, q: int)
    requires
        is_millis_run(s, p),
        is_millis_run(s, q),
    ensures
        p == q,
{
    if p < q {
        assert(digits_at(s, q, 13));
        assert(digits_at(s, p, 13));
    } else if q < p {
        assert(digits_at(s, q, 13));
        assert(digits_at(s, p, 13));
    }
}

/// Where the run of thirteen digits read as milliseconds starts.
fn millis_run(s: &Vec<char>) -> (r: Option<usize>)
    ensures
        r matches Some(p) ==> is_millis_run(s@, p as int),
        r is None ==> !has_millis_run(s@),
{
    let n = s.len();
    if n < 13 {
        assert forall|q: int| !digits_at(s@, q, 13) by {}
        return None;
    }
    let mut i: usize = 0;
    let mut found = false;
    while !found && i <= n - 13
        invariant
            n == s.len(),
            n >= 13,
            i <= n - 12,
            found ==> i <= n - 13 && digits_at(s@, i as int, 13),
            forall|q: int| 0 <= q < i ==> !#[trigger] digits_at(s@, q, 13),
        decreases n - i + (if found { 0int } else { 1int }),
    {
        if has_digits(s, i, 13) {
            found = true;
        } else {
            i = i + 1;
        }
    }
    if !found {
        assert forall|q: int| !#[trigger] digits_at(s@, q, 13) by {
            if 0 <= q && q < i {
            }
        }
        return None;
    }
    let p0 = i;
    let mut p = i;
    let mut j = i + 1;
    while j < n && s[j] != '\n'
        invariant
            n == s.len(),
            p0 <= p < j <= n,
            digits_at(s@, p as int, 13),
            no_newline(s@, p0 as int, j as int),
            forall|q: int| p < q < j ==> !#[trigger] digits_at(s@, q, 13),
            forall|q: int| 0 <= q < p0 ==> !#[trigger] digits_at(s@, q, 13),
        decreases n - j,
    {
        if has_digits(s, j, 13) {
            p = j;
        }
        j = j + 1;
    }
    assert forall|q: int| 0 <= q < p && #[trigger] digits_at(s@, q, 13) implies no_newline(s@, q, p as int) by {
        assert(q >= p0);
    }
    assert forall|q: int| p < q && #[trigger] digits_at(s@, q, 13) implies !no_newline(s@, p as int, q) by {
        assert(q >= j);
        if j < n {
            assert(s@[j as int] == '\n');
            assert(q != j);
        }
    }
    Some(p)
}

/// The moment of the thirteen-digit run read as Unix milliseconds.
fn millis_from(s: &Vec<char>) -> (r: Option<DateTime>)
    ensures
        r == millis_stage(s@),
{
    match millis_run(s) {
        Some(p) => {
            let millis = read_number(s, p, 13);
            proof {
                reveal_with_fuel(pow10, 14);
                assert(is_millis_run(s@, p as int));
                let c = choose|c: int| is_millis_run(s@, c);
                lemma_millis_run_unique(s@, p as int, c);
            }
            let secs: i64 = (millis / 1000) as i64;
            let d = from_unix_timestamp(secs);
            d
        },
        None => None,
    }
}

/// What the digits of a file stem say of when the photo was taken.
pub fn timestamp_from_stem(stem: &str) -> (r: Option<DateTime>)
    ensures
        r == stem_timestamp(stem@),
{
    let s = chars_of(stem);
    match date_time_from(&s) {
        Some(d) => Some(d),
        None => match date_from(&s) {
            Some(d) => Some(d),
            None => millis_from(&s),
        },
    }
}

/// What the file name of `path` says of when the photo was taken.
pub fn get_regex_timestamp(path: &str) -> (r: Option<DateTime>)
    ensures
        r == path_timestamp(path@),
{
    match file_name(path) {
        Some(n) => {
            let stem = file_stem(n.as_str());
            timestamp_from_stem(stem.as_str())
        },
        None => None,
    }
}

/// The moment that the fields read from a stem name, when they name one.
pub open spec fn written_moment(y: int, mo: int, d: int, h: int, mi: int, se: int) -> Option<DateTime> {
    if valid_date(y, mo, d) && valid_time(h, mi, se) {
        Some(DateTime::spec_new(y, mo, d, h, mi, se))
    } else {
        None
    }
}

/// A stem that starts `IMG_YYYYMMDD_HHMMSS`.
pub open spec fn is_img_stem(s: Seq<char>) -> bool {
    &&& s.len() >= 19
    &&& s[0] == 'I' && s[1] == 'M' && s[2] == 'G' && s[3] == '_'
    &&& digits_at(s, 4, 8)
    &&& s[12] == '_'
    &&& digits_at(s, 13, 6)
}

/// A stem that starts `YYYY-MM-DD-HH-MM-SS`.
pub open spec fn is_dashed_stem(s: Seq<char>) -> bool {
    &&& s.len() >= 19
    &&& digits_at(s, 0, 4) && digits_at(s, 5, 2) && digits_at(s, 8, 2)
    &&& digits_at(s, 11, 2) && digits_at(s, 14, 2) && digits_at(s, 17, 2)
    &&& s[4] == '-' && s[7] == '-' && s[10] == '-' && s[13] == '-' && s[16] == '-'
}

/// A stem `IMG_YYYYMMDD_HHMMSS...` gives the moment its digits write.
pub proof fn lemma_img_stem(s: Seq<char>)
    requires
        is_img_stem(s),
        valid_date(number_at(s, 4, 4), number_at(s, 8, 2), number_at(s, 10, 2)),
        valid_time(number_at(s, 13, 2), number_at(s, 15, 2), number_at(s, 17, 2)),
    ensures
        stem_timestamp(s) == written_moment(
            number_at(s, 4, 4),
            number_at(s, 8, 2),
            number_at(s, 10, 2),
            number_at(s, 13, 2),
            number_at(s, 15, 2),
            number_at(s, 17, 2),
        ),
{
    assert(!is_digit(s[0]) && !is_digit(s[1]) && !is_digit(s[2]) && !is_digit(s[3]));
    assert(!date_time_match_at(s, 0));
    assert(!date_time_match_at(s, 1));
    assert(!date_time_match_at(s, 2));
    assert(!date_time_match_at(s, 3));
    assert(is_digit(s[8]) && is_digit(s[10]) && is_digit(s[13]) && is_digit(s[15]) && is_digit(s[17]));
    assert(skip_non_digits(s, 8) == 8);
    assert(skip_non_digits(s, 10) == 10);
    assert(skip_non_digits(s, 13) == 13);
    assert(skip_non_digits(s, 12) == 13);
    assert(skip_non_digits(s, 15) == 15);
    assert(skip_non_digits(s, 17) == 17);
    assert(date_time_groups(s, 4) =~= seq![4, 8, 10, 13, 15, 17]);
    assert(date_time_match_at(s, 4));
    assert(first_date_time_match(s, 4) == Some(4int));
    assert(first_date_time_match(s, 3) == Some(4int));
    assert(first_date_time_match(s, 2) == Some(4int));
    assert(first_date_time_match(s, 1) == Some(4int));
    assert(first_date_time_match(s, 0) == Some(4int));
}

/// A stem `YYYY-MM-DD-HH-MM-SS...` gives the moment its digits write.
pub proof fn lemma_dashed_stem(s: Seq<char>)
    requires
        is_dashed_stem(s),
        valid_date(number_at(s, 0, 4), number_at(s, 5, 2), number_at(s, 8, 2)),
        valid_time(number_at(s, 11, 2), number_at(s, 14, 2), number_at(s, 17, 2)),
    ensures
        stem_timestamp(s) == written_moment(
            number_at(s, 0, 4),
            number_at(s, 5, 2),
            number_at(s, 8, 2),
            number_at(s, 11, 2),
            number_at(s, 14, 2),
            number_at(s, 17, 2),
        ),
{
    assert(is_digit(s[5]) && is_digit(s[8]) && is_digit(s[11]) && is_digit(s[14]) && is_digit(s[17]));
    assert(skip_non_digits(s, 5) == 5);
    assert(skip_non_digits(s, 4) == 5);
    assert(skip_non_digits(s, 8) == 8);
    assert(skip_non_digits(s, 7) == 8);
    assert(skip_non_digits(s, 11) == 11);
    assert(skip_non_digits(s, 10) == 11);
    assert(skip_non_digits(s, 14) == 14);
    assert(skip_non_digits(s, 13) == 14);
    assert(skip_non_digits(s, 17) == 17);
    assert(skip_non_digits(s, 16) == 17);
    assert(date_time_groups(s, 0) =~= seq![0, 5, 8, 11, 14, 17]);
    assert(date_time_match_at(s, 0));
    assert(first_date_time_match(s, 0) == Some(0int));
}

/// A stem of eight digits `YYYYMMDD` gives midnight of the day they write.
pub proof fn lemma_eight_digit_stem(s: Seq<char>)
    requires
        s.len() == 8,
        digits_at(s, 0, 8),
        valid_date(number_at(s, 0, 4), number_at(s, 4, 2), number_at(s, 6, 2)),
    ensures
        stem_timestamp(s) == written_moment(number_at(s, 0, 4), number_at(s, 4, 2), number_at(s, 6, 2), 0, 0, 0),
{
    assert(is_digit(s[4]) && is_digit(s[5]) && is_digit(s[6]) && is_digit(s[7]));
    assert(skip_non_digits(s, 8) == 8);
    assert(skip_non_digits(s, 4) == 4);
    assert(skip_non_digits(s, 5) == 5);
    assert(skip_non_digits(s, 6) == 6);
    assert(skip_non_digits(s, 7) == 7);
    assert(!date_time_match_at(s, 0));
    assert(!date_time_match_at(s, 1));
    assert(!date_time_match_at(s, 2));
    assert(!date_time_match_at(s, 3));
    assert(!date_time_match_at(s, 4));
    assert(!date_time_match_at(s, 5));
    assert(!date_time_match_at(s, 6));
    assert(!date_time_match_at(s, 7));
    assert(!date_time_match_at(s, 8));
    assert(first_date_time_match(s, 9) is None);
    assert(first_date_time_match(s, 8) is None);
    assert(first_date_time_match(s, 7) is None);
    assert(first_date_time_match(s, 6) is None);
    assert(first_date_time_match(s, 5) is None);
    assert(first_date_time_match(s, 4) is None);
    assert(first_date_time_match(s, 3) is None);
    assert(first_date_time_match(s, 2) is None);
    assert(first_date_time_match(s, 1) is None);
    assert(first_date_time_match(s, 0) is None);
    assert(date_groups(s, 0) =~= seq![0, 4, 6]);
    assert(date_match_at(s, 0));
    assert(first_date_match(s, 0) == Some(0int));
}

/// A stem whose only digits are thirteen consecutive ones, from `a` on.
pub open spec fn is_millis_stem(s: Seq<char>, a: int) -> bool {
    &&& digits_at(s, a, 13)
    &&& forall|k: int| 0 <= k < s.len() && (k < a || k >= a + 13) ==> !is_digit(#[trigger] s[k])
}

proof fn lemma_skip_to_end(s: Seq<char>, a: int, x: int)
    requires
        is_millis_stem(s, a),
        a + 13 <= x <= s.len(),
    ensures
        skip_non_digits(s, x) == s.len(),
    decreases s.len() - x,
{
    if x < s.len() {
        assert(!is_digit(s[x]));
        lemma_skip_to_end(s, a, x + 1);
    }
}

proof fn lemma_no_date_time_in_millis_stem(s: Seq<char>, a: int, i: int)
    requires
        is_millis_stem(s, a),
        0 <= i,
    ensures
        !date_time_match_at(s, i),
{
    assert forall|x: int| a <= x < a + 13 implies #[trigger] skip_non_digits(s, x) == x by {
        assert(is_digit(s[x]));
    }
    assert forall|x: int| a + 13 <= x <= s.len() implies #[trigger] skip_non_digits(s, x) == s.len() by {
        lemma_skip_to_end(s, a, x);
    }
    if i < a {
        assert(!is_digit(s[i]));
    } else if i > a + 9 {
        if i + 4 <= s.len() {
            assert(!is_digit(s[i + 3]));
        }
    } else {
        if date_time_match_at(s, i) {
            let g = date_time_groups(s, i);
            assert(g[1] < s.len());
            assert(g[1] == i + 4);
            assert(g[2] == i + 6);
            assert(g[3] == i + 8);
            assert(g[4] == i + 10);
            assert(g[5] == i + 12);
            assert(is_digit(s[i + 13]));
        }
    }
}

proof fn lemma_no_first_date_time(s: Seq<char>, a: int, i: int)
    requires
        is_millis_stem(s, a),
        0 <= i,
    ensures
        first_date_time_match(s, i) is None,
    decreases s.len() + 1 - i,
{
    if i <= s.len() {
        lemma_no_date_time_in_millis_stem(s, a, i);
        lemma_no_first_date_time(s, a, i + 1);
    }
}

proof fn lemma_first_date_in_millis_stem(s: Seq<char>, a: int, i: int)
    requires
        is_millis_stem(s, a),
        0 <= i <= a,
    ensures
        first_date_match(s, i) == Some(a),
    decreases a - i,
{
    if i < a {
        assert(!is_digit(s[i]));
        assert(!date_match_at(s, i));
        lemma_first_date_in_millis_stem(s, a, i + 1);
    } else {
        assert(is_digit(s[a + 4]) && is_digit(s[a + 6]));
        assert(date_groups(s, a) =~= seq![a, a + 4, a + 6]);
        assert(date_match_at(s, a));
    }
}

/// A stem whose only digits are a run of thirteen, read as Unix milliseconds,
/// gives the moment of those milliseconds, where the run's first eight digits
/// do not also write a day (`YYYYMMDD`), which the date pattern takes first.
pub proof fn lemma_millis_stem(s: Seq<char>, a: int)
    requires
        is_millis_stem(s, a),
        !valid_date(number_at(s, a, 4), number_at(s, a + 4, 2), number_at(s, a + 6, 2)),
    ensures
        stem_timestamp(s) == unix_moment(number_at(s, a, 13) / 1000),
{
    lemma_no_first_date_time(s, a, 0);
    lemma_first_date_in_millis_stem(s, a, 0);
    assert(date_groups(s, a) =~= seq![a, a + 4, a + 6]) by {
        assert(is_digit(s[a + 4]) && is_digit(s[a + 6]));
    }
    assert forall|q: int| #[trigger] digits_at(s, q, 13) implies q == a by {
        if q < a {
            assert(!is_digit(s[q]));
        } else if q > a {
            assert(!is_digit(s[q + 12]));
        }
    }
    assert(is_millis_run(s, a));
    assert(has_millis_run(s));
    let p = choose|p: int| is_millis_run(s, p);
    lemma_millis_run_unique(s, a, p);
}

} // verus!
