//! Text shaping for remote data: resource paths, decimal rendering, date
//! strings, and the display form of a version payload.
//!
//! The only outside calls are the narrow wrappers near the top; all
//! composition around them is verified.

use base64::Engine;
use vstd::prelude::*;

verus! {

/// The characters of the standard padded base64 rendering of `bytes`.
pub uninterp spec fn base64_chars_of(bytes: Seq<u8>) -> Seq<char>;

/// The characters `bytes` decode to under UTF-8, or `None` when `bytes` are
/// not valid UTF-8.
pub uninterp spec fn utf8_chars_of(bytes: Seq<u8>) -> Option<Seq<char>>;

/// The `YYYY-MM-DD` rendering of the civil date `seconds` after the Unix
/// epoch falls on, or `None` when the instant is out of the calendar's range.
pub uninterp spec fn utc_date_chars_of(seconds: i64) -> Option<Seq<char>>;

/// Relies on `base64::engine::Engine::encode` with the standard padded
/// alphabet: the result is a function of the input bytes alone.
#[verifier::external_body]
fn base64_encode(bytes: &Vec<u8>) -> (r: String)
    ensures
        r@ == base64_chars_of(bytes@),
        bytes@.len() == 0 ==> r@.len() == 0,
{
    base64::engine::general_purpose::STANDARD.encode(bytes)
}

/// Relies on `core::str::from_utf8`: it succeeds exactly on valid UTF-8, and
/// the decoded text is a function of the input bytes alone.
#[verifier::external_body]
fn utf8_decode(bytes: &Vec<u8>) -> (r: Option<String>)
    ensures
        r is Some <==> utf8_chars_of(bytes@) is Some,
        r matches Some(s) ==> Some(s@) == utf8_chars_of(bytes@),
{
    match core::str::from_utf8(bytes.as_slice()) {
        Ok(s) => Some(s.to_owned()),
        Err(_) => None,
    }
}

/// Relies on `chrono::DateTime::<Utc>::from_timestamp` and on formatting the
/// result with `%Y-%m-%d`: both are functions of the timestamp alone, and
/// `from_timestamp` returns `None` only out of the calendar's range.
#[verifier::external_body]
fn utc_date_string(seconds: i64) -> (r: Option<String>)
    ensures
        r is Some <==> utc_date_chars_of(seconds) is Some,
        r matches Some(s) ==> Some(s@) == utc_date_chars_of(seconds),
{
    chrono::DateTime::<chrono::Utc>::from_timestamp(seconds, 0)
        .map(|dt| dt.format("%Y-%m-%d").to_string())
}

/// Relies on `String::from<char>`: the result holds exactly the one
/// character.
#[verifier::external_body]
pub(crate) fn char_to_string(c: char) -> (r: String)
    ensures
        r@ == seq![c],
{
    String::from(c)
}

/// Joins two pieces of text.
pub fn concat2(a: &str, b: &str) -> (r: String)
    ensures
        r@ == a@ + b@,
{
    let mut s = a.to_owned();
    s.append(b);
    s
}

/// Joins three pieces of text.
pub fn concat3(a: &str, b: &str, c: &str) -> (r: String)
    ensures
        r@ == a@ + b@ + c@,
{
    let mut s = a.to_owned();
    s.append(b);
    s.append(c);
    s
}

/// The decimal digit character for `d`.
pub open spec fn digit_char(d: nat) -> char {
    if d == 0 {
        '0'
    } else if d == 1 {
        '1'
    } else if d == 2 {
        '2'
    } else if d == 3 {
        '3'
    } else if d == 4 {
        '4'
    } else if d == 5 {
        '5'
    } else if d == 6 {
        '6'
    } else if d == 7 {
        '7'
    } else if d == 8 {
        '8'
    } else {
        '9'
    }
}

/// The decimal rendering of `n`, without sign or leading zeros.
pub open spec fn dec_str(n: nat) -> Seq<char>
    decreases n,
{
    if n < 10 {
        seq![digit_char(n)]
    } else {
        dec_str(n / 10).push(digit_char(n % 10))
    }
}

/// The decimal rendering of `n`, with a leading `-` when negative.
pub open spec fn int_str(n: int) -> Seq<char> {
    if n < 0 {
        seq!['-'] + dec_str((-n) as nat)
    } else {
        dec_str(n as nat)
    }
}

fn digit_to_str(d: u64) -> (r: &'static str)
    requires
        d < 10,
    ensures
        r@ == seq![digit_char(d as nat)],
{
    proof {
        reveal_strlit("0");
        reveal_strlit("1");
        reveal_strlit("2");
        reveal_strlit("3");
        reveal_strlit("4");
        reveal_strlit("5");
        reveal_strlit("6");
        reveal_strlit("7");
        reveal_strlit("8");
        reveal_strlit("9");
    }
    let r = if d == 0 {
        "0"
    } else if d == 1 {
        "1"
    } else if d == 2 {
        "2"
    } else if d == 3 {
        "3"
    } else if d == 4 {
        "4"
    } else if d == 5 {
        "5"
    } else if d == 6 {
        "6"
    } else if d == 7 {
        "7"
    } else if d == 8 {
        "8"
    } else {
        "9"
    };
    proof {
        assert(r@ =~= seq![digit_char(d as nat)]);
    }
    r
}

fn push_decimal(s: &mut String, n: u64)
    ensures
        final(s)@ == old(s)@ + dec_str(n as nat),
    decreases n,
{
    if n >= 10 {
        push_decimal(s, n / 10);
        s.append(digit_to_str(n % 10));
        proof {
            assert(final(s)@ =~= old(s)@ + dec_str(n as nat));
        }
    } else {
        s.append(digit_to_str(n));
    }
}

/// Renders `n` in decimal.
pub fn u64_to_string(n: u64) -> (r: String)
    ensures
        r@ == dec_str(n as nat),
{
    let mut s = String::new();
    push_decimal(&mut s, n);
    proof {
        assert(s@ =~= dec_str(n as nat));
    }
    s
}

/// Renders `n` in decimal.
pub fn usize_to_string(n: usize) -> (r: String)
    ensures
        r@ == dec_str(n as nat),
{
    u64_to_string(n as u64)
}

/// Renders `n` in decimal, with a leading `-` when negative.
pub fn i64_to_string(n: i64) -> (r: String)
    ensures
        r@ == int_str(n as int),
{
    if n >= 0 {
        u64_to_string(n as u64)
    } else {
        let wide: i128 = -(n as i128);
        let mag: u64 = wide as u64;
        let digits = u64_to_string(mag);
        let r = concat2("-", digits.as_str());
        proof {
            reveal_strlit("-");
            assert(r@ =~= int_str(n as int));
        }
        r
    }
}

/// The suffix of `s` after its last `/`, or all of `s` when it has none.
pub open spec fn last_segment(s: Seq<char>) -> Seq<char>
    decreases s.len(),
{
    if s.len() == 0 {
        s
    } else if s[s.len() - 1] == '/' {
        Seq::empty()
    } else {
        last_segment(s.drop_last()).push(s.last())
    }
}

proof fn lemma_last_segment_suffix(s: Seq<char>, j: int)
    requires
        0 <= j <= s.len(),
        forall|k: int| j <= k < s.len() ==> s[k] != '/',
        j > 0 ==> s[j - 1] == '/',
    ensures
        last_segment(s) == s.subrange(j, s.len() as int),
    decreases s.len(),
{
    if s.len() == j {
        if j == 0 {
            assert(last_segment(s) =~= s.subrange(j, s.len() as int));
        } else {
            assert(s[s.len() - 1] == '/');
            assert(last_segment(s) =~= s.subrange(j, s.len() as int));
        }
    } else {
        assert(s[s.len() - 1] != '/');
        let t = s.drop_last();
        assert(forall|k: int| j <= k < t.len() ==> t[k] == s[k]);
        lemma_last_segment_suffix(t, j);
        assert(last_segment(s) =~= s.subrange(j, s.len() as int));
    }
}

/// Returns the short name of a resource: the part after the last `/` of its
/// full path, or the whole path when it has no `/`.
pub fn short_name_of(full: &str) -> (r: String)
    ensures
        r@ == last_segment(full@),
{
    let n = full.unicode_len();
    let mut j: usize = n;
    while j > 0 && full.get_char(j - 1) != '/'
        invariant
            j <= n,
            n == full@.len(),
            forall|k: int| j <= k < n ==> full@[k] != '/',
        decreases j,
    {
        j = j - 1;
    }
    proof {
        lemma_last_segment_suffix(full@, j as int);
    }
    let tail = full.substring_char(j, n);
    tail.to_owned()
}

/// The full resource path of a project.
pub fn parent_path(project: &str) -> (r: String)
    ensures
        r@ == "projects/"@ + project@,
{
    concat2("projects/", project)
}

/// The full resource path of a secret.
pub fn secret_path(project: &str, secret: &str) -> (r: String)
    ensures
        r@ == "projects/"@ + project@ + "/secrets/"@ + secret@,
{
    let base = parent_path(project);
    let r = concat3(base.as_str(), "/secrets/", secret);
    r
}

/// The full resource path of a secret version.
pub fn version_path(project: &str, secret: &str, version: &str) -> (r: String)
    ensures
        r@ == "projects/"@ + project@ + "/secrets/"@ + secret@ + "/versions/"@ + version@,
{
    let base = secret_path(project, secret);
    let r = concat3(base.as_str(), "/versions/", version);
    r
}

/// The date display of a timestamp: its civil date, or `Unknown` when the
/// calendar cannot place it.
pub open spec fn date_display(seconds: i64) -> Seq<char> {
    match utc_date_chars_of(seconds) {
        Some(d) => d,
        None => "Unknown"@,
    }
}

/// Formats a timestamp in seconds since the Unix epoch as a `YYYY-MM-DD`
/// date, falling back to `Unknown` out of range.
pub fn format_timestamp(seconds: i64) -> (r: String)
    ensures
        r@ == date_display(seconds),
{
    match utc_date_string(seconds) {
        Some(s) => s,
        None => "Unknown".to_owned(),
    }
}

/// The display of a destroy delay: whole days when at least a day, else
/// whole hours when at least an hour, else the seconds themselves.
pub open spec fn ttl_chars(seconds: i64) -> Seq<char> {
    if seconds >= 86400 {
        dec_str((seconds as int / 86400) as nat) + "d"@
    } else if seconds >= 3600 {
        dec_str((seconds as int / 3600) as nat) + "h"@
    } else {
        int_str(seconds as int) + "s"@
    }
}

/// Renders a version-destroy delay for display.
pub fn ttl_display(seconds: i64) -> (r: String)
    ensures
        r@ == ttl_chars(seconds),
{
    if seconds >= 86400 {
        let days = seconds / 86400;
        let digits = u64_to_string(days as u64);
        concat2(digits.as_str(), "d")
    } else if seconds >= 3600 {
        let hours = seconds / 3600;
        let digits = u64_to_string(hours as u64);
        concat2(digits.as_str(), "h")
    } else {
        let digits = i64_to_string(seconds);
        concat2(digits.as_str(), "s")
    }
}

/// The display of a version payload: its text when the bytes are UTF-8, else
/// a marked base64 rendering.
pub open spec fn payload_display(bytes: Seq<u8>) -> Seq<char> {
    match utf8_chars_of(bytes) {
        Some(text) => text,
        None => "[base64] "@ + base64_chars_of(bytes),
    }
}

/// Turns a version payload into display text: UTF-8 payloads are shown as
/// they are, binary payloads as base64 behind a marker.
pub fn payload_to_display(bytes: &Vec<u8>) -> (r: String)
    ensures
        r@ == payload_display(bytes@),
{
    match utf8_decode(bytes) {
        Some(text) => text,
        None => {
            let encoded = base64_encode(bytes);
            concat2("[base64] ", encoded.as_str())
        },
    }
}

} // verus!
