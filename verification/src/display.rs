//! How values are written for people: dates, sizes, devices, keys and query strings.

use vstd::prelude::*;
use vstd::string::*;
use vstd::utf8::*;
use crate::model;
use crate::model::Timestamp;
use crate::text;

verus! {

// ---- Dates -----------------------------------------------------------------------------------

/// `Mar 4, 2025`
pub fn short_date(ts: &Timestamp) -> (r: String)
    ensures
        r@ == model::date_text(ts@, model::SHORT_DATE@),
{
    ts.format(model::SHORT_DATE)
}

pub open spec fn plural(n: int) -> Seq<char> {
    if n == 1 {
        Seq::empty()
    } else {
        "s"@
    }
}

/// `5 minutes ago`: a count, its unit in the right number, and `ago`.
pub open spec fn ago(n: int, unit: Seq<char>) -> Seq<char> {
    text::decimal(n as nat) + unit + plural(n) + " ago"@
}

/// An instant as seen from `now`: in minutes, hours or days up to a week, then as a date. An
/// instant ahead of `now` counts as now.
pub open spec fn relative(then: model::Instant, now: model::Instant) -> Seq<char> {
    let secs = model::seconds_between(then, now);
    if secs < 60 {
        "just now"@
    } else if secs < 3600 {
        ago(secs / 60, " minute"@)
    } else if secs < 86_400 {
        ago(secs / 3600, " hour"@)
    } else if secs < 7 * 86_400 {
        ago(secs / 86_400, " day"@)
    } else {
        model::date_text(then, model::SHORT_DATE@)
    }
}

fn ago_string(n: u64, unit: &str) -> (r: String)
    ensures
        r@ == ago(n as int, unit@),
{
    let count = text::decimal_string(n).concat(unit);
    if n == 1 {
        assert(count@ + Seq::<char>::empty() =~= count@);
        count.concat(" ago")
    } else {
        count.concat("s").concat(" ago")
    }
}

pub fn relative_time(then: &Timestamp, now: &Timestamp) -> (r: String)
    ensures
        r@ == relative(then@, now@),
{
    let secs: i64 = now.seconds_since(then);
    if secs < 60 {
        "just now".to_owned()
    } else if secs < 3600 {
        ago_string((secs / 60) as u64, " minute")
    } else if secs < 86_400 {
        ago_string((secs / 3600) as u64, " hour")
    } else if secs < 7 * 86_400 {
        ago_string((secs / 86_400) as u64, " day")
    } else {
        short_date(then)
    }
}

/// What is left of a waiting time: whole hours, or minutes (at least one) below an hour, or
/// nothing once it is over.
#[derive(Clone, Copy, Debug, PartialEq, Eq, Structural)]
pub enum Remaining {
    Over,
    Hours(u64),
    Minutes(u64),
}

pub open spec fn remaining_of(effective_at: model::Instant, now: model::Instant) -> Remaining {
    let secs = model::seconds_between(now, effective_at);
    if secs <= 0 {
        Remaining::Over
    } else if secs >= 3600 {
        Remaining::Hours((secs / 3600) as u64)
    } else if secs < 60 {
        Remaining::Minutes(1)
    } else {
        Remaining::Minutes((secs / 60) as u64)
    }
}

pub fn remaining(effective_at: &Timestamp, now: &Timestamp) -> (r: Remaining)
    ensures
        r == remaining_of(effective_at@, now@),
{
    let secs: i64 = effective_at.seconds_since(now);
    if secs <= 0 {
        Remaining::Over
    } else if secs >= 3600 {
        Remaining::Hours((secs / 3600) as u64)
    } else if secs < 60 {
        Remaining::Minutes(1)
    } else {
        Remaining::Minutes((secs / 60) as u64)
    }
}

/// `47h`, `8m` or `soon`.
pub open spec fn remaining_short(r: Remaining) -> Seq<char> {
    match r {
        Remaining::Over => "soon"@,
        Remaining::Hours(h) => text::decimal(h as nat) + "h"@,
        Remaining::Minutes(m) => text::decimal(m as nat) + "m"@,
    }
}

pub fn time_remaining_short(effective_at: &Timestamp, now: &Timestamp) -> (r: String)
    ensures
        r@ == remaining_short(remaining_of(effective_at@, now@)),
{
    match remaining(effective_at, now) {
        Remaining::Over => "soon".to_owned(),
        Remaining::Hours(h) => text::decimal_string(h).concat("h"),
        Remaining::Minutes(m) => text::decimal_string(m).concat("m"),
    }
}

// ---- Sizes -----------------------------------------------------------------------------------

/// `n / unit` in tenths, rounded to the nearest, ties to the even one.
pub open spec fn tenths(n: int, unit: int) -> int {
    let q = n * 10 / unit;
    let r = n * 10 % unit;
    if 2 * r > unit || (2 * r == unit && q % 2 == 1) {
        q + 1
    } else {
        q
    }
}

/// A number of tenths with one decimal.
pub open spec fn one_decimal(t: int) -> Seq<char> {
    text::decimal((t / 10) as nat) + "."@ + text::decimal((t % 10) as nat)
}

/// A length in bytes for people: whole bytes below a KiB, then KiB and MiB with one decimal. A
/// negative length counts as none.
pub open spec fn bytes_text(n: int) -> Seq<char> {
    let n = if n < 0 {
        0
    } else {
        n
    };
    if n < 1024 {
        text::decimal(n as nat) + " B"@
    } else if n < 1024 * 1024 {
        one_decimal(tenths(n, 1024)) + " KB"@
    } else {
        one_decimal(tenths(n, 0x10_0000)) + " MB"@
    }
}

fn tenths_of(n: u64, unit: u64) -> (t: u64)
    requires
        n <= 0x7fff_ffff,
        1 <= unit <= 0x10_0000,
    ensures
        t == tenths(n as int, unit as int),
{
    let q: u64 = n * 10 / unit;
    let r: u64 = n * 10 % unit;
    proof {
        vstd::arithmetic::div_mod::lemma_div_is_ordered_by_denominator(n * 10, 1, unit as int);
        assert((n * 10) / 1 == n * 10);
    }
    if 2 * r > unit || (2 * r == unit && q % 2 == 1) {
        q + 1
    } else {
        q
    }
}

fn one_decimal_string(t: u64) -> (r: String)
    ensures
        r@ == one_decimal(t as int),
{
    let frac = text::decimal_string(t % 10);
    text::decimal_string(t / 10).concat(".").concat(frac.as_str())
}

pub fn format_bytes(n: i32) -> (r: String)
    ensures
        r@ == bytes_text(n as int),
{
    let m: u64 = if n < 0 {
        0
    } else {
        n as u64
    };
    if m < 1024 {
        text::decimal_string(m).concat(" B")
    } else if m < 1024 * 1024 {
        one_decimal_string(tenths_of(m, 1024)).concat(" KB")
    } else {
        one_decimal_string(tenths_of(m, 1024 * 1024)).concat(" MB")
    }
}

// ---- Devices ---------------------------------------------------------------------------------

pub open spec fn browser_of(ua: Seq<char>) -> Option<Seq<char>> {
    if text::contained(ua, "Edg/"@) || text::contained(ua, "Edge"@) {
        Some("Edge"@)
    } else if text::contained(ua, "OPR/"@) || text::contained(ua, "Opera"@) {
        Some("Opera"@)
    } else if text::contained(ua, "Chrome/"@) || text::contained(ua, "Chromium"@) {
        Some("Chrome"@)
    } else if text::contained(ua, "Firefox/"@) {
        Some("Firefox"@)
    } else if text::contained(ua, "Safari/"@) {
        Some("Safari"@)
    } else {
        None
    }
}

pub open spec fn system_of(ua: Seq<char>) -> Option<Seq<char>> {
    if text::contained(ua, "Windows"@) {
        Some("Windows"@)
    } else if text::contained(ua, "iPhone"@) || text::contained(ua, "iPad"@) {
        Some("iOS"@)
    } else if text::contained(ua, "Mac OS X"@) || text::contained(ua, "Macintosh"@) {
        Some("macOS"@)
    } else if text::contained(ua, "Android"@) {
        Some("Android"@)
    } else if text::contained(ua, "Linux"@) {
        Some("Linux"@)
    } else {
        None
    }
}

/// A device name from a `User-Agent`: browser and system as far as they are recognised.
pub open spec fn device_name(ua: Seq<char>) -> Seq<char> {
    if text::trimmed(ua).len() == 0 {
        "Unknown device"@
    } else {
        match (browser_of(ua), system_of(ua)) {
            (Some(b), Some(o)) => b + " on "@ + o,
            (Some(b), None) => b,
            (None, Some(o)) => o,
            (None, None) => "Unknown device"@,
        }
    }
}

fn browser(ua: &str) -> (r: Option<&'static str>)
    ensures
        r is Some == browser_of(ua@) is Some,
        r matches Some(b) ==> browser_of(ua@) == Some(b@),
{
    if text::contains(ua, "Edg/") || text::contains(ua, "Edge") {
        Some("Edge")
    } else if text::contains(ua, "OPR/") || text::contains(ua, "Opera") {
        Some("Opera")
    } else if text::contains(ua, "Chrome/") || text::contains(ua, "Chromium") {
        Some("Chrome")
    } else if text::contains(ua, "Firefox/") {
        Some("Firefox")
    } else if text::contains(ua, "Safari/") {
        Some("Safari")
    } else {
        None
    }
}

fn system(ua: &str) -> (r: Option<&'static str>)
    ensures
        r is Some == system_of(ua@) is Some,
        r matches Some(o) ==> system_of(ua@) == Some(o@),
{
    if text::contains(ua, "Windows") {
        Some("Windows")
    } else if text::contains(ua, "iPhone") || text::contains(ua, "iPad") {
        Some("iOS")
    } else if text::contains(ua, "Mac OS X") || text::contains(ua, "Macintosh") {
        Some("macOS")
    } else if text::contains(ua, "Android") {
        Some("Android")
    } else if text::contains(ua, "Linux") {
        Some("Linux")
    } else {
        None
    }
}

pub fn device_label(user_agent: &str) -> (r: String)
    ensures
        r@ == device_name(user_agent@),
{
    if text::trim(user_agent).as_str().is_empty() {
        return "Unknown device".to_owned();
    }
    match (browser(user_agent), system(user_agent)) {
        (Some(b), Some(o)) => text::join(b, " on ").concat(o),
        (Some(b), None) => b.to_owned(),
        (None, Some(o)) => o.to_owned(),
        (None, None) => "Unknown device".to_owned(),
    }
}

pub open spec fn is_mobile(ua: Seq<char>) -> bool {
    text::contained(ua, "Android"@) || text::contained(ua, "iPhone"@) || text::contained(
        ua,
        "iPad"@,
    )
}

pub fn device_is_mobile(user_agent: &str) -> (r: bool)
    ensures
        r == is_mobile(user_agent@),
{
    text::contains(user_agent, "Android") || text::contains(user_agent, "iPhone")
        || text::contains(user_agent, "iPad")
}

// ---- Names -----------------------------------------------------------------------------------

/// The letter of an avatar: the first character, in ASCII upper case.
pub open spec fn initial_of(name: Seq<char>) -> char {
    if name.len() == 0 {
        '?'
    } else {
        text::ascii_upper(name.first())
    }
}

pub fn display_initial(name: &str) -> (r: char)
    ensures
        r == initial_of(name@),
{
    if name.is_empty() {
        '?'
    } else {
        text::ascii_upper_char(name.get_char(0))
    }
}

/// An event type as a sentence: underscores become spaces and the first letter a capital.
pub open spec fn humanized(event_type: Seq<char>) -> Seq<char> {
    text::capitalized(text::replaced(event_type, '_', ' '))
}

pub fn humanize_event_type(event_type: &str) -> (r: String)
    ensures
        r@ == humanized(event_type@),
{
    let spaced = text::replace_char(event_type, '_', ' ');
    text::capitalize(spaced.as_str())
}

// ---- Hexadecimal -----------------------------------------------------------------------------

/// Bytes in lower-case hexadecimal.
pub open spec fn hex_text(bytes: Seq<u8>) -> Seq<char> {
    Seq::new(
        2 * bytes.len(),
        |i: int|
            if i % 2 == 0 {
                text::hex_digit((bytes[i / 2] / 16) as int)
            } else {
                text::hex_digit((bytes[i / 2] % 16) as int)
            },
    )
}

pub fn hex_encode(bytes: &Vec<u8>) -> (r: String)
    ensures
        r@ == hex_text(bytes@),
{
    let mut out = String::new();
    let mut i: usize = 0;
    while i < bytes.len()
        invariant
            i <= bytes@.len(),
            out@ == hex_text(bytes@.take(i as int)),
        decreases bytes@.len() - i,
    {
        let b: u8 = bytes[i];
        out.push(text::hex_digit_char(b / 16));
        out.push(text::hex_digit_char(b % 16));
        i += 1;
        assert(out@ =~= hex_text(bytes@.take(i as int)));
    }
    assert(bytes@.take(i as int) =~= bytes@);
    out
}

/// The characters of a text that are no white space.
pub open spec fn without_spaces(s: Seq<char>) -> Seq<char> {
    s.filter(|c: char| !text::white_space(c))
}

/// Whether a text is made of hexadecimal digits alone.
pub open spec fn all_hex(s: Seq<char>) -> bool {
    forall|i: int| 0 <= i < s.len() ==> text::hex_value(#[trigger] s[i]) is Some
}

/// The 32 bytes that 64 hexadecimal digits denote, white space aside.
pub open spec fn key_of(input: Seq<char>) -> Option<Seq<u8>> {
    let s = without_spaces(input);
    if s.len() == 64 && all_hex(s) {
        Some(
            Seq::new(
                32,
                |i: int|
                    (text::hex_value(s[2 * i])->0 * 16 + text::hex_value(s[2 * i + 1])->0) as u8,
            ),
        )
    } else {
        None
    }
}

fn strip_spaces(input: &str) -> (v: Vec<char>)
    ensures
        v@ == without_spaces(input@),
{
    let mut v: Vec<char> = Vec::new();
    let ghost keep = |c: char| !text::white_space(c);
    proof {
        reveal(Seq::filter);
    }
    for c in it: input.chars()
        invariant
            it.seq() == input@,
            keep == (|c: char| !text::white_space(c)),
            v@ == input@.take(it.index()).filter(keep),
    {
        proof {
            reveal(Seq::filter);
            assert(input@.take(it.index() + 1).drop_last() =~= input@.take(it.index()));
        }
        if !text::is_white_space(c) {
            v.push(c);
        }
    }
    assert(input@.take(input@.len() as int) =~= input@);
    v
}

pub fn parse_ed25519_hex(input: &str) -> (r: Option<Vec<u8>>)
    ensures
        r is Some == key_of(input@) is Some,
        r matches Some(k) ==> key_of(input@) == Some(k@),
{
    let s = strip_spaces(input);
    if s.len() != 64 {
        return None;
    }
    let mut out: Vec<u8> = Vec::new();
    let mut i: usize = 0;
    while i < 64
        invariant
            i <= 64,
            i % 2 == 0,
            s@.len() == 64,
            s@ == without_spaces(input@),
            forall|k: int| 0 <= k < i ==> text::hex_value(#[trigger] s@[k]) is Some,
            out@ == Seq::new(
                (i / 2) as nat,
                |j: int|
                    (text::hex_value(s@[2 * j])->0 * 16 + text::hex_value(s@[2 * j + 1])->0) as u8,
            ),
        decreases 64 - i,
    {
        match (text::hex_value_of(s[i]), text::hex_value_of(s[i + 1])) {
            (Some(hi), Some(lo)) => {
                out.push(hi * 16 + lo);
            },
            _ => {
                assert(!all_hex(s@));
                return None;
            },
        }
        i += 2;
        assert(out@ =~= Seq::new(
            (i / 2) as nat,
            |j: int|
                (text::hex_value(s@[2 * j])->0 * 16 + text::hex_value(s@[2 * j + 1])->0) as u8,
        ));
    }
    Some(out)
}

proof fn lemma_filter_all<A>(s: Seq<A>, keep: spec_fn(A) -> bool)
    requires
        forall|i: int| 0 <= i < s.len() ==> keep(#[trigger] s[i]),
    ensures
        s.filter(keep) == s,
    decreases s.len(),
{
    reveal(Seq::filter);
    if s.len() > 0 {
        assert forall|i: int| 0 <= i < s.drop_last().len() implies keep(
            #[trigger] s.drop_last()[i],
        ) by {
            assert(s.drop_last()[i] == s[i]);
        }
        lemma_filter_all(s.drop_last(), keep);
        assert(s.drop_last().push(s.last()) =~= s);
    }
}

/// A 32-byte key reads back from its hexadecimal form.
pub proof fn law_key_hex_round_trip(key: Seq<u8>)
    requires
        key.len() == 32,
    ensures
        key_of(hex_text(key)) == Some(key),
{
    let s = hex_text(key);
    assert forall|i: int| 0 <= i < s.len() implies !text::white_space(#[trigger] s[i])
        && text::hex_value(s[i]) is Some by {
        assert(0 <= key[i / 2] / 16 < 16);
    }
    lemma_filter_all(s, |c: char| !text::white_space(c));
    let back = Seq::new(
        32,
        |i: int| (text::hex_value(s[2 * i])->0 * 16 + text::hex_value(s[2 * i + 1])->0) as u8,
    );
    assert forall|i: int| 0 <= i < 32 implies back[i] == key[i] by {
        assert((2 * i) / 2 == i && (2 * i + 1) / 2 == i);
        assert(text::hex_value(s[2 * i]) == Some((key[i] / 16) as u8));
        assert(text::hex_value(s[2 * i + 1]) == Some((key[i] % 16) as u8));
    }
    assert(back =~= key);
}

/// A long key as its first twelve and last six characters.
pub open spec fn shortened(hex: Seq<char>) -> Seq<char> {
    if hex.len() > 20 {
        hex.take(12) + "…"@ + hex.skip(hex.len() - 6)
    } else {
        hex
    }
}

pub fn key_short(hex: &str) -> (r: String)
    requires
        hex.is_ascii(),
    ensures
        r@ == shortened(hex@),
{
    let n: usize = hex.unicode_len();
    if n > 20 {
        let head = hex.substring_ascii(0, 12);
        let tail = hex.substring_ascii(n - 6, n);
        assert(head@ =~= hex@.take(12));
        assert(tail@ =~= hex@.skip(hex@.len() - 6));
        text::join(head, "…").concat(tail)
    } else {
        hex.to_owned()
    }
}

/// Hexadecimal text is ASCII.
pub proof fn lemma_hex_ascii(bytes: Seq<u8>)
    ensures
        is_ascii_chars(hex_text(bytes)),
{
    assert forall|i: int| 0 <= i < hex_text(bytes).len() implies '\0' <= #[trigger] hex_text(
        bytes,
    )[i] <= '\u{7f}' by {
        assert(0 <= bytes[i / 2] / 16 < 16);
    }
}

// ---- Query strings ---------------------------------------------------------------------------

/// The bytes that stand for themselves in a query string.
pub open spec fn unreserved(b: u8) -> bool {
    ||| 65 <= b <= 90
    ||| 97 <= b <= 122
    ||| 48 <= b <= 57
    ||| b == 45
    ||| b == 95
    ||| b == 46
    ||| b == 126
}

/// A byte in a query string: itself, or a percent sign and two upper-case hexadecimal digits.
pub open spec fn percent_byte(b: u8) -> Seq<char> {
    if unreserved(b) {
        seq![b as char]
    } else {
        seq!['%', text::hex_digit_upper((b / 16) as int), text::hex_digit_upper((b % 16) as int)]
    }
}

pub open spec fn percent_bytes(bytes: Seq<u8>) -> Seq<char>
    decreases bytes.len(),
{
    if bytes.len() == 0 {
        Seq::empty()
    } else {
        percent_bytes(bytes.drop_last()) + percent_byte(bytes.last())
    }
}

/// A text percent-encoded for a query string, byte by byte of its UTF-8 form.
pub open spec fn query_text(s: Seq<char>) -> Seq<char> {
    percent_bytes(encode_utf8(s))
}

pub fn query_encode(value: &str) -> (r: String)
    ensures
        r@ == query_text(value@),
{
    let bytes = value.as_bytes();
    let mut out = String::new();
    let mut i: usize = 0;
    while i < bytes.len()
        invariant
            i <= bytes@.len(),
            out@ == percent_bytes(bytes@.take(i as int)),
        decreases bytes@.len() - i,
    {
        let b: u8 = bytes[i];
        let ghost before = out@;
        if (65 <= b && b <= 90) || (97 <= b && b <= 122) || (48 <= b && b <= 57) || b == 45
            || b == 95 || b == 46 || b == 126 {
            out.push(b as char);
        } else {
            out.push('%');
            out.push(text::hex_digit_upper_char(b / 16));
            out.push(text::hex_digit_upper_char(b % 16));
        }
        assert(out@ =~= before + percent_byte(b));
        assert(bytes@.take(i + 1).drop_last() =~= bytes@.take(i as int));
        i += 1;
    }
    assert(bytes@.take(i as int) =~= bytes@);
    out
}

/// A character that an encoded query value may hold.
pub open spec fn query_char(c: char) -> bool {
    c == '%' || (c < '\u{80}' && unreserved(c as u8))
}

/// An encoded query value holds nothing but unreserved characters and percent signs, so it ends
/// neither the value nor the query.
pub proof fn law_query_text_inert(s: Seq<char>)
    ensures
        forall|i: int| 0 <= i < query_text(s).len() ==> query_char(#[trigger] query_text(s)[i]),
{
    lemma_percent_inert(encode_utf8(s));
}

proof fn lemma_percent_inert(b: Seq<u8>)
    ensures
        forall|i: int| 0 <= i < percent_bytes(b).len() ==> query_char(#[trigger] percent_bytes(b)[i]),
    decreases b.len(),
{
    if b.len() > 0 {
        let front = percent_bytes(b.drop_last());
        let back = percent_byte(b.last());
        lemma_percent_inert(b.drop_last());
        assert(0 <= b.last() / 16 < 16);
        assert forall|i: int| 0 <= i < percent_bytes(b).len() implies query_char(
            #[trigger] percent_bytes(b)[i],
        ) by {
            if i < front.len() {
                assert(percent_bytes(b)[i] == front[i]);
            } else {
                assert(percent_bytes(b)[i] == back[i - front.len()]);
            }
        }
    }
}

} // verus!
