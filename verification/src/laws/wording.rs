//! How times, sizes, devices and names are put into words.

use vstd::prelude::*;
use crate::display;
use crate::display::Remaining;
use crate::listing;
use crate::listing::{MemberFilter, SortColumn, SortDirection};
use crate::model;
use crate::model::{Instant, InstanceRole, UserLifecycle, Uuid};
use crate::text;
use crate::views::shell;

verus! {

/// Whether a text says that something was so many units ago, in the singular for one.
pub open spec fn says_ago(s: Seq<char>, n: int, unit: Seq<char>) -> bool {
    s == text::decimal(n as nat) + unit + (if n == 1 {
        Seq::<char>::empty()
    } else {
        "s"@
    }) + " ago"@
}

/// A moment within the last minute was just now; within the last hour, day and week its age is told
/// in full minutes, hours and days; before that its date is told.
pub proof fn law_ages(then: Instant, now: Instant, n: int)
    ensures
        ({
            let age = model::seconds_between(then, now);
            let s = display::relative(then, now);
            &&& age < 60 ==> s == "just now"@
            &&& 60 <= age < 3600 && 60 * n <= age < 60 * (n + 1) ==> says_ago(s, n, " minute"@)
            &&& 3600 <= age < 86_400 && 3600 * n <= age < 3600 * (n + 1) ==> says_ago(
                s,
                n,
                " hour"@,
            )
            &&& 86_400 <= age < 604_800 && 86_400 * n <= age < 86_400 * (n + 1) ==> says_ago(
                s,
                n,
                " day"@,
            )
            &&& age >= 604_800 ==> s == model::date_text(then, "%b %-d, %Y"@)
        }),
{
}

/// The seconds from one moment to another are counted in full, towards zero.
pub proof fn law_seconds_between(a: Instant, b: Instant)
    requires
        0 <= a.nanos < 1_000_000_000,
        0 <= b.nanos < 1_000_000_000,
    ensures
        ({
            let nanos = (b.secs * 1_000_000_000 + b.nanos) - (a.secs * 1_000_000_000 + a.nanos);
            let s = model::seconds_between(a, b);
            &&& nanos >= 0 ==> s * 1_000_000_000 <= nanos < (s + 1) * 1_000_000_000
            &&& nanos <= 0 ==> (s - 1) * 1_000_000_000 < nanos <= s * 1_000_000_000
        }),
        model::seconds_between(a, b) == -model::seconds_between(b, a),
        model::before(a, b) <==> a.secs * 1_000_000_000 + a.nanos < b.secs * 1_000_000_000
            + b.nanos,
{
}

/// What is left of a veto window is told in full hours, then in full minutes, of which the last one
/// stands for whatever is left of it.
pub proof fn law_time_left(end: Instant, now: Instant, n: u64)
    ensures
        ({
            let left = model::seconds_between(now, end);
            let r = display::remaining_of(end, now);
            &&& left <= 0 <==> r == Remaining::Over
            &&& 0 < left < 60 ==> r == Remaining::Minutes(1)
            &&& 60 <= left < 3600 && 60 * n <= left < 60 * (n + 1) ==> r == Remaining::Minutes(n)
            &&& 3600 <= left <= u64::MAX && 3600 * n <= left < 3600 * (n + 1) ==> r
                == Remaining::Hours(n)
        }),
        display::remaining_short(Remaining::Over) == "soon"@,
        display::remaining_short(Remaining::Hours(n)) == text::decimal(n as nat) + "h"@,
        display::remaining_short(Remaining::Minutes(n)) == text::decimal(n as nat) + "m"@,
{
}

/// A size below a kibibyte is told in bytes; above, in the nearest tenth of a kibibyte or of a
/// mebibyte, and of two that are equally near the even one.
pub proof fn law_sizes(n: int, t: int)
    requires
        n >= 0,
    ensures
        ({
            let s = display::bytes_text(n);
            let nearest = |unit: int|
                {
                    let off = if 10 * n >= t * unit {
                        10 * n - t * unit
                    } else {
                        t * unit - 10 * n
                    };
                    2 * off < unit || (2 * off == unit && t % 2 == 0)
                };
            let one_place = text::decimal((t / 10) as nat) + "."@ + text::decimal((t % 10) as nat);
            &&& n < 1024 ==> s == text::decimal(n as nat) + " B"@
            &&& 1024 <= n < 1_048_576 && nearest(1024) ==> s == one_place + " KB"@
            &&& n >= 1_048_576 && nearest(1_048_576) ==> s == one_place + " MB"@
        }),
        display::bytes_text(-n) == (if n == 0 {
            display::bytes_text(0)
        } else {
            text::decimal(0) + " B"@
        }),
{
}

/// A device is told by its browser and its system, as far as its agent names them.
pub proof fn law_devices(ua: Seq<char>)
    ensures
        ({
            let names = |word: Seq<char>| text::contained(ua, word);
            let edge = names("Edg/"@) || names("Edge"@);
            let opera = names("OPR/"@) || names("Opera"@);
            let chrome = names("Chrome/"@) || names("Chromium"@);
            let b = display::browser_of(ua);
            &&& edge ==> b == Some("Edge"@)
            &&& !edge && opera ==> b == Some("Opera"@)
            &&& !edge && !opera && chrome ==> b == Some("Chrome"@)
            &&& !edge && !opera && !chrome && names("Firefox/"@) ==> b == Some("Firefox"@)
            &&& !edge && !opera && !chrome && !names("Firefox/"@) && names("Safari/"@) ==> b == Some(
                "Safari"@,
            )
            &&& !edge && !opera && !chrome && !names("Firefox/"@) && !names("Safari/"@) ==> b is None
        }),
        ({
            let names = |word: Seq<char>| text::contained(ua, word);
            let ios = names("iPhone"@) || names("iPad"@);
            let mac = names("Mac OS X"@) || names("Macintosh"@);
            let o = display::system_of(ua);
            &&& names("Windows"@) ==> o == Some("Windows"@)
            &&& !names("Windows"@) && ios ==> o == Some("iOS"@)
            &&& !names("Windows"@) && !ios && mac ==> o == Some("macOS"@)
            &&& !names("Windows"@) && !ios && !mac && names("Android"@) ==> o == Some("Android"@)
            &&& !names("Windows"@) && !ios && !mac && !names("Android"@) && names("Linux"@) ==> o
                == Some("Linux"@)
            &&& !names("Windows"@) && !ios && !mac && !names("Android"@) && !names("Linux"@) ==> o
                is None
            &&& display::is_mobile(ua) <==> ios || names("Android"@)
        }),
        ({
            let blank = text::trimmed(ua).len() == 0;
            let b = display::browser_of(ua);
            let o = display::system_of(ua);
            let name = display::device_name(ua);
            &&& blank || (b is None && o is None) ==> name == "Unknown device"@
            &&& !blank && b is Some && o is Some ==> name == b->0 + " on "@ + o->0
            &&& !blank && b is Some && o is None ==> name == b->0
            &&& !blank && b is None && o is Some ==> name == o->0
        }),
{
}

/// The initial of a name is its first character, a letter of the English alphabet in upper case; a
/// question mark stands in for no name.
pub proof fn law_initials(name: Seq<char>)
    ensures
        name.len() == 0 ==> display::initial_of(name) == '?',
        name.len() > 0 && !('a' <= name[0] <= 'z') ==> display::initial_of(name) == name[0],
        name.len() > 0 && 'a' <= name[0] <= 'z' ==> display::initial_of(name) as int == name[0]
            as int - 32,
{
}

/// A type of event reads as a sentence: blanks for underscores, the first letter in upper case, the
/// rest as it is.
pub proof fn law_event_types_read(s: Seq<char>, i: int)
    requires
        0 <= i < s.len(),
    ensures
        display::humanized(s).len() == s.len(),
        i > 0 && s[i] != '_' ==> display::humanized(s)[i] == s[i],
        s[i] == '_' ==> display::humanized(s)[i] == ' ',
        i == 0 && 'a' <= s[i] <= 'z' ==> display::humanized(s)[i] as int == s[i] as int - 32,
        i == 0 && s[i] != '_' && !('a' <= s[i] <= 'z') ==> display::humanized(s)[i] == s[i],
{
}

/// A long key is told by its first twelve and its last six characters, a short one in full.
pub proof fn law_keys_are_shortened(s: Seq<char>)
    ensures
        s.len() <= 20 ==> display::shortened(s) == s,
        s.len() > 20 ==> display::shortened(s) == s.subrange(0, 12) + "…"@ + s.subrange(
            s.len() - 6,
            s.len() as int,
        ),
{
    if s.len() > 20 {
        assert(s.take(12) =~= s.subrange(0, 12));
        assert(s.skip(s.len() - 6) =~= s.subrange(s.len() - 6, s.len() as int));
    }
}

/// Bytes are written as two hexadecimal digits each, the high one first.
pub proof fn law_bytes_as_digits(bytes: Seq<u8>, i: int)
    requires
        0 <= i < bytes.len(),
    ensures
        ({
            let s = display::hex_text(bytes);
            let digits = "0123456789abcdef"@;
            &&& s.len() == 2 * bytes.len()
            &&& s[2 * i] == digits[bytes[i] as int / 16]
            &&& s[2 * i + 1] == digits[bytes[i] as int % 16]
        }),
{
    reveal_strlit("0123456789abcdef");
    let s = display::hex_text(bytes);
    assert((2 * i) / 2 == i && (2 * i) % 2 == 0);
    assert((2 * i + 1) / 2 == i && (2 * i + 1) % 2 == 1);
    lemma_digits(bytes[i] as int / 16);
    lemma_digits(bytes[i] as int % 16);
}

proof fn lemma_digits(d: int)
    requires
        0 <= d < 16,
    ensures
        text::hex_digit(d) == "0123456789abcdef"@[d],
{
    reveal_strlit("0123456789abcdef");
}

/// An identifier is written in lower-case hexadecimal digits, in groups of eight, four, four, four
/// and twelve.
pub proof fn law_identifiers(id: Uuid)
    ensures
        model::uuid_text(id).len() == 36,
        model::uuid_text(id)[8] == '-',
        model::uuid_text(id)[13] == '-',
        model::uuid_text(id)[18] == '-',
        model::uuid_text(id)[23] == '-',
        model::uuid_text(id)[35] == text::hex_digit(id.value as int % 16),
        model::uuid_text(id)[34] == text::hex_digit(id.value as int / 16 % 16),
        model::uuid_text(id)[0] == text::hex_digit(
            id.value as int / 0x1000_0000_0000_0000_0000_0000_0000_0000 % 16,
        ),
{
    reveal(vstd::arithmetic::power::pow);
    assert(vstd::arithmetic::power::pow(16, 0) == 1);
    assert(vstd::arithmetic::power::pow(16, 1) == 16) by {
        vstd::arithmetic::power::lemma_pow1(16);
    }
    assert(vstd::arithmetic::power::pow(16, 31) == 0x1000_0000_0000_0000_0000_0000_0000_0000) by {
        lemma_top_digit();
    }
}

proof fn lemma_top_digit()
    ensures
        vstd::arithmetic::power::pow(16, 31) == 0x1000_0000_0000_0000_0000_0000_0000_0000,
{
    vstd::arithmetic::power::lemma_pow1(16);
    vstd::arithmetic::power::lemma_pow_adds(16, 1, 1);
    vstd::arithmetic::power::lemma_pow_adds(16, 2, 2);
    vstd::arithmetic::power::lemma_pow_adds(16, 4, 4);
    vstd::arithmetic::power::lemma_pow_adds(16, 8, 8);
    vstd::arithmetic::power::lemma_pow_adds(16, 1, 2);
    vstd::arithmetic::power::lemma_pow_adds(16, 3, 4);
    vstd::arithmetic::power::lemma_pow_adds(16, 7, 8);
    vstd::arithmetic::power::lemma_pow_adds(16, 15, 16);
    let p2 = vstd::arithmetic::power::pow(16, 2);
    let p4 = vstd::arithmetic::power::pow(16, 4);
    let p8 = vstd::arithmetic::power::pow(16, 8);
    let p16 = vstd::arithmetic::power::pow(16, 16);
    let p1 = vstd::arithmetic::power::pow(16, 1);
    let p3 = vstd::arithmetic::power::pow(16, 3);
    let p7 = vstd::arithmetic::power::pow(16, 7);
    let p15 = vstd::arithmetic::power::pow(16, 15);
    let p31 = vstd::arithmetic::power::pow(16, 31);
    assert(p2 == 256) by (nonlinear_arith)
        requires
            p2 == p1 * p1,
            p1 == 16,
    ;
    assert(p3 == 4096) by (nonlinear_arith)
        requires
            p3 == p1 * p2,
            p1 == 16,
            p2 == 256,
    ;
    assert(p4 == 0x1_0000) by (nonlinear_arith)
        requires
            p4 == p2 * p2,
            p2 == 256,
    ;
    assert(p7 == 0x1000_0000) by (nonlinear_arith)
        requires
            p7 == p3 * p4,
            p3 == 4096,
            p4 == 0x1_0000,
    ;
    assert(p8 == 0x1_0000_0000) by (nonlinear_arith)
        requires
            p8 == p4 * p4,
            p4 == 0x1_0000,
    ;
    assert(p15 == 0x1000_0000_0000_0000) by (nonlinear_arith)
        requires
            p15 == p7 * p8,
            p7 == 0x1000_0000,
            p8 == 0x1_0000_0000,
    ;
    assert(p16 == 0x1_0000_0000_0000_0000) by (nonlinear_arith)
        requires
            p16 == p8 * p8,
            p8 == 0x1_0000_0000,
    ;
    assert(p31 == 0x1000_0000_0000_0000_0000_0000_0000_0000) by (nonlinear_arith)
        requires
            p31 == p15 * p16,
            p15 == 0x1000_0000_0000_0000,
            p16 == 0x1_0000_0000_0000_0000,
    ;
}

/// Each role has its name and its badge.
pub proof fn law_role_words(role: InstanceRole)
    ensures
        role == InstanceRole::Owner ==> shell::role_label_text(role) == "Owner"@
            && shell::role_class_text(role) == "role-badge role-owner"@,
        role == InstanceRole::Admin ==> shell::role_label_text(role) == "Admin"@
            && shell::role_class_text(role) == "role-badge role-admin"@,
        role == InstanceRole::Member ==> shell::role_label_text(role) == "Member"@
            && shell::role_class_text(role) == "role-badge role-member"@,
{
}

/// The colour of an account depends on the first byte of its identifier alone, and goes through
/// eight of them in turn.
pub proof fn law_avatar_colours(a: Uuid, b: Uuid)
    ensures
        ({
            let byte = |id: Uuid| id.value / 0x1_00_00_00_00_00_00_00_00_00_00_00_00_00_00_00;
            let colours = seq![
                "#1e6feb",
                "#e67e22",
                "#8e44ad",
                "#27ae60",
                "#c0392b",
                "#16a085",
                "#d35400",
                "#2980b9",
            ];
            &&& shell::avatar_color_of(a) == colours[byte(a) as int % 8]
            &&& byte(a) % 8 == byte(b) % 8 ==> shell::avatar_color_of(a) == shell::avatar_color_of(
                b,
            )
        }),
{
}

/// Tables have ten, twenty-five, fifty or a hundred rows a page, as asked for, and ten
/// otherwise; the page that is asked for is shown where there is one.
pub proof fn law_pages_as_asked(total: u32, page: Option<u32>, rows: Option<u32>, n: u32)
    ensures
        ({
            let p = listing::pagination_of(total, page, rows);
            &&& p.total_rows == total
            &&& rows == Some(n) && (n == 10 || n == 25 || n == 50 || n == 100) ==> p.rows_per_page
                == n
            &&& rows == Some(n) && !(n == 10 || n == 25 || n == 50 || n == 100)
                ==> p.rows_per_page == 10
            &&& rows is None ==> p.rows_per_page == 10
            &&& page == Some(n) && 1 <= n <= p.total_pages ==> p.current_page == n
            &&& page is None ==> p.current_page == 1
            &&& page == Some(0u32) ==> p.current_page == 1
            &&& page == Some(n) && n > p.total_pages ==> p.current_page == p.total_pages
            &&& total == 0 ==> p.total_pages == 1
            &&& total > 0 ==> (p.total_pages - 1) * p.rows_per_page < total <= p.total_pages
                * p.rows_per_page
        }),
{
    let options = listing::rows_per_page_options();
    assert(options[0] == 10 && options[1] == 25 && options[2] == 50 && options[3] == 100);
    let r = listing::rows_per_page_of(rows) as int;
    listing::law_page_in_table(total, page, rows);
    if total > 0 {
        let t = total as int;
        let q = (t + r - 1) / r;
        vstd::arithmetic::div_mod::lemma_fundamental_div_mod(t + r - 1, r);
        assert((q - 1) * r < t <= q * r) by (nonlinear_arith)
            requires
                r * q + (t + r - 1) % r == t + r - 1,
                0 <= (t + r - 1) % r < r,
        ;
        assert(1 <= q <= t) by (nonlinear_arith)
            requires
                (q - 1) * r < t <= q * r,
                t >= 1,
                r >= 1,
        ;
    }
}

/// The paging leaves no page out but where it says so: two numbers side by side follow each other,
/// and an ellipsis stands between numbers with more than one page between them.
pub proof fn law_paging_has_no_gaps(current: u32, total: u32, i: int)
    requires
        1 <= current <= total,
        0 <= i < listing::page_slots(current, total).len() - 1,
    ensures
        ({
            let s = listing::page_slots(current, total);
            &&& s[i] is Number && s[i + 1] is Number ==> s[i + 1]->Number_0 == s[i]->Number_0 + 1
            &&& s[i] is Ellipsis ==> i > 0 && s[i - 1] is Number && s[i + 1] is Number
                && s[i + 1]->Number_0 > s[i - 1]->Number_0 + 2
        }),
        total <= 7 ==> listing::page_slots(current, total).len() == total,
        total > 7 ==> listing::page_slots(current, total).len() == 7,
{
}

/// The digits of an identifier are those of its number, the highest first, with a dash behind the
/// eighth, the twelfth, the sixteenth and the twentieth.
pub proof fn law_identifier_digits(id: Uuid, k: int)
    requires
        0 <= k < 32,
    ensures
        ({
            let at = k + (if k >= 8 {
                1int
            } else {
                0
            }) + (if k >= 12 {
                1int
            } else {
                0
            }) + (if k >= 16 {
                1int
            } else {
                0
            }) + (if k >= 20 {
                1int
            } else {
                0
            });
            model::uuid_text(id)[at] == "0123456789abcdef"@[id.value as int
                / vstd::arithmetic::power::pow(16, (31 - k) as nat) % 16]
        }),
{
    lemma_digits(id.value as int / vstd::arithmetic::power::pow(16, (31 - k) as nat) % 16);
}

/// Each filter of the directory is called by what it lets through.
pub proof fn law_filter_words(role: InstanceRole, state: UserLifecycle)
    ensures
        listing::filter_label(MemberFilter::All) == "View all"@,
        role == InstanceRole::Owner ==> listing::filter_label(MemberFilter::Role(role))
            == "Owners"@,
        role == InstanceRole::Admin ==> listing::filter_label(MemberFilter::Role(role))
            == "Admins"@,
        role == InstanceRole::Member ==> listing::filter_label(MemberFilter::Role(role))
            == "Members"@,
        state == UserLifecycle::Active ==> listing::filter_label(MemberFilter::Status(state))
            == "Active"@,
        state == UserLifecycle::PendingInvite ==> listing::filter_label(
            MemberFilter::Status(state),
        ) == "Pending invite"@,
        state == UserLifecycle::Deactivated ==> listing::filter_label(MemberFilter::Status(state))
            == "Deactivated"@,
        state == UserLifecycle::Anonymized ==> listing::filter_label(MemberFilter::Status(state))
            == "Anonymized"@,
{
}

/// The order and the filter of the directory stand in its address by these words.
pub proof fn law_address_words(role: InstanceRole, state: UserLifecycle)
    ensures
        listing::sort_column_token(SortColumn::Name) == "name"@,
        listing::sort_column_token(SortColumn::Role) == "role"@,
        listing::sort_column_token(SortColumn::Status) == "status"@,
        listing::sort_column_token(SortColumn::Joined) == "joined"@,
        listing::sort_direction_token(SortDirection::Asc) == "asc"@,
        listing::sort_direction_token(SortDirection::Desc) == "desc"@,
        listing::flipped(SortDirection::Asc) == SortDirection::Desc,
        listing::filter_token(MemberFilter::All) == "all"@,
        role == InstanceRole::Owner ==> listing::filter_token(MemberFilter::Role(role))
            == "role:owner"@,
        role == InstanceRole::Admin ==> listing::filter_token(MemberFilter::Role(role))
            == "role:admin"@,
        role == InstanceRole::Member ==> listing::filter_token(MemberFilter::Role(role))
            == "role:member"@,
        state == UserLifecycle::Active ==> listing::filter_token(MemberFilter::Status(state))
            == "status:active"@,
        state == UserLifecycle::PendingInvite ==> listing::filter_token(
            MemberFilter::Status(state),
        ) == "status:pending"@,
        state == UserLifecycle::Deactivated ==> listing::filter_token(MemberFilter::Status(state))
            == "status:deactivated"@,
        state == UserLifecycle::Anonymized ==> listing::filter_token(MemberFilter::Status(state))
            == "status:anonymized"@,
{
}

/// What is put into an address is its bytes, encoded.
pub proof fn law_address_texts(s: Seq<char>)
    ensures
        display::query_text(s) == display::percent_bytes(vstd::utf8::encode_utf8(s)),
{
}

/// Dates are told by the day, by the minute, by the second and by the millisecond, all in UTC.
pub proof fn law_date_patterns()
    ensures
        model::SHORT_DATE@ == "%b %-d, %Y"@,
        model::SHORT_MINUTE@ == "%b %-d, %Y %H:%M UTC"@,
        model::MINUTE@ == "%Y-%m-%d %H:%M UTC"@,
        model::SECOND@ == "%Y-%m-%d %H:%M:%S UTC"@,
        model::MILLISECOND@ == "%Y-%m-%d %H:%M:%S%.3f UTC"@,
{
}

} // verus!
