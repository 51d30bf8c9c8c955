//! The cookies the UI sets and reads.

use vstd::prelude::*;
use vstd::string::*;
use crate::text;

verus! {

/// Carries the session token.
pub const SESSION_COOKIE_NAME: &'static str = "hearth_session";

/// Carries the reset token between the two steps of account recovery.
pub const RECOVERY_COOKIE_NAME: &'static str = "hearth_recovery";

/// Seconds a verified recovery grant lasts.
pub const RESET_TTL_SECS: i64 = 600;

/// Carries the token of a user who passed the password step and still owes a second factor.
pub const MFA_COOKIE_NAME: &'static str = "hearth_mfa";

/// Seconds a password-verified grant lasts.
pub const MFA_PENDING_TTL_SECS: i64 = 600;

/// Carries the grant of a user who confirmed their identity a moment ago.
pub const SUDO_COOKIE_NAME: &'static str = "hearth_sudo";

/// Seconds a confirmation of identity lasts.
pub const SUDO_TTL_SECS: i64 = 300;

/// What a cookie ends with: `; Secure` where the instance is served over HTTPS.
pub open spec fn secure_suffix(secure: bool) -> Seq<char> {
    if secure {
        "; Secure"@
    } else {
        Seq::empty()
    }
}

/// A `Set-Cookie` value that makes the browser drop the cookie.
pub open spec fn cleared_cookie(name: Seq<char>, secure: bool) -> Seq<char> {
    name + "=; Path=/; Max-Age=0; HttpOnly; SameSite=Lax"@ + secure_suffix(secure)
}

/// A `Set-Cookie` value for a cookie that lasts as long as the browser session.
pub open spec fn session_cookie(name: Seq<char>, value: Seq<char>, secure: bool) -> Seq<char> {
    name + "="@ + value + "; Path=/; HttpOnly; SameSite=Lax"@ + secure_suffix(secure)
}

/// A `Set-Cookie` value for a cookie that lasts `ttl` seconds.
pub open spec fn timed_cookie(name: Seq<char>, value: Seq<char>, ttl: nat, secure: bool) -> Seq<char> {
    name + "="@ + value + "; Path=/; Max-Age="@ + text::decimal(ttl)
        + "; HttpOnly; SameSite=Lax"@ + secure_suffix(secure)
}

fn add_suffix(s: String, secure: bool) -> (r: String)
    ensures
        r@ == s@ + secure_suffix(secure),
{
    if secure {
        s.concat("; Secure")
    } else {
        assert(s@ + Seq::<char>::empty() =~= s@);
        s
    }
}

fn clearing_value(name: &str, secure: bool) -> (r: String)
    ensures
        r@ == cleared_cookie(name@, secure),
{
    add_suffix(text::join(name, "=; Path=/; Max-Age=0; HttpOnly; SameSite=Lax"), secure)
}

fn timed_value(name: &str, value: &str, ttl: u64, secure: bool) -> (r: String)
    ensures
        r@ == timed_cookie(name@, value@, ttl as nat, secure),
{
    let seconds = text::decimal_string(ttl);
    let s = text::join(name, "=").concat(value).concat("; Path=/; Max-Age=").concat(
        seconds.as_str(),
    ).concat("; HttpOnly; SameSite=Lax");
    add_suffix(s, secure)
}

/// `Set-Cookie` value of the session cookie.
pub fn cookie_value(name: &str, value: &str, clearing: bool, secure: bool) -> (r: String)
    ensures
        r@ == (if clearing {
            cleared_cookie(name@, secure)
        } else {
            session_cookie(name@, value@, secure)
        }),
{
    if clearing {
        clearing_value(name, secure)
    } else {
        add_suffix(
            text::join(name, "=").concat(value).concat("; Path=/; HttpOnly; SameSite=Lax"),
            secure,
        )
    }
}

/// `Set-Cookie` value of the recovery cookie.
pub fn recovery_cookie_value(token: &str, clearing: bool, secure: bool) -> (r: String)
    ensures
        r@ == (if clearing {
            cleared_cookie(RECOVERY_COOKIE_NAME@, secure)
        } else {
            timed_cookie(RECOVERY_COOKIE_NAME@, token@, RESET_TTL_SECS as nat, secure)
        }),
{
    if clearing {
        clearing_value(RECOVERY_COOKIE_NAME, secure)
    } else {
        timed_value(RECOVERY_COOKIE_NAME, token, RESET_TTL_SECS as u64, secure)
    }
}

/// `Set-Cookie` value of the cookie of a sign-in that waits for its second factor.
pub fn mfa_cookie_value(token: &str, clearing: bool, secure: bool) -> (r: String)
    ensures
        r@ == (if clearing {
            cleared_cookie(MFA_COOKIE_NAME@, secure)
        } else {
            timed_cookie(MFA_COOKIE_NAME@, token@, MFA_PENDING_TTL_SECS as nat, secure)
        }),
{
    if clearing {
        clearing_value(MFA_COOKIE_NAME, secure)
    } else {
        timed_value(MFA_COOKIE_NAME, token, MFA_PENDING_TTL_SECS as u64, secure)
    }
}

/// `Set-Cookie` value of the cookie of a confirmed identity.
pub fn sudo_cookie_value(token: &str, clearing: bool, secure: bool) -> (r: String)
    ensures
        r@ == (if clearing {
            cleared_cookie(SUDO_COOKIE_NAME@, secure)
        } else {
            timed_cookie(SUDO_COOKIE_NAME@, token@, SUDO_TTL_SECS as nat, secure)
        }),
{
    if clearing {
        clearing_value(SUDO_COOKIE_NAME, secure)
    } else {
        timed_value(SUDO_COOKIE_NAME, token, SUDO_TTL_SECS as u64, secure)
    }
}

/// Whether cookies are marked `Secure`: where the public base URL is an HTTPS one.
pub fn cookie_secure(public_base_url: &str) -> (r: bool)
    ensures
        r == text::has_prefix(public_base_url@, "https://"@),
{
    text::starts_with(public_base_url, "https://")
}

// ---- Reading ---------------------------------------------------------------------------------

/// The first cookie of that name in a `Cookie` header: pairs are separated by `;`, the white
/// space around a pair does not count, and a pair without `=` is skipped.
pub open spec fn cookie_in(raw: Seq<char>, name: Seq<char>) -> Option<Seq<char>>
    decreases raw.len(),
{
    proof {
        text::lemma_find_char(raw, ';');
    }
    let i = text::find_char(raw, ';');
    match text::split_at_char(text::trimmed(raw.take(i)), '=') {
        Some(pair) => if pair.0 == name {
            Some(pair.1)
        } else if i < raw.len() {
            cookie_in(raw.skip(i + 1), name)
        } else {
            None
        },
        None => if i < raw.len() {
            cookie_in(raw.skip(i + 1), name)
        } else {
            None
        },
    }
}

/// The first cookie of that name that a request carries.
pub open spec fn cookie_named(header: Option<Seq<char>>, name: Seq<char>) -> Option<Seq<char>> {
    match header {
        Some(raw) => cookie_in(raw, name),
        None => None,
    }
}

/// The value of the first cookie of that name in a `Cookie` header.
pub fn read_cookie(header: Option<&str>, name: &str) -> (r: Option<String>)
    ensures
        match r {
            Some(v) => cookie_named(text::opt(header), name@) == Some(v@),
            None => cookie_named(text::opt(header), name@) is None,
        },
{
    match header {
        Some(raw) => {
            let v = text::chars_of(raw);
            let n: usize = v.len();
            let mut from: usize = 0;
            assert(v@.skip(0) =~= raw@);
            loop
                invariant
                    header == Some(raw),
                    from <= n == v@.len(),
                    cookie_in(raw@, name@) == cookie_in(v@.skip(from as int), name@),
                decreases n - from,
            {
                let ghost rest = v@.skip(from as int);
                let mut i: usize = from;
                while i < n && v[i] != ';'
                    invariant
                        from <= i <= n == v@.len(),
                        rest == v@.skip(from as int),
                        forall|k: int| 0 <= k < i - from ==> rest[k] != ';',
                    decreases n - i,
                {
                    i += 1;
                }
                proof {
                    text::lemma_find_char_at(rest, ';', i - from);
                    assert(rest.take(i - from) =~= v@.subrange(from as int, i as int));
                }
                let piece = text::string_of(&v, from, i);
                let pair = text::trim(piece.as_str());
                match text::split_once(pair.as_str(), '=') {
                    Some((n0, value)) => {
                        if text::same(n0.as_str(), name) {
                            return Some(value);
                        }
                    },
                    None => {},
                }
                if i >= n {
                    return None;
                }
                assert(rest.skip(i - from + 1) =~= v@.skip(i + 1));
                from = i + 1;
            }
        },
        None => None,
    }
}

/// Whether a text can stand in a cookie as it is: no separator, no white space at its ends.
pub open spec fn cookie_safe(s: Seq<char>) -> bool {
    &&& !s.contains(';')
    &&& s.len() > 0 ==> !text::white_space(s.first()) && !text::white_space(s.last())
}

proof fn lemma_first_pair(name: Seq<char>, value: Seq<char>, tail: Seq<char>)
    requires
        cookie_safe(name),
        cookie_safe(value),
        name.len() > 0,
        !name.contains('='),
        tail.len() == 0 || tail.first() == ';',
    ensures
        ({
            let pair = name + seq!['='] + value;
            let raw = pair + tail;
            &&& text::find_char(raw, ';') == pair.len()
            &&& raw.take(pair.len() as int) == pair
            &&& text::split_at_char(text::trimmed(pair), '=') == Some((name, value))
        }),
{
    let pair = name + seq!['='] + value;
    let raw = pair + tail;
    assert forall|k: int| 0 <= k < pair.len() implies raw[k] != ';' by {
        if k < name.len() {
            assert(name.contains(name[k]));
        } else if k > name.len() {
            assert(value.contains(value[k - name.len() - 1]));
        }
    }
    text::lemma_find_char_at(raw, ';', pair.len() as int);
    assert(raw.take(pair.len() as int) =~= pair);
    assert(pair.first() == name.first());
    assert(pair.last() == (if value.len() > 0 {
        value.last()
    } else {
        '='
    }));
    assert(text::trimmed(pair) == pair);
    assert forall|k: int| 0 <= k < name.len() implies pair[k] != '=' by {
        assert(name.contains(name[k]));
    }
    text::lemma_find_char_at(pair, '=', name.len() as int);
    assert(pair.subrange(0, name.len() as int) =~= name);
    assert(pair.subrange((name.len() + 1) as int, pair.len() as int) =~= value);
}

/// A cookie that the browser sends back is read back.
pub proof fn law_cookie_read_back(name: Seq<char>, value: Seq<char>, tail: Seq<char>)
    requires
        cookie_safe(name),
        cookie_safe(value),
        name.len() > 0,
        !name.contains('='),
        tail.len() == 0 || tail.first() == ';',
    ensures
        cookie_in(name + seq!['='] + value + tail, name) == Some(value),
{
    lemma_first_pair(name, value, tail);
}

/// A cookie of another name in front of one does not hide it.
pub proof fn law_cookie_skips_others(other: Seq<char>, value: Seq<char>, rest: Seq<char>, name: Seq<char>)
    requires
        cookie_safe(other),
        cookie_safe(value),
        other.len() > 0,
        !other.contains('='),
        other != name,
    ensures
        cookie_in(other + seq!['='] + value + (seq![';'] + rest), name) == cookie_in(rest, name),
{
    let tail = seq![';'] + rest;
    lemma_first_pair(other, value, tail);
    let raw = other + seq!['='] + value + tail;
    let n = (other + seq!['='] + value).len() as int;
    assert(raw.skip(n + 1) =~= rest);
}

// ---- Where a sign-out leads ------------------------------------------------------------------

/// Whether a target is a path on this site: it begins with one `/`, not with two.
pub open spec fn local_path(s: Seq<char>) -> bool {
    text::has_prefix(s, "/"@) && !text::has_prefix(s, "//"@)
}

/// The page after a sign-out: the requested one where it is a path on this site, else the
/// sign-in page.
pub open spec fn logout_target(next: Option<Seq<char>>) -> Seq<char> {
    match next {
        Some(n) => if local_path(n) {
            n
        } else {
            "/login"@
        },
        None => "/login"@,
    }
}

pub fn safe_logout_next<'a>(next: Option<&'a str>) -> (r: &'a str)
    ensures
        r@ == logout_target(text::opt(next)),
{
    match next {
        Some(n) => if text::starts_with(n, "/") && !text::starts_with(n, "//") {
            n
        } else {
            "/login"
        },
        None => "/login",
    }
}

/// A sign-out never leads off this site.
pub proof fn law_logout_stays_local(next: Option<Seq<char>>)
    ensures
        local_path(logout_target(next)),
{
    reveal_strlit("/login");
    reveal_strlit("/");
    reveal_strlit("//");
    assert("/login"@.subrange(0, 1) =~= "/"@);
    assert("/login"@.subrange(0, 2)[1] == 'l' && "//"@[1] == '/');
}

} // verus!
