use hearth_web::cookies::{
    cookie_secure, cookie_value, mfa_cookie_value, read_cookie, recovery_cookie_value,
    safe_logout_next, sudo_cookie_value, MFA_COOKIE_NAME, SESSION_COOKIE_NAME, SUDO_COOKIE_NAME,
};
use hearth_web::gate::{expires_at, mfa_pending_token, recovery_token, sudo_token};

#[test]
fn cookies_are_set_with_their_flags() {
    assert_eq!(
        cookie_value(SESSION_COOKIE_NAME, "tok", false, false),
        "hearth_session=tok; Path=/; HttpOnly; SameSite=Lax"
    );
    assert_eq!(
        cookie_value(SESSION_COOKIE_NAME, "tok", false, true),
        "hearth_session=tok; Path=/; HttpOnly; SameSite=Lax; Secure"
    );
    assert_eq!(
        cookie_value(SESSION_COOKIE_NAME, "tok", true, true),
        "hearth_session=; Path=/; Max-Age=0; HttpOnly; SameSite=Lax; Secure"
    );
    assert_eq!(
        recovery_cookie_value("t", false, false),
        "hearth_recovery=t; Path=/; Max-Age=600; HttpOnly; SameSite=Lax"
    );
    assert_eq!(
        mfa_cookie_value("t", false, true),
        "hearth_mfa=t; Path=/; Max-Age=600; HttpOnly; SameSite=Lax; Secure"
    );
    assert_eq!(
        sudo_cookie_value("t", false, false),
        "hearth_sudo=t; Path=/; Max-Age=300; HttpOnly; SameSite=Lax"
    );
    assert_eq!(sudo_cookie_value("t", true, false), "hearth_sudo=; Path=/; Max-Age=0; HttpOnly; SameSite=Lax");
}

#[test]
fn only_https_is_secure() {
    assert!(cookie_secure("https://example.org"));
    assert!(!cookie_secure("http://example.org"));
    assert!(!cookie_secure("HTTPS://example.org"));
    assert!(!cookie_secure(""));
}

#[test]
fn a_cookie_is_read_back() {
    let header = Some("theme=dark; hearth_mfa=abc=def ;hearth_sudo=zzz; broken; hearth_mfa=second");
    assert_eq!(read_cookie(header, MFA_COOKIE_NAME).as_deref(), Some("abc=def"));
    assert_eq!(read_cookie(header, SUDO_COOKIE_NAME).as_deref(), Some("zzz"));
    assert_eq!(read_cookie(header, "broken"), None);
    assert_eq!(read_cookie(header, "missing"), None);
    assert_eq!(read_cookie(None, SUDO_COOKIE_NAME), None);
    assert_eq!(read_cookie(Some(""), SUDO_COOKIE_NAME), None);
    assert_eq!(read_cookie(Some("hearth_sudo="), SUDO_COOKIE_NAME).as_deref(), Some(""));
    assert_eq!(mfa_pending_token(header).as_deref(), Some("abc=def"));
    assert_eq!(sudo_token(header).as_deref(), Some("zzz"));
    assert_eq!(recovery_token(header), None);
}

#[test]
fn a_sign_out_stays_on_the_site() {
    assert_eq!(safe_logout_next(Some("/login?email=a%40b.c")), "/login?email=a%40b.c");
    assert_eq!(safe_logout_next(Some("//evil.example")), "/login");
    assert_eq!(safe_logout_next(Some("https://evil.example")), "/login");
    assert_eq!(safe_logout_next(Some("")), "/login");
    assert_eq!(safe_logout_next(None), "/login");
    assert_eq!(safe_logout_next(Some("/")), "/");
}

#[test]
fn tokens_expire_after_their_time() {
    assert_eq!(expires_at(1_000, 300), 1_300);
}
