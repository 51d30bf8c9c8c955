//! What the pages for everybody show.

use vstd::prelude::*;
use crate::html;
use crate::laws::markup;
use crate::laws::pages::shell as around;
use crate::model::InstanceRole;
use crate::views::icons::{ALERT_CIRCLE_ICON, FINGERPRINT_ICON};
use crate::views::login as page;
use crate::views::scripts::INVITE_COPY_JS;
use crate::views::shell::SiteInfo;
use crate::views::shell;

verus! {

/// Where the holes of the template stand, and the texts around them.
proof fn lemma_error_line() -> (at: (Seq<char>, Seq<int>))
    ensures
        at.0 == page::ERROR_LINE@,
        at.1 == seq![17int],
        at.0.len() == 22,
        markup::holes_at(at.0, at.1),
        at.0.subrange(0, 17) == "<p class=\"error\">"@,
        at.0.subrange(18, 22) == "</p>"@,
        "<p class=\"error\">"@.len() == 17,
        "</p>"@.len() == 4,
{
    reveal_strlit("<p class=\"error\">¤</p>");
    reveal_strlit("<p class=\"error\">");
    reveal_strlit("</p>");
    let tpl = page::ERROR_LINE@;
    let holes = seq![17int];
    assert(markup::hole_at(tpl, holes, 0));
    assert(tpl.subrange(0, 17) =~= "<p class=\"error\">"@);
    assert(tpl.subrange(18, 22) =~= "</p>"@);
    (tpl, holes)
}

/// A refused form says why.
pub proof fn law_error_line(error: Option<Seq<char>>, msg: Seq<char>)
    requires
        error == Some(msg),
    ensures
        ({
            let out = page::error_line_html(error);
            &&& markup::shows(out, "<p class=\"error\">"@ + html::escaped(msg) + "</p>"@)
        }),
{
    let (tpl, holes) = lemma_error_line();
    let parts = seq![html::escaped(msg)];
    assert(page::error_line_html(error) == markup::filled(tpl, parts, 1).done()) by {
        reveal_with_fuel(markup::filled, 2);
    }
    markup::lemma_hole(tpl, holes, parts, 0, "<p class=\"error\">"@, "</p>"@);
}

/// Where the holes of the template stand, and the texts around them.
proof fn lemma_login_page() -> (at: (Seq<char>, Seq<int>))
    ensures
        at.0 == page::LOGIN_PAGE@,
        at.1 == seq![70int, 122, 186, 631],
        at.0.len() == 751,
        markup::holes_at(at.0, at.1),
        at.0.subrange(34, 70) == "<form method=\"post\" action=\"/login\">"@,
        at.0.subrange(71, 90) == "<div class=\"field\">"@,
        at.0.subrange(90, 122) == "<label for=\"email\">Email</label>"@,
        at.0.subrange(123, 129) == "</div>"@,
        at.0.subrange(148, 186) == "<label for=\"password\">Password</label>"@,
        at.0.subrange(187, 193) == "</div>"@,
        "<form method=\"post\" action=\"/login\">"@.len() == 36,
        "<div class=\"field\">"@.len() == 19,
        "<label for=\"email\">Email</label>"@.len() == 32,
        "</div>"@.len() == 6,
        "<label for=\"password\">Password</label>"@.len() == 38,
{
    reveal_strlit("<h1>Sign in</h1><div class=\"card\"><form method=\"post\" action=\"/login\">¤<div class=\"field\"><label for=\"email\">Email</label>¤</div><div class=\"field\"><label for=\"password\">Password</label>¤</div><button type=\"submit\" class=\"btn\">Sign in</button></form><p class=\"login-verify-or\">or</p><form id=\"form-passkey-login\" method=\"post\" action=\"/login/passkey/finish\"><input type=\"hidden\" name=\"challenge_id\"><input type=\"hidden\" name=\"passkey\"></form><p class=\"error\" id=\"passkey-error\" hidden></p><button type=\"button\" class=\"btn-secondary login-passkey-btn\" data-passkey-auth=\"/login/passkey/start\" data-passkey-form=\"form-passkey-login\">¤<span>Sign in with a passkey</span></button><p class=\"login-recover-link\"><a href=\"/recover\">Lost access?</a></p></div>");
    reveal_strlit("<form method=\"post\" action=\"/login\">");
    reveal_strlit("<div class=\"field\">");
    reveal_strlit("<label for=\"email\">Email</label>");
    reveal_strlit("</div>");
    reveal_strlit("<label for=\"password\">Password</label>");
    let tpl = page::LOGIN_PAGE@;
    let holes = seq![70int, 122, 186, 631];
    assert(markup::hole_at(tpl, holes, 0));
    assert(markup::hole_at(tpl, holes, 1));
    assert(markup::hole_at(tpl, holes, 2));
    assert(markup::hole_at(tpl, holes, 3));
    assert(tpl.subrange(34, 70) =~= "<form method=\"post\" action=\"/login\">"@);
    assert(tpl.subrange(71, 90) =~= "<div class=\"field\">"@);
    assert(tpl.subrange(90, 122) =~= "<label for=\"email\">Email</label>"@);
    assert(tpl.subrange(123, 129) =~= "</div>"@);
    assert(tpl.subrange(148, 186) =~= "<label for=\"password\">Password</label>"@);
    assert(tpl.subrange(187, 193) =~= "</div>"@);
    (tpl, holes)
}

/// The sign-in page shows its error and the email that was entered.
pub proof fn law_login_page(
    site: &SiteInfo,
    error: Option<Seq<char>>,
    prefill_email: Option<Seq<char>>,
)
    ensures
        ({
            let out = page::login_page_html(site, error, prefill_email);
            let start = page::prefilled(prefill_email);
            &&& markup::shows(out, "<title>"@ + html::escaped("Sign in"@) + " · Hearth"@)
            &&& markup::shows(
                out,
                "<form method=\"post\" action=\"/login\">"@ + page::error_line_html(error) + "<div class=\"field\">"@,
            )
            &&& markup::shows(
                out,
                "<label for=\"email\">Email</label>"@ + (match start { Some(email) => html::template(page::EMAIL_FILLED@) .text(email) .done(), None => page::EMAIL_EMPTY@, }) + "</div>"@,
            )
            &&& markup::shows(
                out,
                "<label for=\"password\">Password</label>"@ + (if start is Some { page::PASSWORD_FOCUSED@ } else { page::PASSWORD_PLAIN@ }) + "</div>"@,
            )
        }),
{
    let start = page::prefilled(prefill_email);
    let (tpl, holes) = lemma_login_page();
    let parts = seq![
        page::error_line_html(error),
        match start { Some(email) => html::template(page::EMAIL_FILLED@) .text(email) .done(), None => page::EMAIL_EMPTY@, },
        if start is Some { page::PASSWORD_FOCUSED@ } else { page::PASSWORD_PLAIN@ },
        FINGERPRINT_ICON@,
    ];
    let content = markup::filled(tpl, parts, 4).done();
    let out = page::login_page_html(site, error, prefill_email);
    assert(out == shell::shell_public_html(site, "Sign in"@, content)) by {
        reveal_with_fuel(markup::filled, 5);
    }
    around::lemma_public_content(site, "Sign in"@, content);
    markup::lemma_hole(
        tpl,
        holes,
        parts,
        0,
        "<form method=\"post\" action=\"/login\">"@,
        "<div class=\"field\">"@,
    );
    markup::lemma_shows_inner(
        out,
        content,
        "<form method=\"post\" action=\"/login\">"@ + page::error_line_html(error) + "<div class=\"field\">"@,
    );
    markup::lemma_hole(tpl, holes, parts, 1, "<label for=\"email\">Email</label>"@, "</div>"@);
    markup::lemma_shows_inner(
        out,
        content,
        "<label for=\"email\">Email</label>"@ + (match start { Some(email) => html::template(page::EMAIL_FILLED@) .text(email) .done(), None => page::EMAIL_EMPTY@, }) + "</div>"@,
    );
    markup::lemma_hole(
        tpl,
        holes,
        parts,
        2,
        "<label for=\"password\">Password</label>"@,
        "</div>"@,
    );
    markup::lemma_shows_inner(
        out,
        content,
        "<label for=\"password\">Password</label>"@ + (if start is Some { page::PASSWORD_FOCUSED@ } else { page::PASSWORD_PLAIN@ }) + "</div>"@,
    );
}

/// Where the holes of the template stand, and the texts around them.
proof fn lemma_goodbye_page() -> (at: (Seq<char>, Seq<int>))
    ensures
        at.0 == page::GOODBYE_PAGE@,
        at.1 == seq![4int, 45],
        at.0.len() == 126,
        markup::holes_at(at.0, at.1),
        at.0.subrange(0, 4) == "<h1>"@,
        at.0.subrange(5, 10) == "</h1>"@,
        at.0.subrange(28, 45) == "<p class=\"muted\">"@,
        at.0.subrange(46, 50) == "</p>"@,
        "<h1>"@.len() == 4,
        "</h1>"@.len() == 5,
        "<p class=\"muted\">"@.len() == 17,
        "</p>"@.len() == 4,
{
    reveal_strlit("<h1>¤</h1><div class=\"card\"><p class=\"muted\">¤</p><p class=\"login-recover-link\"><a href=\"/login\">Back to sign in</a></p></div>");
    reveal_strlit("<h1>");
    reveal_strlit("</h1>");
    reveal_strlit("<p class=\"muted\">");
    reveal_strlit("</p>");
    let tpl = page::GOODBYE_PAGE@;
    let holes = seq![4int, 45];
    assert(markup::hole_at(tpl, holes, 0));
    assert(markup::hole_at(tpl, holes, 1));
    assert(tpl.subrange(0, 4) =~= "<h1>"@);
    assert(tpl.subrange(5, 10) =~= "</h1>"@);
    assert(tpl.subrange(28, 45) =~= "<p class=\"muted\">"@);
    assert(tpl.subrange(46, 50) =~= "</p>"@);
    (tpl, holes)
}

/// The page after an account is closed says what became of it.
pub proof fn law_goodbye_page(site: &SiteInfo, mode: Seq<char>)
    ensures
        ({
            let out = page::goodbye_page_html(site, mode);
            let (title, body) = if mode == "deleted"@ { (page::GOODBYE_DELETED_TITLE, page::GOODBYE_DELETED) } else { (page::GOODBYE_CLOSED_TITLE, page::GOODBYE_CLOSED) };
            &&& markup::shows(out, "<title>"@ + html::escaped(title@) + " · Hearth"@)
            &&& markup::shows(out, "<h1>"@ + html::escaped(title@) + "</h1>"@)
            &&& markup::shows(out, "<p class=\"muted\">"@ + html::escaped(body@) + "</p>"@)
        }),
{
    let (title, body) = if mode == "deleted"@ { (page::GOODBYE_DELETED_TITLE, page::GOODBYE_DELETED) } else { (page::GOODBYE_CLOSED_TITLE, page::GOODBYE_CLOSED) };
    let (tpl, holes) = lemma_goodbye_page();
    let parts = seq![html::escaped(title@), html::escaped(body@)];
    let content = markup::filled(tpl, parts, 2).done();
    let out = page::goodbye_page_html(site, mode);
    assert(out == shell::shell_public_html(site, title@, content)) by {
        reveal_with_fuel(markup::filled, 3);
    }
    around::lemma_public_content(site, title@, content);
    markup::lemma_hole(tpl, holes, parts, 0, "<h1>"@, "</h1>"@);
    markup::lemma_shows_inner(out, content, "<h1>"@ + html::escaped(title@) + "</h1>"@);
    markup::lemma_hole(tpl, holes, parts, 1, "<p class=\"muted\">"@, "</p>"@);
    markup::lemma_shows_inner(
        out,
        content,
        "<p class=\"muted\">"@ + html::escaped(body@) + "</p>"@,
    );
}

/// Where the holes of the template stand, and the texts around them.
proof fn lemma_recover_page() -> (at: (Seq<char>, Seq<int>))
    ensures
        at.0 == page::RECOVER_PAGE@,
        at.1 == seq![298int],
        at.0.len() == 810,
        markup::holes_at(at.0, at.1),
        at.0.subrange(260, 298) == "<form method=\"post\" action=\"/recover\">"@,
        at.0.subrange(299, 318) == "<div class=\"field\">"@,
        "<form method=\"post\" action=\"/recover\">"@.len() == 38,
        "<div class=\"field\">"@.len() == 19,
{
    reveal_strlit("<h1>Recover your account</h1><div class=\"card\"><p class=\"muted recover-intro\">Enter your email and the recovery code you saved. We'll let you set a new password. Sylva is offline-first - there's no reset email, so the recovery code is the only way back in.</p><form method=\"post\" action=\"/recover\">¤<div class=\"field\"><label for=\"email\">Email</label><input type=\"email\" name=\"email\" id=\"email\" required autocomplete=\"username\" autofocus></div><div class=\"field\"><label for=\"recovery_code\">Recovery code</label><input type=\"text\" name=\"recovery_code\" id=\"recovery_code\" required autocomplete=\"off\" spellcheck=\"false\" placeholder=\"XXXX-XXXX-XXXX-XXXX-XXXX-XXXX-XXXX-XXXX\"></div><button type=\"submit\" class=\"btn\">Continue</button></form><p class=\"login-recover-link\"><a href=\"/login\">Back to sign in</a></p></div>");
    reveal_strlit("<form method=\"post\" action=\"/recover\">");
    reveal_strlit("<div class=\"field\">");
    let tpl = page::RECOVER_PAGE@;
    let holes = seq![298int];
    assert(markup::hole_at(tpl, holes, 0));
    assert(tpl.subrange(260, 298) =~= "<form method=\"post\" action=\"/recover\">"@);
    assert(tpl.subrange(299, 318) =~= "<div class=\"field\">"@);
    (tpl, holes)
}

/// The recovery page shows its error.
pub proof fn law_recover_page(site: &SiteInfo, error: Option<Seq<char>>)
    ensures
        ({
            let out = page::recover_page_html(site, error);
            &&& markup::shows(
                out,
                "<title>"@ + html::escaped("Recover your account"@) + " · Hearth"@,
            )
            &&& markup::shows(
                out,
                "<form method=\"post\" action=\"/recover\">"@ + page::error_line_html(error) + "<div class=\"field\">"@,
            )
        }),
{
    let (tpl, holes) = lemma_recover_page();
    let parts = seq![page::error_line_html(error)];
    let content = markup::filled(tpl, parts, 1).done();
    let out = page::recover_page_html(site, error);
    assert(out == shell::shell_public_html(site, "Recover your account"@, content)) by {
        reveal_with_fuel(markup::filled, 2);
    }
    around::lemma_public_content(site, "Recover your account"@, content);
    markup::lemma_hole(
        tpl,
        holes,
        parts,
        0,
        "<form method=\"post\" action=\"/recover\">"@,
        "<div class=\"field\">"@,
    );
    markup::lemma_shows_inner(
        out,
        content,
        "<form method=\"post\" action=\"/recover\">"@ + page::error_line_html(error) + "<div class=\"field\">"@,
    );
}

/// Where the holes of the template stand, and the texts around them.
proof fn lemma_recover_reset_page() -> (at: (Seq<char>, Seq<int>))
    ensures
        at.0 == page::RECOVER_RESET_PAGE@,
        at.1 == seq![89int],
        at.0.len() == 554,
        markup::holes_at(at.0, at.1),
        at.0.subrange(45, 89) == "<form method=\"post\" action=\"/recover/reset\">"@,
        at.0.subrange(90, 109) == "<div class=\"field\">"@,
        "<form method=\"post\" action=\"/recover/reset\">"@.len() == 44,
        "<div class=\"field\">"@.len() == 19,
{
    reveal_strlit("<h1>Set a new password</h1><div class=\"card\"><form method=\"post\" action=\"/recover/reset\">¤<div class=\"field\"><label for=\"new_password\">New password</label><input type=\"password\" name=\"new_password\" id=\"new_password\" required minlength=\"8\" autocomplete=\"new-password\" autofocus></div><div class=\"field\"><label for=\"confirm_password\">Confirm new password</label><input type=\"password\" name=\"confirm_password\" id=\"confirm_password\" required minlength=\"8\" autocomplete=\"new-password\"></div><button type=\"submit\" class=\"btn\">Set password</button></form></div>");
    reveal_strlit("<form method=\"post\" action=\"/recover/reset\">");
    reveal_strlit("<div class=\"field\">");
    let tpl = page::RECOVER_RESET_PAGE@;
    let holes = seq![89int];
    assert(markup::hole_at(tpl, holes, 0));
    assert(tpl.subrange(45, 89) =~= "<form method=\"post\" action=\"/recover/reset\">"@);
    assert(tpl.subrange(90, 109) =~= "<div class=\"field\">"@);
    (tpl, holes)
}

/// The page for a new password shows its error.
pub proof fn law_recover_reset_page(site: &SiteInfo, error: Option<Seq<char>>)
    ensures
        ({
            let out = page::recover_reset_page_html(site, error);
            &&& markup::shows(out, "<title>"@ + html::escaped("Set a new password"@) + " · Hearth"@)
            &&& markup::shows(
                out,
                "<form method=\"post\" action=\"/recover/reset\">"@ + page::error_line_html(error) + "<div class=\"field\">"@,
            )
        }),
{
    let (tpl, holes) = lemma_recover_reset_page();
    let parts = seq![page::error_line_html(error)];
    let content = markup::filled(tpl, parts, 1).done();
    let out = page::recover_reset_page_html(site, error);
    assert(out == shell::shell_public_html(site, "Set a new password"@, content)) by {
        reveal_with_fuel(markup::filled, 2);
    }
    around::lemma_public_content(site, "Set a new password"@, content);
    markup::lemma_hole(
        tpl,
        holes,
        parts,
        0,
        "<form method=\"post\" action=\"/recover/reset\">"@,
        "<div class=\"field\">"@,
    );
    markup::lemma_shows_inner(
        out,
        content,
        "<form method=\"post\" action=\"/recover/reset\">"@ + page::error_line_html(error) + "<div class=\"field\">"@,
    );
}

/// Where the holes of the template stand, and the texts around them.
proof fn lemma_login_verify_page() -> (at: (Seq<char>, Seq<int>))
    ensures
        at.0 == page::LOGIN_VERIFY_PAGE@,
        at.1 == seq![48int, 49, 50],
        at.0.len() == 671,
        markup::holes_at(at.0, at.1),
        at.0.subrange(30, 48) == "<div class=\"card\">"@,
        at.0.subrange(51, 85) == "<details class=\"login-verify-alt\">"@,
        "<div class=\"card\">"@.len() == 18,
        "<details class=\"login-verify-alt\">"@.len() == 34,
{
    reveal_strlit("<h1>Two-step verification</h1><div class=\"card\">¤¤¤<details class=\"login-verify-alt\"><summary>Use a recovery code instead</summary><p class=\"muted\">If you've lost access to your second factor, enter one of your saved recovery codes to sign in, then re-enroll from settings.</p><form method=\"post\" action=\"/login/verify\"><div class=\"field\"><label for=\"recovery_code\">Recovery code</label><input type=\"text\" name=\"recovery_code\" id=\"recovery_code\" autocomplete=\"off\" spellcheck=\"false\" required></div><button type=\"submit\" class=\"btn-secondary\">Sign in with recovery code</button></form></details><p class=\"login-recover-link\"><a href=\"/login\">Back to sign in</a></p></div>");
    reveal_strlit("<div class=\"card\">");
    reveal_strlit("<details class=\"login-verify-alt\">");
    let tpl = page::LOGIN_VERIFY_PAGE@;
    let holes = seq![48int, 49, 50];
    assert(markup::hole_at(tpl, holes, 0));
    assert(markup::hole_at(tpl, holes, 1));
    assert(markup::hole_at(tpl, holes, 2));
    assert(tpl.subrange(30, 48) =~= "<div class=\"card\">"@);
    assert(tpl.subrange(51, 85) =~= "<details class=\"login-verify-alt\">"@);
    (tpl, holes)
}

/// The page of the second factor shows its error and the factors that are there.
pub proof fn law_login_verify_page(
    site: &SiteInfo,
    error: Option<Seq<char>>,
    has_totp: bool,
    has_passkey: bool,
)
    ensures
        ({
            let out = page::login_verify_page_html(site, error, has_totp, has_passkey);
            &&& markup::shows(
                out,
                "<title>"@ + html::escaped("Two-step verification"@) + " · Hearth"@,
            )
            &&& markup::shows(out, "<div class=\"card\">"@ + page::error_line_html(error))
            &&& markup::shows(out, html::when(has_passkey, page::VERIFY_PASSKEY@))
            &&& markup::shows(
                out,
                (if has_totp { html::template(page::VERIFY_CODE@) .html(if has_passkey { page::VERIFY_OR_CODE@ } else { page::VERIFY_CODE_INTRO@ }) .text(if has_passkey { "btn-secondary"@ } else { "btn"@ }) .done() } else { Seq::empty() }) + "<details class=\"login-verify-alt\">"@,
            )
        }),
{
    let (tpl, holes) = lemma_login_verify_page();
    let parts = seq![
        page::error_line_html(error),
        html::when(has_passkey, page::VERIFY_PASSKEY@),
        if has_totp { html::template(page::VERIFY_CODE@) .html(if has_passkey { page::VERIFY_OR_CODE@ } else { page::VERIFY_CODE_INTRO@ }) .text(if has_passkey { "btn-secondary"@ } else { "btn"@ }) .done() } else { Seq::empty() },
    ];
    let content = markup::filled(tpl, parts, 3).done();
    let out = page::login_verify_page_html(site, error, has_totp, has_passkey);
    assert(out == shell::shell_public_html(site, "Two-step verification"@, content)) by {
        reveal_with_fuel(markup::filled, 4);
    }
    around::lemma_public_content(site, "Two-step verification"@, content);
    assert(tpl.subrange(49, 49) =~= Seq::<char>::empty());
    markup::lemma_hole(tpl, holes, parts, 0, "<div class=\"card\">"@, Seq::<char>::empty());
    assert("<div class=\"card\">"@ + parts[0] + Seq::<char>::empty() =~= "<div class=\"card\">"@ + parts[0]);
    markup::lemma_shows_inner(out, content, "<div class=\"card\">"@ + page::error_line_html(error));
    assert(tpl.subrange(49, 49) =~= Seq::<char>::empty());
    assert(tpl.subrange(50, 50) =~= Seq::<char>::empty());
    markup::lemma_hole(tpl, holes, parts, 1, Seq::<char>::empty(), Seq::<char>::empty());
    assert(Seq::<char>::empty() + parts[1] + Seq::<char>::empty() =~= parts[1]);
    markup::lemma_shows_inner(out, content, html::when(has_passkey, page::VERIFY_PASSKEY@));
    assert(tpl.subrange(50, 50) =~= Seq::<char>::empty());
    markup::lemma_hole(
        tpl,
        holes,
        parts,
        2,
        Seq::<char>::empty(),
        "<details class=\"login-verify-alt\">"@,
    );
    assert(Seq::<char>::empty() + parts[2] + "<details class=\"login-verify-alt\">"@ =~= parts[2] + "<details class=\"login-verify-alt\">"@);
    markup::lemma_shows_inner(
        out,
        content,
        (if has_totp { html::template(page::VERIFY_CODE@) .html(if has_passkey { page::VERIFY_OR_CODE@ } else { page::VERIFY_CODE_INTRO@ }) .text(if has_passkey { "btn-secondary"@ } else { "btn"@ }) .done() } else { Seq::empty() }) + "<details class=\"login-verify-alt\">"@,
    );
}

/// Where the holes of the template stand, and the texts around them.
proof fn lemma_accept_invite_page() -> (at: (Seq<char>, Seq<int>))
    ensures
        at.0 == page::ACCEPT_INVITE_PAGE@,
        at.1 == seq![84int, 175, 178, 191, 303, 471],
        at.0.len() == 804,
        markup::holes_at(at.0, at.1),
        at.0.subrange(56, 84) == "<form method=\"post\" action=\""@,
        at.0.subrange(85, 86) == "\""@,
        at.0.subrange(162, 175) == "<span class=\""@,
        at.0.subrange(176, 177) == "\""@,
        at.0.subrange(176, 178) == "\">"@,
        at.0.subrange(179, 186) == "</span>"@,
        at.0.subrange(187, 191) == "</p>"@,
        at.0.subrange(192, 211) == "<div class=\"field\">"@,
        at.0.subrange(250, 303) == "type=\"email\" name=\"email_readonly\" id=\"email\" value=\""@,
        at.0.subrange(304, 305) == "\""@,
        at.0.subrange(426, 471) == "name=\"display_name\" id=\"display_name\" value=\""@,
        at.0.subrange(472, 473) == "\""@,
        "<form method=\"post\" action=\""@.len() == 28,
        "\""@.len() == 1,
        "<span class=\""@.len() == 13,
        "\">"@.len() == 2,
        "</span>"@.len() == 7,
        "</p>"@.len() == 4,
        "<div class=\"field\">"@.len() == 19,
        "type=\"email\" name=\"email_readonly\" id=\"email\" value=\""@.len() == 53,
        "name=\"display_name\" id=\"display_name\" value=\""@.len() == 45,
{
    reveal_strlit("<h1>Accept invitation</h1><div class=\"card invite-card\"><form method=\"post\" action=\"¤\" class=\"invite-form\"><p class=\"invite-intro\">You've been invited to join as <span class=\"¤\">¤</span>.</p>¤<div class=\"field\"><label for=\"email\">Email</label><input type=\"email\" name=\"email_readonly\" id=\"email\" value=\"¤\" readonly autocomplete=\"email\"></div><div class=\"field\"><label for=\"display_name\">Display name</label><input type=\"text\" name=\"display_name\" id=\"display_name\" value=\"¤\" autocomplete=\"name\" required autofocus></div><div class=\"field\"><label for=\"password\">Choose a password</label><input type=\"password\" name=\"password\" id=\"password\" autocomplete=\"new-password\" required minlength=\"8\"></div><div class=\"invite-form-actions\"><button type=\"submit\" class=\"btn\">Create account</button></div></form></div>");
    reveal_strlit("<form method=\"post\" action=\"");
    reveal_strlit("\"");
    reveal_strlit("<span class=\"");
    reveal_strlit("\">");
    reveal_strlit("</span>");
    reveal_strlit("</p>");
    reveal_strlit("<div class=\"field\">");
    reveal_strlit("type=\"email\" name=\"email_readonly\" id=\"email\" value=\"");
    reveal_strlit("name=\"display_name\" id=\"display_name\" value=\"");
    let tpl = page::ACCEPT_INVITE_PAGE@;
    let holes = seq![84int, 175, 178, 191, 303, 471];
    assert(markup::hole_at(tpl, holes, 0));
    assert(markup::hole_at(tpl, holes, 1));
    assert(markup::hole_at(tpl, holes, 2));
    assert(markup::hole_at(tpl, holes, 3));
    assert(markup::hole_at(tpl, holes, 4));
    assert(markup::hole_at(tpl, holes, 5));
    assert(tpl.subrange(56, 84) =~= "<form method=\"post\" action=\""@);
    assert(tpl.subrange(85, 86) =~= "\""@);
    assert(tpl.subrange(162, 175) =~= "<span class=\""@);
    assert(tpl.subrange(176, 177) =~= "\""@);
    assert(tpl.subrange(176, 178) =~= "\">"@);
    assert(tpl.subrange(179, 186) =~= "</span>"@);
    assert(tpl.subrange(187, 191) =~= "</p>"@);
    assert(tpl.subrange(192, 211) =~= "<div class=\"field\">"@);
    assert(tpl.subrange(250, 303) =~= "type=\"email\" name=\"email_readonly\" id=\"email\" value=\""@);
    assert(tpl.subrange(304, 305) =~= "\""@);
    assert(tpl.subrange(426, 471) =~= "name=\"display_name\" id=\"display_name\" value=\""@);
    assert(tpl.subrange(472, 473) =~= "\""@);
    (tpl, holes)
}

/// The page of an invitation goes to that very invitation and shows the role it gives.
pub proof fn law_accept_invite_page(
    site: &SiteInfo,
    token: Seq<char>,
    invitation_email: Seq<char>,
    instance_role: InstanceRole,
    prefill_display_name: Seq<char>,
    error: Option<Seq<char>>,
)
    ensures
        ({
            let out = page::accept_invite_page_html(site, token, invitation_email, instance_role, prefill_display_name, error);
            &&& markup::shows(out, "<title>"@ + html::escaped("Accept invitation"@) + " · Hearth"@)
            &&& markup::shows(
                out,
                "<form method=\"post\" action=\""@ + (html::escaped("/invite/"@ + token)) + "\""@,
            )
            &&& markup::shows(
                out,
                "<span class=\""@ + html::escaped(shell::role_class_text(instance_role)) + "\""@,
            )
            &&& markup::shows(
                out,
                "\">"@ + html::escaped(shell::role_label_text(instance_role)) + "</span>"@,
            )
            &&& markup::shows(
                out,
                "</p>"@ + page::accept_invite_error_html(error) + "<div class=\"field\">"@,
            )
            &&& markup::shows(
                out,
                "type=\"email\" name=\"email_readonly\" id=\"email\" value=\""@ + html::escaped(invitation_email) + "\""@,
            )
            &&& markup::shows(
                out,
                "name=\"display_name\" id=\"display_name\" value=\""@ + html::escaped(prefill_display_name) + "\""@,
            )
        }),
{
    let (tpl, holes) = lemma_accept_invite_page();
    let parts = seq![
        html::escaped("/invite/"@ + token),
        html::escaped(shell::role_class_text(instance_role)),
        html::escaped(shell::role_label_text(instance_role)),
        page::accept_invite_error_html(error),
        html::escaped(invitation_email),
        html::escaped(prefill_display_name),
    ];
    let content = markup::filled(tpl, parts, 6).done();
    let out = page::accept_invite_page_html(site, token, invitation_email, instance_role, prefill_display_name, error);
    assert(out == shell::shell_public_html(site, "Accept invitation"@, content)) by {
        reveal_with_fuel(markup::filled, 7);
    }
    around::lemma_public_content(site, "Accept invitation"@, content);
    markup::lemma_hole(tpl, holes, parts, 0, "<form method=\"post\" action=\""@, "\""@);
    markup::lemma_shows_inner(
        out,
        content,
        "<form method=\"post\" action=\""@ + (html::escaped("/invite/"@ + token)) + "\""@,
    );
    markup::lemma_hole(tpl, holes, parts, 1, "<span class=\""@, "\""@);
    markup::lemma_shows_inner(
        out,
        content,
        "<span class=\""@ + html::escaped(shell::role_class_text(instance_role)) + "\""@,
    );
    markup::lemma_hole(tpl, holes, parts, 2, "\">"@, "</span>"@);
    markup::lemma_shows_inner(
        out,
        content,
        "\">"@ + html::escaped(shell::role_label_text(instance_role)) + "</span>"@,
    );
    markup::lemma_hole(tpl, holes, parts, 3, "</p>"@, "<div class=\"field\">"@);
    markup::lemma_shows_inner(
        out,
        content,
        "</p>"@ + page::accept_invite_error_html(error) + "<div class=\"field\">"@,
    );
    markup::lemma_hole(
        tpl,
        holes,
        parts,
        4,
        "type=\"email\" name=\"email_readonly\" id=\"email\" value=\""@,
        "\""@,
    );
    markup::lemma_shows_inner(
        out,
        content,
        "type=\"email\" name=\"email_readonly\" id=\"email\" value=\""@ + html::escaped(invitation_email) + "\""@,
    );
    markup::lemma_hole(
        tpl,
        holes,
        parts,
        5,
        "name=\"display_name\" id=\"display_name\" value=\""@,
        "\""@,
    );
    markup::lemma_shows_inner(
        out,
        content,
        "name=\"display_name\" id=\"display_name\" value=\""@ + html::escaped(prefill_display_name) + "\""@,
    );
}

/// Where the holes of the template stand, and the texts around them.
proof fn lemma_accept_invite_recovery_code_page() -> (at: (Seq<char>, Seq<int>))
    ensures
        at.0 == page::ACCEPT_INVITE_RECOVERY_CODE_PAGE@,
        at.1 == seq![426int, 628, 1138],
        at.0.len() == 1148,
        markup::holes_at(at.0, at.1),
        at.0.subrange(379, 426) == "type=\"text\" class=\"recovery-code-input\" value=\""@,
        at.0.subrange(427, 428) == "\""@,
        "type=\"text\" class=\"recovery-code-input\" value=\""@.len() == 47,
        "\""@.len() == 1,
{
    reveal_strlit("<h1>Save your recovery code</h1><div class=\"card recovery-code-card\"><p class=\"recovery-code-intro\">This is your account recovery code. You'll need it if you ever forget your password or lose access to a second factor. Sylva is offline-first — we won't email you a reset link, so this code is the only way back in.</p><div class=\"recovery-code-display\"><input id=\"recovery-code\" type=\"text\" class=\"recovery-code-input\" value=\"¤\" readonly aria-label=\"Account recovery code\"><button type=\"button\" class=\"btn-secondary\" data-copy-target=\"recovery-code\">Copy</button></div><div class=\"dialog-alert dialog-alert-danger\" role=\"alert\">¤<span>Save it somewhere safe before continuing. We won't show this code again. If you lose it, regenerating a new one from settings will replace this one — any saved copy will stop working.</span></div><form method=\"get\" action=\"/me\" class=\"recovery-code-actions\"><label class=\"recovery-code-confirm\"><input type=\"checkbox\" class=\"member-checkbox\" required><span>I've saved my recovery code somewhere safe.</span></label><button type=\"submit\" class=\"btn\">Continue to your account</button></form></div><script>¤</script>");
    reveal_strlit("type=\"text\" class=\"recovery-code-input\" value=\"");
    reveal_strlit("\"");
    let tpl = page::ACCEPT_INVITE_RECOVERY_CODE_PAGE@;
    let holes = seq![426int, 628, 1138];
    assert(markup::hole_at(tpl, holes, 0));
    assert(markup::hole_at(tpl, holes, 1));
    assert(markup::hole_at(tpl, holes, 2));
    assert(tpl.subrange(379, 426) =~= "type=\"text\" class=\"recovery-code-input\" value=\""@);
    assert(tpl.subrange(427, 428) =~= "\""@);
    (tpl, holes)
}

/// The page after an invitation shows the recovery code.
pub proof fn law_accept_invite_recovery_code_page(site: &SiteInfo, recovery_code: Seq<char>)
    ensures
        ({
            let out = page::accept_invite_recovery_code_page_html(site, recovery_code);
            &&& markup::shows(
                out,
                "<title>"@ + html::escaped("Save your recovery code"@) + " · Hearth"@,
            )
            &&& markup::shows(
                out,
                "type=\"text\" class=\"recovery-code-input\" value=\""@ + html::escaped(recovery_code) + "\""@,
            )
        }),
{
    let (tpl, holes) = lemma_accept_invite_recovery_code_page();
    let parts = seq![html::escaped(recovery_code), ALERT_CIRCLE_ICON@, INVITE_COPY_JS@];
    let content = markup::filled(tpl, parts, 3).done();
    let out = page::accept_invite_recovery_code_page_html(site, recovery_code);
    assert(out == shell::shell_public_html(site, "Save your recovery code"@, content)) by {
        reveal_with_fuel(markup::filled, 4);
    }
    around::lemma_public_content(site, "Save your recovery code"@, content);
    markup::lemma_hole(
        tpl,
        holes,
        parts,
        0,
        "type=\"text\" class=\"recovery-code-input\" value=\""@,
        "\""@,
    );
    markup::lemma_shows_inner(
        out,
        content,
        "type=\"text\" class=\"recovery-code-input\" value=\""@ + html::escaped(recovery_code) + "\""@,
    );
}

/// Where the holes of the template stand, and the texts around them.
proof fn lemma_accept_invite_error() -> (at: (Seq<char>, Seq<int>))
    ensures
        at.0 == page::ACCEPT_INVITE_ERROR_BANNER@,
        at.1 == seq![46int],
        at.0.len() == 53,
        markup::holes_at(at.0, at.1),
        at.0.subrange(0, 46) == "<div class=\"banner banner-error\" role=\"alert\">"@,
        at.0.subrange(47, 53) == "</div>"@,
        "<div class=\"banner banner-error\" role=\"alert\">"@.len() == 46,
        "</div>"@.len() == 6,
{
    reveal_strlit("<div class=\"banner banner-error\" role=\"alert\">¤</div>");
    reveal_strlit("<div class=\"banner banner-error\" role=\"alert\">");
    reveal_strlit("</div>");
    let tpl = page::ACCEPT_INVITE_ERROR_BANNER@;
    let holes = seq![46int];
    assert(markup::hole_at(tpl, holes, 0));
    assert(tpl.subrange(0, 46) =~= "<div class=\"banner banner-error\" role=\"alert\">"@);
    assert(tpl.subrange(47, 53) =~= "</div>"@);
    (tpl, holes)
}

/// A refused acceptance says why.
pub proof fn law_accept_invite_error(error: Option<Seq<char>>, code: Seq<char>)
    requires
        error == Some(code),
    ensures
        ({
            let out = page::accept_invite_error_html(error);
            &&& markup::shows(
                out,
                "<div class=\"banner banner-error\" role=\"alert\">"@ + html::escaped(page::accept_error_text(code)) + "</div>"@,
            )
        }),
{
    let (tpl, holes) = lemma_accept_invite_error();
    let parts = seq![html::escaped(page::accept_error_text(code))];
    assert(page::accept_invite_error_html(error) == markup::filled(tpl, parts, 1).done()) by {
        reveal_with_fuel(markup::filled, 2);
    }
    markup::lemma_hole(
        tpl,
        holes,
        parts,
        0,
        "<div class=\"banner banner-error\" role=\"alert\">"@,
        "</div>"@,
    );
}

/// The email of a form that came back stands in it again.
pub proof fn law_prefilled(email: Seq<char>)
    ensures
        email.len() > 0 ==> page::prefilled(Some(email)) == Some(email),
        email.len() == 0 ==> page::prefilled(Some(email)) is None,
        page::prefilled(None) is None,
{
}

/// A refused acceptance is told for what it was refused.
pub proof fn law_accept_errors()
    ensures
        page::accept_error_text("display_name_required"@) == "Enter a display name."@,
        page::accept_error_text("password_required"@) == "Enter a password."@,
        page::accept_error_text("invalid_or_expired_token"@)
            == "This invitation link is invalid or has expired."@,
{
    reveal_strlit("display_name_required");
    reveal_strlit("password_required");
    reveal_strlit("invalid_or_expired_token");
    assert("display_name_required"@.len() == 21 && "password_required"@.len() == 17);
    assert("invalid_or_expired_token"@.len() == 24);
}

/// The pages of a closed server and of a dead invitation say so.
pub proof fn law_dead_ends(site: &SiteInfo)
    ensures
        markup::shows(page::instance_closed_page_html(site), page::INSTANCE_CLOSED_PAGE@),
        markup::shows(
            page::accept_invite_invalid_page_html(site),
            page::ACCEPT_INVITE_INVALID_PAGE@,
        ),
        markup::shows(
            page::instance_closed_page_html(site),
            "<title>"@ + html::escaped("Server closed"@) + " · Hearth"@,
        ),
        markup::shows(
            page::accept_invite_invalid_page_html(site),
            "<title>"@ + html::escaped("Invitation unavailable"@) + " · Hearth"@,
        ),
{
    around::lemma_public_content(site, "Server closed"@, page::INSTANCE_CLOSED_PAGE@);
    around::lemma_public_content(
        site,
        "Invitation unavailable"@,
        page::ACCEPT_INVITE_INVALID_PAGE@,
    );
}

} // verus!
