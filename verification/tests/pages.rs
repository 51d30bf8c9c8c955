use hearth_web::model::{InstanceRole, Timestamp, User, UserLifecycle, Uuid};
use hearth_web::toast::toast_for_error;
use hearth_web::views::account::{account_close_modal, me_page};
use hearth_web::views::icons::{ALERT_CIRCLE_ICON, CLOSE_ICON, KEY_ICON, SHIELD_ICON, TRASH_ICON};
use hearth_web::views::invite::error_banner;
use hearth_web::views::login::{goodbye_page, instance_closed_page};
use hearth_web::views::security::factor_removed_content;
use hearth_web::views::settings::recovery_rotate_modal;
use hearth_web::views::shell::{csrf_input, error_page, ChromeContext, SiteInfo};

fn site() -> SiteInfo {
    SiteInfo { asset_version: "abc".to_string(), release: "1.2.3".to_string() }
}

fn user(role: InstanceRole) -> User {
    User {
        id: Uuid { value: 7 },
        email: "ada&co@example.org".to_string(),
        display_name: "Ada".to_string(),
        instance_role: role,
        lifecycle: UserLifecycle::Active,
        created_at: Timestamp::new(0, 0).unwrap(),
    }
}

fn ctx<'a>(site: &'a SiteInfo, user: &'a User) -> ChromeContext<'a> {
    ChromeContext { site, instance_name: "Home", user, csrf_token: "tok", pending_count: None }
}

#[test]
fn small_fragments_are_exact() {
    assert_eq!(
        csrf_input("a\"b").into_string(),
        "<input type=\"hidden\" name=\"csrf_token\" value=\"a&quot;b\">"
    );
    assert_eq!(
        error_banner("email_required").into_string(),
        "<div class=\"banner banner-error\" role=\"alert\">Enter an email address.</div>"
    );
    assert_eq!(
        error_banner("anything").into_string(),
        "<div class=\"banner banner-error\" role=\"alert\">Something went wrong.</div>"
    );
    let expected = format!(
        "<div class=\"dialog-header\"><div class=\"dialog-icon dialog-icon-shield\">{SHIELD_ICON}</div>\
         <button type=\"button\" class=\"dialog-close\" data-close-dialog aria-label=\"Close\">{CLOSE_ICON}</button></div>\
         <h2 class=\"dialog-center-title\">Gone &amp; done</h2>\
         <p class=\"dialog-description dialog-center-text\">Bye</p>\
         <div class=\"dialog-actions dialog-actions-centered\">\
         <button type=\"button\" class=\"btn\" data-close-dialog>Done</button></div>"
    );
    assert_eq!(factor_removed_content("Gone & done", "Bye").into_string(), expected);
}

#[test]
fn an_error_page_names_its_status() {
    let html = error_page(&site(), 404, "No <such> page").into_string();
    assert!(html.starts_with("<!DOCTYPE html>"));
    assert!(html.contains("<h1>404 · No &lt;such&gt; page</h1><p><a href=\"/\">Back to home</a></p>"));
    assert!(html.contains("/assets/css/app.css?v=abc"));
}

#[test]
fn the_last_pages_say_goodbye() {
    let s = site();
    let closed = goodbye_page(&s, "closed").into_string();
    let deleted = goodbye_page(&s, "deleted").into_string();
    assert!(closed.contains("<h1>Your account has been closed</h1>"));
    assert!(deleted.contains("<h1>Your account has been deleted</h1>"));
    assert_eq!(closed, goodbye_page(&s, "").into_string());
    assert!(instance_closed_page(&s).into_string().contains(
        "<h1>This server has been closed. Goodbye.</h1><div class=\"card\"><p class=\"muted\">"
    ));
}

#[test]
fn closing_an_account_is_confirmed() {
    let (s, u) = (site(), user(InstanceRole::Owner));
    let x = ctx(&s, &u);
    let html = account_close_modal(&x, true, false).into_string();
    assert!(html.starts_with(
        "<dialog id=\"dlg-account-delete\" class=\"action-dialog action-dialog-centered\">\
         <form id=\"form-account-delete\" method=\"post\" action=\"/me/account/delete\">"
    ));
    assert!(html.contains(TRASH_ICON));
    assert!(html.contains(
        "<label for=\"confirm-email-delete\">Type your email <strong>&quot;ada&amp;co@example.org&quot;</strong> to confirm</label>"
    ));
    let html = account_close_modal(&x, false, false).into_string();
    assert!(html.contains("action=\"/me/account/anonymize\"") && html.contains("Anonymize my account"));
    let blocked = account_close_modal(&x, false, true).into_string();
    assert!(blocked.starts_with("<dialog id=\"dlg-account-anonymize\""));
    assert!(blocked.contains(ALERT_CIRCLE_ICON) && blocked.contains("Transfer ownership first"));
    assert!(!blocked.contains("<form"));
}

#[test]
fn rotating_the_server_code_asks_for_it() {
    let (s, u) = (site(), user(InstanceRole::Owner));
    let html = recovery_rotate_modal(&ctx(&s, &u)).into_string();
    assert!(html.starts_with(
        "<dialog id=\"dlg-recovery-rotate\" class=\"action-dialog action-dialog-centered\">\
         <div id=\"recovery-rotate-content\"><form id=\"form-recovery-rotate\""
    ));
    assert!(html.contains(KEY_ICON) && html.contains("value=\"tok\""));
    assert!(html.ends_with("</form></div></dialog>"));
}

#[test]
fn the_navigation_respects_rank() {
    let s = site();
    let links = |role| {
        let u = user(role);
        let html = me_page(&ctx(&s, &u)).into_string();
        ["/me", "/members", "/events", "/apps", "/settings"]
            .iter()
            .map(|href| html.contains(&format!("href=\"{href}\"")))
            .collect::<Vec<bool>>()
    };
    assert_eq!(links(InstanceRole::Member), vec![true, false, false, false, false]);
    assert_eq!(links(InstanceRole::Admin), vec![true, true, true, false, false]);
    assert_eq!(links(InstanceRole::Owner), vec![true, true, true, true, true]);
}

#[test]
fn a_form_and_a_toast_say_the_same() {
    for code in ["user_not_found", "invite_expired", "not_pending", "no such code"] {
        let toast = toast_for_error(code);
        assert!(error_banner(code).into_string().contains(&format!(">{}<", toast.message)));
    }
}
