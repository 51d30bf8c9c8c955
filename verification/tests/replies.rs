use hearth_web::html::Markup;
use hearth_web::model::Uuid;
use hearth_web::reply::{
    append_cookie_header, error_response, passkey_challenge, redirect_or_hx_redirect,
    redirect_to_me_with_action, redirect_to_me_with_error, redirect_with_action_toast,
    redirect_with_error_toast, set_cookie_header, with_toast, Content, Reply,
};
use hearth_web::toast::{Toast, ToastKind};
use hearth_web::views::shell::SiteInfo;

fn site() -> SiteInfo {
    SiteInfo { asset_version: "abc".to_string(), release: "1.2.3".to_string() }
}

fn location(r: &Reply) -> Option<&str> {
    match &r.content {
        Content::Redirect { to } => Some(to),
        _ => None,
    }
}

#[test]
fn htmx_is_told_where_to_go() {
    let r = redirect_or_hx_redirect("/members", true);
    assert_eq!(r.hx_redirect.as_deref(), Some("/members"));
    assert!(matches!(r.content, Content::Text { status: 200, ref text } if text.is_empty()));
    let r = redirect_or_hx_redirect("/members", false);
    assert_eq!(location(&r), Some("/members"));
    assert_eq!(r.hx_redirect, None);
}

#[test]
fn an_address_that_fits_no_header_is_left_out() {
    let r = redirect_or_hx_redirect("/a\nb", true);
    assert_eq!(r.hx_redirect, None);
    let r = redirect_or_hx_redirect("/é", true);
    assert_eq!(r.hx_redirect.as_deref(), Some("/é"));
}

#[test]
fn toasts_ride_along() {
    let r = redirect_with_action_toast("/members", true, "deactivated", Some("Ada"));
    assert!(r.hx_trigger.unwrap().contains("Ada can no longer sign in."));
    let r = redirect_with_action_toast("/members", true, "unknown_action", None);
    assert_eq!(r.hx_trigger, None);
    let r = redirect_with_error_toast("/members", true, "forbidden");
    assert!(r.hx_trigger.unwrap().contains("Action failed"));
    let t = Toast::new(ToastKind::Info, "T", "a\u{7f}b");
    let r = with_toast(Reply::text(200, ""), Some(t));
    assert_eq!(r.hx_trigger, None);
    let t = Toast::new(ToastKind::Info, "T", "a\nb é");
    let r = with_toast(Reply::text(200, ""), Some(t));
    assert!(r.hx_trigger.is_some());
    let r = with_toast(Reply::text(200, ""), None);
    assert_eq!(r.hx_trigger, None);
}

#[test]
fn the_own_account_is_told_either_way() {
    for htmx in [true, false] {
        let failed = redirect_to_me_with_error(htmx, "email_required");
        assert!(failed.hx_trigger.as_deref().unwrap().contains("Action failed"));
        let done = redirect_to_me_with_action(htmx, "email_updated");
        assert!(done.hx_trigger.as_deref().unwrap().contains("hearth-toast"));
        let unknown = redirect_to_me_with_action(htmx, "unknown_action");
        assert_eq!(unknown.hx_trigger, None);
        for r in [failed, done, unknown] {
            if htmx {
                assert_eq!(r.hx_redirect.as_deref(), Some("/me"));
                assert!(matches!(r.content, Content::Text { status: 200, ref text } if text.is_empty()));
            } else {
                assert_eq!(r.hx_redirect, None);
                assert!(matches!(r.content, Content::Redirect { ref to } if to == "/me"));
            }
        }
    }
}

#[test]
fn plain_redirects_carry_no_toast() {
    for r in [
        redirect_with_action_toast("/members", false, "deactivated", Some("Ada")),
        redirect_with_error_toast("/members", false, "forbidden"),
        with_toast(Reply::see_other("/members"), Some(Toast::new(ToastKind::Info, "T", "m"))),
        with_toast(Reply::see_other("/members"), None),
    ] {
        assert_eq!(r.hx_trigger, None);
        assert_eq!(r.hx_redirect, None);
        assert!(matches!(r.content, Content::Redirect { to } if to == "/members"));
    }
}

#[test]
fn cookies_are_replaced_or_added() {
    let r = set_cookie_header(set_cookie_header(Reply::empty(204), "a=1"), "b=2");
    assert_eq!(r.cookies, vec!["b=2".to_string()]);
    let r = append_cookie_header(append_cookie_header(Reply::empty(204), "a=1"), "b=2");
    assert_eq!(r.cookies, vec!["a=1".to_string(), "b=2".to_string()]);
    let r = set_cookie_header(set_cookie_header(Reply::empty(204), "a=1"), "b=\r\n");
    assert_eq!(r.cookies, vec!["a=1".to_string()]);
    let r = append_cookie_header(Reply::empty(204), "b=\u{0}");
    assert!(r.cookies.is_empty());
}

#[test]
fn failures_are_pages() {
    let r = error_response(&site(), 404, "Unknown <action>.");
    match r.content {
        Content::Page { status, html } => {
            assert_eq!(status, 404);
            assert!(html.as_str().contains("Unknown &lt;action&gt;."));
            assert!(html.as_str().contains("404"));
        },
        _ => panic!("not a page"),
    }
    assert!(matches!(Reply::ok_page(Markup::raw("x")).content, Content::Page { status: 200, .. }));
}

#[test]
fn a_challenge_is_json() {
    let id = Uuid { value: 5 };
    let r = passkey_challenge(id, "{\"publicKey\":{}}");
    match r.content {
        Content::Json { json } => {
            let v: serde_json::Value = serde_json::from_str(&json).unwrap();
            assert_eq!(v.get("challenge_id").unwrap(), &serde_json::Value::String(id.text()));
            assert!(v.get("options").unwrap().get("publicKey").is_some());
            assert_eq!(json, v.to_string());
        },
        _ => panic!("not JSON"),
    }
}
