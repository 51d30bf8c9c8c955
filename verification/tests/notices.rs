use hearth_web::toast::{
    error_banner_message, toast_for_action, toast_for_error, toast_trigger, Toast, ToastKind,
};
use hearth_web::views::scripts::TOAST_JS;

fn event_of(t: &Toast) -> serde_json::Value {
    serde_json::from_str(&toast_trigger(t)).unwrap()
}

#[test]
fn a_toast_travels_as_json() {
    let t = Toast::new(ToastKind::Info, "A \"title\"", "line\nbreak \u{1} and \\ é");
    let v = event_of(&t);
    let inner = v.get("hearth-toast").unwrap();
    assert_eq!(inner.get("kind").unwrap(), "info");
    assert_eq!(inner.get("title").unwrap(), "A \"title\"");
    assert_eq!(inner.get("message").unwrap(), "line\nbreak \u{1} and \\ é");
    assert_eq!(v.as_object().unwrap().len(), 1);
    assert_eq!(inner.as_object().unwrap().len(), 3);
}

#[test]
fn the_event_is_what_serde_json_writes() {
    let t = Toast::new(ToastKind::Success, "Saved", "Instance name updated.");
    assert_eq!(toast_trigger(&t), event_of(&t).to_string());
    assert_eq!(
        toast_trigger(&t),
        "{\"hearth-toast\":{\"kind\":\"success\",\"message\":\"Instance name updated.\",\"title\":\"Saved\"}}"
    );
}

#[test]
fn destructive_actions_are_red_and_unknown_ones_silent() {
    let t = toast_for_action("deleted", Some("Ada")).unwrap();
    assert_eq!(t.kind, ToastKind::Error);
    assert!(t.message.contains("Ada"));
    let t = toast_for_action("reactivated", Some("Ada")).unwrap();
    assert_eq!(t.kind, ToastKind::Success);
    assert!(toast_for_action("nothing_like_this", None).is_none());
}

#[test]
fn failures_have_a_message_each() {
    let t = toast_for_error("email_already_in_use");
    assert_eq!(t.kind, ToastKind::Error);
    assert_eq!(t.title, "Action failed");
    assert_eq!(t.message, error_banner_message("email_already_in_use"));
    assert_ne!(error_banner_message("email_already_in_use"), error_banner_message("no_such_code"));
    assert_eq!(error_banner_message("no_such_code"), error_banner_message("another_unknown_code"));
}

#[test]
fn the_page_listens_for_the_event_that_is_sent() {
    let t = Toast::new(ToastKind::Info, "T", "m");
    let v = event_of(&t);
    let name = v.as_object().unwrap().keys().next().unwrap();
    assert!(TOAST_JS.contains(&format!("addEventListener('{name}'")));
}
