use hearth_web::flows::apps::{
    add_publisher, app_action_modal, app_resource_modal, app_resources_page, app_status, apps_page,
    delete_resource, disable_app, enable_app, id_search, publishers_page, remove_publisher,
    remove_publisher_modal, uninstall_app, AppAsk, AppChange, DeleteResource, FoundResources,
    IdSearch, NewPublisher, ResourceAt, ResourcesAsk, RESOURCE_LIST_CAP,
};
use hearth_web::flows::events::{
    event_detail_modal, events_page, EventAt, EventsAnswers, EventsAsk,
};
use hearth_web::flows::pending::{
    force_apply_modal, force_apply_pending, mentioned_users, pending_page, transition_labels,
    veto_modal, veto_pending, DialogAsk, ForceAnswers, ForceAsk, ForceOutcome, Labels,
    PendingAnswers, PendingAsk, Veto, VetoOutcome,
};
use hearth_web::flows::settings::{
    settings_identity_submit, settings_notifications_submit, settings_page,
    settings_shutdown_modal, settings_shutdown_submit, settings_test_email, InstanceSettings,
    MailAnswers, MailAsk, RenameInstance, TestEmailOutcome,
};
use hearth_web::flows::step::{Asked, Finish, Proceed, Step};
use hearth_web::forms::{
    EventsPageQuery, ForceApplyForm, PendingPageQuery, PublishersAddForm, RemoveModalQuery,
    RemovePublisherForm, ResourcesQuery, SettingsIdentityForm, SettingsNotificationsForm,
};
use hearth_web::gate::Caller;
use hearth_web::model::{
    AdminResourceRow, AppListItem, AuditEvent, EventData, EventField, EventValue, InstanceRole,
    NotificationsConfig, RegisteredAppRow, SmtpConfig, SmtpTls, Timestamp, TransitionKind, TransitionRow,
    TransitionState, TrustedPublisherListItem, User, UserLifecycle, Uuid,
};
use hearth_web::reply::{Content, Reply};
use hearth_web::views::settings::settings_notifications_section;
use hearth_web::views::shell::{ChromeContext, SiteInfo};

const ME: Uuid = Uuid { value: 1 };
const APP: Uuid = Uuid { value: 100 };
const ROW: Uuid = Uuid { value: 300 };

fn site() -> SiteInfo {
    SiteInfo { asset_version: "abc".to_string(), release: "1.2.3".to_string() }
}

fn at(secs: i64) -> Timestamp {
    Timestamp::new(secs, 0).unwrap()
}

fn user(n: u128, name: &str, role: InstanceRole) -> User {
    User {
        id: Uuid { value: n },
        email: format!("{name}@example.org"),
        display_name: name.to_string(),
        instance_role: role,
        lifecycle: UserLifecycle::Active,
        created_at: at(0),
    }
}

fn ctx<'a>(site: &'a SiteInfo, user: &'a User) -> ChromeContext<'a> {
    ChromeContext { site, instance_name: "Home", user, csrf_token: "csrf", pending_count: None }
}

fn caller(site: &SiteInfo) -> Caller<'_> {
    Caller { site, user_id: ME, role: InstanceRole::Owner, csrf_ok: true, sudo: Some(ME), critical: Some(ME), htmx: true }
}

fn page(r: &Reply) -> (u16, &str) {
    match &r.content {
        Content::Page { status, html } => (*status, html.as_str()),
        _ => panic!("not a page"),
    }
}

fn finished<Q>(s: Step<Q>) -> Finish {
    match s {
        Step::Finish(f) => f,
        Step::Ask(_) => panic!("a question"),
    }
}

fn trigger<Q>(s: Step<Q>, to: &str) -> String {
    let r = finished(s).reply;
    assert_eq!(r.hx_redirect.as_deref(), Some(to));
    r.hx_trigger.unwrap_or_default()
}

fn transition(n: u128, initiator: u128, target: Option<u128>, state: TransitionState) -> TransitionRow {
    TransitionRow {
        id: Uuid { value: n },
        kind: TransitionKind::Deactivate,
        state,
        target_user_id: target.map(|value| Uuid { value }),
        initiator_user_id: Some(Uuid { value: initiator }),
        resolved_by_user_id: None,
        effective_at: at(7_200),
        resolved_at: None,
    }
}

#[test]
fn everyone_mentioned_is_looked_up_once() {
    let active = vec![transition(1, 9, Some(3), TransitionState::Pending), transition(2, 3, None, TransitionState::Pending)];
    let history = vec![transition(4, 2, Some(9), TransitionState::Vetoed)];
    let ids: Vec<u128> = mentioned_users(&active, &history).iter().map(|u| u.value).collect();
    assert_eq!(ids, vec![2, 3, 9]);
    assert!(mentioned_users(&Vec::new(), &Vec::new()).is_empty());
}

#[test]
fn the_pending_page_is_for_owners() {
    let s = site();
    let owner = user(1, "Me", InstanceRole::Owner);
    let admin = user(2, "Adm", InstanceRole::Admin);
    let q = PendingPageQuery::default();
    let mut a = PendingAnswers { active: Asked::NotYet, history: Asked::NotYet, users: Asked::NotYet };
    let r = finished(pending_page(&ctx(&s, &admin), &q, &a, &at(0))).reply;
    assert!(page(&r).1.contains("Owners only."));
    let x = ctx(&s, &owner);
    assert!(matches!(pending_page(&x, &q, &a, &at(0)), Step::Ask(PendingAsk::Active)));
    a.active = Asked::Answer(vec![transition(1, 2, Some(1), TransitionState::Pending)]);
    assert!(matches!(pending_page(&x, &q, &a, &at(0)), Step::Ask(PendingAsk::History { limit: 50 })));
    a.history = Asked::Answer(Vec::new());
    match pending_page(&x, &q, &a, &at(0)) {
        Step::Ask(PendingAsk::Users(ids)) => assert_eq!(ids, vec![Uuid { value: 1 }, Uuid { value: 2 }]),
        _ => panic!("no users asked for"),
    }
    a.users = Asked::Answer(vec![user(1, "Me", InstanceRole::Owner), user(2, "Adm", InstanceRole::Admin)]);
    let done = finished(pending_page(&x, &q, &a, &at(0)));
    assert!(page(&done.reply).1.contains("2h left"));
    a.history = Asked::Failed;
    assert_eq!(page(&finished(pending_page(&x, &q, &a, &at(0))).reply).0, 500);
}

#[test]
fn vetoes_report_back() {
    let s = site();
    let mut c = caller(&s);
    assert!(matches!(veto_pending(&c, ROW, None), Step::Ask(Veto { id, by: ME }) if id == ROW));
    assert!(!trigger(veto_pending(&c, ROW, Some(VetoOutcome::Vetoed)), "/pending").is_empty());
    assert!(trigger(veto_pending(&c, ROW, Some(VetoOutcome::NotFound)), "/pending").contains("Action failed"));
    assert!(trigger(veto_pending(&c, ROW, Some(VetoOutcome::NotPending)), "/pending").contains("Action failed"));
    assert_eq!(page(&finished(veto_pending(&c, ROW, Some(VetoOutcome::NotOwner))).reply).0, 403);
    assert_eq!(page(&finished(veto_pending(&c, ROW, Some(VetoOutcome::Failed))).reply).0, 500);
    c.role = InstanceRole::Admin;
    assert!(page(&finished(veto_pending(&c, ROW, None)).reply).1.contains("Owners only."));
    let owner = user(1, "Me", InstanceRole::Owner);
    let x = ctx(&s, &owner);
    let id = Uuid { value: 4 };
    assert!(matches!(veto_modal(&x, id, &Asked::NotYet, &None), Step::Ask(DialogAsk::Transition(t)) if t == id));
    let found = Asked::Answer(Some(transition(4, 2, Some(3), TransitionState::Pending)));
    assert!(matches!(veto_modal(&x, id, &found, &None), Step::Ask(DialogAsk::TargetName(t)) if t.value == 3));
    assert!(page(&finished(veto_modal(&x, id, &found, &Some(Some("Eve".to_string())))).reply).1.contains("Eve"));
    let dialog = finished(veto_modal(&x, id, &found, &Some(None))).reply;
    assert!(page(&dialog).1.contains("(unknown member)"));
    assert!(page(&dialog).1.contains("dialog-icon-warning") && !page(&dialog).1.contains("dialog-icon-shield"));
    assert_eq!(page(&finished(veto_modal(&x, id, &Asked::Answer(None), &None)).reply).0, 404);
}

#[test]
fn forcing_takes_the_recovery_code() {
    let s = site();
    let owner = user(1, "Me", InstanceRole::Owner);
    let x = ctx(&s, &owner);
    let mut c = caller(&s);
    c.sudo = None;
    let id = Uuid { value: 4 };
    let f = ForceApplyForm { csrf_token: String::new(), recovery_code: " code".to_string() };
    let labels = || Labels { target_name: "Eve".to_string(), action: "Deactivate".to_string() };
    let mut a = ForceAnswers { code_ok: Asked::NotYet, labels: None, outcome: None };
    assert!(matches!(force_apply_pending(&c, &x, id, &f, &a), Step::Ask(ForceAsk::RecoveryCode(ref t)) if t == " code"));
    a.code_ok = Asked::Answer(false);
    assert!(matches!(force_apply_pending(&c, &x, id, &f, &a), Step::Ask(ForceAsk::Labels(t)) if t == id));
    a.labels = Some(labels());
    let r = finished(force_apply_pending(&c, &x, id, &f, &a)).reply;
    assert!(page(&r).1.contains("That server recovery code is not valid."));
    a.code_ok = Asked::Answer(true);
    assert!(matches!(force_apply_pending(&c, &x, id, &f, &a), Step::Ask(ForceAsk::Apply { id: t, by: ME }) if t == id));
    a.outcome = Some(ForceOutcome::Applied);
    assert!(trigger(force_apply_pending(&c, &x, id, &f, &a), "/pending").contains("forced through"));
    a.outcome = Some(ForceOutcome::NotFound);
    assert!(trigger(force_apply_pending(&c, &x, id, &f, &a), "/pending").contains("Action failed"));
    a.outcome = Some(ForceOutcome::NotPending);
    assert!(trigger(force_apply_pending(&c, &x, id, &f, &a), "/pending").contains("Action failed"));
    a.outcome = Some(ForceOutcome::Failed);
    assert_eq!(page(&finished(force_apply_pending(&c, &x, id, &f, &a)).reply).0, 500);

    let waiting = Asked::Answer(Some(transition(4, 2, Some(3), TransitionState::Pending)));
    assert!(matches!(force_apply_modal(&x, id, &waiting, &None), Step::Ask(DialogAsk::Labels(t)) if t == id));
    assert!(page(&finished(force_apply_modal(&x, id, &waiting, &Some(labels()))).reply).1.contains("Eve"));
    let over = Asked::Answer(Some(transition(4, 2, Some(3), TransitionState::Applied)));
    assert_eq!(page(&finished(force_apply_modal(&x, id, &over, &None)).reply).0, 404);

    let l = transition_labels(&None, &None);
    assert_eq!((l.target_name.as_str(), l.action.as_str()), ("(unknown member)", "action"));
    let l = transition_labels(&Some(transition(4, 2, Some(3), TransitionState::Pending)), &Some("Eve".to_string()));
    assert_eq!((l.target_name.as_str(), l.action.as_str()), ("Eve", "Deactivate"));
    let l = transition_labels(&Some(transition(4, 2, None, TransitionState::Pending)), &Some("Eve".to_string()));
    assert_eq!(l.target_name, "(unknown member)");
}

fn event() -> AuditEvent {
    AuditEvent {
        seqno: 77,
        occurred_at: at(0),
        actor_user_id: None,
        actor_display_name: Some("Ada".to_string()),
        event_type: "signin_success".to_string(),
        app_id: None,
        event_data: EventData::Object(vec![EventField { key: "via".to_string(), value: EventValue::Text("web".to_string()) }]),
        event_json: "{\"via\":\"web\",\"at\":[1,2.5]}".to_string(),
        prev_hash: vec![0; 32],
        hash: vec![255; 32],
    }
}

#[test]
fn events_are_paged() {
    let s = site();
    let admin = user(1, "Me", InstanceRole::Admin);
    let x = ctx(&s, &admin);
    let q = EventsPageQuery { q: Some(" sign ".to_string()), event_type: Some("".to_string()), page: Some(3), rows: Some(25) };
    let mut a = EventsAnswers { count: Asked::NotYet, events: Asked::NotYet, types: None };
    match events_page(&x, &q, &a, &at(0)) {
        Step::Ask(EventsAsk::Count(f)) => {
            assert_eq!(f.search.as_deref(), Some("sign"));
            assert_eq!(f.event_type, None);
        },
        _ => panic!("no count asked for"),
    }
    a.count = Asked::Answer(60);
    assert!(matches!(events_page(&x, &q, &a, &at(0)), Step::Ask(EventsAsk::List { limit: 25, offset: 50, .. })));
    a.count = Asked::Answer(-3);
    assert!(matches!(events_page(&x, &q, &a, &at(0)), Step::Ask(EventsAsk::List { limit: 25, offset: 0, .. })));
    a.count = Asked::Answer(60);
    a.events = Asked::Answer(vec![event()]);
    assert!(matches!(events_page(&x, &q, &a, &at(0)), Step::Ask(EventsAsk::Types)));
    a.types = Some(vec!["signin_success".to_string()]);
    let done = finished(events_page(&x, &q, &a, &at(60)));
    assert!(page(&done.reply).1.contains("Signin success"));
    let low = user(2, "Low", InstanceRole::Member);
    assert_eq!(page(&finished(events_page(&ctx(&s, &low), &q, &a, &at(0))).reply).0, 403);
    assert!(matches!(event_detail_modal(&x, 9, &Asked::NotYet), Step::Ask(EventAt { seqno: 9 })));
    assert_eq!(page(&finished(event_detail_modal(&x, 9, &Asked::Answer(None))).reply).0, 404);
    let r = finished(event_detail_modal(&x, 9, &Asked::Answer(Some(event())))).reply;
    assert!(page(&r).1.contains("ffffffff") && page(&r).1.contains("77"));
    let indented = "{\n  &quot;at&quot;: [\n    1,\n    2.5\n  ],\n  &quot;via&quot;: &quot;web&quot;\n}";
    assert!(page(&r).1.contains(indented));
    let broken = AuditEvent { event_json: "{\"via\":".to_string(), ..event() };
    let r = finished(event_detail_modal(&x, 9, &Asked::Answer(Some(broken)))).reply;
    assert!(page(&r).1.contains("{&quot;via&quot;:"));
}

fn app() -> RegisteredAppRow {
    RegisteredAppRow {
        id: APP,
        app_identifier: "org.example.notes".to_string(),
        display_name: "Notes".to_string(),
        status: "enabled".to_string(),
        resource_types: vec!["note".to_string()],
    }
}

fn resource() -> AdminResourceRow {
    AdminResourceRow {
        id: Uuid { value: 7 },
        app_resource_id: Uuid { value: 8 },
        resource_type: "note".to_string(),
        owner_display_name: None,
        parent_resource_id: None,
        schema_version: 1,
        content_len: 2048,
        signature_len: 64,
        created_at: at(0),
        updated_at: at(0),
        deleted_at: None,
    }
}

#[test]
fn apps_are_listed_and_acted_on() {
    let s = site();
    let owner = user(1, "Me", InstanceRole::Owner);
    let x = ctx(&s, &owner);
    let c = caller(&s);
    let item = AppListItem {
        id: APP,
        app_identifier: "org.example.notes".to_string(),
        display_name: "Notes".to_string(),
        publisher: "Example".to_string(),
        status: "enabled".to_string(),
        resource_types: Vec::new(),
        resource_count: 3,
        created_at: at(0),
    };
    assert!(page(&finished(apps_page(&x, &Asked::Answer(vec![item]), &at(0))).reply).1.contains("Notes"));
    let admin = user(2, "Adm", InstanceRole::Admin);
    assert_eq!(page(&finished(apps_page(&ctx(&s, &admin), &Asked::NotYet, &at(0))).reply).0, 403);
    assert!(matches!(app_action_modal(&x, APP, "disable", &Asked::NotYet, &Asked::NotYet), Step::Ask(AppAsk::App(id)) if id == APP));
    let found = Asked::Answer(Some(app()));
    assert!(matches!(app_action_modal(&x, APP, "disable", &found, &Asked::NotYet), Step::Ask(AppAsk::ResourceCount(id)) if id == APP));
    for action in ["enable", "disable", "uninstall"] {
        assert!(page(&finished(app_action_modal(&x, APP, action, &found, &Asked::Answer(3))).reply).1.contains("Notes"));
    }
    assert_eq!(page(&finished(app_action_modal(&x, APP, "eat", &found, &Asked::Answer(3))).reply).0, 404);
    assert_eq!(page(&finished(app_action_modal(&x, APP, "enable", &Asked::Answer(None), &Asked::NotYet)).reply).0, 404);
    let named = Asked::Answer(Some("Notes".to_string()));
    assert!(trigger(enable_app(&c, APP, &named), "/apps").contains("Notes"));
    assert!(trigger(disable_app(&c, APP, &named), "/apps").contains("Notes"));
    assert!(trigger(uninstall_app(&c, APP, &named), "/apps").contains("Notes"));
    assert!(trigger(uninstall_app(&c, APP, &Asked::Answer(None)), "/apps").contains("Action failed"));
    assert!(matches!(
        enable_app(&c, APP, &Asked::NotYet),
        Step::Ask(AppChange::SetStatus { id, enabled: true, status: "enabled" }) if id == APP
    ));
    assert!(matches!(
        disable_app(&c, APP, &Asked::NotYet),
        Step::Ask(AppChange::SetStatus { id, enabled: false, status: "disabled" }) if id == APP
    ));
    assert!(matches!(uninstall_app(&c, APP, &Asked::NotYet), Step::Ask(AppChange::Uninstall(id)) if id == APP));
    assert_eq!(app_status(true), "enabled");
    assert_eq!(app_status(false), "disabled");
}

#[test]
fn resources_are_found_by_id() {
    let s = site();
    let owner = user(1, "Me", InstanceRole::Owner);
    let x = ctx(&s, &owner);
    let c = caller(&s);
    let found_app = Asked::Answer(Some(app()));
    let q = |search: &str, deleted: Option<&str>| ResourcesQuery {
        q: Some(search.to_string()),
        resource_type: Some(" note ".to_string()),
        deleted: deleted.map(str::to_string),
    };
    let id = Uuid { value: 7 };
    match app_resources_page(&x, APP, &q(&format!(" {} ", id.text()), Some("1")), &found_app, &Asked::NotYet, at(0)) {
        Step::Ask(ResourcesAsk::List { app, type_filter, id: asked, include_deleted, limit }) => {
            assert_eq!(app, APP);
            assert_eq!(type_filter.as_deref(), Some("note"));
            assert_eq!(asked, Some(id));
            assert!(include_deleted);
            assert_eq!(limit, RESOURCE_LIST_CAP);
        },
        _ => panic!("no list asked for"),
    }
    let elsewhere = Uuid { value: 99 };
    assert!(matches!(
        app_resources_page(&x, elsewhere, &q("", None), &found_app, &Asked::NotYet, at(0)),
        Step::Ask(ResourcesAsk::List { app, .. }) if app == elsewhere
    ));
    match app_resources_page(&x, APP, &q("", Some("yes")), &found_app, &Asked::NotYet, at(0)) {
        Step::Ask(ResourcesAsk::List { id: asked, include_deleted, .. }) => {
            assert_eq!(asked, None);
            assert!(!include_deleted);
        },
        _ => panic!("no list asked for"),
    }
    let r = finished(app_resources_page(&x, APP, &q("hello", None), &found_app, &Asked::NotYet, at(0))).reply;
    assert_eq!(page(&r).0, 200);
    let found = Asked::Answer(FoundResources { rows: vec![resource()], total: 1 });
    let r = finished(app_resources_page(&x, APP, &q("", None), &found_app, &found, at(0))).reply;
    assert!(page(&r).1.contains(&id.text()) && page(&r).1.contains("2.0 KB"));
    assert!(matches!(app_resources_page(&x, APP, &q("", None), &Asked::NotYet, &Asked::NotYet, at(0)), Step::Ask(ResourcesAsk::App(id)) if id == APP));
    assert_eq!(page(&finished(app_resources_page(&x, APP, &q("", None), &Asked::Answer(None), &Asked::NotYet, at(0))).reply).0, 404);
    assert_eq!(id_search(&None, None), IdSearch::All);
    assert_eq!(id_search(&Some("x".to_string()), None), IdSearch::Invalid);
    assert_eq!(id_search(&Some("x".to_string()), Some(id)), IdSearch::One(id));

    assert!(page(&finished(app_resource_modal(&x, APP, id, &Asked::Answer(Some(resource())))).reply).1.contains(&id.text()));
    assert_eq!(page(&finished(app_resource_modal(&x, APP, id, &Asked::Answer(None))).reply).0, 404);
    let back = format!("/apps/{}/resources", APP.text());
    assert!(!trigger(delete_resource(&c, APP, id, &Asked::Answer(true)), &back).is_empty());
    assert!(trigger(delete_resource(&c, APP, id, &Asked::Answer(false)), &back).contains("Action failed"));
    assert!(matches!(delete_resource(&c, APP, id, &Asked::NotYet), Step::Ask(at) if at == DeleteResource { app: APP, id }));
}

#[test]
fn publishers_are_trusted() {
    let s = site();
    let owner = user(1, "Me", InstanceRole::Owner);
    let x = ctx(&s, &owner);
    let c = caller(&s);
    let p = TrustedPublisherListItem { publisher: "Example".to_string(), public_key: vec![1; 32], added_by_name: None, added_at: at(0) };
    assert!(page(&finished(publishers_page(&x, &Asked::Answer(vec![p]), &at(0))).reply).1.contains("010101010101…010101"));
    let f = |name: &str, key: &str| PublishersAddForm { csrf_token: String::new(), publisher: name.to_string(), public_key: key.to_string() };
    let key = "ab".repeat(32);
    assert!(trigger(add_publisher(&c, &f(" ", &key), &Asked::NotYet), "/apps/publishers").contains("Action failed"));
    assert!(trigger(add_publisher(&c, &f("X", "abc"), &Asked::NotYet), "/apps/publishers").contains("Action failed"));
    match add_publisher(&c, &f(" X ", &key), &Asked::NotYet) {
        Step::Ask(NewPublisher { publisher, key }) => {
            assert_eq!(publisher, "X");
            assert_eq!(key, vec![0xab; 32]);
        },
        _ => panic!("not stored"),
    }
    assert!(trigger(add_publisher(&c, &f("X", &key), &Asked::Answer(())), "/apps/publishers").contains("X"));
    let gone = RemovePublisherForm { csrf_token: String::new(), publisher: "X".to_string() };
    assert!(matches!(remove_publisher(&c, &gone, &Asked::NotYet), Step::Ask(ref p) if p.publisher == gone.publisher));
    assert!(trigger(remove_publisher(&c, &gone, &Asked::Answer(true)), "/apps/publishers").contains("X"));
    assert!(trigger(remove_publisher(&c, &gone, &Asked::Answer(false)), "/apps/publishers").contains("Action failed"));
    let q = RemoveModalQuery { publisher: "A&B".to_string() };
    assert!(page(&remove_publisher_modal(&x, &q)).1.contains("A&amp;B"));
}

fn mail(mode: &str) -> SettingsNotificationsForm {
    SettingsNotificationsForm {
        csrf_token: String::new(),
        mode: mode.to_string(),
        smtp_host: " mail.example.org ".to_string(),
        smtp_port: " 587 ".to_string(),
        smtp_tls: "starttls".to_string(),
        smtp_username: "u".to_string(),
        smtp_password: " p ".to_string(),
        smtp_from_email: "from@example.org".to_string(),
        smtp_from_name: "  ".to_string(),
    }
}

fn told(form: SettingsNotificationsForm) -> String {
    let s = site();
    let c = caller(&s);
    let a = MailAnswers { password_stored: Some(false), stored: Asked::NotYet };
    trigger(settings_notifications_submit(&c, &form, &a), "/settings")
}

#[test]
fn mail_settings_are_checked() {
    let s = site();
    let c = caller(&s);
    let mut a = MailAnswers { password_stored: None, stored: Asked::NotYet };
    assert!(matches!(
        settings_notifications_submit(&c, &mail(" log "), &a),
        Step::Ask(MailAsk::Store { ref mode, smtp: None }) if mode == "log"
    ));
    assert!(told(mail("carrier pigeon")).contains("Choose a valid delivery mode."));
    assert!(told(SettingsNotificationsForm { smtp_host: " ".to_string(), ..mail("smtp") }).contains("Fill in the SMTP host"));
    assert!(told(SettingsNotificationsForm { smtp_tls: "tls".to_string(), ..mail("smtp") }).contains("Choose a valid encryption mode."));
    for port in ["0", "65536", "", "x", "-1"] {
        assert!(told(SettingsNotificationsForm { smtp_port: port.to_string(), ..mail("smtp") }).contains("Port must be a number"));
    }
    assert!(told(SettingsNotificationsForm { smtp_password: String::new(), ..mail("smtp") }).contains("Set an SMTP password — none is stored yet."));
    match settings_notifications_submit(&c, &mail("smtp"), &a) {
        Step::Ask(MailAsk::Store { mode, smtp: Some(i) }) => {
            assert_eq!(mode, "smtp");
            assert_eq!((i.host.as_str(), i.port, i.tls.as_str()), ("mail.example.org", 587, "starttls"));
            assert_eq!(i.from_name, None);
            assert_eq!(i.password.as_deref(), Some(" p "));
        },
        _ => panic!("not stored"),
    }
    let blank = SettingsNotificationsForm { smtp_password: String::new(), ..mail("smtp") };
    assert!(matches!(settings_notifications_submit(&c, &blank, &a), Step::Ask(MailAsk::PasswordStored)));
    a.password_stored = Some(true);
    assert!(matches!(settings_notifications_submit(&c, &blank, &a), Step::Ask(MailAsk::Store { smtp: Some(ref i), .. }) if i.password.is_none()));
    a.stored = Asked::Answer(());
    assert!(trigger(settings_notifications_submit(&c, &mail("smtp"), &a), "/settings").contains("Email settings updated."));
    a.stored = Asked::Failed;
    assert_eq!(page(&finished(settings_notifications_submit(&c, &mail("smtp"), &a)).reply).0, 500);
}

#[test]
fn the_instance_is_named() {
    let s = site();
    let c = caller(&s);
    let f = |n: &str| SettingsIdentityForm { csrf_token: String::new(), instance_name: n.to_string() };
    let long = "é".repeat(65);
    assert!(trigger(settings_identity_submit(&c, &f(&long), &Asked::NotYet), "/settings").contains("too long"));
    let fits = format!("  {}  ", "é".repeat(64));
    assert!(matches!(settings_identity_submit(&c, &f(&fits), &Asked::NotYet), Step::Ask(RenameInstance { name: Some(ref n) }) if n.chars().count() == 64));
    assert!(matches!(settings_identity_submit(&c, &f("  "), &Asked::NotYet), Step::Ask(RenameInstance { name: None })));
    assert!(trigger(settings_identity_submit(&c, &f("x"), &Asked::Answer(())), "/settings").contains("Instance name updated."));
}

#[test]
fn the_settings_page_tests_and_shuts_down() {
    let s = site();
    let owner = user(1, "Me", InstanceRole::Owner);
    let x = ctx(&s, &owner);
    let mut c = caller(&s);
    let found = Asked::Answer(InstanceSettings { notifications: NotificationsConfig::Log, smtp_password_set: false, recovery_created_at: None });
    assert_eq!(page(&finished(settings_page(&x, &found)).reply).0, 200);
    assert!(matches!(settings_page(&x, &Asked::NotYet), Step::Ask(Proceed)));
    assert!(matches!(settings_test_email(&c, "me@x.y", &None), Step::Ask(ref t) if t.to == "me@x.y"));
    assert!(trigger(settings_test_email(&c, "me@x.y", &Some(TestEmailOutcome::Sent)), "/settings").contains("Sent a test email to me@x.y."));
    assert!(trigger(settings_test_email(&c, "me@x.y", &Some(TestEmailOutcome::Disabled)), "/settings").contains("Notifications disabled"));
    assert!(trigger(settings_test_email(&c, "me@x.y", &Some(TestEmailOutcome::Failed("boom".to_string()))), "/settings").contains("Test email failed: boom"));
    assert_eq!(page(&settings_shutdown_modal(&x)).0, 200);
    assert!(matches!(settings_shutdown_submit(&c, true, &Asked::NotYet), Step::Ask(Proceed)));
    let r = finished(settings_shutdown_submit(&c, true, &Asked::Answer(()))).reply;
    assert_eq!(r.hx_redirect.as_deref(), Some("/"));
    assert!(r.cookies[0].starts_with("hearth_session=;"));
    assert_eq!(page(&finished(settings_shutdown_submit(&c, true, &Asked::Failed)).reply).0, 500);
    for critical in [None, Some(Uuid { value: 2 })] {
        c.critical = critical;
        assert!(matches!(finished(settings_shutdown_submit(&c, true, &Asked::NotYet)).reply.content, Content::Text { status: 403, .. }));
    }
    c.critical = Some(ME);
    c.sudo = None;
    assert!(matches!(settings_shutdown_submit(&c, true, &Asked::NotYet), Step::Ask(Proceed)));
    c.role = InstanceRole::Admin;
    assert_eq!(page(&finished(settings_shutdown_submit(&c, true, &Asked::NotYet)).reply).0, 403);
}

fn smtp(tls: SmtpTls, password: Option<&str>) -> NotificationsConfig {
    NotificationsConfig::Smtp(SmtpConfig {
        host: "mail.home".to_string(),
        port: 465,
        tls,
        username: "post".to_string(),
        password: password.map(str::to_string),
        from_email: "post@home".to_string(),
        from_name: None,
    })
}

fn shown(notifications: NotificationsConfig, smtp_password_set: bool) -> String {
    let s = site();
    let owner = user(1, "Me", InstanceRole::Owner);
    let found = Asked::Answer(InstanceSettings { notifications, smtp_password_set, recovery_created_at: None });
    page(&finished(settings_page(&ctx(&s, &owner), &found)).reply).1.to_string()
}

#[test]
fn the_mail_password_is_never_shown() {
    let s = site();
    let owner = user(1, "Me", InstanceRole::Owner);
    let x = ctx(&s, &owner);
    let section = |password, set| settings_notifications_section(&x, &smtp(SmtpTls::Implicit, password), set);
    assert_eq!(section(Some("one"), true).as_str(), section(Some("two"), true).as_str());
    assert_ne!(section(Some("one"), true).as_str(), section(Some("one"), false).as_str());
    let one = shown(smtp(SmtpTls::Implicit, Some("hunter2-secret")), true);
    assert_eq!(one, shown(smtp(SmtpTls::Implicit, Some("something else")), true));
    assert_eq!(one, shown(smtp(SmtpTls::Implicit, None), true));
    assert!(!one.contains("hunter2-secret"));
    assert!(one.contains("placeholder=\"Saved — leave blank to keep\""));
    let unset = shown(smtp(SmtpTls::Implicit, None), false);
    assert!(unset.contains("placeholder=\"SMTP password\""));
}

#[test]
fn one_mode_and_one_encryption_are_selected() {
    for (n, mode, tls, hidden) in [
        (NotificationsConfig::Disabled, "disabled", "starttls", true),
        (NotificationsConfig::Log, "log", "starttls", true),
        (smtp(SmtpTls::Starttls, None), "smtp", "starttls", false),
        (smtp(SmtpTls::Implicit, None), "smtp", "implicit", false),
        (smtp(SmtpTls::Unencrypted, None), "smtp", "none", false),
    ] {
        let html = shown(n, false);
        assert_eq!(html.matches(" selected>").count(), 2);
        assert!(html.contains(&format!("<option value=\"{mode}\" selected>")));
        assert!(html.contains(&format!("<option value=\"{tls}\" selected>")));
        assert_eq!(html.contains("<div data-smtp-fields hidden>"), hidden);
    }
}

