use hearth_web::flows::invitation::{accept_invite_form, accept_invite_submit, AcceptAsk, AcceptOutcome};
use hearth_web::flows::recovery::{
    recover_page, recover_reset_page, recover_reset_submit, recover_submit, Candidate,
    RecoverAnswers, RecoverAsk, ResetAnswers, ResetAsk, ResetDone, RECOVER_GENERIC_ERROR,
};
use hearth_web::flows::step::{Asked, Finish, Step};
use hearth_web::forms::{AcceptInviteForm, RecoverForm, RecoverResetForm};
use hearth_web::model::{InstanceRole, Invitation, Timestamp, UserLifecycle, Uuid};
use hearth_web::reply::{Content, Reply};
use hearth_web::views::shell::SiteInfo;

const USER: Uuid = Uuid { value: 42 };

fn site() -> SiteInfo {
    SiteInfo { asset_version: "abc".to_string(), release: "1.2.3".to_string() }
}

fn page(r: &Reply) -> (u16, &str) {
    match &r.content {
        Content::Page { status, html } => (*status, html.as_str()),
        _ => panic!("not a page"),
    }
}

fn location(r: &Reply) -> &str {
    match &r.content {
        Content::Redirect { to } => to,
        _ => panic!("not a redirect"),
    }
}

fn finished<Q>(s: Step<Q>) -> Finish {
    match s {
        Step::Finish(f) => f,
        Step::Ask(_) => panic!("a question"),
    }
}

fn form() -> RecoverForm {
    RecoverForm { email: " ada@example.org ".to_string(), recovery_code: " code ".to_string() }
}

fn answers() -> RecoverAnswers {
    RecoverAnswers {
        allowed: Some(true),
        candidate: Asked::NotYet,
        verified: Asked::NotYet,
        reset_token: None,
    }
}

#[test]
fn recovery_asks_for_trimmed_fields() {
    let s = site();
    let f = form();
    let mut a = answers();
    assert_eq!(page(&recover_page(&s)).0, 200);
    assert!(matches!(recover_submit(&s, false, &f, "10.0.0.1", &a), Step::Ask(RecoverAsk::FindByEmail(ref e)) if e == "ada@example.org"));
    a.candidate = Asked::Answer(Some(Candidate { id: USER, lifecycle: UserLifecycle::Active }));
    assert!(matches!(
        recover_submit(&s, false, &f, "10.0.0.1", &a),
        Step::Ask(RecoverAsk::VerifyCode { user, ref code }) if user == USER && code == "code"
    ));
    a.verified = Asked::Answer(true);
    assert!(matches!(recover_submit(&s, false, &f, "10.0.0.1", &a), Step::Ask(RecoverAsk::ResetToken(u)) if u == USER));
    a.reset_token = Some("r".to_string());
    let done = finished(recover_submit(&s, false, &f, "10.0.0.1", &a));
    assert_eq!(location(&done.reply), "/recover/reset");
    assert_eq!(done.reply.cookies, vec!["hearth_recovery=r; Path=/; Max-Age=600; HttpOnly; SameSite=Lax".to_string()]);
}

#[test]
fn refused_recoveries_look_alike() {
    let s = site();
    let f = form();
    let unknown = RecoverAnswers { candidate: Asked::Answer(None), ..answers() };
    let inactive = RecoverAnswers {
        candidate: Asked::Answer(Some(Candidate { id: USER, lifecycle: UserLifecycle::Deactivated })),
        ..answers()
    };
    let wrong = RecoverAnswers {
        candidate: Asked::Answer(Some(Candidate { id: USER, lifecycle: UserLifecycle::Active })),
        verified: Asked::Answer(false),
        ..answers()
    };
    let mut pages: Vec<String> = Vec::new();
    for a in [&unknown, &inactive, &wrong] {
        let done = finished(recover_submit(&s, false, &f, "10.0.0.1", a));
        assert_eq!(done.record_failure.as_deref(), Some("recover:10.0.0.1"));
        let (status, html) = page(&done.reply);
        assert_eq!(status, 200);
        assert!(html.contains(RECOVER_GENERIC_ERROR));
        pages.push(html.to_string());
    }
    assert_eq!(pages[0], pages[1]);
    assert_eq!(pages[1], pages[2]);
    let entry = finished(recover_submit(&s, false, &f, "10.0.0.1", &unknown)).audit.unwrap();
    assert_eq!(entry.event_type, "recovery_failed");
    assert_eq!(entry.data.len(), 2);
    assert!(finished(recover_submit(&s, false, &f, "10.0.0.1", &wrong)).audit.is_none());
    let throttled = RecoverAnswers { allowed: Some(false), ..answers() };
    assert_eq!(page(&finished(recover_submit(&s, false, &f, "10.0.0.1", &throttled)).reply).0, 429);
    let failed = RecoverAnswers { candidate: Asked::Failed, ..answers() };
    assert_eq!(page(&finished(recover_submit(&s, false, &f, "10.0.0.1", &failed)).reply).0, 500);
}

#[test]
fn a_new_password_is_set_once() {
    let s = site();
    let mut a = ResetAnswers { user_found: Asked::NotYet, hashed: Asked::NotYet, applied: Asked::NotYet };
    let reset = |new: &str, again: &str| RecoverResetForm {
        new_password: new.to_string(),
        confirm_password: again.to_string(),
    };
    let f = reset("secret ", "secret ");
    assert_eq!(location(&recover_reset_page(&s, None)), "/recover");
    assert_eq!(page(&recover_reset_page(&s, Some(USER))).0, 200);
    assert_eq!(location(&finished(recover_reset_submit(&s, false, &f, None, &a)).reply), "/recover");
    let done = finished(recover_reset_submit(&s, false, &reset("", ""), Some(USER), &a));
    assert!(page(&done.reply).1.contains("Enter a new password."));
    let done = finished(recover_reset_submit(&s, false, &reset("a", "a "), Some(USER), &a));
    assert!(page(&done.reply).1.contains("Those passwords don't match."));
    assert!(matches!(recover_reset_submit(&s, false, &f, Some(USER), &a), Step::Ask(ResetAsk::User(u)) if u == USER));
    a.user_found = Asked::Answer(false);
    assert_eq!(location(&finished(recover_reset_submit(&s, false, &f, Some(USER), &a)).reply), "/recover");
    a.user_found = Asked::Answer(true);
    assert!(matches!(recover_reset_submit(&s, false, &f, Some(USER), &a), Step::Ask(ResetAsk::Hash(ref p)) if p == "secret "));
    a.hashed = Asked::Answer("phc".to_string());
    assert!(matches!(recover_reset_submit(&s, false, &f, Some(USER), &a), Step::Ask(ResetAsk::Apply { user, ref hash }) if user == USER && hash == "phc"));
    a.applied = Asked::Answer(ResetDone { session_token: "t".to_string(), recovery_code: "NEW-CODE".to_string() });
    let done = finished(recover_reset_submit(&s, false, &f, Some(USER), &a));
    assert!(page(&done.reply).1.contains("NEW-CODE"));
    assert_eq!(done.reply.cookies.len(), 2);
    assert!(done.reply.cookies[0].starts_with("hearth_session=t;"));
    assert!(done.reply.cookies[1].starts_with("hearth_recovery=;"));
}

fn invitation() -> Invitation {
    Invitation {
        id: Uuid { value: 7 },
        email: "new@example.org".to_string(),
        instance_role: InstanceRole::Admin,
        created_at: Timestamp::new(0, 0).unwrap(),
        expires_at: Timestamp::new(1, 0).unwrap(),
    }
}

#[test]
fn invitations_are_accepted() {
    let s = site();
    assert!(matches!(
        accept_invite_form(&s, "tok", &Asked::NotYet),
        Step::Ask(AcceptAsk::Invitation(ref t)) if t == "tok"
    ));
    let done = finished(accept_invite_form(&s, "tok", &Asked::Answer(Some(invitation()))));
    let (status, html) = page(&done.reply);
    assert_eq!(status, 200);
    assert!(html.contains("new@example.org"));
    assert_eq!(page(&finished(accept_invite_form(&s, "tok", &Asked::Answer(None))).reply).0, 404);
    assert_eq!(page(&finished(accept_invite_form(&s, "tok", &Asked::Failed)).reply).0, 500);

    let f = AcceptInviteForm { display_name: "  Ada  ".to_string(), password: "pw".to_string() };
    match accept_invite_submit(&s, false, "tok", &f, &None, &Asked::NotYet) {
        Step::Ask(AcceptAsk::Accept { token, display_name, password }) => {
            assert_eq!((token.as_str(), display_name.as_str(), password.as_str()), ("tok", "  Ada  ", "pw"));
        },
        _ => panic!("no account asked for"),
    }
    let ok = Some(AcceptOutcome::Accepted { session_token: "t".to_string(), recovery_code: "CODE-1".to_string() });
    let r = finished(accept_invite_submit(&s, false, "tok", &f, &ok, &Asked::NotYet)).reply;
    assert!(page(&r).1.contains("CODE-1"));
    assert_eq!(r.cookies, vec!["hearth_session=t; Path=/; HttpOnly; SameSite=Lax".to_string()]);
    let dead = Some(AcceptOutcome::InvalidOrExpiredToken);
    assert_eq!(page(&finished(accept_invite_submit(&s, false, "tok", &f, &dead, &Asked::NotYet)).reply).0, 404);
    let failed = Some(AcceptOutcome::Failed);
    assert_eq!(page(&finished(accept_invite_submit(&s, false, "tok", &f, &failed, &Asked::NotYet)).reply).0, 500);
    for o in [Some(AcceptOutcome::PasswordRequired), Some(AcceptOutcome::DisplayNameRequired)] {
        assert!(matches!(
            accept_invite_submit(&s, false, "tok", &f, &o, &Asked::NotYet),
            Step::Ask(AcceptAsk::Invitation(ref t)) if t == "tok"
        ));
        let again = Asked::Answer(Some(invitation()));
        let done = finished(accept_invite_submit(&s, false, "tok", &f, &o, &again));
        let (status, html) = page(&done.reply);
        assert_eq!(status, 200);
        assert!(html.contains("value=\"Ada\""));
        let done = finished(accept_invite_submit(&s, false, "tok", &f, &o, &Asked::Answer(None)));
        assert_eq!(page(&done.reply).0, 404);
        let done = finished(accept_invite_submit(&s, false, "tok", &f, &o, &Asked::Failed));
        assert_eq!(page(&done.reply).0, 500);
    }
}
