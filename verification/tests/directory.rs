use hearth_web::flows::invites::{
    accept_url, invitation_action_modal, invite_form, invite_modal_fragment, invite_submit,
    reissue_invitation, revoke_invitation, InviteAsk, InviteOutcome, IssuedInvite, ReissueOutcome,
    RevokeOutcome,
};
use hearth_web::flows::members::{
    anonymize_member, arrange_members, change_member_role, deactivate_member, delete_member,
    member_action_modal, members_page, members_request,
    reactivate_member, Accounts, LastActivity, LifecycleOutcome, MemberAction, MemberChange, MembersAnswers,
    MembersAsk,
    RoleOutcome,
};
use hearth_web::flows::step::{Asked, Finish, LookUp, Step};
use hearth_web::forms::{InviteForm, MembersPageQuery, RoleChangeForm};
use hearth_web::gate::Caller;
use hearth_web::listing::{MemberFetch, MemberFilter, SortColumn, SortDirection};
use hearth_web::model::{InstanceRole, Invitation, Timestamp, User, UserLifecycle, Uuid};
use hearth_web::reply::{Content, Reply};
use hearth_web::views::members::{available_actions, row_action_for_segment, RowAction};
use hearth_web::views::shell::{ChromeContext, SiteInfo};

const ME: Uuid = Uuid { value: 1 };
const BOB: Uuid = Uuid { value: 2 };

fn to_admin() -> RoleChangeForm {
    RoleChangeForm { csrf_token: String::new(), role: InstanceRole::Admin }
}

fn site() -> SiteInfo {
    SiteInfo { asset_version: "abc".to_string(), release: "1.2.3".to_string() }
}

fn at(secs: i64) -> Timestamp {
    Timestamp::new(secs, 0).unwrap()
}

fn user(n: u128, name: &str, role: InstanceRole) -> User {
    User {
        id: Uuid { value: n },
        email: format!("{name}@example.org"),
        display_name: name.to_string(),
        instance_role: role,
        lifecycle: UserLifecycle::Active,
        created_at: at(n as i64),
    }
}

fn invitation(n: u128) -> Invitation {
    Invitation {
        id: Uuid { value: n },
        email: format!("guest{n}@example.org"),
        instance_role: InstanceRole::Member,
        created_at: at(0),
        expires_at: at(86_400),
    }
}

fn ctx<'a>(site: &'a SiteInfo, user: &'a User) -> ChromeContext<'a> {
    ChromeContext { site, instance_name: "Home", user, csrf_token: "csrf", pending_count: None }
}

fn caller(site: &SiteInfo, role: InstanceRole) -> Caller<'_> {
    Caller { site, user_id: ME, role, csrf_ok: true, sudo: Some(ME), critical: None, htmx: true }
}

fn page(r: &Reply) -> (u16, &str) {
    match &r.content {
        Content::Page { status, html } => (*status, html.as_str()),
        _ => panic!("not a page"),
    }
}

fn finished<Q>(s: Step<Q>) -> Finish {
    match s {
        Step::Finish(f) => f,
        Step::Ask(_) => panic!("a question"),
    }
}

#[test]
fn the_directory_is_for_admins() {
    let s = site();
    let q = MembersPageQuery { filter: Some("nonsense".to_string()), sort: Some("name".to_string()), dir: Some("desc".to_string()), ..Default::default() };
    match members_request(&s, InstanceRole::Member, &q) {
        Err(r) => assert_eq!(page(&r).0, 403),
        Ok(_) => panic!("let in"),
    }
    match members_request(&s, InstanceRole::Admin, &q) {
        Ok(request) => {
            assert_eq!(request.filter, MemberFilter::All);
            assert_eq!((request.sort.column, request.sort.direction), (SortColumn::Name, SortDirection::Desc));
            assert_eq!(request.accounts, MemberFetch::Listed);
            assert!(request.invitations);
        },
        Err(_) => panic!("refused"),
    }
}

#[test]
fn the_directory_lists_accounts_and_then_invitations() {
    let s = site();
    let me = user(1, "Me", InstanceRole::Owner);
    let q = MembersPageQuery { page: Some(2), rows: Some(10), ..Default::default() };
    let x = ctx(&s, &me);
    let now = at(34_600_000);
    let mut a = MembersAnswers {
        accounts: Accounts::NotYet,
        invitations: Asked::NotYet,
        activity: Asked::NotYet,
        pending: None,
    };
    assert!(matches!(members_page(&x, &q, &mut a, &now), Step::Ask(MembersAsk::Accounts(MemberFetch::Listed))));
    a.accounts = Accounts::Listed((1..=12).map(|n| user(n, &format!("User{n:02}"), InstanceRole::Member)).collect());
    assert!(matches!(members_page(&x, &q, &mut a, &now), Step::Ask(MembersAsk::Invitations)));
    assert!(matches!(a.accounts, Accounts::Arranged(ref m) if m.len() == 12));
    a.invitations = Asked::Answer((20..25).map(invitation).collect());
    match members_page(&x, &q, &mut a, &now) {
        Step::Ask(MembersAsk::Activity(ids)) => {
            assert_eq!(ids, (1..=12).map(|value| Uuid { value }).collect::<Vec<Uuid>>());
        },
        _ => panic!("no activity"),
    }
    a.activity = Asked::Answer(vec![LastActivity { user_id: Uuid { value: 11 }, at: at(34_560_000) }]);
    let shown = |q: &MembersPageQuery, a: &mut MembersAnswers| match members_page(&x, q, a, &now) {
        Step::Ask(MembersAsk::Pending(ids)) => ids,
        _ => panic!("no question"),
    };
    assert_eq!(shown(&q, &mut a), vec![Uuid { value: 11 }, Uuid { value: 12 }]);
    let beyond = MembersPageQuery { page: Some(99), rows: Some(10), ..Default::default() };
    assert_eq!(shown(&beyond, &mut a), vec![Uuid { value: 11 }, Uuid { value: 12 }]);
    assert_eq!(shown(&MembersPageQuery::default(), &mut a).len(), 10);
    a.pending = Some(Vec::new());
    let done = finished(members_page(&x, &q, &mut a, &now));
    let html = page(&done.reply).1;
    assert!(html.contains("User11") && html.contains("User12") && html.contains("guest24@example.org"));
    assert!(!html.contains("User10"));
    assert!(html.contains("Feb 5, 1971"));
    a.activity = Asked::Failed;
    assert_eq!(page(&finished(members_page(&x, &q, &mut a, &now)).reply).0, 500);
    a.invitations = Asked::Failed;
    assert_eq!(page(&finished(members_page(&x, &q, &mut a, &now)).reply).0, 500);
    a.accounts = Accounts::Failed;
    assert_eq!(page(&finished(members_page(&x, &q, &mut a, &now)).reply).0, 500);
    let low = user(1, "Me", InstanceRole::Member);
    assert_eq!(page(&finished(members_page(&ctx(&s, &low), &q, &mut a, &now)).reply).0, 403);
}

#[test]
fn only_invitations_are_listed_as_pending() {
    let s = site();
    let me = user(1, "Me", InstanceRole::Admin);
    let q = MembersPageQuery {
        filter: Some(MemberFilter::Status(UserLifecycle::PendingInvite).as_str().to_string()),
        ..Default::default()
    };
    let mut a = MembersAnswers {
        accounts: Accounts::NotYet,
        invitations: Asked::NotYet,
        activity: Asked::NotYet,
        pending: None,
    };
    assert!(matches!(members_page(&ctx(&s, &me), &q, &mut a, &at(0)), Step::Ask(MembersAsk::Invitations)));
}

#[test]
fn a_role_filter_keeps_its_role() {
    let s = site();
    let q = MembersPageQuery { filter: Some(MemberFilter::Role(InstanceRole::Admin).as_str().to_string()), ..Default::default() };
    let request = members_request(&s, InstanceRole::Owner, &q).ok().unwrap();
    assert!(!request.invitations);
    let users = vec![user(1, "a", InstanceRole::Member), user(2, "b", InstanceRole::Admin), user(3, "c", InstanceRole::Owner)];
    let ids: Vec<u128> = arrange_members(users, request).iter().map(|u| u.id.value).collect();
    assert_eq!(ids, vec![2]);
}

#[test]
fn member_actions_are_gated() {
    let s = site();
    let mut c = caller(&s, InstanceRole::Member);
    assert_eq!(page(&finished(deactivate_member(&c, BOB, &None)).reply).0, 403);
    c.role = InstanceRole::Admin;
    c.csrf_ok = false;
    assert!(page(&finished(deactivate_member(&c, BOB, &None)).reply).1.contains("Invalid form token."));
    c.csrf_ok = true;
    c.sudo = Some(Uuid { value: 2 });
    assert!(matches!(finished(deactivate_member(&c, BOB, &None)).reply.content, Content::Text { status: 403, .. }));
    c.sudo = Some(ME);
    assert!(matches!(deactivate_member(&c, BOB, &None), Step::Ask(MemberAction { by: ME, change: MemberChange::Deactivate(id) }) if id == BOB));
    assert!(matches!(reactivate_member(&c, BOB, &None), Step::Ask(MemberAction { by: ME, change: MemberChange::Reactivate(id) }) if id == BOB));
    assert!(matches!(anonymize_member(&c, BOB, &None), Step::Ask(MemberAction { by: ME, change: MemberChange::Anonymize(id) }) if id == BOB));
    assert!(matches!(delete_member(&c, BOB, &None), Step::Ask(MemberAction { by: ME, change: MemberChange::Delete(id) }) if id == BOB));
}

fn trigger<Q>(s: Step<Q>) -> String {
    let r = finished(s).reply;
    assert_eq!(r.hx_redirect.as_deref(), Some("/members"));
    r.hx_trigger.unwrap_or_default()
}

#[test]
fn member_actions_report_back() {
    let s = site();
    let c = caller(&s, InstanceRole::Owner);
    let applied = || Some(LifecycleOutcome::Applied { name: "Bob".to_string() });
    assert!(trigger(deactivate_member(&c, BOB, &applied())).contains("Bob can no longer sign in."));
    assert!(trigger(reactivate_member(&c, BOB, &applied())).contains("Bob"));
    assert!(trigger(anonymize_member(&c, BOB, &applied())).contains("Bob"));
    assert!(trigger(delete_member(&c, BOB, &applied())).contains("Bob"));
    for o in [deactivate_member(&c, BOB, &Some(LifecycleOutcome::Pending)), anonymize_member(&c, BOB, &Some(LifecycleOutcome::Pending)), delete_member(&c, BOB, &Some(LifecycleOutcome::Pending))] {
        assert!(!trigger(o).is_empty());
    }
    let conflict = LifecycleOutcome::Conflict("already_deactivated".to_string());
    for o in [
        LifecycleOutcome::NotFound,
        LifecycleOutcome::SelfTarget,
        LifecycleOutcome::PeerOrHigher,
        conflict,
        LifecycleOutcome::InvalidRecoveryCode,
        LifecycleOutcome::PendingActionExists,
    ] {
        assert!(trigger(delete_member(&c, BOB, &Some(o))).contains("Action failed"));
    }
    assert_eq!(page(&finished(delete_member(&c, BOB, &Some(LifecycleOutcome::Failed))).reply).0, 500);
    assert!(trigger(change_member_role(&c, BOB, &to_admin(), &Some(RoleOutcome::Applied { name: "Bob".to_string() }))).contains("Bob"));
    assert!(!trigger(change_member_role(&c, BOB, &to_admin(), &Some(RoleOutcome::Pending))).is_empty());
    for o in [
        RoleOutcome::Forbidden,
        RoleOutcome::NotFound,
        RoleOutcome::SelfTarget,
        RoleOutcome::NotActive,
        RoleOutcome::AlreadyInRole,
        RoleOutcome::InvalidRecoveryCode,
        RoleOutcome::PendingActionExists,
    ] {
        assert!(trigger(change_member_role(&c, BOB, &to_admin(), &Some(o))).contains("Action failed"));
    }
    assert_eq!(page(&finished(change_member_role(&c, BOB, &to_admin(), &Some(RoleOutcome::Failed))).reply).0, 500);
    assert!(matches!(
        change_member_role(&c, BOB, &to_admin(), &None),
        Step::Ask(MemberAction { by: ME, change: MemberChange::SetRole { target, role: InstanceRole::Admin } }) if target == BOB
    ));
}

#[test]
fn rows_offer_what_the_rank_allows() {
    assert_eq!(
        available_actions(InstanceRole::Owner, InstanceRole::Owner, UserLifecycle::Active, false),
        vec![RowAction::Deactivate, RowAction::ChangeRole, RowAction::Anonymize, RowAction::Delete]
    );
    assert_eq!(
        available_actions(InstanceRole::Admin, InstanceRole::Member, UserLifecycle::Deactivated, false),
        vec![RowAction::Reactivate, RowAction::Anonymize, RowAction::Delete]
    );
    assert!(available_actions(InstanceRole::Admin, InstanceRole::Admin, UserLifecycle::Active, false).is_empty());
    assert!(available_actions(InstanceRole::Member, InstanceRole::Member, UserLifecycle::Active, true).is_empty());
    assert!(available_actions(InstanceRole::Owner, InstanceRole::Member, UserLifecycle::Anonymized, false).is_empty());
    assert_eq!(row_action_for_segment("role-owner-confirm"), Some(RowAction::ChangeRole));
    assert_eq!(row_action_for_segment("purge"), None);
}

#[test]
fn dialogs_are_handed_out_by_rank() {
    let s = site();
    let me = user(1, "Me", InstanceRole::Admin);
    let x = ctx(&s, &me);
    let target = Uuid { value: 2 };
    assert_eq!(page(&finished(member_action_modal(&x, target, "fly", &Asked::NotYet)).reply).0, 404);
    assert!(matches!(member_action_modal(&x, target, "delete", &Asked::NotYet), Step::Ask(LookUp { id }) if id == target));
    assert_eq!(page(&finished(member_action_modal(&x, target, "delete", &Asked::Answer(None))).reply).0, 404);
    let bob = Asked::Answer(Some(user(2, "Bob", InstanceRole::Member)));
    assert!(page(&finished(member_action_modal(&x, target, "delete", &bob)).reply).1.contains("Bob"));
    let r = finished(member_action_modal(&x, target, "role", &bob)).reply;
    assert!(page(&r).1.contains("You can't perform that action on this member."));
    let mine = Asked::Answer(Some(user(1, "Me", InstanceRole::Admin)));
    let r = finished(member_action_modal(&x, ME, "delete", &mine)).reply;
    assert!(page(&r).1.contains("You can't target yourself."));
    let low = user(3, "Low", InstanceRole::Member);
    let r = finished(member_action_modal(&ctx(&s, &low), target, "delete", &bob)).reply;
    assert!(page(&r).1.contains("Admins only."));
    assert_eq!(page(&finished(member_action_modal(&x, target, "delete", &Asked::Failed)).reply).0, 500);
}

fn issued() -> IssuedInvite {
    IssuedInvite { email: "new@example.org".to_string(), role: InstanceRole::Admin, raw_token: "RAW".to_string(), expires_at: at(0) }
}

#[test]
fn invitations_are_made() {
    let s = site();
    let me = user(1, "Me", InstanceRole::Admin);
    let x = ctx(&s, &me);
    let mut c = caller(&s, InstanceRole::Admin);
    let f = InviteForm { csrf_token: String::new(), email: "new@example.org".to_string(), role: InstanceRole::Admin };
    assert_eq!(accept_url("https://h.example", "RAW"), "https://h.example/invite/RAW");
    assert!(matches!(
        invite_submit(&c, &x, "https://h", &f, &None),
        Step::Ask(InviteAsk::Create { by: ME, ref email, role }) if *email == f.email && role == f.role
    ));
    let done = finished(invite_submit(&c, &x, "https://h", &f, &Some(InviteOutcome::Created(issued()))));
    assert_eq!(done.reply.hx_retarget.as_deref(), Some("#invite-modal-content"));
    assert_eq!(done.reply.hx_trigger.as_deref(), Some("switch-to-invite-modal, invite-success"));
    assert!(page(&done.reply).1.contains("https://h/invite/RAW"));
    for o in [InviteOutcome::EmailRequired, InviteOutcome::CannotInviteHigherRole, InviteOutcome::EmailAlreadyInUse, InviteOutcome::ActiveInviteExists] {
        let done = finished(invite_submit(&c, &x, "https://h", &f, &Some(o)));
        assert_eq!(done.reply.hx_trigger.as_deref(), Some("switch-to-invite-modal"));
        assert!(page(&done.reply).1.contains("new@example.org"));
    }
    assert_eq!(page(&finished(invite_submit(&c, &x, "https://h", &f, &Some(InviteOutcome::Failed))).reply).0, 500);
    c.htmx = false;
    let done = finished(invite_submit(&c, &x, "https://h", &f, &Some(InviteOutcome::Created(issued()))));
    assert!(page(&done.reply).1.starts_with("<!DOCTYPE html>"));
    assert_eq!(done.reply.hx_trigger, None);
    let done = finished(invite_submit(&c, &x, "https://h", &f, &Some(InviteOutcome::EmailRequired)));
    assert!(page(&done.reply).1.starts_with("<!DOCTYPE html>"));
    c.sudo = None;
    assert!(matches!(finished(invite_submit(&c, &x, "https://h", &f, &None)).reply.content, Content::Text { status: 403, .. }));
    assert!(page(&invite_form(&x, false)).1.starts_with("<!DOCTYPE html>"));
    assert!(!page(&invite_form(&x, true)).1.starts_with("<!DOCTYPE html>"));
    assert_eq!(page(&invite_modal_fragment(&x)).0, 200);
    let low = user(3, "Low", InstanceRole::Member);
    assert_eq!(page(&invite_form(&ctx(&s, &low), true)).0, 403);
    assert_eq!(page(&invite_modal_fragment(&ctx(&s, &low))).0, 403);
}

#[test]
fn invitations_are_revoked_and_renewed() {
    let s = site();
    let me = user(1, "Me", InstanceRole::Admin);
    let x = ctx(&s, &me);
    let c = caller(&s, InstanceRole::Admin);
    assert!(matches!(revoke_invitation(&c, BOB, None), Step::Ask(InviteAsk::Revoke { by: ME, id }) if id == BOB));
    assert!(trigger(revoke_invitation(&c, BOB, Some(RevokeOutcome::Revoked))).contains("hearth-toast"));
    assert!(trigger(revoke_invitation(&c, BOB, Some(RevokeOutcome::NotFound))).contains("Action failed"));
    assert!(trigger(revoke_invitation(&c, BOB, Some(RevokeOutcome::AlreadyAccepted))).contains("Action failed"));
    assert_eq!(page(&finished(revoke_invitation(&c, BOB, Some(RevokeOutcome::Failed))).reply).0, 500);
    assert!(matches!(reissue_invitation(&c, &x, BOB, "https://h", &None), Step::Ask(InviteAsk::Reissue { by: ME, id }) if id == BOB));
    let done = finished(reissue_invitation(&c, &x, BOB, "https://h", &Some(ReissueOutcome::Reissued(issued()))));
    assert!(page(&done.reply).1.contains("https://h/invite/RAW"));
    let gone = trigger(reissue_invitation(&c, &x, BOB, "https://h", &Some(ReissueOutcome::NotFound)));
    assert_eq!(gone, trigger(reissue_invitation(&c, &x, BOB, "https://h", &Some(ReissueOutcome::AlreadyRevoked))));
    assert_ne!(gone, trigger(reissue_invitation(&c, &x, BOB, "https://h", &Some(ReissueOutcome::Expired))));
    assert_ne!(gone, trigger(reissue_invitation(&c, &x, BOB, "https://h", &Some(ReissueOutcome::AlreadyAccepted))));
    assert_eq!(page(&finished(reissue_invitation(&c, &x, BOB, "https://h", &Some(ReissueOutcome::Failed))).reply).0, 500);
    let id = Uuid { value: 20 };
    assert!(matches!(invitation_action_modal(&x, id, "revoke", &Asked::NotYet), Step::Ask(LookUp { id: asked }) if asked == id));
    let found = Asked::Answer(Some(invitation(20)));
    let dialog = finished(invitation_action_modal(&x, id, "revoke", &found)).reply;
    assert!(page(&dialog).1.contains("guest20@example.org"));
    assert!(page(&dialog).1.contains("dialog-icon-warning") && !page(&dialog).1.contains("dialog-icon-shield"));
    assert!(page(&finished(invitation_action_modal(&x, id, "reissue", &found)).reply).1.contains("guest20@example.org"));
    assert_eq!(page(&finished(invitation_action_modal(&x, id, "eat", &found)).reply).0, 404);
    assert_eq!(page(&finished(invitation_action_modal(&x, id, "revoke", &Asked::Answer(None))).reply).0, 404);
}
