//! The signed-in devices of a user.

use vstd::prelude::*;
use crate::audit;
use crate::audit::AuditEntry;
use crate::flows::step;
use crate::flows::step::{Asked, Step};
use crate::forms;
use crate::forms::SessionRenameForm;
use crate::gate;
use crate::gate::{Caller, Floor};
use crate::listing;
use crate::model;
use crate::model::{Session, Timestamp, Uuid};
use crate::reply;
use crate::reply::Reply;
use crate::text;
use crate::views::security;
use crate::views::security::SectionMode;
use crate::views::shell::ChromeContext;

verus! {

/// Whether a session still counts: neither revoked nor expired.
pub open spec fn is_active(s: Session, now: model::Instant) -> bool {
    s.revoked_at is None && model::before(now, s.expires_at@)
}

/// Keeps the sessions that still count, in their order.
pub fn active_sessions(sessions: Vec<Session>, now: &Timestamp) -> (r: Vec<Session>)
    ensures
        r@ == sessions@.filter(|s: Session| is_active(s, now@)),
{
    let mut rest = sessions;
    let mut back: Vec<Session> = Vec::new();
    let ghost keep = |s: Session| is_active(s, now@);
    let ghost all = rest@;
    proof {
        assert(all.skip(all.len() as int) =~= Seq::empty());
        reveal(Seq::filter);
    }
    while rest.len() > 0
        invariant
            rest@.len() <= all.len(),
            rest@ == all.take(rest@.len() as int),
            back@.reverse() == all.skip(rest@.len() as int).filter(keep),
            keep == (|s: Session| is_active(s, now@)),
        decreases rest@.len(),
    {
        let ghost n = rest@.len() as int;
        let s = rest.pop().unwrap();
        let ghost tail = all.skip(n);
        proof {
            assert(all.skip(n - 1) =~= seq![s] + tail);
            Seq::filter_distributes_over_add(seq![s], tail, keep);
            listing::lemma_filter_one(s, keep);
        }
        let active: bool = s.revoked_at.is_none() && now.is_before(&s.expires_at);
        if active {
            let ghost prev = back@;
            back.push(s);
            assert(back@.reverse() =~= seq![s] + prev.reverse());
        } else {
            assert(seq![s].filter(keep) + tail.filter(keep) =~= tail.filter(keep));
        }
    }
    assert(all.skip(0) =~= all);
    listing::reverse(back)
}

/// The list of devices as it stands.
pub open spec fn devices(
    ctx: &ChromeContext,
    sessions: Seq<Session>,
    current: Uuid,
    now: &Timestamp,
    mode: SectionMode,
) -> reply::ReplyView {
    reply::ok_page(
        security::sessions_section_html(
            ctx,
            sessions.filter(|s: Session| is_active(s, now@)),
            current,
            now,
            mode,
            false,
        ),
    )
}

/// `GET /me/sessions/section` and `GET /me/sessions/{id}/edit`: the list of devices, of the
/// sessions in the store, which are none where they could not be looked up.
pub fn sessions_section_response(
    ctx: &ChromeContext,
    sessions: Option<Vec<Session>>,
    current: Uuid,
    now: &Timestamp,
    mode: SectionMode,
) -> (r: Reply)
    ensures
        r@ == devices(ctx, listing::or_none(sessions), current, now, mode),
{
    let active = active_sessions(listing::or_empty(sessions), now);
    Reply::ok_page(
        security::sessions_section(ctx, active.as_slice(), current, now, mode, false),
    )
}

/// What an action on devices asks for; `user` is the caller.
pub enum DeviceAsk {
    /// Whose session this is.
    Owner(Uuid),
    /// To give a session of the caller a nickname, or to take it away.
    SetLabel { user: Uuid, session: Uuid, label: Option<String> },
    /// To end a session of the caller, who came with the session `current`.
    Revoke { user: Uuid, session: Uuid, current: Uuid },
    /// To end every session of the caller but this one.
    RevokeOthers { user: Uuid, keep: Uuid },
    /// The sessions of the caller now.
    List(Uuid),
}

pub enum DeviceAskView {
    Owner(Uuid),
    SetLabel { user: Uuid, session: Uuid, label: Option<Seq<char>> },
    Revoke { user: Uuid, session: Uuid, current: Uuid },
    RevokeOthers { user: Uuid, keep: Uuid },
    List(Uuid),
}

impl View for DeviceAsk {
    type V = DeviceAskView;

    open spec fn view(&self) -> DeviceAskView {
        match *self {
            DeviceAsk::Owner(session) => DeviceAskView::Owner(session),
            DeviceAsk::SetLabel { user, session, label } => DeviceAskView::SetLabel {
                user,
                session,
                label: text::opt_string(label),
            },
            DeviceAsk::Revoke { user, session, current } => DeviceAskView::Revoke {
                user,
                session,
                current,
            },
            DeviceAsk::RevokeOthers { user, keep } => DeviceAskView::RevokeOthers { user, keep },
            DeviceAsk::List(user) => DeviceAskView::List(user),
        }
    }
}

impl DeviceAskView {
    /// What is logged with the action, both or neither; `ended` is how many sessions it ended.
    pub open spec fn entry(self, ended: u64) -> Option<audit::EntryView> {
        match self {
            DeviceAskView::Revoke { session, current, .. } => Some(
                audit::session_revoked_entry(session, current),
            ),
            DeviceAskView::RevokeOthers { .. } => audit::sessions_revoked_entry(ended),
            _ => None,
        }
    }
}

impl DeviceAsk {
    pub fn entry(&self, ended: u64) -> (r: Option<AuditEntry>)
        ensures
            audit::of(r) == self@.entry(ended),
    {
        match self {
            DeviceAsk::Revoke { session, current, .. } => Some(
                audit::session_revoked(*session, *current),
            ),
            DeviceAsk::RevokeOthers { .. } => audit::sessions_revoked(ended),
            _ => None,
        }
    }
}

/// The list of devices, once the sessions were asked for: `Some(None)` where they could not be
/// looked up.
pub open spec fn device_list(
    c: &Caller,
    ctx: &ChromeContext,
    current: Uuid,
    list: Option<Option<Vec<Session>>>,
    now: &Timestamp,
) -> step::StepView<DeviceAskView> {
    match list {
        None => step::StepView::Ask(DeviceAskView::List(c.user_id)),
        Some(sessions) => step::replied(
            devices(ctx, listing::or_none(sessions), current, now, SectionMode::Normal),
        ),
    }
}

/// An action on devices, and then the list of them.
pub open spec fn device_step(
    c: &Caller,
    ctx: &ChromeContext,
    action: DeviceAskView,
    current: Uuid,
    done: Asked<()>,
    list: Option<Option<Vec<Session>>>,
    now: &Timestamp,
) -> step::StepView<DeviceAskView> {
    if !c.csrf_ok {
        step::replied(gate::bad_token(c.site))
    } else {
        match done {
            Asked::NotYet => step::StepView::Ask(action),
            Asked::Failed => step::gave_up(c.site),
            Asked::Answer(_) => device_list(c, ctx, current, list, now),
        }
    }
}

fn list_devices(
    c: &Caller,
    ctx: &ChromeContext,
    current: Uuid,
    list: Option<Option<Vec<Session>>>,
    now: &Timestamp,
) -> (r: Step<DeviceAsk>)
    ensures
        r@ == device_list(c, ctx, current, list, now),
{
    match list {
        None => Step::Ask(DeviceAsk::List(c.user_id)),
        Some(sessions) => Step::replied(
            sessions_section_response(ctx, sessions, current, now, SectionMode::Normal),
        ),
    }
}

/// `POST /me/sessions/{id}/rename`: gives a device a nickname.
pub fn me_session_rename(
    c: &Caller,
    ctx: &ChromeContext,
    session: Uuid,
    form: &SessionRenameForm,
    current: Uuid,
    done: &Asked<()>,
    list: Option<Option<Vec<Session>>>,
    now: &Timestamp,
) -> (r: Step<DeviceAsk>)
    ensures
        r@ == device_step(
            c,
            ctx,
            DeviceAskView::SetLabel {
                user: c.user_id,
                session,
                label: forms::nickname(form.label@),
            },
            current,
            *done,
            list,
            now,
        ),
{
    match gate::check_all(c, Floor::Member, false) {
        Ok(()) => match done {
            Asked::NotYet => Step::Ask(
                DeviceAsk::SetLabel {
                    user: c.user_id,
                    session,
                    label: forms::device_nickname(form.label.as_str()),
                },
            ),
            Asked::Failed => Step::gave_up(c.site),
            Asked::Answer(_) => list_devices(c, ctx, current, list, now),
        },
        Err(reply) => Step::replied(reply),
    }
}

/// The end of one session: only the caller's own are ended, and the list is shown either way.
pub open spec fn revoke_step(
    c: &Caller,
    ctx: &ChromeContext,
    session: Uuid,
    current: Uuid,
    owner: Option<Option<Uuid>>,
    done: Asked<()>,
    list: Option<Option<Vec<Session>>>,
    now: &Timestamp,
) -> step::StepView<DeviceAskView> {
    if !c.csrf_ok {
        step::replied(gate::bad_token(c.site))
    } else {
        match owner {
            None => step::StepView::Ask(DeviceAskView::Owner(session)),
            Some(who) => if who == Some(c.user_id) {
                device_step(
                    c,
                    ctx,
                    DeviceAskView::Revoke { user: c.user_id, session, current },
                    current,
                    done,
                    list,
                    now,
                )
            } else {
                device_list(c, ctx, current, list, now)
            },
        }
    }
}

/// `POST /me/sessions/{id}/revoke`: signs a device out. `owner` is whose session this is, if it
/// exists and could be looked up; a session of someone else is left alone.
pub fn me_session_revoke(
    c: &Caller,
    ctx: &ChromeContext,
    session: Uuid,
    current: Uuid,
    owner: Option<Option<Uuid>>,
    done: &Asked<()>,
    list: Option<Option<Vec<Session>>>,
    now: &Timestamp,
) -> (r: Step<DeviceAsk>)
    ensures
        r@ == revoke_step(c, ctx, session, current, owner, *done, list, now),
{
    match gate::check_all(c, Floor::Member, false) {
        Ok(()) => {},
        Err(reply) => {
            return Step::replied(reply);
        },
    }
    let own: bool = match owner {
        None => {
            return Step::Ask(DeviceAsk::Owner(session));
        },
        Some(Some(id)) => id == c.user_id,
        Some(None) => false,
    };
    if own {
        match done {
            Asked::NotYet => Step::Ask(DeviceAsk::Revoke { user: c.user_id, session, current }),
            Asked::Failed => Step::gave_up(c.site),
            Asked::Answer(_) => list_devices(c, ctx, current, list, now),
        }
    } else {
        list_devices(c, ctx, current, list, now)
    }
}

/// `POST /me/sessions/revoke-others`: signs every other device out.
pub fn me_sessions_revoke_others(
    c: &Caller,
    ctx: &ChromeContext,
    current: Uuid,
    done: &Asked<()>,
    list: Option<Option<Vec<Session>>>,
    now: &Timestamp,
) -> (r: Step<DeviceAsk>)
    ensures
        r@ == device_step(
            c,
            ctx,
            DeviceAskView::RevokeOthers { user: c.user_id, keep: current },
            current,
            *done,
            list,
            now,
        ),
{
    match gate::check_all(c, Floor::Member, false) {
        Ok(()) => match done {
            Asked::NotYet => Step::Ask(
                DeviceAsk::RevokeOthers { user: c.user_id, keep: current },
            ),
            Asked::Failed => Step::gave_up(c.site),
            Asked::Answer(_) => list_devices(c, ctx, current, list, now),
        },
        Err(reply) => Step::replied(reply),
    }
}

/// A user ends only sessions of their own: no other session is ever asked to be ended.
pub proof fn law_only_own_devices_are_ended(
    c: &Caller,
    ctx: &ChromeContext,
    session: Uuid,
    current: Uuid,
    owner: Option<Option<Uuid>>,
    done: Asked<()>,
    list: Option<Option<Vec<Session>>>,
    now: &Timestamp,
    user: Uuid,
    ended: Uuid,
)
    requires
        revoke_step(c, ctx, session, current, owner, done, list, now) == step::StepView::<
            DeviceAskView,
        >::Ask(DeviceAskView::Revoke { user, session: ended, current }),
    ensures
        ended == session,
        user == c.user_id,
        owner == Some(Some(c.user_id)),
        c.csrf_ok,
{
}

/// The list of devices never shows a session that was ended or has expired.
pub proof fn law_devices_are_active(sessions: Seq<Session>, now: model::Instant, i: int)
    requires
        0 <= i < sessions.filter(|s: Session| is_active(s, now)).len(),
    ensures
        sessions.filter(|s: Session| is_active(s, now))[i].revoked_at is None,
        model::before(now, sessions.filter(|s: Session| is_active(s, now))[i].expires_at@),
{
    let keep = |s: Session| is_active(s, now);
    sessions.lemma_filter_pred(keep, i);
}

} // verus!
