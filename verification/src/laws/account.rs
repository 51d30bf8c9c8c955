//! A user's own account: name, email, password, recovery code, devices, factors, and confirming
//! who one is.

use vstd::prelude::*;
use crate::audit;
use crate::flows::account;
use crate::flows::account::{
    EmailAnswers, EmailAskView, NewRecoveryCode, PasswordAnswers, PasswordAskView, ProfileAskView,
    RotateCode,
};
use crate::flows::devices;
use crate::flows::devices::DeviceAskView;
use crate::flows::factors;
use crate::flows::factors::{
    Ceremony, ConfirmAnswers, ConfirmAskView, EnrollAsk, Enrollment, FactorAskView, FactorKind,
    PasskeyFinishAskView,
};
use crate::flows::login::Factors;
use crate::flows::reauth;
use crate::flows::reauth::{ReauthAnswers, ReauthAskView};
use crate::flows::step;
use crate::flows::step::Asked;
use crate::forms;
use crate::forms::{
    MeEmailForm, MePasskeyFinishForm, MePasswordForm, MeProfileForm, MeReauthForm,
    MeTotpConfirmForm,
};
use crate::gate::Caller;
use crate::laws::outcome;
use crate::model;
use crate::model::{Session, Timestamp, TotpCredential, User, Uuid, WebauthnCredentialRow};
use crate::reply;
use crate::text;
use crate::views;
use crate::views::security::SectionMode;
use crate::views::shell::ChromeContext;

verus! {

// ---- Name, email, password -------------------------------------------------------------------

/// The display name that was entered is stored for the caller, without the white space around it;
/// the form comes back with the name that the account has then.
pub proof fn law_profile_runs(
    c: &Caller,
    ctx: &ChromeContext,
    form: &MeProfileForm,
    updated: Asked<User>,
    user: User,
)
    requires
        c.csrf_ok,
    ensures
        ({
            let s = account::profile_step(c, ctx, form, updated);
            let name = text::trimmed(form.display_name@);
            let shown = |u: &User, feedback: views::account::FeedbackText|
                reply::ok_page(
                    views::account::settings_name_form_html(
                        &ChromeContext { user: u, ..*ctx },
                        Some(feedback),
                    ),
                );
            &&& name.len() == 0 ==> outcome::ends_with(
                s,
                shown(
                    ctx.user,
                    views::account::FeedbackText::Error("Display name can't be blank."@),
                ),
            )
            &&& name.len() > 0 ==> {
                &&& updated is NotYet ==> s == step::StepView::<ProfileAskView>::Ask(
                    ProfileAskView::Rename {
                        user: c.user_id,
                        old: ctx.user.display_name@,
                        name,
                    },
                )
                &&& updated == Asked::Answer(user) ==> outcome::ends_with(
                    s,
                    shown(
                        &user,
                        views::account::FeedbackText::Success("Profile updated."@),
                    ),
                )
                &&& updated is Failed ==> outcome::ends_with(
                    s,
                    shown(
                        ctx.user,
                        views::account::FeedbackText::Error("Something went wrong. Try again."@),
                    ),
                )
            }
        }),
{
}

/// The email that was entered is stored for a confirmed caller in place of the one they have, if
/// it looks like one, differs from it and is nobody's; otherwise they are told why not.
pub proof fn law_email_runs(c: &Caller, current: Seq<char>, form: &MeEmailForm, a: &EmailAnswers)
    requires
        outcome::confirmed(c),
    ensures
        ({
            let s = account::email_step(c, current, form, a);
            let email = text::trimmed(form.email@);
            &&& !forms::email_shaped(email) ==> outcome::ends_with(
                s,
                reply::me_failing(c.htmx, "email_required"@),
            )
            &&& forms::email_shaped(email) && email == current ==> outcome::ends_with(
                s,
                reply::me_after(c.htmx, "email_unchanged"@),
            )
            &&& forms::email_shaped(email) && email != current ==> {
                &&& a.in_use is NotYet ==> s == step::StepView::<EmailAskView>::Ask(
                    EmailAskView::InUse(email),
                )
                &&& a.in_use == Asked::Answer(true) ==> outcome::ends_with(
                    s,
                    reply::me_failing(c.htmx, "email_already_in_use"@),
                )
                &&& a.in_use == Asked::Answer(false) && a.changed is NotYet ==> s
                    == step::StepView::<EmailAskView>::Ask(
                    EmailAskView::Change { user: c.user_id, old: current, email },
                )
                &&& a.in_use == Asked::Answer(false) && a.changed is Answer ==> outcome::ends_with(
                    s,
                    reply::me_after(c.htmx, "email_updated"@),
                )
            }
        }),
{
}

/// The password that was entered, every character of it, is hashed and stored for a confirmed
/// caller; their other sessions end.
pub proof fn law_password_runs(
    c: &Caller,
    current: Uuid,
    form: &MePasswordForm,
    a: &PasswordAnswers,
    hash: String,
)
    requires
        c.csrf_ok,
    ensures
        ({
            let s = account::password_step(c, current, form, a);
            &&& form.new_password@.len() == 0 ==> outcome::ends_with(
                s,
                reply::me_failing(c.htmx, "new_password_required"@),
            )
            &&& form.new_password@.len() > 0 && c.sudo != Some(c.user_id) ==> outcome::ends_with(
                s,
                reply::text_with(403, "Please confirm it's you and try again."@),
            )
            &&& form.new_password@.len() > 0 && c.sudo == Some(c.user_id) ==> {
                &&& a.hashed is NotYet ==> s == step::StepView::<PasswordAskView>::Ask(
                    PasswordAskView::Hash(form.new_password@),
                )
                &&& a.hashed == Asked::Answer(hash) && a.changed is NotYet ==> s
                    == step::StepView::<PasswordAskView>::Ask(
                    PasswordAskView::Change { user: c.user_id, hash: hash@, keep: current },
                )
                &&& a.hashed == Asked::Answer(hash) && a.changed is Answer ==> outcome::ends_with(
                    s,
                    reply::ok_page(
                        views::security::password_changed_success_content_html(),
                    ),
                )
            }
        }),
{
}

/// A confirmed caller gets a new recovery code of their own, shown once with the refreshed status
/// line.
pub proof fn law_recovery_code_runs(
    c: &Caller,
    rotated: Asked<NewRecoveryCode>,
    new: NewRecoveryCode,
)
    requires
        outcome::confirmed(c),
    ensures
        ({
            let s = account::recovery_regenerate_step(c, rotated);
            &&& rotated is NotYet ==> s == step::StepView::<RotateCode>::Ask(
                RotateCode { user: c.user_id },
            )
            &&& rotated == Asked::Answer(new) ==> outcome::ends_with(
                s,
                reply::ok_page(
                    views::account::recovery_code_modal_content_html(new.code@)
                        + views::account::recovery_status_html(
                        match new.meta {
                            Some(meta) => Some(&meta),
                            None => None,
                        },
                        true,
                    ),
                ),
            )
        }),
{
}

/// What is logged of a change to an account names what it changed.
pub proof fn law_account_changes_are_logged(
    user: Uuid,
    old: Seq<char>,
    new: Seq<char>,
    stored: Seq<char>,
    hash: Seq<char>,
    keep: Uuid,
    n: u64,
    session: Uuid,
    current: Uuid,
    removed: bool,
)
    ensures
        (ProfileAskView::Rename { user, old, name: new }).entry(stored) == audit::entry(
            "profile_updated"@,
        ).text("old_display_name"@, old).text("new_display_name"@, stored),
        (EmailAskView::Change { user, old, email: new }).entry(stored) == Some(
            audit::entry("email_changed"@).text("old_email"@, old).text("new_email"@, stored),
        ),
        (PasswordAskView::Change { user, hash, keep }).entry(n) == Some(
            audit::entry("password_changed"@).count("other_sessions_revoked"@, n),
        ),
        (DeviceAskView::Revoke { user, session, current }).entry(n) == Some(
            audit::entry("session_revoked_by_user"@).id("session_id"@, session).flag(
                "was_current"@,
                session == current,
            ),
        ),
        (DeviceAskView::RevokeOthers { user, keep }).entry(n) == (if n > 0 {
            Some(audit::entry("sessions_revoked_by_user"@).count("count"@, n))
        } else {
            None
        }),
        (FactorAskView::Remove { user, kind: FactorKind::Authenticator, id: session }).entry(
            removed,
        ) == (if removed {
            Some(audit::entry("totp_removed"@).id("credential_id"@, session))
        } else {
            None
        }),
        (FactorAskView::Remove { user, kind: FactorKind::Passkey, id: session }).entry(removed) == (
        if removed {
            Some(audit::entry("passkey_removed"@).id("credential_id"@, session))
        } else {
            None
        }),
        (ConfirmAskView::Confirm { user, cred_id: session, label: new }).entry() == Some(
            audit::entry("totp_enrolled"@).id("credential_id"@, session),
        ),
        audit::code_rotated_entry() == audit::entry("recovery_code_rotated"@).text(
            "via"@,
            "self_service"@,
        ),
{
}

// ---- Devices ---------------------------------------------------------------------------------

/// Whether a nickname is what was entered for it: the first sixty characters without the white
/// space around them, or none where nothing was entered.
pub open spec fn nicknamed(label: Option<Seq<char>>, entered: Seq<char>) -> bool {
    let t = text::trimmed(entered);
    if t.len() == 0 {
        label is None
    } else if t.len() <= 60 {
        label == Some(t)
    } else {
        label == Some(t.take(60))
    }
}

/// Actions on devices are about sessions of the caller: the one that was picked gets the nickname
/// that was entered, or is ended where it is theirs; all but the current one are ended where that
/// was asked for. The list of their devices follows.
pub proof fn law_devices_run(
    c: &Caller,
    ctx: &ChromeContext,
    session: Uuid,
    current: Uuid,
    owner: Option<Option<Uuid>>,
    done: Asked<()>,
    list: Option<Option<Vec<Session>>>,
    now: &Timestamp,
    entered: Seq<char>,
)
    requires
        c.csrf_ok,
    ensures
        ({
            let named = devices::device_step(
                c,
                ctx,
                DeviceAskView::SetLabel {
                    user: c.user_id,
                    session,
                    label: forms::nickname(entered),
                },
                current,
                done,
                list,
                now,
            );
            &&& nicknamed(forms::nickname(entered), entered)
            &&& done is NotYet ==> named is Ask && named->Ask_0 is SetLabel
            &&& done is Answer && list is None ==> named == step::StepView::<DeviceAskView>::Ask(
                DeviceAskView::List(c.user_id),
            )
        }),
        ({
            let s = devices::revoke_step(c, ctx, session, current, owner, done, list, now);
            &&& owner is None ==> s == step::StepView::<DeviceAskView>::Ask(
                DeviceAskView::Owner(session),
            )
            &&& owner == Some(Some(c.user_id)) && done is NotYet ==> s == step::StepView::<
                DeviceAskView,
            >::Ask(DeviceAskView::Revoke { user: c.user_id, session, current })
            &&& owner == Some(Some(c.user_id)) && done is Answer && list is None ==> s
                == step::StepView::<DeviceAskView>::Ask(DeviceAskView::List(c.user_id))
            &&& owner is Some && owner != Some(Some(c.user_id)) && list is None ==> s
                == step::StepView::<DeviceAskView>::Ask(DeviceAskView::List(c.user_id))
        }),
{
}

/// The list of devices shows the sessions that are neither ended nor expired, all of them, in
/// their order.
pub proof fn law_devices_are_listed(
    c: &Caller,
    ctx: &ChromeContext,
    current: Uuid,
    sessions: Vec<Session>,
    now: &Timestamp,
)
    ensures
        outcome::ends_with(
            devices::device_list(c, ctx, current, Some(Some(sessions)), now),
            reply::ok_page(
                views::security::sessions_section_html(
                    ctx,
                    sessions@.filter(
                        |s: Session| s.revoked_at is None && model::before(now@, s.expires_at@),
                    ),
                    current,
                    now,
                    SectionMode::Normal,
                    false,
                ),
            ),
        ),
{
    let live = |s: Session| s.revoked_at is None && model::before(now@, s.expires_at@);
    let active = |s: Session| devices::is_active(s, now@);
    assert(live =~= active);
}

/// The section of the devices shows the sessions that are neither ended nor expired.
pub proof fn law_section_of_devices(
    ctx: &ChromeContext,
    sessions: Seq<Session>,
    current: Uuid,
    now: &Timestamp,
    mode: SectionMode,
)
    ensures
        devices::devices(ctx, sessions, current, now, mode) == reply::ok_page(
            views::security::sessions_section_html(
                ctx,
                sessions.filter(
                    |s: Session| s.revoked_at is None && model::before(now@, s.expires_at@),
                ),
                current,
                now,
                mode,
                false,
            ),
        ),
{
    let live = |s: Session| s.revoked_at is None && model::before(now@, s.expires_at@);
    let active = |s: Session| devices::is_active(s, now@);
    assert(live =~= active);
}

// ---- Factors ---------------------------------------------------------------------------------

/// Whether a factor is called what was entered for it: the first sixty characters without the
/// white space around them, or `Authenticator` where nothing was entered.
pub open spec fn labelled(label: Seq<char>, entered: Seq<char>) -> bool {
    let t = text::trimmed(entered);
    if t.len() == 0 {
        label == "Authenticator"@
    } else if t.len() <= 60 {
        label == t
    } else {
        label == t.take(60)
    }
}

/// An authenticator or a passkey of the caller is enrolled while there is room: they are counted,
/// then the enrollment begins.
pub proof fn law_enrolling_runs(
    c: &Caller,
    ctx: &ChromeContext,
    max: i64,
    count: Asked<i64>,
    totp: Asked<Enrollment>,
    passkey: Asked<Ceremony>,
    n: i64,
    e: Enrollment,
    p: Ceremony,
)
    requires
        outcome::confirmed(c),
    ensures
        ({
            let s = factors::totp_start_step(c, ctx, max, count, totp);
            &&& count is NotYet ==> s == step::StepView::<EnrollAsk>::Ask(
                EnrollAsk::Count(c.user_id),
            )
            &&& count == Asked::Answer(n) && n >= max ==> outcome::ends_with(
                s,
                reply::ok_page(views::security::totp_limit_reached_content_html()),
            )
            &&& count == Asked::Answer(n) && n < max && totp is NotYet ==> s == step::StepView::<
                EnrollAsk,
            >::Ask(EnrollAsk::Begin(c.user_id))
            &&& count == Asked::Answer(n) && n < max && totp == Asked::Answer(e)
                ==> outcome::ends_with(
                s,
                reply::ok_page(
                    views::security::totp_enroll_modal_content_html(
                        factors::qr_svg(e.uri@),
                        e.secret_b32@,
                        e.cred_id,
                        ctx.csrf_token@,
                        None,
                    ),
                ),
            )
        }),
        ({
            let s = factors::passkey_start_step(c, ctx, max, count, passkey);
            &&& count is NotYet ==> s == step::StepView::<EnrollAsk>::Ask(
                EnrollAsk::Count(c.user_id),
            )
            &&& count == Asked::Answer(n) && n >= max ==> outcome::ends_with(
                s,
                reply::ok_page(views::security::passkey_limit_reached_content_html()),
            )
            &&& count == Asked::Answer(n) && n < max && passkey is NotYet ==> s
                == step::StepView::<EnrollAsk>::Ask(EnrollAsk::Begin(c.user_id))
            &&& count == Asked::Answer(n) && n < max && passkey == Asked::Answer(p)
                ==> outcome::ends_with(
                s,
                reply::ok_page(
                    views::security::passkey_enroll_modal_content_html(
                        p.options_json@,
                        p.challenge_id,
                        ctx.csrf_token@,
                    ),
                ),
            )
        }),
{
}

/// An authenticator is taken into use after its first code: the enrollment of the form is looked
/// up, the code is held against its secret, and the credential is stored under the name that was
/// entered. A wrong code shows the same enrollment again.
pub proof fn law_confirming_runs(
    c: &Caller,
    ctx: &ChromeContext,
    form: &MeTotpConfirmForm,
    max: i64,
    a: &ConfirmAnswers,
    e: Enrollment,
    list: Vec<TotpCredential>,
)
    requires
        c.csrf_ok,
    ensures
        ({
            let s = factors::totp_confirm_step(c, ctx, form, max, a);
            &&& a.pending is NotYet ==> s == step::StepView::<ConfirmAskView>::Ask(
                ConfirmAskView::Pending { user: c.user_id, cred_id: form.cred_id },
            )
            &&& a.pending == Asked::Answer(None::<Enrollment>) ==> outcome::ends_with(
                s,
                reply::me_failing(true, "totp_setup_expired"@),
            )
            &&& a.pending == Asked::Answer(Some(e)) ==> {
                &&& a.code_ok is None ==> s == step::StepView::<ConfirmAskView>::Ask(
                    ConfirmAskView::Check {
                        secret_b32: e.secret_b32@,
                        code: text::trimmed(form.code@),
                    },
                )
                &&& a.code_ok == Some(false) ==> outcome::ends_with(
                    s,
                    reply::ok_page(
                        views::security::totp_enroll_modal_content_html(
                            factors::qr_svg(e.uri@),
                            e.secret_b32@,
                            form.cred_id,
                            ctx.csrf_token@,
                            Some("That code didn't match. Try again."@),
                        ),
                    ),
                )
                &&& a.code_ok == Some(true) && a.confirmed is NotYet ==> s is Ask && s->Ask_0
                    is Confirm && s->Ask_0->Confirm_user == c.user_id && s->Ask_0->Confirm_cred_id
                    == form.cred_id && labelled(s->Ask_0->label, form.label@)
                &&& a.code_ok == Some(true) && a.confirmed is Answer && a.list is None ==> s
                    == step::StepView::<ConfirmAskView>::Ask(ConfirmAskView::List(c.user_id))
                &&& a.code_ok == Some(true) && a.confirmed is Answer && a.list == Some(list)
                    ==> outcome::ends_with(
                    s,
                    reply::ok_page(
                        views::security::totp_enrolled_success_content_html()
                            + views::security::totp_authenticators_section_html(
                            ctx,
                            list@,
                            SectionMode::Normal,
                            max,
                            true,
                        ),
                    ),
                )
            }
        }),
{
}

/// A passkey is registered for the caller with the challenge and the credential of the form, under
/// the name that was entered.
pub proof fn law_registering_runs(
    c: &Caller,
    ctx: &ChromeContext,
    form: &MePasskeyFinishForm,
    available: bool,
    max: i64,
    registered: Option<bool>,
    list: Option<Vec<WebauthnCredentialRow>>,
)
    requires
        c.csrf_ok,
    ensures
        ({
            let s = factors::passkey_finish_step(c, ctx, form, available, max, registered, list);
            &&& registered is None ==> s is Ask && s->Ask_0 is Register && s->Ask_0->user
                == c.user_id && s->Ask_0->challenge_id == form.challenge_id
                && s->Ask_0->credential == form.credential@ && labelled(
                s->Ask_0->label,
                form.label@,
            )
            &&& registered == Some(false) ==> s is Finish && s->Finish_0.audit is None
                && outcome::is_page(
                s->Finish_0.reply,
                200,
                views::security::passkey_error_content_html(
                    "We couldn't register that passkey. Please try again."@,
                ),
            )
            &&& registered == Some(true) && list is None ==> s == step::StepView::<
                PasskeyFinishAskView,
            >::Ask(PasskeyFinishAskView::List(c.user_id))
            &&& registered == Some(true) && list is Some ==> s is Finish && s->Finish_0.audit
                == Some(audit::entry("passkey_registered"@)) && outcome::is_page(
                s->Finish_0.reply,
                200,
                views::security::passkey_enrolled_success_content_html()
                    + views::security::passkey_credentials_section_html(
                    ctx,
                    list->0@,
                    SectionMode::Normal,
                    available,
                    max,
                    true,
                ),
            )
        }),
{
}

/// A factor is named as it was entered, and removed, only where it is the caller's: the question
/// names them, the factor that was picked and its sort.
pub proof fn law_factors_are_changed(
    c: &Caller,
    kind: FactorKind,
    id: Uuid,
    label: Seq<char>,
    done: Asked<()>,
    shown: Option<reply::ReplyView>,
)
    ensures
        c.csrf_ok ==> {
            let s = factors::rename_step(c, id, label, done, shown);
            &&& done is NotYet ==> s is Ask && s->Ask_0 is Rename && s->Ask_0->Rename_user
                == c.user_id && s->Ask_0->Rename_id == id && labelled(s->Ask_0->label, label)
            &&& done is Answer && shown is None ==> s == step::StepView::<FactorAskView>::Ask(
                FactorAskView::List(c.user_id),
            )
            &&& done is Answer && shown is Some ==> outcome::ends_with(s, shown->0)
        },
        outcome::confirmed(c) ==> {
            let s = factors::removal_step(c, kind, id, done, shown);
            &&& done is NotYet ==> s == step::StepView::<FactorAskView>::Ask(
                FactorAskView::Remove { user: c.user_id, kind, id },
            )
            &&& done is Answer && shown is None ==> s == step::StepView::<FactorAskView>::Ask(
                FactorAskView::List(c.user_id),
            )
            &&& done is Answer && shown is Some ==> outcome::ends_with(s, shown->0)
        },
        !c.csrf_ok ==> factors::rename_step(c, id, label, done, shown) is Finish
            && factors::removal_step(c, kind, id, done, shown) is Finish,
        c.sudo != Some(c.user_id) ==> factors::removal_step(c, kind, id, done, shown) is Finish,
{
}

/// A section of factors shows all of them; after a removal it comes with a word on what is left.
pub proof fn law_sections_of_factors(
    ctx: &ChromeContext,
    totps: Vec<TotpCredential>,
    passkeys: Vec<WebauthnCredentialRow>,
    mode: SectionMode,
    available: bool,
    max: i64,
)
    ensures
        factors::authenticators(ctx, Some(totps), mode, max) == reply::ok_page(
            views::security::totp_authenticators_section_html(ctx, totps@, mode, max, false),
        ),
        factors::passkeys(ctx, Some(passkeys), mode, available, max) == reply::ok_page(
            views::security::passkey_credentials_section_html(
                ctx,
                passkeys@,
                mode,
                available,
                max,
                false,
            ),
        ),
        outcome::has_status(factors::authenticators(ctx, None, mode, max), 500),
        outcome::has_status(factors::passkeys(ctx, None, mode, available, max), 500),
        factors::authenticator_removed(ctx, Some(totps), max) == reply::ok_page(
            views::security::factor_removed_content_html(
                "Authenticator removed"@,
                if totps@.len() == 0 {
                    "That was your last authenticator app."@
                } else {
                    "The authenticator has been removed."@
                },
            ) + views::security::totp_authenticators_section_html(
                ctx,
                totps@,
                SectionMode::Normal,
                max,
                true,
            ),
        ),
        factors::passkey_removed(ctx, Some(passkeys), available, max) == reply::ok_page(
            views::security::factor_removed_content_html(
                "Passkey removed"@,
                if passkeys@.len() == 0 {
                    "That was your last passkey."@
                } else {
                    "The passkey has been removed."@
                },
            ) + views::security::passkey_credentials_section_html(
                ctx,
                passkeys@,
                SectionMode::Normal,
                available,
                max,
                true,
            ),
        ),
{
}

// ---- Confirming who one is -------------------------------------------------------------------

/// Every question of a confirmation is about the caller, and carries what the form holds: the
/// challenge and the answer of a passkey, the password with every character, the code without the
/// white space around it.
pub proof fn law_confirmation_questions(
    c: &Caller,
    ctx: &ChromeContext,
    secure: bool,
    form: &MeReauthForm,
    a: &ReauthAnswers,
)
    ensures
        match reauth::reauth_step(c, ctx, secure, form, a) {
            step::StepView::Ask(ReauthAskView::Factors(user)) => user == c.user_id,
            step::StepView::Ask(ReauthAskView::Allowed(key)) => key == "reauth"@ + ":"@
                + model::uuid_text(c.user_id),
            step::StepView::Ask(ReauthAskView::Passkey { user, challenge_id, assertion }) => {
                &&& user == c.user_id
                &&& form.challenge_id == Some(challenge_id)
                &&& form.passkey matches Some(p) && p@ == assertion && assertion.len() > 0
            },
            step::StepView::Ask(ReauthAskView::Password { user, password }) => {
                &&& user == c.user_id
                &&& form.password matches Some(p) && p@ == password && password.len() > 0
                &&& form.passkey matches Some(p) ==> p@.len() == 0
            },
            step::StepView::Ask(ReauthAskView::Totp { user, code }) => {
                &&& user == c.user_id
                &&& form.code matches Some(t) ==> code == text::trimmed(t@)
                &&& form.code is None ==> code == text::trimmed(Seq::empty())
                &&& a.password == Asked::Answer(true)
            },
            step::StepView::Ask(ReauthAskView::Grant { user, critical }) => {
                &&& user == c.user_id
                &&& critical <==> (form.critical matches Some(t) && t@ == "1"@)
            },
            step::StepView::Finish(_) => true,
        },
{
}

/// A confirmation runs to its end: what the form presents is asked about, an accepted passkey or
/// password is granted, with the code of an authenticator where one is enrolled, and the browser
/// gets the token for five minutes; a refused one counts against the caller.
pub proof fn law_confirmation_runs(
    c: &Caller,
    ctx: &ChromeContext,
    secure: bool,
    form: &MeReauthForm,
    a: &ReauthAnswers,
    f: Factors,
    challenge: Uuid,
    token: String,
)
    requires
        c.csrf_ok,
        a.factors == Some(f),
        a.allowed == Some(true),
    ensures
        ({
            let s = reauth::reauth_step(c, ctx, secure, form, a);
            let key = "reauth"@ + ":"@ + model::uuid_text(c.user_id);
            let passkey = form.passkey matches Some(p) && p@.len() > 0;
            let password = form.password matches Some(p) && p@.len() > 0;
            let accepted = if passkey {
                form.challenge_id == Some(challenge) && a.passkey == Asked::Answer(true)
            } else {
                password && (f.passkey ==> f.totp) && a.password == Asked::Answer(true) && (f.totp
                    ==> a.totp == Asked::Answer(true))
            };
            &&& passkey && form.challenge_id == Some(challenge) && a.passkey is NotYet ==> s
                is Ask && s->Ask_0 is Passkey
            &&& passkey && form.challenge_id == Some(challenge) && a.passkey == Asked::Answer(
                false,
            ) ==> s is Finish && s->Finish_0.record_failure == Some(key)
                && s->Finish_0.reply.cookies.len() == 0 && s->Finish_0.audit == Some(
                audit::entry("reauth_failed"@).text("factor"@, "passkey"@),
            )
            &&& !passkey && password && (f.passkey ==> f.totp) ==> {
                &&& a.password is NotYet ==> s is Ask && s->Ask_0 is Password
                &&& a.password == Asked::Answer(false) ==> s is Finish
                    && s->Finish_0.record_failure == Some(key)
                    && s->Finish_0.reply.cookies.len() == 0 && s->Finish_0.audit == Some(
                    audit::entry("reauth_failed"@).text("factor"@, "password"@),
                )
                &&& a.password == Asked::Answer(true) && f.totp && a.totp is NotYet ==> s is Ask
                    && s->Ask_0 is Totp
                &&& a.password == Asked::Answer(true) && f.totp && a.totp == Asked::Answer(false)
                    ==> s is Finish && s->Finish_0.record_failure == Some(key)
                    && s->Finish_0.reply.cookies.len() == 0 && s->Finish_0.audit == Some(
                    audit::entry("reauth_failed"@).text("factor"@, "password+totp"@),
                )
            }
            &&& accepted && a.grant is None ==> s is Ask && s->Ask_0 is Grant
            &&& accepted && a.grant == Some(token) ==> s is Finish
                && s->Finish_0.record_failure is None && s->Finish_0.reply.content == (
            reply::ContentView::Empty { status: 204 }) && outcome::sets_only(
                s->Finish_0.reply,
                outcome::lasts("hearth_sudo"@, token@, 300, secure),
            ) && s->Finish_0.audit == Some(
                audit::entry("reauth_success"@).text(
                    "factor"@,
                    if passkey {
                        "passkey"@
                    } else if f.totp {
                        "password+totp"@
                    } else {
                        "password"@
                    },
                ),
            )
        }),
{
}

} // verus!
