//! Outages: where the store cannot answer a question, the request ends in an internal failure, and
//! nothing else happens.

use vstd::prelude::*;
use crate::flows::account;
use crate::flows::account::{EmailAnswers, PasswordAnswers};
use crate::flows::apps;
use crate::flows::apps::AppChangeView;
use crate::flows::events;
use crate::flows::events::EventsAnswers;
use crate::flows::factors;
use crate::flows::factors::{ConfirmAnswers, FactorKind};
use crate::flows::login;
use crate::flows::login::{LoginAnswers, PasskeyAnswers, VerifyAnswers};
use crate::flows::members;
use crate::flows::members::{Accounts, MembersAnswers};
use crate::flows::pending;
use crate::flows::pending::{ForceAnswers, Labels};
use crate::flows::reauth;
use crate::flows::reauth::ReauthAnswers;
use crate::flows::recovery;
use crate::flows::recovery::{RecoverAnswers, ResetAnswers};
use crate::flows::settings;
use crate::flows::step;
use crate::flows::step::Asked;
use crate::forms::{
    EventsPageQuery, ForceApplyForm, LoginForm, LoginPasskeyFinishForm, LoginVerifyForm,
    MeEmailForm, MePasswordForm, MeReauthForm, MeTotpConfirmForm, MembersPageQuery,
    PublishersAddForm, RecoverForm, RecoverResetForm, RemovePublisherForm, ResourcesQuery,
    SettingsIdentityForm,
};
use crate::gate::Caller;
use crate::laws::outcome;
use crate::model::{RegisteredAppRow, Timestamp, Uuid};
use crate::reply;
use crate::views::shell::{ChromeContext, SiteInfo};

verus! {

/// Whether a request ends in an internal failure.
pub open spec fn gives_up<Q>(s: step::StepView<Q>, site: &SiteInfo) -> bool {
    outcome::ends_with(s, reply::failure(site, 500, "Internal error"@))
}

/// Where the store fails while somebody signs in, the request ends in an internal failure.
pub proof fn law_sign_in_outages(
    site: &SiteInfo,
    form: &LoginForm,
    client: Seq<char>,
    secure: bool,
    a: &LoginAnswers,
)
    ensures
        ({
            let s = login::login_step(site, form, client, secure, &LoginAnswers { credentials: Asked::NotYet, ..*a });
            s is Ask && s->Ask_0 is Credentials
        }) ==> gives_up(
            login::login_step(site, form, client, secure, &LoginAnswers { credentials: Asked::Failed, ..*a }),
            site,
        ),
        ({
            let s = login::login_step(site, form, client, secure, &LoginAnswers { second_factor: Asked::NotYet, ..*a });
            s is Ask && s->Ask_0 is SecondFactor
        }) ==> gives_up(
            login::login_step(site, form, client, secure, &LoginAnswers { second_factor: Asked::Failed, ..*a }),
            site,
        ),
        ({
            let s = login::login_step(site, form, client, secure, &LoginAnswers { session: Asked::NotYet, ..*a });
            s is Ask && s->Ask_0 is Session
        }) ==> gives_up(
            login::login_step(site, form, client, secure, &LoginAnswers { session: Asked::Failed, ..*a }),
            site,
        ),
{
}

/// Where the store fails while somebody signs in by a passkey, the request ends in an internal
/// failure.
pub proof fn law_passkey_outages(
    site: &SiteInfo,
    form: &LoginPasskeyFinishForm,
    client: Seq<char>,
    secure: bool,
    a: &PasskeyAnswers,
)
    ensures
        ({
            let s = login::passkey_step(site, form, client, secure, &PasskeyAnswers { assertion: Asked::NotYet, ..*a });
            s is Ask && s->Ask_0 is Assertion
        }) ==> gives_up(
            login::passkey_step(site, form, client, secure, &PasskeyAnswers { assertion: Asked::Failed, ..*a }),
            site,
        ),
        ({
            let s = login::passkey_step(site, form, client, secure, &PasskeyAnswers { lifecycle: Asked::NotYet, ..*a });
            s is Ask && s->Ask_0 is Lifecycle
        }) ==> gives_up(
            login::passkey_step(site, form, client, secure, &PasskeyAnswers { lifecycle: Asked::Failed, ..*a }),
            site,
        ),
        ({
            let s = login::passkey_step(site, form, client, secure, &PasskeyAnswers { session: Asked::NotYet, ..*a });
            s is Ask && s->Ask_0 is Session
        }) ==> gives_up(
            login::passkey_step(site, form, client, secure, &PasskeyAnswers { session: Asked::Failed, ..*a }),
            site,
        ),
{
}

/// Where the store fails while a second factor is judged, the request ends in an internal failure.
pub proof fn law_second_factor_outages(
    site: &SiteInfo,
    secure: bool,
    form: &LoginVerifyForm,
    user: Uuid,
    a: &VerifyAnswers,
)
    ensures
        ({
            let s = login::verify_step(site, secure, form, Some(user), &VerifyAnswers { user_found: Asked::NotYet, ..*a });
            s is Ask && s->Ask_0 is User
        }) ==> gives_up(
            login::verify_step(site, secure, form, Some(user), &VerifyAnswers { user_found: Asked::Failed, ..*a }),
            site,
        ),
        ({
            let s = login::verify_step(site, secure, form, Some(user), &VerifyAnswers { passkey: Asked::NotYet, ..*a });
            s is Ask && s->Ask_0 is Passkey
        }) ==> gives_up(
            login::verify_step(site, secure, form, Some(user), &VerifyAnswers { passkey: Asked::Failed, ..*a }),
            site,
        ),
        ({
            let s = login::verify_step(site, secure, form, Some(user), &VerifyAnswers { totp: Asked::NotYet, ..*a });
            s is Ask && s->Ask_0 is Totp
        }) ==> gives_up(
            login::verify_step(site, secure, form, Some(user), &VerifyAnswers { totp: Asked::Failed, ..*a }),
            site,
        ),
        ({
            let s = login::verify_step(site, secure, form, Some(user), &VerifyAnswers { recovery: Asked::NotYet, ..*a });
            s is Ask && s->Ask_0 is Recovery
        }) ==> gives_up(
            login::verify_step(site, secure, form, Some(user), &VerifyAnswers { recovery: Asked::Failed, ..*a }),
            site,
        ),
        ({
            let s = login::verify_step(site, secure, form, Some(user), &VerifyAnswers { session: Asked::NotYet, ..*a });
            s is Ask && s->Ask_0 is Session
        }) ==> gives_up(
            login::verify_step(site, secure, form, Some(user), &VerifyAnswers { session: Asked::Failed, ..*a }),
            site,
        ),
{
}

/// Where the store fails while an account is recovered, the request ends in an internal failure.
pub proof fn law_recovery_outages(
    site: &SiteInfo,
    secure: bool,
    form: &RecoverForm,
    client: Seq<char>,
    a: &RecoverAnswers,
)
    ensures
        ({
            let s = recovery::recover_step(site, secure, form, client, &RecoverAnswers { candidate: Asked::NotYet, ..*a });
            s is Ask && s->Ask_0 is FindByEmail
        }) ==> gives_up(
            recovery::recover_step(site, secure, form, client, &RecoverAnswers { candidate: Asked::Failed, ..*a }),
            site,
        ),
        ({
            let s = recovery::recover_step(site, secure, form, client, &RecoverAnswers { verified: Asked::NotYet, ..*a });
            s is Ask && s->Ask_0 is VerifyCode
        }) ==> gives_up(
            recovery::recover_step(site, secure, form, client, &RecoverAnswers { verified: Asked::Failed, ..*a }),
            site,
        ),
{
}

/// Where the store fails while a password is reset, the request ends in an internal failure.
pub proof fn law_reset_outages(
    site: &SiteInfo,
    secure: bool,
    form: &RecoverResetForm,
    user: Uuid,
    a: &ResetAnswers,
)
    ensures
        ({
            let s = recovery::reset_step(site, secure, form, Some(user), &ResetAnswers { user_found: Asked::NotYet, ..*a });
            s is Ask && s->Ask_0 is User
        }) ==> gives_up(
            recovery::reset_step(site, secure, form, Some(user), &ResetAnswers { user_found: Asked::Failed, ..*a }),
            site,
        ),
        ({
            let s = recovery::reset_step(site, secure, form, Some(user), &ResetAnswers { hashed: Asked::NotYet, ..*a });
            s is Ask && s->Ask_0 is Hash
        }) ==> gives_up(
            recovery::reset_step(site, secure, form, Some(user), &ResetAnswers { hashed: Asked::Failed, ..*a }),
            site,
        ),
        ({
            let s = recovery::reset_step(site, secure, form, Some(user), &ResetAnswers { applied: Asked::NotYet, ..*a });
            s is Ask && s->Ask_0 is Apply
        }) ==> gives_up(
            recovery::reset_step(site, secure, form, Some(user), &ResetAnswers { applied: Asked::Failed, ..*a }),
            site,
        ),
{
}

/// Where the store fails while users confirm who they are, the request ends in an internal
/// failure.
pub proof fn law_confirmation_outages(
    c: &Caller,
    ctx: &ChromeContext,
    secure: bool,
    form: &MeReauthForm,
    a: &ReauthAnswers,
)
    ensures
        ({
            let s = reauth::reauth_step(c, ctx, secure, form, &ReauthAnswers { passkey: Asked::NotYet, ..*a });
            s is Ask && s->Ask_0 is Passkey
        }) ==> gives_up(
            reauth::reauth_step(c, ctx, secure, form, &ReauthAnswers { passkey: Asked::Failed, ..*a }),
            ctx.site,
        ),
        ({
            let s = reauth::reauth_step(c, ctx, secure, form, &ReauthAnswers { password: Asked::NotYet, ..*a });
            s is Ask && s->Ask_0 is Password
        }) ==> gives_up(
            reauth::reauth_step(c, ctx, secure, form, &ReauthAnswers { password: Asked::Failed, ..*a }),
            ctx.site,
        ),
        ({
            let s = reauth::reauth_step(c, ctx, secure, form, &ReauthAnswers { totp: Asked::NotYet, ..*a });
            s is Ask && s->Ask_0 is Totp
        }) ==> gives_up(
            reauth::reauth_step(c, ctx, secure, form, &ReauthAnswers { totp: Asked::Failed, ..*a }),
            ctx.site,
        ),
{
}

/// Where the store fails while an email is changed, the request ends in an internal failure.
pub proof fn law_email_outages(c: &Caller, current: Seq<char>, form: &MeEmailForm, a: &EmailAnswers)
    ensures
        ({
            let s = account::email_step(c, current, form, &EmailAnswers { in_use: Asked::NotYet, ..*a });
            s is Ask && s->Ask_0 is InUse
        }) ==> gives_up(
            account::email_step(c, current, form, &EmailAnswers { in_use: Asked::Failed, ..*a }),
            c.site,
        ),
        ({
            let s = account::email_step(c, current, form, &EmailAnswers { changed: Asked::NotYet, ..*a });
            s is Ask && s->Ask_0 is Change
        }) ==> gives_up(
            account::email_step(c, current, form, &EmailAnswers { changed: Asked::Failed, ..*a }),
            c.site,
        ),
{
}

/// Where the store fails while a password is changed, the request ends in an internal failure.
pub proof fn law_password_outages(
    c: &Caller,
    current: Uuid,
    form: &MePasswordForm,
    a: &PasswordAnswers,
)
    ensures
        ({
            let s = account::password_step(c, current, form, &PasswordAnswers { hashed: Asked::NotYet, ..*a });
            s is Ask && s->Ask_0 is Hash
        }) ==> gives_up(
            account::password_step(c, current, form, &PasswordAnswers { hashed: Asked::Failed, ..*a }),
            c.site,
        ),
        ({
            let s = account::password_step(c, current, form, &PasswordAnswers { changed: Asked::NotYet, ..*a });
            s is Ask && s->Ask_0 is Change
        }) ==> gives_up(
            account::password_step(c, current, form, &PasswordAnswers { changed: Asked::Failed, ..*a }),
            c.site,
        ),
{
}

/// Where the store fails while an authenticator is taken into use, the request ends in an internal
/// failure.
pub proof fn law_enrollment_outages(
    c: &Caller,
    ctx: &ChromeContext,
    form: &MeTotpConfirmForm,
    max: i64,
    a: &ConfirmAnswers,
)
    ensures
        ({
            let s = factors::totp_confirm_step(c, ctx, form, max, &ConfirmAnswers { pending: Asked::NotYet, ..*a });
            s is Ask && s->Ask_0 is Pending
        }) ==> gives_up(
            factors::totp_confirm_step(c, ctx, form, max, &ConfirmAnswers { pending: Asked::Failed, ..*a }),
            c.site,
        ),
        ({
            let s = factors::totp_confirm_step(c, ctx, form, max, &ConfirmAnswers { confirmed: Asked::NotYet, ..*a });
            s is Ask && s->Ask_0 is Confirm
        }) ==> gives_up(
            factors::totp_confirm_step(c, ctx, form, max, &ConfirmAnswers { confirmed: Asked::Failed, ..*a }),
            c.site,
        ),
{
}

/// Where the store fails while events are listed, the request ends in an internal failure.
pub proof fn law_events_outages(
    ctx: &ChromeContext,
    q: &EventsPageQuery,
    a: &EventsAnswers,
    now: &Timestamp,
)
    ensures
        ({
            let s = events::events_step(ctx, q, &EventsAnswers { count: Asked::NotYet, ..*a }, now);
            s is Ask && s->Ask_0 is Count
        }) ==> gives_up(
            events::events_step(ctx, q, &EventsAnswers { count: Asked::Failed, ..*a }, now),
            ctx.site,
        ),
        ({
            let s = events::events_step(ctx, q, &EventsAnswers { events: Asked::NotYet, ..*a }, now);
            s is Ask && s->Ask_0 is List
        }) ==> gives_up(
            events::events_step(ctx, q, &EventsAnswers { events: Asked::Failed, ..*a }, now),
            ctx.site,
        ),
{
}

/// Where the store fails while members are listed, the request ends in an internal failure.
pub proof fn law_directory_outages(
    ctx: &ChromeContext,
    q: &MembersPageQuery,
    a: MembersAnswers,
    now: &Timestamp,
)
    ensures
        ({
            let s = members::members_step(ctx, q, MembersAnswers { accounts: Accounts::NotYet, ..a }, now);
            s is Ask && s->Ask_0 is Accounts
        }) ==> gives_up(
            members::members_step(ctx, q, MembersAnswers { accounts: Accounts::Failed, ..a }, now),
            ctx.site,
        ),
        ({
            let s = members::members_step(ctx, q, MembersAnswers { invitations: Asked::NotYet, ..a }, now);
            s is Ask && s->Ask_0 is Invitations
        }) ==> gives_up(
            members::members_step(ctx, q, MembersAnswers { invitations: Asked::Failed, ..a }, now),
            ctx.site,
        ),
        ({
            let s = members::members_step(ctx, q, MembersAnswers { activity: Asked::NotYet, ..a }, now);
            s is Ask && s->Ask_0 is Activity
        }) ==> gives_up(
            members::members_step(ctx, q, MembersAnswers { activity: Asked::Failed, ..a }, now),
            ctx.site,
        ),
{
}

/// Where the store fails while a factor is enrolled, renamed or removed, the request ends in an
/// internal failure.
pub proof fn law_factor_outages(
    c: &Caller,
    ctx: &ChromeContext,
    kind: FactorKind,
    id: Uuid,
    label: Seq<char>,
    max: i64,
    count: i64,
    shown: Option<reply::ReplyView>,
)
    ensures
        factors::totp_start_step(c, ctx, max, Asked::NotYet, Asked::NotYet) is Ask ==> gives_up(
            factors::totp_start_step(c, ctx, max, Asked::Failed, Asked::NotYet),
            c.site,
        ),
        factors::totp_start_step(c, ctx, max, Asked::Answer(count), Asked::NotYet) is Ask ==> gives_up(
            factors::totp_start_step(c, ctx, max, Asked::Answer(count), Asked::Failed),
            c.site,
        ),
        factors::passkey_start_step(c, ctx, max, Asked::NotYet, Asked::NotYet) is Ask ==> gives_up(
            factors::passkey_start_step(c, ctx, max, Asked::Failed, Asked::NotYet),
            c.site,
        ),
        factors::passkey_start_step(c, ctx, max, Asked::Answer(count), Asked::NotYet) is Ask ==> gives_up(
            factors::passkey_start_step(c, ctx, max, Asked::Answer(count), Asked::Failed),
            c.site,
        ),
        factors::rename_step(c, id, label, Asked::NotYet, shown) is Ask ==> gives_up(
            factors::rename_step(c, id, label, Asked::Failed, shown),
            c.site,
        ),
        factors::removal_step(c, kind, id, Asked::NotYet, shown) is Ask ==> gives_up(
            factors::removal_step(c, kind, id, Asked::Failed, shown),
            c.site,
        ),
{
}

/// Where the store fails while a recovery code is made, the request ends in an internal failure.
pub proof fn law_recovery_code_outages(c: &Caller)
    ensures
        account::recovery_regenerate_step(c, Asked::NotYet) is Ask ==> gives_up(
            account::recovery_regenerate_step(c, Asked::Failed),
            c.site,
        ),
{
}

/// Where the store fails while the settings are read or stored, the request ends in an internal
/// failure.
pub proof fn law_settings_outages(
    c: &Caller,
    ctx: &ChromeContext,
    secure: bool,
    name: &SettingsIdentityForm,
)
    ensures
        settings::settings_step(ctx, Asked::NotYet) is Ask ==> gives_up(
            settings::settings_step(ctx, Asked::Failed),
            ctx.site,
        ),
        settings::identity_step(c, name, Asked::NotYet) is Ask ==> gives_up(
            settings::identity_step(c, name, Asked::Failed),
            c.site,
        ),
        settings::shutdown_step(c, secure, Asked::NotYet) is Ask ==> gives_up(
            settings::shutdown_step(c, secure, Asked::Failed),
            c.site,
        ),
{
}

/// Where the store fails while apps, resources or publishers are read or changed, the request ends
/// in an internal failure.
pub proof fn law_app_outages(
    c: &Caller,
    ctx: &ChromeContext,
    id: Uuid,
    resource: Uuid,
    action: Seq<char>,
    app: RegisteredAppRow,
    q: &ResourcesQuery,
    now: Timestamp,
    add: &PublishersAddForm,
    remove: &RemovePublisherForm,
    change: AppChangeView,
    done: Seq<char>,
)
    ensures
        apps::apps_step(ctx, Asked::NotYet, &now) is Ask ==> gives_up(
            apps::apps_step(ctx, Asked::Failed, &now),
            ctx.site,
        ),
        apps::app_modal_step(ctx, id, action, Asked::NotYet, Asked::NotYet) is Ask ==> gives_up(
            apps::app_modal_step(ctx, id, action, Asked::Failed, Asked::NotYet),
            ctx.site,
        ),
        apps::app_modal_step(ctx, id, action, Asked::Answer(Some(app)), Asked::NotYet) is Ask ==> gives_up(
            apps::app_modal_step(ctx, id, action, Asked::Answer(Some(app)), Asked::Failed),
            ctx.site,
        ),
        apps::app_step(c, change, done, Asked::NotYet) is Ask ==> gives_up(
            apps::app_step(c, change, done, Asked::Failed),
            c.site,
        ),
        apps::resources_step(ctx, id, q, Asked::NotYet, Asked::NotYet, now) is Ask ==> gives_up(
            apps::resources_step(ctx, id, q, Asked::Failed, Asked::NotYet, now),
            ctx.site,
        ),
        apps::resources_step(ctx, id, q, Asked::Answer(Some(app)), Asked::NotYet, now) is Ask ==> gives_up(
            apps::resources_step(ctx, id, q, Asked::Answer(Some(app)), Asked::Failed, now),
            ctx.site,
        ),
        apps::resource_modal_step(ctx, id, resource, Asked::NotYet) is Ask ==> gives_up(
            apps::resource_modal_step(ctx, id, resource, Asked::Failed),
            ctx.site,
        ),
        apps::delete_resource_step(c, id, resource, Asked::NotYet) is Ask ==> gives_up(
            apps::delete_resource_step(c, id, resource, Asked::Failed),
            c.site,
        ),
        apps::publishers_step(ctx, Asked::NotYet, &now) is Ask ==> gives_up(
            apps::publishers_step(ctx, Asked::Failed, &now),
            ctx.site,
        ),
        apps::add_publisher_step(c, add, Asked::NotYet) is Ask ==> gives_up(
            apps::add_publisher_step(c, add, Asked::Failed),
            c.site,
        ),
        apps::remove_publisher_step(c, remove, Asked::NotYet) is Ask ==> gives_up(
            apps::remove_publisher_step(c, remove, Asked::Failed),
            c.site,
        ),
{
}

/// Where the store fails while a transition or a member is looked up, the request ends in an
/// internal failure.
pub proof fn law_transition_outages(
    c: &Caller,
    ctx: &ChromeContext,
    id: Uuid,
    form: &ForceApplyForm,
    a: &ForceAnswers,
    segment: Seq<char>,
    name: Option<Option<String>>,
    labels: Option<Labels>,
)
    ensures
        pending::veto_modal_step(ctx, id, Asked::NotYet, name) is Ask ==> gives_up(
            pending::veto_modal_step(ctx, id, Asked::Failed, name),
            ctx.site,
        ),
        pending::force_modal_step(ctx, id, Asked::NotYet, labels) is Ask ==> gives_up(
            pending::force_modal_step(ctx, id, Asked::Failed, labels),
            ctx.site,
        ),
        ({
            let s = pending::force_step(c, ctx, id, form, &ForceAnswers { code_ok: Asked::NotYet, ..*a });
            s is Ask && s->Ask_0 is RecoveryCode
        }) ==> gives_up(
            pending::force_step(c, ctx, id, form, &ForceAnswers { code_ok: Asked::Failed, ..*a }),
            c.site,
        ),
        members::action_modal_step(ctx, id, segment, Asked::NotYet) is Ask ==> gives_up(
            members::action_modal_step(ctx, id, segment, Asked::Failed),
            ctx.site,
        ),
{
}

} // verus!
