//! The account page and the account settings.

use vstd::prelude::*;
use crate::audit;
use crate::audit::AuditEntry;
use crate::flows::devices;
use crate::flows::step;
use crate::flows::step::{Asked, Step};
use crate::forms;
use crate::forms::{MeEmailForm, MePasswordForm, MeProfileForm};
use crate::gate;
use crate::gate::{Caller, Floor};
use crate::listing;
use crate::model::{
    InstanceRole, Session, Timestamp, TotpCredential, User, UserRecoveryCodeRow, Uuid,
    WebauthnCredentialRow,
};
use crate::reply;
use crate::reply::{redirect_to_me_with_action, redirect_to_me_with_error, Reply};
use crate::text;
use crate::views::account;
use crate::views::account::SettingsFeedback;
use crate::views::security;
use crate::views::security::FactorLimits;
use crate::views::shell::ChromeContext;

verus! {

/// Whether the number of waiting transitions is looked up for a viewer: only for owners.
pub fn wants_pending_count(role: InstanceRole) -> (r: bool)
    ensures
        r == (role == InstanceRole::Owner),
{
    role == InstanceRole::Owner
}

/// The number of waiting transitions that a viewer is shown: none to anyone but owners, and none
/// where it could not be looked up.
pub fn pending_count_for(role: InstanceRole, counted: Option<u32>) -> (r: Option<u32>)
    ensures
        r == (if role == InstanceRole::Owner {
            counted
        } else {
            None
        }),
{
    if role == InstanceRole::Owner {
        counted
    } else {
        None
    }
}

/// `GET /me`.
pub fn me_page(ctx: &ChromeContext) -> (r: Reply)
    ensures
        r@ == reply::ok_page(account::me_page_html(ctx)),
{
    Reply::ok_page(account::me_page(ctx))
}

/// What the settings dialog shows. A list is none where it could not be looked up.
pub struct SettingsData {
    pub recovery: Option<UserRecoveryCodeRow>,
    pub authenticators: Option<Vec<TotpCredential>>,
    pub passkeys: Option<Vec<WebauthnCredentialRow>>,
    pub passkey_available: bool,
    pub limits: FactorLimits,
    /// The sessions in the store, ended ones among them.
    pub sessions: Option<Vec<Session>>,
    pub current_session: Uuid,
    /// Whether closing the account would leave the instance without an owner.
    pub last_owner: bool,
}

/// `GET /modals/account-settings`: the dialog opens even where parts of it could not be looked up.
pub fn account_settings_modal(ctx: &ChromeContext, data: SettingsData, now: &Timestamp) -> (r: Reply)
    ensures
        r@ == reply::ok_page(
            account::account_settings_modal_html(
                ctx,
                match data.recovery {
                    Some(meta) => Some(&meta),
                    None => None,
                },
                listing::or_none(data.authenticators),
                listing::or_none(data.passkeys),
                data.passkey_available,
                data.limits,
                listing::or_none(data.sessions).filter(|s: Session| devices::is_active(s, now@)),
                data.current_session,
                now,
                data.last_owner,
            ),
        ),
{
    let recovery: Option<&UserRecoveryCodeRow> = match &data.recovery {
        Some(meta) => Some(meta),
        None => None,
    };
    let authenticators = listing::or_empty(data.authenticators);
    let passkeys = listing::or_empty(data.passkeys);
    let sessions = devices::active_sessions(listing::or_empty(data.sessions), now);
    Reply::ok_page(
        account::account_settings_modal(
            ctx,
            recovery,
            authenticators.as_slice(),
            passkeys.as_slice(),
            data.passkey_available,
            data.limits,
            sessions.as_slice(),
            data.current_session,
            now,
            data.last_owner,
        ),
    )
}

// ---- Display name ----------------------------------------------------------------------------

/// What a change of the display name asks for: to store the new name of the user in place of the
/// old one.
pub enum ProfileAsk {
    Rename { user: Uuid, old: String, name: String },
}

pub enum ProfileAskView {
    Rename { user: Uuid, old: Seq<char>, name: Seq<char> },
}

impl View for ProfileAsk {
    type V = ProfileAskView;

    open spec fn view(&self) -> ProfileAskView {
        match *self {
            ProfileAsk::Rename { user, old, name } => ProfileAskView::Rename {
                user,
                old: old@,
                name: name@,
            },
        }
    }
}

impl ProfileAskView {
    /// What is logged with the change, both or neither; `stored` is the name as the store has it.
    pub open spec fn entry(self, stored: Seq<char>) -> audit::EntryView {
        match self {
            ProfileAskView::Rename { old, .. } => audit::profile_entry(old, stored),
        }
    }
}

impl ProfileAsk {
    pub fn entry(&self, stored: &str) -> (r: AuditEntry)
        ensures
            r@ == self@.entry(stored@),
    {
        match self {
            ProfileAsk::Rename { old, .. } => audit::profile_updated(old.as_str(), stored),
        }
    }
}

/// The name row with how the save went, for the account as it is now.
pub open spec fn name_partial(ctx: &ChromeContext, user: User, feedback: account::FeedbackText) -> reply::ReplyView {
    reply::ok_page(
        account::settings_name_form_html(
            &ChromeContext { user: &user, ..*ctx },
            Some(feedback),
        ),
    )
}

fn render_name_partial(ctx: &ChromeContext, user: &User, feedback: SettingsFeedback) -> (r: Reply)
    ensures
        r@ == name_partial(ctx, *user, feedback@),
{
    let ctx = ChromeContext {
        site: ctx.site,
        instance_name: ctx.instance_name,
        user,
        csrf_token: ctx.csrf_token,
        pending_count: ctx.pending_count,
    };
    Reply::ok_page(account::settings_name_form(&ctx, Some(&feedback)))
}

pub open spec fn profile_step(
    c: &Caller,
    ctx: &ChromeContext,
    form: &MeProfileForm,
    updated: Asked<User>,
) -> step::StepView<ProfileAskView> {
    let name = text::trimmed(form.display_name@);
    if !c.csrf_ok {
        step::replied(gate::bad_token(c.site))
    } else if name.len() == 0 {
        step::replied(
            name_partial(
                ctx,
                *ctx.user,
                account::FeedbackText::Error("Display name can't be blank."@),
            ),
        )
    } else {
        match updated {
            Asked::NotYet => step::StepView::Ask(
                ProfileAskView::Rename { user: c.user_id, old: ctx.user.display_name@, name },
            ),
            Asked::Failed => step::replied(
                name_partial(
                    ctx,
                    *ctx.user,
                    account::FeedbackText::Error("Something went wrong. Try again."@),
                ),
            ),
            Asked::Answer(user) => step::replied(
                name_partial(ctx, user, account::FeedbackText::Success("Profile updated."@)),
            ),
        }
    }
}

/// `POST /me/profile`: changes the display name. `updated` is the account after the change.
pub fn me_profile_submit(
    c: &Caller,
    ctx: &ChromeContext,
    form: &MeProfileForm,
    updated: &Asked<User>,
) -> (r: Step<ProfileAsk>)
    ensures
        r@ == profile_step(c, ctx, form, *updated),
{
    match gate::check_all(c, Floor::Member, false) {
        Ok(()) => {},
        Err(reply) => {
            return Step::replied(reply);
        },
    }
    let name = text::trim(form.display_name.as_str());
    if name.as_str().is_empty() {
        return Step::replied(
            render_name_partial(
                ctx,
                ctx.user,
                SettingsFeedback::Error("Display name can't be blank.".to_owned()),
            ),
        );
    }
    match updated {
        Asked::NotYet => Step::Ask(
            ProfileAsk::Rename {
                user: c.user_id,
                old: ctx.user.display_name.as_str().to_owned(),
                name,
            },
        ),
        Asked::Failed => Step::replied(
            render_name_partial(
                ctx,
                ctx.user,
                SettingsFeedback::Error("Something went wrong. Try again.".to_owned()),
            ),
        ),
        Asked::Answer(user) => Step::replied(
            render_name_partial(
                ctx,
                user,
                SettingsFeedback::Success("Profile updated.".to_owned()),
            ),
        ),
    }
}

/// A display name that is stored is the caller's own; it is never blank and never starts or ends
/// with white space.
pub proof fn law_stored_names_are_trimmed(
    c: &Caller,
    ctx: &ChromeContext,
    form: &MeProfileForm,
    updated: Asked<User>,
)
    ensures
        profile_step(c, ctx, form, updated) matches step::StepView::Ask(
            ProfileAskView::Rename { user, name, .. },
        ) ==> user == c.user_id && name.len() > 0 && text::trimmed(name) == name,
{
    text::law_trim_idempotent(form.display_name@);
}

// ---- Email -----------------------------------------------------------------------------------

/// What a change of the email asks for.
pub enum EmailAsk {
    /// Whether an account has this email.
    InUse(String),
    /// To store the new email of the user in place of the old one.
    Change { user: Uuid, old: String, email: String },
}

pub enum EmailAskView {
    InUse(Seq<char>),
    Change { user: Uuid, old: Seq<char>, email: Seq<char> },
}

impl View for EmailAsk {
    type V = EmailAskView;

    open spec fn view(&self) -> EmailAskView {
        match *self {
            EmailAsk::InUse(email) => EmailAskView::InUse(email@),
            EmailAsk::Change { user, old, email } => EmailAskView::Change {
                user,
                old: old@,
                email: email@,
            },
        }
    }
}

impl EmailAskView {
    /// What is logged with the change, both or neither; `stored` is the email as the store has it.
    pub open spec fn entry(self, stored: Seq<char>) -> Option<audit::EntryView> {
        match self {
            EmailAskView::Change { old, .. } => Some(audit::email_entry(old, stored)),
            EmailAskView::InUse(_) => None,
        }
    }
}

impl EmailAsk {
    pub fn entry(&self, stored: &str) -> (r: Option<AuditEntry>)
        ensures
            audit::of(r) == self@.entry(stored@),
    {
        match self {
            EmailAsk::Change { old, .. } => Some(audit::email_changed(old.as_str(), stored)),
            EmailAsk::InUse(_) => None,
        }
    }
}

pub struct EmailAnswers {
    pub in_use: Asked<bool>,
    pub changed: Asked<()>,
}

pub open spec fn email_step(
    c: &Caller,
    current: Seq<char>,
    form: &MeEmailForm,
    a: &EmailAnswers,
) -> step::StepView<EmailAskView> {
    let email = text::trimmed(form.email@);
    if !gate::admitted(c, Floor::Member, true) {
        step::replied(gate::refusal(c, Floor::Member))
    } else if !forms::email_shaped(email) {
        step::replied(reply::me_failing(c.htmx, "email_required"@))
    } else if email == current {
        step::replied(reply::me_after(c.htmx, "email_unchanged"@))
    } else {
        match a.in_use {
            Asked::NotYet => step::StepView::Ask(EmailAskView::InUse(email)),
            Asked::Failed => step::gave_up(c.site),
            Asked::Answer(true) => step::replied(
                reply::me_failing(c.htmx, "email_already_in_use"@),
            ),
            Asked::Answer(false) => match a.changed {
                Asked::NotYet => step::StepView::Ask(
                    EmailAskView::Change { user: c.user_id, old: current, email },
                ),
                Asked::Failed => step::gave_up(c.site),
                Asked::Answer(_) => step::replied(
                    reply::me_after(c.htmx, "email_updated"@),
                ),
            },
        }
    }
}

/// `POST /me/email`: changes the email of an account; `current` is the one it has.
pub fn me_email_submit(c: &Caller, current: &str, form: &MeEmailForm, a: &EmailAnswers) -> (r: Step<EmailAsk>)
    ensures
        r@ == email_step(c, current@, form, a),
{
    match gate::check_all(c, Floor::Member, true) {
        Ok(()) => {},
        Err(reply) => {
            return Step::replied(reply);
        },
    }
    let email = text::trim(form.email.as_str());
    if !forms::looks_like_email(email.as_str()) {
        return Step::replied(redirect_to_me_with_error(c.htmx, "email_required"));
    }
    if text::same(email.as_str(), current) {
        return Step::replied(redirect_to_me_with_action(c.htmx, "email_unchanged"));
    }
    match &a.in_use {
        Asked::NotYet => Step::Ask(EmailAsk::InUse(email)),
        Asked::Failed => Step::gave_up(c.site),
        Asked::Answer(true) => Step::replied(
            redirect_to_me_with_error(c.htmx, "email_already_in_use"),
        ),
        Asked::Answer(false) => match &a.changed {
            Asked::NotYet => Step::Ask(
                EmailAsk::Change { user: c.user_id, old: current.to_owned(), email },
            ),
            Asked::Failed => Step::gave_up(c.site),
            Asked::Answer(_) => Step::replied(
                redirect_to_me_with_action(c.htmx, "email_updated"),
            ),
        },
    }
}

/// An email is changed only by its owner, freshly confirmed, and only to another one that looks
/// like an email and that nobody has.
pub proof fn law_email_change(
    c: &Caller,
    current: Seq<char>,
    form: &MeEmailForm,
    a: &EmailAnswers,
    user: Uuid,
    old: Seq<char>,
    email: Seq<char>,
)
    requires
        email_step(c, current, form, a) == step::StepView::<EmailAskView>::Ask(
            EmailAskView::Change { user, old, email },
        ),
    ensures
        user == c.user_id,
        old == current,
        c.csrf_ok,
        c.sudo == Some(c.user_id),
        forms::email_shaped(email),
        email != current,
        a.in_use == Asked::<bool>::Answer(false),
{
}

// ---- Password --------------------------------------------------------------------------------

/// What a change of the password asks for.
pub enum PasswordAsk {
    /// The hash of the new password.
    Hash(String),
    /// To store the hash for the user and to end every session of theirs but this one.
    Change { user: Uuid, hash: String, keep: Uuid },
}

pub enum PasswordAskView {
    Hash(Seq<char>),
    Change { user: Uuid, hash: Seq<char>, keep: Uuid },
}

impl View for PasswordAsk {
    type V = PasswordAskView;

    open spec fn view(&self) -> PasswordAskView {
        match *self {
            PasswordAsk::Hash(password) => PasswordAskView::Hash(password@),
            PasswordAsk::Change { user, hash, keep } => PasswordAskView::Change {
                user,
                hash: hash@,
                keep,
            },
        }
    }
}

impl PasswordAskView {
    /// What is logged with the change, both or neither: how many sessions it ended.
    pub open spec fn entry(self, revoked: u64) -> Option<audit::EntryView> {
        match self {
            PasswordAskView::Change { .. } => Some(audit::password_entry(revoked)),
            PasswordAskView::Hash(_) => None,
        }
    }
}

impl PasswordAsk {
    pub fn entry(&self, revoked: u64) -> (r: Option<AuditEntry>)
        ensures
            audit::of(r) == self@.entry(revoked),
    {
        match self {
            PasswordAsk::Change { .. } => Some(audit::password_changed(revoked)),
            PasswordAsk::Hash(_) => None,
        }
    }
}

pub struct PasswordAnswers {
    pub hashed: Asked<String>,
    pub changed: Asked<()>,
}

pub open spec fn password_step(
    c: &Caller,
    current: Uuid,
    form: &MePasswordForm,
    a: &PasswordAnswers,
) -> step::StepView<PasswordAskView> {
    if !c.csrf_ok {
        step::replied(gate::bad_token(c.site))
    } else if form.new_password@.len() == 0 {
        step::replied(reply::me_failing(c.htmx, "new_password_required"@))
    } else if c.sudo != Some(c.user_id) {
        step::replied(gate::unconfirmed())
    } else {
        match a.hashed {
            Asked::NotYet => step::StepView::Ask(PasswordAskView::Hash(form.new_password@)),
            Asked::Failed => step::gave_up(c.site),
            Asked::Answer(hash) => match a.changed {
                Asked::NotYet => step::StepView::Ask(
                    PasswordAskView::Change { user: c.user_id, hash: hash@, keep: current },
                ),
                Asked::Failed => step::gave_up(c.site),
                Asked::Answer(_) => step::replied(
                    reply::ok_page(security::password_changed_success_content_html()),
                ),
            },
        }
    }
}

/// `POST /me/password`: changes the password, white space and all. `current` is the session that
/// the form came with, which stays open.
pub fn me_password_submit(
    c: &Caller,
    current: Uuid,
    form: &MePasswordForm,
    a: &PasswordAnswers,
) -> (r: Step<PasswordAsk>)
    ensures
        r@ == password_step(c, current, form, a),
{
    match gate::check_all(c, Floor::Member, false) {
        Ok(()) => {},
        Err(reply) => {
            return Step::replied(reply);
        },
    }
    if form.new_password.as_str().is_empty() {
        return Step::replied(redirect_to_me_with_error(c.htmx, "new_password_required"));
    }
    match gate::require_sudo(c.sudo, c.user_id) {
        Ok(()) => {},
        Err(reply) => {
            return Step::replied(reply);
        },
    }
    match &a.hashed {
        Asked::NotYet => Step::Ask(PasswordAsk::Hash(form.new_password.as_str().to_owned())),
        Asked::Failed => Step::gave_up(c.site),
        Asked::Answer(hash) => match &a.changed {
            Asked::NotYet => Step::Ask(
                PasswordAsk::Change {
                    user: c.user_id,
                    hash: hash.as_str().to_owned(),
                    keep: current,
                },
            ),
            Asked::Failed => Step::gave_up(c.site),
            Asked::Answer(_) => Step::replied(
                Reply::ok_page(security::password_changed_success_content()),
            ),
        },
    }
}

/// A password is changed only for a freshly confirmed user, for nobody else, and never to the
/// empty one; the session that changed it stays open.
pub proof fn law_password_change(c: &Caller, current: Uuid, form: &MePasswordForm, a: &PasswordAnswers)
    requires
        password_step(c, current, form, a) is Ask,
    ensures
        c.csrf_ok,
        c.sudo == Some(c.user_id),
        form.new_password@.len() > 0,
        password_step(c, current, form, a) matches step::StepView::Ask(
            PasswordAskView::Change { user, keep, .. },
        ) ==> user == c.user_id && keep == current,
{
}

// ---- Recovery code ---------------------------------------------------------------------------

/// A new recovery code, with the row that now describes it.
pub struct NewRecoveryCode {
    pub code: String,
    pub meta: Option<UserRecoveryCodeRow>,
}

/// The new code, shown once, with the status line refreshed beside it.
pub open spec fn recovery_code_shown(new: NewRecoveryCode) -> reply::ReplyView {
    reply::ok_page(
        account::recovery_code_modal_content_html(new.code@) + account::recovery_status_html(
            match new.meta {
                Some(meta) => Some(&meta),
                None => None,
            },
            true,
        ),
    )
}

/// To replace the recovery code of a user. The answer is the new one.
#[derive(Clone, Copy, Debug, PartialEq, Eq, Structural)]
pub struct RotateCode {
    pub user: Uuid,
}

impl View for RotateCode {
    type V = RotateCode;

    open spec fn view(&self) -> RotateCode {
        *self
    }
}

impl RotateCode {
    /// What is logged with the new code, both or neither.
    pub fn entry(self) -> (e: AuditEntry)
        ensures
            e@ == audit::code_rotated_entry(),
    {
        audit::recovery_code_rotated()
    }
}

pub open spec fn recovery_regenerate_step(
    c: &Caller,
    rotated: Asked<NewRecoveryCode>,
) -> step::StepView<RotateCode> {
    if !gate::admitted(c, Floor::Member, true) {
        step::replied(gate::refusal(c, Floor::Member))
    } else {
        match rotated {
            Asked::NotYet => step::StepView::Ask(RotateCode { user: c.user_id }),
            Asked::Failed => step::gave_up(c.site),
            Asked::Answer(new) => step::replied(recovery_code_shown(new)),
        }
    }
}

/// `POST /me/recovery-code/regenerate`: makes a new recovery code and shows it once.
pub fn me_recovery_regenerate(c: &Caller, rotated: &Asked<NewRecoveryCode>) -> (r: Step<RotateCode>)
    ensures
        r@ == recovery_regenerate_step(c, *rotated),
{
    match gate::check_all(c, Floor::Member, true) {
        Ok(()) => {},
        Err(reply) => {
            return Step::replied(reply);
        },
    }
    match rotated {
        Asked::NotYet => Step::Ask(RotateCode { user: c.user_id }),
        Asked::Failed => Step::gave_up(c.site),
        Asked::Answer(new) => {
            let meta: Option<&UserRecoveryCodeRow> = match &new.meta {
                Some(meta) => Some(meta),
                None => None,
            };
            let status = account::recovery_status(meta, true);
            Step::replied(
                Reply::ok_page(
                    account::recovery_code_modal_content(new.code.as_str()).then_html(&status),
                ),
            )
        },
    }
}

} // verus!
