//! Authenticators and passkeys: enrolling, naming and removing them.

use vstd::prelude::*;
use crate::audit;
use crate::audit::AuditEntry;
use crate::flows::step;
use crate::flows::step::{Asked, Finish, Step};
use crate::forms;
use crate::forms::{MePasskeyFinishForm, MeTotpConfirmForm, MeTotpRenameForm};
use crate::gate;
use crate::gate::{Caller, Floor};
use crate::model::{TotpCredential, Uuid, WebauthnCredentialRow};
use crate::reply;
use crate::reply::{redirect_to_me_with_error, Reply};
use crate::text;
use crate::views::security;
use crate::views::security::SectionMode;
use crate::views::shell::ChromeContext;

verus! {

// ---- QR codes --------------------------------------------------------------------------------

/// Sides of a QR image are at least this long, in pixels.
pub const QR_SIDE: u32 = 184;

pub const QR_DARK: &'static str = "#101828";

pub const QR_LIGHT: &'static str = "#ffffff";

/// What `qrcode` draws for a text: the SVG image, or none where the text is too long.
pub uninterp spec fn qr_image(data: Seq<char>, side: u32, quiet_zone: bool, dark: Seq<char>, light: Seq<char>) -> Option<Seq<char>>;

/// Calls `qrcode::QrCode::new` on the bytes of a text and renders the code with
/// `qrcode::render::svg::Color`, at least `side` pixels wide and high, in the two colours given.
/// The image is a function of these arguments, and it is named, not described. A side up to
/// 65535 pixels leaves the renderer's sums within 32 bits.
#[verifier::external_body]
fn draw_qr(data: &str, side: u32, quiet_zone: bool, dark: &str, light: &str) -> (r: Option<String>)
    requires
        side <= 65535,
    ensures
        text::opt_string(r) == qr_image(data@, side, quiet_zone, dark@, light@),
{
    match qrcode::QrCode::new(data.as_bytes()) {
        Ok(code) => Some(
            code.render::<qrcode::render::svg::Color<'_>>()
                .min_dimensions(side, side)
                .quiet_zone(quiet_zone)
                .dark_color(qrcode::render::svg::Color(dark))
                .light_color(qrcode::render::svg::Color(light))
                .build(),
        ),
        Err(_) => None,
    }
}

/// The QR image of a text; a text that is too long has none.
pub open spec fn qr_svg(data: Seq<char>) -> Seq<char> {
    image_or_nothing(qr_image(data, QR_SIDE, true, QR_DARK@, QR_LIGHT@))
}

pub open spec fn image_or_nothing(image: Option<Seq<char>>) -> Seq<char> {
    match image {
        Some(svg) => svg,
        None => Seq::empty(),
    }
}

/// The image, or the empty text where there is none.
pub fn image_or_empty(image: Option<String>) -> (r: String)
    ensures
        r@ == image_or_nothing(text::opt_string(image)),
{
    match image {
        Some(svg) => svg,
        None => String::new(),
    }
}

pub fn render_qr_svg(data: &str) -> (r: String)
    ensures
        r@ == qr_svg(data@),
{
    image_or_empty(draw_qr(data, QR_SIDE, true, QR_DARK, QR_LIGHT))
}

// ---- Authenticators --------------------------------------------------------------------------

/// The section of authenticators; `creds` is none where the store failed.
pub open spec fn authenticators(
    ctx: &ChromeContext,
    creds: Option<Vec<TotpCredential>>,
    mode: SectionMode,
    max: i64,
) -> reply::ReplyView {
    match creds {
        Some(list) => reply::ok_page(
            security::totp_authenticators_section_html(ctx, list@, mode, max, false),
        ),
        None => reply::internal_failure(ctx.site),
    }
}

/// `GET /me/totp/section`, `GET /me/totp/{id}/edit` and `GET /me/totp/{id}/confirm-delete`.
pub fn totp_section_response(
    ctx: &ChromeContext,
    creds: Option<Vec<TotpCredential>>,
    mode: SectionMode,
    max: i64,
) -> (r: Reply)
    ensures
        r@ == authenticators(ctx, creds, mode, max),
{
    match creds {
        Some(list) => Reply::ok_page(
            security::totp_authenticators_section(ctx, list.as_slice(), mode, max, false),
        ),
        None => Reply::internal_failure(ctx.site),
    }
}

/// An enrollment on the way: its credential, the secret in base 32 and the address that an
/// authenticator reads from the QR image.
pub struct Enrollment {
    pub cred_id: Uuid,
    pub secret_b32: String,
    pub uri: String,
}

/// The fragment with the QR image, the secret and the form for the first code.
pub open spec fn enrolling(ctx: &ChromeContext, e: Enrollment, error: Option<Seq<char>>) -> reply::ReplyView {
    reply::ok_page(
        security::totp_enroll_modal_content_html(
            qr_svg(e.uri@),
            e.secret_b32@,
            e.cred_id,
            ctx.csrf_token@,
            error,
        ),
    )
}

fn totp_enroll_response(ctx: &ChromeContext, e: &Enrollment, error: Option<&str>) -> (r: Reply)
    ensures
        r@ == enrolling(ctx, *e, text::opt(error)),
{
    let qr = render_qr_svg(e.uri.as_str());
    Reply::ok_page(
        security::totp_enroll_modal_content(
            qr.as_str(),
            e.secret_b32.as_str(),
            e.cred_id,
            ctx.csrf_token,
            error,
        ),
    )
}

/// What the start of an enrollment asks for, of the user who enrolls.
#[derive(Clone, Copy, Debug, PartialEq, Eq, Structural)]
pub enum EnrollAsk {
    /// How many factors of this kind the user has.
    Count(Uuid),
    /// To begin the enrollment.
    Begin(Uuid),
}

impl View for EnrollAsk {
    type V = EnrollAsk;

    open spec fn view(&self) -> EnrollAsk {
        *self
    }
}

pub open spec fn totp_start_step(
    c: &Caller,
    ctx: &ChromeContext,
    max: i64,
    count: Asked<i64>,
    begun: Asked<Enrollment>,
) -> step::StepView<EnrollAsk> {
    if !gate::admitted(c, Floor::Member, true) {
        step::replied(gate::refusal(c, Floor::Member))
    } else {
        match count {
            Asked::NotYet => step::StepView::Ask(EnrollAsk::Count(c.user_id)),
            Asked::Failed => step::gave_up(c.site),
            Asked::Answer(n) => if n >= max {
                step::replied(reply::ok_page(security::totp_limit_reached_content_html()))
            } else {
                match begun {
                    Asked::NotYet => step::StepView::Ask(EnrollAsk::Begin(c.user_id)),
                    Asked::Failed => step::gave_up(c.site),
                    Asked::Answer(e) => step::replied(enrolling(ctx, e, None)),
                }
            },
        }
    }
}

/// `POST /me/totp/start`: begins to enroll an authenticator, as long as there is room for it.
pub fn me_totp_start(
    c: &Caller,
    ctx: &ChromeContext,
    max: i64,
    count: &Asked<i64>,
    begun: &Asked<Enrollment>,
) -> (r: Step<EnrollAsk>)
    ensures
        r@ == totp_start_step(c, ctx, max, *count, *begun),
{
    match gate::check_all(c, Floor::Member, true) {
        Ok(()) => {},
        Err(reply) => {
            return Step::replied(reply);
        },
    }
    match count {
        Asked::NotYet => Step::Ask(EnrollAsk::Count(c.user_id)),
        Asked::Failed => Step::gave_up(c.site),
        Asked::Answer(n) => if *n >= max {
            Step::replied(Reply::ok_page(security::totp_limit_reached_content()))
        } else {
            match begun {
                Asked::NotYet => Step::Ask(EnrollAsk::Begin(c.user_id)),
                Asked::Failed => Step::gave_up(c.site),
                Asked::Answer(e) => Step::replied(totp_enroll_response(ctx, e, None)),
            }
        },
    }
}

/// What the end of an enrollment asks for.
pub enum ConfirmAsk {
    /// The enrollment of the user that is on the way under this credential.
    Pending { user: Uuid, cred_id: Uuid },
    /// Whether the code belongs to the secret right now.
    Check { secret_b32: String, code: String },
    /// To take the credential of the user into use under this name.
    Confirm { user: Uuid, cred_id: Uuid, label: String },
    /// The authenticators the user has now.
    List(Uuid),
}

pub enum ConfirmAskView {
    Pending { user: Uuid, cred_id: Uuid },
    Check { secret_b32: Seq<char>, code: Seq<char> },
    Confirm { user: Uuid, cred_id: Uuid, label: Seq<char> },
    List(Uuid),
}

impl View for ConfirmAsk {
    type V = ConfirmAskView;

    open spec fn view(&self) -> ConfirmAskView {
        match *self {
            ConfirmAsk::Pending { user, cred_id } => ConfirmAskView::Pending { user, cred_id },
            ConfirmAsk::Check { secret_b32, code } => ConfirmAskView::Check {
                secret_b32: secret_b32@,
                code: code@,
            },
            ConfirmAsk::Confirm { user, cred_id, label } => ConfirmAskView::Confirm {
                user,
                cred_id,
                label: label@,
            },
            ConfirmAsk::List(user) => ConfirmAskView::List(user),
        }
    }
}

impl ConfirmAskView {
    /// What is logged with the action, both or neither.
    pub open spec fn entry(self) -> Option<audit::EntryView> {
        match self {
            ConfirmAskView::Confirm { cred_id, .. } => Some(audit::totp_enrolled_entry(cred_id)),
            _ => None,
        }
    }
}

impl ConfirmAsk {
    pub fn entry(&self) -> (r: Option<AuditEntry>)
        ensures
            audit::of(r) == self@.entry(),
    {
        match self {
            ConfirmAsk::Confirm { cred_id, .. } => Some(audit::totp_enrolled(*cred_id)),
            _ => None,
        }
    }
}

pub struct ConfirmAnswers {
    pub pending: Asked<Option<Enrollment>>,
    pub code_ok: Option<bool>,
    pub confirmed: Asked<()>,
    /// The authenticators; empty where they could not be listed.
    pub list: Option<Vec<TotpCredential>>,
}

pub open spec fn totp_confirm_step(
    c: &Caller,
    ctx: &ChromeContext,
    form: &MeTotpConfirmForm,
    max: i64,
    a: &ConfirmAnswers,
) -> step::StepView<ConfirmAskView> {
    if !c.csrf_ok {
        step::replied(gate::bad_token(c.site))
    } else {
        match a.pending {
            Asked::NotYet => step::StepView::Ask(
                ConfirmAskView::Pending { user: c.user_id, cred_id: form.cred_id },
            ),
            Asked::Failed => step::gave_up(c.site),
            Asked::Answer(None) => step::replied(
                reply::me_failing(true, "totp_setup_expired"@),
            ),
            Asked::Answer(Some(e)) => match a.code_ok {
                None => step::StepView::Ask(
                    ConfirmAskView::Check {
                        secret_b32: e.secret_b32@,
                        code: text::trimmed(form.code@),
                    },
                ),
                Some(false) => step::replied(
                    enrolling(
                        ctx,
                        Enrollment { cred_id: form.cred_id, ..e },
                        Some("That code didn't match. Try again."@),
                    ),
                ),
                Some(true) => match a.confirmed {
                    Asked::NotYet => step::StepView::Ask(
                        ConfirmAskView::Confirm {
                            user: c.user_id,
                            cred_id: form.cred_id,
                            label: forms::factor_label(form.label@),
                        },
                    ),
                    Asked::Failed => step::gave_up(c.site),
                    Asked::Answer(_) => match a.list {
                        None => step::StepView::Ask(ConfirmAskView::List(c.user_id)),
                        Some(list) => step::replied(
                            reply::ok_page(
                                security::totp_enrolled_success_content_html()
                                    + security::totp_authenticators_section_html(
                                    ctx,
                                    list@,
                                    SectionMode::Normal,
                                    max,
                                    true,
                                ),
                            ),
                        ),
                    },
                },
            },
        }
    }
}

/// `POST /me/totp/confirm`: ends an enrollment with a first code.
pub fn me_totp_confirm(
    c: &Caller,
    ctx: &ChromeContext,
    form: &MeTotpConfirmForm,
    max: i64,
    a: &ConfirmAnswers,
) -> (r: Step<ConfirmAsk>)
    ensures
        r@ == totp_confirm_step(c, ctx, form, max, a),
{
    match gate::check_all(c, Floor::Member, false) {
        Ok(()) => {},
        Err(reply) => {
            return Step::replied(reply);
        },
    }
    match &a.pending {
        Asked::NotYet => Step::Ask(
            ConfirmAsk::Pending { user: c.user_id, cred_id: form.cred_id },
        ),
        Asked::Failed => Step::gave_up(c.site),
        Asked::Answer(None) => Step::replied(
            redirect_to_me_with_error(true, "totp_setup_expired"),
        ),
        Asked::Answer(Some(e)) => match a.code_ok {
            None => Step::Ask(
                ConfirmAsk::Check {
                    secret_b32: e.secret_b32.as_str().to_owned(),
                    code: text::trim(form.code.as_str()),
                },
            ),
            Some(false) => {
                let qr = render_qr_svg(e.uri.as_str());
                Step::replied(
                    Reply::ok_page(
                        security::totp_enroll_modal_content(
                            qr.as_str(),
                            e.secret_b32.as_str(),
                            form.cred_id,
                            ctx.csrf_token,
                            Some("That code didn't match. Try again."),
                        ),
                    ),
                )
            },
            Some(true) => match &a.confirmed {
                Asked::NotYet => Step::Ask(
                    ConfirmAsk::Confirm {
                        user: c.user_id,
                        cred_id: form.cred_id,
                        label: forms::clean_label(form.label.as_str()),
                    },
                ),
                Asked::Failed => Step::gave_up(c.site),
                Asked::Answer(_) => match &a.list {
                    None => Step::Ask(ConfirmAsk::List(c.user_id)),
                    Some(list) => {
                        let section = security::totp_authenticators_section(
                            ctx,
                            list.as_slice(),
                            SectionMode::Normal,
                            max,
                            true,
                        );
                        Step::replied(
                            Reply::ok_page(
                                security::totp_enrolled_success_content().then_html(&section),
                            ),
                        )
                    },
                },
            },
        },
    }
}

/// An authenticator is taken into use only for the caller, under the credential of the form, and
/// after a code of it was right.
pub proof fn law_enrollment_needs_a_code(
    c: &Caller,
    ctx: &ChromeContext,
    form: &MeTotpConfirmForm,
    max: i64,
    a: &ConfirmAnswers,
    user: Uuid,
    cred_id: Uuid,
    label: Seq<char>,
)
    requires
        totp_confirm_step(c, ctx, form, max, a) == step::StepView::<ConfirmAskView>::Ask(
            ConfirmAskView::Confirm { user, cred_id, label },
        ),
    ensures
        user == c.user_id,
        cred_id == form.cred_id,
        c.csrf_ok,
        a.code_ok == Some(true),
        a.pending matches Asked::Answer(Some(_)),
{
}

/// A first code is held against the secret of the enrollment that is on the way, and no other.
pub proof fn law_code_is_held_against_the_pending_secret(
    c: &Caller,
    ctx: &ChromeContext,
    form: &MeTotpConfirmForm,
    max: i64,
    a: &ConfirmAnswers,
    secret_b32: Seq<char>,
    code: Seq<char>,
)
    requires
        totp_confirm_step(c, ctx, form, max, a) == step::StepView::<ConfirmAskView>::Ask(
            ConfirmAskView::Check { secret_b32, code },
        ),
    ensures
        a.pending matches Asked::Answer(Some(e)) && secret_b32 == e.secret_b32@,
        code == text::trimmed(form.code@),
        c.csrf_ok,
{
}

/// An authenticator is enrolled only while there is room for it.
pub proof fn law_enrollment_needs_room(
    c: &Caller,
    ctx: &ChromeContext,
    max: i64,
    count: Asked<i64>,
    begun: Asked<Enrollment>,
    user: Uuid,
)
    requires
        totp_start_step(c, ctx, max, count, begun) == step::StepView::Ask(EnrollAsk::Begin(user)),
    ensures
        user == c.user_id,
        c.sudo == Some(c.user_id),
        count matches Asked::Answer(n) && n < max,
{
}

/// A passkey is enrolled only while there is room for it.
pub proof fn law_passkey_enrollment_needs_room(
    c: &Caller,
    ctx: &ChromeContext,
    max: i64,
    count: Asked<i64>,
    begun: Asked<Ceremony>,
    user: Uuid,
)
    requires
        passkey_start_step(c, ctx, max, count, begun) == step::StepView::Ask(
            EnrollAsk::Begin(user),
        ),
    ensures
        user == c.user_id,
        c.sudo == Some(c.user_id),
        count matches Asked::Answer(n) && n < max,
{
}

/// The sorts of factor that a user names and removes.
#[derive(Clone, Copy, Debug, PartialEq, Eq, Structural)]
pub enum FactorKind {
    Authenticator,
    Passkey,
}

/// What naming or removing a factor asks for; `user` is the caller.
pub enum FactorAsk {
    /// To store a new name for a factor of the caller.
    Rename { user: Uuid, id: Uuid, label: String },
    /// To remove a factor of the caller.
    Remove { user: Uuid, kind: FactorKind, id: Uuid },
    /// The factors of this sort that the caller has now.
    List(Uuid),
}

pub enum FactorAskView {
    Rename { user: Uuid, id: Uuid, label: Seq<char> },
    Remove { user: Uuid, kind: FactorKind, id: Uuid },
    List(Uuid),
}

impl View for FactorAsk {
    type V = FactorAskView;

    open spec fn view(&self) -> FactorAskView {
        match *self {
            FactorAsk::Rename { user, id, label } => FactorAskView::Rename {
                user,
                id,
                label: label@,
            },
            FactorAsk::Remove { user, kind, id } => FactorAskView::Remove { user, kind, id },
            FactorAsk::List(user) => FactorAskView::List(user),
        }
    }
}

impl FactorAskView {
    /// What is logged with the action, both or neither; `removed` is whether the factor was there.
    pub open spec fn entry(self, removed: bool) -> Option<audit::EntryView> {
        match self {
            FactorAskView::Remove { kind, id, .. } => match kind {
                FactorKind::Authenticator => audit::totp_removed_entry(removed, id),
                FactorKind::Passkey => audit::passkey_removed_entry(removed, id),
            },
            _ => None,
        }
    }
}

impl FactorAsk {
    pub fn entry(&self, removed: bool) -> (r: Option<AuditEntry>)
        ensures
            audit::of(r) == self@.entry(removed),
    {
        match self {
            FactorAsk::Remove { kind, id, .. } => match kind {
                FactorKind::Authenticator => audit::totp_removed(removed, *id),
                FactorKind::Passkey => audit::passkey_removed(removed, *id),
            },
            _ => None,
        }
    }
}

/// Naming a factor, which takes no confirmation, and then showing the section, which is `shown`
/// once it is listed.
pub open spec fn rename_step(
    c: &Caller,
    id: Uuid,
    label: Seq<char>,
    stored: Asked<()>,
    shown: Option<reply::ReplyView>,
) -> step::StepView<FactorAskView> {
    if !c.csrf_ok {
        step::replied(gate::bad_token(c.site))
    } else {
        match stored {
            Asked::NotYet => step::StepView::Ask(
                FactorAskView::Rename { user: c.user_id, id, label: forms::factor_label(label) },
            ),
            Asked::Failed => step::gave_up(c.site),
            Asked::Answer(_) => match shown {
                None => step::StepView::Ask(FactorAskView::List(c.user_id)),
                Some(reply) => step::replied(reply),
            },
        }
    }
}

/// The part of [`rename_step`] before the section is shown: `Ok` where it is to be shown.
fn renaming(
    c: &Caller,
    id: Uuid,
    label: &str,
    stored: &Asked<()>,
) -> (r: Result<(), Step<FactorAsk>>)
    ensures
        forall|shown: Option<reply::ReplyView>|
            match r {
                Ok(_) => #[trigger] rename_step(c, id, label@, *stored, shown) == (match shown {
                    None => step::StepView::Ask(FactorAskView::List(c.user_id)),
                    Some(reply) => step::replied(reply),
                }),
                Err(s) => rename_step(c, id, label@, *stored, shown) == s@,
            },
{
    match gate::check_all(c, Floor::Member, false) {
        Ok(()) => match stored {
            Asked::NotYet => Err(
                Step::Ask(
                    FactorAsk::Rename { user: c.user_id, id, label: forms::clean_label(label) },
                ),
            ),
            Asked::Failed => Err(Step::gave_up(c.site)),
            Asked::Answer(_) => Ok(()),
        },
        Err(reply) => Err(Step::replied(reply)),
    }
}

/// Removing a factor, which weakens the account and so takes a confirmation, and then saying
/// that it is gone, in the reply `shown` once the rest are listed.
pub open spec fn removal_step(
    c: &Caller,
    kind: FactorKind,
    id: Uuid,
    removed: Asked<()>,
    shown: Option<reply::ReplyView>,
) -> step::StepView<FactorAskView> {
    if !gate::admitted(c, Floor::Member, true) {
        step::replied(gate::refusal(c, Floor::Member))
    } else {
        match removed {
            Asked::NotYet => step::StepView::Ask(FactorAskView::Remove { user: c.user_id, kind, id }),
            Asked::Failed => step::gave_up(c.site),
            Asked::Answer(_) => match shown {
                None => step::StepView::Ask(FactorAskView::List(c.user_id)),
                Some(reply) => step::replied(reply),
            },
        }
    }
}

/// The part of [`removal_step`] before the reply that the factor is gone: `Ok` where it is due.
fn removing(
    c: &Caller,
    kind: FactorKind,
    id: Uuid,
    removed: &Asked<()>,
) -> (r: Result<(), Step<FactorAsk>>)
    ensures
        forall|shown: Option<reply::ReplyView>|
            match r {
                Ok(_) => #[trigger] removal_step(c, kind, id, *removed, shown) == (match shown {
                    None => step::StepView::Ask(FactorAskView::List(c.user_id)),
                    Some(reply) => step::replied(reply),
                }),
                Err(s) => removal_step(c, kind, id, *removed, shown) == s@,
            },
{
    match gate::check_all(c, Floor::Member, true) {
        Ok(()) => match removed {
            Asked::NotYet => Err(Step::Ask(FactorAsk::Remove { user: c.user_id, kind, id })),
            Asked::Failed => Err(Step::gave_up(c.site)),
            Asked::Answer(_) => Ok(()),
        },
        Err(reply) => Err(Step::replied(reply)),
    }
}

/// A factor is removed only for the caller, who has just confirmed who they are.
pub proof fn law_removal_needs_confirmation(
    c: &Caller,
    kind: FactorKind,
    id: Uuid,
    removed: Asked<()>,
    shown: Option<reply::ReplyView>,
    user: Uuid,
    gone: Uuid,
)
    requires
        removal_step(c, kind, id, removed, shown) == step::StepView::<FactorAskView>::Ask(
            FactorAskView::Remove { user, kind, id: gone },
        ),
    ensures
        user == c.user_id,
        gone == id,
        c.csrf_ok,
        c.sudo == Some(c.user_id),
{
}

/// `POST /me/totp/{id}/rename`. `list` is `Some(None)` where the authenticators could not be
/// listed.
pub fn me_totp_rename(
    c: &Caller,
    ctx: &ChromeContext,
    id: Uuid,
    form: &MeTotpRenameForm,
    max: i64,
    stored: &Asked<()>,
    list: Option<Option<Vec<TotpCredential>>>,
) -> (r: Step<FactorAsk>)
    ensures
        r@ == rename_step(
            c,
            id,
            form.label@,
            *stored,
            match list {
                None => None,
                Some(creds) => Some(authenticators(ctx, creds, SectionMode::Normal, max)),
            },
        ),
{
    match renaming(c, id, form.label.as_str(), stored) {
        Ok(()) => match list {
            None => Step::Ask(FactorAsk::List(c.user_id)),
            Some(creds) => Step::replied(
                totp_section_response(ctx, creds, SectionMode::Normal, max),
            ),
        },
        Err(s) => s,
    }
}

/// The note that an authenticator is gone, with the section refreshed beside it.
pub open spec fn authenticator_gone(ctx: &ChromeContext, list: Seq<TotpCredential>, max: i64) -> reply::ReplyView {
    reply::ok_page(
        security::factor_removed_content_html(
            "Authenticator removed"@,
            if list.len() == 0 {
                "That was your last authenticator app."@
            } else {
                "The authenticator has been removed."@
            },
        ) + security::totp_authenticators_section_html(
            ctx,
            list,
            SectionMode::Normal,
            max,
            true,
        ),
    )
}

/// The reply to a removed authenticator; `creds` is none where the rest could not be listed.
pub open spec fn authenticator_removed(
    ctx: &ChromeContext,
    creds: Option<Vec<TotpCredential>>,
    max: i64,
) -> reply::ReplyView {
    match creds {
        Some(list) => authenticator_gone(ctx, list@, max),
        None => reply::internal_failure(ctx.site),
    }
}

pub fn totp_removed_response(ctx: &ChromeContext, creds: Option<Vec<TotpCredential>>, max: i64) -> (r: Reply)
    ensures
        r@ == authenticator_removed(ctx, creds, max),
{
    match creds {
        Some(list) => {
            let message: &'static str = if list.len() == 0 {
                "That was your last authenticator app."
            } else {
                "The authenticator has been removed."
            };
            let section = security::totp_authenticators_section(
                ctx,
                list.as_slice(),
                SectionMode::Normal,
                max,
                true,
            );
            Reply::ok_page(
                security::factor_removed_content("Authenticator removed", message).then_html(
                    &section,
                ),
            )
        },
        None => Reply::internal_failure(ctx.site),
    }
}

/// `POST /me/totp/{id}/delete`. `list` is `Some(None)` where the authenticators could not be
/// listed.
pub fn me_totp_delete(
    c: &Caller,
    ctx: &ChromeContext,
    id: Uuid,
    max: i64,
    removed: &Asked<()>,
    list: Option<Option<Vec<TotpCredential>>>,
) -> (r: Step<FactorAsk>)
    ensures
        r@ == removal_step(
            c,
            FactorKind::Authenticator,
            id,
            *removed,
            match list {
                None => None,
                Some(creds) => Some(authenticator_removed(ctx, creds, max)),
            },
        ),
{
    match removing(c, FactorKind::Authenticator, id, removed) {
        Ok(()) => match list {
            None => Step::Ask(FactorAsk::List(c.user_id)),
            Some(creds) => Step::replied(totp_removed_response(ctx, creds, max)),
        },
        Err(s) => s,
    }
}

// ---- Passkeys --------------------------------------------------------------------------------

/// The section of passkeys; `creds` is none where the store failed.
pub open spec fn passkeys(
    ctx: &ChromeContext,
    creds: Option<Vec<WebauthnCredentialRow>>,
    mode: SectionMode,
    available: bool,
    max: i64,
) -> reply::ReplyView {
    match creds {
        Some(list) => reply::ok_page(
            security::passkey_credentials_section_html(ctx, list@, mode, available, max, false),
        ),
        None => reply::internal_failure(ctx.site),
    }
}

/// `GET /me/passkey/section`, `GET /me/passkey/{id}/edit` and
/// `GET /me/passkey/{id}/confirm-delete`.
pub fn passkey_section_response(
    ctx: &ChromeContext,
    creds: Option<Vec<WebauthnCredentialRow>>,
    mode: SectionMode,
    available: bool,
    max: i64,
) -> (r: Reply)
    ensures
        r@ == passkeys(ctx, creds, mode, available, max),
{
    match creds {
        Some(list) => Reply::ok_page(
            security::passkey_credentials_section(
                ctx,
                list.as_slice(),
                mode,
                available,
                max,
                false,
            ),
        ),
        None => Reply::internal_failure(ctx.site),
    }
}

/// A ceremony that has begun: its challenge and the options for the browser, as JSON.
pub struct Ceremony {
    pub challenge_id: Uuid,
    pub options_json: String,
}

pub open spec fn passkey_start_step(
    c: &Caller,
    ctx: &ChromeContext,
    max: i64,
    count: Asked<i64>,
    begun: Asked<Ceremony>,
) -> step::StepView<EnrollAsk> {
    if !gate::admitted(c, Floor::Member, true) {
        step::replied(gate::refusal(c, Floor::Member))
    } else {
        match count {
            Asked::NotYet => step::StepView::Ask(EnrollAsk::Count(c.user_id)),
            Asked::Failed => step::gave_up(c.site),
            Asked::Answer(n) => if n >= max {
                step::replied(reply::ok_page(security::passkey_limit_reached_content_html()))
            } else {
                match begun {
                    Asked::NotYet => step::StepView::Ask(EnrollAsk::Begin(c.user_id)),
                    Asked::Failed => step::gave_up(c.site),
                    Asked::Answer(e) => step::replied(
                        reply::ok_page(
                            security::passkey_enroll_modal_content_html(
                                e.options_json@,
                                e.challenge_id,
                                ctx.csrf_token@,
                            ),
                        ),
                    ),
                }
            },
        }
    }
}

/// `POST /me/passkey/start`: begins to enroll a passkey, as long as there is room for it.
pub fn me_passkey_start(
    c: &Caller,
    ctx: &ChromeContext,
    max: i64,
    count: &Asked<i64>,
    begun: &Asked<Ceremony>,
) -> (r: Step<EnrollAsk>)
    ensures
        r@ == passkey_start_step(c, ctx, max, *count, *begun),
{
    match gate::check_all(c, Floor::Member, true) {
        Ok(()) => {},
        Err(reply) => {
            return Step::replied(reply);
        },
    }
    match count {
        Asked::NotYet => Step::Ask(EnrollAsk::Count(c.user_id)),
        Asked::Failed => Step::gave_up(c.site),
        Asked::Answer(n) => if *n >= max {
            Step::replied(Reply::ok_page(security::passkey_limit_reached_content()))
        } else {
            match begun {
                Asked::NotYet => Step::Ask(EnrollAsk::Begin(c.user_id)),
                Asked::Failed => Step::gave_up(c.site),
                Asked::Answer(e) => Step::replied(
                    Reply::ok_page(
                        security::passkey_enroll_modal_content(
                            e.options_json.as_str(),
                            e.challenge_id,
                            ctx.csrf_token,
                        ),
                    ),
                ),
            }
        },
    }
}

/// What the end of a passkey enrollment asks for.
pub enum PasskeyFinishAsk {
    /// To register for the user the credential that the browser made, under this name.
    Register { user: Uuid, challenge_id: Uuid, label: String, credential: String },
    /// The passkeys the user has now.
    List(Uuid),
}

pub enum PasskeyFinishAskView {
    Register { user: Uuid, challenge_id: Uuid, label: Seq<char>, credential: Seq<char> },
    List(Uuid),
}

impl View for PasskeyFinishAsk {
    type V = PasskeyFinishAskView;

    open spec fn view(&self) -> PasskeyFinishAskView {
        match *self {
            PasskeyFinishAsk::Register { user, challenge_id, label, credential } =>
                PasskeyFinishAskView::Register {
                    user,
                    challenge_id,
                    label: label@,
                    credential: credential@,
                },
            PasskeyFinishAsk::List(user) => PasskeyFinishAskView::List(user),
        }
    }
}

pub open spec fn passkey_finish_step(
    c: &Caller,
    ctx: &ChromeContext,
    form: &MePasskeyFinishForm,
    available: bool,
    max: i64,
    registered: Option<bool>,
    list: Option<Vec<WebauthnCredentialRow>>,
) -> step::StepView<PasskeyFinishAskView> {
    if !c.csrf_ok {
        step::replied(gate::bad_token(c.site))
    } else {
        match registered {
            None => step::StepView::Ask(
                PasskeyFinishAskView::Register {
                    user: c.user_id,
                    challenge_id: form.challenge_id,
                    label: forms::factor_label(form.label@),
                    credential: form.credential@,
                },
            ),
            Some(false) => step::replied(
                reply::ok_page(
                    security::passkey_error_content_html(
                        "We couldn't register that passkey. Please try again."@,
                    ),
                ),
            ),
            Some(true) => match list {
                None => step::StepView::Ask(PasskeyFinishAskView::List(c.user_id)),
                Some(list) => step::StepView::Finish(
                    step::FinishView {
                        record_failure: None,
                        audit: Some(audit::passkey_registered_entry()),
                        reply: reply::ok_page(
                            security::passkey_enrolled_success_content_html()
                                + security::passkey_credentials_section_html(
                                ctx,
                                list@,
                                SectionMode::Normal,
                                available,
                                max,
                                true,
                            ),
                        ),
                    },
                ),
            },
        }
    }
}

/// `POST /me/passkey/finish`: ends the enrollment of a passkey.
pub fn me_passkey_finish(
    c: &Caller,
    ctx: &ChromeContext,
    form: &MePasskeyFinishForm,
    available: bool,
    max: i64,
    registered: Option<bool>,
    list: &Option<Vec<WebauthnCredentialRow>>,
) -> (r: Step<PasskeyFinishAsk>)
    ensures
        r@ == passkey_finish_step(c, ctx, form, available, max, registered, *list),
{
    match gate::check_all(c, Floor::Member, false) {
        Ok(()) => {},
        Err(reply) => {
            return Step::replied(reply);
        },
    }
    match registered {
        None => Step::Ask(
            PasskeyFinishAsk::Register {
                user: c.user_id,
                challenge_id: form.challenge_id,
                label: forms::clean_label(form.label.as_str()),
                credential: form.credential.as_str().to_owned(),
            },
        ),
        Some(false) => Step::replied(
            Reply::ok_page(
                security::passkey_error_content(
                    "We couldn't register that passkey. Please try again.",
                ),
            ),
        ),
        Some(true) => match list {
            None => Step::Ask(PasskeyFinishAsk::List(c.user_id)),
            Some(list) => {
                let section = security::passkey_credentials_section(
                    ctx,
                    list.as_slice(),
                    SectionMode::Normal,
                    available,
                    max,
                    true,
                );
                Step::Finish(
                    Finish {
                        record_failure: None,
                        audit: Some(audit::passkey_registered()),
                        reply: Reply::ok_page(
                            security::passkey_enrolled_success_content().then_html(&section),
                        ),
                    },
                )
            },
        },
    }
}

/// `POST /me/passkey/{id}/rename`. `list` is `Some(None)` where the passkeys could not be listed.
pub fn me_passkey_rename(
    c: &Caller,
    ctx: &ChromeContext,
    id: Uuid,
    form: &MeTotpRenameForm,
    available: bool,
    max: i64,
    stored: &Asked<()>,
    list: Option<Option<Vec<WebauthnCredentialRow>>>,
) -> (r: Step<FactorAsk>)
    ensures
        r@ == rename_step(
            c,
            id,
            form.label@,
            *stored,
            match list {
                None => None,
                Some(creds) => Some(passkeys(ctx, creds, SectionMode::Normal, available, max)),
            },
        ),
{
    match renaming(c, id, form.label.as_str(), stored) {
        Ok(()) => match list {
            None => Step::Ask(FactorAsk::List(c.user_id)),
            Some(creds) => Step::replied(
                passkey_section_response(ctx, creds, SectionMode::Normal, available, max),
            ),
        },
        Err(s) => s,
    }
}

/// The note that a passkey is gone, with the section refreshed beside it.
pub open spec fn passkey_gone(
    ctx: &ChromeContext,
    list: Seq<WebauthnCredentialRow>,
    available: bool,
    max: i64,
) -> reply::ReplyView {
    reply::ok_page(
        security::factor_removed_content_html(
            "Passkey removed"@,
            if list.len() == 0 {
                "That was your last passkey."@
            } else {
                "The passkey has been removed."@
            },
        ) + security::passkey_credentials_section_html(
            ctx,
            list,
            SectionMode::Normal,
            available,
            max,
            true,
        ),
    )
}

/// The reply to a removed passkey; `creds` is none where the rest could not be listed.
pub open spec fn passkey_removed(
    ctx: &ChromeContext,
    creds: Option<Vec<WebauthnCredentialRow>>,
    available: bool,
    max: i64,
) -> reply::ReplyView {
    match creds {
        Some(list) => passkey_gone(ctx, list@, available, max),
        None => reply::internal_failure(ctx.site),
    }
}

pub fn passkey_removed_response(
    ctx: &ChromeContext,
    creds: Option<Vec<WebauthnCredentialRow>>,
    available: bool,
    max: i64,
) -> (r: Reply)
    ensures
        r@ == passkey_removed(ctx, creds, available, max),
{
    match creds {
        Some(list) => {
            let message: &'static str = if list.len() == 0 {
                "That was your last passkey."
            } else {
                "The passkey has been removed."
            };
            let section = security::passkey_credentials_section(
                ctx,
                list.as_slice(),
                SectionMode::Normal,
                available,
                max,
                true,
            );
            Reply::ok_page(
                security::factor_removed_content("Passkey removed", message).then_html(&section),
            )
        },
        None => Reply::internal_failure(ctx.site),
    }
}

/// `POST /me/passkey/{id}/delete`. `list` is `Some(None)` where the passkeys could not be listed.
pub fn me_passkey_delete(
    c: &Caller,
    ctx: &ChromeContext,
    id: Uuid,
    available: bool,
    max: i64,
    removed: &Asked<()>,
    list: Option<Option<Vec<WebauthnCredentialRow>>>,
) -> (r: Step<FactorAsk>)
    ensures
        r@ == removal_step(
            c,
            FactorKind::Passkey,
            id,
            *removed,
            match list {
                None => None,
                Some(creds) => Some(passkey_removed(ctx, creds, available, max)),
            },
        ),
{
    match removing(c, FactorKind::Passkey, id, removed) {
        Ok(()) => match list {
            None => Step::Ask(FactorAsk::List(c.user_id)),
            Some(creds) => Step::replied(passkey_removed_response(ctx, creds, available, max)),
        },
        Err(s) => s,
    }
}

} // verus!
