//! The checks in front of a handler: the form token, the role, the fresh confirmation of
//! identity. They come in this order, and nothing is done for a request that fails one.

use vstd::prelude::*;
use crate::cookies;
use crate::model::{InstanceRole, Uuid};
use crate::reply;
use crate::reply::{error_response, Reply};
use crate::sorting;
use crate::text;
use crate::views::shell;
use crate::views::shell::SiteInfo;

verus! {

/// What is known of the signed-in sender of a request.
pub struct Caller<'a> {
    pub site: &'a SiteInfo,
    pub user_id: Uuid,
    pub role: InstanceRole,
    /// Whether the form token that came along belongs to the session.
    pub csrf_ok: bool,
    /// Whose identity the unexpired confirmation that came along vouches for.
    pub sudo: Option<Uuid>,
    /// The same of a confirmation that was made for a critical action.
    pub critical: Option<Uuid>,
    /// Whether HTMX sent the request.
    pub htmx: bool,
}

/// The lowest role that may use a handler.
#[derive(Clone, Copy, Debug, PartialEq, Eq, Structural)]
pub enum Floor {
    Member,
    Admin,
    Owner,
}

pub open spec fn reaches(role: InstanceRole, floor: Floor) -> bool {
    match floor {
        Floor::Member => true,
        Floor::Admin => shell::at_least_admin(role),
        Floor::Owner => shell::owner(role),
    }
}

/// The reply to a form whose token does not belong to the session.
pub open spec fn bad_token(site: &SiteInfo) -> reply::ReplyView {
    reply::failure(site, 403, "Invalid form token. Reload the page and try again."@)
}

/// The reply to a caller below the floor.
pub open spec fn too_low(site: &SiteInfo, floor: Floor) -> reply::ReplyView {
    match floor {
        Floor::Owner => reply::failure(site, 403, "Owners only."@),
        _ => reply::failure(site, 403, "Admins only."@),
    }
}

/// The reply to a caller who has not confirmed their identity.
pub open spec fn unconfirmed() -> reply::ReplyView {
    reply::text_with(403, "Please confirm it's you and try again."@)
}

/// Checks the form token.
pub fn check_csrf_token(site: &SiteInfo, valid: bool) -> (r: Result<(), Reply>)
    ensures
        r is Ok <==> valid,
        r matches Err(refusal) ==> refusal@ == bad_token(site),
{
    if valid {
        Ok(())
    } else {
        Err(error_response(site, 403, "Invalid form token. Reload the page and try again."))
    }
}

/// Checks the role.
pub fn require_role(site: &SiteInfo, role: InstanceRole, floor: Floor) -> (r: Result<(), Reply>)
    ensures
        r is Ok <==> reaches(role, floor),
        r matches Err(refusal) ==> refusal@ == too_low(site, floor),
{
    match floor {
        Floor::Member => Ok(()),
        Floor::Admin => require_admin(site, role),
        Floor::Owner => if shell::is_owner(role) {
            Ok(())
        } else {
            Err(error_response(site, 403, "Owners only."))
        },
    }
}

/// Admits admins and owners.
pub fn require_admin(site: &SiteInfo, role: InstanceRole) -> (r: Result<(), Reply>)
    ensures
        r is Ok <==> shell::at_least_admin(role),
        r matches Err(refusal) ==> refusal@ == too_low(site, Floor::Admin),
{
    if shell::is_at_least_admin(role) {
        Ok(())
    } else {
        Err(error_response(site, 403, "Admins only."))
    }
}

/// Whether a confirmation vouches for this very user.
pub fn require_fresh_sudo(granted_to: Option<Uuid>, user_id: Uuid) -> (r: bool)
    ensures
        r == (granted_to == Some(user_id)),
{
    match granted_to {
        Some(id) => id == user_id,
        None => false,
    }
}

/// Checks the confirmation of identity.
pub fn require_sudo(granted_to: Option<Uuid>, user_id: Uuid) -> (r: Result<(), Reply>)
    ensures
        r is Ok <==> granted_to == Some(user_id),
        r matches Err(refusal) ==> refusal@ == unconfirmed(),
{
    if require_fresh_sudo(granted_to, user_id) {
        Ok(())
    } else {
        Err(Reply::text(403, "Please confirm it's you and try again."))
    }
}

/// Whether a form may be acted on that asks for the owner and a critical confirmation.
pub open spec fn admitted_critical(c: &Caller) -> bool {
    c.csrf_ok && reaches(c.role, Floor::Owner) && c.critical == Some(c.user_id)
}

/// Runs the checks in front of an action of the owner that nothing undoes.
pub fn check_critical(c: &Caller) -> (r: Result<(), Reply>)
    ensures
        r is Ok <==> admitted_critical(c),
        r matches Err(reply) ==> reply@ == refusal(c, Floor::Owner),
{
    match check_all(c, Floor::Owner, false) {
        Ok(()) => require_sudo(c.critical, c.user_id),
        Err(reply) => Err(reply),
    }
}

/// Whether a form may be acted on.
pub open spec fn admitted(c: &Caller, floor: Floor, sudo: bool) -> bool {
    c.csrf_ok && reaches(c.role, floor) && (sudo ==> c.sudo == Some(c.user_id))
}

/// What a caller is told whose form is not acted on: the first check that failed.
pub open spec fn refusal(c: &Caller, floor: Floor) -> reply::ReplyView {
    if !c.csrf_ok {
        bad_token(c.site)
    } else if !reaches(c.role, floor) {
        too_low(c.site, floor)
    } else {
        unconfirmed()
    }
}

/// Runs the checks in front of a form handler; `sudo` says whether a fresh confirmation of
/// identity is among them.
pub fn check_all(c: &Caller, floor: Floor, sudo: bool) -> (r: Result<(), Reply>)
    ensures
        r is Ok <==> admitted(c, floor, sudo),
        r matches Err(reply) ==> reply@ == refusal(c, floor),
{
    match check_csrf_token(c.site, c.csrf_ok) {
        Ok(()) => match require_role(c.site, c.role, floor) {
            Ok(()) => if sudo {
                require_sudo(c.sudo, c.user_id)
            } else {
                Ok(())
            },
            Err(reply) => Err(reply),
        },
        Err(reply) => Err(reply),
    }
}

/// A confirmation that vouches for one user admits nobody else, whatever their role.
pub proof fn law_confirmation_is_personal(c: &Caller, floor: Floor, granted_to: Uuid)
    requires
        c.sudo == Some(granted_to),
        granted_to != c.user_id,
    ensures
        !admitted(c, floor, true),
{
}

/// A form with a foreign token is refused before anything else is looked at: what it is told
/// depends neither on the role nor on the confirmation.
pub proof fn law_token_comes_first(c: &Caller, floor: Floor, sudo: bool)
    requires
        !c.csrf_ok,
    ensures
        !admitted(c, floor, sudo),
        refusal(c, floor) == bad_token(c.site),
{
}

/// Whoever ranks at least as high as an admitted role is admitted too.
pub proof fn law_higher_rank_keeps_access(low: InstanceRole, high: InstanceRole, floor: Floor)
    requires
        reaches(low, floor),
        sorting::role_rank(high) <= sorting::role_rank(low),
    ensures
        reaches(high, floor),
{
}

// ---- Tokens in cookies -----------------------------------------------------------------------

/// The token of a confirmed identity that came along.
pub fn sudo_token(cookie_header: Option<&str>) -> (r: Option<String>)
    ensures
        text::opt_string(r) == cookies::cookie_named(text::opt(cookie_header), cookies::SUDO_COOKIE_NAME@),
{
    cookies::read_cookie(cookie_header, cookies::SUDO_COOKIE_NAME)
}

/// The token of a sign-in that waits for its second factor.
pub fn mfa_pending_token(cookie_header: Option<&str>) -> (r: Option<String>)
    ensures
        text::opt_string(r) == cookies::cookie_named(text::opt(cookie_header), cookies::MFA_COOKIE_NAME@),
{
    cookies::read_cookie(cookie_header, cookies::MFA_COOKIE_NAME)
}

/// The token of a verified recovery.
pub fn recovery_token(cookie_header: Option<&str>) -> (r: Option<String>)
    ensures
        text::opt_string(r) == cookies::cookie_named(text::opt(cookie_header), cookies::RECOVERY_COOKIE_NAME@),
{
    cookies::read_cookie(cookie_header, cookies::RECOVERY_COOKIE_NAME)
}

/// When a token that is signed at `now` and lasts `ttl` seconds expires.
pub fn expires_at(now: i64, ttl: i64) -> (r: i64)
    requires
        i64::MIN <= now + ttl <= i64::MAX,
    ensures
        r == now + ttl,
{
    now + ttl
}

} // verus!
