//! The values the pages show and the rules read: identifiers, instants, people and their roles.

use vstd::prelude::*;
use crate::text;

verus! {

// ---- Identifiers -----------------------------------------------------------------------------

/// A 128-bit identifier.
#[derive(Clone, Copy, Debug, PartialEq, Eq, Structural)]
pub struct Uuid {
    pub value: u128,
}

/// The hexadecimal digit at position `k` of a 128-bit number written with 32 digits.
pub open spec fn nibble(value: u128, k: int) -> char {
    text::hex_digit(value as int / vstd::arithmetic::power::pow(16, (31 - k) as nat) % 16)
}

/// An identifier in its hyphenated form: 32 lower-case hexadecimal digits in groups of
/// 8, 4, 4, 4 and 12.
pub open spec fn uuid_text(id: Uuid) -> Seq<char> {
    Seq::new(
        36,
        |i: int|
            if i == 8 || i == 13 || i == 18 || i == 23 {
                '-'
            } else if i < 8 {
                nibble(id.value, i)
            } else if i < 13 {
                nibble(id.value, i - 1)
            } else if i < 18 {
                nibble(id.value, i - 2)
            } else if i < 23 {
                nibble(id.value, i - 3)
            } else {
                nibble(id.value, i - 4)
            },
    )
}

/// Calls `ToString` on `uuid::Uuid`, which writes the hyphenated lower-case form.
#[verifier::external_body]
fn format_uuid(value: u128) -> (r: String)
    ensures
        r@ == uuid_text(Uuid { value }),
{
    uuid::Uuid::from_u128(value).to_string()
}

/// What `uuid::Uuid::parse_str` reads from a text, as a 128-bit number.
pub uninterp spec fn uuid_parsed(s: Seq<char>) -> Option<u128>;

/// Calls `uuid::Uuid::parse_str`. The accepted notations (plain, hyphenated, braced, URN) are
/// named, not spelled out; the hyphenated form of a number is one of them.
#[verifier::external_body]
fn parse_uuid(s: &str) -> (r: Option<u128>)
    ensures
        r == uuid_parsed(s@),
        forall|value: u128| s@ == #[trigger] uuid_text(Uuid { value }) ==> r == Some(value),
{
    match uuid::Uuid::parse_str(s) {
        Ok(id) => Some(id.as_u128()),
        Err(_) => None,
    }
}

/// The identifier that a text denotes, if it denotes one.
pub open spec fn uuid_of(s: Seq<char>) -> Option<Uuid> {
    match uuid_parsed(s) {
        Some(value) => Some(Uuid { value }),
        None => None,
    }
}

impl Uuid {
    /// The hyphenated form.
    pub fn text(self) -> (r: String)
        ensures
            r@ == uuid_text(self),
    {
        format_uuid(self.value)
    }

    /// Reads an identifier from a text; `None` where the text is none.
    pub fn parse(s: &str) -> (r: Option<Uuid>)
        ensures
            r == uuid_of(s@),
            forall|id: Uuid| s@ == #[trigger] uuid_text(id) ==> r == Some(id),
    {
        match parse_uuid(s) {
            Some(value) => {
                let id = Uuid { value };
                assert forall|other: Uuid| s@ == #[trigger] uuid_text(other) implies Some(id)
                    == Some(other) by {
                    assert(other == Uuid { value: other.value });
                }
                Some(id)
            },
            None => {
                assert forall|other: Uuid| s@ == #[trigger] uuid_text(other) implies false by {
                    assert(other == Uuid { value: other.value });
                }
                None
            },
        }
    }

    /// The most significant byte.
    pub fn first_byte(self) -> (b: u8)
        ensures
            b == self.value / 0x1_00_00_00_00_00_00_00_00_00_00_00_00_00_00_00,
    {
        (self.value / 0x1_00_00_00_00_00_00_00_00_00_00_00_00_00_00_00) as u8
    }
}

// ---- Instants --------------------------------------------------------------------------------

/// Earliest and latest second, counted from 1970-01-01 00:00:00 UTC, that has a calendar date.
pub const FIRST_SECOND: i64 = -8_334_601_228_800;

pub const LAST_SECOND: i64 = 8_210_266_876_799;

/// `Mar 4, 2025`
pub const SHORT_DATE: &'static str = "%b %-d, %Y";

/// `Mar 4, 2025 09:07 UTC`
pub const SHORT_MINUTE: &'static str = "%b %-d, %Y %H:%M UTC";

/// `2025-03-04 09:07 UTC`
pub const MINUTE: &'static str = "%Y-%m-%d %H:%M UTC";

/// `2025-03-04 09:07:00 UTC`
pub const SECOND: &'static str = "%Y-%m-%d %H:%M:%S UTC";

/// `2025-03-04 09:07:00.123 UTC`
pub const MILLISECOND: &'static str = "%Y-%m-%d %H:%M:%S%.3f UTC";

/// The date patterns the pages use.
pub open spec fn date_pattern(p: Seq<char>) -> bool {
    p == SHORT_DATE@ || p == SHORT_MINUTE@ || p == MINUTE@ || p == SECOND@ || p == MILLISECOND@
}

/// What `chrono::DateTime::format` writes for an instant under a pattern.
pub uninterp spec fn utc_format(secs: int, nanos: int, pattern: Seq<char>) -> Seq<char>;

/// Calls `chrono::DateTime::<Utc>::from_timestamp` and `format`. The seconds lie in the range of
/// chrono's calendar, so the instant exists, and the patterns are well-formed, so writing it does
/// not fail. The calendar arithmetic is named, not spelled out.
#[verifier::external_body]
fn format_utc(secs: i64, nanos: u32, pattern: &str) -> (r: String)
    requires
        FIRST_SECOND <= secs <= LAST_SECOND,
        nanos < 1_000_000_000,
        date_pattern(pattern@),
    ensures
        r@ == utc_format(secs as int, nanos as int, pattern@),
{
    match chrono::DateTime::from_timestamp(secs, nanos) {
        Some(t) => t.format(pattern).to_string(),
        None => String::new(),
    }
}

/// An instant as whole seconds since 1970-01-01 00:00:00 UTC and the nanoseconds after them.
pub struct Instant {
    pub secs: int,
    pub nanos: int,
}

/// A point in time with a calendar date.
#[derive(Clone, Copy)]
pub struct Timestamp {
    secs: i64,
    nanos: u32,
}

impl View for Timestamp {
    type V = Instant;

    closed spec fn view(&self) -> Instant {
        Instant { secs: self.secs as int, nanos: self.nanos as int }
    }
}

/// Whether an instant has a calendar date.
pub open spec fn has_date(secs: int, nanos: int) -> bool {
    FIRST_SECOND <= secs <= LAST_SECOND && 0 <= nanos < 1_000_000_000
}

/// An instant under a date pattern.
pub open spec fn date_text(t: Instant, pattern: Seq<char>) -> Seq<char> {
    utc_format(t.secs, t.nanos, pattern)
}

/// Whole seconds from `from` to `to`, cut off toward zero.
pub open spec fn seconds_between(from: Instant, to: Instant) -> int {
    let secs = to.secs - from.secs;
    if secs > 0 && to.nanos < from.nanos {
        secs - 1
    } else if secs < 0 && to.nanos > from.nanos {
        secs + 1
    } else {
        secs
    }
}

/// Whether an instant comes before another.
pub open spec fn before(a: Instant, b: Instant) -> bool {
    a.secs < b.secs || (a.secs == b.secs && a.nanos < b.nanos)
}

impl Timestamp {
    #[verifier::type_invariant]
    spec fn dated(self) -> bool {
        has_date(self.secs as int, self.nanos as int)
    }

    /// The instant `secs` seconds and `nanos` nanoseconds after 1970-01-01 00:00:00 UTC; `None`
    /// where it has no calendar date.
    pub fn new(secs: i64, nanos: u32) -> (r: Option<Timestamp>)
        ensures
            r is Some == has_date(secs as int, nanos as int),
            r matches Some(t) ==> t@ == (Instant { secs: secs as int, nanos: nanos as int }),
    {
        if FIRST_SECOND <= secs && secs <= LAST_SECOND && nanos < 1_000_000_000 {
            Some(Timestamp { secs, nanos })
        } else {
            None
        }
    }

    pub fn secs(&self) -> (r: i64)
        ensures
            r == self@.secs,
    {
        self.secs
    }

    pub fn nanos(&self) -> (r: u32)
        ensures
            r == self@.nanos,
    {
        self.nanos
    }

    /// This instant under a date pattern.
    pub fn format(&self, pattern: &str) -> (r: String)
        requires
            date_pattern(pattern@),
        ensures
            r@ == date_text(self@, pattern@),
    {
        proof {
            use_type_invariant(self);
        }
        format_utc(self.secs, self.nanos, pattern)
    }

    /// Whole seconds from `earlier` to this instant, cut off toward zero.
    pub fn seconds_since(&self, earlier: &Timestamp) -> (r: i64)
        ensures
            r == seconds_between(earlier@, self@),
            LAST_SECOND - FIRST_SECOND + 1 >= r >= FIRST_SECOND - LAST_SECOND - 1,
    {
        proof {
            use_type_invariant(self);
            use_type_invariant(earlier);
        }
        let secs: i64 = self.secs - earlier.secs;
        if secs > 0 && self.nanos < earlier.nanos {
            secs - 1
        } else if secs < 0 && self.nanos > earlier.nanos {
            secs + 1
        } else {
            secs
        }
    }

    /// Whether this instant comes before another.
    pub fn is_before(&self, other: &Timestamp) -> (r: bool)
        ensures
            r == before(self@, other@),
    {
        self.secs < other.secs || (self.secs == other.secs && self.nanos < other.nanos)
    }
}

// ---- People ----------------------------------------------------------------------------------

/// A member's role in the instance.
#[derive(Clone, Copy, Debug, PartialEq, Eq, Structural)]
pub enum InstanceRole {
    Owner,
    Admin,
    Member,
}

/// Where an account stands in its life.
#[derive(Clone, Copy, Debug, PartialEq, Eq, Structural)]
pub enum UserLifecycle {
    Active,
    PendingInvite,
    Deactivated,
    Anonymized,
}

/// An account.
pub struct User {
    pub id: Uuid,
    pub email: String,
    pub display_name: String,
    pub instance_role: InstanceRole,
    pub lifecycle: UserLifecycle,
    pub created_at: Timestamp,
}

/// An open invitation.
pub struct Invitation {
    pub id: Uuid,
    pub email: String,
    pub instance_role: InstanceRole,
    pub created_at: Timestamp,
    pub expires_at: Timestamp,
}

// ---- Pending transitions ---------------------------------------------------------------------

/// What a pending transition will do to its target; a role change carries the role it leads to,
/// where it could be read.
#[derive(Clone, Copy, Debug, PartialEq, Eq, Structural)]
pub enum TransitionKind {
    Deactivate,
    Anonymize,
    Delete,
    RoleChange(Option<InstanceRole>),
}

/// Where a transition stands.
#[derive(Clone, Copy, Debug, PartialEq, Eq, Structural)]
pub enum TransitionState {
    Pending,
    Vetoed,
    Cancelled,
    Applied,
}

/// An owner-on-owner action that waits for its veto window, or a resolved one.
pub struct TransitionRow {
    pub id: Uuid,
    pub kind: TransitionKind,
    pub state: TransitionState,
    pub target_user_id: Option<Uuid>,
    pub initiator_user_id: Option<Uuid>,
    pub resolved_by_user_id: Option<Uuid>,
    pub effective_at: Timestamp,
    pub resolved_at: Option<Timestamp>,
}

// ---- Sign-in ---------------------------------------------------------------------------------

/// An enrolled authenticator app.
pub struct TotpCredential {
    pub id: Uuid,
    pub label: String,
    pub created_at: Timestamp,
    pub last_used_at: Option<Timestamp>,
}

/// An enrolled passkey.
pub struct WebauthnCredentialRow {
    pub id: Uuid,
    pub label: String,
    pub created_at: Timestamp,
    pub last_used_at: Option<Timestamp>,
}

/// A signed-in browser.
pub struct Session {
    pub id: Uuid,
    pub label: Option<String>,
    pub user_agent: Option<String>,
    pub ip_address: Option<String>,
    pub created_at: Timestamp,
    pub last_seen_at: Option<Timestamp>,
    pub expires_at: Timestamp,
    pub revoked_at: Option<Timestamp>,
}

/// When the recovery code of an account was made and last used.
pub struct UserRecoveryCodeRow {
    pub generated_at: Timestamp,
    pub last_used_at: Option<Timestamp>,
}

// ---- Audit log -------------------------------------------------------------------------------

/// A value in the data of an audit event. Numbers and nested values carry their JSON text.
pub enum EventValue {
    Null,
    Bool(bool),
    Number(String),
    Text(String),
    Nested(String),
}

/// A named value in the data of an audit event.
pub struct EventField {
    pub key: String,
    pub value: EventValue,
}

/// The data of an audit event: the fields of an object, or something else.
pub enum EventData {
    Object(Vec<EventField>),
    Other,
}

/// An entry of the hash-chained audit log.
pub struct AuditEvent {
    pub seqno: i64,
    pub occurred_at: Timestamp,
    pub actor_user_id: Option<Uuid>,
    pub actor_display_name: Option<String>,
    pub event_type: String,
    pub app_id: Option<String>,
    pub event_data: EventData,
    /// The same data as JSON text.
    pub event_json: String,
    pub prev_hash: Vec<u8>,
    pub hash: Vec<u8>,
}

// ---- Apps ------------------------------------------------------------------------------------

/// A registered app with the number of resources it stores.
pub struct AppListItem {
    pub id: Uuid,
    pub app_identifier: String,
    pub display_name: String,
    pub publisher: String,
    pub status: String,
    pub resource_types: Vec<String>,
    pub resource_count: i64,
    pub created_at: Timestamp,
}

/// A registered app.
pub struct RegisteredAppRow {
    pub id: Uuid,
    pub app_identifier: String,
    pub display_name: String,
    pub status: String,
    pub resource_types: Vec<String>,
}

/// A stored resource, as far as the server can see it.
pub struct AdminResourceRow {
    pub id: Uuid,
    pub app_resource_id: Uuid,
    pub resource_type: String,
    pub owner_display_name: Option<String>,
    pub parent_resource_id: Option<Uuid>,
    pub schema_version: i32,
    pub content_len: i32,
    pub signature_len: i32,
    pub created_at: Timestamp,
    pub updated_at: Timestamp,
    pub deleted_at: Option<Timestamp>,
}

/// A publisher whose key may sign app registrations.
pub struct TrustedPublisherListItem {
    pub publisher: String,
    pub public_key: Vec<u8>,
    pub added_by_name: Option<String>,
    pub added_at: Timestamp,
}

// ---- Notifications ---------------------------------------------------------------------------

/// How the connection to a mail server is encrypted.
#[derive(Clone, Copy, Debug, PartialEq, Eq, Structural)]
pub enum SmtpTls {
    Starttls,
    Implicit,
    Unencrypted,
}

/// A mail server, and who signs in to it.
pub struct SmtpConfig {
    pub host: String,
    pub port: u16,
    pub tls: SmtpTls,
    pub username: String,
    /// Never shown.
    pub password: Option<String>,
    pub from_email: String,
    pub from_name: Option<String>,
}

/// How the instance sends mail.
pub enum NotificationsConfig {
    Disabled,
    Log,
    Smtp(SmtpConfig),
}

} // verus!
