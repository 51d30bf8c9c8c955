//! Handlers that alternate between decisions and questions to the store.
//!
//! Such a handler is a function from the answers so far to the next step: another question, or
//! the end. The caller looks the answer up, adds it, and calls again.

use vstd::prelude::*;
use crate::audit;
use crate::audit::AuditEntry;
use crate::model::Uuid;
use crate::reply;
use crate::reply::Reply;
use crate::text;
use crate::views::shell::SiteInfo;

verus! {

/// The answer to a question, once it is there.
pub enum Asked<T> {
    NotYet,
    /// The store could not answer.
    Failed,
    Answer(T),
}

/// What a handler does last.
pub struct Finish {
    /// The key under which this counts against the rate limit, where it does.
    pub record_failure: Option<String>,
    /// An entry for the audit log.
    pub audit: Option<AuditEntry>,
    pub reply: Reply,
}

pub struct FinishView {
    pub record_failure: Option<Seq<char>>,
    pub audit: Option<audit::EntryView>,
    pub reply: reply::ReplyView,
}

impl View for Finish {
    type V = FinishView;

    open spec fn view(&self) -> FinishView {
        FinishView {
            record_failure: text::opt_string(self.record_failure),
            audit: match self.audit {
                Some(e) => Some(e@),
                None => None,
            },
            reply: self.reply@,
        }
    }
}

/// The next step of a handler: a question of type `Q`, or the end.
pub enum Step<Q> {
    Ask(Q),
    Finish(Finish),
}

pub enum StepView<Q> {
    Ask(Q),
    Finish(FinishView),
}

impl<Q: View> View for Step<Q> {
    type V = StepView<Q::V>;

    open spec fn view(&self) -> StepView<Q::V> {
        match *self {
            Step::Ask(q) => StepView::Ask(q@),
            Step::Finish(f) => StepView::Finish(f@),
        }
    }
}

/// The question of a handler that has but one, where nothing goes with it.
#[derive(Clone, Copy, Debug, PartialEq, Eq, Structural)]
pub struct Proceed;

impl View for Proceed {
    type V = Proceed;

    open spec fn view(&self) -> Proceed {
        *self
    }
}

/// To look up the item of an id.
#[derive(Clone, Copy, Debug, PartialEq, Eq, Structural)]
pub struct LookUp {
    pub id: Uuid,
}

impl View for LookUp {
    type V = LookUp;

    open spec fn view(&self) -> LookUp {
        *self
    }
}

/// The end with nothing but a reply.
pub open spec fn replied<Q>(reply: reply::ReplyView) -> StepView<Q> {
    StepView::Finish(FinishView { record_failure: None, audit: None, reply })
}

/// The end of a failed attempt, which counts against the rate limit under `key`.
pub open spec fn attempt_failed<Q>(
    key: Seq<char>,
    audit: Option<audit::EntryView>,
    reply: reply::ReplyView,
) -> StepView<Q> {
    StepView::Finish(FinishView { record_failure: Some(key), audit, reply })
}

/// The end where the store could not answer.
pub open spec fn gave_up<Q>(site: &SiteInfo) -> StepView<Q> {
    replied(reply::internal_failure(site))
}

impl<Q: View> Step<Q> {
    pub fn replied(reply: Reply) -> (r: Step<Q>)
        ensures
            r@ == replied::<Q::V>(reply@),
    {
        Step::Finish(Finish { record_failure: None, audit: None, reply })
    }

    pub fn attempt_failed(key: String, audit: Option<AuditEntry>, reply: Reply) -> (r: Step<Q>)
        ensures
            r@ == attempt_failed::<Q::V>(
                key@,
                match audit {
                    Some(e) => Some(e@),
                    None => None,
                },
                reply@,
            ),
    {
        Step::Finish(Finish { record_failure: Some(key), audit, reply })
    }

    pub fn gave_up(site: &SiteInfo) -> (r: Step<Q>)
        ensures
            r@ == gave_up::<Q::V>(site),
    {
        Step::replied(Reply::internal_failure(site))
    }
}

} // verus!
