use vstd::prelude::*;

use crate::instance::InstanceInfo;

verus! {

/// Who an event is attributed to.
pub enum CausedBy {
    User { user_id: String, user_name: String },
    System,
}

/// What a progression is about, told at its start.
pub enum ProgressionStartValue {
    InstanceCreation {
        instance_uuid: String,
        instance_name: String,
        port: u32,
        flavour: String,
        game_type: String,
    },
}

/// What a progression produced, told at its end.
pub enum ProgressionEndValue {
    InstanceCreation(InstanceInfo),
    InstanceDelete { instance_uuid: String },
}

/// The two halves of a progression.
#[allow(inconsistent_fields)]
pub enum ProgressionEventInner {
    ProgressionStart {
        progression_name: String,
        /// The uuid of the instance the progression is about.
        producer_id: Option<String>,
        /// The number of work units the progression is split into.
        total: Option<u32>,
        inner: Option<ProgressionStartValue>,
    },
    ProgressionEnd { success: bool, message: Option<String>, inner: Option<ProgressionEndValue> },
}

/// A progression notification. A start and its end carry the same id.
pub struct ProgressionEvent {
    pub event_id: u64,
    pub caused_by: CausedBy,
    pub inner: ProgressionEventInner,
}

/// `e` starts progression `id` about the instance with uuid `producer`.
pub open spec fn is_start(e: ProgressionEvent, id: u64, producer: Seq<char>) -> bool {
    &&& e.event_id == id
    &&& e.inner is ProgressionStart
    &&& e.inner->ProgressionStart_producer_id is Some
    &&& e.inner->ProgressionStart_producer_id->Some_0@ == producer
}

/// `e` ends progression `id`, successfully or not as `success` says.
pub open spec fn is_end(e: ProgressionEvent, id: u64, success: bool) -> bool {
    &&& e.event_id == id
    &&& e.inner is ProgressionEnd
    &&& e.inner->ProgressionEnd_success == success
}

/// The number of work units a progression of this core is split into.
pub const PROGRESSION_TOTAL: u32 = 10;

impl CausedBy {
    /// A field-by-field copy.
    pub fn copy(&self) -> (r: CausedBy)
        ensures
            r == *self,
    {
        match self {
            CausedBy::User { user_id, user_name } => CausedBy::User {
                user_id: user_id.clone(),
                user_name: user_name.clone(),
            },
            CausedBy::System => CausedBy::System,
        }
    }
}

/// A string made of `a` followed by `b`.
pub fn join_text(a: &str, b: &String) -> (r: String)
    ensures
        r@ == a@ + b@,
{
    let mut r = String::from_str(a);
    r.append(b.as_str());
    r
}

/// The end of progression `id`, failed, with `message`.
pub fn failed_end(event_id: u64, caused_by: CausedBy, message: String) -> (r: ProgressionEvent)
    ensures
        is_end(r, event_id, false),
        r.caused_by == caused_by,
        r.inner->ProgressionEnd_message == Some(message),
        r.inner->ProgressionEnd_inner is None,
{
    ProgressionEvent {
        event_id,
        caused_by,
        inner: ProgressionEventInner::ProgressionEnd {
            success: false,
            message: Some(message),
            inner: None,
        },
    }
}

} // verus!
