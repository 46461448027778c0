//! The state store discipline: where the state of an entity lives in the
//! bucket, and what the runtime asks of the bucket.

use vstd::prelude::*;
use vstd::string::*;
use crate::config::ActorRole;
use crate::text::join2;

verus! {

/// The bucket that holds the state of aggregates and process managers.
pub const STATE_BUCKET_NAME: &'static str = "CC_STATE";

/// What the bucket's description says.
pub const STATE_BUCKET_DESCRIPTION: &'static str =
    "Concordance state for aggregates and process managers";

/// How many revisions of a key the bucket keeps.
pub const STATE_BUCKET_HISTORY: i64 = 1;

/// The error for a role that has no state.
pub const UNSUPPORTED_ROLE_ERROR: &'static str =
    "Attempted to get a state key for an unsupported actor role";

/// Whether the runtime keeps state for participants of this role.
pub open spec fn role_has_state(role: ActorRole) -> bool {
    role == ActorRole::Aggregate || role == ActorRole::ProcessManager
}

/// The key under which the state of one instance of an entity is stored.
/// Roles without state have the empty key.
pub open spec fn state_key_of(role: ActorRole, entity_name: Seq<char>, key: Seq<char>) -> Seq<char> {
    match role {
        ActorRole::Aggregate => "agg."@ + entity_name + "."@ + key,
        ActorRole::ProcessManager => "pm."@ + entity_name + "."@ + key,
        _ => Seq::empty(),
    }
}

/// The key under which the state of the instance `key` of `entity_name`
/// is stored.
pub fn state_key(role: &ActorRole, entity_name: &str, key: &str) -> (r: String)
    ensures
        r@ == state_key_of(*role, entity_name@, key@),
{
    match role {
        ActorRole::Aggregate => {
            let mut out = join2("agg.", entity_name);
            out.append(".");
            out.append(key);
            out
        },
        ActorRole::ProcessManager => {
            let mut out = join2("pm.", entity_name);
            out.append(".");
            out.append(key);
            out
        },
        _ => String::new(),
    }
}

/// The settings of the state bucket.
#[derive(Debug, Clone, PartialEq, Eq)]
pub struct BucketSettings {
    pub bucket: String,
    pub description: String,
    pub history: i64,
}

/// A [`BucketSettings`], as characters.
pub struct BucketSettingsView {
    pub bucket: Seq<char>,
    pub description: Seq<char>,
    pub history: i64,
}

impl View for BucketSettings {
    type V = BucketSettingsView;

    open spec fn view(&self) -> BucketSettingsView {
        BucketSettingsView {
            bucket: self.bucket@,
            description: self.description@,
            history: self.history,
        }
    }
}

/// The state bucket as the runtime wants it: one revision per key.
pub open spec fn state_bucket() -> BucketSettingsView {
    BucketSettingsView {
        bucket: STATE_BUCKET_NAME@,
        description: STATE_BUCKET_DESCRIPTION@,
        history: STATE_BUCKET_HISTORY,
    }
}

/// One request to the state bucket.
#[derive(Debug, Clone, PartialEq, Eq)]
pub enum StateRequest {
    /// Read the value at the key.
    Fetch { key: String },
    /// Store the value at the key.
    Write { key: String, data: Vec<u8> },
    /// Remove the key and its history.
    Purge { key: String },
}

/// A [`StateRequest`], as characters and bytes.
pub enum StateRequestView {
    Fetch { key: Seq<char> },
    Write { key: Seq<char>, data: Seq<u8> },
    Purge { key: Seq<char> },
}

impl View for StateRequest {
    type V = StateRequestView;

    open spec fn view(&self) -> StateRequestView {
        match self {
            StateRequest::Fetch { key } => StateRequestView::Fetch { key: key@ },
            StateRequest::Write { key, data } => StateRequestView::Write { key: key@, data: data@ },
            StateRequest::Purge { key } => StateRequestView::Purge { key: key@ },
        }
    }
}

/// The view of a request or of the error that stands in its place.
pub open spec fn request_result_view(r: Result<StateRequest, String>) -> Result<
    StateRequestView,
    Seq<char>,
> {
    match r {
        Ok(request) => Ok(request@),
        Err(e) => Err(e@),
    }
}

/// The contents of the bucket: the value at each key that has one.
pub type Bucket = Map<Seq<char>, Seq<u8>>;

/// The bucket after a request was served.
pub open spec fn bucket_after(bucket: Bucket, request: StateRequestView) -> Bucket {
    match request {
        StateRequestView::Fetch { .. } => bucket,
        StateRequestView::Write { key, data } => bucket.insert(key, data),
        StateRequestView::Purge { key } => bucket.remove(key),
    }
}

/// What the bucket holds at `key`.
pub open spec fn bucket_value(bucket: Bucket, key: Seq<char>) -> Option<Seq<u8>> {
    if bucket.dom().contains(key) {
        Some(bucket[key])
    } else {
        None
    }
}

/// The entity state store: it turns what a worker wants to do with the state
/// of an instance into a request to the bucket.
#[derive(Debug, Clone, Copy)]
pub struct EntityState {}

impl EntityState {
    /// The store over the bucket [`STATE_BUCKET_NAME`] of the bus.
    pub fn new_from_context() -> (r: Self) {
        EntityState {  }
    }

    /// The settings with which the bucket is created where it is missing.
    pub fn bucket_settings(&self) -> (r: BucketSettings)
        ensures
            r@ == state_bucket(),
    {
        BucketSettings {
            bucket: String::from_str(STATE_BUCKET_NAME),
            description: String::from_str(STATE_BUCKET_DESCRIPTION),
            history: STATE_BUCKET_HISTORY,
        }
    }

    /// The request that stores `state` for the instance `key` of
    /// `entity_name`. A role without state is rejected.
    pub fn write_state(
        &self,
        actor_role: &ActorRole,
        entity_name: &str,
        key: &str,
        state: Vec<u8>,
    ) -> (r: Result<StateRequest, String>)
        ensures
            request_result_view(r) == if role_has_state(*actor_role) {
                Ok(
                    StateRequestView::Write {
                        key: state_key_of(*actor_role, entity_name@, key@),
                        data: state@,
                    },
                )
            } else {
                Err(UNSUPPORTED_ROLE_ERROR@)
            },
    {
        match actor_role {
            ActorRole::Aggregate | ActorRole::ProcessManager => Ok(
                StateRequest::Write { key: state_key(actor_role, entity_name, key), data: state },
            ),
            _ => Err(String::from_str(UNSUPPORTED_ROLE_ERROR)),
        }
    }

    /// The request that reads the state of the instance `key` of
    /// `entity_name`. A role without state is rejected.
    pub fn fetch_state(&self, actor_role: &ActorRole, entity_name: &str, key: &str) -> (r: Result<
        StateRequest,
        String,
    >)
        ensures
            request_result_view(r) == if role_has_state(*actor_role) {
                Ok(StateRequestView::Fetch { key: state_key_of(*actor_role, entity_name@, key@) })
            } else {
                Err(UNSUPPORTED_ROLE_ERROR@)
            },
    {
        match actor_role {
            ActorRole::Aggregate | ActorRole::ProcessManager => Ok(
                StateRequest::Fetch { key: state_key(actor_role, entity_name, key) },
            ),
            _ => Err(String::from_str(UNSUPPORTED_ROLE_ERROR)),
        }
    }

    /// The request that removes the state of the instance `key` of
    /// `entity_name`, history included. A role without state is rejected.
    pub fn remove_state(&self, actor_role: &ActorRole, entity_name: &str, key: &str) -> (r: Result<
        StateRequest,
        String,
    >)
        ensures
            request_result_view(r) == if role_has_state(*actor_role) {
                Ok(StateRequestView::Purge { key: state_key_of(*actor_role, entity_name@, key@) })
            } else {
                Err(UNSUPPORTED_ROLE_ERROR@)
            },
    {
        match actor_role {
            ActorRole::Aggregate | ActorRole::ProcessManager => Ok(
                StateRequest::Purge { key: state_key(actor_role, entity_name, key) },
            ),
            _ => Err(String::from_str(UNSUPPORTED_ROLE_ERROR)),
        }
    }
}

/// Purging a key twice leaves the bucket as purging it once does.
pub proof fn purge_is_idempotent(bucket: Bucket, key: Seq<char>)
    ensures
        bucket_after(
            bucket_after(bucket, StateRequestView::Purge { key }),
            StateRequestView::Purge { key },
        ) == bucket_after(bucket, StateRequestView::Purge { key }),
        bucket_value(bucket_after(bucket, StateRequestView::Purge { key }), key) is None,
{
    assert(bucket.remove(key).remove(key) =~= bucket.remove(key));
}

/// What was written at a key is what is read there next; other keys keep
/// what they had.
pub proof fn write_then_fetch(bucket: Bucket, key: Seq<char>, data: Seq<u8>)
    ensures
        bucket_value(bucket_after(bucket, StateRequestView::Write { key, data }), key) == Some(
            data,
        ),
        forall|other: Seq<char>|
            other != key ==> bucket_value(
                bucket_after(bucket, StateRequestView::Write { key, data }),
                other,
            ) == bucket_value(bucket, other),
{
}

/// Reading leaves the bucket as it was.
pub proof fn fetch_changes_nothing(bucket: Bucket, key: Seq<char>)
    ensures
        bucket_after(bucket, StateRequestView::Fetch { key }) == bucket,
{
}

} // verus!
