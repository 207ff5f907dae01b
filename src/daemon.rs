use vstd::prelude::*;

use crate::config::{reconfigured, Config, ConfigModel};
use crate::error::SyncError;


verus! {

/// What a daemon cycle does once the remote's version tag is known.
pub enum CycleStep {
    /// The remote holds the version last activated: nothing more this cycle.
    Unchanged,
    /// The cycle ends on this error; the state stays as it is.
    Skipped(SyncError),
    /// Pull the remote into a fresh scratch directory and activate it; `config`
    /// is the state the cycle started from, `tag` the remote's version.
    Sync { config: Config, tag: String },
}

/// The decision of a cycle, over plain values.
pub enum CyclePlan {
    Unchanged,
    Skipped(SyncError),
    Sync(Seq<char>),
}

/// The decision for a state and the outcome of the version-tag query.
pub open spec fn plan_of(c: ConfigModel, fetched: Result<Seq<char>, SyncError>) -> CyclePlan {
    match fetched {
        Err(e) => CyclePlan::Skipped(e),
        Ok(tag) => if tag == c.last_etag {
            CyclePlan::Unchanged
        } else if c.remote is None {
            CyclePlan::Skipped(SyncError::MissingRemote)
        } else if c.configuration is None {
            CyclePlan::Skipped(SyncError::MissingConfiguration)
        } else {
            CyclePlan::Sync(tag)
        },
    }
}

/// The state a cycle persists, if any: only a sync whose pull and activation
/// both succeeded records the new tag, with the time `now`.
pub open spec fn persisted_after(
    c: ConfigModel,
    fetched: Result<Seq<char>, SyncError>,
    outcome: Result<(), SyncError>,
    now: int,
) -> Option<ConfigModel> {
    match plan_of(c, fetched) {
        CyclePlan::Sync(tag) => match outcome {
            Ok(_) => Some(reconfigured(c, tag, now)),
            Err(_) => None,
        },
        _ => None,
    }
}

pub open spec fn fetched_view(fetched: Result<String, SyncError>) -> Result<Seq<char>, SyncError> {
    match fetched {
        Ok(t) => Ok(t@),
        Err(e) => Err(e),
    }
}

impl CycleStep {
    pub open spec fn plan(&self) -> CyclePlan {
        match self {
            CycleStep::Unchanged => CyclePlan::Unchanged,
            CycleStep::Skipped(e) => CyclePlan::Skipped(*e),
            CycleStep::Sync { tag, .. } => CyclePlan::Sync(tag@),
        }
    }
}

/// Decides a cycle from its starting state and the outcome of the
/// version-tag query: an equal tag means no work, a failed query or a missing
/// setting ends the cycle, and a new tag asks for a sync.
pub fn check_remote(config: Config, fetched: Result<String, SyncError>) -> (r: CycleStep)
    ensures
        r.plan() == plan_of(config@, fetched_view(fetched)),
        r matches CycleStep::Sync { config: c, .. } ==> c == config && c.remote is Some
            && c.configuration is Some,
{
    match fetched {
        Err(e) => CycleStep::Skipped(e),
        Ok(tag) => {
            if tag == config.last_etag {
                CycleStep::Unchanged
            } else if config.remote.is_none() {
                CycleStep::Skipped(SyncError::MissingRemote)
            } else if config.configuration.is_none() {
                CycleStep::Skipped(SyncError::MissingConfiguration)
            } else {
                CycleStep::Sync { config, tag }
            }
        },
    }
}

/// Ends a sync: after a successful pull and activation the state records
/// `tag` and the time `now`; after a failure the error comes back and the
/// state is not advanced, so the next cycle tries the same version again.
pub fn finish_sync(config: Config, tag: &str, outcome: Result<(), SyncError>, now: i64) -> (r:
    Result<Config, SyncError>)
    ensures
        outcome is Ok ==> r is Ok && r->Ok_0@ == reconfigured(config@, tag@, now as int) && (
        config.wf() ==> r->Ok_0.wf()),
        outcome is Err ==> r == Err::<Config, SyncError>(outcome->Err_0),
{
    match outcome {
        Ok(()) => Ok(config.with_reconfiguration_at(tag, now)),
        Err(e) => Err(e),
    }
}

/// A cycle whose tag query returns the last activated tag pulls nothing,
/// activates nothing and persists nothing, whatever else happens.
pub proof fn lemma_unchanged_tag_is_idle(
    c: ConfigModel,
    tag: Seq<char>,
    outcome: Result<(), SyncError>,
    now: int,
)
    requires
        tag == c.last_etag,
    ensures
        plan_of(c, Ok(tag)) == CyclePlan::Unchanged,
        persisted_after(c, Ok(tag), outcome, now) is None,
{
}

/// A cycle that finds a new tag but whose pull or activation fails persists
/// nothing, so the next cycle, starting from the same state, attempts the
/// same version again.
pub proof fn lemma_failed_sync_is_retried(
    c: ConfigModel,
    tag: Seq<char>,
    e: SyncError,
    now: int,
)
    requires
        tag != c.last_etag,
        c.remote is Some,
        c.configuration is Some,
    ensures
        persisted_after(c, Ok(tag), Err(e), now) is None,
        plan_of(c, Ok(tag)) == CyclePlan::Sync(tag),
{
}

/// A cycle that syncs a new tag successfully persists exactly that tag and
/// the time of the sync; all other fields are kept.
pub proof fn lemma_successful_sync_records_tag(c: ConfigModel, tag: Seq<char>, now: int)
    requires
        tag != c.last_etag,
        c.remote is Some,
        c.configuration is Some,
    ensures
        persisted_after(c, Ok(tag), Ok(()), now) == Some(
            ConfigModel { last_etag: tag, last_reconfiguration: now, ..c },
        ),
{
}

} // verus!
