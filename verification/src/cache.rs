//! The shared cache and the refresh controller's state machine.
//!
//! The cache holds the most recent successfully parsed snapshot, the opaque
//! validator token of the conditional fetch, and the instant the snapshot was
//! obtained. Per inbound request the controller asks whether the cache is
//! stale; if so, exactly one fetch outcome is reconciled with the cache while
//! exclusive access is held, so concurrent requests observe either the
//! pre-refresh or the post-refresh cache, never a partial one.

use vstd::prelude::*;

use crate::projector::{metrics_update_matches, project, MetricsUpdate};
use crate::vatsim::VatsimStatus;

verus! {

/// Maximum age, in seconds, a cached snapshot may reach before the next
/// request attempts a refresh.
pub const STALENESS_WINDOW_SECS: i64 = 40;

/// Why a fetch produced no new snapshot.
#[derive(Debug, Clone, PartialEq, Eq, Structural)]
pub enum FetchFailure {
    /// Connection error or timeout: the reply never arrived.
    Transport,
    /// The reply arrived but its payload does not match the expected schema.
    Schema,
}

/// The result of one conditional fetch against upstream.
pub enum FetchOutcome {
    /// Upstream returned a full body that parsed successfully.
    Updated { snapshot: VatsimStatus, validator: String },
    /// Upstream indicated the cached body is still current.
    NotModified { validator: String },
    /// Transport error, timeout, or a payload that failed schema parsing.
    Failed { reason: FetchFailure },
}

/// A fetch reply reduced to plain values: either the transport failed, or a
/// reply arrived with its status code, the validator header if one could be
/// read, and the parsed body if the payload matched the schema.
pub enum RawFetch {
    TransportError,
    Reply { status: u16, validator: Option<String>, body: Option<VatsimStatus> },
}

/// The characters of an optional validator header; a missing or unreadable
/// header degrades to the empty validator, making the next fetch
/// unconditional.
pub open spec fn validator_chars(v: Option<String>) -> Seq<char> {
    match v {
        Some(s) => s@,
        None => Seq::empty(),
    }
}

/// Reconciles one raw fetch reply into a fetch outcome: a reply whose status
/// says "not modified" keeps the cached body; any other reply counts as an
/// update when its payload parsed, and as a schema failure when it did not;
/// a transport error never carries a new validator.
pub fn classify_fetch(raw: RawFetch) -> (r: FetchOutcome)
    ensures
        (match raw {
            RawFetch::TransportError => r == FetchOutcome::Failed {
                reason: FetchFailure::Transport,
            },
            RawFetch::Reply { status, validator, body } => {
                if status == 304 {
                    r matches FetchOutcome::NotModified { validator: v } && v@
                        == validator_chars(validator)
                } else {
                    match body {
                        Some(snapshot) => r matches FetchOutcome::Updated {
                            snapshot: s,
                            validator: v,
                        } && s == snapshot && v@ == validator_chars(validator),
                        None => r == FetchOutcome::Failed { reason: FetchFailure::Schema },
                    }
                }
            },
        }),
{
    match raw {
        RawFetch::TransportError => FetchOutcome::Failed { reason: FetchFailure::Transport },
        RawFetch::Reply { status, validator, body } => {
            let v = match validator {
                Some(s) => s,
                None => String::new(),
            };
            if status == 304 {
                FetchOutcome::NotModified { validator: v }
            } else {
                match body {
                    Some(snapshot) => FetchOutcome::Updated { snapshot, validator: v },
                    None => FetchOutcome::Failed { reason: FetchFailure::Schema },
                }
            }
        },
    }
}

/// The shared cache: the most recent successfully parsed snapshot, the
/// validator token for the next conditional fetch, and the instant the
/// snapshot was obtained (UTC Unix seconds).
pub struct Cache {
    pub snapshot: Option<VatsimStatus>,
    pub validator: String,
    pub fetched_at: Option<i64>,
}

impl Cache {
    /// The cache before any fetch: empty, with an empty validator, so the
    /// first fetch is unconditional.
    pub fn new() -> (c: Cache)
        ensures
            c.snapshot is None,
            c.validator@ == Seq::<char>::empty(),
            c.fetched_at is None,
    {
        Cache { snapshot: None, validator: String::new(), fetched_at: None }
    }

    /// Whether a request arriving at `now` must attempt a refresh: the cache
    /// is empty, or the snapshot has reached the staleness window.
    pub open spec fn spec_needs_refresh(self, now: i64) -> bool {
        match (self.snapshot, self.fetched_at) {
            (Some(_), Some(t)) => now - t >= STALENESS_WINDOW_SECS,
            _ => true,
        }
    }

    /// Decides, per inbound request, whether to trigger the fetcher.
    pub fn needs_refresh(&self, now: i64) -> (r: bool)
        ensures
            r == self.spec_needs_refresh(now),
    {
        match (&self.snapshot, &self.fetched_at) {
            (Some(_), Some(t)) => (now as i128) - (*t as i128) >= STALENESS_WINDOW_SECS as i128,
            _ => true,
        }
    }

    /// The cache after one fetch outcome is reconciled at instant `now`: an
    /// update replaces the snapshot whole and restarts the staleness window;
    /// "not modified" refreshes only the validator and the window; a failure
    /// leaves the cache untouched, so the previous snapshot, if any,
    /// continues to be served.
    pub open spec fn spec_apply(self, outcome: FetchOutcome, now: i64) -> Cache {
        match outcome {
            FetchOutcome::Updated { snapshot, validator } => Cache {
                snapshot: Some(snapshot),
                validator,
                fetched_at: Some(now),
            },
            FetchOutcome::NotModified { validator } => Cache {
                snapshot: self.snapshot,
                validator,
                fetched_at: Some(now),
            },
            FetchOutcome::Failed { .. } => self,
        }
    }

    /// Reconciles one fetch outcome with the cache. Exactly on an update the
    /// projector runs, and its samples are returned for the registry; on any
    /// other outcome no metric value changes.
    pub fn apply(&mut self, outcome: FetchOutcome, now: i64) -> (r: Option<MetricsUpdate>)
        ensures
            *final(self) == old(self).spec_apply(outcome, now),
            (match outcome {
                FetchOutcome::Updated { snapshot, .. } => r matches Some(u)
                    && metrics_update_matches(u, snapshot, now),
                _ => r is None,
            }),
    {
        match outcome {
            FetchOutcome::Updated { snapshot, validator } => {
                let update = project(&snapshot, now);
                self.snapshot = Some(snapshot);
                self.validator = validator;
                self.fetched_at = Some(now);
                Some(update)
            },
            FetchOutcome::NotModified { validator } => {
                self.validator = validator;
                self.fetched_at = Some(now);
                None
            },
            FetchOutcome::Failed { .. } => None,
        }
    }

    /// The body of a snapshot query: the cached snapshot, or nothing — the
    /// only caller-visible failure — while no fetch has ever succeeded.
    pub fn snapshot_response(&self) -> (r: Option<&VatsimStatus>)
        ensures
            (match self.snapshot {
                Some(s) => r matches Some(p) && *p == s,
                None => r is None,
            }),
    {
        self.snapshot.as_ref()
    }
}

/// Law (one fetch per staleness window): after a refresh reconciled an
/// update — or a "not modified" while a snapshot was cached — at instant
/// `t1`, a second request at any `t2` within the staleness window does not
/// trigger the fetcher: back-to-back requests cost one upstream call.
pub proof fn lemma_refresh_once_within_window(
    c: Cache,
    outcome: FetchOutcome,
    t1: i64,
    t2: i64,
)
    requires
        t1 <= t2 < t1 + STALENESS_WINDOW_SECS,
        (match outcome {
            FetchOutcome::Updated { .. } => true,
            FetchOutcome::NotModified { .. } => c.snapshot is Some,
            FetchOutcome::Failed { .. } => false,
        }),
    ensures
        !c.spec_apply(outcome, t1).spec_needs_refresh(t2),
{
}

/// Law (a "not modified" outcome changes no served data): reconciling it
/// keeps the cached snapshot — hence its update timestamp — exactly as it
/// was; only the validator and the staleness window move.
pub proof fn lemma_not_modified_keeps_snapshot(c: Cache, validator: String, now: i64)
    ensures
        c.spec_apply(FetchOutcome::NotModified { validator }, now).snapshot == c.snapshot,
{
}

/// Law (a failure changes nothing): reconciling a failed fetch returns the
/// cache unchanged, so the previous snapshot continues to be served.
pub proof fn lemma_failure_keeps_cache(c: Cache, reason: FetchFailure, now: i64)
    ensures
        c.spec_apply(FetchOutcome::Failed { reason }, now) == c,
{
}

/// Law (a successful fetch installs its snapshot): after an update is
/// reconciled, the cache serves exactly the fetched snapshot — a snapshot
/// query stops reporting "nothing yet" from that point on.
pub proof fn lemma_updated_installs_snapshot(
    c: Cache,
    snapshot: VatsimStatus,
    validator: String,
    now: i64,
)
    ensures
        c.spec_apply(FetchOutcome::Updated { snapshot, validator }, now).snapshot == Some(
            snapshot,
        ),
{
}

} // verus!
