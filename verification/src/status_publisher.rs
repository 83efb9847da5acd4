//! Monotonic gate for immediate status receipts and bounded heartbeats.
use vstd::prelude::*;

verus! {

pub const DEFAULT_STATUS_HEARTBEAT_INTERVAL_MS: u64 = 10_000;

/// Decides when a status is published.
#[derive(Debug, Clone, Copy, PartialEq, Eq, Structural)]
pub struct StatusPublishGate {
    pub heartbeat_interval_ms: u64,
    pub last_published_ms: Option<u64>,
}

impl StatusPublishGate {
    /// A gate with a heartbeat of the given length.
    pub fn new(heartbeat_interval_ms: u64) -> (gate: StatusPublishGate)
        ensures
            gate == (StatusPublishGate { heartbeat_interval_ms, last_published_ms: None }),
    {
        StatusPublishGate { heartbeat_interval_ms, last_published_ms: None }
    }

    /// Whether a status is to be published: when it must be, when none was
    /// yet, and when the heartbeat is due.
    pub open spec fn publishes(self, now_ms: u64, force: bool) -> bool {
        ||| force
        ||| self.last_published_ms is None
        ||| (if now_ms >= self.last_published_ms->0 {
            now_ms - self.last_published_ms->0
        } else {
            0
        }) >= self.heartbeat_interval_ms
    }

    /// Whether a status is to be published.
    pub fn should_publish(&self, now_ms: u64, force: bool) -> (publish: bool)
        ensures
            publish == self.publishes(now_ms, force),
    {
        force || match self.last_published_ms {
            None => true,
            Some(last) => now_ms.saturating_sub(last) >= self.heartbeat_interval_ms,
        }
    }

    /// Notes that a status was published.
    pub fn mark_published(&mut self, now_ms: u64)
        ensures
            *final(self) == (StatusPublishGate {
                last_published_ms: Some(now_ms),
                ..*old(self)
            }),
    {
        self.last_published_ms = Some(now_ms);
    }
}

impl Default for StatusPublishGate {
    fn default() -> (gate: StatusPublishGate)
        ensures
            gate == (StatusPublishGate {
                heartbeat_interval_ms: DEFAULT_STATUS_HEARTBEAT_INTERVAL_MS,
                last_published_ms: None,
            }),
    {
        StatusPublishGate::new(DEFAULT_STATUS_HEARTBEAT_INTERVAL_MS)
    }
}

/// After a publication, nothing that need not be published is published for a
/// whole heartbeat, and then the next status is.
pub proof fn heartbeats_are_bounded(gate: StatusPublishGate, published_ms: u64, now_ms: u64)
    requires
        gate.last_published_ms == Some(published_ms),
        published_ms <= now_ms,
    ensures
        gate.publishes(now_ms, false) <==> now_ms - published_ms >= gate.heartbeat_interval_ms,
        gate.publishes(now_ms, true),
{
}

/// The first status is published, and the next unforced one when the heartbeat
/// has passed; a clock that went back does not make it due.
pub proof fn first_statuses_are_published(gate: StatusPublishGate, now_ms: u64, force: bool)
    ensures
        gate.last_published_ms is None ==> gate.publishes(now_ms, force),
        force ==> gate.publishes(now_ms, force),
        (gate.last_published_ms matches Some(last) && now_ms < last) && !force
            && gate.heartbeat_interval_ms > 0 ==> !gate.publishes(now_ms, force),
{
}

} // verus!
