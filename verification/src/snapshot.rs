//! The snapshot reporter's decision step.  On each tick the runtime client is
//! asked for the current listing; a successful listing is stamped with the
//! current time and becomes the snapshot, a failed listing aborts that tick
//! only.  The timer itself and the listing call live outside the library.

use vstd::prelude::*;

use crate::runtime::DockerApiError;
use crate::wire::{AgentSnapshot, AgentSnapshotView, ContainerStatus, ContainerStatusView, Timestamp};

verus! {

/// The snapshot a tick produces from a given listing at a given instant.
pub open spec fn snapshot_of(listing: Seq<ContainerStatusView>, now: Timestamp) -> AgentSnapshotView {
    AgentSnapshotView { timestamp: now, container_status: listing }
}

/// Builds the snapshot of one reporting tick.  The listing is reported
/// verbatim, stamped with `now`; a failed listing aborts the tick and the
/// error is passed through.
pub fn build_snapshot(listing: Result<Vec<ContainerStatus>, DockerApiError>, now: Timestamp) -> (r:
    Result<AgentSnapshot, DockerApiError>)
    ensures
        listing is Ok ==> r is Ok && r->Ok_0@ == snapshot_of(listing->Ok_0.deep_view(), now),
        listing is Err ==> r is Err && r->Err_0@ == listing->Err_0@,
{
    match listing {
        Ok(container_status) => Ok(AgentSnapshot { timestamp: now, container_status }),
        Err(e) => Err(e),
    }
}

/// Snapshot ticks are idempotent with respect to the listing: two ticks over
/// the same listing and no intervening changes produce snapshots identical
/// except for their timestamps.
pub proof fn lemma_snapshot_tick_idempotent(
    listing: Seq<ContainerStatusView>,
    first: Timestamp,
    second: Timestamp,
)
    ensures
        snapshot_of(listing, first).container_status == snapshot_of(
            listing,
            second,
        ).container_status,
        snapshot_of(listing, first).timestamp == first,
        snapshot_of(listing, second).timestamp == second,
{
}

} // verus!
