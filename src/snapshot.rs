use vstd::prelude::*;

verus! {

/// The snapshot activity of a node.
#[derive(Clone, Debug, PartialEq, Eq)]
pub enum SnapshotState {
    /// A snapshot is being built locally.
    Snapshotting,
    /// A snapshot is being received from the leader.
    Streaming { id: String, offset: u64 },
}

/// A position in a snapshot stream.
#[derive(Clone, Debug, PartialEq, Eq)]
pub struct SnapshotSegmentId {
    pub id: String,
    pub offset: u64,
}

/// A snapshot chunk that does not fit the stream being received.
#[derive(Clone, Debug, PartialEq, Eq)]
pub struct SnapshotMismatch {
    pub expect: SnapshotSegmentId,
    pub got: SnapshotSegmentId,
}

/// How a received chunk is taken.
#[derive(Clone, Copy, Debug, PartialEq, Eq, Structural)]
pub enum InstallAction {
    /// Start a new stream; a local build in progress is aborted and any
    /// stream in progress discarded.
    Begin,
    /// Continue the stream in progress, which stands at `offset`.
    Continue { offset: u64 },
}

/// The outcome of matching a chunk of snapshot `id` at `offset` against the
/// node's snapshot activity.
pub open spec fn install_decision(state: Option<SnapshotState>, id: Seq<char>, offset: u64) -> Result<InstallAction, (Seq<char>, u64)> {
    match state {
        Some(SnapshotState::Streaming { id: sid, offset: soff }) => {
            if sid@ == id {
                Ok(InstallAction::Continue { offset: soff })
            } else if offset == 0 {
                Ok(InstallAction::Begin)
            } else {
                Err((sid@, soff))
            }
        },
        _ => {
            if offset == 0 {
                Ok(InstallAction::Begin)
            } else {
                Err((id, 0))
            }
        },
    }
}

/// Matches a chunk of snapshot `id` at `offset` against the node's snapshot
/// activity. With none, or a local build, a new stream begins; it must start
/// at offset 0. A stream of the same id continues. A stream of another id is
/// discarded for a new one at offset 0, and refused at any other offset.
pub fn decide_install(state: &Option<SnapshotState>, id: &String, offset: u64) -> (r: Result<
    InstallAction,
    SnapshotMismatch,
>)
    ensures
        r matches Ok(a) ==> install_decision(*state, id@, offset) == Ok::<InstallAction, (Seq<char>, u64)>(a),
        r matches Err(e) ==> install_decision(*state, id@, offset) == Err::<InstallAction, (Seq<char>, u64)>((e.expect.id@, e.expect.offset))
            && e.got.id@ == id@ && e.got.offset == offset,
{
    match state {
        Some(SnapshotState::Streaming { id: sid, offset: soff }) => {
            if sid.eq(id) {
                Ok(InstallAction::Continue { offset: *soff })
            } else if offset == 0 {
                Ok(InstallAction::Begin)
            } else {
                Err(
                    SnapshotMismatch {
                        expect: SnapshotSegmentId { id: sid.clone(), offset: *soff },
                        got: SnapshotSegmentId { id: id.clone(), offset },
                    },
                )
            }
        },
        _ => {
            if offset == 0 {
                Ok(InstallAction::Begin)
            } else {
                Err(
                    SnapshotMismatch {
                        expect: SnapshotSegmentId { id: id.clone(), offset: 0 },
                        got: SnapshotSegmentId { id: id.clone(), offset },
                    },
                )
            }
        },
    }
}

/// The snapshot activity after a chunk of `len` bytes of snapshot `id` was
/// written at `offset`: none once the last chunk is in, else the stream,
/// standing just after the chunk.
pub fn after_chunk(id: &String, offset: u64, len: u64, done: bool) -> (r: Option<SnapshotState>)
    requires
        offset + len <= u64::MAX,
    ensures
        done ==> r is None,
        !done ==> (r matches Some(SnapshotState::Streaming { id: sid, offset: o }) && sid@ == id@
            && o == offset + len),
{
    if done {
        None
    } else {
        Some(SnapshotState::Streaming { id: id.clone(), offset: offset + len })
    }
}

} // verus!
