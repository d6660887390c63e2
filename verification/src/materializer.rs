//! The checkpoint materializer's bookkeeping: what waits between flushes
//! (the latest snapshot of each kind, every delta in arrival order) and what
//! a flush writes.  Payloads are the caller's.
use vstd::prelude::*;

verus! {

/// A message to the materializer.
pub enum MaterializerMessage<T> {
    CoordinationMaterialization(T),
    GraphSnapshot(T),
    ProjectionDeltas(Vec<T>, Vec<T>),
    ProjectionSnapshot(T),
    ValidationDeltas(Vec<T>),
    OutcomeSnapshot(T),
    EpisodicSnapshot(T),
    EpisodicReanchorEvents(Vec<T>),
    InferenceSnapshot(T),
    CuratorSnapshot(T),
    WorkspaceTreeSnapshot(T),
    Flush,
    Stop,
}

/// What the materializer does after taking in a message.
#[derive(Debug, Clone, Copy, PartialEq, Eq, Structural)]
pub enum MaterializerStep {
    /// Keep collecting.
    Collect,
    /// Flush now and answer the flush request.
    FlushAndReply,
    /// Flush now and stop.
    FlushAndStop,
    /// Flush now, answer nobody, and keep collecting.
    FlushAndKeepCollecting,
}

/// What the materializer's worker waits for next.
#[derive(Debug, Clone, Copy, PartialEq, Eq, Structural)]
pub enum MaterializerWait {
    /// The next message, however long it takes.
    NextMessage,
    /// The next message, for at most the quiet window.
    QuietWindow,
}

/// How long, in milliseconds, the worker waits for more messages after one
/// arrives before it flushes what waits.
pub const MATERIALIZER_QUIET_WINDOW_MILLIS: u64 = 25;

/// What the worker's wait ended with.
pub enum MaterializerEvent<T> {
    /// A message arrived.
    Message(MaterializerMessage<T>),
    /// The quiet window passed with no message.
    QuietWindowElapsed,
    /// Every sender is gone.
    Disconnected,
}

/// What waits to be written.
pub struct PendingMaterializations<T> {
    pub co_change_deltas: Vec<T>,
    pub validation_deltas: Vec<T>,
    pub coordination_materialization: Option<T>,
    pub graph_snapshot: Option<T>,
    pub projection_snapshot: Option<T>,
    pub outcome_snapshot: Option<T>,
    pub episodic_snapshot: Option<T>,
    pub episodic_reanchor_events: Vec<T>,
    pub inference_snapshot: Option<T>,
    pub curator_snapshot: Option<T>,
    pub workspace_tree_snapshot: Option<T>,
}

/// Nothing waits.
pub open spec fn nothing_pending<T>(p: PendingMaterializations<T>) -> bool {
    &&& p.co_change_deltas@.len() == 0
    &&& p.validation_deltas@.len() == 0
    &&& p.coordination_materialization is None
    &&& p.graph_snapshot is None
    &&& p.projection_snapshot is None
    &&& p.outcome_snapshot is None
    &&& p.episodic_snapshot is None
    &&& p.episodic_reanchor_events@.len() == 0
    &&& p.inference_snapshot is None
    &&& p.curator_snapshot is None
    &&& p.workspace_tree_snapshot is None
}

/// `new` is `old` after taking in `m`: a snapshot replaces the waiting one
/// of its kind, deltas and events are appended, and a flush or stop request
/// changes nothing.
pub open spec fn recorded<T>(
    old: PendingMaterializations<T>,
    new: PendingMaterializations<T>,
    m: MaterializerMessage<T>,
) -> bool {
    let same_deltas = new.co_change_deltas@ == old.co_change_deltas@ && new.validation_deltas@
        == old.validation_deltas@;
    let same_events = new.episodic_reanchor_events@ == old.episodic_reanchor_events@;
    &&& new.coordination_materialization == match m {
        MaterializerMessage::CoordinationMaterialization(x) => Some(x),
        _ => old.coordination_materialization,
    }
    &&& new.graph_snapshot == match m {
        MaterializerMessage::GraphSnapshot(x) => Some(x),
        _ => old.graph_snapshot,
    }
    &&& new.projection_snapshot == match m {
        MaterializerMessage::ProjectionSnapshot(x) => Some(x),
        _ => old.projection_snapshot,
    }
    &&& new.outcome_snapshot == match m {
        MaterializerMessage::OutcomeSnapshot(x) => Some(x),
        _ => old.outcome_snapshot,
    }
    &&& new.episodic_snapshot == match m {
        MaterializerMessage::EpisodicSnapshot(x) => Some(x),
        _ => old.episodic_snapshot,
    }
    &&& new.inference_snapshot == match m {
        MaterializerMessage::InferenceSnapshot(x) => Some(x),
        _ => old.inference_snapshot,
    }
    &&& new.curator_snapshot == match m {
        MaterializerMessage::CuratorSnapshot(x) => Some(x),
        _ => old.curator_snapshot,
    }
    &&& new.workspace_tree_snapshot == match m {
        MaterializerMessage::WorkspaceTreeSnapshot(x) => Some(x),
        _ => old.workspace_tree_snapshot,
    }
    &&& match m {
        MaterializerMessage::ProjectionDeltas(co, va) => new.co_change_deltas@
            == old.co_change_deltas@ + co@ && new.validation_deltas@ == old.validation_deltas@
            + va@,
        MaterializerMessage::ValidationDeltas(va) => new.co_change_deltas@ == old.co_change_deltas@
            && new.validation_deltas@ == old.validation_deltas@ + va@,
        _ => same_deltas,
    }
    &&& match m {
        MaterializerMessage::EpisodicReanchorEvents(ev) => new.episodic_reanchor_events@
            == old.episodic_reanchor_events@ + ev@,
        _ => same_events,
    }
}

fn append_all<T>(v: &mut Vec<T>, more: Vec<T>)
    ensures
        final(v)@ == old(v)@ + more@,
{
    let mut more = more;
    v.append(&mut more);
}

impl<T> PendingMaterializations<T> {
    /// Nothing waiting.
    pub fn new() -> (p: Self)
        ensures
            nothing_pending(p),
    {
        PendingMaterializations {
            co_change_deltas: Vec::new(),
            validation_deltas: Vec::new(),
            coordination_materialization: None,
            graph_snapshot: None,
            projection_snapshot: None,
            outcome_snapshot: None,
            episodic_snapshot: None,
            episodic_reanchor_events: Vec::new(),
            inference_snapshot: None,
            curator_snapshot: None,
            workspace_tree_snapshot: None,
        }
    }

    /// Takes in a message, and says whether to flush.
    pub fn record(&mut self, message: MaterializerMessage<T>) -> (step: MaterializerStep)
        ensures
            recorded(*old(self), *final(self), message),
            step == match message {
                MaterializerMessage::Flush => MaterializerStep::FlushAndReply,
                MaterializerMessage::Stop => MaterializerStep::FlushAndStop,
                _ => MaterializerStep::Collect,
            },
    {
        match message {
            MaterializerMessage::CoordinationMaterialization(x) => {
                self.coordination_materialization = Some(x);
            },
            MaterializerMessage::GraphSnapshot(x) => {
                self.graph_snapshot = Some(x);
            },
            MaterializerMessage::ProjectionDeltas(co, va) => {
                append_all(&mut self.co_change_deltas, co);
                append_all(&mut self.validation_deltas, va);
            },
            MaterializerMessage::ProjectionSnapshot(x) => {
                self.projection_snapshot = Some(x);
            },
            MaterializerMessage::ValidationDeltas(va) => {
                append_all(&mut self.validation_deltas, va);
            },
            MaterializerMessage::OutcomeSnapshot(x) => {
                self.outcome_snapshot = Some(x);
            },
            MaterializerMessage::EpisodicSnapshot(x) => {
                self.episodic_snapshot = Some(x);
            },
            MaterializerMessage::EpisodicReanchorEvents(ev) => {
                append_all(&mut self.episodic_reanchor_events, ev);
            },
            MaterializerMessage::InferenceSnapshot(x) => {
                self.inference_snapshot = Some(x);
            },
            MaterializerMessage::CuratorSnapshot(x) => {
                self.curator_snapshot = Some(x);
            },
            MaterializerMessage::WorkspaceTreeSnapshot(x) => {
                self.workspace_tree_snapshot = Some(x);
            },
            MaterializerMessage::Flush => {
                return MaterializerStep::FlushAndReply;
            },
            MaterializerMessage::Stop => {
                return MaterializerStep::FlushAndStop;
            },
        }
        MaterializerStep::Collect
    }

    /// Takes in what the worker's wait ended with, and says what to do and
    /// what to wait for next.  A message is recorded; after a data message
    /// the worker waits out a quiet window before it flushes, after a flush
    /// it waits for the next message.  A quiet window that passes flushes
    /// and goes back to waiting; a closed channel flushes and stops.
    pub fn handle(&mut self, event: MaterializerEvent<T>) -> (r: (MaterializerStep, MaterializerWait))
        ensures
            match event {
                MaterializerEvent::Message(m) => {
                    &&& recorded(*old(self), *final(self), m)
                    &&& r == match m {
                        MaterializerMessage::Flush => (
                            MaterializerStep::FlushAndReply,
                            MaterializerWait::NextMessage,
                        ),
                        MaterializerMessage::Stop => (
                            MaterializerStep::FlushAndStop,
                            MaterializerWait::NextMessage,
                        ),
                        _ => (MaterializerStep::Collect, MaterializerWait::QuietWindow),
                    }
                },
                MaterializerEvent::QuietWindowElapsed => {
                    &&& *final(self) == *old(self)
                    &&& r == (MaterializerStep::FlushAndKeepCollecting, MaterializerWait::NextMessage)
                },
                MaterializerEvent::Disconnected => {
                    &&& *final(self) == *old(self)
                    &&& r == (MaterializerStep::FlushAndStop, MaterializerWait::NextMessage)
                },
            },
    {
        match event {
            MaterializerEvent::Message(message) => {
                let step = self.record(message);
                let wait = if step == MaterializerStep::Collect {
                    MaterializerWait::QuietWindow
                } else {
                    MaterializerWait::NextMessage
                };
                (step, wait)
            },
            MaterializerEvent::QuietWindowElapsed => (
                MaterializerStep::FlushAndKeepCollecting,
                MaterializerWait::NextMessage,
            ),
            MaterializerEvent::Disconnected => (
                MaterializerStep::FlushAndStop,
                MaterializerWait::NextMessage,
            ),
        }
    }

    /// Takes everything that waits, leaving nothing.
    pub fn take_all(&mut self) -> (batch: Self)
        ensures
            batch == *old(self),
            nothing_pending(*final(self)),
    {
        let mut empty = PendingMaterializations::new();
        std::mem::swap(self, &mut empty);
        empty
    }
}

/// How a flush writes the projections.
#[derive(Debug, Clone, Copy, PartialEq, Eq, Structural)]
pub enum ProjectionWrite {
    /// Nothing to write.
    Nothing,
    /// Save the waiting snapshot as it is.
    SaveSnapshot,
    /// Apply the waiting deltas to the waiting snapshot, then save it.
    SaveSnapshotWithDeltas,
    /// Apply the waiting deltas to the stored projections.
    ApplyDeltas,
}

/// Which episodic snapshot a flush re-anchors and writes.
#[derive(Debug, Clone, Copy, PartialEq, Eq, Structural)]
pub enum EpisodicWrite {
    /// None.
    Nothing,
    /// The waiting snapshot, re-anchored by the waiting events.
    Waiting,
    /// The stored snapshot, re-anchored by the waiting events.
    Stored,
}

/// How a batch writes the projections: a waiting snapshot is saved (with
/// the deltas applied first when there are any); deltas alone are applied
/// to the stored projections.
pub fn projection_write<T>(batch: &PendingMaterializations<T>) -> (w: ProjectionWrite)
    ensures
        w == if batch.projection_snapshot is Some {
            if batch.co_change_deltas@.len() == 0 && batch.validation_deltas@.len() == 0 {
                ProjectionWrite::SaveSnapshot
            } else {
                ProjectionWrite::SaveSnapshotWithDeltas
            }
        } else if batch.co_change_deltas@.len() > 0 || batch.validation_deltas@.len() > 0 {
            ProjectionWrite::ApplyDeltas
        } else {
            ProjectionWrite::Nothing
        },
{
    let no_deltas = batch.co_change_deltas.len() == 0 && batch.validation_deltas.len() == 0;
    if batch.projection_snapshot.is_some() {
        if no_deltas {
            ProjectionWrite::SaveSnapshot
        } else {
            ProjectionWrite::SaveSnapshotWithDeltas
        }
    } else if !no_deltas {
        ProjectionWrite::ApplyDeltas
    } else {
        ProjectionWrite::Nothing
    }
}

/// Which episodic snapshot a batch writes: the waiting one, else the stored
/// one when re-anchoring events wait, else none.
pub fn episodic_write<T>(batch: &PendingMaterializations<T>) -> (w: EpisodicWrite)
    ensures
        w == if batch.episodic_snapshot is Some {
            EpisodicWrite::Waiting
        } else if batch.episodic_reanchor_events@.len() > 0 {
            EpisodicWrite::Stored
        } else {
            EpisodicWrite::Nothing
        },
{
    if batch.episodic_snapshot.is_some() {
        EpisodicWrite::Waiting
    } else if batch.episodic_reanchor_events.len() > 0 {
        EpisodicWrite::Stored
    } else {
        EpisodicWrite::Nothing
    }
}

/// Whether a batch commits the auxiliary batch (outcomes, validation deltas,
/// episodic, inference and curator snapshots), given whether an episodic
/// snapshot is to be written (for a stored one: whether one was stored).
pub fn commits_auxiliary_batch<T>(batch: &PendingMaterializations<T>, episodic_present: bool) -> (r:
    bool)
    ensures
        r == (batch.outcome_snapshot is Some || episodic_present || batch.inference_snapshot is Some
            || batch.curator_snapshot is Some || batch.validation_deltas@.len() > 0),
{
    batch.outcome_snapshot.is_some() || episodic_present || batch.inference_snapshot.is_some()
        || batch.curator_snapshot.is_some() || batch.validation_deltas.len() > 0
}

/// Whether a batch holds nothing to write.
pub fn is_nothing_to_flush<T>(batch: &PendingMaterializations<T>) -> (r: bool)
    ensures
        r == nothing_pending(*batch),
{
    batch.co_change_deltas.len() == 0 && batch.validation_deltas.len() == 0
        && batch.coordination_materialization.is_none() && batch.graph_snapshot.is_none()
        && batch.projection_snapshot.is_none() && batch.outcome_snapshot.is_none()
        && batch.episodic_snapshot.is_none() && batch.episodic_reanchor_events.len() == 0
        && batch.inference_snapshot.is_none() && batch.curator_snapshot.is_none()
        && batch.workspace_tree_snapshot.is_none()
}

/// Whether deltas are worth sending to the materializer: only when there
/// are any.
pub fn should_enqueue_deltas(count: usize) -> (r: bool)
    ensures
        r == (count > 0),
{
    count > 0
}

} // verus!
