//! The curator: which changes and outcomes call for a curation job, the
//! queue of curation jobs and the bookkeeping of their records, and the
//! recalled outcomes a job is given.
use vstd::prelude::*;

use crate::coordination::ids_view;
use crate::text::{
    chars_of, lemma_seq_lt_asymmetric, lemma_seq_lt_irreflexive, lemma_seq_lt_total,
    lemma_seq_lt_transitive, seq_lt, string_lt,
};

verus! {

// ---------------------------------------------------------------------------
// Job sequence numbers
// ---------------------------------------------------------------------------
/// The text after the last `:` of `s` (all of `s` when it has none).
pub open spec fn last_segment(s: Seq<char>) -> Seq<char>
    decreases s.len(),
{
    if s.len() == 0 {
        s
    } else if s.last() == ':' {
        Seq::empty()
    } else {
        last_segment(s.drop_last()).push(s.last())
    }
}

pub open spec fn is_digit(c: char) -> bool {
    '0' <= c && c <= '9'
}

/// The value of a string of decimal digits.
pub open spec fn digits_value(s: Seq<char>) -> nat
    decreases s.len(),
{
    if s.len() == 0 {
        0
    } else {
        digits_value(s.drop_last()) * 10 + ((s.last() as u32) - ('0' as u32)) as nat
    }
}

/// What parsing a string of digits as a `u64` gives: its value, when it is
/// not empty, all decimal digits, and fits.
pub open spec fn parse_digits(body: Seq<char>) -> Option<u64> {
    if body.len() > 0 && (forall|i: int| 0 <= i < body.len() ==> is_digit(#[trigger] body[i]))
        && digits_value(body) <= u64::MAX {
        Some(digits_value(body) as u64)
    } else {
        None
    }
}

/// What parsing `s` as a `u64` gives: an optional `+` followed by one or
/// more decimal digits whose value fits.
pub open spec fn parse_u64(s: Seq<char>) -> Option<u64> {
    parse_digits(
        if s.len() > 0 && s[0] == '+' {
            s.drop_first()
        } else {
            s
        },
    )
}

proof fn lemma_digits_value_grows(s: Seq<char>, i: int)
    requires
        0 <= i <= s.len(),
        forall|k: int| 0 <= k < s.len() ==> is_digit(#[trigger] s[k]),
    ensures
        digits_value(s.subrange(0, i)) <= digits_value(s),
    decreases s.len() - i,
{
    if i < s.len() {
        lemma_digits_value_grows(s, i + 1);
        let p = s.subrange(0, i + 1);
        assert(p.drop_last() =~= s.subrange(0, i));
        assert(is_digit(s[i]));
    } else {
        assert(s.subrange(0, i) =~= s);
    }
}

/// Once the digits read so far overflow a `u64`, parsing fails.
proof fn lemma_overflow_rejects(v: Seq<char>, start: int, i: int, hi: int)
    requires
        0 <= start <= i < hi <= v.len(),
        forall|k: int| start <= k <= i ==> is_digit(#[trigger] v[k]),
        digits_value(v.subrange(start, i + 1)) > u64::MAX,
    ensures
        parse_digits(v.subrange(start, hi)) is None,
{
    let body = v.subrange(start, hi);
    if forall|k: int| 0 <= k < body.len() ==> is_digit(#[trigger] body[k]) {
        lemma_digits_value_grows(body, i + 1 - start);
        assert(body.subrange(0, i + 1 - start) =~= v.subrange(start, i + 1));
    }
}

/// Parses `v[lo..hi]` as a `u64`, as `parse_u64` says.
fn parse_u64_range(v: &Vec<char>, lo: usize, hi: usize) -> (r: Option<u64>)
    requires
        lo <= hi <= v@.len(),
    ensures
        r == parse_u64(v@.subrange(lo as int, hi as int)),
{
    let ghost s = v@.subrange(lo as int, hi as int);
    let mut start = lo;
    if lo < hi && v[lo] == '+' {
        start = lo + 1;
    }
    let ghost body = v@.subrange(start as int, hi as int);
    proof {
        assert(s.len() > 0 && s[0] == '+' ==> s.drop_first() =~= body);
        assert(!(s.len() > 0 && s[0] == '+') ==> s =~= body);
        if s.len() > 0 {
            assert(s[0] == v@[lo as int]);
        }
    }
    if start == hi {
        return None;
    }
    let mut value: u64 = 0;
    let mut i: usize = start;
    while i < hi
        invariant
            lo <= start <= i <= hi <= v@.len(),
            body == v@.subrange(start as int, hi as int),
            parse_u64(v@.subrange(lo as int, hi as int)) == parse_digits(body),
            forall|k: int| start <= k < i ==> is_digit(#[trigger] v@[k]),
            value == digits_value(v@.subrange(start as int, i as int)),
        decreases hi - i,
    {
        let c = v[i];
        if !('0' <= c && c <= '9') {
            proof {
                assert(body[i - start] == c);
            }
            return None;
        }
        let d: u64 = (c as u32 - '0' as u32) as u64;
        proof {
            let p = v@.subrange(start as int, i + 1);
            assert(p.drop_last() =~= v@.subrange(start as int, i as int));
            assert(p.last() == c);
        }
        let next = match value.checked_mul(10) {
            Some(m) => m.checked_add(d),
            None => None,
        };
        match next {
            Some(n) => {
                value = n;
            },
            None => {
                proof {
                    lemma_overflow_rejects(v@, start as int, i as int, hi as int);
                    assert(v@.subrange(start as int, hi as int) =~= body);
                }
                return None;
            },
        }
        i = i + 1;
    }
    proof {
        assert(v@.subrange(start as int, hi as int) =~= body);
    }
    Some(value)
}


/// The sequence number a record id ends in: its last `:`-separated segment,
/// parsed, when that is a number.
pub open spec fn id_sequence(id: Seq<char>) -> Option<u64> {
    parse_u64(last_segment(id))
}

/// The highest sequence number among `ids`, or 0.
pub open spec fn max_sequence(ids: Seq<Seq<char>>) -> u64
    decreases ids.len(),
{
    if ids.len() == 0 {
        0
    } else {
        let rest = max_sequence(ids.drop_last());
        match id_sequence(ids.last()) {
            Some(n) => if n > rest {
                n
            } else {
                rest
            },
            None => rest,
        }
    }
}

/// The sequence number a record id ends in.
pub fn record_id_sequence(id: &str) -> (r: Option<u64>)
    ensures
        r == id_sequence(id@),
{
    let v = chars_of(id);
    let n = v.len();
    let mut j: usize = n;
    assert(v@.subrange(0, n as int) =~= v@);
    assert(v@.subrange(n as int, n as int) =~= Seq::<char>::empty());
    while j > 0 && v[j - 1] != ':'
        invariant
            n == v@.len(),
            j <= n,
            last_segment(v@) == last_segment(v@.subrange(0, j as int)) + v@.subrange(
                j as int,
                n as int,
            ),
        decreases j,
    {
        proof {
            let p = v@.subrange(0, j as int);
            assert(p.drop_last() =~= v@.subrange(0, j - 1));
            assert(p.last() == v@[j - 1]);
            assert(last_segment(v@.subrange(0, j - 1)).push(v@[j - 1]) + v@.subrange(
                j as int,
                n as int,
            ) =~= last_segment(v@.subrange(0, j - 1)) + v@.subrange(j - 1, n as int));
        }
        j = j - 1;
    }
    proof {
        let p = v@.subrange(0, j as int);
        if j > 0 {
            assert(p.last() == v@[j - 1]);
        }
        assert(last_segment(p) =~= Seq::<char>::empty());
        assert(last_segment(v@) =~= v@.subrange(j as int, n as int));
    }
    parse_u64_range(&v, j, n)
}

// ---------------------------------------------------------------------------
// Jobs and their records
// ---------------------------------------------------------------------------
/// Where a curation job stands.
#[derive(Debug, Clone, Copy, PartialEq, Eq, Structural)]
pub enum CuratorJobStatus {
    Queued,
    Running,
    Completed,
    Failed,
    Skipped,
}

/// What prompted a curation job.
#[derive(Debug, Clone, Copy, PartialEq, Eq, Structural)]
pub enum CuratorTrigger {
    PostChange,
    HotspotChanged,
    RepeatedFailure,
    TaskCompleted,
}

/// What was decided about one proposal of a run.
#[derive(Debug, Clone, Copy, PartialEq, Eq, Structural)]
pub enum CuratorProposalState {
    Pending,
    Applied,
    Rejected,
}

/// A curation job: its trigger, the task it belongs to, and the anchors it
/// focuses on.
#[derive(Debug, Clone, PartialEq, Eq)]
pub struct CuratorJob {
    pub trigger: CuratorTrigger,
    pub task: Option<String>,
    pub focus: Vec<String>,
}

/// The outcome of a curation run: how many proposals it made, and its body
/// as the curator serializes it.
#[derive(Debug, Clone, PartialEq, Eq)]
pub struct CuratorRun {
    pub proposal_count: usize,
    pub body: String,
}

/// The record of one curation job.
#[derive(Debug, Clone, PartialEq, Eq)]
pub struct CuratorJobRecord {
    pub id: String,
    pub job: CuratorJob,
    pub status: CuratorJobStatus,
    pub created_at: u64,
    pub started_at: Option<u64>,
    pub finished_at: Option<u64>,
    pub run: Option<CuratorRun>,
    pub proposal_states: Vec<CuratorProposalState>,
    pub error: Option<String>,
}

/// The curator's records, in the order the jobs were queued.
#[derive(Debug, Clone, PartialEq, Eq)]
pub struct CuratorSnapshot {
    pub records: Vec<CuratorJobRecord>,
}

pub open spec fn record_ids(records: Seq<CuratorJobRecord>) -> Seq<Seq<char>> {
    records.map_values(|r: CuratorJobRecord| r.id@)
}

/// The highest sequence number that the snapshot's record ids end in, or 0.
pub fn next_curator_sequence(snapshot: &CuratorSnapshot) -> (r: u64)
    ensures
        r == max_sequence(record_ids(snapshot.records@)),
{
    let ghost ids = record_ids(snapshot.records@);
    let mut best: u64 = 0;
    let mut i: usize = 0;
    while i < snapshot.records.len()
        invariant
            i <= snapshot.records@.len(),
            ids == record_ids(snapshot.records@),
            best == max_sequence(ids.subrange(0, i as int)),
        decreases snapshot.records@.len() - i,
    {
        proof {
            assert(ids.subrange(0, i + 1).drop_last() =~= ids.subrange(0, i as int));
            assert(ids.subrange(0, i + 1).last() == snapshot.records@[i as int].id@);
        }
        match record_id_sequence(snapshot.records[i].id.as_str()) {
            Some(n) => {
                if n > best {
                    best = n;
                }
            },
            None => {},
        }
        i = i + 1;
    }
    proof {
        assert(ids.subrange(0, snapshot.records@.len() as int) =~= ids);
    }
    best
}

// ---------------------------------------------------------------------------
// When to curate
// ---------------------------------------------------------------------------
/// The job an observed change calls for: none for an empty change or one
/// that touches no anchor; none for a small change (fewer than three
/// changed nodes, counting an update twice, in one file) without related
/// failures; otherwise a hotspot job for a large change (six or more
/// changed nodes, or two or more files) and a post-change job else.
pub open spec fn change_trigger(
    observed_empty: bool,
    added: nat,
    removed: nat,
    updated: nat,
    file_count: nat,
    focus_empty: bool,
    has_related_failures: bool,
) -> Option<CuratorTrigger> {
    let changed = added + removed + updated * 2;
    if observed_empty || focus_empty {
        None
    } else if changed < 3 && file_count < 2 && !has_related_failures {
        None
    } else if changed >= 6 || file_count >= 2 {
        Some(CuratorTrigger::HotspotChanged)
    } else {
        Some(CuratorTrigger::PostChange)
    }
}

/// The anchors an observed change is looked up by, in order: the updated
/// nodes (as they are after the change), then the added, then the removed
/// ones.
pub fn curator_focus_candidates(
    updated_after: &Vec<String>,
    added: &Vec<String>,
    removed: &Vec<String>,
) -> (r: Vec<String>)
    ensures
        ids_view(r@) == ids_view(updated_after@) + ids_view(added@) + ids_view(
            removed@,
        ),
{
    let mut r: Vec<String> = Vec::new();
    let mut i: usize = 0;
    while i < updated_after.len()
        invariant
            i <= updated_after@.len(),
            ids_view(r@) == ids_view(updated_after@.take(i as int)),
        decreases updated_after@.len() - i,
    {
        let ghost prev = r@;
        r.push(updated_after[i].clone());
        assert(ids_view(r@) =~= ids_view(prev).push(updated_after@[i as int]@));
        assert(updated_after@.take(i + 1) =~= updated_after@.take(i as int).push(updated_after@[i as int]));
        assert(ids_view(updated_after@.take(i + 1)) =~= ids_view(updated_after@.take(i as int)).push(updated_after@[i as int]@));
        i = i + 1;
    }
    assert(updated_after@.take(updated_after@.len() as int) =~= updated_after@);
    let ghost first = ids_view(r@);
    let mut j: usize = 0;
    while j < added.len()
        invariant
            j <= added@.len(),
            ids_view(r@) == first + ids_view(added@.take(j as int)),
        decreases added@.len() - j,
    {
        let ghost prev = r@;
        r.push(added[j].clone());
        assert(ids_view(r@) =~= ids_view(prev).push(added@[j as int]@));
        assert(added@.take(j + 1) =~= added@.take(j as int).push(added@[j as int]));
        assert(ids_view(added@.take(j + 1)) =~= ids_view(added@.take(j as int)).push(added@[j as int]@));
        assert(first + ids_view(added@.take(j + 1)) =~= (first + ids_view(added@.take(j as int))).push(added@[j as int]@));
        j = j + 1;
    }
    assert(added@.take(added@.len() as int) =~= added@);
    let ghost second = ids_view(r@);
    let mut k: usize = 0;
    while k < removed.len()
        invariant
            k <= removed@.len(),
            ids_view(r@) == second + ids_view(removed@.take(k as int)),
        decreases removed@.len() - k,
    {
        let ghost prev = r@;
        r.push(removed[k].clone());
        assert(ids_view(r@) =~= ids_view(prev).push(removed@[k as int]@));
        assert(removed@.take(k + 1) =~= removed@.take(k as int).push(removed@[k as int]));
        assert(ids_view(removed@.take(k + 1)) =~= ids_view(removed@.take(k as int)).push(removed@[k as int]@));
        assert(second + ids_view(removed@.take(k + 1)) =~= (second + ids_view(removed@.take(k as int))).push(removed@[k as int]@));
        k = k + 1;
    }
    assert(removed@.take(removed@.len() as int) =~= removed@);
    r
}

/// The curation job an observed change calls for, with the anchors it
/// focuses on.  `focus` holds the change's anchors as the workspace
/// resolves and deduplicates them, and `failing[i]` says whether `focus[i]`
/// is a node with related failures; the sizes are the change's numbers of
/// added, removed and updated nodes and of files.  The trigger is
/// `change_trigger`'s, and the focus is returned as it was given.
pub fn curator_job_for_observed(
    observed_empty: bool,
    added: usize,
    removed: usize,
    updated: usize,
    file_count: usize,
    focus: Vec<String>,
    failing: &Vec<bool>,
) -> (r: Option<(CuratorTrigger, Vec<String>)>)
    requires
        added + removed + updated * 2 <= usize::MAX,
        failing@.len() == focus@.len(),
    ensures
        ({
            let has_related_failures = exists|i: int| 0 <= i < failing@.len() && #[trigger] failing@[i];
            match change_trigger(
                observed_empty,
                added as nat,
                removed as nat,
                updated as nat,
                file_count as nat,
                focus@.len() == 0,
                has_related_failures,
            ) {
                Some(t) => r matches Some((rt, rf)) && rt == t && rf@ == focus@,
                None => r is None,
            }
        }),
{
    if observed_empty {
        return None;
    }
    let changed_nodes = added + removed + updated * 2;
    if focus.len() == 0 {
        return None;
    }
    let mut has_related_failures = false;
    let mut i: usize = 0;
    while i < failing.len()
        invariant
            i <= failing@.len(),
            has_related_failures <==> exists|j: int| 0 <= j < i && #[trigger] failing@[j],
        decreases failing@.len() - i,
    {
        if failing[i] {
            has_related_failures = true;
        }
        i = i + 1;
    }
    if changed_nodes < 3 && file_count < 2 && !has_related_failures {
        return None;
    }
    if changed_nodes >= 6 || file_count >= 2 {
        Some((CuratorTrigger::HotspotChanged, focus))
    } else {
        Some((CuratorTrigger::PostChange, focus))
    }
}

/// The kinds of outcome the curator reacts to.
#[derive(Debug, Clone, Copy, PartialEq, Eq, Structural)]
pub enum OutcomeKind {
    FailureObserved,
    RegressionObserved,
    FixValidated,
    BuildRan,
    TestRan,
    Other,
}

/// How an outcome ended.
#[derive(Debug, Clone, Copy, PartialEq, Eq, Structural)]
pub enum OutcomeResult {
    Success,
    Failure,
    Unknown,
}

/// The job an outcome calls for: a repeated-failure job for a failure or
/// regression once two or more such failures are recalled for its anchors,
/// or for a failed build or test run; a task-completed job for a validated
/// fix; none otherwise.
pub open spec fn outcome_trigger(kind: OutcomeKind, result: OutcomeResult, recalled_failures: nat) -> Option<
    CuratorTrigger,
> {
    match kind {
        OutcomeKind::FailureObserved | OutcomeKind::RegressionObserved => if recalled_failures >= 2 {
            Some(CuratorTrigger::RepeatedFailure)
        } else {
            None
        },
        OutcomeKind::FixValidated => Some(CuratorTrigger::TaskCompleted),
        OutcomeKind::BuildRan | OutcomeKind::TestRan => if result == OutcomeResult::Failure {
            Some(CuratorTrigger::RepeatedFailure)
        } else {
            None
        },
        OutcomeKind::Other => None,
    }
}

/// The curation job an outcome calls for; `recalled_failures` is the number
/// of failure and regression outcomes recalled for its anchors, which only
/// matters for failures and regressions.
pub fn curator_trigger_for_outcome(
    kind: OutcomeKind,
    result: OutcomeResult,
    recalled_failures: usize,
) -> (r: Option<CuratorTrigger>)
    ensures
        r == outcome_trigger(kind, result, recalled_failures as nat),
{
    match kind {
        OutcomeKind::FailureObserved | OutcomeKind::RegressionObserved => {
            if recalled_failures >= 2 {
                Some(CuratorTrigger::RepeatedFailure)
            } else {
                None
            }
        },
        OutcomeKind::FixValidated => Some(CuratorTrigger::TaskCompleted),
        OutcomeKind::BuildRan | OutcomeKind::TestRan => {
            if result == OutcomeResult::Failure {
                Some(CuratorTrigger::RepeatedFailure)
            } else {
                None
            }
        },
        OutcomeKind::Other => None,
    }
}


// ---------------------------------------------------------------------------
// The job queue
// ---------------------------------------------------------------------------
/// Statuses that end a job.
pub open spec fn is_terminal(status: CuratorJobStatus) -> bool {
    status == CuratorJobStatus::Completed || status == CuratorJobStatus::Failed || status
        == CuratorJobStatus::Skipped
}

/// `new` is `old` after an update at time `now` to `status`, with the run
/// and the error that came with the update: a running job records its start;
/// a finished one its finish (and a start, if it had none); a run replaces
/// the old one, and when no proposal state was kept yet, each of its
/// proposals starts pending; an error replaces the old one.
pub open spec fn record_updated(
    old: CuratorJobRecord,
    new: CuratorJobRecord,
    status: CuratorJobStatus,
    now: u64,
    run: Option<CuratorRun>,
    error: Option<String>,
) -> bool {
    &&& new.id == old.id
    &&& new.job == old.job
    &&& new.created_at == old.created_at
    &&& new.status == status
    &&& new.started_at == if status == CuratorJobStatus::Running {
        Some(now)
    } else if is_terminal(status) && old.started_at is None {
        Some(now)
    } else {
        old.started_at
    }
    &&& new.finished_at == if is_terminal(status) {
        Some(now)
    } else {
        old.finished_at
    }
    &&& new.run == match run {
        Some(r) => Some(r),
        None => old.run,
    }
    &&& new.proposal_states@ == match run {
        Some(r) => if old.proposal_states@.len() == 0 {
            Seq::new(r.proposal_count as nat, |i: int| CuratorProposalState::Pending)
        } else {
            old.proposal_states@
        },
        None => old.proposal_states@,
    }
    &&& new.error == match error {
        Some(e) => Some(e),
        None => old.error,
    }
}

/// Applies an update to a job record.
pub fn update_record(
    record: &mut CuratorJobRecord,
    status: CuratorJobStatus,
    now: u64,
    run: Option<CuratorRun>,
    error: Option<String>,
)
    ensures
        record_updated(*old(record), *final(record), status, now, run, error),
{
    record.status = status;
    if status == CuratorJobStatus::Running {
        record.started_at = Some(now);
    } else if status == CuratorJobStatus::Completed || status == CuratorJobStatus::Failed || status
        == CuratorJobStatus::Skipped {
        if record.started_at.is_none() {
            record.started_at = Some(now);
        }
        record.finished_at = Some(now);
    }
    match run {
        Some(run) => {
            if record.proposal_states.len() == 0 {
                let mut states: Vec<CuratorProposalState> = Vec::new();
                let mut i: usize = 0;
                while i < run.proposal_count
                    invariant
                        i <= run.proposal_count,
                        states@ == Seq::new(i as nat, |k: int| CuratorProposalState::Pending),
                    decreases run.proposal_count - i,
                {
                    states.push(CuratorProposalState::Pending);
                    i = i + 1;
                    assert(states@ =~= Seq::new(i as nat, |k: int| CuratorProposalState::Pending));
                }
                record.proposal_states = states;
            }
            record.run = Some(run);
        },
        None => {},
    }
    match error {
        Some(e) => {
            record.error = Some(e);
        },
        None => {},
    }
}

/// The index of the first record with id `id`, if any.
pub open spec fn first_record_with_id(records: Seq<CuratorJobRecord>, id: Seq<char>, i: int) -> Option<
    int,
>
    decreases records.len() - i,
{
    if i < 0 || i >= records.len() {
        None
    } else if records[i].id@ == id {
        Some(i)
    } else {
        first_record_with_id(records, id, i + 1)
    }
}

/// The status a job ends in when the curator backend failed: completed when
/// the merged run still holds proposals, failed otherwise.
pub fn status_after_backend_error(proposal_count: usize) -> (s: CuratorJobStatus)
    ensures
        s == if proposal_count == 0 {
            CuratorJobStatus::Failed
        } else {
            CuratorJobStatus::Completed
        },
{
    if proposal_count == 0 {
        CuratorJobStatus::Failed
    } else {
        CuratorJobStatus::Completed
    }
}

/// The curator's queue: the snapshot of records, the sequence counter, and
/// whether the snapshot was loaded from the store yet.
#[derive(Debug)]
pub struct CuratorQueueState {
    pub snapshot: CuratorSnapshot,
    pub next_sequence: u64,
    pub loaded: bool,
}

/// What curating one job gave.
#[derive(Debug, Clone, PartialEq, Eq)]
pub enum CuratorOutcome {
    /// The backend ran; the merged run.
    Ran(CuratorRun),
    /// The curation context could not be built.
    ContextFailed(String),
    /// The backend failed; the run merged without it, and the error.
    BackendFailed { merged: CuratorRun, error: String },
}

/// How a job's record is updated once it was curated: the status, the run
/// and the error.  A run completes the job; a context that could not be
/// built fails it with no run; a failed backend completes it when the
/// merged run still holds proposals and fails it otherwise, keeping both
/// the run and the error.
pub fn curator_record_update(outcome: CuratorOutcome) -> (r: (
    CuratorJobStatus,
    Option<CuratorRun>,
    Option<String>,
))
    ensures
        match outcome {
            CuratorOutcome::Ran(run) => r == (CuratorJobStatus::Completed, Some(run), None::<String>),
            CuratorOutcome::ContextFailed(error) => r == (
                CuratorJobStatus::Failed,
                None::<CuratorRun>,
                Some(error),
            ),
            CuratorOutcome::BackendFailed { merged, error } => r == (
                if merged.proposal_count == 0 {
                    CuratorJobStatus::Failed
                } else {
                    CuratorJobStatus::Completed
                },
                Some(merged),
                Some(error),
            ),
        },
{
    match outcome {
        CuratorOutcome::Ran(run) => (CuratorJobStatus::Completed, Some(run), None),
        CuratorOutcome::ContextFailed(error) => (CuratorJobStatus::Failed, None, Some(error)),
        CuratorOutcome::BackendFailed { merged, error } => {
            let status = status_after_backend_error(merged.proposal_count);
            (status, Some(merged), Some(error))
        },
    }
}

impl CuratorQueueState {
    /// A queue that has loaded nothing yet.
    pub fn new() -> (q: Self)
        ensures
            q.snapshot.records@.len() == 0,
            q.next_sequence == 0,
            !q.loaded,
    {
        CuratorQueueState {
            snapshot: CuratorSnapshot { records: Vec::new() },
            next_sequence: 0,
            loaded: false,
        }
    }

    /// Loads the stored snapshot (`stored`, none when nothing is stored) the
    /// first time; later calls change nothing.
    pub fn ensure_loaded(&mut self, stored: Option<CuratorSnapshot>)
        ensures
            old(self).loaded ==> *final(self) == *old(self),
            !old(self).loaded ==> {
                &&& final(self).loaded
                &&& final(self).snapshot == match stored {
                    Some(s) => s,
                    None => CuratorSnapshot { records: final(self).snapshot.records },
                }
                &&& (stored is None ==> final(self).snapshot.records@.len() == 0)
                &&& final(self).next_sequence == max_sequence(
                    record_ids(final(self).snapshot.records@),
                )
            },
    {
        if self.loaded {
            return;
        }
        let snapshot = match stored {
            Some(s) => s,
            None => CuratorSnapshot { records: Vec::new() },
        };
        self.next_sequence = next_curator_sequence(&snapshot);
        self.snapshot = snapshot;
        self.loaded = true;
    }

    /// Queues a job under `id` at time `now`: the sequence counter moves on
    /// and a queued record is appended.
    pub fn enqueue(&mut self, id: String, job: CuratorJob, now: u64)
        requires
            old(self).next_sequence < u64::MAX,
        ensures
            final(self).next_sequence == old(self).next_sequence + 1,
            final(self).loaded == old(self).loaded,
            final(self).snapshot.records@ == old(self).snapshot.records@.push(
                CuratorJobRecord {
                    id,
                    job,
                    status: CuratorJobStatus::Queued,
                    created_at: now,
                    started_at: None,
                    finished_at: None,
                    run: None,
                    proposal_states: final(self).snapshot.records@.last().proposal_states,
                    error: None,
                },
            ),
            final(self).snapshot.records@.last().proposal_states@.len() == 0,
    {
        self.next_sequence = self.next_sequence + 1;
        let record = CuratorJobRecord {
            id,
            job,
            status: CuratorJobStatus::Queued,
            created_at: now,
            started_at: None,
            finished_at: None,
            run: None,
            proposal_states: Vec::new(),
            error: None,
        };
        self.snapshot.records.push(record);
    }

    /// Applies an update to the first record with id `id`; with no such
    /// record nothing changes.
    pub fn update_record(
        &mut self,
        id: &String,
        status: CuratorJobStatus,
        now: u64,
        run: Option<CuratorRun>,
        error: Option<String>,
    )
        ensures
            final(self).next_sequence == old(self).next_sequence,
            final(self).loaded == old(self).loaded,
            match first_record_with_id(old(self).snapshot.records@, id@, 0) {
                Some(i) => {
                    &&& final(self).snapshot.records@.len() == old(self).snapshot.records@.len()
                    &&& forall|j: int|
                        0 <= j < old(self).snapshot.records@.len() && j != i
                            ==> #[trigger] final(self).snapshot.records@[j]
                            == old(self).snapshot.records@[j]
                    &&& record_updated(
                        old(self).snapshot.records@[i],
                        final(self).snapshot.records@[i],
                        status,
                        now,
                        run,
                        error,
                    )
                },
                None => final(self).snapshot.records@ == old(self).snapshot.records@,
            },
    {
        let ghost records = self.snapshot.records@;
        let mut i: usize = 0;
        while i < self.snapshot.records.len()
            invariant
                i <= records.len(),
                self.snapshot.records@ == records,
                records == old(self).snapshot.records@,
                self.next_sequence == old(self).next_sequence,
                self.loaded == old(self).loaded,
                first_record_with_id(records, id@, 0) == first_record_with_id(records, id@, i as int),
            decreases records.len() - i,
        {
            if self.snapshot.records[i].id.eq(id) {
                assert(first_record_with_id(records, id@, i as int) == Some(i as int));
                let mut record = self.snapshot.records.remove(i);
                assert(record == records[i as int]);
                update_record(&mut record, status, now, run, error);
                self.snapshot.records.insert(i, record);
                assert(self.snapshot.records@ =~= records.update(i as int, self.snapshot.records@[i as int]));
                return;
            }
            i = i + 1;
        }
    }
}


// ---------------------------------------------------------------------------
// Recalled outcomes
// ---------------------------------------------------------------------------
/// An outcome recalled for a curation job: its event id, its time, and a
/// handle by which the caller finds the event again.
#[derive(Debug, PartialEq, Eq)]
pub struct RecalledOutcome {
    pub id: String,
    pub ts: u64,
    pub handle: u64,
}

pub struct RecalledOutcomeView {
    pub id: Seq<char>,
    pub ts: u64,
    pub handle: u64,
}

impl View for RecalledOutcome {
    type V = RecalledOutcomeView;

    open spec fn view(&self) -> RecalledOutcomeView {
        RecalledOutcomeView { id: self.id@, ts: self.ts, handle: self.handle }
    }
}

impl Clone for RecalledOutcome {
    fn clone(&self) -> (r: Self)
        ensures
            r == *self,
    {
        RecalledOutcome { id: self.id.clone(), ts: self.ts, handle: self.handle }
    }
}

pub open spec fn outcomes_view(v: Seq<RecalledOutcome>) -> Seq<RecalledOutcomeView> {
    v.map_values(|o: RecalledOutcome| o@)
}

/// Newer outcomes come first; outcomes of the same time come by id.
pub open spec fn outcome_before(a: RecalledOutcomeView, b: RecalledOutcomeView) -> bool {
    a.ts > b.ts || (a.ts == b.ts && seq_lt(a.id, b.id))
}

pub open spec fn has_outcome_id(s: Seq<RecalledOutcomeView>, id: Seq<char>) -> bool {
    exists|i: int| 0 <= i < s.len() && s[i].id == id
}

/// The outcomes of `s` whose id did not occur before, in order.
pub open spec fn first_by_id(s: Seq<RecalledOutcomeView>) -> Seq<RecalledOutcomeView>
    decreases s.len(),
{
    if s.len() == 0 {
        s
    } else {
        let rest = first_by_id(s.drop_last());
        if has_outcome_id(rest, s.last().id) {
            rest
        } else {
            rest.push(s.last())
        }
    }
}

/// How many outcomes a merge keeps: `limit` of them when that is positive
/// and smaller than what there is, all otherwise.
pub open spec fn merged_len(available: nat, limit: nat) -> nat {
    if limit > 0 && limit < available {
        limit
    } else {
        available
    }
}

pub open spec fn distinct_ids(s: Seq<RecalledOutcomeView>) -> bool {
    forall|i: int, j: int| 0 <= i < j < s.len() ==> s[i].id != s[j].id
}

pub open spec fn strictly_ordered(s: Seq<RecalledOutcomeView>) -> bool {
    forall|i: int, j: int| 0 <= i < j < s.len() ==> outcome_before(#[trigger] s[i], #[trigger] s[j])
}

proof fn lemma_outcome_order(a: RecalledOutcomeView, b: RecalledOutcomeView, c: RecalledOutcomeView)
    ensures
        outcome_before(a, b) ==> !outcome_before(b, a),
        a.id != b.id ==> outcome_before(a, b) || outcome_before(b, a),
        outcome_before(a, b) && outcome_before(b, c) ==> outcome_before(a, c),
        !outcome_before(a, a),
{
    lemma_seq_lt_asymmetric(a.id, b.id);
    lemma_seq_lt_total(a.id, b.id);
    lemma_seq_lt_irreflexive(a.id);
    if outcome_before(a, b) && outcome_before(b, c) && a.ts == b.ts && b.ts == c.ts {
        lemma_seq_lt_transitive(a.id, b.id, c.id);
    }
}

proof fn lemma_first_by_id(s: Seq<RecalledOutcomeView>)
    ensures
        distinct_ids(first_by_id(s)),
        forall|x: RecalledOutcomeView| #[trigger] first_by_id(s).contains(x) ==> s.contains(x),
    decreases s.len(),
{
    if s.len() > 0 {
        let init = s.drop_last();
        lemma_first_by_id(init);
        let rest = first_by_id(init);
        if !has_outcome_id(rest, s.last().id) {
            let d = rest.push(s.last());
            assert forall|i: int, j: int| 0 <= i < j < d.len() implies d[i].id != d[j].id by {
                if j == rest.len() {
                    assert(d[i] == rest[i]);
                } else {
                    assert(d[i] == rest[i] && d[j] == rest[j]);
                }
            }
            assert forall|x: RecalledOutcomeView| #[trigger] d.contains(x) implies s.contains(x) by {
                let k = choose|k: int| 0 <= k < d.len() && d[k] == x;
                if k < rest.len() {
                    assert(rest[k] == x);
                    assert(rest.contains(x));
                    let m = choose|m: int| 0 <= m < init.len() && init[m] == x;
                    assert(s[m] == x);
                } else {
                    assert(s[s.len() - 1] == x);
                }
            }
        } else {
            assert forall|x: RecalledOutcomeView| #[trigger] rest.contains(x) implies s.contains(x) by {
                let m = choose|m: int| 0 <= m < init.len() && init[m] == x;
                assert(s[m] == x);
            }
        }
    }
}

fn outcome_before_exec(a: &RecalledOutcome, b: &RecalledOutcome) -> (r: bool)
    ensures
        r == outcome_before(a@, b@),
{
    a.ts > b.ts || (a.ts == b.ts && string_lt(&a.id, &b.id))
}

fn contains_outcome_id(v: &Vec<RecalledOutcome>, id: &String) -> (r: bool)
    ensures
        r == has_outcome_id(outcomes_view(v@), id@),
{
    let mut i: usize = 0;
    while i < v.len()
        invariant
            i <= v@.len(),
            forall|j: int| 0 <= j < i ==> v@[j].id@ != id@,
        decreases v@.len() - i,
    {
        if v[i].id.eq(id) {
            assert(outcomes_view(v@)[i as int].id == id@);
            return true;
        }
        i = i + 1;
    }
    assert(!has_outcome_id(outcomes_view(v@), id@)) by {
        if has_outcome_id(outcomes_view(v@), id@) {
            let j = choose|j: int|
                0 <= j < outcomes_view(v@).len() && outcomes_view(v@)[j].id == id@;
            assert(v@[j].id@ == id@);
        }
    }
    false
}

/// Inserts `o` into the strictly ordered `r` before the first outcome it
/// comes before; `o`'s id is not yet in `r`.
fn insert_outcome(r: &mut Vec<RecalledOutcome>, o: RecalledOutcome)
    requires
        strictly_ordered(outcomes_view(old(r)@)),
        forall|i: int| 0 <= i < old(r)@.len() ==> old(r)@[i].id@ != o.id@,
    ensures
        strictly_ordered(outcomes_view(final(r)@)),
        outcomes_view(final(r)@).to_multiset() =~= outcomes_view(old(r)@).to_multiset().insert(o@),
{
    let ghost before = outcomes_view(r@);
    let mut p: usize = 0;
    while p < r.len() && !outcome_before_exec(&o, &r[p])
        invariant
            p <= r@.len(),
            outcomes_view(r@) == before,
            forall|i: int| 0 <= i < r@.len() ==> r@[i].id@ != o.id@,
            forall|j: int| 0 <= j < p ==> outcome_before(#[trigger] before[j], o@),
        decreases r@.len() - p,
    {
        proof {
            lemma_outcome_order(o@, before[p as int], before[p as int]);
        }
        p = p + 1;
    }
    proof {
        if p < r@.len() {
            assert forall|j: int| p <= j < before.len() implies outcome_before(o@, #[trigger] before[j]) by {
                if j > p {
                    lemma_outcome_order(o@, before[p as int], before[j]);
                }
            }
        }
    }
    let ghost ov = o@;
    r.insert(p, o);
    proof {
        let nv = outcomes_view(r@);
        assert(nv =~= before.insert(p as int, ov));
        assert forall|i: int, j: int| 0 <= i < j < nv.len() implies outcome_before(
            #[trigger] nv[i],
            #[trigger] nv[j],
        ) by {
            if i < p && j == p {
            } else if i == p && j > p {
                assert(nv[j] == before[j - 1]);
            } else if i < p && j > p {
                assert(nv[j] == before[j - 1]);
            } else if i > p {
                assert(nv[i] == before[i - 1]);
                assert(nv[j] == before[j - 1]);
            } else {
                assert(nv[i] == before[i]);
                assert(nv[j] == before[j]);
            }
        }
        vstd::seq_lib::to_multiset_insert(before, p as int, ov);
    }
}


proof fn lemma_same_multiset_contains(a: Seq<RecalledOutcomeView>, b: Seq<RecalledOutcomeView>, x: RecalledOutcomeView)
    requires
        a.to_multiset() =~= b.to_multiset(),
    ensures
        a.contains(x) <==> b.contains(x),
{
    broadcast use vstd::seq_lib::group_to_multiset_ensures;

    assert(a.to_multiset().count(x) == b.to_multiset().count(x));
}

proof fn lemma_take_ordered(s: Seq<RecalledOutcomeView>, d: Seq<RecalledOutcomeView>, n: int)
    requires
        strictly_ordered(s),
        s.to_multiset() =~= d.to_multiset(),
        0 <= n <= s.len(),
    ensures
        strictly_ordered(s.take(n)),
        forall|i: int| 0 <= i < n ==> d.contains(#[trigger] s.take(n)[i]),
        forall|x: RecalledOutcomeView|
            d.contains(x) && !s.take(n).contains(x) ==> forall|i: int|
                0 <= i < n ==> outcome_before(#[trigger] s.take(n)[i], x),
{
    broadcast use vstd::seq_lib::group_to_multiset_ensures;

    let rv = s.take(n);
    assert forall|i: int, j: int| 0 <= i < j < rv.len() implies outcome_before(
        #[trigger] rv[i],
        #[trigger] rv[j],
    ) by {
        assert(rv[i] == s[i] && rv[j] == s[j]);
    }
    assert forall|i: int| 0 <= i < n implies d.contains(#[trigger] rv[i]) by {
        assert(rv[i] == s[i]);
        assert(s.contains(s[i]));
        lemma_same_multiset_contains(s, d, s[i]);
    }
    assert forall|x: RecalledOutcomeView|
        d.contains(x) && !rv.contains(x) implies forall|i: int|
        0 <= i < n ==> outcome_before(#[trigger] rv[i], x) by {
        lemma_same_multiset_contains(s, d, x);
        assert(s.contains(x));
        let j = choose|j: int| 0 <= j < s.len() && s[j] == x;
        if j < n {
            assert(rv[j] == x);
        }
        assert forall|i: int| 0 <= i < n implies outcome_before(#[trigger] rv[i], x) by {
            assert(rv[i] == s[i]);
        }
    }
}

/// Merges the outcomes recalled from memory (`hot`) and from the store
/// (`cold`): each event once (its first occurrence, hot before cold),
/// newest first and by id among equals, at most `limit` of them when
/// `limit` is positive.
pub fn merge_curator_outcomes(
    hot: Vec<RecalledOutcome>,
    cold: Vec<RecalledOutcome>,
    limit: usize,
) -> (r: Vec<RecalledOutcome>)
    ensures
        ({
            let d = first_by_id(outcomes_view(hot@) + outcomes_view(cold@));
            let rv = outcomes_view(r@);
            &&& rv.len() == merged_len(d.len(), limit as nat)
            &&& strictly_ordered(rv)
            &&& forall|i: int| 0 <= i < rv.len() ==> d.contains(#[trigger] rv[i])
            &&& forall|x: RecalledOutcomeView|
                d.contains(x) && !rv.contains(x) ==> forall|i: int|
                    0 <= i < rv.len() ==> outcome_before(#[trigger] rv[i], x)
        }),
{
    let ghost hv = outcomes_view(hot@);
    let ghost cv = outcomes_view(cold@);
    let mut deduped: Vec<RecalledOutcome> = Vec::new();
    let mut k: usize = 0;
    while k < hot.len()
        invariant
            k <= hot@.len(),
            hv == outcomes_view(hot@),
            outcomes_view(deduped@) == first_by_id(hv.subrange(0, k as int)),
        decreases hot@.len() - k,
    {
        proof {
            assert(hv.subrange(0, k + 1).drop_last() =~= hv.subrange(0, k as int));
        }
        if !contains_outcome_id(&deduped, &hot[k].id) {
            let ghost before = outcomes_view(deduped@);
            deduped.push(hot[k].clone());
            assert(outcomes_view(deduped@) =~= before.push(hv[k as int]));
        }
        k = k + 1;
    }
    assert(hv.subrange(0, hot@.len() as int) =~= hv);
    assert(hv + cv.subrange(0, 0) =~= hv);
    let mut k: usize = 0;
    while k < cold.len()
        invariant
            k <= cold@.len(),
            cv == outcomes_view(cold@),
            outcomes_view(deduped@) == first_by_id(hv + cv.subrange(0, k as int)),
        decreases cold@.len() - k,
    {
        proof {
            assert((hv + cv.subrange(0, k + 1)).drop_last() =~= hv + cv.subrange(0, k as int));
            assert((hv + cv.subrange(0, k + 1)).last() == cv[k as int]);
        }
        if !contains_outcome_id(&deduped, &cold[k].id) {
            let ghost before = outcomes_view(deduped@);
            deduped.push(cold[k].clone());
            assert(outcomes_view(deduped@) =~= before.push(cv[k as int]));
        }
        k = k + 1;
    }
    assert(hv + cv.subrange(0, cold@.len() as int) =~= hv + cv);
    let ghost d = outcomes_view(deduped@);
    proof {
        lemma_first_by_id(hv + cv);
    }
    let mut sorted: Vec<RecalledOutcome> = Vec::new();
    let mut k: usize = 0;
    proof {
        broadcast use vstd::seq_lib::group_to_multiset_ensures;

        let e = outcomes_view(sorted@);
        assert(e =~= d.subrange(0, 0));
    }
    while k < deduped.len()
        invariant
            k <= deduped@.len(),
            d == outcomes_view(deduped@),
            distinct_ids(d),
            strictly_ordered(outcomes_view(sorted@)),
            outcomes_view(sorted@).to_multiset() =~= d.subrange(0, k as int).to_multiset(),
        decreases deduped@.len() - k,
    {
        let o = deduped[k].clone();
        proof {
            broadcast use vstd::seq_lib::group_to_multiset_ensures;

            assert forall|i: int| 0 <= i < sorted@.len() implies sorted@[i].id@ != o.id@ by {
                let x = outcomes_view(sorted@)[i];
                assert(outcomes_view(sorted@).contains(x));
                lemma_same_multiset_contains(outcomes_view(sorted@), d.subrange(0, k as int), x);
                assert(d.subrange(0, k as int).contains(x));
                let m = choose|m: int| 0 <= m < k && d.subrange(0, k as int)[m] == x;
                assert(d[m] == x);
                assert(d[k as int] == o@);
            }
            assert(d.subrange(0, k + 1) =~= d.subrange(0, k as int).push(d[k as int]));
        }
        insert_outcome(&mut sorted, o);
        k = k + 1;
    }
    assert(d.subrange(0, deduped@.len() as int) =~= d);
    let n = sorted.len();
    let keep = if limit > 0 && limit < n {
        limit
    } else {
        n
    };
    let ghost full = outcomes_view(sorted@);
    sorted.truncate(keep);
    proof {
        assert(outcomes_view(sorted@) =~= full.take(keep as int));
        assert(full.len() == d.len()) by {
            broadcast use vstd::seq_lib::group_to_multiset_ensures;

            assert(full.to_multiset().len() == d.to_multiset().len());
        }
        lemma_take_ordered(full, d, keep as int);
    }
    sorted
}

} // verus!
