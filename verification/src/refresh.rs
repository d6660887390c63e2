//! Decisions of workspace refreshes: how much recovery work was done, how
//! deeply a file is parsed, which paths a refresh scope covers, and the
//! namespace suffixes that edge resolution looks up.
use vstd::prelude::*;

use crate::coordination::{ids_view, CoordinationSnapshot};
use crate::layout::{ascii_lower, path_set_contains, path_starts_with, root_contains, roots_view};
use crate::text::{
    chars_of, find_from, find_seq_from, lemma_find_from_found, string_of_chars, str_eq,
    trim_range, trim_view,
};

verus! {

/// The work a refresh or a recovery did.
#[derive(Debug, Clone, Copy, PartialEq, Eq, Structural)]
pub struct WorkspaceRefreshWork {
    pub loaded_bytes: u64,
    pub replay_volume: u64,
    pub full_rebuild_count: u64,
    pub workspace_reloaded: bool,
}

impl Default for WorkspaceRefreshWork {
    fn default() -> (w: Self)
        ensures
            w == (WorkspaceRefreshWork {
                loaded_bytes: 0,
                replay_volume: 0,
                full_rebuild_count: 0,
                workspace_reloaded: false,
            }),
    {
        WorkspaceRefreshWork {
            loaded_bytes: 0,
            replay_volume: 0,
            full_rebuild_count: 0,
            workspace_reloaded: false,
        }
    }
}

/// `a + b`, or the largest `u64` when that overflows.
pub open spec fn sat_add(a: u64, b: u64) -> u64 {
    if a + b > u64::MAX {
        u64::MAX
    } else {
        (a + b) as u64
    }
}

/// The work of two refreshes together: counts added (saturating), and
/// reloaded when either reloaded the workspace.
pub open spec fn combined_work(a: WorkspaceRefreshWork, b: WorkspaceRefreshWork) -> WorkspaceRefreshWork {
    WorkspaceRefreshWork {
        loaded_bytes: sat_add(a.loaded_bytes, b.loaded_bytes),
        replay_volume: sat_add(a.replay_volume, b.replay_volume),
        full_rebuild_count: sat_add(a.full_rebuild_count, b.full_rebuild_count),
        workspace_reloaded: a.workspace_reloaded || b.workspace_reloaded,
    }
}

impl WorkspaceRefreshWork {
    /// The same work, recorded as having reloaded the workspace or not.
    pub fn with_workspace_reloaded(self, workspace_reloaded: bool) -> (w: Self)
        ensures
            w == (WorkspaceRefreshWork { workspace_reloaded, ..self }),
    {
        WorkspaceRefreshWork { workspace_reloaded, ..self }
    }

    /// The work of this refresh and `other` together.
    pub fn saturating_add(self, other: Self) -> (w: Self)
        ensures
            w == combined_work(self, other),
    {
        WorkspaceRefreshWork {
            loaded_bytes: self.loaded_bytes.saturating_add(other.loaded_bytes),
            replay_volume: self.replay_volume.saturating_add(other.replay_volume),
            full_rebuild_count: self.full_rebuild_count.saturating_add(other.full_rebuild_count),
            workspace_reloaded: self.workspace_reloaded || other.workspace_reloaded,
        }
    }
}

/// The sum of `counts` in `usize`, saturating.
pub open spec fn saturating_sum(counts: Seq<usize>) -> usize
    decreases counts.len(),
{
    if counts.len() == 0 {
        0
    } else {
        let rest = saturating_sum(counts.drop_last());
        if rest + counts.last() > usize::MAX {
            usize::MAX
        } else {
            (rest + counts.last()) as usize
        }
    }
}

/// The replay volume of a recovery that replays the given numbers of items:
/// their saturating sum.
pub fn replay_volume(counts: &Vec<usize>) -> (r: u64)
    ensures
        r == saturating_sum(counts@),
{
    let mut total: usize = 0;
    let mut i: usize = 0;
    while i < counts.len()
        invariant
            i <= counts@.len(),
            total == saturating_sum(counts@.subrange(0, i as int)),
        decreases counts@.len() - i,
    {
        proof {
            assert(counts@.subrange(0, i + 1).drop_last() =~= counts@.subrange(0, i as int));
        }
        total = total.saturating_add(counts[i]);
        i = i + 1;
    }
    proof {
        assert(counts@.subrange(0, counts@.len() as int) =~= counts@);
    }
    total as u64
}

/// The sum of `counts`.
pub open spec fn count_sum(counts: Seq<usize>) -> int
    decreases counts.len(),
{
    if counts.len() == 0 {
        0
    } else {
        count_sum(counts.drop_last()) + counts.last()
    }
}

/// A prefix of counts sums to no more than the whole.
proof fn lemma_count_sum_prefix(counts: Seq<usize>, i: int)
    requires
        0 <= i <= counts.len(),
    ensures
        0 <= count_sum(counts.subrange(0, i)) <= count_sum(counts),
    decreases counts.len(),
{
    if counts.len() > 0 {
        if i == counts.len() {
            assert(counts.subrange(0, i) =~= counts);
            lemma_count_sum_prefix(counts.drop_last(), i - 1);
        } else {
            assert(counts.subrange(0, i) =~= counts.drop_last().subrange(0, i));
            lemma_count_sum_prefix(counts.drop_last(), i);
        }
    }
}

/// The items of each plan graph: its nodes and edges, saturating.
pub open spec fn plan_graph_item_counts(sizes: Seq<(usize, usize)>) -> Seq<usize> {
    Seq::new(
        sizes.len(),
        |i: int|
            if sizes[i].0 + sizes[i].1 > usize::MAX {
                usize::MAX
            } else {
                (sizes[i].0 + sizes[i].1) as usize
            },
    )
}

/// The sum of `counts` in `usize`, where it fits.
fn checked_total(counts: &Vec<usize>) -> (r: usize)
    requires
        count_sum(counts@) <= usize::MAX,
    ensures
        r == count_sum(counts@),
{
    let mut total: usize = 0;
    let mut i: usize = 0;
    while i < counts.len()
        invariant
            i <= counts@.len(),
            total == count_sum(counts@.subrange(0, i as int)),
            count_sum(counts@) <= usize::MAX,
        decreases counts@.len() - i,
    {
        proof {
            assert(counts@.subrange(0, i + 1).drop_last() =~= counts@.subrange(0, i as int));
            lemma_count_sum_prefix(counts@, i + 1);
        }
        total = total + counts[i];
        i = i + 1;
    }
    proof {
        assert(counts@.subrange(0, counts@.len() as int) =~= counts@);
    }
    total
}

/// The items replayed when the coordination state is recovered: the
/// snapshot's plans, tasks, claims, artifacts, reviews and events, the
/// items of the plan graphs and the execution overlays.
pub open spec fn coordination_replay_counts(
    snapshot: CoordinationSnapshot,
    plan_graph_sizes: Seq<(usize, usize)>,
    overlay_counts: Seq<usize>,
) -> Seq<usize> {
    seq![
        snapshot.plans@.len() as usize,
        snapshot.tasks@.len() as usize,
        snapshot.claims@.len() as usize,
        snapshot.artifacts@.len() as usize,
        snapshot.reviews@.len() as usize,
        snapshot.events@.len() as usize,
        count_sum(plan_graph_item_counts(plan_graph_sizes)) as usize,
        count_sum(overlay_counts) as usize,
    ]
}

/// The work of recovering the coordination state: the bytes that the debug
/// forms of the snapshot, the plan graphs (`plan_graph_sizes` holds the
/// nodes and edges of each) and the execution overlays (`overlay_counts`
/// holds the number under each plan) take, added saturating, and the items
/// replayed.
pub fn coordination_recovery_work(
    snapshot: &CoordinationSnapshot,
    plan_graph_sizes: &Vec<(usize, usize)>,
    overlay_counts: &Vec<usize>,
    snapshot_bytes: u64,
    plan_graph_bytes: u64,
    overlay_bytes: u64,
) -> (w: WorkspaceRefreshWork)
    requires
        count_sum(plan_graph_item_counts(plan_graph_sizes@)) <= usize::MAX,
        count_sum(overlay_counts@) <= usize::MAX,
    ensures
        w.loaded_bytes == sat_add(sat_add(snapshot_bytes, plan_graph_bytes), overlay_bytes),
        w.replay_volume == saturating_sum(
            coordination_replay_counts(*snapshot, plan_graph_sizes@, overlay_counts@),
        ),
        w.full_rebuild_count == 0,
        !w.workspace_reloaded,
{
    let mut graph_items: Vec<usize> = Vec::new();
    let mut i: usize = 0;
    while i < plan_graph_sizes.len()
        invariant
            i <= plan_graph_sizes@.len(),
            graph_items@ =~= plan_graph_item_counts(plan_graph_sizes@).subrange(0, i as int),
        decreases plan_graph_sizes@.len() - i,
    {
        let (nodes, edges) = plan_graph_sizes[i];
        graph_items.push(nodes.saturating_add(edges));
        i = i + 1;
    }
    proof {
        assert(graph_items@ =~= plan_graph_item_counts(plan_graph_sizes@));
    }
    let graph_total = checked_total(&graph_items);
    let overlay_total = checked_total(overlay_counts);
    let counts: Vec<usize> = vec![
        snapshot.plans.len(),
        snapshot.tasks.len(),
        snapshot.claims.len(),
        snapshot.artifacts.len(),
        snapshot.reviews.len(),
        snapshot.events.len(),
        graph_total,
        overlay_total,
    ];
    proof {
        assert(counts@ =~= coordination_replay_counts(*snapshot, plan_graph_sizes@, overlay_counts@));
    }
    WorkspaceRefreshWork {
        loaded_bytes: snapshot_bytes.saturating_add(plan_graph_bytes).saturating_add(overlay_bytes),
        replay_volume: replay_volume(&counts),
        full_rebuild_count: 0,
        workspace_reloaded: false,
    }
}

/// What edge resolution reads of a parsed node: its id, name and kind.
#[derive(Debug, Clone, PartialEq, Eq)]
pub struct ObservedNode {
    pub id: String,
    pub name: String,
    pub kind: String,
}

/// What one observed change set did to a file's nodes: how many it added
/// and removed, and each updated node before and after.
#[derive(Debug, Clone, PartialEq, Eq)]
pub struct ObservedChangeSummary {
    pub added: usize,
    pub removed: usize,
    pub updated: Vec<(ObservedNode, ObservedNode)>,
}

/// An update that renames a node, changes its kind or gives it another id.
pub open spec fn node_identity_changed(before: ObservedNode, after: ObservedNode) -> bool {
    before.id@ != after.id@ || before.name@ != after.name@ || before.kind@ != after.kind@
}

/// A change set that adds or removes nodes, or changes an updated node's
/// identity, can change what other files' edges resolve to.
pub open spec fn change_requires_edge_resolution(change: ObservedChangeSummary) -> bool {
    change.added > 0 || change.removed > 0 || exists|i: int|
        0 <= i < change.updated@.len() && #[trigger] node_identity_changed(
            change.updated@[i].0,
            change.updated@[i].1,
        )
}

fn identity_changed(before: &ObservedNode, after: &ObservedNode) -> (r: bool)
    ensures
        r == node_identity_changed(*before, *after),
{
    !str_eq(before.id.as_str(), after.id.as_str()) || !str_eq(
        before.name.as_str(),
        after.name.as_str(),
    ) || !str_eq(before.kind.as_str(), after.kind.as_str())
}

/// Whether a change set needs the edges that point into it resolved again.
fn change_needs_edge_resolution(change: &ObservedChangeSummary) -> (r: bool)
    ensures
        r == change_requires_edge_resolution(*change),
{
    if change.added > 0 || change.removed > 0 {
        return true;
    }
    let mut i: usize = 0;
    while i < change.updated.len()
        invariant
            i <= change.updated@.len(),
            forall|j: int|
                0 <= j < i ==> !#[trigger] node_identity_changed(
                    change.updated@[j].0,
                    change.updated@[j].1,
                ),
        decreases change.updated@.len() - i,
    {
        if identity_changed(&change.updated[i].0, &change.updated[i].1) {
            return true;
        }
        i = i + 1;
    }
    false
}

/// Whether any observed change set requires the edges of dependent files
/// to be resolved again.
pub fn observed_changes_require_dependent_edge_resolution(
    observed_changes: &Vec<ObservedChangeSummary>,
) -> (r: bool)
    ensures
        r == exists|i: int|
            0 <= i < observed_changes@.len() && #[trigger] change_requires_edge_resolution(
                observed_changes@[i],
            ),
{
    let mut i: usize = 0;
    while i < observed_changes.len()
        invariant
            i <= observed_changes@.len(),
            forall|j: int|
                0 <= j < i ==> !#[trigger] change_requires_edge_resolution(observed_changes@[j]),
        decreases observed_changes@.len() - i,
    {
        if change_needs_edge_resolution(&observed_changes[i]) {
            return true;
        }
        i = i + 1;
    }
    false
}

/// Workspaces with at most this many files are always parsed deeply.
pub const SMALL_REPO_DEEP_PARSE_FILE_LIMIT: usize = 64;

/// A targeted refresh parses a file of at most this many bytes deeply.
pub const OVERSIZED_TARGETED_DEEP_PARSE_BYTE_LIMIT: usize = 131072;

/// How much of a file the parser extracts.
#[derive(Debug, Clone, Copy, PartialEq, Eq, Structural)]
pub enum ParseDepth {
    Deep,
    Shallow,
}

/// How deeply a file is parsed: deeply when it is forced, when the
/// workspace is small, or when a targeted refresh meets a file that is not
/// oversized; shallowly otherwise.
pub fn desired_parse_depth(
    path: &Vec<String>,
    targeted_refresh: bool,
    workspace_file_count: usize,
    source_bytes: usize,
    forced_deep_paths: Option<&Vec<Vec<String>>>,
) -> (r: ParseDepth)
    ensures
        r == if (match forced_deep_paths {
            Some(paths) => roots_view(paths@).contains(ids_view(path@)),
            None => false,
        }) {
            ParseDepth::Deep
        } else if workspace_file_count <= SMALL_REPO_DEEP_PARSE_FILE_LIMIT {
            ParseDepth::Deep
        } else if targeted_refresh && source_bytes <= OVERSIZED_TARGETED_DEEP_PARSE_BYTE_LIMIT {
            ParseDepth::Deep
        } else {
            ParseDepth::Shallow
        },
{
    let forced = match forced_deep_paths {
        Some(paths) => path_set_contains(paths, path),
        None => false,
    };
    if forced {
        ParseDepth::Deep
    } else if workspace_file_count <= SMALL_REPO_DEEP_PARSE_FILE_LIMIT {
        ParseDepth::Deep
    } else if targeted_refresh && source_bytes <= OVERSIZED_TARGETED_DEEP_PARSE_BYTE_LIMIT {
        ParseDepth::Deep
    } else {
        ParseDepth::Shallow
    }
}

/// Whether a path is covered by a refresh scope: it lies under a scope path
/// or a scope path lies under it.
pub open spec fn in_refresh_scope(path: Seq<Seq<char>>, scope: Seq<Seq<Seq<char>>>) -> bool {
    exists|i: int|
        0 <= i < scope.len() && (root_contains(#[trigger] scope[i], path) || root_contains(
            path,
            scope[i],
        ))
}

/// Whether a path is covered by a refresh scope.
pub fn path_matches_refresh_scope(path: &Vec<String>, refresh_scope: &Vec<Vec<String>>) -> (r:
    bool)
    ensures
        r == in_refresh_scope(ids_view(path@), roots_view(refresh_scope@)),
{
    let ghost sv = roots_view(refresh_scope@);
    let mut i: usize = 0;
    while i < refresh_scope.len()
        invariant
            i <= refresh_scope@.len(),
            sv == roots_view(refresh_scope@),
            forall|j: int|
                0 <= j < i ==> !(root_contains(#[trigger] sv[j], ids_view(path@)) || root_contains(
                    ids_view(path@),
                    sv[j],
                )),
        decreases refresh_scope@.len() - i,
    {
        let candidate = &refresh_scope[i];
        assert(sv[i as int] == ids_view(candidate@));
        if path_starts_with(path, candidate) || path_starts_with(candidate, path) {
            return true;
        }
        i = i + 1;
    }
    false
}

/// `paths` with each path kept at its first occurrence only.
pub open spec fn first_occurrences(paths: Seq<Seq<Seq<char>>>) -> Seq<Seq<Seq<char>>>
    decreases paths.len(),
{
    if paths.len() == 0 {
        paths
    } else {
        let rest = first_occurrences(paths.drop_last());
        if rest.contains(paths.last()) {
            rest
        } else {
            rest.push(paths.last())
        }
    }
}

/// The files of a refresh scope to parse: the files found under the scope
/// paths, in the order found, each once.
pub fn collect_refresh_scope_paths(found: Vec<Vec<String>>) -> (r: Vec<Vec<String>>)
    ensures
        roots_view(r@) == first_occurrences(roots_view(found@)),
{
    let ghost fv = roots_view(found@);
    let mut paths: Vec<Vec<String>> = Vec::new();
    let mut i: usize = 0;
    while i < found.len()
        invariant
            i <= found@.len(),
            fv == roots_view(found@),
            roots_view(paths@) == first_occurrences(fv.subrange(0, i as int)),
        decreases found@.len() - i,
    {
        proof {
            assert(fv.subrange(0, i + 1).drop_last() =~= fv.subrange(0, i as int));
        }
        if !path_set_contains(&paths, &found[i]) {
            let ghost before = roots_view(paths@);
            let p = found[i].clone();
            assert(ids_view(p@) =~= ids_view(found@[i as int]@));
            paths.push(p);
            proof {
                assert(roots_view(paths@) =~= before.push(fv[i as int]));
            }
        }
        i = i + 1;
    }
    proof {
        assert(fv.subrange(0, found@.len() as int) =~= fv);
    }
    paths
}

/// Whether an environment flag's value turns the flag on: once trimmed and
/// made small it is neither empty, `0` nor `false`.
pub open spec fn flag_value_enabled(value: Option<Seq<char>>) -> bool {
    match value {
        Some(v) => {
            let t = trim_view(v).map_values(|c: char| ascii_lower(c));
            t.len() > 0 && t != "0"@ && t != "false"@
        },
        None => false,
    }
}

/// Whether an environment flag is on, given its value (`None` when it is
/// unset or not valid Unicode).
pub fn env_flag_enabled(value: Option<&str>) -> (r: bool)
    ensures
        r == flag_value_enabled(
            match value {
                Some(v) => Some(v@),
                None => None,
            },
        ),
{
    match value {
        Some(v) => {
            let chars = chars_of(v);
            let (a, b) = trim_range(&chars, 0, chars.len());
            proof {
                assert(chars@.subrange(0, chars@.len() as int) =~= chars@);
            }
            let mut lowered: Vec<char> = Vec::new();
            let mut i: usize = a;
            while i < b
                invariant
                    a <= i <= b <= chars@.len(),
                    lowered@ == chars@.subrange(a as int, i as int).map_values(
                        |c: char| ascii_lower(c),
                    ),
                decreases b - i,
            {
                let c = crate::layout::lower_ascii_char(chars[i]);
                lowered.push(c);
                i = i + 1;
                assert(lowered@ =~= chars@.subrange(a as int, i as int).map_values(
                    |c: char| ascii_lower(c),
                ));
            }
            let text = string_of_chars(lowered.as_slice());
            lowered.len() > 0 && !str_eq(text.as_str(), "0") && !str_eq(text.as_str(), "false")
        },
        None => false,
    }
}

/// The separator of namespace paths.
pub open spec fn namespace_separator() -> Seq<char> {
    seq![':', ':']
}

/// The suffixes of `s` that start at index `i` or right after a later `::`
/// (separators found left to right, not overlapping), longest first.
pub open spec fn suffixes_from(s: Seq<char>, i: int) -> Seq<Seq<char>>
    decreases s.len() - i,
{
    if i < 0 || i > s.len() {
        Seq::empty()
    } else {
        let here = s.subrange(i, s.len() as int);
        match find_from(s, namespace_separator(), i) {
            Some(k) => {
                proof {
                    lemma_find_from_found(s, namespace_separator(), i, k);
                }
                seq![here] + suffixes_from(s, k + 2)
            },
            None => seq![here],
        }
    }
}

pub open spec fn strings_view(v: Seq<String>) -> Seq<Seq<char>> {
    v.map_values(|s: String| s@)
}

/// The namespace suffixes of a path: for each of its `::`-separated parts,
/// that part and everything after it, longest first.
pub fn namespace_suffixes(path: &str) -> (r: Vec<String>)
    ensures
        strings_view(r@) == suffixes_from(path@, 0),
{
    let v = chars_of(path);
    let mut sep: Vec<char> = Vec::new();
    sep.push(':');
    sep.push(':');
    assert(sep@ =~= namespace_separator());
    let mut out: Vec<String> = Vec::new();
    let mut i: usize = 0;
    let mut more = true;
    assert(strings_view(out@) =~= Seq::<Seq<char>>::empty());
    while more
        invariant
            v@ == path@,
            sep@ == namespace_separator(),
            more ==> i <= v@.len(),
            more ==> strings_view(out@) + suffixes_from(v@, i as int) == suffixes_from(v@, 0),
            !more ==> strings_view(out@) == suffixes_from(v@, 0),
        decreases (if more {
            v@.len() + 1 - i
        } else {
            0
        }),
    {
        let here = string_of_chars(&v.as_slice()[i..v.len()]);
        let ghost before = strings_view(out@);
        out.push(here);
        assert(strings_view(out@) =~= before.push(v@.subrange(i as int, v@.len() as int)));
        match find_seq_from(&v, &sep, i) {
            Some(k) => {
                proof {
                    lemma_find_from_found(v@, sep@, i as int, k as int);
                    assert(before + suffixes_from(v@, i as int) =~= strings_view(out@)
                        + suffixes_from(v@, k + 2));
                }
                i = k + 2;
            },
            None => {
                assert(before + suffixes_from(v@, i as int) =~= strings_view(out@));
                more = false;
            },
        }
    }
    out
}

} // verus!
