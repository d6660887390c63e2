use prism_core::coordination::{CoordinationEvent, CoordinationSnapshot};
use prism_core::refresh::{
    collect_refresh_scope_paths, coordination_recovery_work,
    observed_changes_require_dependent_edge_resolution, ObservedChangeSummary, ObservedNode, desired_parse_depth, env_flag_enabled, namespace_suffixes,
    path_matches_refresh_scope, replay_volume, ParseDepth, WorkspaceRefreshWork,
};

fn path(s: &str) -> Vec<String> {
    s.split('/').filter(|p| !p.is_empty()).map(|p| p.to_string()).collect()
}

fn work(bytes: u64, volume: u64, rebuilds: u64, reloaded: bool) -> WorkspaceRefreshWork {
    WorkspaceRefreshWork {
        loaded_bytes: bytes,
        replay_volume: volume,
        full_rebuild_count: rebuilds,
        workspace_reloaded: reloaded,
    }
}

#[test]
fn refresh_work_adds_saturating() {
    let a = work(u64::MAX - 1, 3, 1, false);
    let b = work(5, 4, 2, true);
    assert_eq!(a.saturating_add(b), work(u64::MAX, 7, 3, true));
    assert_eq!(a.saturating_add(b), b.saturating_add(a));
    assert_eq!(a.saturating_add(WorkspaceRefreshWork::default()), a);
    let c = work(1, 1, 1, false);
    assert_eq!(a.saturating_add(b).saturating_add(c), a.saturating_add(b.saturating_add(c)));
    assert_eq!(a.with_workspace_reloaded(true), work(u64::MAX - 1, 3, 1, true));
}

#[test]
fn replay_volume_sums_counts_saturating() {
    assert_eq!(replay_volume(&vec![3, 4, 5]), 12);
    assert_eq!(replay_volume(&vec![]), 0);
    assert_eq!(replay_volume(&vec![usize::MAX, 1]), usize::MAX as u64);
}

#[test]
fn parse_depth_follows_size_and_targeting() {
    let p = path("src/lib.rs");
    assert_eq!(desired_parse_depth(&p, false, 64, 1 << 20, None), ParseDepth::Deep);
    assert_eq!(desired_parse_depth(&p, false, 65, 10, None), ParseDepth::Shallow);
    assert_eq!(desired_parse_depth(&p, true, 1000, 128 * 1024, None), ParseDepth::Deep);
    assert_eq!(desired_parse_depth(&p, true, 1000, 128 * 1024 + 1, None), ParseDepth::Shallow);
    let forced = vec![path("src/lib.rs")];
    assert_eq!(desired_parse_depth(&p, false, 1000, 1 << 30, Some(&forced)), ParseDepth::Deep);
}

#[test]
fn refresh_scope_matches_ancestors_and_descendants() {
    let scope = vec![path("repo/src"), path("repo/docs/guide.md")];
    assert!(path_matches_refresh_scope(&path("repo/src/lib.rs"), &scope));
    assert!(path_matches_refresh_scope(&path("repo/docs"), &scope));
    assert!(path_matches_refresh_scope(&path("repo/src"), &scope));
    assert!(!path_matches_refresh_scope(&path("repo/srcx/lib.rs"), &scope));
    assert!(!path_matches_refresh_scope(&path("repo/tests/a.rs"), &scope));
}

#[test]
fn refresh_scope_paths_are_kept_once_in_order() {
    let found = vec![path("a/x.rs"), path("b/y.rs"), path("a/x.rs"), path("c/z.rs")];
    assert_eq!(
        collect_refresh_scope_paths(found),
        vec![path("a/x.rs"), path("b/y.rs"), path("c/z.rs")]
    );
}

#[test]
fn env_flags_turn_on_unless_empty_zero_or_false() {
    assert!(env_flag_enabled(Some("1")));
    assert!(env_flag_enabled(Some(" yes ")));
    assert!(!env_flag_enabled(Some("  FALSE ")));
    assert!(!env_flag_enabled(Some("0")));
    assert!(!env_flag_enabled(Some("   ")));
    assert!(!env_flag_enabled(None));
    assert!(env_flag_enabled(Some("00")));
}

#[test]
fn namespace_suffixes_are_longest_first() {
    assert_eq!(
        namespace_suffixes("crate::module::Item"),
        vec!["crate::module::Item".to_string(), "module::Item".to_string(), "Item".to_string()]
    );
    assert_eq!(namespace_suffixes("Item"), vec!["Item".to_string()]);
    assert_eq!(namespace_suffixes(":::"), vec![":::".to_string(), ":".to_string()]);
    assert_eq!(namespace_suffixes(""), vec!["".to_string()]);
    assert_eq!(namespace_suffixes("a::"), vec!["a::".to_string(), "".to_string()]);
}

#[test]
fn coordination_recovery_counts_snapshot_graphs_and_overlays() {
    let mut snapshot = CoordinationSnapshot::default();
    snapshot.plans.push("plan:1".to_string());
    snapshot.claims.push("claim:1".to_string());
    snapshot.claims.push("claim:2".to_string());
    snapshot.events.push(CoordinationEvent {
        id: "event:1".to_string(),
        ts: 1,
        summary: "created".to_string(),
    });
    let w = coordination_recovery_work(&snapshot, &vec![(usize::MAX, 1)], &vec![2, 0, 5], 10, 20, u64::MAX);
    assert_eq!(w.loaded_bytes, u64::MAX);
    assert_eq!(w.replay_volume, u64::MAX);
    assert_eq!(w.full_rebuild_count, 0);
    assert!(!w.workspace_reloaded);

    let w = coordination_recovery_work(&snapshot, &vec![(3, 2)], &vec![2, 0, 5], 10, 20, 30);
    assert_eq!(w.loaded_bytes, 60);
    // 1 plan + 2 claims + 1 event + 5 graph items + 7 overlays
    assert_eq!(w.replay_volume, 16);
}

fn node(id: &str, name: &str, kind: &str) -> ObservedNode {
    ObservedNode { id: id.to_string(), name: name.to_string(), kind: kind.to_string() }
}

#[test]
fn only_identity_changes_require_dependent_edge_resolution() {
    assert!(!observed_changes_require_dependent_edge_resolution(&Vec::new()));
    let body_only = ObservedChangeSummary {
        added: 0,
        removed: 0,
        updated: vec![(node("demo::run", "run", "function"), node("demo::run", "run", "function"))],
    };
    assert!(!observed_changes_require_dependent_edge_resolution(&vec![body_only.clone()]));
    let renamed = ObservedChangeSummary {
        added: 0,
        removed: 0,
        updated: vec![(node("demo::run", "run", "function"), node("demo::run", "start", "function"))],
    };
    assert!(observed_changes_require_dependent_edge_resolution(&vec![body_only.clone(), renamed]));
    let rekinded = ObservedChangeSummary {
        added: 0,
        removed: 0,
        updated: vec![(node("demo::run", "run", "function"), node("demo::run", "run", "method"))],
    };
    assert!(observed_changes_require_dependent_edge_resolution(&vec![rekinded]));
    let added = ObservedChangeSummary { added: 1, removed: 0, updated: Vec::new() };
    assert!(observed_changes_require_dependent_edge_resolution(&vec![added]));
    let removed = ObservedChangeSummary { added: 0, removed: 2, updated: Vec::new() };
    assert!(observed_changes_require_dependent_edge_resolution(&vec![body_only, removed]));
}
