use shelfsend::registry::{CopyJob, LifecycleEvent, StagingRegistry};

fn owned(paths: &[&str]) -> Vec<String> {
    paths.iter().map(|p| p.to_string()).collect()
}

fn job(source: &str, destination: &str) -> CopyJob {
    CopyJob { source: source.to_string(), destination: destination.to_string() }
}

#[test]
fn new_registry_is_empty() {
    let registry = StagingRegistry::new();
    assert_eq!(registry.len(), 0);
    assert!(registry.is_empty());
    assert_eq!(registry.listing(), Vec::<String>::new());
}

#[test]
fn default_registry_is_empty() {
    let registry = StagingRegistry::default();
    assert!(registry.is_empty());
    assert_eq!(registry.listing(), Vec::<String>::new());
}

#[test]
fn stage_two_files_then_clear() {
    let mut registry = StagingRegistry::new();
    let out = registry.stage("/scratch", &owned(&["/a/x.txt", "/b/y.txt"]));
    assert_eq!(out.listing, owned(&["/scratch/x.txt", "/scratch/y.txt"]));
    assert_eq!(
        out.copies,
        vec![job("/a/x.txt", "/scratch/x.txt"), job("/b/y.txt", "/scratch/y.txt")]
    );
    assert_eq!(registry.listing(), owned(&["/scratch/x.txt", "/scratch/y.txt"]));
    assert_eq!(registry.len(), 2);

    let removals = registry.clear();
    assert_eq!(removals, owned(&["/scratch/x.txt", "/scratch/y.txt"]));
    assert_eq!(registry.listing(), Vec::<String>::new());
    assert!(registry.is_empty());
}

#[test]
fn stage_returns_earlier_entries_first() {
    let mut registry = StagingRegistry::new();
    registry.stage("/scratch", &owned(&["/a/one.bin"]));
    let out = registry.stage("/scratch", &owned(&["/b/two.bin", "/c/three.bin"]));
    assert_eq!(
        out.listing,
        owned(&["/scratch/one.bin", "/scratch/two.bin", "/scratch/three.bin"])
    );
    assert_eq!(
        out.copies,
        vec![job("/b/two.bin", "/scratch/two.bin"), job("/c/three.bin", "/scratch/three.bin")]
    );
}

#[test]
fn stage_skips_sources_without_file_name() {
    let mut registry = StagingRegistry::new();
    let out = registry.stage("/scratch", &owned(&["/", "/a/x.txt", "", "/b/..", "..", "/c/y.txt"]));
    assert_eq!(out.listing, owned(&["/scratch/x.txt", "/scratch/y.txt"]));
    assert_eq!(
        out.copies,
        vec![job("/a/x.txt", "/scratch/x.txt"), job("/c/y.txt", "/scratch/y.txt")]
    );
    assert_eq!(registry.len(), 2);
}

#[test]
fn stage_of_nothing_changes_nothing() {
    let mut registry = StagingRegistry::new();
    registry.stage("/scratch", &owned(&["/a/x.txt"]));
    let out = registry.stage("/scratch", &[]);
    assert!(out.copies.is_empty());
    assert_eq!(out.listing, owned(&["/scratch/x.txt"]));
    let out = registry.stage("/scratch", &owned(&["/", ""]));
    assert!(out.copies.is_empty());
    assert_eq!(out.listing, owned(&["/scratch/x.txt"]));
}

#[test]
fn stage_grows_by_count_of_named_sources() {
    let mut registry = StagingRegistry::new();
    registry.stage("/scratch", &owned(&["/a/1", "/a/2", "/a/3"]));
    let before = registry.len();
    let sources = owned(&["/b/4", "/", "/b/5/", "/b/..", "relative.txt"]);
    let out = registry.stage("/scratch", &sources);
    assert_eq!(registry.len(), before + 3);
    assert_eq!(out.copies.len(), 3);
    assert_eq!(out.listing.len(), 6);
}

#[test]
fn stage_keeps_duplicates() {
    let mut registry = StagingRegistry::new();
    registry.stage("/scratch", &owned(&["/a/x.txt"]));
    let out = registry.stage("/scratch", &owned(&["/a/x.txt"]));
    assert_eq!(out.listing, owned(&["/scratch/x.txt", "/scratch/x.txt"]));
    assert_eq!(out.copies, vec![job("/a/x.txt", "/scratch/x.txt")]);
}

#[test]
fn same_file_name_from_two_directories_collides() {
    let mut registry = StagingRegistry::new();
    let out = registry.stage("/scratch", &owned(&["/a/report.pdf", "/b/report.pdf"]));
    assert_eq!(out.listing, owned(&["/scratch/report.pdf", "/scratch/report.pdf"]));
    assert_eq!(
        out.copies,
        vec![
            job("/a/report.pdf", "/scratch/report.pdf"),
            job("/b/report.pdf", "/scratch/report.pdf"),
        ]
    );
}

#[test]
fn restage_after_clear_reproduces_destinations() {
    let sources = owned(&["/a/x.txt", "/", "/b/y.txt"]);
    let mut registry = StagingRegistry::new();
    registry.stage("/scratch", &owned(&["/old/z.txt"]));
    let first = registry.stage("/scratch", &sources);
    registry.clear();
    let second = registry.stage("/scratch", &sources);
    assert_eq!(second.listing, owned(&["/scratch/x.txt", "/scratch/y.txt"]));
    assert_eq!(&first.listing[1..], &second.listing[..]);
    assert_eq!(first.copies, second.copies);
}

#[test]
fn clear_of_empty_registry_asks_for_nothing() {
    let mut registry = StagingRegistry::new();
    assert_eq!(registry.clear(), Vec::<String>::new());
    assert!(registry.is_empty());
}

#[test]
fn clear_twice_is_empty_the_second_time() {
    let mut registry = StagingRegistry::new();
    registry.stage("/scratch", &owned(&["/a/x.txt"]));
    assert_eq!(registry.clear(), owned(&["/scratch/x.txt"]));
    assert_eq!(registry.clear(), Vec::<String>::new());
    assert_eq!(registry.len(), 0);
}

#[test]
fn record_with_destination_appends_and_plans() {
    let mut registry = StagingRegistry::new();
    let planned = registry.record("/a/x.txt".to_string(), Some("/scratch/x.txt".to_string()));
    assert_eq!(planned, Some(job("/a/x.txt", "/scratch/x.txt")));
    assert_eq!(registry.listing(), owned(&["/scratch/x.txt"]));
}

#[test]
fn record_without_destination_skips() {
    let mut registry = StagingRegistry::new();
    registry.record("/a/x.txt".to_string(), Some("/scratch/x.txt".to_string()));
    let planned = registry.record("/".to_string(), None);
    assert_eq!(planned, None);
    assert_eq!(registry.listing(), owned(&["/scratch/x.txt"]));
}

#[test]
fn exit_request_clears() {
    let mut registry = StagingRegistry::new();
    registry.stage("/scratch", &owned(&["/a/x.txt", "/b/y.txt"]));
    let removals = registry.on_event(LifecycleEvent::ExitRequested);
    assert_eq!(removals, owned(&["/scratch/x.txt", "/scratch/y.txt"]));
    assert!(registry.is_empty());
}

#[test]
fn other_events_leave_registry_alone() {
    let mut registry = StagingRegistry::new();
    registry.stage("/scratch", &owned(&["/a/x.txt"]));
    let removals = registry.on_event(LifecycleEvent::Other);
    assert_eq!(removals, Vec::<String>::new());
    assert_eq!(registry.listing(), owned(&["/scratch/x.txt"]));
}

#[test]
fn history_of_calls_adds_up() {
    let mut registry = StagingRegistry::new();
    registry.stage("/scratch", &owned(&["/a/1", "/a/2"]));
    registry.stage("/scratch", &owned(&["/", "/a/3"]));
    assert_eq!(registry.len(), 3);
    registry.clear();
    assert_eq!(registry.len(), 0);
    registry.stage("/scratch", &owned(&["/a/4"]));
    registry.on_event(LifecycleEvent::Other);
    assert_eq!(registry.len(), 1);
    registry.on_event(LifecycleEvent::ExitRequested);
    registry.stage("/scratch", &owned(&["/a/5", "/a/6"]));
    assert_eq!(registry.len(), 2);
}

#[test]
fn only_exit_request_asks_for_cleanup() {
    assert!(LifecycleEvent::ExitRequested.asks_for_cleanup());
    assert!(!LifecycleEvent::Other.asks_for_cleanup());
}
