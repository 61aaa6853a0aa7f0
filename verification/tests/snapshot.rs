use dashboard::snapshot::{Delivery, Snapshot, Source, Sources};

type Facets = Snapshot<Vec<u32>, String, u64>;
type Value = Delivery<Vec<u32>, String, u64>;

#[test]
fn an_empty_snapshot_holds_nothing() {
    let snapshot: Facets = Snapshot::empty();
    assert_eq!(snapshot.queries, None);
    assert_eq!(snapshot.statistics, None);
    assert_eq!(snapshot.status, None);
    assert!(!snapshot.is_complete());
    assert!(!snapshot.is_present(Source::Queries));
    assert!(!snapshot.is_present(Source::Statistics));
    assert!(!snapshot.is_present(Source::Status));
    assert_eq!(snapshot.facets(), None);
}

#[test]
fn store_fills_one_facet() {
    let mut snapshot: Facets = Snapshot::empty();
    snapshot.store(Delivery::Statistics("seven".to_string()));
    assert_eq!(snapshot.queries, None);
    assert_eq!(snapshot.statistics, Some("seven".to_string()));
    assert_eq!(snapshot.status, None);
    assert!(snapshot.is_present(Source::Statistics));
    assert!(!snapshot.is_present(Source::Queries));
    assert!(!snapshot.is_complete());
}

#[test]
fn store_replaces_a_facet_as_a_whole() {
    let mut snapshot: Facets = Snapshot::empty();
    snapshot.store(Delivery::Queries(vec![1, 2, 3]));
    snapshot.store(Delivery::Status(10));
    snapshot.store(Delivery::Queries(vec![9]));
    assert_eq!(snapshot.queries, Some(vec![9]));
    assert_eq!(snapshot.status, Some(10));
    assert_eq!(snapshot.statistics, None);
}

#[test]
fn a_snapshot_is_complete_with_all_three_facets() {
    let mut snapshot: Facets = Snapshot::empty();
    snapshot.store(Delivery::Queries(vec![1, 2]));
    assert!(!snapshot.is_complete());
    snapshot.store(Delivery::Status(3));
    assert!(!snapshot.is_complete());
    assert_eq!(snapshot.facets(), None);
    snapshot.store(Delivery::Statistics("s".to_string()));
    assert!(snapshot.is_complete());
    assert_eq!(snapshot.facets(), Some((&vec![1, 2], &"s".to_string(), &3)));
}

#[test]
fn a_delivery_knows_its_source() {
    let queries: Value = Delivery::Queries(vec![]);
    let statistics: Value = Delivery::Statistics(String::new());
    let status: Value = Delivery::Status(0);
    assert_eq!(queries.source(), Source::Queries);
    assert_eq!(statistics.source(), Source::Statistics);
    assert_eq!(status.source(), Source::Status);
}

#[test]
fn all_sources_are_three() {
    let all = Sources::all();
    assert_eq!(all, Sources { queries: true, statistics: true, status: true });
    assert!(all.contains(Source::Queries));
    assert!(all.contains(Source::Statistics));
    assert!(all.contains(Source::Status));
    assert!(!all.is_empty());
}

#[test]
fn remove_takes_one_source_out() {
    let mut open = Sources::all();
    open.remove(Source::Statistics);
    assert_eq!(open, Sources { queries: true, statistics: false, status: true });
    assert!(!open.contains(Source::Statistics));
    open.remove(Source::Statistics);
    assert_eq!(open, Sources { queries: true, statistics: false, status: true });
    open.remove(Source::Queries);
    assert!(!open.is_empty());
    open.remove(Source::Status);
    assert!(open.is_empty());
    assert_eq!(open, Sources { queries: false, statistics: false, status: false });
}
