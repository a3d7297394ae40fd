use vatsim_exporter::cache::{classify_fetch, Cache, FetchFailure, FetchOutcome, RawFetch};
use vatsim_exporter::vatsim::{VatsimGeneral, VatsimStatus};

fn snapshot(update_timestamp: i64) -> VatsimStatus {
    VatsimStatus {
        general: VatsimGeneral {
            connected_clients: 0,
            reload: 1,
            unique_users: 0,
            update: String::from("20240102030405"),
            update_timestamp,
            version: 3,
        },
        pilots: Vec::new(),
        controllers: Vec::new(),
        atis: Vec::new(),
        facilities: Vec::new(),
        pilot_ratings: Vec::new(),
        prefiles: Vec::new(),
        servers: Vec::new(),
    }
}

#[test]
fn classify_transport_error() {
    let outcome = classify_fetch(RawFetch::TransportError);
    assert!(matches!(
        outcome,
        FetchOutcome::Failed { reason: FetchFailure::Transport }
    ));
}

#[test]
fn classify_not_modified_keeps_validator() {
    let outcome = classify_fetch(RawFetch::Reply {
        status: 304,
        validator: Some(String::from("\"etag-2\"")),
        body: None,
    });
    match outcome {
        FetchOutcome::NotModified { validator } => assert_eq!(validator, "\"etag-2\""),
        _ => panic!("expected a not-modified outcome"),
    }
}

#[test]
fn classify_missing_validator_degrades_to_empty() {
    let outcome = classify_fetch(RawFetch::Reply {
        status: 304,
        validator: None,
        body: None,
    });
    match outcome {
        FetchOutcome::NotModified { validator } => assert_eq!(validator, ""),
        _ => panic!("expected a not-modified outcome"),
    }
}

#[test]
fn classify_parsed_body_is_updated() {
    let outcome = classify_fetch(RawFetch::Reply {
        status: 200,
        validator: Some(String::from("\"etag-3\"")),
        body: Some(snapshot(1_700_000_000)),
    });
    match outcome {
        FetchOutcome::Updated { snapshot: s, validator } => {
            assert_eq!(s.general.update_timestamp, 1_700_000_000);
            assert_eq!(validator, "\"etag-3\"");
        }
        _ => panic!("expected an updated outcome"),
    }
}

#[test]
fn classify_unparsed_body_is_schema_failure() {
    let outcome = classify_fetch(RawFetch::Reply {
        status: 200,
        validator: Some(String::from("\"etag-3\"")),
        body: None,
    });
    assert!(matches!(
        outcome,
        FetchOutcome::Failed { reason: FetchFailure::Schema }
    ));
}

#[test]
fn refresh_lifecycle_serves_404_then_snapshot() {
    let mut cache = Cache::new();
    // Before any successful fetch: nothing to serve, and a refresh is due.
    assert!(cache.snapshot_response().is_none());
    assert!(cache.needs_refresh(100));

    let update = cache.apply(
        FetchOutcome::Updated {
            snapshot: snapshot(90),
            validator: String::from("\"etag-1\""),
        },
        100,
    );
    assert!(update.is_some());
    let served = cache.snapshot_response().expect("a snapshot must be served");
    assert_eq!(served.general.update_timestamp, 90);
    assert_eq!(cache.validator, "\"etag-1\"");

    // A second request within the staleness window triggers no fetch.
    assert!(!cache.needs_refresh(100));
    assert!(!cache.needs_refresh(139));
    // Once the window has passed, the next request refreshes again.
    assert!(cache.needs_refresh(140));
}

#[test]
fn not_modified_changes_no_served_data() {
    let mut cache = Cache::new();
    cache.apply(
        FetchOutcome::Updated {
            snapshot: snapshot(90),
            validator: String::from("\"etag-1\""),
        },
        100,
    );

    let update = cache.apply(
        FetchOutcome::NotModified { validator: String::from("\"etag-2\"") },
        150,
    );
    // No projection ran: every metric value is left as it was.
    assert!(update.is_none());
    // The snapshot, and with it its update timestamp, is untouched.
    let served = cache.snapshot_response().expect("a snapshot must be served");
    assert_eq!(served.general.update_timestamp, 90);
    // Only the validator and the staleness window moved.
    assert_eq!(cache.validator, "\"etag-2\"");
    assert!(!cache.needs_refresh(189));
    assert!(cache.needs_refresh(190));
}

#[test]
fn failure_leaves_cache_untouched() {
    let mut cache = Cache::new();
    cache.apply(
        FetchOutcome::Updated {
            snapshot: snapshot(90),
            validator: String::from("\"etag-1\""),
        },
        100,
    );

    let update = cache.apply(
        FetchOutcome::Failed { reason: FetchFailure::Transport },
        200,
    );
    assert!(update.is_none());
    // The stale snapshot continues to be served with its old bookkeeping.
    let served = cache.snapshot_response().expect("a snapshot must be served");
    assert_eq!(served.general.update_timestamp, 90);
    assert_eq!(cache.validator, "\"etag-1\"");
    assert_eq!(cache.fetched_at, Some(100));
    // The window is measured from the old fetch, so the next request retries.
    assert!(cache.needs_refresh(200));
}

#[test]
fn failure_on_empty_cache_keeps_serving_404() {
    let mut cache = Cache::new();
    let update = cache.apply(
        FetchOutcome::Failed { reason: FetchFailure::Schema },
        100,
    );
    assert!(update.is_none());
    assert!(cache.snapshot_response().is_none());
    assert!(cache.needs_refresh(101));
}
