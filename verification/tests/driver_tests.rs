use s3_load_gen::config::BenchmarkConfig;
use s3_load_gen::driver::{
    round_robin_index, select_get_path, select_put_path, validate_get_targets, DriverAction,
    DriverEvent, DriverState, GetPath, Phase, PutPath, SetupError,
};
use s3_load_gen::gate::AdmissionGate;
use s3_load_gen::listing::{ListPage, ListProgress, ListStep};

#[test]
fn small_object_takes_the_single_shot_path() {
    // duration=1s, concurrency=1, object size=1024, part size=8192: the
    // object is smaller than a part, so every PUT is single-shot.
    assert_eq!(select_put_path(false, 1024, 8192), PutPath::Simple);
}

#[test]
fn large_object_takes_the_multipart_path() {
    assert_eq!(
        select_put_path(false, 20 * 1024 * 1024, 8 * 1024 * 1024),
        PutPath::Multipart
    );
}

#[test]
fn disabling_multipart_forces_the_single_shot_path() {
    assert_eq!(
        select_put_path(true, 20 * 1024 * 1024, 8 * 1024 * 1024),
        PutPath::Simple
    );
}

#[test]
fn object_exactly_one_part_long_is_multipart() {
    assert_eq!(select_put_path(false, 8192, 8192), PutPath::Multipart);
}

#[test]
fn configured_range_selects_the_ranged_download() {
    assert_eq!(select_get_path(&Some(65536)), GetPath::Ranged);
    assert_eq!(select_get_path(&None), GetPath::Full);
}

#[test]
fn get_run_with_no_objects_fails_fast() {
    // Zero objects under the prefix: setup error before the timed loop, and
    // an operation count of zero in the summary.
    let objects: Vec<String> = Vec::new();
    assert_eq!(
        validate_get_targets(&objects),
        Err(SetupError::NoObjectsFound)
    );
    let stats = s3_load_gen::stats::aggregate(&Vec::new(), 0);
    assert_eq!(stats.operations, 0);
}

#[test]
fn get_run_with_objects_passes_setup() {
    let objects = vec!["test-object/0-1".to_string()];
    assert_eq!(validate_get_targets(&objects), Ok(()));
}

#[test]
fn round_robin_covers_the_object_set_uniformly() {
    let hits: Vec<usize> = (0u64..8).map(|c| round_robin_index(c, 3)).collect();
    assert_eq!(hits, vec![0, 1, 2, 0, 1, 2, 0, 1]);
}

#[test]
fn run_phases_advance_in_order() {
    let duration: u64 = 1_000_000;
    let mut run = DriverState::new();
    assert_eq!(run.phase, Phase::Idle);

    assert_eq!(run.step(&DriverEvent::Start, duration), DriverAction::Hold);
    assert_eq!(run.phase, Phase::Running);

    // Ticks inside the window launch and number operations.
    assert_eq!(
        run.step(&DriverEvent::Tick { elapsed_micros: 0 }, duration),
        DriverAction::Launch
    );
    assert_eq!(
        run.step(&DriverEvent::Tick { elapsed_micros: 999_999 }, duration),
        DriverAction::Launch
    );
    assert_eq!(run.ops_issued, 2);

    // The first tick at the duration stops issuing.
    assert_eq!(
        run.step(&DriverEvent::Tick { elapsed_micros: 1_000_000 }, duration),
        DriverAction::StopIssuing
    );
    assert_eq!(run.phase, Phase::Draining);
    assert_eq!(run.ops_issued, 2);

    assert_eq!(run.step(&DriverEvent::Drained, duration), DriverAction::Report);
    assert_eq!(run.phase, Phase::Done);
}

#[test]
fn events_out_of_phase_change_nothing() {
    let duration: u64 = 1_000_000;
    let mut run = DriverState::new();
    assert_eq!(run.step(&DriverEvent::Drained, duration), DriverAction::Hold);
    assert_eq!(run.phase, Phase::Idle);
    assert_eq!(
        run.step(&DriverEvent::Tick { elapsed_micros: 0 }, duration),
        DriverAction::Hold
    );
    assert_eq!(run.ops_issued, 0);
}

#[test]
fn gate_never_admits_more_than_the_limit() {
    let mut gate = AdmissionGate::new(2);
    assert!(gate.try_acquire());
    assert!(gate.try_acquire());
    // Both slots held: the third acquire must wait.
    assert!(!gate.try_acquire());
    gate.release();
    assert!(gate.try_acquire());
    assert!(!gate.try_acquire());
    gate.release();
    gate.release();
    assert!(gate.try_acquire());
}

#[test]
fn single_slot_gate_serializes_operations() {
    let mut gate = AdmissionGate::new(1);
    assert!(gate.try_acquire());
    assert!(!gate.try_acquire());
    gate.release();
    assert!(gate.try_acquire());
}

#[test]
fn two_pages_list_to_their_item_total() {
    // One LIST operation whose backend answers two pages of 1000 and 250
    // items lists 1250 items in all.
    let mut progress = ListProgress::new();
    let first = ListPage {
        item_count: 1000,
        truncated: true,
        next_token: Some("SECRET-REDACTED".to_string()),
    };
    let second = ListPage { item_count: 250, truncated: false, next_token: None };
    assert_eq!(progress.absorb_page(&first), ListStep::Continue);
    assert_eq!(progress.absorb_page(&second), ListStep::Done);
    assert_eq!(progress.total_items, 1250);
}

#[test]
fn untruncated_single_page_ends_the_listing() {
    let mut progress = ListProgress::new();
    let only = ListPage { item_count: 17, truncated: false, next_token: None };
    assert_eq!(progress.absorb_page(&only), ListStep::Done);
    assert_eq!(progress.total_items, 17);
}

#[test]
fn listing_total_saturates_instead_of_wrapping() {
    let mut progress = ListProgress::new();
    let huge = ListPage { item_count: usize::MAX, truncated: true, next_token: None };
    progress.absorb_page(&huge);
    progress.absorb_page(&huge);
    assert_eq!(progress.total_items, u64::MAX);
}

#[test]
fn configuration_validity() {
    let good = BenchmarkConfig {
        duration_micros: 60_000_000,
        concurrency: 10,
        prefix: "test-object/".to_string(),
        object_size: 1_048_576,
        part_size: 8_388_608,
        disable_multipart: false,
        range_bytes: None,
    };
    assert!(good.validate());

    let no_slots = BenchmarkConfig { concurrency: 0, ..good };
    assert!(!no_slots.validate());
}
