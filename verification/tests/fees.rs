use bigneon_core::errors::ErrorCode;
use bigneon_core::fees::{FeeSchedule, FeeScheduleRange, NewFeeScheduleRange};

fn sample_schedule() -> FeeSchedule {
    FeeSchedule {
        id: 1,
        name: "Standard".to_string(),
        version: 0,
        ranges: vec![
            FeeScheduleRange {
                min_price: 0,
                fee_in_cents: 100,
            },
            FeeScheduleRange {
                min_price: 1000,
                fee_in_cents: 200,
            },
            FeeScheduleRange {
                min_price: 5000,
                fee_in_cents: 350,
            },
        ],
    }
}

#[test]
fn get_range_picks_the_last_applicable_range() {
    let schedule = sample_schedule();
    assert_eq!(schedule.get_range(0).unwrap().fee_in_cents, 100);
    assert_eq!(schedule.get_range(999).unwrap().fee_in_cents, 100);
    assert_eq!(schedule.get_range(1000).unwrap().fee_in_cents, 200);
    assert_eq!(schedule.get_range(4999).unwrap().fee_in_cents, 200);
    assert_eq!(schedule.get_range(5000).unwrap().fee_in_cents, 350);
    assert_eq!(schedule.get_range(1_000_000).unwrap().fee_in_cents, 350);
    assert!(schedule.get_range(-1).is_none());
}

#[test]
fn get_range_of_empty_schedule_is_none() {
    let schedule = FeeSchedule {
        id: 1,
        name: "Empty".to_string(),
        version: 0,
        ranges: Vec::new(),
    };
    assert!(schedule.get_range(100).is_none());
}

#[test]
fn commit_versions_schedules_by_name() {
    let mut store = Vec::new();
    let ranges = vec![NewFeeScheduleRange {
        min_price: 0,
        fee_in_cents: 100,
    }];

    let first = FeeSchedule::create("Standard".to_string(), ranges.clone())
        .commit(1, &mut store)
        .unwrap();
    assert_eq!(first.version, 0);
    assert_eq!(first.ranges.len(), 1);
    assert_eq!(first.ranges[0].min_price, 0);
    assert_eq!(first.ranges[0].fee_in_cents, 100);

    let second = FeeSchedule::create("Standard".to_string(), ranges.clone())
        .commit(2, &mut store)
        .unwrap();
    assert_eq!(second.version, 1);

    // A fresh name starts over at version zero.
    let other = FeeSchedule::create("Premium".to_string(), ranges.clone())
        .commit(3, &mut store)
        .unwrap();
    assert_eq!(other.version, 0);

    let third = FeeSchedule::create("Standard".to_string(), ranges)
        .commit(4, &mut store)
        .unwrap();
    assert_eq!(third.version, 2);
}

#[test]
fn fee_commit_rejects_a_taken_id() {
    let mut store = Vec::new();
    let ranges = vec![NewFeeScheduleRange {
        min_price: 0,
        fee_in_cents: 100,
    }];
    FeeSchedule::create("Standard".to_string(), ranges.clone())
        .commit(1, &mut store)
        .unwrap();
    let error = FeeSchedule::create("Premium".to_string(), ranges)
        .commit(1, &mut store)
        .unwrap_err();
    assert!(matches!(error.error_code, ErrorCode::InsertError));
}

#[test]
fn find_fee_schedule_by_id() {
    let mut store = Vec::new();
    let ranges = vec![NewFeeScheduleRange {
        min_price: 0,
        fee_in_cents: 100,
    }];
    FeeSchedule::create("Standard".to_string(), ranges)
        .commit(7, &mut store)
        .unwrap();
    let found = FeeSchedule::find(&store, 7).unwrap();
    assert_eq!(found.id, 7);
    assert_eq!(found.name, "Standard");
    let missing = FeeSchedule::find(&store, 8).unwrap_err();
    assert!(matches!(missing.error_code, ErrorCode::NoResults));
}
