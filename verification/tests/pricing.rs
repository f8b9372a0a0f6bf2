use bigneon_core::dates::date_time_seconds;
use bigneon_core::errors::ErrorCode;
use bigneon_core::overlaps;
use bigneon_core::pricing::{
    PricingSchedule, TicketPricing, TicketPricingStatus,
};

fn seconds(year: i32, month: u32, day: u32, hour: u32, minute: u32, second: u32) -> i64 {
    date_time_seconds(year, month, day, hour, minute, second).unwrap()
}

fn period(id: u128, start_date: i64, end_date: i64) -> TicketPricing {
    TicketPricing {
        id,
        ticket_type_id: 1,
        name: format!("period {}", id),
        status: TicketPricingStatus::Published,
        price_in_cents: 10000,
        start_date,
        end_date,
    }
}

#[test]
fn overlaps_matches_half_open_interval_formula() {
    let cases = [
        (0i64, 10i64, 10i64, 20i64),
        (0, 10, 9, 12),
        (5, 6, 5, 6),
        (0, 100, 20, 30),
        (20, 30, 0, 100),
        (0, 10, 20, 30),
    ];
    for (a_start, a_end, b_start, b_end) in cases {
        let a = period(1, a_start, a_end);
        let b = period(2, b_start, b_end);
        let expected = a_start < b_end && b_start < a_end;
        assert_eq!(overlaps(&a, &b), expected);
        // Symmetry.
        assert_eq!(overlaps(&a, &b), overlaps(&b, &a));
    }
}

#[test]
fn touching_periods_do_not_overlap() {
    // Half-open semantics: a period ending exactly when the next starts is
    // no overlap.
    let a = period(1, seconds(2018, 5, 1, 6, 20, 21), seconds(2018, 6, 2, 7, 45, 31));
    let b = period(2, seconds(2018, 6, 2, 7, 45, 31), seconds(2018, 7, 3, 9, 23, 23));
    assert!(!overlaps(&a, &b));
    assert!(!overlaps(&b, &a));
}

#[test]
fn inserting_touching_periods_succeeds() {
    let mut schedule = PricingSchedule::new(1);
    let start_date = seconds(2018, 5, 1, 6, 20, 21);
    let middle_date = seconds(2018, 6, 2, 7, 45, 31);
    let end_date = seconds(2018, 7, 3, 9, 23, 23);
    let first = TicketPricing::create(1, "Early bird".to_string(), start_date, middle_date, 10000);
    let second = TicketPricing::create(1, "Base".to_string(), middle_date, end_date, 20000);
    assert!(schedule.insert_validated(first, 11).is_ok());
    assert!(schedule.insert_validated(second, 12).is_ok());
    assert_eq!(schedule.periods.len(), 2);
}

#[test]
fn inserting_overlapping_period_fails_validation() {
    let mut schedule = PricingSchedule::new(1);
    let first = TicketPricing::create(
        1,
        "Early Bird".to_string(),
        seconds(2016, 7, 6, 4, 10, 11),
        seconds(2016, 7, 10, 4, 10, 11),
        100,
    );
    assert!(schedule.insert_validated(first, 11).is_ok());
    let second = TicketPricing::create(
        1,
        "Regular".to_string(),
        seconds(2016, 7, 7, 4, 10, 11),
        seconds(2016, 7, 11, 4, 10, 11),
        100,
    );
    let error = schedule.insert_validated(second, 12).unwrap_err();
    match &error.error_code {
        ErrorCode::ValidationError { errors } => {
            assert_eq!(errors.len(), 1);
            assert_eq!(errors[0].field, "ticket_pricing");
            assert_eq!(errors[0].errors.len(), 1);
            assert_eq!(errors[0].errors[0].code, "ticket_pricing_overlapping_periods");
            assert_eq!(errors[0].errors[0].period_id, 12);
            assert_eq!(errors[0].errors[0].start_date, seconds(2016, 7, 7, 4, 10, 11));
            assert_eq!(errors[0].errors[0].end_date, seconds(2016, 7, 11, 4, 10, 11));
        }
        _ => panic!("Expected validation error"),
    }
    // The schedule is unchanged.
    assert_eq!(schedule.periods.len(), 1);
}

#[test]
fn no_overlapping_periods_excludes_the_period_itself() {
    let mut schedule = PricingSchedule::new(1);
    let first = TicketPricing::create(1, "Early Bird".to_string(), 100, 200, 100);
    assert!(schedule.insert_validated(first, 11).is_ok());
    // Re-validating the period's own window under its own id succeeds.
    assert!(TicketPricing::ticket_pricing_no_overlapping_periods(
        &schedule.periods,
        11,
        1,
        100,
        200
    )
    .is_ok());
    // Another id conflicts with it.
    assert!(TicketPricing::ticket_pricing_no_overlapping_periods(
        &schedule.periods,
        12,
        1,
        150,
        250
    )
    .is_err());
}

#[test]
fn current_ticket_pricing_picks_the_active_period() {
    let mut schedule = PricingSchedule::new(1);
    let early = TicketPricing::create(1, "Early".to_string(), 100, 200, 1000);
    let base = TicketPricing::create(1, "Base".to_string(), 200, 300, 2000);
    schedule.insert_validated(early, 11).unwrap();
    schedule.insert_validated(base, 12).unwrap();

    let current = schedule.get_current_ticket_pricing(150).unwrap();
    assert_eq!(current.id, 11);
    assert_eq!(current.price_in_cents, 1000);

    // The boundary belongs to the next period: half-open windows.
    let current = schedule.get_current_ticket_pricing(200).unwrap();
    assert_eq!(current.id, 12);
    assert_eq!(current.price_in_cents, 2000);
}

#[test]
fn current_ticket_pricing_without_active_period_reports_no_results() {
    let mut schedule = PricingSchedule::new(1);
    let early = TicketPricing::create(1, "Early".to_string(), 100, 200, 1000);
    schedule.insert_validated(early, 11).unwrap();
    let error = schedule.get_current_ticket_pricing(250).unwrap_err();
    assert!(matches!(error.error_code, ErrorCode::NoResults));
}

#[test]
fn current_ticket_pricing_with_overlap_reports_integrity_fault() {
    let mut schedule = PricingSchedule::new(1);
    // Committing without validation can store overlapping periods; lookup
    // then reports the data-integrity fault.
    TicketPricing::create(1, "Early".to_string(), 100, 200, 1000)
        .commit(11, &mut schedule)
        .unwrap();
    TicketPricing::create(1, "Base".to_string(), 150, 250, 2000)
        .commit(12, &mut schedule)
        .unwrap();
    let error = schedule.get_current_ticket_pricing(160).unwrap_err();
    assert!(matches!(
        error.error_code,
        ErrorCode::MultipleResultsWhenOneExpected
    ));
}

#[test]
fn deleted_periods_take_no_part_in_validation_or_lookup() {
    let mut schedule = PricingSchedule::new(1);
    TicketPricing::create(1, "Early".to_string(), 100, 200, 1000)
        .commit(11, &mut schedule)
        .unwrap();
    // Soft-delete: the period is referenced by an order item.
    assert_eq!(schedule.destroy(11, 3).unwrap(), 0);
    let found = schedule.find(11).unwrap();
    assert_eq!(found.status, TicketPricingStatus::Deleted);
    // The deleted period no longer blocks an overlapping insertion...
    let replacement = TicketPricing::create(1, "Base".to_string(), 150, 250, 2000);
    assert!(schedule.insert_validated(replacement, 12).is_ok());
    // ...and no longer answers price lookups.
    let current = schedule.get_current_ticket_pricing(180).unwrap();
    assert_eq!(current.id, 12);
}

#[test]
fn destroy_removes_unreferenced_periods() {
    let mut schedule = PricingSchedule::new(1);
    TicketPricing::create(1, "Early".to_string(), 100, 200, 1000)
        .commit(11, &mut schedule)
        .unwrap();
    // Hard delete: nothing references the period.
    assert_eq!(schedule.destroy(11, 0).unwrap(), 1);
    assert!(schedule.find(11).is_err());
    assert_eq!(schedule.periods.len(), 0);
    // Destroying a missing period reports not found.
    let error = schedule.destroy(11, 0).unwrap_err();
    assert!(matches!(error.error_code, ErrorCode::NoResults));
}

#[test]
fn commit_rejects_a_taken_id() {
    let mut schedule = PricingSchedule::new(1);
    TicketPricing::create(1, "Early".to_string(), 100, 200, 1000)
        .commit(11, &mut schedule)
        .unwrap();
    let error = TicketPricing::create(1, "Base".to_string(), 300, 400, 2000)
        .commit(11, &mut schedule)
        .unwrap_err();
    assert!(matches!(error.error_code, ErrorCode::InsertError));
}

#[test]
fn update_period_applies_attributes() {
    let mut schedule = PricingSchedule::new(1);
    TicketPricing::create(1, "Early".to_string(), 100, 200, 1000)
        .commit(11, &mut schedule)
        .unwrap();
    let mut attributes = bigneon_core::pricing::TicketPricingEditableAttributes::new();
    attributes.name = Some("Late".to_string());
    attributes.price_in_cents = Some(1500);
    let updated = schedule.update_period(11, &attributes).unwrap();
    assert_eq!(updated.name, "Late");
    assert_eq!(updated.price_in_cents, 1500);
    assert_eq!(updated.start_date, 100);
    assert_eq!(updated.end_date, 200);
    assert_eq!(schedule.find(11).unwrap().price_in_cents, 1500);
}
