use bigneon_core::dates::date_time_seconds;
use bigneon_core::errors::ErrorCode;
use bigneon_core::inventory::InventoryLedger;
use bigneon_core::pricing::{PricingSchedule, TicketPricing, TicketPricingEditableAttributes};
use bigneon_core::ticket_types::{Event, TicketType, TicketTypeEditableAttributes};

fn seconds(year: i32, month: u32, day: u32, hour: u32, minute: u32, second: u32) -> i64 {
    date_time_seconds(year, month, day, hour, minute, second).unwrap()
}

#[test]
fn create() {
    let mut event = Event::new(10, 20, "NewEvent".to_string());
    let sd = seconds(2016, 7, 8, 4, 10, 11);
    let ed = seconds(2016, 7, 9, 4, 10, 11);
    let ticket_type = event
        .add_ticket_type("VIP".to_string(), 100, sd, ed, 1)
        .unwrap();

    assert_eq!(ticket_type.event_id, event.id);
    assert_eq!(ticket_type.name, "VIP".to_string())
}

#[test]
fn create_large_amount() {
    let mut event = Event::new(10, 20, "NewEvent".to_string());
    let sd = seconds(2016, 7, 8, 4, 10, 11);
    let ed = seconds(2016, 7, 9, 4, 10, 11);
    let ticket_type = event
        .add_ticket_type("VIP".to_string(), 100_000, sd, ed, 1)
        .unwrap();

    assert_eq!(ticket_type.event_id, event.id);
    assert_eq!(ticket_type.name, "VIP".to_string())
}

#[test]
fn validate_record() {
    let mut event = Event::new(10, 20, "NewEvent".to_string());
    let tt_start = seconds(2016, 7, 1, 0, 0, 0);
    let tt_end = seconds(2016, 7, 31, 0, 0, 0);
    let ticket_type = event
        .add_ticket_type("General".to_string(), 100, tt_start, tt_end, 1)
        .unwrap();
    let mut schedule = PricingSchedule::new(ticket_type.id);

    let start_date1 = seconds(2016, 7, 6, 4, 10, 11);
    let end_date1 = seconds(2016, 7, 10, 4, 10, 11);
    let start_date2 = seconds(2016, 7, 7, 4, 10, 11);
    let end_date2 = seconds(2016, 7, 11, 4, 10, 11);
    TicketPricing::create(
        ticket_type.id,
        "Early Bird".to_string(),
        start_date1,
        end_date1,
        100,
    )
    .commit(101, &mut schedule)
    .unwrap();
    let ticket_pricing = TicketPricing::create(
        ticket_type.id,
        "Regular".to_string(),
        start_date2,
        end_date2,
        100,
    )
    .commit(102, &mut schedule)
    .unwrap();
    let mut ticket_pricing_parameters = TicketPricingEditableAttributes::new();

    // Overlapping periods: both offenders are reported.
    let validation_results = ticket_type.validate_record(&schedule);
    assert!(validation_results.is_err());
    let error = validation_results.unwrap_err();
    match &error.error_code {
        ErrorCode::ValidationError { errors } => {
            assert_eq!(errors.len(), 1);
            assert_eq!(errors[0].field, "ticket_pricing");
            assert_eq!(errors[0].errors.len(), 2);
            assert_eq!(
                errors[0].errors[0].code,
                "ticket_pricing_overlapping_periods"
            );
            assert_eq!(errors[0].errors[0].period_id, 101);
            assert_eq!(errors[0].errors[1].period_id, 102);
        }
        _ => panic!("Expected validation error"),
    }

    // Period adjusted to not overlap (after existing record).
    ticket_pricing_parameters.start_date = Some(end_date1);
    ticket_pricing_parameters.end_date = Some(seconds(2016, 7, 15, 4, 10, 11));
    let result = schedule.update_period(ticket_pricing.id, &ticket_pricing_parameters);
    assert!(result.is_ok());
    let validation_results = ticket_type.validate_record(&schedule);
    assert!(validation_results.is_ok());

    // Period adjusted to not overlap (prior to existing record).
    ticket_pricing_parameters.start_date = Some(seconds(2016, 7, 4, 4, 10, 11));
    ticket_pricing_parameters.end_date = Some(start_date1);
    let result = schedule.update_period(ticket_pricing.id, &ticket_pricing_parameters);
    assert!(result.is_ok());
    let validation_results = ticket_type.validate_record(&schedule);
    assert!(validation_results.is_ok());
}

#[test]
pub fn remaining_ticket_count() {
    let mut event = Event::new(10, 20, "NewEvent".to_string());
    let tt_start = seconds(2016, 7, 1, 0, 0, 0);
    let tt_end = seconds(2016, 7, 31, 0, 0, 0);
    let ticket_type = event
        .add_ticket_type("General".to_string(), 100, tt_start, tt_end, 1)
        .unwrap();
    let mut ledger = InventoryLedger::new(ticket_type.id, ticket_type.capacity);

    let order_item = ledger.reserve(101, 10, 1001).unwrap();
    assert_eq!(90, ticket_type.remaining_ticket_count(&ledger));

    ledger.reserve(101, 10, 1002).unwrap();
    assert_eq!(80, ticket_type.remaining_ticket_count(&ledger));

    assert!(ledger.release(order_item.id, 4).is_ok());
    assert_eq!(84, ticket_type.remaining_ticket_count(&ledger));
}

#[test]
fn update() {
    let mut event = Event::new(10, 20, "NewEvent".to_string());
    let tt_start = seconds(2016, 7, 1, 0, 0, 0);
    let tt_end = seconds(2016, 7, 31, 0, 0, 0);
    let ticket_type = event
        .add_ticket_type("General".to_string(), 100, tt_start, tt_end, 1)
        .unwrap();
    // Change editable parameters and submit a ticket type update request.
    let update_name = String::from("updated_event_name");
    let update_start_date = seconds(2018, 4, 23, 5, 14, 18);
    let update_end_date = seconds(2018, 6, 1, 8, 5, 34);
    let update_parameters = TicketTypeEditableAttributes {
        name: Some(update_name.clone()),
        start_date: Some(update_start_date),
        end_date: Some(update_end_date),
        ..Default::default()
    };
    let updated_ticket_type = ticket_type.update(update_parameters);
    assert_eq!(updated_ticket_type.id, ticket_type.id);
    assert_eq!(updated_ticket_type.name, update_name);
    assert_eq!(updated_ticket_type.start_date, update_start_date);
    assert_eq!(updated_ticket_type.end_date, update_end_date);
}

#[test]
fn find() {
    let mut event = Event::new(10, 20, "NewEvent".to_string());
    let tt_start = seconds(2016, 7, 1, 0, 0, 0);
    let tt_end = seconds(2016, 7, 31, 0, 0, 0);
    let ticket_type = event
        .add_ticket_type("General".to_string(), 100, tt_start, tt_end, 1)
        .unwrap();

    let found_ticket_type = TicketType::find(event.ticket_types(), ticket_type.id).unwrap();
    assert_eq!(found_ticket_type.id, ticket_type.id);
    assert_eq!(found_ticket_type.name, ticket_type.name);
    assert_eq!(found_ticket_type.event_id, ticket_type.event_id);
    assert_eq!(found_ticket_type.capacity, ticket_type.capacity);
    assert_eq!(found_ticket_type.start_date, ticket_type.start_date);
    assert_eq!(found_ticket_type.end_date, ticket_type.end_date);
}

#[test]
fn find_missing_ticket_type_reports_no_results() {
    let event = Event::new(10, 20, "NewEvent".to_string());
    let result = TicketType::find(event.ticket_types(), 99);
    let error = result.unwrap_err();
    assert!(matches!(error.error_code, ErrorCode::NoResults));
}

#[test]
fn duplicate_ticket_type_id_is_rejected() {
    let mut event = Event::new(10, 20, "NewEvent".to_string());
    let tt_start = seconds(2016, 7, 1, 0, 0, 0);
    let tt_end = seconds(2016, 7, 31, 0, 0, 0);
    event
        .add_ticket_type("General".to_string(), 100, tt_start, tt_end, 1)
        .unwrap();
    let error = event
        .add_ticket_type("VIP".to_string(), 50, tt_start, tt_end, 1)
        .unwrap_err();
    assert!(matches!(error.error_code, ErrorCode::InsertError));
}
