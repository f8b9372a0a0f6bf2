use bigneon_core::events::unique_venue_ids;
use bigneon_core::numbers::{i64_to_string, u128_to_string};
use bigneon_core::paging::{GuestListQueryParameters, Payload, SearchParameters, SortingDir};
use bigneon_core::venues::{Venue, VenueEditableAttributes};

fn clone_venues(venues: &[Venue]) -> Vec<Venue> {
    venues
        .iter()
        .map(|v| venue(v.id, &v.name, v.organization_id, v.is_private))
        .collect()
}

fn venue(id: u128, name: &str, organization_id: Option<u128>, is_private: bool) -> Venue {
    Venue {
        id,
        region_id: None,
        organization_id,
        is_private,
        name: name.to_string(),
        address: None,
        city: None,
        state: None,
        country: None,
        postal_code: None,
        phone: None,
    }
}

#[test]
fn venue_listing_filters_private_venues_and_sorts_by_name() {
    let venues = vec![
        venue(1, "Zanzibar", Some(50), false),
        venue(2, "Arena", Some(50), true),
        venue(3, "Mezzanine", None, false),
        venue(4, "Backstage", Some(51), true),
    ];

    // Anonymous viewers see only public venues, ordered by name.
    let listed = Venue::all(None, clone_venues(&venues));
    let names: Vec<&str> = listed.iter().map(|v| v.name.as_str()).collect();
    assert_eq!(names, vec!["Mezzanine", "Zanzibar"]);

    // A member of organization 50 also sees its private venue.
    let member_orgs = vec![50u128];
    let listed = Venue::all(Some(&member_orgs), clone_venues(&venues));
    let names: Vec<&str> = listed.iter().map(|v| v.name.as_str()).collect();
    assert_eq!(names, vec!["Arena", "Mezzanine", "Zanzibar"]);
}

#[test]
fn organization_venue_listing_is_scoped() {
    let venues = vec![
        venue(1, "Zanzibar", Some(50), false),
        venue(2, "Arena", Some(50), true),
        venue(3, "Mezzanine", None, false),
        venue(4, "Backstage", Some(51), true),
    ];
    let member_orgs = vec![50u128];
    let listed = Venue::find_for_organization(Some(&member_orgs), 50, clone_venues(&venues));
    let names: Vec<&str> = listed.iter().map(|v| v.name.as_str()).collect();
    assert_eq!(names, vec!["Arena", "Zanzibar"]);

    let listed = Venue::find_for_organization(None, 50, clone_venues(&venues));
    let names: Vec<&str> = listed.iter().map(|v| v.name.as_str()).collect();
    assert_eq!(names, vec!["Zanzibar"]);
}

#[test]
fn venue_updates_and_privacy() {
    let original = venue(1, "Arena", Some(50), false);
    let mut attributes = VenueEditableAttributes::default();
    attributes.name = Some("Grand Arena".to_string());
    attributes.city = Some("Cape Town".to_string());
    let updated = original.update(&attributes);
    assert_eq!(updated.name, "Grand Arena");
    assert_eq!(updated.city.as_deref(), Some("Cape Town"));
    assert_eq!(updated.id, original.id);
    assert_eq!(updated.organization_id, original.organization_id);

    let private = original.set_privacy(true);
    assert!(private.is_private);
    let moved = original.add_to_organization(51);
    assert_eq!(moved.organization_id, Some(51));

    let mut store = Vec::new();
    let stored = Venue::create("Warehouse", None, Some(50))
        .commit(9, &mut store)
        .unwrap();
    assert_eq!(stored.id, 9);
    assert!(!stored.is_private);
    assert_eq!(Venue::find(&store, 9).unwrap().name, "Warehouse");
    assert!(Venue::find(&store, 10).is_err());
}

#[test]
fn search_parameters_echo_as_tags() {
    let parameters = SearchParameters {
        query: Some("jazz".to_string()),
        region_id: Some(12),
        status: vec!["Published".to_string(), "Draft".to_string()],
        start_utc: Some(1_530_850_211),
        end_utc: None,
    };
    let paging = parameters.create_paging_struct();
    assert_eq!(paging.page, 0);
    assert_eq!(paging.limit, 100);
    assert_eq!(paging.sort, "");
    assert_eq!(paging.dir, SortingDir::Unsorted);
    assert_eq!(paging.total, 0);
    let tags: Vec<(&str, Vec<&str>)> = paging
        .tags
        .iter()
        .map(|t| (t.name.as_str(), t.values.iter().map(|v| v.as_str()).collect()))
        .collect();
    assert_eq!(
        tags,
        vec![
            ("query", vec!["jazz"]),
            ("region_id", vec!["12"]),
            ("status", vec!["Published"]),
            ("status", vec!["Draft"]),
            ("start_utc", vec!["1530850211"]),
        ]
    );

    let guest_list = GuestListQueryParameters {
        query: "smith".to_string(),
    };
    let paging = guest_list.create_paging_struct();
    assert_eq!(paging.tags.len(), 1);
    assert_eq!(paging.tags[0].name, "query");
    assert_eq!(paging.tags[0].values, vec!["smith"]);

    let retotaled = paging.clone_with_new_total(42);
    assert_eq!(retotaled.total, 42);
    assert_eq!(retotaled.tags[0].name, "query");
}

#[test]
fn decimal_forms_of_ids_and_timestamps() {
    assert_eq!(u128_to_string(0), "0");
    assert_eq!(u128_to_string(7), "7");
    assert_eq!(u128_to_string(1530850211), "1530850211");
    assert_eq!(
        u128_to_string(u128::MAX),
        "340282366920938463463374607431768211455"
    );
    assert_eq!(i64_to_string(0), "0");
    assert_eq!(i64_to_string(-1), "-1");
    assert_eq!(i64_to_string(i64::MIN), "-9223372036854775808");
    assert_eq!(i64_to_string(i64::MAX), "9223372036854775807");
}

#[test]
fn payload_wraps_a_page_of_data() {
    let payload = Payload::from_data(vec![1u32, 2, 3], 2, 10);
    assert_eq!(payload.data, vec![1, 2, 3]);
    assert_eq!(payload.paging.page, 2);
    assert_eq!(payload.paging.limit, 10);
    assert_eq!(payload.paging.total, 3);
    assert!(payload.paging.tags.is_empty());
}

#[test]
fn venue_ids_of_a_listing_are_sorted_and_distinct() {
    let ids = vec![Some(5u128), None, Some(2), Some(5), Some(9), None, Some(2)];
    assert_eq!(unique_venue_ids(&ids), vec![2, 5, 9]);
    assert_eq!(unique_venue_ids(&vec![]), Vec::<u128>::new());
    assert_eq!(unique_venue_ids(&vec![None, None]), Vec::<u128>::new());
}
