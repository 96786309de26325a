use bracket_relay::errors::FetchError;
use bracket_relay::groups::{enumerate_groups, EnumerationOutcome, PhaseGroupRef};
use bracket_relay::records::{BracketEntrant, BracketSlot, ProgressionSource, SetRecord};
use bracket_relay::walker::{walk_all_groups, PageOutcome, Walk, WalkAction};

fn record(id: u64) -> SetRecord {
    SetRecord {
        id,
        round: 1,
        full_round_text: None,
        winner_id: None,
        display_score: None,
        slots: None,
        start_at: None,
        vod_url: None,
        total_games: None,
        entrant1_source: None,
        entrant2_source: None,
    }
}

fn detailed_record(id: u64) -> SetRecord {
    SetRecord {
        id,
        round: -3,
        full_round_text: Some("Losers Quarter-Final".to_string()),
        winner_id: Some(77),
        display_score: Some("3-1".to_string()),
        slots: Some(vec![
            BracketSlot {
                entrant: Some(BracketEntrant { id: 77, name: Some("Alpha".to_string()) }),
            },
            BracketSlot { entrant: None },
        ]),
        start_at: Some(1_700_000_000),
        vod_url: Some("https://example.invalid/vod".to_string()),
        total_games: Some(4),
        entrant1_source: Some(ProgressionSource {
            source_type: Some("winner".to_string()),
            type_id: Some(900),
        }),
        entrant2_source: None,
    }
}

fn group(id: u64, label: &str) -> PhaseGroupRef {
    PhaseGroupRef {
        id,
        display_identifier: label.to_string(),
    }
}

fn records(ids: std::ops::Range<u64>) -> Vec<SetRecord> {
    ids.map(record).collect()
}

#[test]
fn pool_a_120_items_three_pages() {
    // pageSize 50, one group "Pool A" with 120 items: pages of 50, 50, 20.
    let groups = vec![group(101, "Pool A")];
    let fixture = vec![records(0..120)];
    let (merged, counts) = walk_all_groups(groups, fixture, 50);
    assert_eq!(counts, vec![3]);
    assert_eq!(merged.len(), 120);
    for (i, item) in merged.iter().enumerate() {
        assert_eq!(item.record.id, i as u64);
        assert_eq!(item.phase_group_id, 101);
        assert_eq!(item.display_identifier, "Pool A");
    }
}

#[test]
fn exact_multiple_costs_one_extra_request() {
    // 100 items at pageSize 50: two full pages, then one empty page.
    let groups = vec![group(1, "A")];
    let fixture = vec![records(0..100)];
    let (merged, counts) = walk_all_groups(groups, fixture, 50);
    assert_eq!(counts, vec![3]);
    assert_eq!(merged.len(), 100);
}

#[test]
fn empty_group_costs_one_request() {
    // 0 items is a multiple of the page size: one request, zero items.
    let groups = vec![group(1, "A")];
    let fixture = vec![Vec::new()];
    let (merged, counts) = walk_all_groups(groups, fixture, 50);
    assert_eq!(counts, vec![1]);
    assert!(merged.is_empty());
}

#[test]
fn short_page_counts() {
    // Sizes that are no multiple of the page size stop on the first
    // short page: ceil(count / pageSize) requests.
    for (count, expected) in [(1u64, 1usize), (49, 1), (51, 2), (120, 3)] {
        let groups = vec![group(1, "A")];
        let fixture = vec![records(0..count)];
        let (merged, counts) = walk_all_groups(groups, fixture, 50);
        assert_eq!(counts, vec![expected]);
        assert_eq!(merged.len(), count as usize);
    }
}

#[test]
fn zero_groups_empty_result_not_error() {
    // A parent with zero sub-collections aggregates to nothing, without
    // an error anywhere on the way.
    let listed = enumerate_groups(EnumerationOutcome::Nodes(Some(Vec::new())));
    let groups = listed.expect("zero groups is not an error");
    assert!(groups.is_empty());
    let (merged, counts) = walk_all_groups(groups, Vec::new(), 50);
    assert!(merged.is_empty());
    assert!(counts.is_empty());
}

#[test]
fn merge_keeps_group_order_and_tags() {
    // Three groups, page size 2, sizes that cross page boundaries: the
    // merged order is group order, then page order, then in-page order,
    // with no item lost or duplicated, each tagged with its own group.
    let groups = vec![group(10, "A1"), group(20, "A2"), group(30, "A3")];
    let fixture = vec![records(0..3), records(100..104), records(200..201)];
    let (merged, counts) = walk_all_groups(groups, fixture, 2);
    assert_eq!(counts, vec![2, 3, 1]);
    let expected_ids: Vec<u64> = (0..3).chain(100..104).chain(200..201).collect();
    let expected_tags: Vec<(u64, &str)> = [(10, "A1"); 3]
        .into_iter()
        .chain([(20, "A2"); 4])
        .chain([(30, "A3"); 1])
        .collect();
    assert_eq!(merged.len(), expected_ids.len());
    for (item, (id, (tag_id, tag_label))) in merged
        .iter()
        .zip(expected_ids.iter().zip(expected_tags.iter()))
    {
        assert_eq!(item.record.id, *id);
        assert_eq!(item.phase_group_id, *tag_id);
        assert_eq!(item.display_identifier, *tag_label);
    }
}

#[test]
fn slots_and_sources_ride_through_unchanged() {
    // Participant slots and progression links are part of the record and
    // come out of the merge exactly as they went in.
    let groups = vec![group(4, "Top 8")];
    let fixture = vec![vec![detailed_record(900), record(901)]];
    let (merged, counts) = walk_all_groups(groups, fixture, 50);
    assert_eq!(counts, vec![1]);
    assert_eq!(merged.len(), 2);
    assert_eq!(merged[0].record, detailed_record(900));
    assert_eq!(merged[1].record, record(901));
    assert_eq!(merged[0].phase_group_id, 4);
    assert_eq!(merged[0].display_identifier, "Top 8");
}

#[test]
fn transport_failure_mid_walk_aborts_everything() {
    // Three groups; group 1 walks fine, then a transport failure on
    // group 2 aborts the whole aggregation: the caller gets an error,
    // not a partial result with group 1's items.
    let groups = vec![group(1, "A"), group(2, "B"), group(3, "C")];
    let w = Walk::new(groups, 50);
    let w = w
        .apply(PageOutcome::Page(records(0..10)))
        .expect("a decoded page never aborts");
    assert_eq!(w.group_index, 1);
    assert_eq!(w.merged.len(), 10);
    let outcome: Result<Walk, FetchError> = w.apply(PageOutcome::TransportFailure);
    match outcome {
        Err(e) => assert_eq!(e, FetchError::UpstreamUnavailable),
        Ok(_) => panic!("a transport failure must abort the walk"),
    }
}

#[test]
fn malformed_response_aborts_with_its_own_kind() {
    let groups = vec![group(1, "A")];
    let w = Walk::new(groups, 50);
    let outcome = w.apply(PageOutcome::MalformedResponse);
    assert_eq!(outcome.err(), Some(FetchError::UpstreamMalformed));
}

#[test]
fn walk_asks_for_pages_in_order() {
    // A full page keeps the walk in the same group at the next page; a
    // short page moves it to the next group at page 1.
    let groups = vec![group(5, "A"), group(6, "B")];
    let w = Walk::new(groups, 2);
    assert_eq!(
        w.next_action(),
        WalkAction::Request { group_id: 5, page: 1, per_page: 2 }
    );
    let w = w.apply(PageOutcome::Page(records(0..2))).unwrap();
    assert_eq!(
        w.next_action(),
        WalkAction::Request { group_id: 5, page: 2, per_page: 2 }
    );
    let w = w.apply(PageOutcome::Page(records(2..3))).unwrap();
    assert_eq!(
        w.next_action(),
        WalkAction::Request { group_id: 6, page: 1, per_page: 2 }
    );
    let w = w.apply(PageOutcome::Page(Vec::new())).unwrap();
    assert_eq!(w.next_action(), WalkAction::Finished);
    let merged = w.finish();
    assert_eq!(merged.len(), 3);
    assert_eq!(merged[2].phase_group_id, 5);
}
