use bracket_relay::errors::{error_status, require_token, FetchError};
use bracket_relay::groups::{enumerate_groups, EnumerationOutcome};
use bracket_relay::set_details::{extract_set, SetFull, SetFullData, SetFullResponse};
use bracket_relay::tournaments::{shape_tournament, TournamentId, TournamentInfo};

fn sample_set(id: u64) -> SetFull {
    SetFull {
        id,
        display_score: Some("2-1".to_string()),
        full_round_text: Some("Winners Final".to_string()),
        start_at: Some(1_700_000_000),
        completed_at: None,
        round: Some(4),
        total_games: Some(3),
        phase_group: None,
        slots: None,
    }
}

#[test]
fn missing_parent_is_not_found_not_empty() {
    // A parent whose sub-collection field is absent upstream does not
    // exist: the enumerator answers NotFound, never an empty list.
    let r = enumerate_groups(EnumerationOutcome::Nodes(None));
    assert_eq!(r, Err(FetchError::NotFound));
}

#[test]
fn enumeration_failures_carry_their_kind() {
    assert_eq!(
        enumerate_groups(EnumerationOutcome::TransportFailure),
        Err(FetchError::UpstreamUnavailable)
    );
    assert_eq!(
        enumerate_groups(EnumerationOutcome::MalformedResponse),
        Err(FetchError::UpstreamMalformed)
    );
}

#[test]
fn missing_token_fails_fast() {
    assert_eq!(require_token(None), Err(FetchError::ConfigMissing));
    assert_eq!(
        require_token(Some("a-token".to_string())),
        Ok("a-token".to_string())
    );
}

#[test]
fn error_statuses() {
    assert_eq!(error_status(&FetchError::NotFound), 404);
    assert_eq!(error_status(&FetchError::UpstreamUnavailable), 500);
    assert_eq!(error_status(&FetchError::UpstreamMalformed), 500);
    assert_eq!(error_status(&FetchError::ConfigMissing), 500);
}

#[test]
fn extract_set_finds_a_carried_set() {
    let resp = SetFullResponse {
        data: Some(SetFullData { set: Some(sample_set(42)) }),
    };
    let found = extract_set(resp).expect("a carried set is found");
    assert_eq!(found, sample_set(42));
}

#[test]
fn extract_set_absent_data_or_set_is_none() {
    assert_eq!(extract_set(SetFullResponse { data: None }), None);
    assert_eq!(
        extract_set(SetFullResponse { data: Some(SetFullData { set: None }) }),
        None
    );
}

#[test]
fn shape_tournament_fills_defaults() {
    let shaped = shape_tournament(Some(TournamentInfo {
        id: None,
        name: None,
        start_at: None,
    }))
    .expect("a found tournament shapes fine");
    assert_eq!(shaped.id, TournamentId::Num(0));
    assert_eq!(shaped.name, "");
    assert_eq!(shaped.start_at, None);
}

#[test]
fn shape_tournament_keeps_fields() {
    let shaped = shape_tournament(Some(TournamentInfo {
        id: Some(TournamentId::Num(9087)),
        name: Some("Genesis".to_string()),
        start_at: Some(1_700_000_000),
    }))
    .expect("a found tournament shapes fine");
    assert_eq!(shaped.id, TournamentId::Num(9087));
    assert_eq!(shaped.name, "Genesis");
    assert_eq!(shaped.start_at, Some(1_700_000_000));
}

#[test]
fn shape_tournament_absent_is_not_found() {
    assert_eq!(shape_tournament(None), Err(FetchError::NotFound));
}
