//! The full-detail view of one set, as the upstream answers a single-set
//! query, and the decision that turns the decoded answer into a result.

use vstd::prelude::*;

verus! {

/// The whole answer of a single-set query.
#[derive(Debug, PartialEq, Eq)]
pub struct SetFullResponse {
    pub data: Option<SetFullData>,
}

/// The `data` envelope of a single-set query.
#[derive(Debug, PartialEq, Eq)]
pub struct SetFullData {
    pub set: Option<SetFull>,
}

/// One set with every detail the relay exposes.
#[derive(Debug, PartialEq, Eq)]
pub struct SetFull {
    pub id: u64,
    pub display_score: Option<String>,
    pub full_round_text: Option<String>,
    pub start_at: Option<u64>,
    pub completed_at: Option<u64>,
    pub round: Option<i32>,
    pub total_games: Option<u64>,
    pub phase_group: Option<PhaseGroup>,
    pub slots: Option<Vec<SetSlot>>,
}

/// The phase group a set belongs to.
#[derive(Debug, PartialEq, Eq)]
pub struct PhaseGroup {
    pub id: u64,
    pub phase: Option<Phase>,
    pub display_identifier: Option<String>,
}

/// The phase a phase group belongs to.
#[derive(Debug, PartialEq, Eq)]
pub struct Phase {
    pub name: Option<String>,
}

/// One slot of a set: an entrant and its standing, either possibly still
/// unknown.
#[derive(Debug, PartialEq, Eq)]
pub struct SetSlot {
    pub entrant: Option<Entrant>,
    pub standing: Option<Standing>,
}

/// An entrant of a set.
#[derive(Debug, PartialEq, Eq)]
pub struct Entrant {
    pub id: u64,
    pub name: Option<String>,
    pub participants: Option<Vec<Participant>>,
}

/// One player of an entrant.
#[derive(Debug, PartialEq, Eq)]
pub struct Participant {
    pub id: u64,
    pub gamer_tag: Option<String>,
}

/// An entrant's standing within a set.
#[derive(Debug, PartialEq, Eq)]
pub struct Standing {
    pub placement: Option<u64>,
    pub stats: Option<StandingStats>,
}

/// The statistics of a standing.
#[derive(Debug, PartialEq, Eq)]
pub struct StandingStats {
    pub score: Option<ScoreValue>,
}

/// A score as the upstream reports it: a label and a numeric value.
#[derive(Debug, PartialEq, Eq)]
pub struct ScoreValue {
    pub label: Option<String>,
    pub value: Option<u64>,
}

/// The decision after a single-set query has been decoded: a set is found
/// exactly when the answer carries one; an answer whose `data` or `set`
/// field is absent means the set does not exist upstream.
pub fn extract_set(resp: SetFullResponse) -> (r: Option<SetFull>)
    ensures
        resp matches (SetFullResponse { data: Some(SetFullData { set: Some(s) }) }) ==> r
            == Some(s),
        !(resp matches SetFullResponse { data: Some(SetFullData { set: Some(_) }) }) ==> r
            is None,
{
    match resp.data {
        Some(d) => d.set,
        None => None,
    }
}

} // verus!
