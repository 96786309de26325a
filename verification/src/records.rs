//! The records that flow through the paginated aggregation: the raw set
//! record a page carries, and the same record tagged with the phase group
//! it was fetched under.

use vstd::prelude::*;

verus! {

/// An entrant as a bracket page names it: its id and display name.
#[derive(Debug, PartialEq, Eq)]
pub struct BracketEntrant {
    pub id: u64,
    pub name: Option<String>,
}

/// One participant slot of a bracket set; a bye or a not-yet-decided
/// slot carries no entrant.
#[derive(Debug, PartialEq, Eq)]
pub struct BracketSlot {
    pub entrant: Option<BracketEntrant>,
}

/// A progression link of a set: where one of its entrants comes from.
#[derive(Debug, PartialEq, Eq)]
pub struct ProgressionSource {
    pub source_type: Option<String>,
    pub type_id: Option<u64>,
}

/// One set (match) as a bracket page returns it, participant slots and
/// progression links included. The aggregation never inspects these
/// fields; it only carries them through and tags them.
#[derive(Debug, PartialEq, Eq)]
pub struct SetRecord {
    pub id: u64,
    pub round: i64,
    pub full_round_text: Option<String>,
    pub winner_id: Option<u64>,
    pub display_score: Option<String>,
    pub slots: Option<Vec<BracketSlot>>,
    pub start_at: Option<u64>,
    pub vod_url: Option<String>,
    pub total_games: Option<u64>,
    pub entrant1_source: Option<ProgressionSource>,
    pub entrant2_source: Option<ProgressionSource>,
}

/// A set record after merging: the same record plus a back-reference to
/// the phase group it belongs to.
#[derive(Debug, PartialEq, Eq)]
pub struct TaggedSet {
    pub phase_group_id: u64,
    pub display_identifier: String,
    pub record: SetRecord,
}

} // verus!
