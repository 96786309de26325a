//! The stream queue of a tournament, as the upstream answers a stream
//! queue query. The relay forwards this answer as it stands.

use vstd::prelude::*;

verus! {

/// The whole answer of a stream queue query: the `data` envelope and the
/// upstream's error list, each raw error kept as its text.
#[derive(Debug, PartialEq, Eq)]
pub struct StreamQueueResponse {
    pub data: Option<TournamentData>,
    pub errors: Option<Vec<String>>,
}

/// The `data` envelope of a stream queue query.
#[derive(Debug, PartialEq, Eq)]
pub struct TournamentData {
    pub tournament: Option<Tournament>,
}

/// A tournament and its stream queue.
#[derive(Debug, PartialEq, Eq)]
pub struct Tournament {
    pub id: u64,
    pub stream_queue: Option<Vec<StreamEntry>>,
}

/// One entry of the stream queue: a stream and the sets queued on it.
#[derive(Debug, PartialEq, Eq)]
pub struct StreamEntry {
    pub stream: StreamInfo,
    pub sets: Option<Vec<SetInfo>>,
}

/// Where a stream lives and under which name.
#[derive(Debug, PartialEq, Eq)]
pub struct StreamInfo {
    pub stream_source: String,
    pub stream_name: String,
}

/// A set queued on a stream, by id.
#[derive(Debug, PartialEq, Eq)]
pub struct SetInfo {
    pub id: u64,
}

} // verus!
