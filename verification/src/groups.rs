//! The group enumerator: the decision the relay takes once the list of
//! phase groups of a phase has been fetched and decoded.

use vstd::prelude::*;
use crate::errors::FetchError;

verus! {

/// One phase group of a phase: its id and its display label, in the order
/// the upstream enumerates them.
#[derive(Debug, PartialEq, Eq)]
pub struct PhaseGroupRef {
    pub id: u64,
    pub display_identifier: String,
}

/// The outcome of the one enumeration request, as the caller hands it
/// back: the decoded phase-group list (absent when the phase itself does
/// not exist upstream), or the failure that ended the request.
#[derive(Debug)]
pub enum EnumerationOutcome {
    Nodes(Option<Vec<PhaseGroupRef>>),
    TransportFailure,
    MalformedResponse,
}

/// Classifies the enumerator's answer. A transport failure and an answer
/// of the wrong shape each surface as their own error; a phase whose
/// phase-group field is absent upstream does not exist, which is
/// `NotFound`; a phase that exists with zero phase groups yields the
/// empty list, which is not an error.
pub fn enumerate_groups(outcome: EnumerationOutcome) -> (r: Result<
    Vec<PhaseGroupRef>,
    FetchError,
>)
    ensures
        outcome matches EnumerationOutcome::Nodes(Some(v)) ==> r matches Ok(g) && g == v,
        outcome matches EnumerationOutcome::Nodes(None) ==> r == Err::<
            Vec<PhaseGroupRef>,
            FetchError,
        >(FetchError::NotFound),
        outcome is TransportFailure ==> r == Err::<Vec<PhaseGroupRef>, FetchError>(
            FetchError::UpstreamUnavailable,
        ),
        outcome is MalformedResponse ==> r == Err::<Vec<PhaseGroupRef>, FetchError>(
            FetchError::UpstreamMalformed,
        ),
{
    match outcome {
        EnumerationOutcome::Nodes(Some(v)) => Ok(v),
        EnumerationOutcome::Nodes(None) => Err(FetchError::NotFound),
        EnumerationOutcome::TransportFailure => Err(FetchError::UpstreamUnavailable),
        EnumerationOutcome::MalformedResponse => Err(FetchError::UpstreamMalformed),
    }
}

} // verus!
