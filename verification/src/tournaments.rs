//! The tournament summary the relay exposes, and how it is shaped from
//! what a tournament lookup brings back.

use vstd::prelude::*;
use crate::errors::FetchError;

verus! {

/// An upstream id: usually numeric, occasionally a textual slug.
#[derive(Debug, PartialEq, Eq)]
pub enum TournamentId {
    Num(i64),
    Slug(String),
}

/// The fields of a tournament lookup that the relay reads, every one of
/// them possibly absent upstream.
#[derive(Debug, PartialEq, Eq)]
pub struct TournamentInfo {
    pub id: Option<TournamentId>,
    pub name: Option<String>,
    pub start_at: Option<i64>,
}

/// The summary the relay answers a tournament lookup with.
#[derive(Debug, PartialEq, Eq)]
pub struct TournamentResponse {
    pub id: TournamentId,
    pub name: String,
    pub start_at: Option<i64>,
}

/// Shapes a decoded tournament lookup into the relay's summary. A lookup
/// that carries no tournament at all is `NotFound`; absent fields of a
/// found tournament fall back to the id `0` and the empty name.
pub fn shape_tournament(t: Option<TournamentInfo>) -> (r: Result<TournamentResponse, FetchError>)
    ensures
        t is None ==> r == Err::<TournamentResponse, FetchError>(FetchError::NotFound),
        t matches Some(info) ==> r matches Ok(resp) && {
            &&& info.id matches Some(id) ==> resp.id == id
            &&& info.id is None ==> resp.id == TournamentId::Num(0)
            &&& info.name matches Some(n) ==> resp.name == n
            &&& info.name is None ==> resp.name@ == Seq::<char>::empty()
            &&& resp.start_at == info.start_at
        },
{
    match t {
        None => Err(FetchError::NotFound),
        Some(info) => {
            let id = match info.id {
                Some(id) => id,
                None => TournamentId::Num(0),
            };
            let name = match info.name {
                Some(n) => n,
                None => String::new(),
            };
            Ok(TournamentResponse { id, name, start_at: info.start_at })
        },
    }
}

} // verus!
