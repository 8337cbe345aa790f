//! Search: the limits of a search request.
use vstd::prelude::*;

verus! {

/// The largest number of results a search request may ask for.
pub const MAX_LIMIT: u32 = 50;

/// A search request: the query and how many results to return at most.
pub struct SearchQuery {
    pub query: String,
    pub limit: u32,
}

/// The number of results a search returns when the request names none.
pub fn default_limit() -> (r: u32)
    ensures
        r == 25,
{
    25
}

/// Why a search request was refused.
#[derive(PartialEq, Eq, Structural, Clone, Copy, Debug)]
pub enum SearchQueryError {
    /// The request asks for more results than a search returns.
    LimitTooLarge(u32),
}

impl SearchQueryError {
    /// The HTTP status a refused search is answered with: a bad request.
    pub fn status(&self) -> (r: u16)
        ensures
            r == 400,
    {
        400
    }
}

/// A search request as it is read: the limit asked for, or the default
/// one; refused where the limit is larger than the largest a search
/// returns.
pub fn search_query(query: String, limit: Option<u32>) -> (r: Result<SearchQuery, SearchQueryError>)
    ensures
        match limit {
            Some(l) if l > MAX_LIMIT => r == Err::<SearchQuery, SearchQueryError>(SearchQueryError::LimitTooLarge(l)),
            Some(l) => r matches Ok(q) && q.query == query && q.limit == l,
            None => r matches Ok(q) && q.query == query && q.limit == 25,
        },
{
    match limit {
        Some(l) => {
            if l > MAX_LIMIT {
                Err(SearchQueryError::LimitTooLarge(l))
            } else {
                Ok(SearchQuery { query, limit: l })
            }
        },
        None => Ok(SearchQuery { query, limit: default_limit() }),
    }
}

} // verus!
