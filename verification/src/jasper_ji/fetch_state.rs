//! Where a page stands in loading what it shows.
use vstd::prelude::*;
use crate::jasper_ji::fetch_error::FetchError;

verus! {

pub enum FetchState<T> {
    NotFetching,
    Fetching,
    Success(T),
    Failed(FetchError),
}

/// The state that the outcome of a load puts a page in.
pub open spec fn spec_from_result<T>(r: Result<T, FetchError>) -> FetchState<T> {
    match r {
        Ok(v) => FetchState::Success(v),
        Err(e) => FetchState::Failed(e),
    }
}

impl<T> FetchState<T> {
    /// The state that the outcome of a load puts a page in.
    pub fn from_result(r: Result<T, FetchError>) -> (s: Self)
        ensures
            s == spec_from_result(r),
    {
        match r {
            Ok(v) => FetchState::Success(v),
            Err(e) => FetchState::Failed(e),
        }
    }
}

} // verus!
