use vstd::prelude::*;
use crate::proto::{CounterResponse, GetCountRequest};
use crate::state::State;

verus! {

/// The service that reports on the calculator service.
#[derive(Debug)]
pub struct AdminService;

impl AdminService {
    /// Reads the number of calculator requests so far, and leaves it as it is.
    pub fn get_request_count(state: &State, _request: &GetCountRequest) -> (response:
        CounterResponse)
        ensures
            response.count == state@,
    {
        CounterResponse { count: state.count() }
    }
}

} // verus!
