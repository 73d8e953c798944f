use vstd::prelude::*;

verus! {

/// The two operands of a calculation.
#[derive(Clone, Copy, Debug, PartialEq, Eq, Structural)]
pub struct CalculationRequest {
    pub a: i64,
    pub b: i64,
}

/// The result of a calculation.
#[derive(Clone, Copy, Debug, PartialEq, Eq, Structural)]
pub struct CalculationResponse {
    pub result: i64,
}

/// The request for the number of calculator requests; it holds nothing.
#[derive(Clone, Copy, Debug, PartialEq, Eq, Structural)]
pub struct GetCountRequest {}

/// The number of calculator requests at the time of the reading.
#[derive(Clone, Copy, Debug, PartialEq, Eq, Structural)]
pub struct CounterResponse {
    pub count: u64,
}

} // verus!
