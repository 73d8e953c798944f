use vstd::prelude::*;
use crate::arithmetic::{
    lemma_quotient_fits, lemma_quotient_is_machine_division, quotient, quotient_overflows,
    wrapped_sum,
};
use crate::proto::{CalculationRequest, CalculationResponse};
use crate::state::State;
use crate::status::{invalid_argument, status_code, status_message, INVALID_ARGUMENT};

verus! {

/// The message of the error that a division by zero ends with.
pub const DIVIDE_BY_ZERO: &'static str = "Cannot divide by zero.";

/// The service that adds and divides. Each request is counted in the shared
/// state, which the caller holds exclusively for the call. A request is
/// counted before it is looked at, so one that is refused counts too.
#[derive(Debug)]
pub struct CalculatorService;

impl CalculatorService {
    /// Counts one request. The counter must have room for it.
    pub fn increment_counter(state: &mut State)
        requires
            old(state).has_room(),
        ensures
            final(state).follows(*old(state)),
    {
        state.count = state.count + 1;
    }

    /// Counts the request and adds its operands. The sum wraps round where
    /// it leaves the range of the result; a request is never refused.
    pub fn add(state: &mut State, input: &CalculationRequest) -> (response: CalculationResponse)
        requires
            old(state).has_room(),
        ensures
            final(state).follows(*old(state)),
            response.result == wrapped_sum(input.a as int, input.b as int),
            i64::MIN <= input.a + input.b <= i64::MAX ==> response.result == input.a + input.b,
    {
        Self::increment_counter(state);
        CalculationResponse { result: input.a.wrapping_add(input.b) }
    }

    /// Counts the request and divides its first operand by the second,
    /// rounding towards zero. A zero divisor, and nothing else, is refused:
    /// as an invalid argument, with the message `DIVIDE_BY_ZERO`. The one
    /// pair of operands whose quotient no result can hold is not to be
    /// passed.
    pub fn divide(state: &mut State, input: &CalculationRequest) -> (outcome: Result<
        CalculationResponse,
        tonic::Status,
    >)
        requires
            old(state).has_room(),
            !quotient_overflows(input.a, input.b),
        ensures
            final(state).follows(*old(state)),
            (match outcome {
                Ok(response) => input.b != 0 && response.result == quotient(
                    input.a as int,
                    input.b as int,
                ),
                Err(status) => input.b == 0 && status_code(status) == INVALID_ARGUMENT
                    && status_message(status) == DIVIDE_BY_ZERO@,
            }),
    {
        Self::increment_counter(state);
        if input.b == 0 {
            return Err(invalid_argument(DIVIDE_BY_ZERO));
        }
        proof {
            lemma_quotient_fits(input.a, input.b);
            lemma_quotient_is_machine_division(input.a, input.b);
        }
        Ok(CalculationResponse { result: input.a / input.b })
    }
}

} // verus!
