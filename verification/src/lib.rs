//! The core of a calculator service: two services over one shared count of
//! requests.
//!
//! [`CalculatorService`] adds and divides, and counts each request in a
//! [`State`]; [`AdminService`] reads the count. A caller takes the state
//! exclusively for a calculation and shared for a reading, which is what a
//! read-write lock round the state hands out. All that the services compute
//! is stated in their contracts and proved.

pub mod admin;
pub mod arithmetic;
pub mod calculator;
pub mod proto;
pub mod state;
pub mod status;

pub use crate::admin::AdminService;
pub use crate::calculator::{CalculatorService, DIVIDE_BY_ZERO};
pub use crate::proto::{CalculationRequest, CalculationResponse, CounterResponse, GetCountRequest};
pub use crate::state::State;
pub use crate::status::INVALID_ARGUMENT;
