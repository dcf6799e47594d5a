//! The mapping of handler outcomes to HTTP status codes.
//!
//! Three stateless routes exist: the root renders the sign-in URL and
//! cannot fail; the OAuth route answers with the code exchange's outcome;
//! the data route with the aggregation's.  Each error kind maps to one
//! fixed status, decided here and nowhere else.

use vstd::prelude::*;

use crate::aggregate::view_aggregate_result;
use crate::aggregate::AggregateError;
use crate::aggregate::AggregateErrorV;
use crate::aggregate::AggregatedResult;
use crate::aggregate::AggregatedResultV;
use crate::oauth::view_exchange_result;
use crate::oauth::ExchangeError;
use crate::oauth::ExchangeErrorV;
use crate::oauth::TokenSet;
use crate::oauth::TokenSetV;

verus! {

/// The status owed for a code exchange outcome: success is 200, a missing
/// code 400, and any upstream or decode failure 502.
pub open spec fn spec_status_for_exchange(r: Result<TokenSetV, ExchangeErrorV>) -> u16 {
    match r {
        Ok(_) => 200,
        Err(ExchangeErrorV::MissingCode) => 400,
        Err(ExchangeErrorV::UpstreamCallFailed { .. }) => 502,
        Err(ExchangeErrorV::UpstreamProtocolError) => 502,
    }
}

/// The status owed for an aggregation outcome: success is 200, a missing
/// token 401, an unreachable downstream (status 0) 500, and any other
/// fetch or decode failure 502.
pub open spec fn spec_status_for_aggregate(r: Result<AggregatedResultV, AggregateErrorV>) -> u16 {
    match r {
        Ok(_) => 200,
        Err(AggregateErrorV::Unauthorized) => 401,
        Err(AggregateErrorV::RotationFetchFailed { status, .. }) => if status == 0 {
            500
        } else {
            502
        },
        Err(AggregateErrorV::AccountFetchFailed { status, .. }) => if status == 0 {
            500
        } else {
            502
        },
    }
}

/// Maps a code exchange outcome to its HTTP status.
pub fn status_for_exchange(r: &Result<TokenSet, ExchangeError>) -> (s: u16)
    ensures
        s == spec_status_for_exchange(view_exchange_result(*r)),
{
    match r {
        Ok(_) => 200,
        Err(ExchangeError::MissingCode) => 400,
        Err(ExchangeError::UpstreamCallFailed { .. }) => 502,
        Err(ExchangeError::UpstreamProtocolError) => 502,
    }
}

/// Maps an aggregation outcome to its HTTP status.
pub fn status_for_aggregate(r: &Result<AggregatedResult, AggregateError>) -> (s: u16)
    ensures
        s == spec_status_for_aggregate(view_aggregate_result(*r)),
{
    match r {
        Ok(_) => 200,
        Err(AggregateError::Unauthorized) => 401,
        Err(AggregateError::RotationFetchFailed { status, .. }) => {
            if *status == 0 {
                500
            } else {
                502
            }
        },
        Err(AggregateError::AccountFetchFailed { status, .. }) => {
            if *status == 0 {
                500
            } else {
                502
            }
        },
    }
}

} // verus!
