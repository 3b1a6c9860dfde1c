//! System status service.

use crate::request::{GraphQLRequest, request_without_variables, request_is};
use vstd::prelude::*;

verus! {

broadcast use vstd::string::group_string_axioms;

/// The GraphQL document of `StatusService::get`.
pub const GET_QUERY: &'static str = "query {\n    status {\n        status dlqSize outboundDlqSize queueDepth activeWorkers totalWorkers uptime version\n        sourcesTotal destinationsTotal subscriptionsTotal eventsTotal eventsFailed\n        deliveriesTotal deliveriesPending deliveriesDelivered\n        messagesTotal outboundDeliveriesTotal outboundDeliveriesPending outboundDeliveriesFailed\n    }\n}";

/// Blocking variant of the status service.
pub struct StatusService;

impl StatusService {
    /// Fetch the current system status.
    pub fn get(&self) -> (r: GraphQLRequest)
        ensures
            request_is(r, GET_QUERY@, None, "status"@),
    {
        request_without_variables(GET_QUERY, "status")
    }
}

/// Async variant of the status service.
pub struct AsyncStatusService;

impl AsyncStatusService {
    /// Fetch the current system status.
    pub fn get(&self) -> (r: GraphQLRequest)
        ensures
            request_is(r, GET_QUERY@, None, "status"@),
    {
        StatusService.get()
    }
}

} // verus!
