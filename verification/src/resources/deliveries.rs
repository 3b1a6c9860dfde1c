//! Deliveries resource: per-destination delivery attempts for inbound events.

use crate::request::{
    Expected, ObjectBuilder, GraphQLRequest, request, field, opt_text, opt_int, request_is, group_lookup, lemma_variable_described, variable, text_of, sent_text, sent_int,
};
use vstd::prelude::*;

verus! {

broadcast use vstd::string::group_string_axioms;

/// Options for the `list` method on the delivery service.
#[derive(Debug, Default, Clone)]
#[non_exhaustive]
pub struct ListDeliveriesOptions {
    /// Filter by event ID.
    pub event_id: Option<String>,
    /// Filter by destination ID.
    pub destination_id: Option<String>,
    /// Filter by subscription ID.
    pub subscription_id: Option<String>,
    /// Filter by delivery status.
    pub status: Option<String>,
    /// Free-text search.
    pub search: Option<String>,
    /// Offset-based page size.
    pub limit: Option<i32>,
    /// Offset-based page offset.
    pub offset: Option<i32>,
    /// Cursor for cursor-based pagination.
    pub after: Option<String>,
    /// Page size for cursor-based pagination.
    pub first: Option<i32>,
}

impl ListDeliveriesOptions {
    /// The members of the variables object these options are sent as:
    /// camelCase names, absent options left out.
    pub open spec fn members(self) -> Seq<(Seq<char>, Expected)> {
        opt_text("eventId"@, self.event_id)
            + opt_text("destinationId"@, self.destination_id)
            + opt_text("subscriptionId"@, self.subscription_id)
            + opt_text("status"@, self.status)
            + opt_text("search"@, self.search)
            + opt_int("limit"@, self.limit)
            + opt_int("offset"@, self.offset)
            + opt_text("after"@, self.after)
            + opt_int("first"@, self.first)
    }
}

/// The GraphQL document of `DeliveryService::list`.
pub const LIST_QUERY: &'static str = "query($eventId: UUID, $destinationId: UUID, $subscriptionId: UUID, $status: DeliveryStatus, $search: String, $limit: Int, $offset: Int, $after: String, $first: Int) {\n                deliveries(eventId: $eventId, destinationId: $destinationId, subscriptionId: $subscriptionId, status: $status, search: $search, limit: $limit, offset: $offset, after: $after, first: $first) {\n                    nodes { id eventId subscriptionId destinationId status attempts maxAttempts nextAttemptAt createdAt }\n                    pageInfo { total limit offset endCursor hasNextPage }\n                }\n            }";

/// The GraphQL document of `DeliveryService::get`.
pub const GET_QUERY: &'static str = "query($id: UUID!) { delivery(id: $id) { id eventId subscriptionId destinationId status attempts maxAttempts nextAttemptAt createdAt deliveryAttempts { id deliveryId attemptNumber responseStatus responseBody error durationMs attemptedAt } } }";

/// Blocking variant of the delivery service.
pub struct DeliveryService;

impl DeliveryService {
    /// List deliveries.
    pub fn list(&self, options: ListDeliveriesOptions) -> (r: GraphQLRequest)
        ensures
            request_is(r, LIST_QUERY@, Some(options.members()), "deliveries"@),
    {
        let ghost spec = options.members();
        let mut v = ObjectBuilder::new();
        v.put_opt_text("eventId", options.event_id);
        v.put_opt_text("destinationId", options.destination_id);
        v.put_opt_text("subscriptionId", options.subscription_id);
        v.put_opt_text("status", options.status);
        v.put_opt_text("search", options.search);
        v.put_opt_int("limit", options.limit);
        v.put_opt_int("offset", options.offset);
        v.put_opt_text("after", options.after);
        v.put_opt_int("first", options.first);
        proof {
            assert(v.expected@ =~= spec);
        }
        request(LIST_QUERY, v, "deliveries")
    }

    /// Get a delivery by ID, including its detailed attempts.
    pub fn get(&self, id: &str) -> (r: GraphQLRequest)
        ensures
            request_is(r, GET_QUERY@, Some(field("id"@, Expected::Text(id@))), "delivery"@),
    {
        let ghost spec = field("id"@, Expected::Text(id@));
        let mut v = ObjectBuilder::new();
        v.put_text("id", id);
        proof {
            assert(v.expected@ =~= spec);
        }
        request(GET_QUERY, v, "delivery")
    }
}

/// Async variant of the delivery service.
pub struct AsyncDeliveryService;

impl AsyncDeliveryService {
    /// List deliveries.
    pub fn list(&self, options: ListDeliveriesOptions) -> (r: GraphQLRequest)
        ensures
            request_is(r, LIST_QUERY@, Some(options.members()), "deliveries"@),
    {
        DeliveryService.list(options)
    }

    /// Get a delivery by ID, including its detailed attempts.
    pub fn get(&self, id: &str) -> (r: GraphQLRequest)
        ensures
            request_is(r, GET_QUERY@, Some(field("id"@, Expected::Text(id@))), "delivery"@),
    {
        DeliveryService.get(id)
    }
}

/// What [`DeliveryService::list`] sends: each argument, and each field of an
/// options or input argument, under its own camelCase name, holding that
/// value; an absent optional one is left out.
pub proof fn lemma_list_sends_arguments(options: ListDeliveriesOptions, r: GraphQLRequest)
    requires
        request_is(r, LIST_QUERY@, Some(options.members()), "deliveries"@),
    ensures
        sent_text(variable(r, "eventId"@), options.event_id),
        sent_text(variable(r, "destinationId"@), options.destination_id),
        sent_text(variable(r, "subscriptionId"@), options.subscription_id),
        sent_text(variable(r, "status"@), options.status),
        sent_text(variable(r, "search"@), options.search),
        sent_int(variable(r, "limit"@), options.limit),
        sent_int(variable(r, "offset"@), options.offset),
        sent_text(variable(r, "after"@), options.after),
        sent_int(variable(r, "first"@), options.first),
{
    broadcast use group_lookup;

    reveal_strlit("after");
    assert("after"@.len() == 5);
    reveal_strlit("destinationId");
    assert("destinationId"@.len() == 13);
    reveal_strlit("eventId");
    assert("eventId"@.len() == 7);
    reveal_strlit("first");
    assert("first"@.len() == 5);
    reveal_strlit("limit");
    assert("limit"@.len() == 5);
    reveal_strlit("offset");
    assert("offset"@.len() == 6);
    reveal_strlit("search");
    assert("search"@.len() == 6);
    reveal_strlit("status");
    assert("status"@.len() == 6);
    reveal_strlit("subscriptionId");
    assert("subscriptionId"@.len() == 14);
    assert("after"@[0] == 'a');
    assert("first"@[0] == 'f');
    assert("limit"@[0] == 'l');
    assert("offset"@[0] == 'o');
    assert("search"@[0] == 's');
    assert("status"@[0] == 's');
    assert("search"@[1] == 'e');
    assert("status"@[1] == 't');
    let fields = options.members();
    lemma_variable_described(r, LIST_QUERY@, fields, "deliveries"@, "eventId"@);
    lemma_variable_described(r, LIST_QUERY@, fields, "deliveries"@, "destinationId"@);
    lemma_variable_described(r, LIST_QUERY@, fields, "deliveries"@, "subscriptionId"@);
    lemma_variable_described(r, LIST_QUERY@, fields, "deliveries"@, "status"@);
    lemma_variable_described(r, LIST_QUERY@, fields, "deliveries"@, "search"@);
    lemma_variable_described(r, LIST_QUERY@, fields, "deliveries"@, "limit"@);
    lemma_variable_described(r, LIST_QUERY@, fields, "deliveries"@, "offset"@);
    lemma_variable_described(r, LIST_QUERY@, fields, "deliveries"@, "after"@);
    lemma_variable_described(r, LIST_QUERY@, fields, "deliveries"@, "first"@);
}

/// What [`DeliveryService::get`] sends: each argument, and each field of an
/// options or input argument, under its own camelCase name, holding that
/// value; an absent optional one is left out.
pub proof fn lemma_get_sends_arguments(id: &str, r: GraphQLRequest)
    requires
        request_is(r, GET_QUERY@, Some(field("id"@, Expected::Text(id@))), "delivery"@),
    ensures
        text_of(variable(r, "id"@)) == Some(id@),
{
    broadcast use group_lookup;

    reveal_strlit("id");
    assert("id"@.len() == 2);
    let fields = field("id"@, Expected::Text(id@));
    lemma_variable_described(r, GET_QUERY@, fields, "delivery"@, "id"@);
}

} // verus!
