//! Outbound delivery service.

use crate::request::{
    Expected, ObjectBuilder, GraphQLRequest, request, field, opt_text, opt_int, request_is, group_lookup, lemma_variable_described, variable, text_of, sent_text, sent_int,
};
use vstd::prelude::*;

verus! {

broadcast use vstd::string::group_string_axioms;

/// Options for [`OutboundDeliveryService::list`].
#[derive(Debug, Default, Clone)]
#[non_exhaustive]
pub struct ListOutboundDeliveriesOptions {
    /// Filter by message ID.
    pub message_id: Option<String>,
    /// Filter by endpoint ID.
    pub endpoint_id: Option<String>,
    /// Filter by delivery status.
    pub status: Option<String>,
    /// Free-text search.
    pub search: Option<String>,
    /// Offset-based page size.
    pub limit: Option<i32>,
    /// Offset-based page offset.
    pub offset: Option<i32>,
    /// Cursor for cursor-based pagination.
    pub after: Option<String>,
    /// Page size for cursor-based pagination.
    pub first: Option<i32>,
}

impl ListOutboundDeliveriesOptions {
    /// The members of the variables object these options are sent as:
    /// camelCase names, absent options left out.
    pub open spec fn members(self) -> Seq<(Seq<char>, Expected)> {
        opt_text("messageId"@, self.message_id)
            + opt_text("endpointId"@, self.endpoint_id)
            + opt_text("status"@, self.status)
            + opt_text("search"@, self.search)
            + opt_int("limit"@, self.limit)
            + opt_int("offset"@, self.offset)
            + opt_text("after"@, self.after)
            + opt_int("first"@, self.first)
    }
}

/// The GraphQL document of `OutboundDeliveryService::list`.
pub const LIST_QUERY: &'static str = "query($messageId: UUID, $endpointId: UUID, $status: DeliveryStatus, $search: String, $limit: Int, $offset: Int, $after: String, $first: Int) {\n                outboundDeliveries(messageId: $messageId, endpointId: $endpointId, status: $status, search: $search, limit: $limit, offset: $offset, after: $after, first: $first) {\n                    nodes { id messageId endpointId status attempts maxAttempts nextAttemptAt createdAt }\n                    pageInfo { total limit offset endCursor hasNextPage }\n                }\n            }";

/// The GraphQL document of `OutboundDeliveryService::get`.
pub const GET_QUERY: &'static str = "query($id: UUID!) { outboundDelivery(id: $id) { id messageId endpointId status attempts maxAttempts nextAttemptAt createdAt deliveryAttempts { id deliveryId attemptNumber responseStatus responseBody error durationMs attemptedAt } } }";

/// Service for reading [`OutboundDelivery`] resources.
pub struct OutboundDeliveryService;

impl OutboundDeliveryService {
    /// List outbound deliveries.
    pub fn list(&self, options: ListOutboundDeliveriesOptions) -> (r: GraphQLRequest)
        ensures
            request_is(r, LIST_QUERY@, Some(options.members()), "outboundDeliveries"@),
    {
        let ghost spec = options.members();
        let mut v = ObjectBuilder::new();
        v.put_opt_text("messageId", options.message_id);
        v.put_opt_text("endpointId", options.endpoint_id);
        v.put_opt_text("status", options.status);
        v.put_opt_text("search", options.search);
        v.put_opt_int("limit", options.limit);
        v.put_opt_int("offset", options.offset);
        v.put_opt_text("after", options.after);
        v.put_opt_int("first", options.first);
        proof {
            assert(v.expected@ =~= spec);
        }
        request(LIST_QUERY, v, "outboundDeliveries")
    }

    /// Get an outbound delivery by ID, including its detailed attempts.
    pub fn get(&self, id: &str) -> (r: GraphQLRequest)
        ensures
            request_is(r, GET_QUERY@, Some(field("id"@, Expected::Text(id@))), "outboundDelivery"@),
    {
        let ghost spec = field("id"@, Expected::Text(id@));
        let mut v = ObjectBuilder::new();
        v.put_text("id", id);
        proof {
            assert(v.expected@ =~= spec);
        }
        request(GET_QUERY, v, "outboundDelivery")
    }
}

/// Async variant of the outbound delivery service.
pub struct AsyncOutboundDeliveryService;

impl AsyncOutboundDeliveryService {
    /// List outbound deliveries.
    pub fn list(&self, options: ListOutboundDeliveriesOptions) -> (r: GraphQLRequest)
        ensures
            request_is(r, LIST_QUERY@, Some(options.members()), "outboundDeliveries"@),
    {
        OutboundDeliveryService.list(options)
    }

    /// Get an outbound delivery by ID, including its detailed attempts.
    pub fn get(&self, id: &str) -> (r: GraphQLRequest)
        ensures
            request_is(r, GET_QUERY@, Some(field("id"@, Expected::Text(id@))), "outboundDelivery"@),
    {
        OutboundDeliveryService.get(id)
    }
}

/// What [`OutboundDeliveryService::list`] sends: each argument, and each field of an
/// options or input argument, under its own camelCase name, holding that
/// value; an absent optional one is left out.
pub proof fn lemma_list_sends_arguments(options: ListOutboundDeliveriesOptions, r: GraphQLRequest)
    requires
        request_is(r, LIST_QUERY@, Some(options.members()), "outboundDeliveries"@),
    ensures
        sent_text(variable(r, "messageId"@), options.message_id),
        sent_text(variable(r, "endpointId"@), options.endpoint_id),
        sent_text(variable(r, "status"@), options.status),
        sent_text(variable(r, "search"@), options.search),
        sent_int(variable(r, "limit"@), options.limit),
        sent_int(variable(r, "offset"@), options.offset),
        sent_text(variable(r, "after"@), options.after),
        sent_int(variable(r, "first"@), options.first),
{
    broadcast use group_lookup;

    reveal_strlit("after");
    assert("after"@.len() == 5);
    reveal_strlit("endpointId");
    assert("endpointId"@.len() == 10);
    reveal_strlit("first");
    assert("first"@.len() == 5);
    reveal_strlit("limit");
    assert("limit"@.len() == 5);
    reveal_strlit("messageId");
    assert("messageId"@.len() == 9);
    reveal_strlit("offset");
    assert("offset"@.len() == 6);
    reveal_strlit("search");
    assert("search"@.len() == 6);
    reveal_strlit("status");
    assert("status"@.len() == 6);
    assert("after"@[0] == 'a');
    assert("first"@[0] == 'f');
    assert("limit"@[0] == 'l');
    assert("offset"@[0] == 'o');
    assert("search"@[0] == 's');
    assert("status"@[0] == 's');
    assert("search"@[1] == 'e');
    assert("status"@[1] == 't');
    let fields = options.members();
    lemma_variable_described(r, LIST_QUERY@, fields, "outboundDeliveries"@, "messageId"@);
    lemma_variable_described(r, LIST_QUERY@, fields, "outboundDeliveries"@, "endpointId"@);
    lemma_variable_described(r, LIST_QUERY@, fields, "outboundDeliveries"@, "status"@);
    lemma_variable_described(r, LIST_QUERY@, fields, "outboundDeliveries"@, "search"@);
    lemma_variable_described(r, LIST_QUERY@, fields, "outboundDeliveries"@, "limit"@);
    lemma_variable_described(r, LIST_QUERY@, fields, "outboundDeliveries"@, "offset"@);
    lemma_variable_described(r, LIST_QUERY@, fields, "outboundDeliveries"@, "after"@);
    lemma_variable_described(r, LIST_QUERY@, fields, "outboundDeliveries"@, "first"@);
}

/// What [`OutboundDeliveryService::get`] sends: each argument, and each field of an
/// options or input argument, under its own camelCase name, holding that
/// value; an absent optional one is left out.
pub proof fn lemma_get_sends_arguments(id: &str, r: GraphQLRequest)
    requires
        request_is(r, GET_QUERY@, Some(field("id"@, Expected::Text(id@))), "outboundDelivery"@),
    ensures
        text_of(variable(r, "id"@)) == Some(id@),
{
    broadcast use group_lookup;

    reveal_strlit("id");
    assert("id"@.len() == 2);
    let fields = field("id"@, Expected::Text(id@));
    lemma_variable_described(r, GET_QUERY@, fields, "outboundDelivery"@, "id"@);
}

} // verus!
