//! Events resource: received inbound events.

use crate::request::{
    Expected, ObjectBuilder, GraphQLRequest, request, field, opt_text, opt_int, request_is, group_lookup, lemma_variable_described, variable, text_of, sent_text, sent_int,
};
use vstd::prelude::*;

verus! {

broadcast use vstd::string::group_string_axioms;

/// Options for the `list` method on the event service.
#[derive(Debug, Default, Clone)]
#[non_exhaustive]
pub struct ListEventsOptions {
    /// Filter by source ID.
    pub source_id: Option<String>,
    /// Filter by event type.
    pub event_type: Option<String>,
    /// Filter by status.
    pub status: Option<String>,
    /// Free-text search.
    pub search: Option<String>,
    /// Offset-based page size.
    pub limit: Option<i32>,
    /// Offset-based page offset.
    pub offset: Option<i32>,
    /// Cursor for cursor-based pagination.
    pub after: Option<String>,
    /// Page size for cursor-based pagination.
    pub first: Option<i32>,
}

impl ListEventsOptions {
    /// The members of the variables object these options are sent as:
    /// camelCase names, absent options left out.
    pub open spec fn members(self) -> Seq<(Seq<char>, Expected)> {
        opt_text("sourceId"@, self.source_id)
            + opt_text("eventType"@, self.event_type)
            + opt_text("status"@, self.status)
            + opt_text("search"@, self.search)
            + opt_int("limit"@, self.limit)
            + opt_int("offset"@, self.offset)
            + opt_text("after"@, self.after)
            + opt_int("first"@, self.first)
    }
}

/// The GraphQL document of `EventService::list`.
pub const LIST_QUERY: &'static str = "query($sourceId: UUID, $eventType: String, $status: EventStatus, $search: String, $limit: Int, $offset: Int, $after: String, $first: Int) {\n                events(sourceId: $sourceId, eventType: $eventType, status: $status, search: $search, limit: $limit, offset: $offset, after: $after, first: $first) {\n                    nodes { id sourceId idempotencyKey eventType headers rawBody status receivedAt }\n                    pageInfo { total limit offset endCursor hasNextPage }\n                }\n            }";

/// The GraphQL document of `EventService::get`.
pub const GET_QUERY: &'static str = "query($id: UUID!) { event(id: $id) { id sourceId idempotencyKey eventType headers rawBody status receivedAt } }";

/// Blocking variant of the event service.
pub struct EventService;

impl EventService {
    /// List events.
    pub fn list(&self, options: ListEventsOptions) -> (r: GraphQLRequest)
        ensures
            request_is(r, LIST_QUERY@, Some(options.members()), "events"@),
    {
        let ghost spec = options.members();
        let mut v = ObjectBuilder::new();
        v.put_opt_text("sourceId", options.source_id);
        v.put_opt_text("eventType", options.event_type);
        v.put_opt_text("status", options.status);
        v.put_opt_text("search", options.search);
        v.put_opt_int("limit", options.limit);
        v.put_opt_int("offset", options.offset);
        v.put_opt_text("after", options.after);
        v.put_opt_int("first", options.first);
        proof {
            assert(v.expected@ =~= spec);
        }
        request(LIST_QUERY, v, "events")
    }

    /// Get an event by ID.
    pub fn get(&self, id: &str) -> (r: GraphQLRequest)
        ensures
            request_is(r, GET_QUERY@, Some(field("id"@, Expected::Text(id@))), "event"@),
    {
        let ghost spec = field("id"@, Expected::Text(id@));
        let mut v = ObjectBuilder::new();
        v.put_text("id", id);
        proof {
            assert(v.expected@ =~= spec);
        }
        request(GET_QUERY, v, "event")
    }
}

/// Async variant of the event service.
pub struct AsyncEventService;

impl AsyncEventService {
    /// List events.
    pub fn list(&self, options: ListEventsOptions) -> (r: GraphQLRequest)
        ensures
            request_is(r, LIST_QUERY@, Some(options.members()), "events"@),
    {
        EventService.list(options)
    }

    /// Get an event by ID.
    pub fn get(&self, id: &str) -> (r: GraphQLRequest)
        ensures
            request_is(r, GET_QUERY@, Some(field("id"@, Expected::Text(id@))), "event"@),
    {
        EventService.get(id)
    }
}

/// What [`EventService::list`] sends: each argument, and each field of an
/// options or input argument, under its own camelCase name, holding that
/// value; an absent optional one is left out.
pub proof fn lemma_list_sends_arguments(options: ListEventsOptions, r: GraphQLRequest)
    requires
        request_is(r, LIST_QUERY@, Some(options.members()), "events"@),
    ensures
        sent_text(variable(r, "sourceId"@), options.source_id),
        sent_text(variable(r, "eventType"@), options.event_type),
        sent_text(variable(r, "status"@), options.status),
        sent_text(variable(r, "search"@), options.search),
        sent_int(variable(r, "limit"@), options.limit),
        sent_int(variable(r, "offset"@), options.offset),
        sent_text(variable(r, "after"@), options.after),
        sent_int(variable(r, "first"@), options.first),
{
    broadcast use group_lookup;

    reveal_strlit("after");
    assert("after"@.len() == 5);
    reveal_strlit("eventType");
    assert("eventType"@.len() == 9);
    reveal_strlit("first");
    assert("first"@.len() == 5);
    reveal_strlit("limit");
    assert("limit"@.len() == 5);
    reveal_strlit("offset");
    assert("offset"@.len() == 6);
    reveal_strlit("search");
    assert("search"@.len() == 6);
    reveal_strlit("sourceId");
    assert("sourceId"@.len() == 8);
    reveal_strlit("status");
    assert("status"@.len() == 6);
    assert("after"@[0] == 'a');
    assert("first"@[0] == 'f');
    assert("limit"@[0] == 'l');
    assert("offset"@[0] == 'o');
    assert("search"@[0] == 's');
    assert("status"@[0] == 's');
    assert("search"@[1] == 'e');
    assert("status"@[1] == 't');
    let fields = options.members();
    lemma_variable_described(r, LIST_QUERY@, fields, "events"@, "sourceId"@);
    lemma_variable_described(r, LIST_QUERY@, fields, "events"@, "eventType"@);
    lemma_variable_described(r, LIST_QUERY@, fields, "events"@, "status"@);
    lemma_variable_described(r, LIST_QUERY@, fields, "events"@, "search"@);
    lemma_variable_described(r, LIST_QUERY@, fields, "events"@, "limit"@);
    lemma_variable_described(r, LIST_QUERY@, fields, "events"@, "offset"@);
    lemma_variable_described(r, LIST_QUERY@, fields, "events"@, "after"@);
    lemma_variable_described(r, LIST_QUERY@, fields, "events"@, "first"@);
}

/// What [`EventService::get`] sends: each argument, and each field of an
/// options or input argument, under its own camelCase name, holding that
/// value; an absent optional one is left out.
pub proof fn lemma_get_sends_arguments(id: &str, r: GraphQLRequest)
    requires
        request_is(r, GET_QUERY@, Some(field("id"@, Expected::Text(id@))), "event"@),
    ensures
        text_of(variable(r, "id"@)) == Some(id@),
{
    broadcast use group_lookup;

    reveal_strlit("id");
    assert("id"@.len() == 2);
    let fields = field("id"@, Expected::Text(id@));
    lemma_variable_described(r, GET_QUERY@, fields, "event"@, "id"@);
}

} // verus!
