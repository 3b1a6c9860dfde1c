//! Inbound dead-letter queue service.

use crate::request::{
    Expected, ObjectBuilder, GraphQLRequest, request, request_without_variables, field, opt_text, opt_int, opt_flag, opt_str, request_is, group_lookup, lemma_variable_described, variable, sent_text, sent_str, sent_int, sent_flag, text_of,
};
use vstd::prelude::*;

verus! {

broadcast use vstd::string::group_string_axioms;

/// Options for the `list` method on the inbound DLQ service.
#[derive(Debug, Default, Clone)]
#[non_exhaustive]
pub struct ListDlqOptions {
    /// Filter by event ID.
    pub event_id: Option<String>,
    /// Filter by whether the entry has been replayed.
    pub replayed: Option<bool>,
    /// Free-text search.
    pub search: Option<String>,
    /// Offset-based page size.
    pub limit: Option<i32>,
    /// Offset-based page offset.
    pub offset: Option<i32>,
    /// Cursor for cursor-based pagination.
    pub after: Option<String>,
    /// Page size for cursor-based pagination.
    pub first: Option<i32>,
}

impl ListDlqOptions {
    /// The members of the variables object these options are sent as:
    /// camelCase names, absent options left out.
    pub open spec fn members(self) -> Seq<(Seq<char>, Expected)> {
        opt_text("eventId"@, self.event_id)
            + opt_flag("replayed"@, self.replayed)
            + opt_text("search"@, self.search)
            + opt_int("limit"@, self.limit)
            + opt_int("offset"@, self.offset)
            + opt_text("after"@, self.after)
            + opt_int("first"@, self.first)
    }
}

/// The GraphQL document of `DLQService::list`.
pub const LIST_QUERY: &'static str = "query($eventId: UUID, $replayed: Boolean, $search: String, $limit: Int, $offset: Int, $after: String, $first: Int) {\n                dlqEntries(eventId: $eventId, replayed: $replayed, search: $search, limit: $limit, offset: $offset, after: $after, first: $first) {\n                    nodes { id deliveryId eventId lastError replayedAt createdAt }\n                    pageInfo { total limit offset endCursor hasNextPage }\n                }\n            }";

/// The GraphQL document of `DLQService::replay`.
pub const REPLAY_QUERY: &'static str = "mutation($id: UUID!) { replayDLQEntry(id: $id) }";

/// The GraphQL document of `DLQService::replay_all`.
pub const REPLAY_ALL_QUERY: &'static str = "mutation { replayAllDLQ { deliveries } }";

/// The GraphQL document of `DLQService::purge`.
pub const PURGE_QUERY: &'static str = "mutation($olderThan: String) { purgeDLQ(olderThan: $olderThan) { purged } }";

/// Blocking variant of the inbound DLQ service.
pub struct DLQService;

impl DLQService {
    /// List DLQ entries.
    pub fn list(&self, options: ListDlqOptions) -> (r: GraphQLRequest)
        ensures
            request_is(r, LIST_QUERY@, Some(options.members()), "dlqEntries"@),
    {
        let ghost spec = options.members();
        let mut v = ObjectBuilder::new();
        v.put_opt_text("eventId", options.event_id);
        v.put_opt_flag("replayed", options.replayed);
        v.put_opt_text("search", options.search);
        v.put_opt_int("limit", options.limit);
        v.put_opt_int("offset", options.offset);
        v.put_opt_text("after", options.after);
        v.put_opt_int("first", options.first);
        proof {
            assert(v.expected@ =~= spec);
        }
        request(LIST_QUERY, v, "dlqEntries")
    }

    /// Replay a single DLQ entry.
    pub fn replay(&self, id: &str) -> (r: GraphQLRequest)
        ensures
            request_is(
                r,
                REPLAY_QUERY@,
                Some(field("id"@, Expected::Text(id@))),
                "replayDLQEntry"@,
            ),
    {
        let ghost spec = field("id"@, Expected::Text(id@));
        let mut v = ObjectBuilder::new();
        v.put_text("id", id);
        proof {
            assert(v.expected@ =~= spec);
        }
        request(REPLAY_QUERY, v, "replayDLQEntry")
    }

    /// Replay every entry in the DLQ.
    pub fn replay_all(&self) -> (r: GraphQLRequest)
        ensures
            request_is(r, REPLAY_ALL_QUERY@, None, "replayAllDLQ"@),
    {
        request_without_variables(REPLAY_ALL_QUERY, "replayAllDLQ")
    }

    /// Purge entries older than the supplied Go duration string. Pass
    /// `None` to purge everything.
    pub fn purge(&self, older_than: Option<&str>) -> (r: GraphQLRequest)
        ensures
            request_is(r, PURGE_QUERY@, Some(opt_str("olderThan"@, older_than)), "purgeDLQ"@),
    {
        let ghost spec = opt_str("olderThan"@, older_than);
        let mut v = ObjectBuilder::new();
        v.put_opt_str("olderThan", older_than);
        proof {
            assert(v.expected@ =~= spec);
        }
        request(PURGE_QUERY, v, "purgeDLQ")
    }
}

/// Async variant of the inbound DLQ service.
pub struct AsyncDLQService;

impl AsyncDLQService {
    /// List DLQ entries.
    pub fn list(&self, options: ListDlqOptions) -> (r: GraphQLRequest)
        ensures
            request_is(r, LIST_QUERY@, Some(options.members()), "dlqEntries"@),
    {
        DLQService.list(options)
    }

    /// Replay a single DLQ entry.
    pub fn replay(&self, id: &str) -> (r: GraphQLRequest)
        ensures
            request_is(
                r,
                REPLAY_QUERY@,
                Some(field("id"@, Expected::Text(id@))),
                "replayDLQEntry"@,
            ),
    {
        DLQService.replay(id)
    }

    /// Replay every entry in the DLQ.
    pub fn replay_all(&self) -> (r: GraphQLRequest)
        ensures
            request_is(r, REPLAY_ALL_QUERY@, None, "replayAllDLQ"@),
    {
        DLQService.replay_all()
    }

    /// Purge entries older than the supplied Go duration string. Pass
    /// `None` to purge everything.
    pub fn purge(&self, older_than: Option<&str>) -> (r: GraphQLRequest)
        ensures
            request_is(r, PURGE_QUERY@, Some(opt_str("olderThan"@, older_than)), "purgeDLQ"@),
    {
        DLQService.purge(older_than)
    }
}

/// What [`DLQService::list`] sends: each argument, and each field of an
/// options or input argument, under its own camelCase name, holding that
/// value; an absent optional one is left out.
pub proof fn lemma_list_sends_arguments(options: ListDlqOptions, r: GraphQLRequest)
    requires
        request_is(r, LIST_QUERY@, Some(options.members()), "dlqEntries"@),
    ensures
        sent_text(variable(r, "eventId"@), options.event_id),
        sent_flag(variable(r, "replayed"@), options.replayed),
        sent_text(variable(r, "search"@), options.search),
        sent_int(variable(r, "limit"@), options.limit),
        sent_int(variable(r, "offset"@), options.offset),
        sent_text(variable(r, "after"@), options.after),
        sent_int(variable(r, "first"@), options.first),
{
    broadcast use group_lookup;

    reveal_strlit("after");
    assert("after"@.len() == 5);
    reveal_strlit("eventId");
    assert("eventId"@.len() == 7);
    reveal_strlit("first");
    assert("first"@.len() == 5);
    reveal_strlit("limit");
    assert("limit"@.len() == 5);
    reveal_strlit("offset");
    assert("offset"@.len() == 6);
    reveal_strlit("replayed");
    assert("replayed"@.len() == 8);
    reveal_strlit("search");
    assert("search"@.len() == 6);
    assert("after"@[0] == 'a');
    assert("first"@[0] == 'f');
    assert("limit"@[0] == 'l');
    assert("offset"@[0] == 'o');
    assert("search"@[0] == 's');
    let fields = options.members();
    lemma_variable_described(r, LIST_QUERY@, fields, "dlqEntries"@, "eventId"@);
    lemma_variable_described(r, LIST_QUERY@, fields, "dlqEntries"@, "replayed"@);
    lemma_variable_described(r, LIST_QUERY@, fields, "dlqEntries"@, "search"@);
    lemma_variable_described(r, LIST_QUERY@, fields, "dlqEntries"@, "limit"@);
    lemma_variable_described(r, LIST_QUERY@, fields, "dlqEntries"@, "offset"@);
    lemma_variable_described(r, LIST_QUERY@, fields, "dlqEntries"@, "after"@);
    lemma_variable_described(r, LIST_QUERY@, fields, "dlqEntries"@, "first"@);
}

/// What [`DLQService::replay`] sends: each argument, and each field of an
/// options or input argument, under its own camelCase name, holding that
/// value; an absent optional one is left out.
pub proof fn lemma_replay_sends_arguments(id: &str, r: GraphQLRequest)
    requires
        request_is(r, REPLAY_QUERY@, Some(field("id"@, Expected::Text(id@))), "replayDLQEntry"@),
    ensures
        text_of(variable(r, "id"@)) == Some(id@),
{
    broadcast use group_lookup;

    reveal_strlit("id");
    assert("id"@.len() == 2);
    let fields = field("id"@, Expected::Text(id@));
    lemma_variable_described(r, REPLAY_QUERY@, fields, "replayDLQEntry"@, "id"@);
}

/// What [`DLQService::purge`] sends: each argument, and each field of an
/// options or input argument, under its own camelCase name, holding that
/// value; an absent optional one is left out.
pub proof fn lemma_purge_sends_arguments(older_than: Option<&str>, r: GraphQLRequest)
    requires
        request_is(r, PURGE_QUERY@, Some(opt_str("olderThan"@, older_than)), "purgeDLQ"@),
    ensures
        sent_str(variable(r, "olderThan"@), older_than),
{
    broadcast use group_lookup;

    reveal_strlit("olderThan");
    assert("olderThan"@.len() == 9);
    let fields = opt_str("olderThan"@, older_than);
    lemma_variable_described(r, PURGE_QUERY@, fields, "purgeDLQ"@, "olderThan"@);
}

} // verus!
