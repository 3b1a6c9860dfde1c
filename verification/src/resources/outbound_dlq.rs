//! Outbound dead-letter queue service.

use crate::request::{
    Expected, ObjectBuilder, GraphQLRequest, request, request_without_variables, field, opt_text, opt_int, opt_flag, opt_str, request_is, group_lookup, lemma_variable_described, variable, sent_text, sent_int, sent_flag, text_of, sent_str,
};
use vstd::prelude::*;

verus! {

broadcast use vstd::string::group_string_axioms;

/// Options for [`OutboundDLQService::list`].
#[derive(Debug, Default, Clone)]
#[non_exhaustive]
pub struct ListOutboundDlqOptions {
    /// Filter by message ID.
    pub message_id: Option<String>,
    /// Filter by whether the entry has been replayed.
    pub replayed: Option<bool>,
    /// Free-text search.
    pub search: Option<String>,
    /// Offset-based page size.
    pub limit: Option<i32>,
    /// Offset-based page offset.
    pub offset: Option<i32>,
    /// Cursor for cursor-based pagination.
    pub after: Option<String>,
    /// Page size for cursor-based pagination.
    pub first: Option<i32>,
}

impl ListOutboundDlqOptions {
    /// The members of the variables object these options are sent as:
    /// camelCase names, absent options left out.
    pub open spec fn members(self) -> Seq<(Seq<char>, Expected)> {
        opt_text("messageId"@, self.message_id)
            + opt_flag("replayed"@, self.replayed)
            + opt_text("search"@, self.search)
            + opt_int("limit"@, self.limit)
            + opt_int("offset"@, self.offset)
            + opt_text("after"@, self.after)
            + opt_int("first"@, self.first)
    }
}

/// The GraphQL document of `OutboundDLQService::list`.
pub const LIST_QUERY: &'static str = "query($messageId: UUID, $replayed: Boolean, $search: String, $limit: Int, $offset: Int, $after: String, $first: Int) {\n                outboundDlqEntries(messageId: $messageId, replayed: $replayed, search: $search, limit: $limit, offset: $offset, after: $after, first: $first) {\n                    nodes { id deliveryId messageId lastError replayedAt createdAt }\n                    pageInfo { total limit offset endCursor hasNextPage }\n                }\n            }";

/// The GraphQL document of `OutboundDLQService::replay`.
pub const REPLAY_QUERY: &'static str = "mutation($id: UUID!) { replayOutboundDlqEntry(id: $id) }";

/// The GraphQL document of `OutboundDLQService::replay_all`.
pub const REPLAY_ALL_QUERY: &'static str = "mutation { replayAllOutboundDlq { deliveries } }";

/// The GraphQL document of `OutboundDLQService::purge`.
pub const PURGE_QUERY: &'static str = "mutation($olderThan: String) { purgeOutboundDlq(olderThan: $olderThan) { purged } }";

/// Service for inspecting and replaying the outbound DLQ.
pub struct OutboundDLQService;

impl OutboundDLQService {
    /// List outbound DLQ entries.
    pub fn list(&self, options: ListOutboundDlqOptions) -> (r: GraphQLRequest)
        ensures
            request_is(r, LIST_QUERY@, Some(options.members()), "outboundDlqEntries"@),
    {
        let ghost spec = options.members();
        let mut v = ObjectBuilder::new();
        v.put_opt_text("messageId", options.message_id);
        v.put_opt_flag("replayed", options.replayed);
        v.put_opt_text("search", options.search);
        v.put_opt_int("limit", options.limit);
        v.put_opt_int("offset", options.offset);
        v.put_opt_text("after", options.after);
        v.put_opt_int("first", options.first);
        proof {
            assert(v.expected@ =~= spec);
        }
        request(LIST_QUERY, v, "outboundDlqEntries")
    }

    /// Replay a single outbound DLQ entry.
    pub fn replay(&self, id: &str) -> (r: GraphQLRequest)
        ensures
            request_is(
                r,
                REPLAY_QUERY@,
                Some(field("id"@, Expected::Text(id@))),
                "replayOutboundDlqEntry"@,
            ),
    {
        let ghost spec = field("id"@, Expected::Text(id@));
        let mut v = ObjectBuilder::new();
        v.put_text("id", id);
        proof {
            assert(v.expected@ =~= spec);
        }
        request(REPLAY_QUERY, v, "replayOutboundDlqEntry")
    }

    /// Replay every entry in the outbound DLQ.
    pub fn replay_all(&self) -> (r: GraphQLRequest)
        ensures
            request_is(r, REPLAY_ALL_QUERY@, None, "replayAllOutboundDlq"@),
    {
        request_without_variables(REPLAY_ALL_QUERY, "replayAllOutboundDlq")
    }

    /// Purge entries older than the supplied Go duration string. Pass `None`
    /// to purge everything.
    pub fn purge(&self, older_than: Option<&str>) -> (r: GraphQLRequest)
        ensures
            request_is(
                r,
                PURGE_QUERY@,
                Some(opt_str("olderThan"@, older_than)),
                "purgeOutboundDlq"@,
            ),
    {
        let ghost spec = opt_str("olderThan"@, older_than);
        let mut v = ObjectBuilder::new();
        v.put_opt_str("olderThan", older_than);
        proof {
            assert(v.expected@ =~= spec);
        }
        request(PURGE_QUERY, v, "purgeOutboundDlq")
    }
}

/// Async variant of the outbound DLQ service.
pub struct AsyncOutboundDLQService;

impl AsyncOutboundDLQService {
    /// List outbound DLQ entries.
    pub fn list(&self, options: ListOutboundDlqOptions) -> (r: GraphQLRequest)
        ensures
            request_is(r, LIST_QUERY@, Some(options.members()), "outboundDlqEntries"@),
    {
        OutboundDLQService.list(options)
    }

    /// Replay a single outbound DLQ entry.
    pub fn replay(&self, id: &str) -> (r: GraphQLRequest)
        ensures
            request_is(
                r,
                REPLAY_QUERY@,
                Some(field("id"@, Expected::Text(id@))),
                "replayOutboundDlqEntry"@,
            ),
    {
        OutboundDLQService.replay(id)
    }

    /// Replay every entry in the outbound DLQ.
    pub fn replay_all(&self) -> (r: GraphQLRequest)
        ensures
            request_is(r, REPLAY_ALL_QUERY@, None, "replayAllOutboundDlq"@),
    {
        OutboundDLQService.replay_all()
    }

    /// Purge entries older than the supplied Go duration string. Pass `None`
    /// to purge everything.
    pub fn purge(&self, older_than: Option<&str>) -> (r: GraphQLRequest)
        ensures
            request_is(
                r,
                PURGE_QUERY@,
                Some(opt_str("olderThan"@, older_than)),
                "purgeOutboundDlq"@,
            ),
    {
        OutboundDLQService.purge(older_than)
    }
}

/// What [`OutboundDLQService::list`] sends: each argument, and each field of an
/// options or input argument, under its own camelCase name, holding that
/// value; an absent optional one is left out.
pub proof fn lemma_list_sends_arguments(options: ListOutboundDlqOptions, r: GraphQLRequest)
    requires
        request_is(r, LIST_QUERY@, Some(options.members()), "outboundDlqEntries"@),
    ensures
        sent_text(variable(r, "messageId"@), options.message_id),
        sent_flag(variable(r, "replayed"@), options.replayed),
        sent_text(variable(r, "search"@), options.search),
        sent_int(variable(r, "limit"@), options.limit),
        sent_int(variable(r, "offset"@), options.offset),
        sent_text(variable(r, "after"@), options.after),
        sent_int(variable(r, "first"@), options.first),
{
    broadcast use group_lookup;

    reveal_strlit("after");
    assert("after"@.len() == 5);
    reveal_strlit("first");
    assert("first"@.len() == 5);
    reveal_strlit("limit");
    assert("limit"@.len() == 5);
    reveal_strlit("messageId");
    assert("messageId"@.len() == 9);
    reveal_strlit("offset");
    assert("offset"@.len() == 6);
    reveal_strlit("replayed");
    assert("replayed"@.len() == 8);
    reveal_strlit("search");
    assert("search"@.len() == 6);
    assert("after"@[0] == 'a');
    assert("first"@[0] == 'f');
    assert("limit"@[0] == 'l');
    assert("offset"@[0] == 'o');
    assert("search"@[0] == 's');
    let fields = options.members();
    lemma_variable_described(r, LIST_QUERY@, fields, "outboundDlqEntries"@, "messageId"@);
    lemma_variable_described(r, LIST_QUERY@, fields, "outboundDlqEntries"@, "replayed"@);
    lemma_variable_described(r, LIST_QUERY@, fields, "outboundDlqEntries"@, "search"@);
    lemma_variable_described(r, LIST_QUERY@, fields, "outboundDlqEntries"@, "limit"@);
    lemma_variable_described(r, LIST_QUERY@, fields, "outboundDlqEntries"@, "offset"@);
    lemma_variable_described(r, LIST_QUERY@, fields, "outboundDlqEntries"@, "after"@);
    lemma_variable_described(r, LIST_QUERY@, fields, "outboundDlqEntries"@, "first"@);
}

/// What [`OutboundDLQService::replay`] sends: each argument, and each field of an
/// options or input argument, under its own camelCase name, holding that
/// value; an absent optional one is left out.
pub proof fn lemma_replay_sends_arguments(id: &str, r: GraphQLRequest)
    requires
        request_is(
            r,
            REPLAY_QUERY@,
            Some(field("id"@, Expected::Text(id@))),
            "replayOutboundDlqEntry"@,
        ),
    ensures
        text_of(variable(r, "id"@)) == Some(id@),
{
    broadcast use group_lookup;

    reveal_strlit("id");
    assert("id"@.len() == 2);
    let fields = field("id"@, Expected::Text(id@));
    lemma_variable_described(r, REPLAY_QUERY@, fields, "replayOutboundDlqEntry"@, "id"@);
}

/// What [`OutboundDLQService::purge`] sends: each argument, and each field of an
/// options or input argument, under its own camelCase name, holding that
/// value; an absent optional one is left out.
pub proof fn lemma_purge_sends_arguments(older_than: Option<&str>, r: GraphQLRequest)
    requires
        request_is(r, PURGE_QUERY@, Some(opt_str("olderThan"@, older_than)), "purgeOutboundDlq"@),
    ensures
        sent_str(variable(r, "olderThan"@), older_than),
{
    broadcast use group_lookup;

    reveal_strlit("olderThan");
    assert("olderThan"@.len() == 9);
    let fields = opt_str("olderThan"@, older_than);
    lemma_variable_described(r, PURGE_QUERY@, fields, "purgeOutboundDlq"@, "olderThan"@);
}

} // verus!
