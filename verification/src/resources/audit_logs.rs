//! Audit log service.

use crate::request::{
    Expected, ObjectBuilder, GraphQLRequest, request, field, opt_text, opt_int, request_is, group_lookup, lemma_variable_described, variable, text_of, sent_text, sent_int,
};
use vstd::prelude::*;

verus! {

broadcast use vstd::string::group_string_axioms;

/// Options for [`AuditLogService::list`].
#[derive(Debug, Default, Clone)]
#[non_exhaustive]
pub struct ListAuditLogsOptions {
    /// Filter by actor type.
    pub actor_type: Option<String>,
    /// Filter by resource type.
    pub resource_type: Option<String>,
    /// Filter by resource ID.
    pub resource_id: Option<String>,
    /// Filter by action.
    pub action: Option<String>,
    /// Filter by lower bound on `createdAt` (RFC3339).
    pub since: Option<String>,
    /// Filter by upper bound on `createdAt` (RFC3339).
    pub until: Option<String>,
    /// Free-text search.
    pub search: Option<String>,
    /// Offset-based page size.
    pub limit: Option<i32>,
    /// Offset-based page offset.
    pub offset: Option<i32>,
    /// Cursor for cursor-based pagination.
    pub after: Option<String>,
    /// Page size for cursor-based pagination.
    pub first: Option<i32>,
}

impl ListAuditLogsOptions {
    /// The members of the variables object these options are sent as:
    /// camelCase names, absent options left out.
    pub open spec fn members(self) -> Seq<(Seq<char>, Expected)> {
        opt_text("actorType"@, self.actor_type)
            + opt_text("resourceType"@, self.resource_type)
            + opt_text("resourceId"@, self.resource_id)
            + opt_text("action"@, self.action)
            + opt_text("since"@, self.since)
            + opt_text("until"@, self.until)
            + opt_text("search"@, self.search)
            + opt_int("limit"@, self.limit)
            + opt_int("offset"@, self.offset)
            + opt_text("after"@, self.after)
            + opt_int("first"@, self.first)
    }
}

/// The GraphQL document of `AuditLogService::list`.
pub const LIST_QUERY: &'static str = "query($actorType: String, $resourceType: String, $resourceId: UUID, $action: String, $since: Time, $until: Time, $search: String, $limit: Int, $offset: Int, $after: String, $first: Int) {\n                auditLogs(actorType: $actorType, resourceType: $resourceType, resourceId: $resourceId, action: $action, since: $since, until: $until, search: $search, limit: $limit, offset: $offset, after: $after, first: $first) {\n                    nodes { id actorType actorId actorName action resourceType resourceId orgId ipAddress userAgent details createdAt }\n                    pageInfo { total limit offset endCursor hasNextPage }\n                }\n            }";

/// The GraphQL document of `AuditLogService::get`.
pub const GET_QUERY: &'static str = "query($id: UUID!) { auditLog(id: $id) { id actorType actorId actorName action resourceType resourceId orgId ipAddress userAgent details createdAt } }";

/// Service for reading [`AuditLog`] entries.
pub struct AuditLogService;

impl AuditLogService {
    /// List audit log entries.
    pub fn list(&self, options: ListAuditLogsOptions) -> (r: GraphQLRequest)
        ensures
            request_is(r, LIST_QUERY@, Some(options.members()), "auditLogs"@),
    {
        let ghost spec = options.members();
        let mut v = ObjectBuilder::new();
        v.put_opt_text("actorType", options.actor_type);
        v.put_opt_text("resourceType", options.resource_type);
        v.put_opt_text("resourceId", options.resource_id);
        v.put_opt_text("action", options.action);
        v.put_opt_text("since", options.since);
        v.put_opt_text("until", options.until);
        v.put_opt_text("search", options.search);
        v.put_opt_int("limit", options.limit);
        v.put_opt_int("offset", options.offset);
        v.put_opt_text("after", options.after);
        v.put_opt_int("first", options.first);
        proof {
            assert(v.expected@ =~= spec);
        }
        request(LIST_QUERY, v, "auditLogs")
    }

    /// Get a single audit log entry.
    pub fn get(&self, id: &str) -> (r: GraphQLRequest)
        ensures
            request_is(r, GET_QUERY@, Some(field("id"@, Expected::Text(id@))), "auditLog"@),
    {
        let ghost spec = field("id"@, Expected::Text(id@));
        let mut v = ObjectBuilder::new();
        v.put_text("id", id);
        proof {
            assert(v.expected@ =~= spec);
        }
        request(GET_QUERY, v, "auditLog")
    }
}

/// Async variant of the audit-log service.
pub struct AsyncAuditLogService;

impl AsyncAuditLogService {
    /// List audit log entries.
    pub fn list(&self, options: ListAuditLogsOptions) -> (r: GraphQLRequest)
        ensures
            request_is(r, LIST_QUERY@, Some(options.members()), "auditLogs"@),
    {
        AuditLogService.list(options)
    }

    /// Get a single audit log entry.
    pub fn get(&self, id: &str) -> (r: GraphQLRequest)
        ensures
            request_is(r, GET_QUERY@, Some(field("id"@, Expected::Text(id@))), "auditLog"@),
    {
        AuditLogService.get(id)
    }
}

/// What [`AuditLogService::list`] sends: each argument, and each field of an
/// options or input argument, under its own camelCase name, holding that
/// value; an absent optional one is left out.
pub proof fn lemma_list_sends_arguments(options: ListAuditLogsOptions, r: GraphQLRequest)
    requires
        request_is(r, LIST_QUERY@, Some(options.members()), "auditLogs"@),
    ensures
        sent_text(variable(r, "actorType"@), options.actor_type),
        sent_text(variable(r, "resourceType"@), options.resource_type),
        sent_text(variable(r, "resourceId"@), options.resource_id),
        sent_text(variable(r, "action"@), options.action),
        sent_text(variable(r, "since"@), options.since),
        sent_text(variable(r, "until"@), options.until),
        sent_text(variable(r, "search"@), options.search),
        sent_int(variable(r, "limit"@), options.limit),
        sent_int(variable(r, "offset"@), options.offset),
        sent_text(variable(r, "after"@), options.after),
        sent_int(variable(r, "first"@), options.first),
{
    broadcast use group_lookup;

    reveal_strlit("action");
    assert("action"@.len() == 6);
    reveal_strlit("actorType");
    assert("actorType"@.len() == 9);
    reveal_strlit("after");
    assert("after"@.len() == 5);
    reveal_strlit("first");
    assert("first"@.len() == 5);
    reveal_strlit("limit");
    assert("limit"@.len() == 5);
    reveal_strlit("offset");
    assert("offset"@.len() == 6);
    reveal_strlit("resourceId");
    assert("resourceId"@.len() == 10);
    reveal_strlit("resourceType");
    assert("resourceType"@.len() == 12);
    reveal_strlit("search");
    assert("search"@.len() == 6);
    reveal_strlit("since");
    assert("since"@.len() == 5);
    reveal_strlit("until");
    assert("until"@.len() == 5);
    assert("action"@[0] == 'a');
    assert("offset"@[0] == 'o');
    assert("search"@[0] == 's');
    assert("after"@[0] == 'a');
    assert("first"@[0] == 'f');
    assert("limit"@[0] == 'l');
    assert("since"@[0] == 's');
    assert("until"@[0] == 'u');
    let fields = options.members();
    lemma_variable_described(r, LIST_QUERY@, fields, "auditLogs"@, "actorType"@);
    lemma_variable_described(r, LIST_QUERY@, fields, "auditLogs"@, "resourceType"@);
    lemma_variable_described(r, LIST_QUERY@, fields, "auditLogs"@, "resourceId"@);
    lemma_variable_described(r, LIST_QUERY@, fields, "auditLogs"@, "action"@);
    lemma_variable_described(r, LIST_QUERY@, fields, "auditLogs"@, "since"@);
    lemma_variable_described(r, LIST_QUERY@, fields, "auditLogs"@, "until"@);
    lemma_variable_described(r, LIST_QUERY@, fields, "auditLogs"@, "search"@);
    lemma_variable_described(r, LIST_QUERY@, fields, "auditLogs"@, "limit"@);
    lemma_variable_described(r, LIST_QUERY@, fields, "auditLogs"@, "offset"@);
    lemma_variable_described(r, LIST_QUERY@, fields, "auditLogs"@, "after"@);
    lemma_variable_described(r, LIST_QUERY@, fields, "auditLogs"@, "first"@);
}

/// What [`AuditLogService::get`] sends: each argument, and each field of an
/// options or input argument, under its own camelCase name, holding that
/// value; an absent optional one is left out.
pub proof fn lemma_get_sends_arguments(id: &str, r: GraphQLRequest)
    requires
        request_is(r, GET_QUERY@, Some(field("id"@, Expected::Text(id@))), "auditLog"@),
    ensures
        text_of(variable(r, "id"@)) == Some(id@),
{
    broadcast use group_lookup;

    reveal_strlit("id");
    assert("id"@.len() == 2);
    let fields = field("id"@, Expected::Text(id@));
    lemma_variable_described(r, GET_QUERY@, fields, "auditLog"@, "id"@);
}

} // verus!
