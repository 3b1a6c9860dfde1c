//! Outbound endpoint management.

use crate::request::{
    Expected, ObjectBuilder, GraphQLRequest, request, field, opt_text, opt_int, texts, request_is, group_lookup, lemma_variable_described, variable, text_of, sent_text, sent_int,
};
use vstd::prelude::*;

verus! {

broadcast use vstd::string::group_string_axioms;

/// Options for [`EndpointService::list`].
#[derive(Debug, Default, Clone)]
#[non_exhaustive]
pub struct ListEndpointsOptions {
    /// Filter by application ID.
    pub application_id: Option<String>,
    /// Filter by status.
    pub status: Option<String>,
    /// Free-text search.
    pub search: Option<String>,
    /// Offset-based page size.
    pub limit: Option<i32>,
    /// Offset-based page offset.
    pub offset: Option<i32>,
    /// Cursor for cursor-based pagination.
    pub after: Option<String>,
    /// Page size for cursor-based pagination.
    pub first: Option<i32>,
}

impl ListEndpointsOptions {
    /// The members of the variables object these options are sent as:
    /// camelCase names, absent options left out.
    pub open spec fn members(self) -> Seq<(Seq<char>, Expected)> {
        opt_text("applicationId"@, self.application_id)
            + opt_text("status"@, self.status)
            + opt_text("search"@, self.search)
            + opt_int("limit"@, self.limit)
            + opt_int("offset"@, self.offset)
            + opt_text("after"@, self.after)
            + opt_int("first"@, self.first)
    }
}

/// The GraphQL document of `EndpointService::list`.
pub const LIST_QUERY: &'static str = "query($applicationId: UUID, $status: EndpointStatus, $search: String, $limit: Int, $offset: Int, $after: String, $first: Int) {\n                endpoints(applicationId: $applicationId, status: $status, search: $search, limit: $limit, offset: $offset, after: $after, first: $first) {\n                    nodes { id applicationId url signingSecret status type typeConfig rateLimitRps timeoutMs retryPolicy { maxAttempts initialDelay maxDelay backoffFactor } filterConfig { eventTypes regex bodyMatch { path value operator } rules { path operator value rules { path operator value } } } headers authType oauth2Config { tokenUrl clientId clientSecret scopes audience } mtlsCert mtlsKey deliveryMode pollApiKeyPrefix pollApiKey ordered blockedDeliveryId healthScore disabledReason healthConfig { windowHours disableBelow } outputFormat createdAt }\n                    pageInfo { total limit offset endCursor hasNextPage }\n                }\n            }";

/// The GraphQL document of `EndpointService::get`.
pub const GET_QUERY: &'static str = "query($id: UUID!) { endpoint(id: $id) { id applicationId url signingSecret status type typeConfig rateLimitRps timeoutMs retryPolicy { maxAttempts initialDelay maxDelay backoffFactor } filterConfig { eventTypes regex bodyMatch { path value operator } rules { path operator value rules { path operator value } } } headers authType oauth2Config { tokenUrl clientId clientSecret scopes audience } mtlsCert mtlsKey deliveryMode pollApiKeyPrefix pollApiKey ordered blockedDeliveryId healthScore disabledReason healthConfig { windowHours disableBelow } outputFormat createdAt } }";

/// The GraphQL document of `EndpointService::delete`.
pub const DELETE_QUERY: &'static str = "mutation($id: UUID!) { deleteEndpoint(id: $id) }";

/// The GraphQL document of `EndpointService::rotate_secret`.
pub const ROTATE_SECRET_QUERY: &'static str = "mutation($id: UUID!) { rotateEndpointSecret(id: $id) { id applicationId url signingSecret status type typeConfig rateLimitRps timeoutMs retryPolicy { maxAttempts initialDelay maxDelay backoffFactor } filterConfig { eventTypes regex bodyMatch { path value operator } rules { path operator value rules { path operator value } } } headers authType oauth2Config { tokenUrl clientId clientSecret scopes audience } mtlsCert mtlsKey deliveryMode pollApiKeyPrefix pollApiKey ordered blockedDeliveryId healthScore disabledReason healthConfig { windowHours disableBelow } outputFormat createdAt } }";

/// The GraphQL document of `EndpointService::poll_deliveries`.
pub const POLL_DELIVERIES_QUERY: &'static str = "query($endpointId: UUID!, $cursor: String, $limit: Int) {\n                pollOutboundDeliveries(endpointId: $endpointId, cursor: $cursor, limit: $limit) {\n                    nodes { id messageId endpointId status attempts maxAttempts nextAttemptAt createdAt }\n                    pageInfo { total limit offset endCursor hasNextPage }\n                }\n            }";

/// The GraphQL document of `EndpointService::ack_deliveries`.
pub const ACK_DELIVERIES_QUERY: &'static str = "mutation($endpointId: UUID!, $deliveryIds: [UUID!]!) { ackOutboundDeliveries(endpointId: $endpointId, deliveryIds: $deliveryIds) }";

/// The GraphQL document of `EndpointService::regenerate_poll_api_key`.
pub const REGENERATE_POLL_API_KEY_QUERY: &'static str = "mutation($endpointId: UUID!) { regenerateOutboundPollApiKey(endpointId: $endpointId) { id applicationId url signingSecret status type typeConfig rateLimitRps timeoutMs retryPolicy { maxAttempts initialDelay maxDelay backoffFactor } filterConfig { eventTypes regex bodyMatch { path value operator } rules { path operator value rules { path operator value } } } headers authType oauth2Config { tokenUrl clientId clientSecret scopes audience } mtlsCert mtlsKey deliveryMode pollApiKeyPrefix pollApiKey ordered blockedDeliveryId healthScore disabledReason healthConfig { windowHours disableBelow } outputFormat createdAt } }";

/// The GraphQL document of `EndpointService::skip_outbound_dlq_entry`.
pub const SKIP_OUTBOUND_DLQ_ENTRY_QUERY: &'static str = "mutation($id: UUID!) { skipOutboundDlqEntry(id: $id) }";

/// Service for managing [`Endpoint`] resources.
pub struct EndpointService;

impl EndpointService {
    /// List endpoints.
    pub fn list(&self, options: ListEndpointsOptions) -> (r: GraphQLRequest)
        ensures
            request_is(r, LIST_QUERY@, Some(options.members()), "endpoints"@),
    {
        let ghost spec = options.members();
        let mut v = ObjectBuilder::new();
        v.put_opt_text("applicationId", options.application_id);
        v.put_opt_text("status", options.status);
        v.put_opt_text("search", options.search);
        v.put_opt_int("limit", options.limit);
        v.put_opt_int("offset", options.offset);
        v.put_opt_text("after", options.after);
        v.put_opt_int("first", options.first);
        proof {
            assert(v.expected@ =~= spec);
        }
        request(LIST_QUERY, v, "endpoints")
    }

    /// Get an endpoint by ID.
    pub fn get(&self, id: &str) -> (r: GraphQLRequest)
        ensures
            request_is(r, GET_QUERY@, Some(field("id"@, Expected::Text(id@))), "endpoint"@),
    {
        let ghost spec = field("id"@, Expected::Text(id@));
        let mut v = ObjectBuilder::new();
        v.put_text("id", id);
        proof {
            assert(v.expected@ =~= spec);
        }
        request(GET_QUERY, v, "endpoint")
    }

    /// Delete an endpoint.
    pub fn delete(&self, id: &str) -> (r: GraphQLRequest)
        ensures
            request_is(
                r,
                DELETE_QUERY@,
                Some(field("id"@, Expected::Text(id@))),
                "deleteEndpoint"@,
            ),
    {
        let ghost spec = field("id"@, Expected::Text(id@));
        let mut v = ObjectBuilder::new();
        v.put_text("id", id);
        proof {
            assert(v.expected@ =~= spec);
        }
        request(DELETE_QUERY, v, "deleteEndpoint")
    }

    /// Rotate the endpoint's signing secret.
    pub fn rotate_secret(&self, id: &str) -> (r: GraphQLRequest)
        ensures
            request_is(
                r,
                ROTATE_SECRET_QUERY@,
                Some(field("id"@, Expected::Text(id@))),
                "rotateEndpointSecret"@,
            ),
    {
        let ghost spec = field("id"@, Expected::Text(id@));
        let mut v = ObjectBuilder::new();
        v.put_text("id", id);
        proof {
            assert(v.expected@ =~= spec);
        }
        request(ROTATE_SECRET_QUERY, v, "rotateEndpointSecret")
    }

    /// Poll the endpoint for outstanding outbound deliveries.
    pub fn poll_deliveries(
        &self,
        endpoint_id: &str,
        cursor: Option<String>,
        limit: Option<i32>,
    ) -> (r: GraphQLRequest)
        ensures
            request_is(
                r,
                POLL_DELIVERIES_QUERY@,
                Some(
                    field("endpointId"@, Expected::Text(endpoint_id@))
                        + opt_text("cursor"@, cursor)
                        + opt_int("limit"@, limit),
                ),
                "pollOutboundDeliveries"@,
            ),
    {
        let ghost spec =
            field("endpointId"@, Expected::Text(endpoint_id@))
                + opt_text("cursor"@, cursor)
                + opt_int("limit"@, limit);
        let mut v = ObjectBuilder::new();
        v.put_text("endpointId", endpoint_id);
        v.put_opt_text("cursor", cursor);
        v.put_opt_int("limit", limit);
        proof {
            assert(v.expected@ =~= spec);
        }
        request(POLL_DELIVERIES_QUERY, v, "pollOutboundDeliveries")
    }

    /// Acknowledge polled deliveries. Returns the number of acknowledged
    /// deliveries.
    pub fn ack_deliveries(&self, endpoint_id: &str, delivery_ids: &[String]) -> (r: GraphQLRequest)
        ensures
            request_is(
                r,
                ACK_DELIVERIES_QUERY@,
                Some(
                    field("endpointId"@, Expected::Text(endpoint_id@))
                        + field("deliveryIds"@, Expected::Texts(texts(delivery_ids@))),
                ),
                "ackOutboundDeliveries"@,
            ),
    {
        let ghost spec =
            field("endpointId"@, Expected::Text(endpoint_id@))
                + field("deliveryIds"@, Expected::Texts(texts(delivery_ids@)));
        let mut v = ObjectBuilder::new();
        v.put_text("endpointId", endpoint_id);
        v.put_text_slice("deliveryIds", delivery_ids);
        proof {
            assert(v.expected@ =~= spec);
        }
        request(ACK_DELIVERIES_QUERY, v, "ackOutboundDeliveries")
    }

    /// Regenerate the poll API key for this endpoint.
    pub fn regenerate_poll_api_key(&self, endpoint_id: &str) -> (r: GraphQLRequest)
        ensures
            request_is(
                r,
                REGENERATE_POLL_API_KEY_QUERY@,
                Some(field("endpointId"@, Expected::Text(endpoint_id@))),
                "regenerateOutboundPollApiKey"@,
            ),
    {
        let ghost spec = field("endpointId"@, Expected::Text(endpoint_id@));
        let mut v = ObjectBuilder::new();
        v.put_text("endpointId", endpoint_id);
        proof {
            assert(v.expected@ =~= spec);
        }
        request(REGENERATE_POLL_API_KEY_QUERY, v, "regenerateOutboundPollApiKey")
    }

    /// Skip an outbound DLQ entry without replay.
    pub fn skip_outbound_dlq_entry(&self, id: &str) -> (r: GraphQLRequest)
        ensures
            request_is(
                r,
                SKIP_OUTBOUND_DLQ_ENTRY_QUERY@,
                Some(field("id"@, Expected::Text(id@))),
                "skipOutboundDlqEntry"@,
            ),
    {
        let ghost spec = field("id"@, Expected::Text(id@));
        let mut v = ObjectBuilder::new();
        v.put_text("id", id);
        proof {
            assert(v.expected@ =~= spec);
        }
        request(SKIP_OUTBOUND_DLQ_ENTRY_QUERY, v, "skipOutboundDlqEntry")
    }
}

/// Async variant of the endpoint service.
pub struct AsyncEndpointService;

impl AsyncEndpointService {
    /// List endpoints.
    pub fn list(&self, options: ListEndpointsOptions) -> (r: GraphQLRequest)
        ensures
            request_is(r, LIST_QUERY@, Some(options.members()), "endpoints"@),
    {
        EndpointService.list(options)
    }

    /// Get an endpoint by ID.
    pub fn get(&self, id: &str) -> (r: GraphQLRequest)
        ensures
            request_is(r, GET_QUERY@, Some(field("id"@, Expected::Text(id@))), "endpoint"@),
    {
        EndpointService.get(id)
    }

    /// Delete an endpoint.
    pub fn delete(&self, id: &str) -> (r: GraphQLRequest)
        ensures
            request_is(
                r,
                DELETE_QUERY@,
                Some(field("id"@, Expected::Text(id@))),
                "deleteEndpoint"@,
            ),
    {
        EndpointService.delete(id)
    }

    /// Rotate the endpoint's signing secret.
    pub fn rotate_secret(&self, id: &str) -> (r: GraphQLRequest)
        ensures
            request_is(
                r,
                ROTATE_SECRET_QUERY@,
                Some(field("id"@, Expected::Text(id@))),
                "rotateEndpointSecret"@,
            ),
    {
        EndpointService.rotate_secret(id)
    }

    /// Poll the endpoint for outstanding outbound deliveries.
    pub fn poll_deliveries(
        &self,
        endpoint_id: &str,
        cursor: Option<String>,
        limit: Option<i32>,
    ) -> (r: GraphQLRequest)
        ensures
            request_is(
                r,
                POLL_DELIVERIES_QUERY@,
                Some(
                    field("endpointId"@, Expected::Text(endpoint_id@))
                        + opt_text("cursor"@, cursor)
                        + opt_int("limit"@, limit),
                ),
                "pollOutboundDeliveries"@,
            ),
    {
        EndpointService.poll_deliveries(endpoint_id, cursor, limit)
    }

    /// Acknowledge polled deliveries. Returns the number of acknowledged
    /// deliveries.
    pub fn ack_deliveries(&self, endpoint_id: &str, delivery_ids: &[String]) -> (r: GraphQLRequest)
        ensures
            request_is(
                r,
                ACK_DELIVERIES_QUERY@,
                Some(
                    field("endpointId"@, Expected::Text(endpoint_id@))
                        + field("deliveryIds"@, Expected::Texts(texts(delivery_ids@))),
                ),
                "ackOutboundDeliveries"@,
            ),
    {
        EndpointService.ack_deliveries(endpoint_id, delivery_ids)
    }

    /// Regenerate the poll API key for this endpoint.
    pub fn regenerate_poll_api_key(&self, endpoint_id: &str) -> (r: GraphQLRequest)
        ensures
            request_is(
                r,
                REGENERATE_POLL_API_KEY_QUERY@,
                Some(field("endpointId"@, Expected::Text(endpoint_id@))),
                "regenerateOutboundPollApiKey"@,
            ),
    {
        EndpointService.regenerate_poll_api_key(endpoint_id)
    }

    /// Skip an outbound DLQ entry without replay.
    pub fn skip_outbound_dlq_entry(&self, id: &str) -> (r: GraphQLRequest)
        ensures
            request_is(
                r,
                SKIP_OUTBOUND_DLQ_ENTRY_QUERY@,
                Some(field("id"@, Expected::Text(id@))),
                "skipOutboundDlqEntry"@,
            ),
    {
        EndpointService.skip_outbound_dlq_entry(id)
    }
}

/// What [`EndpointService::list`] sends: each argument, and each field of an
/// options or input argument, under its own camelCase name, holding that
/// value; an absent optional one is left out.
pub proof fn lemma_list_sends_arguments(options: ListEndpointsOptions, r: GraphQLRequest)
    requires
        request_is(r, LIST_QUERY@, Some(options.members()), "endpoints"@),
    ensures
        sent_text(variable(r, "applicationId"@), options.application_id),
        sent_text(variable(r, "status"@), options.status),
        sent_text(variable(r, "search"@), options.search),
        sent_int(variable(r, "limit"@), options.limit),
        sent_int(variable(r, "offset"@), options.offset),
        sent_text(variable(r, "after"@), options.after),
        sent_int(variable(r, "first"@), options.first),
{
    broadcast use group_lookup;

    reveal_strlit("after");
    assert("after"@.len() == 5);
    reveal_strlit("applicationId");
    assert("applicationId"@.len() == 13);
    reveal_strlit("first");
    assert("first"@.len() == 5);
    reveal_strlit("limit");
    assert("limit"@.len() == 5);
    reveal_strlit("offset");
    assert("offset"@.len() == 6);
    reveal_strlit("search");
    assert("search"@.len() == 6);
    reveal_strlit("status");
    assert("status"@.len() == 6);
    assert("after"@[0] == 'a');
    assert("first"@[0] == 'f');
    assert("limit"@[0] == 'l');
    assert("offset"@[0] == 'o');
    assert("search"@[0] == 's');
    assert("status"@[0] == 's');
    assert("search"@[1] == 'e');
    assert("status"@[1] == 't');
    let fields = options.members();
    lemma_variable_described(r, LIST_QUERY@, fields, "endpoints"@, "applicationId"@);
    lemma_variable_described(r, LIST_QUERY@, fields, "endpoints"@, "status"@);
    lemma_variable_described(r, LIST_QUERY@, fields, "endpoints"@, "search"@);
    lemma_variable_described(r, LIST_QUERY@, fields, "endpoints"@, "limit"@);
    lemma_variable_described(r, LIST_QUERY@, fields, "endpoints"@, "offset"@);
    lemma_variable_described(r, LIST_QUERY@, fields, "endpoints"@, "after"@);
    lemma_variable_described(r, LIST_QUERY@, fields, "endpoints"@, "first"@);
}

/// What [`EndpointService::get`] sends: each argument, and each field of an
/// options or input argument, under its own camelCase name, holding that
/// value; an absent optional one is left out.
pub proof fn lemma_get_sends_arguments(id: &str, r: GraphQLRequest)
    requires
        request_is(r, GET_QUERY@, Some(field("id"@, Expected::Text(id@))), "endpoint"@),
    ensures
        text_of(variable(r, "id"@)) == Some(id@),
{
    broadcast use group_lookup;

    reveal_strlit("id");
    assert("id"@.len() == 2);
    let fields = field("id"@, Expected::Text(id@));
    lemma_variable_described(r, GET_QUERY@, fields, "endpoint"@, "id"@);
}

/// What [`EndpointService::delete`] sends: each argument, and each field of an
/// options or input argument, under its own camelCase name, holding that
/// value; an absent optional one is left out.
pub proof fn lemma_delete_sends_arguments(id: &str, r: GraphQLRequest)
    requires
        request_is(r, DELETE_QUERY@, Some(field("id"@, Expected::Text(id@))), "deleteEndpoint"@),
    ensures
        text_of(variable(r, "id"@)) == Some(id@),
{
    broadcast use group_lookup;

    reveal_strlit("id");
    assert("id"@.len() == 2);
    let fields = field("id"@, Expected::Text(id@));
    lemma_variable_described(r, DELETE_QUERY@, fields, "deleteEndpoint"@, "id"@);
}

/// What [`EndpointService::rotate_secret`] sends: each argument, and each field of an
/// options or input argument, under its own camelCase name, holding that
/// value; an absent optional one is left out.
pub proof fn lemma_rotate_secret_sends_arguments(id: &str, r: GraphQLRequest)
    requires
        request_is(
            r,
            ROTATE_SECRET_QUERY@,
            Some(field("id"@, Expected::Text(id@))),
            "rotateEndpointSecret"@,
        ),
    ensures
        text_of(variable(r, "id"@)) == Some(id@),
{
    broadcast use group_lookup;

    reveal_strlit("id");
    assert("id"@.len() == 2);
    let fields = field("id"@, Expected::Text(id@));
    lemma_variable_described(r, ROTATE_SECRET_QUERY@, fields, "rotateEndpointSecret"@, "id"@);
}

/// What [`EndpointService::poll_deliveries`] sends: each argument, and each field of an
/// options or input argument, under its own camelCase name, holding that
/// value; an absent optional one is left out.
pub proof fn lemma_poll_deliveries_sends_arguments(
    endpoint_id: &str,
    cursor: Option<String>,
    limit: Option<i32>,
    r: GraphQLRequest,
)
    requires
        request_is(
            r,
            POLL_DELIVERIES_QUERY@,
            Some(
                field("endpointId"@, Expected::Text(endpoint_id@))
                    + opt_text("cursor"@, cursor)
                    + opt_int("limit"@, limit),
            ),
            "pollOutboundDeliveries"@,
        ),
    ensures
        text_of(variable(r, "endpointId"@)) == Some(endpoint_id@),
        sent_text(variable(r, "cursor"@), cursor),
        sent_int(variable(r, "limit"@), limit),
{
    broadcast use group_lookup;

    reveal_strlit("cursor");
    assert("cursor"@.len() == 6);
    reveal_strlit("endpointId");
    assert("endpointId"@.len() == 10);
    reveal_strlit("limit");
    assert("limit"@.len() == 5);
    let fields = field(
        "endpointId"@,
        Expected::Text(endpoint_id@)) + opt_text("cursor"@,
        cursor) + opt_int("limit"@,
        limit,
    );
    lemma_variable_described(
        r,
        POLL_DELIVERIES_QUERY@,
        fields,
        "pollOutboundDeliveries"@,
        "endpointId"@,
    );
    lemma_variable_described(
        r,
        POLL_DELIVERIES_QUERY@,
        fields,
        "pollOutboundDeliveries"@,
        "cursor"@,
    );
    lemma_variable_described(
        r,
        POLL_DELIVERIES_QUERY@,
        fields,
        "pollOutboundDeliveries"@,
        "limit"@,
    );
}

/// What [`EndpointService::ack_deliveries`] sends: each argument, and each field of an
/// options or input argument, under its own camelCase name, holding that
/// value; an absent optional one is left out.
pub proof fn lemma_ack_deliveries_sends_arguments(
    endpoint_id: &str,
    delivery_ids: &[String],
    r: GraphQLRequest,
)
    requires
        request_is(
            r,
            ACK_DELIVERIES_QUERY@,
            Some(
                field("endpointId"@, Expected::Text(endpoint_id@))
                    + field("deliveryIds"@, Expected::Texts(texts(delivery_ids@))),
            ),
            "ackOutboundDeliveries"@,
        ),
    ensures
        text_of(variable(r, "endpointId"@)) == Some(endpoint_id@),
{
    broadcast use group_lookup;

    reveal_strlit("deliveryIds");
    assert("deliveryIds"@.len() == 11);
    reveal_strlit("endpointId");
    assert("endpointId"@.len() == 10);
    let fields = field(
        "endpointId"@,
        Expected::Text(endpoint_id@)) + field("deliveryIds"@,
        Expected::Texts(texts(delivery_ids@)),
    );
    lemma_variable_described(
        r,
        ACK_DELIVERIES_QUERY@,
        fields,
        "ackOutboundDeliveries"@,
        "endpointId"@,
    );
}

/// What [`EndpointService::regenerate_poll_api_key`] sends: each argument, and each field of an
/// options or input argument, under its own camelCase name, holding that
/// value; an absent optional one is left out.
pub proof fn lemma_regenerate_poll_api_key_sends_arguments(endpoint_id: &str, r: GraphQLRequest)
    requires
        request_is(
            r,
            REGENERATE_POLL_API_KEY_QUERY@,
            Some(field("endpointId"@, Expected::Text(endpoint_id@))),
            "regenerateOutboundPollApiKey"@,
        ),
    ensures
        text_of(variable(r, "endpointId"@)) == Some(endpoint_id@),
{
    broadcast use group_lookup;

    reveal_strlit("endpointId");
    assert("endpointId"@.len() == 10);
    let fields = field("endpointId"@, Expected::Text(endpoint_id@));
    lemma_variable_described(
        r,
        REGENERATE_POLL_API_KEY_QUERY@,
        fields,
        "regenerateOutboundPollApiKey"@,
        "endpointId"@,
    );
}

/// What [`EndpointService::skip_outbound_dlq_entry`] sends: each argument, and each field of an
/// options or input argument, under its own camelCase name, holding that
/// value; an absent optional one is left out.
pub proof fn lemma_skip_outbound_dlq_entry_sends_arguments(id: &str, r: GraphQLRequest)
    requires
        request_is(
            r,
            SKIP_OUTBOUND_DLQ_ENTRY_QUERY@,
            Some(field("id"@, Expected::Text(id@))),
            "skipOutboundDlqEntry"@,
        ),
    ensures
        text_of(variable(r, "id"@)) == Some(id@),
{
    broadcast use group_lookup;

    reveal_strlit("id");
    assert("id"@.len() == 2);
    let fields = field("id"@, Expected::Text(id@));
    lemma_variable_described(
        r,
        SKIP_OUTBOUND_DLQ_ENTRY_QUERY@,
        fields,
        "skipOutboundDlqEntry"@,
        "id"@,
    );
}

} // verus!
