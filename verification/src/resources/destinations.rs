//! Destinations resource: outbound HTTP/SQS/etc. targets.

use crate::request::{
    Expected, ObjectBuilder, GraphQLRequest, request, field, opt_text, opt_int, texts, request_is, group_lookup, lemma_variable_described, variable, text_of, sent_text, sent_int,
};
use vstd::prelude::*;

verus! {

broadcast use vstd::string::group_string_axioms;

/// Options for the `list` method on the destination service.
#[derive(Debug, Default, Clone)]
#[non_exhaustive]
pub struct ListDestinationsOptions {
    /// Filter by status.
    pub status: Option<String>,
    /// Free-text search.
    pub search: Option<String>,
    /// Offset-based page size.
    pub limit: Option<i32>,
    /// Offset-based page offset.
    pub offset: Option<i32>,
    /// Cursor for cursor-based pagination.
    pub after: Option<String>,
    /// Page size for cursor-based pagination.
    pub first: Option<i32>,
}

impl ListDestinationsOptions {
    /// The members of the variables object these options are sent as:
    /// camelCase names, absent options left out.
    pub open spec fn members(self) -> Seq<(Seq<char>, Expected)> {
        opt_text("status"@, self.status)
            + opt_text("search"@, self.search)
            + opt_int("limit"@, self.limit)
            + opt_int("offset"@, self.offset)
            + opt_text("after"@, self.after)
            + opt_int("first"@, self.first)
    }
}

/// The GraphQL document of `DestinationService::list`.
pub const LIST_QUERY: &'static str = "query($status: DestinationStatus, $search: String, $limit: Int, $offset: Int, $after: String, $first: Int) {\n                destinations(status: $status, search: $search, limit: $limit, offset: $offset, after: $after, first: $first) {\n                    nodes { id name url signingSecret status type typeConfig timeoutMs rateLimitRps retryPolicy { maxAttempts initialDelay maxDelay backoffFactor } headers authType oauth2Config { tokenUrl clientId clientSecret scopes audience } mtlsCert mtlsKey deliveryMode pollApiKeyPrefix pollApiKey ordered blockedDeliveryId healthScore disabledReason healthConfig { windowHours disableBelow } outputFormat createdAt }\n                    pageInfo { total limit offset endCursor hasNextPage }\n                }\n            }";

/// The GraphQL document of `DestinationService::get`.
pub const GET_QUERY: &'static str = "query($id: UUID!) { destination(id: $id) { id name url signingSecret status type typeConfig timeoutMs rateLimitRps retryPolicy { maxAttempts initialDelay maxDelay backoffFactor } headers authType oauth2Config { tokenUrl clientId clientSecret scopes audience } mtlsCert mtlsKey deliveryMode pollApiKeyPrefix pollApiKey ordered blockedDeliveryId healthScore disabledReason healthConfig { windowHours disableBelow } outputFormat createdAt } }";

/// The GraphQL document of `DestinationService::delete`.
pub const DELETE_QUERY: &'static str = "mutation($id: UUID!) { deleteDestination(id: $id) }";

/// The GraphQL document of `DestinationService::rotate_secret`.
pub const ROTATE_SECRET_QUERY: &'static str = "mutation($id: UUID!) { rotateDestinationSecret(id: $id) { id name url signingSecret status type typeConfig timeoutMs rateLimitRps retryPolicy { maxAttempts initialDelay maxDelay backoffFactor } headers authType oauth2Config { tokenUrl clientId clientSecret scopes audience } mtlsCert mtlsKey deliveryMode pollApiKeyPrefix pollApiKey ordered blockedDeliveryId healthScore disabledReason healthConfig { windowHours disableBelow } outputFormat createdAt } }";

/// The GraphQL document of `DestinationService::poll_deliveries`.
pub const POLL_DELIVERIES_QUERY: &'static str = "query($destinationId: UUID!, $cursor: String, $limit: Int) {\n                pollDeliveries(destinationId: $destinationId, cursor: $cursor, limit: $limit) {\n                    nodes { id eventId subscriptionId destinationId status attempts maxAttempts nextAttemptAt createdAt }\n                    pageInfo { total limit offset endCursor hasNextPage }\n                }\n            }";

/// The GraphQL document of `DestinationService::ack_deliveries`.
pub const ACK_DELIVERIES_QUERY: &'static str = "mutation($destinationId: UUID!, $deliveryIds: [UUID!]!) { ackDeliveries(destinationId: $destinationId, deliveryIds: $deliveryIds) }";

/// The GraphQL document of `DestinationService::regenerate_poll_api_key`.
pub const REGENERATE_POLL_API_KEY_QUERY: &'static str = "mutation($destinationId: UUID!) { regeneratePollApiKey(destinationId: $destinationId) { id name url signingSecret status type typeConfig timeoutMs rateLimitRps retryPolicy { maxAttempts initialDelay maxDelay backoffFactor } headers authType oauth2Config { tokenUrl clientId clientSecret scopes audience } mtlsCert mtlsKey deliveryMode pollApiKeyPrefix pollApiKey ordered blockedDeliveryId healthScore disabledReason healthConfig { windowHours disableBelow } outputFormat createdAt } }";

/// The GraphQL document of `DestinationService::skip_dlq_entry`.
pub const SKIP_DLQ_ENTRY_QUERY: &'static str = "mutation($id: UUID!) { skipDLQEntry(id: $id) }";

/// Blocking variant of the destination service.
pub struct DestinationService;

impl DestinationService {
    /// List destinations.
    pub fn list(&self, options: ListDestinationsOptions) -> (r: GraphQLRequest)
        ensures
            request_is(r, LIST_QUERY@, Some(options.members()), "destinations"@),
    {
        let ghost spec = options.members();
        let mut v = ObjectBuilder::new();
        v.put_opt_text("status", options.status);
        v.put_opt_text("search", options.search);
        v.put_opt_int("limit", options.limit);
        v.put_opt_int("offset", options.offset);
        v.put_opt_text("after", options.after);
        v.put_opt_int("first", options.first);
        proof {
            assert(v.expected@ =~= spec);
        }
        request(LIST_QUERY, v, "destinations")
    }

    /// Get a destination by ID.
    pub fn get(&self, id: &str) -> (r: GraphQLRequest)
        ensures
            request_is(r, GET_QUERY@, Some(field("id"@, Expected::Text(id@))), "destination"@),
    {
        let ghost spec = field("id"@, Expected::Text(id@));
        let mut v = ObjectBuilder::new();
        v.put_text("id", id);
        proof {
            assert(v.expected@ =~= spec);
        }
        request(GET_QUERY, v, "destination")
    }

    /// Delete a destination.
    pub fn delete(&self, id: &str) -> (r: GraphQLRequest)
        ensures
            request_is(
                r,
                DELETE_QUERY@,
                Some(field("id"@, Expected::Text(id@))),
                "deleteDestination"@,
            ),
    {
        let ghost spec = field("id"@, Expected::Text(id@));
        let mut v = ObjectBuilder::new();
        v.put_text("id", id);
        proof {
            assert(v.expected@ =~= spec);
        }
        request(DELETE_QUERY, v, "deleteDestination")
    }

    /// Rotate the signing secret.
    pub fn rotate_secret(&self, id: &str) -> (r: GraphQLRequest)
        ensures
            request_is(
                r,
                ROTATE_SECRET_QUERY@,
                Some(field("id"@, Expected::Text(id@))),
                "rotateDestinationSecret"@,
            ),
    {
        let ghost spec = field("id"@, Expected::Text(id@));
        let mut v = ObjectBuilder::new();
        v.put_text("id", id);
        proof {
            assert(v.expected@ =~= spec);
        }
        request(ROTATE_SECRET_QUERY, v, "rotateDestinationSecret")
    }

    /// Poll the destination's outstanding deliveries.
    pub fn poll_deliveries(
        &self,
        destination_id: &str,
        cursor: Option<String>,
        limit: Option<i32>,
    ) -> (r: GraphQLRequest)
        ensures
            request_is(
                r,
                POLL_DELIVERIES_QUERY@,
                Some(
                    field("destinationId"@, Expected::Text(destination_id@))
                        + opt_text("cursor"@, cursor)
                        + opt_int("limit"@, limit),
                ),
                "pollDeliveries"@,
            ),
    {
        let ghost spec =
            field("destinationId"@, Expected::Text(destination_id@))
                + opt_text("cursor"@, cursor)
                + opt_int("limit"@, limit);
        let mut v = ObjectBuilder::new();
        v.put_text("destinationId", destination_id);
        v.put_opt_text("cursor", cursor);
        v.put_opt_int("limit", limit);
        proof {
            assert(v.expected@ =~= spec);
        }
        request(POLL_DELIVERIES_QUERY, v, "pollDeliveries")
    }

    /// Acknowledge polled deliveries.
    pub fn ack_deliveries(
        &self,
        destination_id: &str,
        delivery_ids: &[String],
    ) -> (r: GraphQLRequest)
        ensures
            request_is(
                r,
                ACK_DELIVERIES_QUERY@,
                Some(
                    field("destinationId"@, Expected::Text(destination_id@))
                        + field("deliveryIds"@, Expected::Texts(texts(delivery_ids@))),
                ),
                "ackDeliveries"@,
            ),
    {
        let ghost spec =
            field("destinationId"@, Expected::Text(destination_id@))
                + field("deliveryIds"@, Expected::Texts(texts(delivery_ids@)));
        let mut v = ObjectBuilder::new();
        v.put_text("destinationId", destination_id);
        v.put_text_slice("deliveryIds", delivery_ids);
        proof {
            assert(v.expected@ =~= spec);
        }
        request(ACK_DELIVERIES_QUERY, v, "ackDeliveries")
    }

    /// Regenerate the poll API key.
    pub fn regenerate_poll_api_key(&self, destination_id: &str) -> (r: GraphQLRequest)
        ensures
            request_is(
                r,
                REGENERATE_POLL_API_KEY_QUERY@,
                Some(field("destinationId"@, Expected::Text(destination_id@))),
                "regeneratePollApiKey"@,
            ),
    {
        let ghost spec = field("destinationId"@, Expected::Text(destination_id@));
        let mut v = ObjectBuilder::new();
        v.put_text("destinationId", destination_id);
        proof {
            assert(v.expected@ =~= spec);
        }
        request(REGENERATE_POLL_API_KEY_QUERY, v, "regeneratePollApiKey")
    }

    /// Skip an inbound DLQ entry (no replay).
    pub fn skip_dlq_entry(&self, id: &str) -> (r: GraphQLRequest)
        ensures
            request_is(
                r,
                SKIP_DLQ_ENTRY_QUERY@,
                Some(field("id"@, Expected::Text(id@))),
                "skipDLQEntry"@,
            ),
    {
        let ghost spec = field("id"@, Expected::Text(id@));
        let mut v = ObjectBuilder::new();
        v.put_text("id", id);
        proof {
            assert(v.expected@ =~= spec);
        }
        request(SKIP_DLQ_ENTRY_QUERY, v, "skipDLQEntry")
    }
}

/// Async variant of the destination service.
pub struct AsyncDestinationService;

impl AsyncDestinationService {
    /// List destinations.
    pub fn list(&self, options: ListDestinationsOptions) -> (r: GraphQLRequest)
        ensures
            request_is(r, LIST_QUERY@, Some(options.members()), "destinations"@),
    {
        DestinationService.list(options)
    }

    /// Get a destination by ID.
    pub fn get(&self, id: &str) -> (r: GraphQLRequest)
        ensures
            request_is(r, GET_QUERY@, Some(field("id"@, Expected::Text(id@))), "destination"@),
    {
        DestinationService.get(id)
    }

    /// Delete a destination.
    pub fn delete(&self, id: &str) -> (r: GraphQLRequest)
        ensures
            request_is(
                r,
                DELETE_QUERY@,
                Some(field("id"@, Expected::Text(id@))),
                "deleteDestination"@,
            ),
    {
        DestinationService.delete(id)
    }

    /// Rotate the signing secret.
    pub fn rotate_secret(&self, id: &str) -> (r: GraphQLRequest)
        ensures
            request_is(
                r,
                ROTATE_SECRET_QUERY@,
                Some(field("id"@, Expected::Text(id@))),
                "rotateDestinationSecret"@,
            ),
    {
        DestinationService.rotate_secret(id)
    }

    /// Poll the destination's outstanding deliveries.
    pub fn poll_deliveries(
        &self,
        destination_id: &str,
        cursor: Option<String>,
        limit: Option<i32>,
    ) -> (r: GraphQLRequest)
        ensures
            request_is(
                r,
                POLL_DELIVERIES_QUERY@,
                Some(
                    field("destinationId"@, Expected::Text(destination_id@))
                        + opt_text("cursor"@, cursor)
                        + opt_int("limit"@, limit),
                ),
                "pollDeliveries"@,
            ),
    {
        DestinationService.poll_deliveries(destination_id, cursor, limit)
    }

    /// Acknowledge polled deliveries.
    pub fn ack_deliveries(
        &self,
        destination_id: &str,
        delivery_ids: &[String],
    ) -> (r: GraphQLRequest)
        ensures
            request_is(
                r,
                ACK_DELIVERIES_QUERY@,
                Some(
                    field("destinationId"@, Expected::Text(destination_id@))
                        + field("deliveryIds"@, Expected::Texts(texts(delivery_ids@))),
                ),
                "ackDeliveries"@,
            ),
    {
        DestinationService.ack_deliveries(destination_id, delivery_ids)
    }

    /// Regenerate the poll API key.
    pub fn regenerate_poll_api_key(&self, destination_id: &str) -> (r: GraphQLRequest)
        ensures
            request_is(
                r,
                REGENERATE_POLL_API_KEY_QUERY@,
                Some(field("destinationId"@, Expected::Text(destination_id@))),
                "regeneratePollApiKey"@,
            ),
    {
        DestinationService.regenerate_poll_api_key(destination_id)
    }

    /// Skip an inbound DLQ entry (no replay).
    pub fn skip_dlq_entry(&self, id: &str) -> (r: GraphQLRequest)
        ensures
            request_is(
                r,
                SKIP_DLQ_ENTRY_QUERY@,
                Some(field("id"@, Expected::Text(id@))),
                "skipDLQEntry"@,
            ),
    {
        DestinationService.skip_dlq_entry(id)
    }
}

/// What [`DestinationService::list`] sends: each argument, and each field of an
/// options or input argument, under its own camelCase name, holding that
/// value; an absent optional one is left out.
pub proof fn lemma_list_sends_arguments(options: ListDestinationsOptions, r: GraphQLRequest)
    requires
        request_is(r, LIST_QUERY@, Some(options.members()), "destinations"@),
    ensures
        sent_text(variable(r, "status"@), options.status),
        sent_text(variable(r, "search"@), options.search),
        sent_int(variable(r, "limit"@), options.limit),
        sent_int(variable(r, "offset"@), options.offset),
        sent_text(variable(r, "after"@), options.after),
        sent_int(variable(r, "first"@), options.first),
{
    broadcast use group_lookup;

    reveal_strlit("after");
    assert("after"@.len() == 5);
    reveal_strlit("first");
    assert("first"@.len() == 5);
    reveal_strlit("limit");
    assert("limit"@.len() == 5);
    reveal_strlit("offset");
    assert("offset"@.len() == 6);
    reveal_strlit("search");
    assert("search"@.len() == 6);
    reveal_strlit("status");
    assert("status"@.len() == 6);
    assert("after"@[0] == 'a');
    assert("first"@[0] == 'f');
    assert("limit"@[0] == 'l');
    assert("offset"@[0] == 'o');
    assert("search"@[0] == 's');
    assert("status"@[0] == 's');
    assert("search"@[1] == 'e');
    assert("status"@[1] == 't');
    let fields = options.members();
    lemma_variable_described(r, LIST_QUERY@, fields, "destinations"@, "status"@);
    lemma_variable_described(r, LIST_QUERY@, fields, "destinations"@, "search"@);
    lemma_variable_described(r, LIST_QUERY@, fields, "destinations"@, "limit"@);
    lemma_variable_described(r, LIST_QUERY@, fields, "destinations"@, "offset"@);
    lemma_variable_described(r, LIST_QUERY@, fields, "destinations"@, "after"@);
    lemma_variable_described(r, LIST_QUERY@, fields, "destinations"@, "first"@);
}

/// What [`DestinationService::get`] sends: each argument, and each field of an
/// options or input argument, under its own camelCase name, holding that
/// value; an absent optional one is left out.
pub proof fn lemma_get_sends_arguments(id: &str, r: GraphQLRequest)
    requires
        request_is(r, GET_QUERY@, Some(field("id"@, Expected::Text(id@))), "destination"@),
    ensures
        text_of(variable(r, "id"@)) == Some(id@),
{
    broadcast use group_lookup;

    reveal_strlit("id");
    assert("id"@.len() == 2);
    let fields = field("id"@, Expected::Text(id@));
    lemma_variable_described(r, GET_QUERY@, fields, "destination"@, "id"@);
}

/// What [`DestinationService::delete`] sends: each argument, and each field of an
/// options or input argument, under its own camelCase name, holding that
/// value; an absent optional one is left out.
pub proof fn lemma_delete_sends_arguments(id: &str, r: GraphQLRequest)
    requires
        request_is(r, DELETE_QUERY@, Some(field("id"@, Expected::Text(id@))), "deleteDestination"@),
    ensures
        text_of(variable(r, "id"@)) == Some(id@),
{
    broadcast use group_lookup;

    reveal_strlit("id");
    assert("id"@.len() == 2);
    let fields = field("id"@, Expected::Text(id@));
    lemma_variable_described(r, DELETE_QUERY@, fields, "deleteDestination"@, "id"@);
}

/// What [`DestinationService::rotate_secret`] sends: each argument, and each field of an
/// options or input argument, under its own camelCase name, holding that
/// value; an absent optional one is left out.
pub proof fn lemma_rotate_secret_sends_arguments(id: &str, r: GraphQLRequest)
    requires
        request_is(
            r,
            ROTATE_SECRET_QUERY@,
            Some(field("id"@, Expected::Text(id@))),
            "rotateDestinationSecret"@,
        ),
    ensures
        text_of(variable(r, "id"@)) == Some(id@),
{
    broadcast use group_lookup;

    reveal_strlit("id");
    assert("id"@.len() == 2);
    let fields = field("id"@, Expected::Text(id@));
    lemma_variable_described(r, ROTATE_SECRET_QUERY@, fields, "rotateDestinationSecret"@, "id"@);
}

/// What [`DestinationService::poll_deliveries`] sends: each argument, and each field of an
/// options or input argument, under its own camelCase name, holding that
/// value; an absent optional one is left out.
pub proof fn lemma_poll_deliveries_sends_arguments(
    destination_id: &str,
    cursor: Option<String>,
    limit: Option<i32>,
    r: GraphQLRequest,
)
    requires
        request_is(
            r,
            POLL_DELIVERIES_QUERY@,
            Some(
                field("destinationId"@, Expected::Text(destination_id@))
                    + opt_text("cursor"@, cursor)
                    + opt_int("limit"@, limit),
            ),
            "pollDeliveries"@,
        ),
    ensures
        text_of(variable(r, "destinationId"@)) == Some(destination_id@),
        sent_text(variable(r, "cursor"@), cursor),
        sent_int(variable(r, "limit"@), limit),
{
    broadcast use group_lookup;

    reveal_strlit("cursor");
    assert("cursor"@.len() == 6);
    reveal_strlit("destinationId");
    assert("destinationId"@.len() == 13);
    reveal_strlit("limit");
    assert("limit"@.len() == 5);
    let fields = field(
        "destinationId"@,
        Expected::Text(destination_id@)) + opt_text("cursor"@,
        cursor) + opt_int("limit"@,
        limit,
    );
    lemma_variable_described(
        r,
        POLL_DELIVERIES_QUERY@,
        fields,
        "pollDeliveries"@,
        "destinationId"@,
    );
    lemma_variable_described(r, POLL_DELIVERIES_QUERY@, fields, "pollDeliveries"@, "cursor"@);
    lemma_variable_described(r, POLL_DELIVERIES_QUERY@, fields, "pollDeliveries"@, "limit"@);
}

/// What [`DestinationService::ack_deliveries`] sends: each argument, and each field of an
/// options or input argument, under its own camelCase name, holding that
/// value; an absent optional one is left out.
pub proof fn lemma_ack_deliveries_sends_arguments(
    destination_id: &str,
    delivery_ids: &[String],
    r: GraphQLRequest,
)
    requires
        request_is(
            r,
            ACK_DELIVERIES_QUERY@,
            Some(
                field("destinationId"@, Expected::Text(destination_id@))
                    + field("deliveryIds"@, Expected::Texts(texts(delivery_ids@))),
            ),
            "ackDeliveries"@,
        ),
    ensures
        text_of(variable(r, "destinationId"@)) == Some(destination_id@),
{
    broadcast use group_lookup;

    reveal_strlit("deliveryIds");
    assert("deliveryIds"@.len() == 11);
    reveal_strlit("destinationId");
    assert("destinationId"@.len() == 13);
    let fields = field(
        "destinationId"@,
        Expected::Text(destination_id@)) + field("deliveryIds"@,
        Expected::Texts(texts(delivery_ids@)),
    );
    lemma_variable_described(r, ACK_DELIVERIES_QUERY@, fields, "ackDeliveries"@, "destinationId"@);
}

/// What [`DestinationService::regenerate_poll_api_key`] sends: each argument, and each field of an
/// options or input argument, under its own camelCase name, holding that
/// value; an absent optional one is left out.
pub proof fn lemma_regenerate_poll_api_key_sends_arguments(destination_id: &str, r: GraphQLRequest)
    requires
        request_is(
            r,
            REGENERATE_POLL_API_KEY_QUERY@,
            Some(field("destinationId"@, Expected::Text(destination_id@))),
            "regeneratePollApiKey"@,
        ),
    ensures
        text_of(variable(r, "destinationId"@)) == Some(destination_id@),
{
    broadcast use group_lookup;

    reveal_strlit("destinationId");
    assert("destinationId"@.len() == 13);
    let fields = field("destinationId"@, Expected::Text(destination_id@));
    lemma_variable_described(
        r,
        REGENERATE_POLL_API_KEY_QUERY@,
        fields,
        "regeneratePollApiKey"@,
        "destinationId"@,
    );
}

/// What [`DestinationService::skip_dlq_entry`] sends: each argument, and each field of an
/// options or input argument, under its own camelCase name, holding that
/// value; an absent optional one is left out.
pub proof fn lemma_skip_dlq_entry_sends_arguments(id: &str, r: GraphQLRequest)
    requires
        request_is(
            r,
            SKIP_DLQ_ENTRY_QUERY@,
            Some(field("id"@, Expected::Text(id@))),
            "skipDLQEntry"@,
        ),
    ensures
        text_of(variable(r, "id"@)) == Some(id@),
{
    broadcast use group_lookup;

    reveal_strlit("id");
    assert("id"@.len() == 2);
    let fields = field("id"@, Expected::Text(id@));
    lemma_variable_described(r, SKIP_DLQ_ENTRY_QUERY@, fields, "skipDLQEntry"@, "id"@);
}

} // verus!
