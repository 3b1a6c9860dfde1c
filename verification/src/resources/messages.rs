//! Outbound message management.

use crate::json::Json;
use crate::request::{
    Expected, ObjectBuilder, GraphQLRequest, request, field, opt_text, opt_int, opt_str, opt_members, request_is, base64_standard, base64_encode, group_lookup, lemma_variable_described, variable, text_of, sent_text, sent_int,
    lemma_member_described, member_of, sent_str,
};
use vstd::prelude::*;

verus! {

broadcast use vstd::string::group_string_axioms;

/// Options for [`MessageService::list`].
#[derive(Debug, Default, Clone)]
#[non_exhaustive]
pub struct ListMessagesOptions {
    /// Filter by application ID.
    pub application_id: Option<String>,
    /// Filter by event type.
    pub event_type: Option<String>,
    /// Filter by status.
    pub status: Option<String>,
    /// Free-text search.
    pub search: Option<String>,
    /// Offset-based page size.
    pub limit: Option<i32>,
    /// Offset-based page offset.
    pub offset: Option<i32>,
    /// Cursor for cursor-based pagination.
    pub after: Option<String>,
    /// Page size for cursor-based pagination.
    pub first: Option<i32>,
}

impl ListMessagesOptions {
    /// The members of the variables object these options are sent as:
    /// camelCase names, absent options left out.
    pub open spec fn members(self) -> Seq<(Seq<char>, Expected)> {
        opt_text("applicationId"@, self.application_id)
            + opt_text("eventType"@, self.event_type)
            + opt_text("status"@, self.status)
            + opt_text("search"@, self.search)
            + opt_int("limit"@, self.limit)
            + opt_int("offset"@, self.offset)
            + opt_text("after"@, self.after)
            + opt_int("first"@, self.first)
    }
}

/// Builder for the `SendMessage` GraphQL input.
#[derive(Debug, Clone)]
#[non_exhaustive]
pub struct SendMessageInput {
    /// Owning application identifier.
    pub application_id: String,
    /// Event type identifier.
    pub event_type: String,
    /// Raw payload bytes; the SDK base64-encodes this before sending.
    pub payload: Vec<u8>,
    /// Optional idempotency key.
    pub idempotency_key: Option<String>,
}

impl SendMessageInput {
    /// The members of the JSON object this input is sent as: the payload
    /// in standard base64, the idempotency key left out when absent.
    pub open spec fn members(self) -> Seq<(Seq<char>, Expected)> {
        field("applicationId"@, Expected::Text(self.application_id@))
            + field("eventType"@, Expected::Text(self.event_type@))
            + field("payload"@, Expected::Text(base64_standard(self.payload@)))
            + opt_text("idempotencyKey"@, self.idempotency_key)
    }
}

/// The members of the JSON object a one-off dynamic message is sent as: the
/// payload in standard base64, the signing secret and headers left out when
/// absent.
pub open spec fn dynamic_members(
    url: Seq<char>,
    event_type: Seq<char>,
    payload: Seq<u8>,
    signing_secret: Option<&str>,
    headers: Option<Vec<(String, Json)>>,
) -> Seq<(Seq<char>, Expected)> {
    field("url"@, Expected::Text(url))
            + field("eventType"@, Expected::Text(event_type))
            + field("payload"@, Expected::Text(base64_standard(payload)))
            + opt_str("signingSecret"@, signing_secret)
            + opt_members("headers"@, headers)
}

/// The GraphQL document of `MessageService::list`.
pub const LIST_QUERY: &'static str = "query($applicationId: UUID, $eventType: String, $status: MessageStatus, $search: String, $limit: Int, $offset: Int, $after: String, $first: Int) {\n                messages(applicationId: $applicationId, eventType: $eventType, status: $status, search: $search, limit: $limit, offset: $offset, after: $after, first: $first) {\n                    nodes { id applicationId eventType payload idempotencyKey status createdAt }\n                    pageInfo { total limit offset endCursor hasNextPage }\n                }\n            }";

/// The GraphQL document of `MessageService::get`.
pub const GET_QUERY: &'static str = "query($id: UUID!) { message(id: $id) { id applicationId eventType payload idempotencyKey status createdAt } }";

/// The GraphQL document of `MessageService::send`.
pub const SEND_QUERY: &'static str = "mutation($input: SendMessageInput!) { sendMessage(input: $input) { id applicationId eventType payload idempotencyKey status createdAt } }";

/// The GraphQL document of `MessageService::broadcast`.
pub const BROADCAST_QUERY: &'static str = "mutation($input: BroadcastMessageInput!) { broadcastMessage(input: $input) { id applicationId eventType payload idempotencyKey status createdAt } }";

/// The GraphQL document of `MessageService::send_dynamic`.
pub const SEND_DYNAMIC_QUERY: &'static str = "mutation($input: SendDynamicMessageInput!) { sendDynamicMessage(input: $input) { id messageId endpointId status attempts maxAttempts nextAttemptAt createdAt } }";

/// Service for sending outbound [`Message`] payloads.
pub struct MessageService;

impl MessageService {
    /// List messages.
    pub fn list(&self, options: ListMessagesOptions) -> (r: GraphQLRequest)
        ensures
            request_is(r, LIST_QUERY@, Some(options.members()), "messages"@),
    {
        let ghost spec = options.members();
        let mut v = ObjectBuilder::new();
        v.put_opt_text("applicationId", options.application_id);
        v.put_opt_text("eventType", options.event_type);
        v.put_opt_text("status", options.status);
        v.put_opt_text("search", options.search);
        v.put_opt_int("limit", options.limit);
        v.put_opt_int("offset", options.offset);
        v.put_opt_text("after", options.after);
        v.put_opt_int("first", options.first);
        proof {
            assert(v.expected@ =~= spec);
        }
        request(LIST_QUERY, v, "messages")
    }

    /// Get a message by ID.
    pub fn get(&self, id: &str) -> (r: GraphQLRequest)
        ensures
            request_is(r, GET_QUERY@, Some(field("id"@, Expected::Text(id@))), "message"@),
    {
        let ghost spec = field("id"@, Expected::Text(id@));
        let mut v = ObjectBuilder::new();
        v.put_text("id", id);
        proof {
            assert(v.expected@ =~= spec);
        }
        request(GET_QUERY, v, "message")
    }

    /// Send a single message to all endpoints subscribed to the event type.
    pub fn send(&self, input: SendMessageInput) -> (r: GraphQLRequest)
        requires
            input.payload@.len() / 3 * 4 + 4 <= usize::MAX,
        ensures
            request_is(
                r,
                SEND_QUERY@,
                Some(
                    field("input"@, Expected::Obj(input.members())),
                ),
                "sendMessage"@,
            ),
    {
        let ghost payload_spec = input.members();
        let ghost spec = field("input"@, Expected::Obj(input.members()));
        let mut payload = ObjectBuilder::new();
        payload.put_string("applicationId", input.application_id);
        payload.put_string("eventType", input.event_type);
        payload.put_string("payload", base64_encode(input.payload.as_slice()));
        payload.put_opt_text("idempotencyKey", input.idempotency_key);
        let mut v = ObjectBuilder::new();
        proof {
            assert(payload.expected@ =~= payload_spec);
        }
        v.put_object("input", payload);
        proof {
            assert(v.expected@ =~= spec);
        }
        request(SEND_QUERY, v, "sendMessage")
    }

    /// Broadcast a message to every endpoint of an application.
    pub fn broadcast(&self, input: SendMessageInput) -> (r: GraphQLRequest)
        requires
            input.payload@.len() / 3 * 4 + 4 <= usize::MAX,
        ensures
            request_is(
                r,
                BROADCAST_QUERY@,
                Some(
                    field("input"@, Expected::Obj(input.members())),
                ),
                "broadcastMessage"@,
            ),
    {
        let ghost payload_spec = input.members();
        let ghost spec = field("input"@, Expected::Obj(input.members()));
        let mut payload = ObjectBuilder::new();
        payload.put_string("applicationId", input.application_id);
        payload.put_string("eventType", input.event_type);
        payload.put_string("payload", base64_encode(input.payload.as_slice()));
        payload.put_opt_text("idempotencyKey", input.idempotency_key);
        let mut v = ObjectBuilder::new();
        proof {
            assert(payload.expected@ =~= payload_spec);
        }
        v.put_object("input", payload);
        proof {
            assert(v.expected@ =~= spec);
        }
        request(BROADCAST_QUERY, v, "broadcastMessage")
    }

    /// Send a one-off dynamic message to a single ad-hoc URL.
    pub fn send_dynamic(
        &self,
        url: &str,
        event_type: &str,
        payload: &[u8],
        signing_secret: Option<&str>,
        headers: Option<Vec<(String, Json)>>,
    ) -> (r: GraphQLRequest)
        requires
            payload@.len() / 3 * 4 + 4 <= usize::MAX,
        ensures
            request_is(
                r,
                SEND_DYNAMIC_QUERY@,
                Some(
                    field("input"@, Expected::Obj(dynamic_members(url@, event_type@, payload@, signing_secret, headers))),
                ),
                "sendDynamicMessage"@,
            ),
    {
        let ghost payload_obj_spec =
            dynamic_members(url@, event_type@, payload@, signing_secret, headers);
        let ghost spec =
            field(
                "input"@,
                Expected::Obj(dynamic_members(url@, event_type@, payload@, signing_secret, headers)),
            );
        let mut payload_obj = ObjectBuilder::new();
        payload_obj.put_text("url", url);
        payload_obj.put_text("eventType", event_type);
        payload_obj.put_string("payload", base64_encode(payload));
        payload_obj.put_opt_str("signingSecret", signing_secret);
        payload_obj.put_opt_members("headers", headers);
        let mut v = ObjectBuilder::new();
        proof {
            assert(payload_obj.expected@ =~= payload_obj_spec);
        }
        v.put_object("input", payload_obj);
        proof {
            assert(v.expected@ =~= spec);
        }
        request(SEND_DYNAMIC_QUERY, v, "sendDynamicMessage")
    }
}

/// Async variant of the message service.
pub struct AsyncMessageService;

impl AsyncMessageService {
    /// List messages.
    pub fn list(&self, options: ListMessagesOptions) -> (r: GraphQLRequest)
        ensures
            request_is(r, LIST_QUERY@, Some(options.members()), "messages"@),
    {
        MessageService.list(options)
    }

    /// Get a message by ID.
    pub fn get(&self, id: &str) -> (r: GraphQLRequest)
        ensures
            request_is(r, GET_QUERY@, Some(field("id"@, Expected::Text(id@))), "message"@),
    {
        MessageService.get(id)
    }

    /// Send a single message to all endpoints subscribed to the event type.
    pub fn send(&self, input: SendMessageInput) -> (r: GraphQLRequest)
        requires
            input.payload@.len() / 3 * 4 + 4 <= usize::MAX,
        ensures
            request_is(
                r,
                SEND_QUERY@,
                Some(
                    field("input"@, Expected::Obj(input.members())),
                ),
                "sendMessage"@,
            ),
    {
        MessageService.send(input)
    }

    /// Broadcast a message to every endpoint of an application.
    pub fn broadcast(&self, input: SendMessageInput) -> (r: GraphQLRequest)
        requires
            input.payload@.len() / 3 * 4 + 4 <= usize::MAX,
        ensures
            request_is(
                r,
                BROADCAST_QUERY@,
                Some(
                    field("input"@, Expected::Obj(input.members())),
                ),
                "broadcastMessage"@,
            ),
    {
        MessageService.broadcast(input)
    }

    /// Send a one-off dynamic message to a single ad-hoc URL.
    pub fn send_dynamic(
        &self,
        url: &str,
        event_type: &str,
        payload: &[u8],
        signing_secret: Option<&str>,
        headers: Option<Vec<(String, Json)>>,
    ) -> (r: GraphQLRequest)
        requires
            payload@.len() / 3 * 4 + 4 <= usize::MAX,
        ensures
            request_is(
                r,
                SEND_DYNAMIC_QUERY@,
                Some(
                    field("input"@, Expected::Obj(dynamic_members(url@, event_type@, payload@, signing_secret, headers))),
                ),
                "sendDynamicMessage"@,
            ),
    {
        MessageService.send_dynamic(url, event_type, payload, signing_secret, headers)
    }
}

/// What [`MessageService::list`] sends: each argument, and each field of an
/// options or input argument, under its own camelCase name, holding that
/// value; an absent optional one is left out.
pub proof fn lemma_list_sends_arguments(options: ListMessagesOptions, r: GraphQLRequest)
    requires
        request_is(r, LIST_QUERY@, Some(options.members()), "messages"@),
    ensures
        sent_text(variable(r, "applicationId"@), options.application_id),
        sent_text(variable(r, "eventType"@), options.event_type),
        sent_text(variable(r, "status"@), options.status),
        sent_text(variable(r, "search"@), options.search),
        sent_int(variable(r, "limit"@), options.limit),
        sent_int(variable(r, "offset"@), options.offset),
        sent_text(variable(r, "after"@), options.after),
        sent_int(variable(r, "first"@), options.first),
{
    broadcast use group_lookup;

    reveal_strlit("after");
    assert("after"@.len() == 5);
    reveal_strlit("applicationId");
    assert("applicationId"@.len() == 13);
    reveal_strlit("eventType");
    assert("eventType"@.len() == 9);
    reveal_strlit("first");
    assert("first"@.len() == 5);
    reveal_strlit("limit");
    assert("limit"@.len() == 5);
    reveal_strlit("offset");
    assert("offset"@.len() == 6);
    reveal_strlit("search");
    assert("search"@.len() == 6);
    reveal_strlit("status");
    assert("status"@.len() == 6);
    assert("after"@[0] == 'a');
    assert("first"@[0] == 'f');
    assert("limit"@[0] == 'l');
    assert("offset"@[0] == 'o');
    assert("search"@[0] == 's');
    assert("status"@[0] == 's');
    assert("search"@[1] == 'e');
    assert("status"@[1] == 't');
    let fields = options.members();
    lemma_variable_described(r, LIST_QUERY@, fields, "messages"@, "applicationId"@);
    lemma_variable_described(r, LIST_QUERY@, fields, "messages"@, "eventType"@);
    lemma_variable_described(r, LIST_QUERY@, fields, "messages"@, "status"@);
    lemma_variable_described(r, LIST_QUERY@, fields, "messages"@, "search"@);
    lemma_variable_described(r, LIST_QUERY@, fields, "messages"@, "limit"@);
    lemma_variable_described(r, LIST_QUERY@, fields, "messages"@, "offset"@);
    lemma_variable_described(r, LIST_QUERY@, fields, "messages"@, "after"@);
    lemma_variable_described(r, LIST_QUERY@, fields, "messages"@, "first"@);
}

/// What [`MessageService::get`] sends: each argument, and each field of an
/// options or input argument, under its own camelCase name, holding that
/// value; an absent optional one is left out.
pub proof fn lemma_get_sends_arguments(id: &str, r: GraphQLRequest)
    requires
        request_is(r, GET_QUERY@, Some(field("id"@, Expected::Text(id@))), "message"@),
    ensures
        text_of(variable(r, "id"@)) == Some(id@),
{
    broadcast use group_lookup;

    reveal_strlit("id");
    assert("id"@.len() == 2);
    let fields = field("id"@, Expected::Text(id@));
    lemma_variable_described(r, GET_QUERY@, fields, "message"@, "id"@);
}

/// What [`MessageService::send`] sends: each argument, and each field of an
/// options or input argument, under its own camelCase name, holding that
/// value; an absent optional one is left out.
pub proof fn lemma_send_sends_arguments(input: SendMessageInput, r: GraphQLRequest)
    requires
        request_is(
            r,
            SEND_QUERY@,
            Some(field("input"@, Expected::Obj(input.members()))),
            "sendMessage"@,
        ),
    ensures
        text_of(member_of(variable(r, "input"@), "applicationId"@)) == Some(input.application_id@),
        text_of(member_of(variable(r, "input"@), "eventType"@)) == Some(input.event_type@),
        text_of(member_of(variable(r, "input"@), "payload"@)) == Some(base64_standard(input.payload@)),
        sent_text(member_of(variable(r, "input"@), "idempotencyKey"@), input.idempotency_key),
{
    broadcast use group_lookup;

    reveal_strlit("applicationId");
    assert("applicationId"@.len() == 13);
    reveal_strlit("eventType");
    assert("eventType"@.len() == 9);
    reveal_strlit("idempotencyKey");
    assert("idempotencyKey"@.len() == 14);
    reveal_strlit("input");
    assert("input"@.len() == 5);
    reveal_strlit("payload");
    assert("payload"@.len() == 7);
    let fields = field("input"@, Expected::Obj(input.members()));
    lemma_variable_described(r, SEND_QUERY@, fields, "sendMessage"@, "input"@);
    let input_object = variable(r, "input"@).unwrap();
    assert(input_object is Object);
    lemma_member_described(input_object->Object_0@, input.members(), "applicationId"@);
    lemma_member_described(input_object->Object_0@, input.members(), "eventType"@);
    lemma_member_described(input_object->Object_0@, input.members(), "payload"@);
    lemma_member_described(input_object->Object_0@, input.members(), "idempotencyKey"@);
}

/// What [`MessageService::broadcast`] sends: each argument, and each field of an
/// options or input argument, under its own camelCase name, holding that
/// value; an absent optional one is left out.
pub proof fn lemma_broadcast_sends_arguments(input: SendMessageInput, r: GraphQLRequest)
    requires
        request_is(
            r,
            BROADCAST_QUERY@,
            Some(field("input"@, Expected::Obj(input.members()))),
            "broadcastMessage"@,
        ),
    ensures
        text_of(member_of(variable(r, "input"@), "applicationId"@)) == Some(input.application_id@),
        text_of(member_of(variable(r, "input"@), "eventType"@)) == Some(input.event_type@),
        text_of(member_of(variable(r, "input"@), "payload"@)) == Some(base64_standard(input.payload@)),
        sent_text(member_of(variable(r, "input"@), "idempotencyKey"@), input.idempotency_key),
{
    broadcast use group_lookup;

    reveal_strlit("applicationId");
    assert("applicationId"@.len() == 13);
    reveal_strlit("eventType");
    assert("eventType"@.len() == 9);
    reveal_strlit("idempotencyKey");
    assert("idempotencyKey"@.len() == 14);
    reveal_strlit("input");
    assert("input"@.len() == 5);
    reveal_strlit("payload");
    assert("payload"@.len() == 7);
    let fields = field("input"@, Expected::Obj(input.members()));
    lemma_variable_described(r, BROADCAST_QUERY@, fields, "broadcastMessage"@, "input"@);
    let input_object = variable(r, "input"@).unwrap();
    assert(input_object is Object);
    lemma_member_described(input_object->Object_0@, input.members(), "applicationId"@);
    lemma_member_described(input_object->Object_0@, input.members(), "eventType"@);
    lemma_member_described(input_object->Object_0@, input.members(), "payload"@);
    lemma_member_described(input_object->Object_0@, input.members(), "idempotencyKey"@);
}

/// What [`MessageService::send_dynamic`] sends: the URL, the event type,
/// the payload in standard base64, the signing secret when there is one and
/// the headers when there are some, each under its own name.
pub proof fn lemma_send_dynamic_sends_arguments(
    url: &str,
    event_type: &str,
    payload: &[u8],
    signing_secret: Option<&str>,
    headers: Option<Vec<(String, Json)>>,
    r: GraphQLRequest,
)
    requires
        request_is(
            r,
            SEND_DYNAMIC_QUERY@,
            Some(
                field(
                    "input"@,
                    Expected::Obj(dynamic_members(url@, event_type@, payload@, signing_secret, headers)),
                ),
            ),
            "sendDynamicMessage"@,
        ),
    ensures
        text_of(member_of(variable(r, "input"@), "url"@)) == Some(url@),
        text_of(member_of(variable(r, "input"@), "eventType"@)) == Some(event_type@),
        text_of(member_of(variable(r, "input"@), "payload"@)) == Some(base64_standard(payload@)),
        sent_str(member_of(variable(r, "input"@), "signingSecret"@), signing_secret),
        match headers {
            Some(h) => member_of(variable(r, "input"@), "headers"@) == Some(Json::Object(h)),
            None => member_of(variable(r, "input"@), "headers"@) is None,
        },
{
    broadcast use group_lookup;

    reveal_strlit("input");
    reveal_strlit("url");
    reveal_strlit("eventType");
    reveal_strlit("payload");
    reveal_strlit("signingSecret");
    reveal_strlit("headers");
    assert("url"@.len() == 3);
    assert("eventType"@.len() == 9);
    assert("payload"@.len() == 7);
    assert("signingSecret"@.len() == 13);
    assert("headers"@.len() == 7);
    assert("payload"@[0] == 'p');
    assert("headers"@[0] == 'h');
    let inner = dynamic_members(url@, event_type@, payload@, signing_secret, headers);
    let fields = field("input"@, Expected::Obj(inner));
    lemma_variable_described(r, SEND_DYNAMIC_QUERY@, fields, "sendDynamicMessage"@, "input"@);
    let object = variable(r, "input"@).unwrap();
    assert(object is Object);
    lemma_member_described(object->Object_0@, inner, "url"@);
    lemma_member_described(object->Object_0@, inner, "eventType"@);
    lemma_member_described(object->Object_0@, inner, "payload"@);
    lemma_member_described(object->Object_0@, inner, "signingSecret"@);
    lemma_member_described(object->Object_0@, inner, "headers"@);
}

} // verus!
