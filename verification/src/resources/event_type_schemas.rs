//! Event-type schema management.

use crate::json::Json;
use crate::request::{
    Expected, ObjectBuilder, GraphQLRequest, request, field, opt_text, opt_int, opt_doc, request_is, group_lookup, lemma_variable_described, variable, text_of, sent_text, sent_int, lemma_member_described, member_of,
};
use vstd::prelude::*;

verus! {

broadcast use vstd::string::group_string_axioms;

/// Options for [`EventTypeSchemaService::list`].
#[derive(Debug, Default, Clone)]
#[non_exhaustive]
pub struct ListEventTypeSchemasOptions {
    /// Free-text search.
    pub search: Option<String>,
    /// Offset-based page size.
    pub limit: Option<i32>,
    /// Offset-based page offset.
    pub offset: Option<i32>,
    /// Cursor for cursor-based pagination.
    pub after: Option<String>,
    /// Page size for cursor-based pagination.
    pub first: Option<i32>,
}

impl ListEventTypeSchemasOptions {
    /// The members of the variables object these options are sent as:
    /// camelCase names, absent options left out.
    pub open spec fn members(self) -> Seq<(Seq<char>, Expected)> {
        opt_text("search"@, self.search)
            + opt_int("limit"@, self.limit)
            + opt_int("offset"@, self.offset)
            + opt_text("after"@, self.after)
            + opt_int("first"@, self.first)
    }
}

/// Input shape for `EventTypeSchemaService::create`.
#[derive(Debug, Default, Clone)]
#[non_exhaustive]
pub struct CreateEventTypeSchemaInput {
    /// Event type identifier.
    pub event_type: String,
    /// Free-form description.
    pub description: String,
    /// JSON Schema document.
    pub schema: Option<Json>,
    /// Example payload.
    pub example: Option<Json>,
}

impl CreateEventTypeSchemaInput {
    /// The members of the JSON object this input is sent as: camelCase
    /// names, optional fields left out when absent.
    pub open spec fn members(self) -> Seq<(Seq<char>, Expected)> {
        field("eventType"@, Expected::Text(self.event_type@))
            + field("description"@, Expected::Text(self.description@))
            + opt_doc("schema"@, self.schema)
            + opt_doc("example"@, self.example)
    }

    /// The JSON object this input is sent as.
    pub fn to_object(self) -> (b: ObjectBuilder)
        ensures
            b.wf(),
            b.expected@ == self.members(),
    {
        let ghost spec = self.members();
        let mut b = ObjectBuilder::new();
        b.put_string("eventType", self.event_type);
        b.put_string("description", self.description);
        b.put_opt_doc("schema", self.schema);
        b.put_opt_doc("example", self.example);
        assert(b.expected@ =~= spec);
        b
    }
}

/// Input shape for `EventTypeSchemaService::update`.
#[derive(Debug, Default, Clone)]
#[non_exhaustive]
pub struct UpdateEventTypeSchemaInput {
    /// New event type identifier.
    pub event_type: Option<String>,
    /// New description.
    pub description: Option<String>,
    /// New schema.
    pub schema: Option<Json>,
    /// New example.
    pub example: Option<Json>,
}

impl UpdateEventTypeSchemaInput {
    /// The members of the JSON object this input is sent as: camelCase
    /// names, optional fields left out when absent.
    pub open spec fn members(self) -> Seq<(Seq<char>, Expected)> {
        opt_text("eventType"@, self.event_type)
            + opt_text("description"@, self.description)
            + opt_doc("schema"@, self.schema)
            + opt_doc("example"@, self.example)
    }

    /// The JSON object this input is sent as.
    pub fn to_object(self) -> (b: ObjectBuilder)
        ensures
            b.wf(),
            b.expected@ == self.members(),
    {
        let ghost spec = self.members();
        let mut b = ObjectBuilder::new();
        b.put_opt_text("eventType", self.event_type);
        b.put_opt_text("description", self.description);
        b.put_opt_doc("schema", self.schema);
        b.put_opt_doc("example", self.example);
        assert(b.expected@ =~= spec);
        b
    }
}

/// The GraphQL document of `EventTypeSchemaService::list`.
pub const LIST_QUERY: &'static str = "query($search: String, $limit: Int, $offset: Int, $after: String, $first: Int) {\n                eventTypeSchemas(search: $search, limit: $limit, offset: $offset, after: $after, first: $first) {\n                    nodes { id eventType description schema example createdAt updatedAt }\n                    pageInfo { total limit offset endCursor hasNextPage }\n                }\n            }";

/// The GraphQL document of `EventTypeSchemaService::get`.
pub const GET_QUERY: &'static str = "query($id: UUID!) { eventTypeSchema(id: $id) { id eventType description schema example createdAt updatedAt } }";

/// The GraphQL document of `EventTypeSchemaService::create`.
pub const CREATE_QUERY: &'static str = "mutation($input: CreateEventTypeSchemaInput!) { createEventTypeSchema(input: $input) { id eventType description schema example createdAt updatedAt } }";

/// The GraphQL document of `EventTypeSchemaService::update`.
pub const UPDATE_QUERY: &'static str = "mutation($id: UUID!, $input: UpdateEventTypeSchemaInput!) { updateEventTypeSchema(id: $id, input: $input) { id eventType description schema example createdAt updatedAt } }";

/// The GraphQL document of `EventTypeSchemaService::delete`.
pub const DELETE_QUERY: &'static str = "mutation($id: UUID!) { deleteEventTypeSchema(id: $id) }";

/// Service for managing [`EventTypeSchema`] resources.
pub struct EventTypeSchemaService;

impl EventTypeSchemaService {
    /// List schemas.
    pub fn list(&self, options: ListEventTypeSchemasOptions) -> (r: GraphQLRequest)
        ensures
            request_is(r, LIST_QUERY@, Some(options.members()), "eventTypeSchemas"@),
    {
        let ghost spec = options.members();
        let mut v = ObjectBuilder::new();
        v.put_opt_text("search", options.search);
        v.put_opt_int("limit", options.limit);
        v.put_opt_int("offset", options.offset);
        v.put_opt_text("after", options.after);
        v.put_opt_int("first", options.first);
        proof {
            assert(v.expected@ =~= spec);
        }
        request(LIST_QUERY, v, "eventTypeSchemas")
    }

    /// Get a schema by ID.
    pub fn get(&self, id: &str) -> (r: GraphQLRequest)
        ensures
            request_is(r, GET_QUERY@, Some(field("id"@, Expected::Text(id@))), "eventTypeSchema"@),
    {
        let ghost spec = field("id"@, Expected::Text(id@));
        let mut v = ObjectBuilder::new();
        v.put_text("id", id);
        proof {
            assert(v.expected@ =~= spec);
        }
        request(GET_QUERY, v, "eventTypeSchema")
    }

    /// Create a new schema.
    pub fn create(&self, input: CreateEventTypeSchemaInput) -> (r: GraphQLRequest)
        ensures
            request_is(
                r,
                CREATE_QUERY@,
                Some(field("input"@, Expected::Obj(input.members()))),
                "createEventTypeSchema"@,
            ),
    {
        let ghost spec = field("input"@, Expected::Obj(input.members()));
        let mut v = ObjectBuilder::new();
        v.put_object("input", input.to_object());
        proof {
            assert(v.expected@ =~= spec);
        }
        request(CREATE_QUERY, v, "createEventTypeSchema")
    }

    /// Update an existing schema.
    pub fn update(&self, id: &str, input: UpdateEventTypeSchemaInput) -> (r: GraphQLRequest)
        ensures
            request_is(
                r,
                UPDATE_QUERY@,
                Some(
                    field("id"@, Expected::Text(id@))
                        + field("input"@, Expected::Obj(input.members())),
                ),
                "updateEventTypeSchema"@,
            ),
    {
        let ghost spec =
            field("id"@, Expected::Text(id@)) + field("input"@, Expected::Obj(input.members()));
        let mut v = ObjectBuilder::new();
        v.put_text("id", id);
        v.put_object("input", input.to_object());
        proof {
            assert(v.expected@ =~= spec);
        }
        request(UPDATE_QUERY, v, "updateEventTypeSchema")
    }

    /// Delete a schema.
    pub fn delete(&self, id: &str) -> (r: GraphQLRequest)
        ensures
            request_is(
                r,
                DELETE_QUERY@,
                Some(field("id"@, Expected::Text(id@))),
                "deleteEventTypeSchema"@,
            ),
    {
        let ghost spec = field("id"@, Expected::Text(id@));
        let mut v = ObjectBuilder::new();
        v.put_text("id", id);
        proof {
            assert(v.expected@ =~= spec);
        }
        request(DELETE_QUERY, v, "deleteEventTypeSchema")
    }
}

/// Async variant of the event-type schema service.
pub struct AsyncEventTypeSchemaService;

impl AsyncEventTypeSchemaService {
    /// List schemas.
    pub fn list(&self, options: ListEventTypeSchemasOptions) -> (r: GraphQLRequest)
        ensures
            request_is(r, LIST_QUERY@, Some(options.members()), "eventTypeSchemas"@),
    {
        EventTypeSchemaService.list(options)
    }

    /// Get a schema by ID.
    pub fn get(&self, id: &str) -> (r: GraphQLRequest)
        ensures
            request_is(r, GET_QUERY@, Some(field("id"@, Expected::Text(id@))), "eventTypeSchema"@),
    {
        EventTypeSchemaService.get(id)
    }

    /// Create a new schema.
    pub fn create(&self, input: CreateEventTypeSchemaInput) -> (r: GraphQLRequest)
        ensures
            request_is(
                r,
                CREATE_QUERY@,
                Some(field("input"@, Expected::Obj(input.members()))),
                "createEventTypeSchema"@,
            ),
    {
        EventTypeSchemaService.create(input)
    }

    /// Update an existing schema.
    pub fn update(&self, id: &str, input: UpdateEventTypeSchemaInput) -> (r: GraphQLRequest)
        ensures
            request_is(
                r,
                UPDATE_QUERY@,
                Some(
                    field("id"@, Expected::Text(id@))
                        + field("input"@, Expected::Obj(input.members())),
                ),
                "updateEventTypeSchema"@,
            ),
    {
        EventTypeSchemaService.update(id, input)
    }

    /// Delete a schema.
    pub fn delete(&self, id: &str) -> (r: GraphQLRequest)
        ensures
            request_is(
                r,
                DELETE_QUERY@,
                Some(field("id"@, Expected::Text(id@))),
                "deleteEventTypeSchema"@,
            ),
    {
        EventTypeSchemaService.delete(id)
    }
}

/// What [`EventTypeSchemaService::list`] sends: each argument, and each field of an
/// options or input argument, under its own camelCase name, holding that
/// value; an absent optional one is left out.
pub proof fn lemma_list_sends_arguments(options: ListEventTypeSchemasOptions, r: GraphQLRequest)
    requires
        request_is(r, LIST_QUERY@, Some(options.members()), "eventTypeSchemas"@),
    ensures
        sent_text(variable(r, "search"@), options.search),
        sent_int(variable(r, "limit"@), options.limit),
        sent_int(variable(r, "offset"@), options.offset),
        sent_text(variable(r, "after"@), options.after),
        sent_int(variable(r, "first"@), options.first),
{
    broadcast use group_lookup;

    reveal_strlit("after");
    assert("after"@.len() == 5);
    reveal_strlit("first");
    assert("first"@.len() == 5);
    reveal_strlit("limit");
    assert("limit"@.len() == 5);
    reveal_strlit("offset");
    assert("offset"@.len() == 6);
    reveal_strlit("search");
    assert("search"@.len() == 6);
    assert("after"@[0] == 'a');
    assert("first"@[0] == 'f');
    assert("limit"@[0] == 'l');
    assert("offset"@[0] == 'o');
    assert("search"@[0] == 's');
    let fields = options.members();
    lemma_variable_described(r, LIST_QUERY@, fields, "eventTypeSchemas"@, "search"@);
    lemma_variable_described(r, LIST_QUERY@, fields, "eventTypeSchemas"@, "limit"@);
    lemma_variable_described(r, LIST_QUERY@, fields, "eventTypeSchemas"@, "offset"@);
    lemma_variable_described(r, LIST_QUERY@, fields, "eventTypeSchemas"@, "after"@);
    lemma_variable_described(r, LIST_QUERY@, fields, "eventTypeSchemas"@, "first"@);
}

/// What [`EventTypeSchemaService::get`] sends: each argument, and each field of an
/// options or input argument, under its own camelCase name, holding that
/// value; an absent optional one is left out.
pub proof fn lemma_get_sends_arguments(id: &str, r: GraphQLRequest)
    requires
        request_is(r, GET_QUERY@, Some(field("id"@, Expected::Text(id@))), "eventTypeSchema"@),
    ensures
        text_of(variable(r, "id"@)) == Some(id@),
{
    broadcast use group_lookup;

    reveal_strlit("id");
    assert("id"@.len() == 2);
    let fields = field("id"@, Expected::Text(id@));
    lemma_variable_described(r, GET_QUERY@, fields, "eventTypeSchema"@, "id"@);
}

/// What [`EventTypeSchemaService::create`] sends: each argument, and each field of an
/// options or input argument, under its own camelCase name, holding that
/// value; an absent optional one is left out.
pub proof fn lemma_create_sends_arguments(input: CreateEventTypeSchemaInput, r: GraphQLRequest)
    requires
        request_is(
            r,
            CREATE_QUERY@,
            Some(field("input"@, Expected::Obj(input.members()))),
            "createEventTypeSchema"@,
        ),
    ensures
        text_of(member_of(variable(r, "input"@), "eventType"@)) == Some(input.event_type@),
        text_of(member_of(variable(r, "input"@), "description"@)) == Some(input.description@),
{
    broadcast use group_lookup;

    reveal_strlit("description");
    assert("description"@.len() == 11);
    reveal_strlit("eventType");
    assert("eventType"@.len() == 9);
    reveal_strlit("example");
    assert("example"@.len() == 7);
    reveal_strlit("input");
    assert("input"@.len() == 5);
    reveal_strlit("schema");
    assert("schema"@.len() == 6);
    let fields = field("input"@, Expected::Obj(input.members()));
    lemma_variable_described(r, CREATE_QUERY@, fields, "createEventTypeSchema"@, "input"@);
    let input_object = variable(r, "input"@).unwrap();
    assert(input_object is Object);
    lemma_member_described(input_object->Object_0@, input.members(), "eventType"@);
    lemma_member_described(input_object->Object_0@, input.members(), "description"@);
}

/// What [`EventTypeSchemaService::update`] sends: each argument, and each field of an
/// options or input argument, under its own camelCase name, holding that
/// value; an absent optional one is left out.
pub proof fn lemma_update_sends_arguments(
    id: &str,
    input: UpdateEventTypeSchemaInput,
    r: GraphQLRequest,
)
    requires
        request_is(
            r,
            UPDATE_QUERY@,
            Some(
                field("id"@, Expected::Text(id@)) + field("input"@, Expected::Obj(input.members())),
            ),
            "updateEventTypeSchema"@,
        ),
    ensures
        text_of(variable(r, "id"@)) == Some(id@),
        sent_text(member_of(variable(r, "input"@), "eventType"@), input.event_type),
        sent_text(member_of(variable(r, "input"@), "description"@), input.description),
{
    broadcast use group_lookup;

    reveal_strlit("description");
    assert("description"@.len() == 11);
    reveal_strlit("eventType");
    assert("eventType"@.len() == 9);
    reveal_strlit("example");
    assert("example"@.len() == 7);
    reveal_strlit("id");
    assert("id"@.len() == 2);
    reveal_strlit("input");
    assert("input"@.len() == 5);
    reveal_strlit("schema");
    assert("schema"@.len() == 6);
    let fields = field(
        "id"@,
        Expected::Text(id@)) + field("input"@,
        Expected::Obj(input.members()),
    );
    lemma_variable_described(r, UPDATE_QUERY@, fields, "updateEventTypeSchema"@, "id"@);
    lemma_variable_described(r, UPDATE_QUERY@, fields, "updateEventTypeSchema"@, "input"@);
    let input_object = variable(r, "input"@).unwrap();
    assert(input_object is Object);
    lemma_member_described(input_object->Object_0@, input.members(), "eventType"@);
    lemma_member_described(input_object->Object_0@, input.members(), "description"@);
}

/// What [`EventTypeSchemaService::delete`] sends: each argument, and each field of an
/// options or input argument, under its own camelCase name, holding that
/// value; an absent optional one is left out.
pub proof fn lemma_delete_sends_arguments(id: &str, r: GraphQLRequest)
    requires
        request_is(
            r,
            DELETE_QUERY@,
            Some(field("id"@, Expected::Text(id@))),
            "deleteEventTypeSchema"@,
        ),
    ensures
        text_of(variable(r, "id"@)) == Some(id@),
{
    broadcast use group_lookup;

    reveal_strlit("id");
    assert("id"@.len() == 2);
    let fields = field("id"@, Expected::Text(id@));
    lemma_variable_described(r, DELETE_QUERY@, fields, "deleteEventTypeSchema"@, "id"@);
}

} // verus!
