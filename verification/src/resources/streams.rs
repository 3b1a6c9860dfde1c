//! Streams resource.

use crate::request::{
    Expected, ObjectBuilder, GraphQLRequest, request, field, opt_text, opt_int, request_is, group_lookup, lemma_variable_described, variable, text_of, sent_text, sent_int, lemma_member_described, member_of,
};
use vstd::prelude::*;

verus! {

broadcast use vstd::string::group_string_axioms;

/// Options for [`StreamService::list`].
#[derive(Debug, Default, Clone)]
#[non_exhaustive]
pub struct ListStreamsOptions {
    /// Filter by application ID.
    pub application_id: Option<String>,
    /// Filter by status.
    pub status: Option<String>,
    /// Free-text search.
    pub search: Option<String>,
    /// Offset-based page size.
    pub limit: Option<i32>,
    /// Offset-based page offset.
    pub offset: Option<i32>,
    /// Cursor for cursor-based pagination.
    pub after: Option<String>,
    /// Page size for cursor-based pagination.
    pub first: Option<i32>,
}

impl ListStreamsOptions {
    /// The members of the variables object these options are sent as:
    /// camelCase names, absent options left out.
    pub open spec fn members(self) -> Seq<(Seq<char>, Expected)> {
        opt_text("applicationId"@, self.application_id)
            + opt_text("status"@, self.status)
            + opt_text("search"@, self.search)
            + opt_int("limit"@, self.limit)
            + opt_int("offset"@, self.offset)
            + opt_text("after"@, self.after)
            + opt_int("first"@, self.first)
    }
}

/// Input shape for `StreamService::create`.
#[derive(Debug, Default, Clone)]
#[non_exhaustive]
pub struct CreateStreamInput {
    /// Owning application.
    pub application_id: String,
    /// Stream name.
    pub name: String,
    /// Retention in days.
    pub retention_days: Option<i32>,
    /// Initial status.
    pub status: Option<String>,
}

impl CreateStreamInput {
    /// The members of the JSON object this input is sent as: camelCase
    /// names, optional fields left out when absent.
    pub open spec fn members(self) -> Seq<(Seq<char>, Expected)> {
        field("applicationId"@, Expected::Text(self.application_id@))
            + field("name"@, Expected::Text(self.name@))
            + opt_int("retentionDays"@, self.retention_days)
            + opt_text("status"@, self.status)
    }

    /// The JSON object this input is sent as.
    pub fn to_object(self) -> (b: ObjectBuilder)
        ensures
            b.wf(),
            b.expected@ == self.members(),
    {
        let ghost spec = self.members();
        let mut b = ObjectBuilder::new();
        b.put_string("applicationId", self.application_id);
        b.put_string("name", self.name);
        b.put_opt_int("retentionDays", self.retention_days);
        b.put_opt_text("status", self.status);
        assert(b.expected@ =~= spec);
        b
    }
}

/// Input shape for `StreamService::update`.
#[derive(Debug, Default, Clone)]
#[non_exhaustive]
pub struct UpdateStreamInput {
    /// New name.
    pub name: Option<String>,
    /// New retention.
    pub retention_days: Option<i32>,
    /// New status.
    pub status: Option<String>,
}

impl UpdateStreamInput {
    /// The members of the JSON object this input is sent as: camelCase
    /// names, optional fields left out when absent.
    pub open spec fn members(self) -> Seq<(Seq<char>, Expected)> {
        opt_text("name"@, self.name)
            + opt_int("retentionDays"@, self.retention_days)
            + opt_text("status"@, self.status)
    }

    /// The JSON object this input is sent as.
    pub fn to_object(self) -> (b: ObjectBuilder)
        ensures
            b.wf(),
            b.expected@ == self.members(),
    {
        let ghost spec = self.members();
        let mut b = ObjectBuilder::new();
        b.put_opt_text("name", self.name);
        b.put_opt_int("retentionDays", self.retention_days);
        b.put_opt_text("status", self.status);
        assert(b.expected@ =~= spec);
        b
    }
}

/// The GraphQL document of `StreamService::list`.
pub const LIST_QUERY: &'static str = "query($applicationId: UUID, $status: StreamStatus, $search: String, $limit: Int, $offset: Int, $after: String, $first: Int) {\n                streams(applicationId: $applicationId, status: $status, search: $search, limit: $limit, offset: $offset, after: $after, first: $first) {\n                    nodes { id applicationId name status retentionDays createdAt }\n                    pageInfo { total limit offset endCursor hasNextPage }\n                }\n            }";

/// The GraphQL document of `StreamService::get`.
pub const GET_QUERY: &'static str = "query($id: UUID!) { stream(id: $id) { id applicationId name status retentionDays createdAt } }";

/// The GraphQL document of `StreamService::create`.
pub const CREATE_QUERY: &'static str = "mutation($input: CreateStreamInput!) { createStream(input: $input) { id applicationId name status retentionDays createdAt } }";

/// The GraphQL document of `StreamService::update`.
pub const UPDATE_QUERY: &'static str = "mutation($id: UUID!, $input: UpdateStreamInput!) { updateStream(id: $id, input: $input) { id applicationId name status retentionDays createdAt } }";

/// The GraphQL document of `StreamService::delete`.
pub const DELETE_QUERY: &'static str = "mutation($id: UUID!) { deleteStream(id: $id) }";

/// Service for managing [`Stream`] resources.
pub struct StreamService;

impl StreamService {
    /// List streams.
    pub fn list(&self, options: ListStreamsOptions) -> (r: GraphQLRequest)
        ensures
            request_is(r, LIST_QUERY@, Some(options.members()), "streams"@),
    {
        let ghost spec = options.members();
        let mut v = ObjectBuilder::new();
        v.put_opt_text("applicationId", options.application_id);
        v.put_opt_text("status", options.status);
        v.put_opt_text("search", options.search);
        v.put_opt_int("limit", options.limit);
        v.put_opt_int("offset", options.offset);
        v.put_opt_text("after", options.after);
        v.put_opt_int("first", options.first);
        proof {
            assert(v.expected@ =~= spec);
        }
        request(LIST_QUERY, v, "streams")
    }

    /// Get a stream by ID.
    pub fn get(&self, id: &str) -> (r: GraphQLRequest)
        ensures
            request_is(r, GET_QUERY@, Some(field("id"@, Expected::Text(id@))), "stream"@),
    {
        let ghost spec = field("id"@, Expected::Text(id@));
        let mut v = ObjectBuilder::new();
        v.put_text("id", id);
        proof {
            assert(v.expected@ =~= spec);
        }
        request(GET_QUERY, v, "stream")
    }

    /// Create a new stream.
    pub fn create(&self, input: CreateStreamInput) -> (r: GraphQLRequest)
        ensures
            request_is(
                r,
                CREATE_QUERY@,
                Some(field("input"@, Expected::Obj(input.members()))),
                "createStream"@,
            ),
    {
        let ghost spec = field("input"@, Expected::Obj(input.members()));
        let mut v = ObjectBuilder::new();
        v.put_object("input", input.to_object());
        proof {
            assert(v.expected@ =~= spec);
        }
        request(CREATE_QUERY, v, "createStream")
    }

    /// Update an existing stream.
    pub fn update(&self, id: &str, input: UpdateStreamInput) -> (r: GraphQLRequest)
        ensures
            request_is(
                r,
                UPDATE_QUERY@,
                Some(
                    field("id"@, Expected::Text(id@))
                        + field("input"@, Expected::Obj(input.members())),
                ),
                "updateStream"@,
            ),
    {
        let ghost spec =
            field("id"@, Expected::Text(id@)) + field("input"@, Expected::Obj(input.members()));
        let mut v = ObjectBuilder::new();
        v.put_text("id", id);
        v.put_object("input", input.to_object());
        proof {
            assert(v.expected@ =~= spec);
        }
        request(UPDATE_QUERY, v, "updateStream")
    }

    /// Delete a stream.
    pub fn delete(&self, id: &str) -> (r: GraphQLRequest)
        ensures
            request_is(r, DELETE_QUERY@, Some(field("id"@, Expected::Text(id@))), "deleteStream"@),
    {
        let ghost spec = field("id"@, Expected::Text(id@));
        let mut v = ObjectBuilder::new();
        v.put_text("id", id);
        proof {
            assert(v.expected@ =~= spec);
        }
        request(DELETE_QUERY, v, "deleteStream")
    }
}

/// Async variant of the stream service.
pub struct AsyncStreamService;

impl AsyncStreamService {
    /// List streams.
    pub fn list(&self, options: ListStreamsOptions) -> (r: GraphQLRequest)
        ensures
            request_is(r, LIST_QUERY@, Some(options.members()), "streams"@),
    {
        StreamService.list(options)
    }

    /// Get a stream by ID.
    pub fn get(&self, id: &str) -> (r: GraphQLRequest)
        ensures
            request_is(r, GET_QUERY@, Some(field("id"@, Expected::Text(id@))), "stream"@),
    {
        StreamService.get(id)
    }

    /// Create a new stream.
    pub fn create(&self, input: CreateStreamInput) -> (r: GraphQLRequest)
        ensures
            request_is(
                r,
                CREATE_QUERY@,
                Some(field("input"@, Expected::Obj(input.members()))),
                "createStream"@,
            ),
    {
        StreamService.create(input)
    }

    /// Update an existing stream.
    pub fn update(&self, id: &str, input: UpdateStreamInput) -> (r: GraphQLRequest)
        ensures
            request_is(
                r,
                UPDATE_QUERY@,
                Some(
                    field("id"@, Expected::Text(id@))
                        + field("input"@, Expected::Obj(input.members())),
                ),
                "updateStream"@,
            ),
    {
        StreamService.update(id, input)
    }

    /// Delete a stream.
    pub fn delete(&self, id: &str) -> (r: GraphQLRequest)
        ensures
            request_is(r, DELETE_QUERY@, Some(field("id"@, Expected::Text(id@))), "deleteStream"@),
    {
        StreamService.delete(id)
    }
}

/// What [`StreamService::list`] sends: each argument, and each field of an
/// options or input argument, under its own camelCase name, holding that
/// value; an absent optional one is left out.
pub proof fn lemma_list_sends_arguments(options: ListStreamsOptions, r: GraphQLRequest)
    requires
        request_is(r, LIST_QUERY@, Some(options.members()), "streams"@),
    ensures
        sent_text(variable(r, "applicationId"@), options.application_id),
        sent_text(variable(r, "status"@), options.status),
        sent_text(variable(r, "search"@), options.search),
        sent_int(variable(r, "limit"@), options.limit),
        sent_int(variable(r, "offset"@), options.offset),
        sent_text(variable(r, "after"@), options.after),
        sent_int(variable(r, "first"@), options.first),
{
    broadcast use group_lookup;

    reveal_strlit("after");
    assert("after"@.len() == 5);
    reveal_strlit("applicationId");
    assert("applicationId"@.len() == 13);
    reveal_strlit("first");
    assert("first"@.len() == 5);
    reveal_strlit("limit");
    assert("limit"@.len() == 5);
    reveal_strlit("offset");
    assert("offset"@.len() == 6);
    reveal_strlit("search");
    assert("search"@.len() == 6);
    reveal_strlit("status");
    assert("status"@.len() == 6);
    assert("after"@[0] == 'a');
    assert("first"@[0] == 'f');
    assert("limit"@[0] == 'l');
    assert("offset"@[0] == 'o');
    assert("search"@[0] == 's');
    assert("status"@[0] == 's');
    assert("search"@[1] == 'e');
    assert("status"@[1] == 't');
    let fields = options.members();
    lemma_variable_described(r, LIST_QUERY@, fields, "streams"@, "applicationId"@);
    lemma_variable_described(r, LIST_QUERY@, fields, "streams"@, "status"@);
    lemma_variable_described(r, LIST_QUERY@, fields, "streams"@, "search"@);
    lemma_variable_described(r, LIST_QUERY@, fields, "streams"@, "limit"@);
    lemma_variable_described(r, LIST_QUERY@, fields, "streams"@, "offset"@);
    lemma_variable_described(r, LIST_QUERY@, fields, "streams"@, "after"@);
    lemma_variable_described(r, LIST_QUERY@, fields, "streams"@, "first"@);
}

/// What [`StreamService::get`] sends: each argument, and each field of an
/// options or input argument, under its own camelCase name, holding that
/// value; an absent optional one is left out.
pub proof fn lemma_get_sends_arguments(id: &str, r: GraphQLRequest)
    requires
        request_is(r, GET_QUERY@, Some(field("id"@, Expected::Text(id@))), "stream"@),
    ensures
        text_of(variable(r, "id"@)) == Some(id@),
{
    broadcast use group_lookup;

    reveal_strlit("id");
    assert("id"@.len() == 2);
    let fields = field("id"@, Expected::Text(id@));
    lemma_variable_described(r, GET_QUERY@, fields, "stream"@, "id"@);
}

/// What [`StreamService::create`] sends: each argument, and each field of an
/// options or input argument, under its own camelCase name, holding that
/// value; an absent optional one is left out.
pub proof fn lemma_create_sends_arguments(input: CreateStreamInput, r: GraphQLRequest)
    requires
        request_is(
            r,
            CREATE_QUERY@,
            Some(field("input"@, Expected::Obj(input.members()))),
            "createStream"@,
        ),
    ensures
        text_of(member_of(variable(r, "input"@), "applicationId"@)) == Some(input.application_id@),
        text_of(member_of(variable(r, "input"@), "name"@)) == Some(input.name@),
        sent_int(member_of(variable(r, "input"@), "retentionDays"@), input.retention_days),
        sent_text(member_of(variable(r, "input"@), "status"@), input.status),
{
    broadcast use group_lookup;

    reveal_strlit("applicationId");
    assert("applicationId"@.len() == 13);
    reveal_strlit("input");
    assert("input"@.len() == 5);
    reveal_strlit("name");
    assert("name"@.len() == 4);
    reveal_strlit("retentionDays");
    assert("retentionDays"@.len() == 13);
    reveal_strlit("status");
    assert("status"@.len() == 6);
    assert("applicationId"@[0] == 'a');
    assert("retentionDays"@[0] == 'r');
    let fields = field("input"@, Expected::Obj(input.members()));
    lemma_variable_described(r, CREATE_QUERY@, fields, "createStream"@, "input"@);
    let input_object = variable(r, "input"@).unwrap();
    assert(input_object is Object);
    lemma_member_described(input_object->Object_0@, input.members(), "applicationId"@);
    lemma_member_described(input_object->Object_0@, input.members(), "name"@);
    lemma_member_described(input_object->Object_0@, input.members(), "retentionDays"@);
    lemma_member_described(input_object->Object_0@, input.members(), "status"@);
}

/// What [`StreamService::update`] sends: each argument, and each field of an
/// options or input argument, under its own camelCase name, holding that
/// value; an absent optional one is left out.
pub proof fn lemma_update_sends_arguments(id: &str, input: UpdateStreamInput, r: GraphQLRequest)
    requires
        request_is(
            r,
            UPDATE_QUERY@,
            Some(
                field("id"@, Expected::Text(id@)) + field("input"@, Expected::Obj(input.members())),
            ),
            "updateStream"@,
        ),
    ensures
        text_of(variable(r, "id"@)) == Some(id@),
        sent_text(member_of(variable(r, "input"@), "name"@), input.name),
        sent_int(member_of(variable(r, "input"@), "retentionDays"@), input.retention_days),
        sent_text(member_of(variable(r, "input"@), "status"@), input.status),
{
    broadcast use group_lookup;

    reveal_strlit("id");
    assert("id"@.len() == 2);
    reveal_strlit("input");
    assert("input"@.len() == 5);
    reveal_strlit("name");
    assert("name"@.len() == 4);
    reveal_strlit("retentionDays");
    assert("retentionDays"@.len() == 13);
    reveal_strlit("status");
    assert("status"@.len() == 6);
    let fields = field(
        "id"@,
        Expected::Text(id@)) + field("input"@,
        Expected::Obj(input.members()),
    );
    lemma_variable_described(r, UPDATE_QUERY@, fields, "updateStream"@, "id"@);
    lemma_variable_described(r, UPDATE_QUERY@, fields, "updateStream"@, "input"@);
    let input_object = variable(r, "input"@).unwrap();
    assert(input_object is Object);
    lemma_member_described(input_object->Object_0@, input.members(), "name"@);
    lemma_member_described(input_object->Object_0@, input.members(), "retentionDays"@);
    lemma_member_described(input_object->Object_0@, input.members(), "status"@);
}

/// What [`StreamService::delete`] sends: each argument, and each field of an
/// options or input argument, under its own camelCase name, holding that
/// value; an absent optional one is left out.
pub proof fn lemma_delete_sends_arguments(id: &str, r: GraphQLRequest)
    requires
        request_is(r, DELETE_QUERY@, Some(field("id"@, Expected::Text(id@))), "deleteStream"@),
    ensures
        text_of(variable(r, "id"@)) == Some(id@),
{
    broadcast use group_lookup;

    reveal_strlit("id");
    assert("id"@.len() == 2);
    let fields = field("id"@, Expected::Text(id@));
    lemma_variable_described(r, DELETE_QUERY@, fields, "deleteStream"@, "id"@);
}

} // verus!
