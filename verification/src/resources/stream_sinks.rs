//! Stream sinks: forward stream events to external systems.

use crate::json::Json;
use crate::request::{
    Expected, ObjectBuilder, GraphQLRequest, request, field, opt_text, opt_int, opt_members, request_is, group_lookup, lemma_variable_described, variable, text_of, lemma_member_described, member_of, sent_text, sent_int,
};
use vstd::prelude::*;

verus! {

broadcast use vstd::string::group_string_axioms;

/// Options for [`StreamSinkService::list`].
#[derive(Debug, Default, Clone)]
#[non_exhaustive]
pub struct ListStreamSinksOptions {
    /// Filter by status.
    pub status: Option<String>,
    /// Free-text search.
    pub search: Option<String>,
    /// Offset-based page size.
    pub limit: Option<i32>,
    /// Offset-based page offset.
    pub offset: Option<i32>,
    /// Cursor for cursor-based pagination.
    pub after: Option<String>,
    /// Page size for cursor-based pagination.
    pub first: Option<i32>,
}

impl ListStreamSinksOptions {
    /// The members of the variables object these options are sent as:
    /// camelCase names, absent options left out.
    pub open spec fn members(self) -> Seq<(Seq<char>, Expected)> {
        opt_text("status"@, self.status)
            + opt_text("search"@, self.search)
            + opt_int("limit"@, self.limit)
            + opt_int("offset"@, self.offset)
            + opt_text("after"@, self.after)
            + opt_int("first"@, self.first)
    }
}

/// Input shape for `StreamSinkService::create`.
#[derive(Debug, Default, Clone)]
#[non_exhaustive]
pub struct CreateStreamSinkInput {
    /// Owning stream.
    pub stream_id: String,
    /// Sink name.
    pub name: String,
    /// Sink type.
    pub sink_type: String,
    /// Sink-specific configuration.
    pub config: Vec<(String, Json)>,
    /// Optional batch size.
    pub batch_size: Option<i32>,
    /// Optional flush interval (Go duration).
    pub flush_interval: Option<String>,
}

impl CreateStreamSinkInput {
    /// The members of the JSON object this input is sent as: camelCase
    /// names, optional fields left out when absent.
    pub open spec fn members(self) -> Seq<(Seq<char>, Expected)> {
        field("streamId"@, Expected::Text(self.stream_id@))
            + field("name"@, Expected::Text(self.name@))
            + field("sinkType"@, Expected::Text(self.sink_type@))
            + field("config"@, Expected::Doc(Json::Object(self.config)))
            + opt_int("batchSize"@, self.batch_size)
            + opt_text("flushInterval"@, self.flush_interval)
    }

    /// The JSON object this input is sent as.
    pub fn to_object(self) -> (b: ObjectBuilder)
        ensures
            b.wf(),
            b.expected@ == self.members(),
    {
        let ghost spec = self.members();
        let mut b = ObjectBuilder::new();
        b.put_string("streamId", self.stream_id);
        b.put_string("name", self.name);
        b.put_string("sinkType", self.sink_type);
        b.put_members("config", self.config);
        b.put_opt_int("batchSize", self.batch_size);
        b.put_opt_text("flushInterval", self.flush_interval);
        assert(b.expected@ =~= spec);
        b
    }
}

/// Input shape for `StreamSinkService::update`.
#[derive(Debug, Default, Clone)]
#[non_exhaustive]
pub struct UpdateStreamSinkInput {
    /// New name.
    pub name: Option<String>,
    /// New config.
    pub config: Option<Vec<(String, Json)>>,
    /// New batch size.
    pub batch_size: Option<i32>,
    /// New flush interval.
    pub flush_interval: Option<String>,
    /// New status.
    pub status: Option<String>,
}

impl UpdateStreamSinkInput {
    /// The members of the JSON object this input is sent as: camelCase
    /// names, optional fields left out when absent.
    pub open spec fn members(self) -> Seq<(Seq<char>, Expected)> {
        opt_text("name"@, self.name)
            + opt_members("config"@, self.config)
            + opt_int("batchSize"@, self.batch_size)
            + opt_text("flushInterval"@, self.flush_interval)
            + opt_text("status"@, self.status)
    }

    /// The JSON object this input is sent as.
    pub fn to_object(self) -> (b: ObjectBuilder)
        ensures
            b.wf(),
            b.expected@ == self.members(),
    {
        let ghost spec = self.members();
        let mut b = ObjectBuilder::new();
        b.put_opt_text("name", self.name);
        b.put_opt_members("config", self.config);
        b.put_opt_int("batchSize", self.batch_size);
        b.put_opt_text("flushInterval", self.flush_interval);
        b.put_opt_text("status", self.status);
        assert(b.expected@ =~= spec);
        b
    }
}

/// The GraphQL document of `StreamSinkService::list`.
pub const LIST_QUERY: &'static str = "query($streamId: UUID!, $status: SinkStatus, $search: String, $limit: Int, $offset: Int, $after: String, $first: Int) {\n                streamSinks(streamId: $streamId, status: $status, search: $search, limit: $limit, offset: $offset, after: $after, first: $first) {\n                    nodes { id streamId name sinkType config batchSize flushInterval cursorSequence status lastFlushedAt createdAt }\n                    pageInfo { total limit offset endCursor hasNextPage }\n                }\n            }";

/// The GraphQL document of `StreamSinkService::get`.
pub const GET_QUERY: &'static str = "query($id: UUID!) { streamSink(id: $id) { id streamId name sinkType config batchSize flushInterval cursorSequence status lastFlushedAt createdAt } }";

/// The GraphQL document of `StreamSinkService::create`.
pub const CREATE_QUERY: &'static str = "mutation($input: CreateStreamSinkInput!) { createStreamSink(input: $input) { id streamId name sinkType config batchSize flushInterval cursorSequence status lastFlushedAt createdAt } }";

/// The GraphQL document of `StreamSinkService::update`.
pub const UPDATE_QUERY: &'static str = "mutation($id: UUID!, $input: UpdateStreamSinkInput!) { updateStreamSink(id: $id, input: $input) { id streamId name sinkType config batchSize flushInterval cursorSequence status lastFlushedAt createdAt } }";

/// The GraphQL document of `StreamSinkService::delete`.
pub const DELETE_QUERY: &'static str = "mutation($id: UUID!) { deleteStreamSink(id: $id) }";

/// Service for managing [`StreamSink`] resources.
pub struct StreamSinkService;

impl StreamSinkService {
    /// List sinks attached to `stream_id`.
    pub fn list(&self, stream_id: &str, options: ListStreamSinksOptions) -> (r: GraphQLRequest)
        ensures
            request_is(
                r,
                LIST_QUERY@,
                Some(field("streamId"@, Expected::Text(stream_id@)) + options.members()),
                "streamSinks"@,
            ),
    {
        let ghost spec = field("streamId"@, Expected::Text(stream_id@)) + options.members();
        let mut v = ObjectBuilder::new();
        v.put_text("streamId", stream_id);
        v.put_opt_text("status", options.status);
        v.put_opt_text("search", options.search);
        v.put_opt_int("limit", options.limit);
        v.put_opt_int("offset", options.offset);
        v.put_opt_text("after", options.after);
        v.put_opt_int("first", options.first);
        proof {
            assert(v.expected@ =~= spec);
        }
        request(LIST_QUERY, v, "streamSinks")
    }

    /// Get a sink by ID.
    pub fn get(&self, id: &str) -> (r: GraphQLRequest)
        ensures
            request_is(r, GET_QUERY@, Some(field("id"@, Expected::Text(id@))), "streamSink"@),
    {
        let ghost spec = field("id"@, Expected::Text(id@));
        let mut v = ObjectBuilder::new();
        v.put_text("id", id);
        proof {
            assert(v.expected@ =~= spec);
        }
        request(GET_QUERY, v, "streamSink")
    }

    /// Create a new sink.
    pub fn create(&self, input: CreateStreamSinkInput) -> (r: GraphQLRequest)
        ensures
            request_is(
                r,
                CREATE_QUERY@,
                Some(field("input"@, Expected::Obj(input.members()))),
                "createStreamSink"@,
            ),
    {
        let ghost spec = field("input"@, Expected::Obj(input.members()));
        let mut v = ObjectBuilder::new();
        v.put_object("input", input.to_object());
        proof {
            assert(v.expected@ =~= spec);
        }
        request(CREATE_QUERY, v, "createStreamSink")
    }

    /// Update a sink.
    pub fn update(&self, id: &str, input: UpdateStreamSinkInput) -> (r: GraphQLRequest)
        ensures
            request_is(
                r,
                UPDATE_QUERY@,
                Some(
                    field("id"@, Expected::Text(id@))
                        + field("input"@, Expected::Obj(input.members())),
                ),
                "updateStreamSink"@,
            ),
    {
        let ghost spec =
            field("id"@, Expected::Text(id@)) + field("input"@, Expected::Obj(input.members()));
        let mut v = ObjectBuilder::new();
        v.put_text("id", id);
        v.put_object("input", input.to_object());
        proof {
            assert(v.expected@ =~= spec);
        }
        request(UPDATE_QUERY, v, "updateStreamSink")
    }

    /// Delete a sink.
    pub fn delete(&self, id: &str) -> (r: GraphQLRequest)
        ensures
            request_is(
                r,
                DELETE_QUERY@,
                Some(field("id"@, Expected::Text(id@))),
                "deleteStreamSink"@,
            ),
    {
        let ghost spec = field("id"@, Expected::Text(id@));
        let mut v = ObjectBuilder::new();
        v.put_text("id", id);
        proof {
            assert(v.expected@ =~= spec);
        }
        request(DELETE_QUERY, v, "deleteStreamSink")
    }
}

/// Async variant of the stream-sink service.
pub struct AsyncStreamSinkService;

impl AsyncStreamSinkService {
    /// List sinks attached to `stream_id`.
    pub fn list(&self, stream_id: &str, options: ListStreamSinksOptions) -> (r: GraphQLRequest)
        ensures
            request_is(
                r,
                LIST_QUERY@,
                Some(field("streamId"@, Expected::Text(stream_id@)) + options.members()),
                "streamSinks"@,
            ),
    {
        StreamSinkService.list(stream_id, options)
    }

    /// Get a sink by ID.
    pub fn get(&self, id: &str) -> (r: GraphQLRequest)
        ensures
            request_is(r, GET_QUERY@, Some(field("id"@, Expected::Text(id@))), "streamSink"@),
    {
        StreamSinkService.get(id)
    }

    /// Create a new sink.
    pub fn create(&self, input: CreateStreamSinkInput) -> (r: GraphQLRequest)
        ensures
            request_is(
                r,
                CREATE_QUERY@,
                Some(field("input"@, Expected::Obj(input.members()))),
                "createStreamSink"@,
            ),
    {
        StreamSinkService.create(input)
    }

    /// Update a sink.
    pub fn update(&self, id: &str, input: UpdateStreamSinkInput) -> (r: GraphQLRequest)
        ensures
            request_is(
                r,
                UPDATE_QUERY@,
                Some(
                    field("id"@, Expected::Text(id@))
                        + field("input"@, Expected::Obj(input.members())),
                ),
                "updateStreamSink"@,
            ),
    {
        StreamSinkService.update(id, input)
    }

    /// Delete a sink.
    pub fn delete(&self, id: &str) -> (r: GraphQLRequest)
        ensures
            request_is(
                r,
                DELETE_QUERY@,
                Some(field("id"@, Expected::Text(id@))),
                "deleteStreamSink"@,
            ),
    {
        StreamSinkService.delete(id)
    }
}

/// What [`StreamSinkService::list`] sends: each argument, and each field of an
/// options or input argument, under its own camelCase name, holding that
/// value; an absent optional one is left out.
pub proof fn lemma_list_sends_arguments(
    stream_id: &str,
    options: ListStreamSinksOptions,
    r: GraphQLRequest,
)
    requires
        request_is(
            r,
            LIST_QUERY@,
            Some(field("streamId"@, Expected::Text(stream_id@)) + options.members()),
            "streamSinks"@,
        ),
    ensures
        text_of(variable(r, "streamId"@)) == Some(stream_id@),
        sent_text(variable(r, "status"@), options.status),
        sent_text(variable(r, "search"@), options.search),
        sent_int(variable(r, "limit"@), options.limit),
        sent_int(variable(r, "offset"@), options.offset),
        sent_text(variable(r, "after"@), options.after),
        sent_int(variable(r, "first"@), options.first),
{
    broadcast use group_lookup;

    reveal_strlit("after");
    assert("after"@.len() == 5);
    reveal_strlit("first");
    assert("first"@.len() == 5);
    reveal_strlit("limit");
    assert("limit"@.len() == 5);
    reveal_strlit("offset");
    assert("offset"@.len() == 6);
    reveal_strlit("search");
    assert("search"@.len() == 6);
    reveal_strlit("status");
    assert("status"@.len() == 6);
    reveal_strlit("streamId");
    assert("streamId"@.len() == 8);
    assert("after"@[0] == 'a');
    assert("first"@[0] == 'f');
    assert("limit"@[0] == 'l');
    assert("offset"@[0] == 'o');
    assert("search"@[0] == 's');
    assert("status"@[0] == 's');
    assert("search"@[1] == 'e');
    assert("status"@[1] == 't');
    let fields = field("streamId"@, Expected::Text(stream_id@)) + options.members();
    lemma_variable_described(r, LIST_QUERY@, fields, "streamSinks"@, "streamId"@);
    lemma_variable_described(r, LIST_QUERY@, fields, "streamSinks"@, "status"@);
    lemma_variable_described(r, LIST_QUERY@, fields, "streamSinks"@, "search"@);
    lemma_variable_described(r, LIST_QUERY@, fields, "streamSinks"@, "limit"@);
    lemma_variable_described(r, LIST_QUERY@, fields, "streamSinks"@, "offset"@);
    lemma_variable_described(r, LIST_QUERY@, fields, "streamSinks"@, "after"@);
    lemma_variable_described(r, LIST_QUERY@, fields, "streamSinks"@, "first"@);
}

/// What [`StreamSinkService::get`] sends: each argument, and each field of an
/// options or input argument, under its own camelCase name, holding that
/// value; an absent optional one is left out.
pub proof fn lemma_get_sends_arguments(id: &str, r: GraphQLRequest)
    requires
        request_is(r, GET_QUERY@, Some(field("id"@, Expected::Text(id@))), "streamSink"@),
    ensures
        text_of(variable(r, "id"@)) == Some(id@),
{
    broadcast use group_lookup;

    reveal_strlit("id");
    assert("id"@.len() == 2);
    let fields = field("id"@, Expected::Text(id@));
    lemma_variable_described(r, GET_QUERY@, fields, "streamSink"@, "id"@);
}

/// What [`StreamSinkService::create`] sends: each argument, and each field of an
/// options or input argument, under its own camelCase name, holding that
/// value; an absent optional one is left out.
pub proof fn lemma_create_sends_arguments(input: CreateStreamSinkInput, r: GraphQLRequest)
    requires
        request_is(
            r,
            CREATE_QUERY@,
            Some(field("input"@, Expected::Obj(input.members()))),
            "createStreamSink"@,
        ),
    ensures
        text_of(member_of(variable(r, "input"@), "streamId"@)) == Some(input.stream_id@),
        text_of(member_of(variable(r, "input"@), "name"@)) == Some(input.name@),
        text_of(member_of(variable(r, "input"@), "sinkType"@)) == Some(input.sink_type@),
        sent_int(member_of(variable(r, "input"@), "batchSize"@), input.batch_size),
        sent_text(member_of(variable(r, "input"@), "flushInterval"@), input.flush_interval),
{
    broadcast use group_lookup;

    reveal_strlit("batchSize");
    assert("batchSize"@.len() == 9);
    reveal_strlit("config");
    assert("config"@.len() == 6);
    reveal_strlit("flushInterval");
    assert("flushInterval"@.len() == 13);
    reveal_strlit("input");
    assert("input"@.len() == 5);
    reveal_strlit("name");
    assert("name"@.len() == 4);
    reveal_strlit("sinkType");
    assert("sinkType"@.len() == 8);
    reveal_strlit("streamId");
    assert("streamId"@.len() == 8);
    assert("sinkType"@[1] == 'i');
    assert("streamId"@[1] == 't');
    let fields = field("input"@, Expected::Obj(input.members()));
    lemma_variable_described(r, CREATE_QUERY@, fields, "createStreamSink"@, "input"@);
    let input_object = variable(r, "input"@).unwrap();
    assert(input_object is Object);
    lemma_member_described(input_object->Object_0@, input.members(), "streamId"@);
    lemma_member_described(input_object->Object_0@, input.members(), "name"@);
    lemma_member_described(input_object->Object_0@, input.members(), "sinkType"@);
    lemma_member_described(input_object->Object_0@, input.members(), "batchSize"@);
    lemma_member_described(input_object->Object_0@, input.members(), "flushInterval"@);
}

/// What [`StreamSinkService::update`] sends: each argument, and each field of an
/// options or input argument, under its own camelCase name, holding that
/// value; an absent optional one is left out.
pub proof fn lemma_update_sends_arguments(id: &str, input: UpdateStreamSinkInput, r: GraphQLRequest)
    requires
        request_is(
            r,
            UPDATE_QUERY@,
            Some(
                field("id"@, Expected::Text(id@)) + field("input"@, Expected::Obj(input.members())),
            ),
            "updateStreamSink"@,
        ),
    ensures
        text_of(variable(r, "id"@)) == Some(id@),
        sent_text(member_of(variable(r, "input"@), "name"@), input.name),
        sent_int(member_of(variable(r, "input"@), "batchSize"@), input.batch_size),
        sent_text(member_of(variable(r, "input"@), "flushInterval"@), input.flush_interval),
        sent_text(member_of(variable(r, "input"@), "status"@), input.status),
{
    broadcast use group_lookup;

    reveal_strlit("batchSize");
    assert("batchSize"@.len() == 9);
    reveal_strlit("config");
    assert("config"@.len() == 6);
    reveal_strlit("flushInterval");
    assert("flushInterval"@.len() == 13);
    reveal_strlit("id");
    assert("id"@.len() == 2);
    reveal_strlit("input");
    assert("input"@.len() == 5);
    reveal_strlit("name");
    assert("name"@.len() == 4);
    reveal_strlit("status");
    assert("status"@.len() == 6);
    assert("config"@[0] == 'c');
    assert("status"@[0] == 's');
    let fields = field(
        "id"@,
        Expected::Text(id@)) + field("input"@,
        Expected::Obj(input.members()),
    );
    lemma_variable_described(r, UPDATE_QUERY@, fields, "updateStreamSink"@, "id"@);
    lemma_variable_described(r, UPDATE_QUERY@, fields, "updateStreamSink"@, "input"@);
    let input_object = variable(r, "input"@).unwrap();
    assert(input_object is Object);
    lemma_member_described(input_object->Object_0@, input.members(), "name"@);
    lemma_member_described(input_object->Object_0@, input.members(), "batchSize"@);
    lemma_member_described(input_object->Object_0@, input.members(), "flushInterval"@);
    lemma_member_described(input_object->Object_0@, input.members(), "status"@);
}

/// What [`StreamSinkService::delete`] sends: each argument, and each field of an
/// options or input argument, under its own camelCase name, holding that
/// value; an absent optional one is left out.
pub proof fn lemma_delete_sends_arguments(id: &str, r: GraphQLRequest)
    requires
        request_is(r, DELETE_QUERY@, Some(field("id"@, Expected::Text(id@))), "deleteStreamSink"@),
    ensures
        text_of(variable(r, "id"@)) == Some(id@),
{
    broadcast use group_lookup;

    reveal_strlit("id");
    assert("id"@.len() == 2);
    let fields = field("id"@, Expected::Text(id@));
    lemma_variable_described(r, DELETE_QUERY@, fields, "deleteStreamSink"@, "id"@);
}

} // verus!
