//! Stream consumer cursors.

use crate::request::{
    Expected, ObjectBuilder, GraphQLRequest, request, field, opt_text, opt_int, request_is, group_lookup, lemma_variable_described, variable, text_of, number_is, sent_text, sent_int,
};
use vstd::prelude::*;

verus! {

broadcast use vstd::string::group_string_axioms;

/// Options for [`StreamConsumerService::list`].
#[derive(Debug, Default, Clone)]
#[non_exhaustive]
pub struct ListStreamConsumersOptions {
    /// Free-text search.
    pub search: Option<String>,
    /// Offset-based page size.
    pub limit: Option<i32>,
    /// Offset-based page offset.
    pub offset: Option<i32>,
    /// Cursor for cursor-based pagination.
    pub after: Option<String>,
    /// Page size for cursor-based pagination.
    pub first: Option<i32>,
}

impl ListStreamConsumersOptions {
    /// The members of the variables object these options are sent as:
    /// camelCase names, absent options left out.
    pub open spec fn members(self) -> Seq<(Seq<char>, Expected)> {
        opt_text("search"@, self.search)
            + opt_int("limit"@, self.limit)
            + opt_int("offset"@, self.offset)
            + opt_text("after"@, self.after)
            + opt_int("first"@, self.first)
    }
}

/// The GraphQL document of `StreamConsumerService::list`.
pub const LIST_QUERY: &'static str = "query($streamId: UUID!, $search: String, $limit: Int, $offset: Int, $after: String, $first: Int) {\n                streamConsumers(streamId: $streamId, search: $search, limit: $limit, offset: $offset, after: $after, first: $first) {\n                    nodes { id streamId name cursorSequence createdAt updatedAt }\n                    pageInfo { total limit offset endCursor hasNextPage }\n                }\n            }";

/// The GraphQL document of `StreamConsumerService::get`.
pub const GET_QUERY: &'static str = "query($id: UUID!) { streamConsumer(id: $id) { id streamId name cursorSequence createdAt updatedAt } }";

/// The GraphQL document of `StreamConsumerService::create`.
pub const CREATE_QUERY: &'static str = "mutation($input: CreateStreamConsumerInput!) { createStreamConsumer(input: $input) { id streamId name cursorSequence createdAt updatedAt } }";

/// The GraphQL document of `StreamConsumerService::delete`.
pub const DELETE_QUERY: &'static str = "mutation($id: UUID!) { deleteStreamConsumer(id: $id) }";

/// The GraphQL document of `StreamConsumerService::advance_cursor`.
pub const ADVANCE_CURSOR_QUERY: &'static str = "mutation($id: UUID!, $sequence: Int!) { advanceConsumerCursor(id: $id, sequence: $sequence) { id streamId name cursorSequence createdAt updatedAt } }";

/// Service for managing [`StreamConsumer`] resources.
pub struct StreamConsumerService;

impl StreamConsumerService {
    /// List consumers attached to `stream_id`.
    pub fn list(&self, stream_id: &str, options: ListStreamConsumersOptions) -> (r: GraphQLRequest)
        ensures
            request_is(
                r,
                LIST_QUERY@,
                Some(field("streamId"@, Expected::Text(stream_id@)) + options.members()),
                "streamConsumers"@,
            ),
    {
        let ghost spec = field("streamId"@, Expected::Text(stream_id@)) + options.members();
        let mut v = ObjectBuilder::new();
        v.put_text("streamId", stream_id);
        v.put_opt_text("search", options.search);
        v.put_opt_int("limit", options.limit);
        v.put_opt_int("offset", options.offset);
        v.put_opt_text("after", options.after);
        v.put_opt_int("first", options.first);
        proof {
            assert(v.expected@ =~= spec);
        }
        request(LIST_QUERY, v, "streamConsumers")
    }

    /// Get a consumer by ID.
    pub fn get(&self, id: &str) -> (r: GraphQLRequest)
        ensures
            request_is(r, GET_QUERY@, Some(field("id"@, Expected::Text(id@))), "streamConsumer"@),
    {
        let ghost spec = field("id"@, Expected::Text(id@));
        let mut v = ObjectBuilder::new();
        v.put_text("id", id);
        proof {
            assert(v.expected@ =~= spec);
        }
        request(GET_QUERY, v, "streamConsumer")
    }

    /// Create a new consumer.
    pub fn create(&self, stream_id: &str, name: &str) -> (r: GraphQLRequest)
        ensures
            request_is(
                r,
                CREATE_QUERY@,
                Some(
                    field("input"@, Expected::Obj(field("streamId"@, Expected::Text(stream_id@)) + field("name"@, Expected::Text(name@)))),
                ),
                "createStreamConsumer"@,
            ),
    {
        let ghost input_spec =
            field("streamId"@, Expected::Text(stream_id@)) + field("name"@, Expected::Text(name@));
        let ghost spec =
            field(
                "input"@,
                Expected::Obj(field("streamId"@, Expected::Text(stream_id@)) + field("name"@, Expected::Text(name@))),
            );
        let mut input = ObjectBuilder::new();
        input.put_text("streamId", stream_id);
        input.put_text("name", name);
        let mut v = ObjectBuilder::new();
        proof {
            assert(input.expected@ =~= input_spec);
        }
        v.put_object("input", input);
        proof {
            assert(v.expected@ =~= spec);
        }
        request(CREATE_QUERY, v, "createStreamConsumer")
    }

    /// Delete a consumer.
    pub fn delete(&self, id: &str) -> (r: GraphQLRequest)
        ensures
            request_is(
                r,
                DELETE_QUERY@,
                Some(field("id"@, Expected::Text(id@))),
                "deleteStreamConsumer"@,
            ),
    {
        let ghost spec = field("id"@, Expected::Text(id@));
        let mut v = ObjectBuilder::new();
        v.put_text("id", id);
        proof {
            assert(v.expected@ =~= spec);
        }
        request(DELETE_QUERY, v, "deleteStreamConsumer")
    }

    /// Advance the consumer's cursor to `sequence`.
    pub fn advance_cursor(&self, id: &str, sequence: i64) -> (r: GraphQLRequest)
        ensures
            request_is(
                r,
                ADVANCE_CURSOR_QUERY@,
                Some(
                    field("id"@, Expected::Text(id@))
                        + field("sequence"@, Expected::Int(sequence as int)),
                ),
                "advanceConsumerCursor"@,
            ),
    {
        let ghost spec =
            field("id"@, Expected::Text(id@)) + field("sequence"@, Expected::Int(sequence as int));
        let mut v = ObjectBuilder::new();
        v.put_text("id", id);
        v.put_int("sequence", sequence);
        proof {
            assert(v.expected@ =~= spec);
        }
        request(ADVANCE_CURSOR_QUERY, v, "advanceConsumerCursor")
    }
}

/// Async variant of the stream-consumer service.
pub struct AsyncStreamConsumerService;

impl AsyncStreamConsumerService {
    /// List consumers attached to `stream_id`.
    pub fn list(&self, stream_id: &str, options: ListStreamConsumersOptions) -> (r: GraphQLRequest)
        ensures
            request_is(
                r,
                LIST_QUERY@,
                Some(field("streamId"@, Expected::Text(stream_id@)) + options.members()),
                "streamConsumers"@,
            ),
    {
        StreamConsumerService.list(stream_id, options)
    }

    /// Get a consumer by ID.
    pub fn get(&self, id: &str) -> (r: GraphQLRequest)
        ensures
            request_is(r, GET_QUERY@, Some(field("id"@, Expected::Text(id@))), "streamConsumer"@),
    {
        StreamConsumerService.get(id)
    }

    /// Create a new consumer.
    pub fn create(&self, stream_id: &str, name: &str) -> (r: GraphQLRequest)
        ensures
            request_is(
                r,
                CREATE_QUERY@,
                Some(
                    field("input"@, Expected::Obj(field("streamId"@, Expected::Text(stream_id@)) + field("name"@, Expected::Text(name@)))),
                ),
                "createStreamConsumer"@,
            ),
    {
        StreamConsumerService.create(stream_id, name)
    }

    /// Delete a consumer.
    pub fn delete(&self, id: &str) -> (r: GraphQLRequest)
        ensures
            request_is(
                r,
                DELETE_QUERY@,
                Some(field("id"@, Expected::Text(id@))),
                "deleteStreamConsumer"@,
            ),
    {
        StreamConsumerService.delete(id)
    }

    /// Advance the consumer's cursor to `sequence`.
    pub fn advance_cursor(&self, id: &str, sequence: i64) -> (r: GraphQLRequest)
        ensures
            request_is(
                r,
                ADVANCE_CURSOR_QUERY@,
                Some(
                    field("id"@, Expected::Text(id@))
                        + field("sequence"@, Expected::Int(sequence as int)),
                ),
                "advanceConsumerCursor"@,
            ),
    {
        StreamConsumerService.advance_cursor(id, sequence)
    }
}

/// What [`StreamConsumerService::list`] sends: each argument, and each field of an
/// options or input argument, under its own camelCase name, holding that
/// value; an absent optional one is left out.
pub proof fn lemma_list_sends_arguments(
    stream_id: &str,
    options: ListStreamConsumersOptions,
    r: GraphQLRequest,
)
    requires
        request_is(
            r,
            LIST_QUERY@,
            Some(field("streamId"@, Expected::Text(stream_id@)) + options.members()),
            "streamConsumers"@,
        ),
    ensures
        text_of(variable(r, "streamId"@)) == Some(stream_id@),
        sent_text(variable(r, "search"@), options.search),
        sent_int(variable(r, "limit"@), options.limit),
        sent_int(variable(r, "offset"@), options.offset),
        sent_text(variable(r, "after"@), options.after),
        sent_int(variable(r, "first"@), options.first),
{
    broadcast use group_lookup;

    reveal_strlit("after");
    assert("after"@.len() == 5);
    reveal_strlit("first");
    assert("first"@.len() == 5);
    reveal_strlit("limit");
    assert("limit"@.len() == 5);
    reveal_strlit("offset");
    assert("offset"@.len() == 6);
    reveal_strlit("search");
    assert("search"@.len() == 6);
    reveal_strlit("streamId");
    assert("streamId"@.len() == 8);
    assert("after"@[0] == 'a');
    assert("first"@[0] == 'f');
    assert("limit"@[0] == 'l');
    assert("offset"@[0] == 'o');
    assert("search"@[0] == 's');
    let fields = field("streamId"@, Expected::Text(stream_id@)) + options.members();
    lemma_variable_described(r, LIST_QUERY@, fields, "streamConsumers"@, "streamId"@);
    lemma_variable_described(r, LIST_QUERY@, fields, "streamConsumers"@, "search"@);
    lemma_variable_described(r, LIST_QUERY@, fields, "streamConsumers"@, "limit"@);
    lemma_variable_described(r, LIST_QUERY@, fields, "streamConsumers"@, "offset"@);
    lemma_variable_described(r, LIST_QUERY@, fields, "streamConsumers"@, "after"@);
    lemma_variable_described(r, LIST_QUERY@, fields, "streamConsumers"@, "first"@);
}

/// What [`StreamConsumerService::get`] sends: each argument, and each field of an
/// options or input argument, under its own camelCase name, holding that
/// value; an absent optional one is left out.
pub proof fn lemma_get_sends_arguments(id: &str, r: GraphQLRequest)
    requires
        request_is(r, GET_QUERY@, Some(field("id"@, Expected::Text(id@))), "streamConsumer"@),
    ensures
        text_of(variable(r, "id"@)) == Some(id@),
{
    broadcast use group_lookup;

    reveal_strlit("id");
    assert("id"@.len() == 2);
    let fields = field("id"@, Expected::Text(id@));
    lemma_variable_described(r, GET_QUERY@, fields, "streamConsumer"@, "id"@);
}

/// What [`StreamConsumerService::delete`] sends: each argument, and each field of an
/// options or input argument, under its own camelCase name, holding that
/// value; an absent optional one is left out.
pub proof fn lemma_delete_sends_arguments(id: &str, r: GraphQLRequest)
    requires
        request_is(
            r,
            DELETE_QUERY@,
            Some(field("id"@, Expected::Text(id@))),
            "deleteStreamConsumer"@,
        ),
    ensures
        text_of(variable(r, "id"@)) == Some(id@),
{
    broadcast use group_lookup;

    reveal_strlit("id");
    assert("id"@.len() == 2);
    let fields = field("id"@, Expected::Text(id@));
    lemma_variable_described(r, DELETE_QUERY@, fields, "deleteStreamConsumer"@, "id"@);
}

/// What [`StreamConsumerService::advance_cursor`] sends: each argument, and each field of an
/// options or input argument, under its own camelCase name, holding that
/// value; an absent optional one is left out.
pub proof fn lemma_advance_cursor_sends_arguments(id: &str, sequence: i64, r: GraphQLRequest)
    requires
        request_is(
            r,
            ADVANCE_CURSOR_QUERY@,
            Some(
                field("id"@, Expected::Text(id@))
                    + field("sequence"@, Expected::Int(sequence as int)),
            ),
            "advanceConsumerCursor"@,
        ),
    ensures
        text_of(variable(r, "id"@)) == Some(id@),
        number_is(variable(r, "sequence"@), sequence as int),
{
    broadcast use group_lookup;

    reveal_strlit("id");
    assert("id"@.len() == 2);
    reveal_strlit("sequence");
    assert("sequence"@.len() == 8);
    let fields = field(
        "id"@,
        Expected::Text(id@)) + field("sequence"@,
        Expected::Int(sequence as int),
    );
    lemma_variable_described(r, ADVANCE_CURSOR_QUERY@, fields, "advanceConsumerCursor"@, "id"@);
    lemma_variable_described(
        r,
        ADVANCE_CURSOR_QUERY@,
        fields,
        "advanceConsumerCursor"@,
        "sequence"@,
    );
}

} // verus!
