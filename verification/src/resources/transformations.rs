//! Transformations resource.

use crate::json::Json;
use crate::request::{
    Expected, ObjectBuilder, GraphQLRequest, request, field, opt_text, opt_int, opt_flag, opt_members, request_is, group_lookup, lemma_variable_described, variable, text_of, sent_text, sent_int, sent_flag, lemma_member_described, member_of, number_is,
};
use vstd::prelude::*;

verus! {

broadcast use vstd::string::group_string_axioms;

/// Options for [`TransformationService::list`].
#[derive(Debug, Default, Clone)]
#[non_exhaustive]
pub struct ListTransformationsOptions {
    /// Filter by enabled state.
    pub enabled: Option<bool>,
    /// Free-text search.
    pub search: Option<String>,
    /// Cursor for cursor-based pagination.
    pub after: Option<String>,
    /// Page size for cursor-based pagination.
    pub first: Option<i32>,
}

impl ListTransformationsOptions {
    /// The members of the variables object these options are sent as:
    /// camelCase names, absent options left out.
    pub open spec fn members(self) -> Seq<(Seq<char>, Expected)> {
        opt_flag("enabled"@, self.enabled)
            + opt_text("search"@, self.search)
            + opt_text("after"@, self.after)
            + opt_int("first"@, self.first)
    }
}

/// Input shape for `TransformationService::create`.
#[derive(Debug, Default, Clone)]
#[non_exhaustive]
pub struct CreateTransformationInput {
    /// Human-readable name.
    pub name: String,
    /// Free-form description.
    pub description: String,
    /// Script source.
    pub code: String,
    /// Whether failures fall through.
    pub fail_open: bool,
    /// Execution timeout in milliseconds.
    pub timeout_ms: i32,
}

impl CreateTransformationInput {
    /// The members of the JSON object this input is sent as: camelCase
    /// names, optional fields left out when absent.
    pub open spec fn members(self) -> Seq<(Seq<char>, Expected)> {
        field("name"@, Expected::Text(self.name@))
            + field("description"@, Expected::Text(self.description@))
            + field("code"@, Expected::Text(self.code@))
            + field("failOpen"@, Expected::Flag(self.fail_open))
            + field("timeoutMs"@, Expected::Int(self.timeout_ms as int))
    }

    /// The JSON object this input is sent as.
    pub fn to_object(self) -> (b: ObjectBuilder)
        ensures
            b.wf(),
            b.expected@ == self.members(),
    {
        let ghost spec = self.members();
        let mut b = ObjectBuilder::new();
        b.put_string("name", self.name);
        b.put_string("description", self.description);
        b.put_string("code", self.code);
        b.put_flag("failOpen", self.fail_open);
        b.put_int("timeoutMs", self.timeout_ms as i64);
        assert(b.expected@ =~= spec);
        b
    }
}

/// Input shape for `TransformationService::update`.
#[derive(Debug, Default, Clone)]
#[non_exhaustive]
pub struct UpdateTransformationInput {
    /// New name.
    pub name: Option<String>,
    /// New description.
    pub description: Option<String>,
    /// New code.
    pub code: Option<String>,
    /// New enabled state.
    pub enabled: Option<bool>,
    /// New fail-open toggle.
    pub fail_open: Option<bool>,
    /// New timeout.
    pub timeout_ms: Option<i32>,
}

impl UpdateTransformationInput {
    /// The members of the JSON object this input is sent as: camelCase
    /// names, optional fields left out when absent.
    pub open spec fn members(self) -> Seq<(Seq<char>, Expected)> {
        opt_text("name"@, self.name)
            + opt_text("description"@, self.description)
            + opt_text("code"@, self.code)
            + opt_flag("enabled"@, self.enabled)
            + opt_flag("failOpen"@, self.fail_open)
            + opt_int("timeoutMs"@, self.timeout_ms)
    }

    /// The JSON object this input is sent as.
    pub fn to_object(self) -> (b: ObjectBuilder)
        ensures
            b.wf(),
            b.expected@ == self.members(),
    {
        let ghost spec = self.members();
        let mut b = ObjectBuilder::new();
        b.put_opt_text("name", self.name);
        b.put_opt_text("description", self.description);
        b.put_opt_text("code", self.code);
        b.put_opt_flag("enabled", self.enabled);
        b.put_opt_flag("failOpen", self.fail_open);
        b.put_opt_int("timeoutMs", self.timeout_ms);
        assert(b.expected@ =~= spec);
        b
    }
}

/// Input shape for `TransformationService::test`.
#[derive(Debug, Default, Clone)]
#[non_exhaustive]
pub struct TestTransformationInput {
    /// Script source.
    pub code: String,
    /// Sample payload.
    pub payload: Json,
    /// Optional event type.
    pub event_type: Option<String>,
    /// Optional headers.
    pub headers: Option<Vec<(String, Json)>>,
}

impl TestTransformationInput {
    /// The members of the JSON object this input is sent as: camelCase
    /// names, optional fields left out when absent.
    pub open spec fn members(self) -> Seq<(Seq<char>, Expected)> {
        field("code"@, Expected::Text(self.code@))
            + field("payload"@, Expected::Doc(self.payload))
            + opt_text("eventType"@, self.event_type)
            + opt_members("headers"@, self.headers)
    }

    /// The JSON object this input is sent as.
    pub fn to_object(self) -> (b: ObjectBuilder)
        ensures
            b.wf(),
            b.expected@ == self.members(),
    {
        let ghost spec = self.members();
        let mut b = ObjectBuilder::new();
        b.put_string("code", self.code);
        b.put_doc("payload", self.payload);
        b.put_opt_text("eventType", self.event_type);
        b.put_opt_members("headers", self.headers);
        assert(b.expected@ =~= spec);
        b
    }
}

/// The GraphQL document of `TransformationService::list`.
pub const LIST_QUERY: &'static str = "query($enabled: Boolean, $search: String, $after: String, $first: Int) {\n                transformations(enabled: $enabled, search: $search, after: $after, first: $first) {\n                    nodes { id name description code enabled failOpen timeoutMs createdAt updatedAt }\n                    pageInfo { total limit offset endCursor hasNextPage }\n                }\n            }";

/// The GraphQL document of `TransformationService::get`.
pub const GET_QUERY: &'static str = "query($id: UUID!) { transformation(id: $id) { id name description code enabled failOpen timeoutMs createdAt updatedAt } }";

/// The GraphQL document of `TransformationService::create`.
pub const CREATE_QUERY: &'static str = "mutation($input: CreateTransformationInput!) { createTransformation(input: $input) { id name description code enabled failOpen timeoutMs createdAt updatedAt } }";

/// The GraphQL document of `TransformationService::update`.
pub const UPDATE_QUERY: &'static str = "mutation($id: UUID!, $input: UpdateTransformationInput!) { updateTransformation(id: $id, input: $input) { id name description code enabled failOpen timeoutMs createdAt updatedAt } }";

/// The GraphQL document of `TransformationService::delete`.
pub const DELETE_QUERY: &'static str = "mutation($id: UUID!) { deleteTransformation(id: $id) }";

/// The GraphQL document of `TransformationService::test`.
pub const TEST_QUERY: &'static str = "mutation($input: TestTransformationInput!) { testTransformation(input: $input) { success output error durationMs } }";

/// Service for managing [`Transformation`] resources.
pub struct TransformationService;

impl TransformationService {
    /// List transformations.
    pub fn list(&self, options: ListTransformationsOptions) -> (r: GraphQLRequest)
        ensures
            request_is(r, LIST_QUERY@, Some(options.members()), "transformations"@),
    {
        let ghost spec = options.members();
        let mut v = ObjectBuilder::new();
        v.put_opt_flag("enabled", options.enabled);
        v.put_opt_text("search", options.search);
        v.put_opt_text("after", options.after);
        v.put_opt_int("first", options.first);
        proof {
            assert(v.expected@ =~= spec);
        }
        request(LIST_QUERY, v, "transformations")
    }

    /// Get a transformation by ID.
    pub fn get(&self, id: &str) -> (r: GraphQLRequest)
        ensures
            request_is(r, GET_QUERY@, Some(field("id"@, Expected::Text(id@))), "transformation"@),
    {
        let ghost spec = field("id"@, Expected::Text(id@));
        let mut v = ObjectBuilder::new();
        v.put_text("id", id);
        proof {
            assert(v.expected@ =~= spec);
        }
        request(GET_QUERY, v, "transformation")
    }

    /// Create a new transformation.
    pub fn create(&self, input: CreateTransformationInput) -> (r: GraphQLRequest)
        ensures
            request_is(
                r,
                CREATE_QUERY@,
                Some(field("input"@, Expected::Obj(input.members()))),
                "createTransformation"@,
            ),
    {
        let ghost spec = field("input"@, Expected::Obj(input.members()));
        let mut v = ObjectBuilder::new();
        v.put_object("input", input.to_object());
        proof {
            assert(v.expected@ =~= spec);
        }
        request(CREATE_QUERY, v, "createTransformation")
    }

    /// Update an existing transformation.
    pub fn update(&self, id: &str, input: UpdateTransformationInput) -> (r: GraphQLRequest)
        ensures
            request_is(
                r,
                UPDATE_QUERY@,
                Some(
                    field("id"@, Expected::Text(id@))
                        + field("input"@, Expected::Obj(input.members())),
                ),
                "updateTransformation"@,
            ),
    {
        let ghost spec =
            field("id"@, Expected::Text(id@)) + field("input"@, Expected::Obj(input.members()));
        let mut v = ObjectBuilder::new();
        v.put_text("id", id);
        v.put_object("input", input.to_object());
        proof {
            assert(v.expected@ =~= spec);
        }
        request(UPDATE_QUERY, v, "updateTransformation")
    }

    /// Delete a transformation.
    pub fn delete(&self, id: &str) -> (r: GraphQLRequest)
        ensures
            request_is(
                r,
                DELETE_QUERY@,
                Some(field("id"@, Expected::Text(id@))),
                "deleteTransformation"@,
            ),
    {
        let ghost spec = field("id"@, Expected::Text(id@));
        let mut v = ObjectBuilder::new();
        v.put_text("id", id);
        proof {
            assert(v.expected@ =~= spec);
        }
        request(DELETE_QUERY, v, "deleteTransformation")
    }

    /// Run a transformation against a sample payload without persisting it.
    pub fn test(&self, input: TestTransformationInput) -> (r: GraphQLRequest)
        ensures
            request_is(
                r,
                TEST_QUERY@,
                Some(field("input"@, Expected::Obj(input.members()))),
                "testTransformation"@,
            ),
    {
        let ghost spec = field("input"@, Expected::Obj(input.members()));
        let mut v = ObjectBuilder::new();
        v.put_object("input", input.to_object());
        proof {
            assert(v.expected@ =~= spec);
        }
        request(TEST_QUERY, v, "testTransformation")
    }
}

/// Async variant of the transformation service.
pub struct AsyncTransformationService;

impl AsyncTransformationService {
    /// List transformations.
    pub fn list(&self, options: ListTransformationsOptions) -> (r: GraphQLRequest)
        ensures
            request_is(r, LIST_QUERY@, Some(options.members()), "transformations"@),
    {
        TransformationService.list(options)
    }

    /// Get a transformation by ID.
    pub fn get(&self, id: &str) -> (r: GraphQLRequest)
        ensures
            request_is(r, GET_QUERY@, Some(field("id"@, Expected::Text(id@))), "transformation"@),
    {
        TransformationService.get(id)
    }

    /// Create a new transformation.
    pub fn create(&self, input: CreateTransformationInput) -> (r: GraphQLRequest)
        ensures
            request_is(
                r,
                CREATE_QUERY@,
                Some(field("input"@, Expected::Obj(input.members()))),
                "createTransformation"@,
            ),
    {
        TransformationService.create(input)
    }

    /// Update an existing transformation.
    pub fn update(&self, id: &str, input: UpdateTransformationInput) -> (r: GraphQLRequest)
        ensures
            request_is(
                r,
                UPDATE_QUERY@,
                Some(
                    field("id"@, Expected::Text(id@))
                        + field("input"@, Expected::Obj(input.members())),
                ),
                "updateTransformation"@,
            ),
    {
        TransformationService.update(id, input)
    }

    /// Delete a transformation.
    pub fn delete(&self, id: &str) -> (r: GraphQLRequest)
        ensures
            request_is(
                r,
                DELETE_QUERY@,
                Some(field("id"@, Expected::Text(id@))),
                "deleteTransformation"@,
            ),
    {
        TransformationService.delete(id)
    }

    /// Run a transformation against a sample payload without persisting it.
    pub fn test(&self, input: TestTransformationInput) -> (r: GraphQLRequest)
        ensures
            request_is(
                r,
                TEST_QUERY@,
                Some(field("input"@, Expected::Obj(input.members()))),
                "testTransformation"@,
            ),
    {
        TransformationService.test(input)
    }
}

/// What [`TransformationService::list`] sends: each argument, and each field of an
/// options or input argument, under its own camelCase name, holding that
/// value; an absent optional one is left out.
pub proof fn lemma_list_sends_arguments(options: ListTransformationsOptions, r: GraphQLRequest)
    requires
        request_is(r, LIST_QUERY@, Some(options.members()), "transformations"@),
    ensures
        sent_flag(variable(r, "enabled"@), options.enabled),
        sent_text(variable(r, "search"@), options.search),
        sent_text(variable(r, "after"@), options.after),
        sent_int(variable(r, "first"@), options.first),
{
    broadcast use group_lookup;

    reveal_strlit("after");
    assert("after"@.len() == 5);
    reveal_strlit("enabled");
    assert("enabled"@.len() == 7);
    reveal_strlit("first");
    assert("first"@.len() == 5);
    reveal_strlit("search");
    assert("search"@.len() == 6);
    assert("after"@[0] == 'a');
    assert("first"@[0] == 'f');
    let fields = options.members();
    lemma_variable_described(r, LIST_QUERY@, fields, "transformations"@, "enabled"@);
    lemma_variable_described(r, LIST_QUERY@, fields, "transformations"@, "search"@);
    lemma_variable_described(r, LIST_QUERY@, fields, "transformations"@, "after"@);
    lemma_variable_described(r, LIST_QUERY@, fields, "transformations"@, "first"@);
}

/// What [`TransformationService::get`] sends: each argument, and each field of an
/// options or input argument, under its own camelCase name, holding that
/// value; an absent optional one is left out.
pub proof fn lemma_get_sends_arguments(id: &str, r: GraphQLRequest)
    requires
        request_is(r, GET_QUERY@, Some(field("id"@, Expected::Text(id@))), "transformation"@),
    ensures
        text_of(variable(r, "id"@)) == Some(id@),
{
    broadcast use group_lookup;

    reveal_strlit("id");
    assert("id"@.len() == 2);
    let fields = field("id"@, Expected::Text(id@));
    lemma_variable_described(r, GET_QUERY@, fields, "transformation"@, "id"@);
}

/// What [`TransformationService::create`] sends: each argument, and each field of an
/// options or input argument, under its own camelCase name, holding that
/// value; an absent optional one is left out.
pub proof fn lemma_create_sends_arguments(input: CreateTransformationInput, r: GraphQLRequest)
    requires
        request_is(
            r,
            CREATE_QUERY@,
            Some(field("input"@, Expected::Obj(input.members()))),
            "createTransformation"@,
        ),
    ensures
        text_of(member_of(variable(r, "input"@), "name"@)) == Some(input.name@),
        text_of(member_of(variable(r, "input"@), "description"@)) == Some(input.description@),
        text_of(member_of(variable(r, "input"@), "code"@)) == Some(input.code@),
        member_of(variable(r, "input"@), "failOpen"@) == Some(Json::Bool(input.fail_open)),
        number_is(member_of(variable(r, "input"@), "timeoutMs"@), input.timeout_ms as int),
{
    broadcast use group_lookup;

    reveal_strlit("code");
    assert("code"@.len() == 4);
    reveal_strlit("description");
    assert("description"@.len() == 11);
    reveal_strlit("failOpen");
    assert("failOpen"@.len() == 8);
    reveal_strlit("input");
    assert("input"@.len() == 5);
    reveal_strlit("name");
    assert("name"@.len() == 4);
    reveal_strlit("timeoutMs");
    assert("timeoutMs"@.len() == 9);
    assert("code"@[0] == 'c');
    assert("name"@[0] == 'n');
    let fields = field("input"@, Expected::Obj(input.members()));
    lemma_variable_described(r, CREATE_QUERY@, fields, "createTransformation"@, "input"@);
    let input_object = variable(r, "input"@).unwrap();
    assert(input_object is Object);
    lemma_member_described(input_object->Object_0@, input.members(), "name"@);
    lemma_member_described(input_object->Object_0@, input.members(), "description"@);
    lemma_member_described(input_object->Object_0@, input.members(), "code"@);
    lemma_member_described(input_object->Object_0@, input.members(), "failOpen"@);
    lemma_member_described(input_object->Object_0@, input.members(), "timeoutMs"@);
}

/// What [`TransformationService::update`] sends: each argument, and each field of an
/// options or input argument, under its own camelCase name, holding that
/// value; an absent optional one is left out.
pub proof fn lemma_update_sends_arguments(
    id: &str,
    input: UpdateTransformationInput,
    r: GraphQLRequest,
)
    requires
        request_is(
            r,
            UPDATE_QUERY@,
            Some(
                field("id"@, Expected::Text(id@)) + field("input"@, Expected::Obj(input.members())),
            ),
            "updateTransformation"@,
        ),
    ensures
        text_of(variable(r, "id"@)) == Some(id@),
        sent_text(member_of(variable(r, "input"@), "name"@), input.name),
        sent_text(member_of(variable(r, "input"@), "description"@), input.description),
        sent_text(member_of(variable(r, "input"@), "code"@), input.code),
        sent_flag(member_of(variable(r, "input"@), "enabled"@), input.enabled),
        sent_flag(member_of(variable(r, "input"@), "failOpen"@), input.fail_open),
        sent_int(member_of(variable(r, "input"@), "timeoutMs"@), input.timeout_ms),
{
    broadcast use group_lookup;

    reveal_strlit("code");
    assert("code"@.len() == 4);
    reveal_strlit("description");
    assert("description"@.len() == 11);
    reveal_strlit("enabled");
    assert("enabled"@.len() == 7);
    reveal_strlit("failOpen");
    assert("failOpen"@.len() == 8);
    reveal_strlit("id");
    assert("id"@.len() == 2);
    reveal_strlit("input");
    assert("input"@.len() == 5);
    reveal_strlit("name");
    assert("name"@.len() == 4);
    reveal_strlit("timeoutMs");
    assert("timeoutMs"@.len() == 9);
    assert("code"@[0] == 'c');
    assert("name"@[0] == 'n');
    let fields = field(
        "id"@,
        Expected::Text(id@)) + field("input"@,
        Expected::Obj(input.members()),
    );
    lemma_variable_described(r, UPDATE_QUERY@, fields, "updateTransformation"@, "id"@);
    lemma_variable_described(r, UPDATE_QUERY@, fields, "updateTransformation"@, "input"@);
    let input_object = variable(r, "input"@).unwrap();
    assert(input_object is Object);
    lemma_member_described(input_object->Object_0@, input.members(), "name"@);
    lemma_member_described(input_object->Object_0@, input.members(), "description"@);
    lemma_member_described(input_object->Object_0@, input.members(), "code"@);
    lemma_member_described(input_object->Object_0@, input.members(), "enabled"@);
    lemma_member_described(input_object->Object_0@, input.members(), "failOpen"@);
    lemma_member_described(input_object->Object_0@, input.members(), "timeoutMs"@);
}

/// What [`TransformationService::delete`] sends: each argument, and each field of an
/// options or input argument, under its own camelCase name, holding that
/// value; an absent optional one is left out.
pub proof fn lemma_delete_sends_arguments(id: &str, r: GraphQLRequest)
    requires
        request_is(
            r,
            DELETE_QUERY@,
            Some(field("id"@, Expected::Text(id@))),
            "deleteTransformation"@,
        ),
    ensures
        text_of(variable(r, "id"@)) == Some(id@),
{
    broadcast use group_lookup;

    reveal_strlit("id");
    assert("id"@.len() == 2);
    let fields = field("id"@, Expected::Text(id@));
    lemma_variable_described(r, DELETE_QUERY@, fields, "deleteTransformation"@, "id"@);
}

/// What [`TransformationService::test`] sends: each argument, and each field of an
/// options or input argument, under its own camelCase name, holding that
/// value; an absent optional one is left out.
pub proof fn lemma_test_sends_arguments(input: TestTransformationInput, r: GraphQLRequest)
    requires
        request_is(
            r,
            TEST_QUERY@,
            Some(field("input"@, Expected::Obj(input.members()))),
            "testTransformation"@,
        ),
    ensures
        text_of(member_of(variable(r, "input"@), "code"@)) == Some(input.code@),
        sent_text(member_of(variable(r, "input"@), "eventType"@), input.event_type),
{
    broadcast use group_lookup;

    reveal_strlit("code");
    assert("code"@.len() == 4);
    reveal_strlit("eventType");
    assert("eventType"@.len() == 9);
    reveal_strlit("headers");
    assert("headers"@.len() == 7);
    reveal_strlit("input");
    assert("input"@.len() == 5);
    reveal_strlit("payload");
    assert("payload"@.len() == 7);
    assert("headers"@[0] == 'h');
    assert("payload"@[0] == 'p');
    let fields = field("input"@, Expected::Obj(input.members()));
    lemma_variable_described(r, TEST_QUERY@, fields, "testTransformation"@, "input"@);
    let input_object = variable(r, "input"@).unwrap();
    assert(input_object is Object);
    lemma_member_described(input_object->Object_0@, input.members(), "code"@);
    lemma_member_described(input_object->Object_0@, input.members(), "eventType"@);
}

} // verus!
