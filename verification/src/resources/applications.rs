//! Outbound application management.

use crate::request::{
    Expected, ObjectBuilder, GraphQLRequest, request, field, opt_text, opt_int, request_is, group_lookup, lemma_variable_described, variable, text_of, sent_text, sent_int, lemma_member_described, member_of,
};
use vstd::prelude::*;

verus! {

broadcast use vstd::string::group_string_axioms;

/// Options for [`ApplicationService::list`].
#[derive(Debug, Default, Clone)]
#[non_exhaustive]
pub struct ListApplicationsOptions {
    /// Free-text search.
    pub search: Option<String>,
    /// Offset-based page size.
    pub limit: Option<i32>,
    /// Offset-based page offset.
    pub offset: Option<i32>,
    /// Cursor for cursor-based pagination.
    pub after: Option<String>,
    /// Page size for cursor-based pagination.
    pub first: Option<i32>,
}

impl ListApplicationsOptions {
    /// The members of the variables object these options are sent as:
    /// camelCase names, absent options left out.
    pub open spec fn members(self) -> Seq<(Seq<char>, Expected)> {
        opt_text("search"@, self.search)
            + opt_int("limit"@, self.limit)
            + opt_int("offset"@, self.offset)
            + opt_text("after"@, self.after)
            + opt_int("first"@, self.first)
    }
}

/// Input shape for `ApplicationService::create`.
#[derive(Debug, Default, Clone)]
#[non_exhaustive]
pub struct CreateApplicationInput {
    /// Human-readable name.
    pub name: String,
    /// Optional caller-supplied unique identifier.
    pub uid: Option<String>,
}

impl CreateApplicationInput {
    /// The members of the JSON object this input is sent as: camelCase
    /// names, optional fields left out when absent.
    pub open spec fn members(self) -> Seq<(Seq<char>, Expected)> {
        field("name"@, Expected::Text(self.name@))
            + opt_text("uid"@, self.uid)
    }

    /// The JSON object this input is sent as.
    pub fn to_object(self) -> (b: ObjectBuilder)
        ensures
            b.wf(),
            b.expected@ == self.members(),
    {
        let ghost spec = self.members();
        let mut b = ObjectBuilder::new();
        b.put_string("name", self.name);
        b.put_opt_text("uid", self.uid);
        assert(b.expected@ =~= spec);
        b
    }
}

/// Input shape for `ApplicationService::update`.
#[derive(Debug, Default, Clone)]
#[non_exhaustive]
pub struct UpdateApplicationInput {
    /// New name.
    pub name: Option<String>,
    /// New UID.
    pub uid: Option<String>,
}

impl UpdateApplicationInput {
    /// The members of the JSON object this input is sent as: camelCase
    /// names, optional fields left out when absent.
    pub open spec fn members(self) -> Seq<(Seq<char>, Expected)> {
        opt_text("name"@, self.name)
            + opt_text("uid"@, self.uid)
    }

    /// The JSON object this input is sent as.
    pub fn to_object(self) -> (b: ObjectBuilder)
        ensures
            b.wf(),
            b.expected@ == self.members(),
    {
        let ghost spec = self.members();
        let mut b = ObjectBuilder::new();
        b.put_opt_text("name", self.name);
        b.put_opt_text("uid", self.uid);
        assert(b.expected@ =~= spec);
        b
    }
}

/// The GraphQL document of `ApplicationService::list`.
pub const LIST_QUERY: &'static str = "query($search: String, $limit: Int, $offset: Int, $after: String, $first: Int) {\n                applications(search: $search, limit: $limit, offset: $offset, after: $after, first: $first) {\n                    nodes { id name uid createdAt }\n                    pageInfo { total limit offset endCursor hasNextPage }\n                }\n            }";

/// The GraphQL document of `ApplicationService::get`.
pub const GET_QUERY: &'static str = "query($id: UUID!) { application(id: $id) { id name uid createdAt } }";

/// The GraphQL document of `ApplicationService::create`.
pub const CREATE_QUERY: &'static str = "mutation($input: CreateApplicationInput!) { createApplication(input: $input) { id name uid createdAt } }";

/// The GraphQL document of `ApplicationService::update`.
pub const UPDATE_QUERY: &'static str = "mutation($id: UUID!, $input: UpdateApplicationInput!) { updateApplication(id: $id, input: $input) { id name uid createdAt } }";

/// The GraphQL document of `ApplicationService::delete`.
pub const DELETE_QUERY: &'static str = "mutation($id: UUID!) { deleteApplication(id: $id) }";

/// Service for managing [`Application`] resources.
pub struct ApplicationService;

impl ApplicationService {
    /// List applications.
    pub fn list(&self, options: ListApplicationsOptions) -> (r: GraphQLRequest)
        ensures
            request_is(r, LIST_QUERY@, Some(options.members()), "applications"@),
    {
        let ghost spec = options.members();
        let mut v = ObjectBuilder::new();
        v.put_opt_text("search", options.search);
        v.put_opt_int("limit", options.limit);
        v.put_opt_int("offset", options.offset);
        v.put_opt_text("after", options.after);
        v.put_opt_int("first", options.first);
        proof {
            assert(v.expected@ =~= spec);
        }
        request(LIST_QUERY, v, "applications")
    }

    /// Get an application by ID.
    pub fn get(&self, id: &str) -> (r: GraphQLRequest)
        ensures
            request_is(r, GET_QUERY@, Some(field("id"@, Expected::Text(id@))), "application"@),
    {
        let ghost spec = field("id"@, Expected::Text(id@));
        let mut v = ObjectBuilder::new();
        v.put_text("id", id);
        proof {
            assert(v.expected@ =~= spec);
        }
        request(GET_QUERY, v, "application")
    }

    /// Create a new application.
    pub fn create(&self, input: CreateApplicationInput) -> (r: GraphQLRequest)
        ensures
            request_is(
                r,
                CREATE_QUERY@,
                Some(field("input"@, Expected::Obj(input.members()))),
                "createApplication"@,
            ),
    {
        let ghost spec = field("input"@, Expected::Obj(input.members()));
        let mut v = ObjectBuilder::new();
        v.put_object("input", input.to_object());
        proof {
            assert(v.expected@ =~= spec);
        }
        request(CREATE_QUERY, v, "createApplication")
    }

    /// Update an application.
    pub fn update(&self, id: &str, input: UpdateApplicationInput) -> (r: GraphQLRequest)
        ensures
            request_is(
                r,
                UPDATE_QUERY@,
                Some(
                    field("id"@, Expected::Text(id@))
                        + field("input"@, Expected::Obj(input.members())),
                ),
                "updateApplication"@,
            ),
    {
        let ghost spec =
            field("id"@, Expected::Text(id@)) + field("input"@, Expected::Obj(input.members()));
        let mut v = ObjectBuilder::new();
        v.put_text("id", id);
        v.put_object("input", input.to_object());
        proof {
            assert(v.expected@ =~= spec);
        }
        request(UPDATE_QUERY, v, "updateApplication")
    }

    /// Delete an application.
    pub fn delete(&self, id: &str) -> (r: GraphQLRequest)
        ensures
            request_is(
                r,
                DELETE_QUERY@,
                Some(field("id"@, Expected::Text(id@))),
                "deleteApplication"@,
            ),
    {
        let ghost spec = field("id"@, Expected::Text(id@));
        let mut v = ObjectBuilder::new();
        v.put_text("id", id);
        proof {
            assert(v.expected@ =~= spec);
        }
        request(DELETE_QUERY, v, "deleteApplication")
    }
}

/// Async variant of the application service.
pub struct AsyncApplicationService;

impl AsyncApplicationService {
    /// List applications.
    pub fn list(&self, options: ListApplicationsOptions) -> (r: GraphQLRequest)
        ensures
            request_is(r, LIST_QUERY@, Some(options.members()), "applications"@),
    {
        ApplicationService.list(options)
    }

    /// Get an application by ID.
    pub fn get(&self, id: &str) -> (r: GraphQLRequest)
        ensures
            request_is(r, GET_QUERY@, Some(field("id"@, Expected::Text(id@))), "application"@),
    {
        ApplicationService.get(id)
    }

    /// Create a new application.
    pub fn create(&self, input: CreateApplicationInput) -> (r: GraphQLRequest)
        ensures
            request_is(
                r,
                CREATE_QUERY@,
                Some(field("input"@, Expected::Obj(input.members()))),
                "createApplication"@,
            ),
    {
        ApplicationService.create(input)
    }

    /// Update an application.
    pub fn update(&self, id: &str, input: UpdateApplicationInput) -> (r: GraphQLRequest)
        ensures
            request_is(
                r,
                UPDATE_QUERY@,
                Some(
                    field("id"@, Expected::Text(id@))
                        + field("input"@, Expected::Obj(input.members())),
                ),
                "updateApplication"@,
            ),
    {
        ApplicationService.update(id, input)
    }

    /// Delete an application.
    pub fn delete(&self, id: &str) -> (r: GraphQLRequest)
        ensures
            request_is(
                r,
                DELETE_QUERY@,
                Some(field("id"@, Expected::Text(id@))),
                "deleteApplication"@,
            ),
    {
        ApplicationService.delete(id)
    }
}

/// What [`ApplicationService::list`] sends: each argument, and each field of an
/// options or input argument, under its own camelCase name, holding that
/// value; an absent optional one is left out.
pub proof fn lemma_list_sends_arguments(options: ListApplicationsOptions, r: GraphQLRequest)
    requires
        request_is(r, LIST_QUERY@, Some(options.members()), "applications"@),
    ensures
        sent_text(variable(r, "search"@), options.search),
        sent_int(variable(r, "limit"@), options.limit),
        sent_int(variable(r, "offset"@), options.offset),
        sent_text(variable(r, "after"@), options.after),
        sent_int(variable(r, "first"@), options.first),
{
    broadcast use group_lookup;

    reveal_strlit("after");
    assert("after"@.len() == 5);
    reveal_strlit("first");
    assert("first"@.len() == 5);
    reveal_strlit("limit");
    assert("limit"@.len() == 5);
    reveal_strlit("offset");
    assert("offset"@.len() == 6);
    reveal_strlit("search");
    assert("search"@.len() == 6);
    assert("after"@[0] == 'a');
    assert("first"@[0] == 'f');
    assert("limit"@[0] == 'l');
    assert("offset"@[0] == 'o');
    assert("search"@[0] == 's');
    let fields = options.members();
    lemma_variable_described(r, LIST_QUERY@, fields, "applications"@, "search"@);
    lemma_variable_described(r, LIST_QUERY@, fields, "applications"@, "limit"@);
    lemma_variable_described(r, LIST_QUERY@, fields, "applications"@, "offset"@);
    lemma_variable_described(r, LIST_QUERY@, fields, "applications"@, "after"@);
    lemma_variable_described(r, LIST_QUERY@, fields, "applications"@, "first"@);
}

/// What [`ApplicationService::get`] sends: each argument, and each field of an
/// options or input argument, under its own camelCase name, holding that
/// value; an absent optional one is left out.
pub proof fn lemma_get_sends_arguments(id: &str, r: GraphQLRequest)
    requires
        request_is(r, GET_QUERY@, Some(field("id"@, Expected::Text(id@))), "application"@),
    ensures
        text_of(variable(r, "id"@)) == Some(id@),
{
    broadcast use group_lookup;

    reveal_strlit("id");
    assert("id"@.len() == 2);
    let fields = field("id"@, Expected::Text(id@));
    lemma_variable_described(r, GET_QUERY@, fields, "application"@, "id"@);
}

/// What [`ApplicationService::create`] sends: each argument, and each field of an
/// options or input argument, under its own camelCase name, holding that
/// value; an absent optional one is left out.
pub proof fn lemma_create_sends_arguments(input: CreateApplicationInput, r: GraphQLRequest)
    requires
        request_is(
            r,
            CREATE_QUERY@,
            Some(field("input"@, Expected::Obj(input.members()))),
            "createApplication"@,
        ),
    ensures
        text_of(member_of(variable(r, "input"@), "name"@)) == Some(input.name@),
        sent_text(member_of(variable(r, "input"@), "uid"@), input.uid),
{
    broadcast use group_lookup;

    reveal_strlit("input");
    assert("input"@.len() == 5);
    reveal_strlit("name");
    assert("name"@.len() == 4);
    reveal_strlit("uid");
    assert("uid"@.len() == 3);
    let fields = field("input"@, Expected::Obj(input.members()));
    lemma_variable_described(r, CREATE_QUERY@, fields, "createApplication"@, "input"@);
    let input_object = variable(r, "input"@).unwrap();
    assert(input_object is Object);
    lemma_member_described(input_object->Object_0@, input.members(), "name"@);
    lemma_member_described(input_object->Object_0@, input.members(), "uid"@);
}

/// What [`ApplicationService::update`] sends: each argument, and each field of an
/// options or input argument, under its own camelCase name, holding that
/// value; an absent optional one is left out.
pub proof fn lemma_update_sends_arguments(
    id: &str,
    input: UpdateApplicationInput,
    r: GraphQLRequest,
)
    requires
        request_is(
            r,
            UPDATE_QUERY@,
            Some(
                field("id"@, Expected::Text(id@)) + field("input"@, Expected::Obj(input.members())),
            ),
            "updateApplication"@,
        ),
    ensures
        text_of(variable(r, "id"@)) == Some(id@),
        sent_text(member_of(variable(r, "input"@), "name"@), input.name),
        sent_text(member_of(variable(r, "input"@), "uid"@), input.uid),
{
    broadcast use group_lookup;

    reveal_strlit("id");
    assert("id"@.len() == 2);
    reveal_strlit("input");
    assert("input"@.len() == 5);
    reveal_strlit("name");
    assert("name"@.len() == 4);
    reveal_strlit("uid");
    assert("uid"@.len() == 3);
    let fields = field(
        "id"@,
        Expected::Text(id@)) + field("input"@,
        Expected::Obj(input.members()),
    );
    lemma_variable_described(r, UPDATE_QUERY@, fields, "updateApplication"@, "id"@);
    lemma_variable_described(r, UPDATE_QUERY@, fields, "updateApplication"@, "input"@);
    let input_object = variable(r, "input"@).unwrap();
    assert(input_object is Object);
    lemma_member_described(input_object->Object_0@, input.members(), "name"@);
    lemma_member_described(input_object->Object_0@, input.members(), "uid"@);
}

/// What [`ApplicationService::delete`] sends: each argument, and each field of an
/// options or input argument, under its own camelCase name, holding that
/// value; an absent optional one is left out.
pub proof fn lemma_delete_sends_arguments(id: &str, r: GraphQLRequest)
    requires
        request_is(r, DELETE_QUERY@, Some(field("id"@, Expected::Text(id@))), "deleteApplication"@),
    ensures
        text_of(variable(r, "id"@)) == Some(id@),
{
    broadcast use group_lookup;

    reveal_strlit("id");
    assert("id"@.len() == 2);
    let fields = field("id"@, Expected::Text(id@));
    lemma_variable_described(r, DELETE_QUERY@, fields, "deleteApplication"@, "id"@);
}

} // verus!
