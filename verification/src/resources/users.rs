//! User management.

use crate::request::{
    Expected, ObjectBuilder, GraphQLRequest, request, request_without_variables, field, opt_text, opt_int, request_is, group_lookup, lemma_variable_described, variable, text_of, sent_text, sent_int, lemma_member_described, member_of,
};
use vstd::prelude::*;

verus! {

broadcast use vstd::string::group_string_axioms;

/// Options for [`UserService::list`].
#[derive(Debug, Default, Clone)]
#[non_exhaustive]
pub struct ListUsersOptions {
    /// Filter by organization.
    pub organization_id: Option<String>,
    /// Free-text search.
    pub search: Option<String>,
    /// Offset-based page size.
    pub limit: Option<i32>,
    /// Offset-based page offset.
    pub offset: Option<i32>,
}

impl ListUsersOptions {
    /// The members of the variables object these options are sent as:
    /// camelCase names, absent options left out.
    pub open spec fn members(self) -> Seq<(Seq<char>, Expected)> {
        opt_text("organizationId"@, self.organization_id)
            + opt_text("search"@, self.search)
            + opt_int("limit"@, self.limit)
            + opt_int("offset"@, self.offset)
    }
}

/// Input shape for `UserService::invite`.
#[derive(Debug, Default, Clone)]
#[non_exhaustive]
pub struct InviteUserInput {
    /// Recipient email.
    pub email: String,
    /// Optional display name.
    pub name: Option<String>,
    /// Optional role.
    pub role: Option<String>,
}

impl InviteUserInput {
    /// The members of the JSON object this input is sent as: camelCase
    /// names, optional fields left out when absent.
    pub open spec fn members(self) -> Seq<(Seq<char>, Expected)> {
        field("email"@, Expected::Text(self.email@))
            + opt_text("name"@, self.name)
            + opt_text("role"@, self.role)
    }

    /// The JSON object this input is sent as.
    pub fn to_object(self) -> (b: ObjectBuilder)
        ensures
            b.wf(),
            b.expected@ == self.members(),
    {
        let ghost spec = self.members();
        let mut b = ObjectBuilder::new();
        b.put_string("email", self.email);
        b.put_opt_text("name", self.name);
        b.put_opt_text("role", self.role);
        assert(b.expected@ =~= spec);
        b
    }
}

/// The GraphQL document of `UserService::list`.
pub const LIST_QUERY: &'static str = "query($organizationId: UUID, $search: String, $limit: Int, $offset: Int) {\n                users(organizationId: $organizationId, search: $search, limit: $limit, offset: $offset) {\n                    nodes { id organizationId email name role lastLoginAt createdAt updatedAt }\n                    pageInfo { total limit offset endCursor hasNextPage }\n                }\n            }";

/// The GraphQL document of `UserService::me`.
pub const ME_QUERY: &'static str = "query { me { id organizationId email name role lastLoginAt createdAt updatedAt } }";

/// The GraphQL document of `UserService::invite`.
pub const INVITE_QUERY: &'static str = "mutation($organizationId: UUID!, $input: InviteUserInput!) { inviteUser(organizationId: $organizationId, input: $input) { id organizationId email name role lastLoginAt createdAt updatedAt } }";

/// The GraphQL document of `UserService::remove`.
pub const REMOVE_QUERY: &'static str = "mutation($id: UUID!) { removeUser(id: $id) }";

/// The GraphQL document of `UserService::update_role`.
pub const UPDATE_ROLE_QUERY: &'static str = "mutation($id: UUID!, $input: UpdateUserRoleInput!) { updateUserRole(id: $id, input: $input) { id organizationId email name role lastLoginAt createdAt updatedAt } }";

/// Service for managing [`User`] resources.
pub struct UserService;

impl UserService {
    /// List users.
    pub fn list(&self, options: ListUsersOptions) -> (r: GraphQLRequest)
        ensures
            request_is(r, LIST_QUERY@, Some(options.members()), "users"@),
    {
        let ghost spec = options.members();
        let mut v = ObjectBuilder::new();
        v.put_opt_text("organizationId", options.organization_id);
        v.put_opt_text("search", options.search);
        v.put_opt_int("limit", options.limit);
        v.put_opt_int("offset", options.offset);
        proof {
            assert(v.expected@ =~= spec);
        }
        request(LIST_QUERY, v, "users")
    }

    /// Return the currently-authenticated user.
    pub fn me(&self) -> (r: GraphQLRequest)
        ensures
            request_is(r, ME_QUERY@, None, "me"@),
    {
        request_without_variables(ME_QUERY, "me")
    }

    /// Invite a user to an organization.
    pub fn invite(&self, organization_id: &str, input: InviteUserInput) -> (r: GraphQLRequest)
        ensures
            request_is(
                r,
                INVITE_QUERY@,
                Some(
                    field("organizationId"@, Expected::Text(organization_id@))
                        + field("input"@, Expected::Obj(input.members())),
                ),
                "inviteUser"@,
            ),
    {
        let ghost spec =
            field("organizationId"@, Expected::Text(organization_id@))
                + field("input"@, Expected::Obj(input.members()));
        let mut v = ObjectBuilder::new();
        v.put_text("organizationId", organization_id);
        v.put_object("input", input.to_object());
        proof {
            assert(v.expected@ =~= spec);
        }
        request(INVITE_QUERY, v, "inviteUser")
    }

    /// Remove a user.
    pub fn remove(&self, id: &str) -> (r: GraphQLRequest)
        ensures
            request_is(r, REMOVE_QUERY@, Some(field("id"@, Expected::Text(id@))), "removeUser"@),
    {
        let ghost spec = field("id"@, Expected::Text(id@));
        let mut v = ObjectBuilder::new();
        v.put_text("id", id);
        proof {
            assert(v.expected@ =~= spec);
        }
        request(REMOVE_QUERY, v, "removeUser")
    }

    /// Update a user's role.
    pub fn update_role(&self, id: &str, role: &str) -> (r: GraphQLRequest)
        ensures
            request_is(
                r,
                UPDATE_ROLE_QUERY@,
                Some(
                    field("id"@, Expected::Text(id@))
                        + field("input"@, Expected::Obj(field("role"@, Expected::Text(role@)))),
                ),
                "updateUserRole"@,
            ),
    {
        let ghost input_spec = field("role"@, Expected::Text(role@));
        let ghost spec =
            field("id"@, Expected::Text(id@))
                + field("input"@, Expected::Obj(field("role"@, Expected::Text(role@))));
        let mut input = ObjectBuilder::new();
        input.put_text("role", role);
        let mut v = ObjectBuilder::new();
        v.put_text("id", id);
        proof {
            assert(input.expected@ =~= input_spec);
        }
        v.put_object("input", input);
        proof {
            assert(v.expected@ =~= spec);
        }
        request(UPDATE_ROLE_QUERY, v, "updateUserRole")
    }
}

/// Async variant of the user service.
pub struct AsyncUserService;

impl AsyncUserService {
    /// List users.
    pub fn list(&self, options: ListUsersOptions) -> (r: GraphQLRequest)
        ensures
            request_is(r, LIST_QUERY@, Some(options.members()), "users"@),
    {
        UserService.list(options)
    }

    /// Return the currently-authenticated user.
    pub fn me(&self) -> (r: GraphQLRequest)
        ensures
            request_is(r, ME_QUERY@, None, "me"@),
    {
        UserService.me()
    }

    /// Invite a user to an organization.
    pub fn invite(&self, organization_id: &str, input: InviteUserInput) -> (r: GraphQLRequest)
        ensures
            request_is(
                r,
                INVITE_QUERY@,
                Some(
                    field("organizationId"@, Expected::Text(organization_id@))
                        + field("input"@, Expected::Obj(input.members())),
                ),
                "inviteUser"@,
            ),
    {
        UserService.invite(organization_id, input)
    }

    /// Remove a user.
    pub fn remove(&self, id: &str) -> (r: GraphQLRequest)
        ensures
            request_is(r, REMOVE_QUERY@, Some(field("id"@, Expected::Text(id@))), "removeUser"@),
    {
        UserService.remove(id)
    }

    /// Update a user's role.
    pub fn update_role(&self, id: &str, role: &str) -> (r: GraphQLRequest)
        ensures
            request_is(
                r,
                UPDATE_ROLE_QUERY@,
                Some(
                    field("id"@, Expected::Text(id@))
                        + field("input"@, Expected::Obj(field("role"@, Expected::Text(role@)))),
                ),
                "updateUserRole"@,
            ),
    {
        UserService.update_role(id, role)
    }
}

/// What [`UserService::list`] sends: each argument, and each field of an
/// options or input argument, under its own camelCase name, holding that
/// value; an absent optional one is left out.
pub proof fn lemma_list_sends_arguments(options: ListUsersOptions, r: GraphQLRequest)
    requires
        request_is(r, LIST_QUERY@, Some(options.members()), "users"@),
    ensures
        sent_text(variable(r, "organizationId"@), options.organization_id),
        sent_text(variable(r, "search"@), options.search),
        sent_int(variable(r, "limit"@), options.limit),
        sent_int(variable(r, "offset"@), options.offset),
{
    broadcast use group_lookup;

    reveal_strlit("limit");
    assert("limit"@.len() == 5);
    reveal_strlit("offset");
    assert("offset"@.len() == 6);
    reveal_strlit("organizationId");
    assert("organizationId"@.len() == 14);
    reveal_strlit("search");
    assert("search"@.len() == 6);
    assert("offset"@[0] == 'o');
    assert("search"@[0] == 's');
    let fields = options.members();
    lemma_variable_described(r, LIST_QUERY@, fields, "users"@, "organizationId"@);
    lemma_variable_described(r, LIST_QUERY@, fields, "users"@, "search"@);
    lemma_variable_described(r, LIST_QUERY@, fields, "users"@, "limit"@);
    lemma_variable_described(r, LIST_QUERY@, fields, "users"@, "offset"@);
}

/// What [`UserService::invite`] sends: each argument, and each field of an
/// options or input argument, under its own camelCase name, holding that
/// value; an absent optional one is left out.
pub proof fn lemma_invite_sends_arguments(
    organization_id: &str,
    input: InviteUserInput,
    r: GraphQLRequest,
)
    requires
        request_is(
            r,
            INVITE_QUERY@,
            Some(
                field("organizationId"@, Expected::Text(organization_id@))
                    + field("input"@, Expected::Obj(input.members())),
            ),
            "inviteUser"@,
        ),
    ensures
        text_of(variable(r, "organizationId"@)) == Some(organization_id@),
        text_of(member_of(variable(r, "input"@), "email"@)) == Some(input.email@),
        sent_text(member_of(variable(r, "input"@), "name"@), input.name),
        sent_text(member_of(variable(r, "input"@), "role"@), input.role),
{
    broadcast use group_lookup;

    reveal_strlit("email");
    assert("email"@.len() == 5);
    reveal_strlit("input");
    assert("input"@.len() == 5);
    reveal_strlit("name");
    assert("name"@.len() == 4);
    reveal_strlit("organizationId");
    assert("organizationId"@.len() == 14);
    reveal_strlit("role");
    assert("role"@.len() == 4);
    assert("email"@[0] == 'e');
    assert("input"@[0] == 'i');
    assert("name"@[0] == 'n');
    assert("role"@[0] == 'r');
    let fields = field(
        "organizationId"@,
        Expected::Text(organization_id@)) + field("input"@,
        Expected::Obj(input.members()),
    );
    lemma_variable_described(r, INVITE_QUERY@, fields, "inviteUser"@, "organizationId"@);
    lemma_variable_described(r, INVITE_QUERY@, fields, "inviteUser"@, "input"@);
    let input_object = variable(r, "input"@).unwrap();
    assert(input_object is Object);
    lemma_member_described(input_object->Object_0@, input.members(), "email"@);
    lemma_member_described(input_object->Object_0@, input.members(), "name"@);
    lemma_member_described(input_object->Object_0@, input.members(), "role"@);
}

/// What [`UserService::remove`] sends: each argument, and each field of an
/// options or input argument, under its own camelCase name, holding that
/// value; an absent optional one is left out.
pub proof fn lemma_remove_sends_arguments(id: &str, r: GraphQLRequest)
    requires
        request_is(r, REMOVE_QUERY@, Some(field("id"@, Expected::Text(id@))), "removeUser"@),
    ensures
        text_of(variable(r, "id"@)) == Some(id@),
{
    broadcast use group_lookup;

    reveal_strlit("id");
    assert("id"@.len() == 2);
    let fields = field("id"@, Expected::Text(id@));
    lemma_variable_described(r, REMOVE_QUERY@, fields, "removeUser"@, "id"@);
}

/// What [`UserService::update_role`] sends: each argument, and each field of an
/// options or input argument, under its own camelCase name, holding that
/// value; an absent optional one is left out.
pub proof fn lemma_update_role_sends_arguments(id: &str, role: &str, r: GraphQLRequest)
    requires
        request_is(
            r,
            UPDATE_ROLE_QUERY@,
            Some(
                field("id"@, Expected::Text(id@))
                    + field("input"@, Expected::Obj(field("role"@, Expected::Text(role@)))),
            ),
            "updateUserRole"@,
        ),
    ensures
        text_of(variable(r, "id"@)) == Some(id@),
{
    broadcast use group_lookup;

    reveal_strlit("id");
    assert("id"@.len() == 2);
    reveal_strlit("input");
    assert("input"@.len() == 5);
    reveal_strlit("role");
    assert("role"@.len() == 4);
    let fields = field(
        "id"@,
        Expected::Text(id@)) + field("input"@,
        Expected::Obj(field("role"@, Expected::Text(role@))),
    );
    lemma_variable_described(r, UPDATE_ROLE_QUERY@, fields, "updateUserRole"@, "id"@);
}

} // verus!
