//! API-key management.

use crate::request::{
    Expected, ObjectBuilder, GraphQLRequest, request, field, opt_text, opt_int, texts, opt_texts, request_is, group_lookup, lemma_variable_described, variable, text_of, sent_text, sent_int, lemma_member_described, member_of,
};
use vstd::prelude::*;

verus! {

broadcast use vstd::string::group_string_axioms;

/// Options for [`ApiKeyService::list`].
#[derive(Debug, Default, Clone)]
#[non_exhaustive]
pub struct ListApiKeysOptions {
    /// Free-text search.
    pub search: Option<String>,
    /// Offset-based page size.
    pub limit: Option<i32>,
    /// Offset-based page offset.
    pub offset: Option<i32>,
}

impl ListApiKeysOptions {
    /// The members of the variables object these options are sent as:
    /// camelCase names, absent options left out.
    pub open spec fn members(self) -> Seq<(Seq<char>, Expected)> {
        opt_text("search"@, self.search)
            + opt_int("limit"@, self.limit)
            + opt_int("offset"@, self.offset)
    }
}

/// Input shape for `ApiKeyService::create`.
#[derive(Debug, Default, Clone)]
#[non_exhaustive]
pub struct CreateApiKeyInput {
    /// Human-readable name.
    pub name: String,
    /// Granted scopes.
    pub scopes: Vec<String>,
    /// Optional list of source IDs to scope this key to.
    pub source_ids: Option<Vec<String>>,
    /// Optional expiry timestamp.
    pub expires_at: Option<String>,
}

impl CreateApiKeyInput {
    /// The members of the JSON object this input is sent as: camelCase
    /// names, optional fields left out when absent.
    pub open spec fn members(self) -> Seq<(Seq<char>, Expected)> {
        field("name"@, Expected::Text(self.name@))
            + field("scopes"@, Expected::Texts(texts(self.scopes@)))
            + opt_texts("sourceIds"@, self.source_ids)
            + opt_text("expiresAt"@, self.expires_at)
    }

    /// The JSON object this input is sent as.
    pub fn to_object(self) -> (b: ObjectBuilder)
        ensures
            b.wf(),
            b.expected@ == self.members(),
    {
        let ghost spec = self.members();
        let mut b = ObjectBuilder::new();
        b.put_string("name", self.name);
        b.put_texts("scopes", self.scopes);
        b.put_opt_texts("sourceIds", self.source_ids);
        b.put_opt_text("expiresAt", self.expires_at);
        assert(b.expected@ =~= spec);
        b
    }
}

/// The GraphQL document of `ApiKeyService::list`.
pub const LIST_QUERY: &'static str = "query($search: String, $limit: Int, $offset: Int) {\n                apiKeys(search: $search, limit: $limit, offset: $offset) {\n                    nodes { id name keyPrefix scopes sourceIds createdAt expiresAt revokedAt lastUsedAt }\n                    pageInfo { total limit offset endCursor hasNextPage }\n                }\n            }";

/// The GraphQL document of `ApiKeyService::get`.
pub const GET_QUERY: &'static str = "query($id: UUID!) { apiKey(id: $id) { id name keyPrefix scopes sourceIds createdAt expiresAt revokedAt lastUsedAt } }";

/// The GraphQL document of `ApiKeyService::create`.
pub const CREATE_QUERY: &'static str = "mutation($input: CreateAPIKeyInput!) { createAPIKey(input: $input) { apiKey { id name keyPrefix scopes sourceIds createdAt expiresAt revokedAt lastUsedAt } rawKey } }";

/// The GraphQL document of `ApiKeyService::revoke`.
pub const REVOKE_QUERY: &'static str = "mutation($id: UUID!) { revokeAPIKey(id: $id) }";

/// Service for managing [`ApiKey`] resources.
pub struct ApiKeyService;

impl ApiKeyService {
    /// List API keys.
    pub fn list(&self, options: ListApiKeysOptions) -> (r: GraphQLRequest)
        ensures
            request_is(r, LIST_QUERY@, Some(options.members()), "apiKeys"@),
    {
        let ghost spec = options.members();
        let mut v = ObjectBuilder::new();
        v.put_opt_text("search", options.search);
        v.put_opt_int("limit", options.limit);
        v.put_opt_int("offset", options.offset);
        proof {
            assert(v.expected@ =~= spec);
        }
        request(LIST_QUERY, v, "apiKeys")
    }

    /// Get an API key by ID.
    pub fn get(&self, id: &str) -> (r: GraphQLRequest)
        ensures
            request_is(r, GET_QUERY@, Some(field("id"@, Expected::Text(id@))), "apiKey"@),
    {
        let ghost spec = field("id"@, Expected::Text(id@));
        let mut v = ObjectBuilder::new();
        v.put_text("id", id);
        proof {
            assert(v.expected@ =~= spec);
        }
        request(GET_QUERY, v, "apiKey")
    }

    /// Create a new API key. The returned [`ApiKeyWithSecret`] contains the
    /// one-time raw key; store it immediately as it cannot be retrieved later.
    pub fn create(&self, input: CreateApiKeyInput) -> (r: GraphQLRequest)
        ensures
            request_is(
                r,
                CREATE_QUERY@,
                Some(field("input"@, Expected::Obj(input.members()))),
                "createAPIKey"@,
            ),
    {
        let ghost spec = field("input"@, Expected::Obj(input.members()));
        let mut v = ObjectBuilder::new();
        v.put_object("input", input.to_object());
        proof {
            assert(v.expected@ =~= spec);
        }
        request(CREATE_QUERY, v, "createAPIKey")
    }

    /// Revoke an API key.
    pub fn revoke(&self, id: &str) -> (r: GraphQLRequest)
        ensures
            request_is(r, REVOKE_QUERY@, Some(field("id"@, Expected::Text(id@))), "revokeAPIKey"@),
    {
        let ghost spec = field("id"@, Expected::Text(id@));
        let mut v = ObjectBuilder::new();
        v.put_text("id", id);
        proof {
            assert(v.expected@ =~= spec);
        }
        request(REVOKE_QUERY, v, "revokeAPIKey")
    }
}

/// Async variant of the API-key service.
pub struct AsyncApiKeyService;

impl AsyncApiKeyService {
    /// List API keys.
    pub fn list(&self, options: ListApiKeysOptions) -> (r: GraphQLRequest)
        ensures
            request_is(r, LIST_QUERY@, Some(options.members()), "apiKeys"@),
    {
        ApiKeyService.list(options)
    }

    /// Get an API key by ID.
    pub fn get(&self, id: &str) -> (r: GraphQLRequest)
        ensures
            request_is(r, GET_QUERY@, Some(field("id"@, Expected::Text(id@))), "apiKey"@),
    {
        ApiKeyService.get(id)
    }

    /// Create a new API key. The returned [`ApiKeyWithSecret`] contains the
    /// one-time raw key; store it immediately as it cannot be retrieved later.
    pub fn create(&self, input: CreateApiKeyInput) -> (r: GraphQLRequest)
        ensures
            request_is(
                r,
                CREATE_QUERY@,
                Some(field("input"@, Expected::Obj(input.members()))),
                "createAPIKey"@,
            ),
    {
        ApiKeyService.create(input)
    }

    /// Revoke an API key.
    pub fn revoke(&self, id: &str) -> (r: GraphQLRequest)
        ensures
            request_is(r, REVOKE_QUERY@, Some(field("id"@, Expected::Text(id@))), "revokeAPIKey"@),
    {
        ApiKeyService.revoke(id)
    }
}

/// What [`ApiKeyService::list`] sends: each argument, and each field of an
/// options or input argument, under its own camelCase name, holding that
/// value; an absent optional one is left out.
pub proof fn lemma_list_sends_arguments(options: ListApiKeysOptions, r: GraphQLRequest)
    requires
        request_is(r, LIST_QUERY@, Some(options.members()), "apiKeys"@),
    ensures
        sent_text(variable(r, "search"@), options.search),
        sent_int(variable(r, "limit"@), options.limit),
        sent_int(variable(r, "offset"@), options.offset),
{
    broadcast use group_lookup;

    reveal_strlit("limit");
    assert("limit"@.len() == 5);
    reveal_strlit("offset");
    assert("offset"@.len() == 6);
    reveal_strlit("search");
    assert("search"@.len() == 6);
    assert("offset"@[0] == 'o');
    assert("search"@[0] == 's');
    let fields = options.members();
    lemma_variable_described(r, LIST_QUERY@, fields, "apiKeys"@, "search"@);
    lemma_variable_described(r, LIST_QUERY@, fields, "apiKeys"@, "limit"@);
    lemma_variable_described(r, LIST_QUERY@, fields, "apiKeys"@, "offset"@);
}

/// What [`ApiKeyService::get`] sends: each argument, and each field of an
/// options or input argument, under its own camelCase name, holding that
/// value; an absent optional one is left out.
pub proof fn lemma_get_sends_arguments(id: &str, r: GraphQLRequest)
    requires
        request_is(r, GET_QUERY@, Some(field("id"@, Expected::Text(id@))), "apiKey"@),
    ensures
        text_of(variable(r, "id"@)) == Some(id@),
{
    broadcast use group_lookup;

    reveal_strlit("id");
    assert("id"@.len() == 2);
    let fields = field("id"@, Expected::Text(id@));
    lemma_variable_described(r, GET_QUERY@, fields, "apiKey"@, "id"@);
}

/// What [`ApiKeyService::create`] sends: each argument, and each field of an
/// options or input argument, under its own camelCase name, holding that
/// value; an absent optional one is left out.
pub proof fn lemma_create_sends_arguments(input: CreateApiKeyInput, r: GraphQLRequest)
    requires
        request_is(
            r,
            CREATE_QUERY@,
            Some(field("input"@, Expected::Obj(input.members()))),
            "createAPIKey"@,
        ),
    ensures
        text_of(member_of(variable(r, "input"@), "name"@)) == Some(input.name@),
        sent_text(member_of(variable(r, "input"@), "expiresAt"@), input.expires_at),
{
    broadcast use group_lookup;

    reveal_strlit("expiresAt");
    assert("expiresAt"@.len() == 9);
    reveal_strlit("input");
    assert("input"@.len() == 5);
    reveal_strlit("name");
    assert("name"@.len() == 4);
    reveal_strlit("scopes");
    assert("scopes"@.len() == 6);
    reveal_strlit("sourceIds");
    assert("sourceIds"@.len() == 9);
    assert("expiresAt"@[0] == 'e');
    assert("sourceIds"@[0] == 's');
    let fields = field("input"@, Expected::Obj(input.members()));
    lemma_variable_described(r, CREATE_QUERY@, fields, "createAPIKey"@, "input"@);
    let input_object = variable(r, "input"@).unwrap();
    assert(input_object is Object);
    lemma_member_described(input_object->Object_0@, input.members(), "name"@);
    lemma_member_described(input_object->Object_0@, input.members(), "expiresAt"@);
}

/// What [`ApiKeyService::revoke`] sends: each argument, and each field of an
/// options or input argument, under its own camelCase name, holding that
/// value; an absent optional one is left out.
pub proof fn lemma_revoke_sends_arguments(id: &str, r: GraphQLRequest)
    requires
        request_is(r, REVOKE_QUERY@, Some(field("id"@, Expected::Text(id@))), "revokeAPIKey"@),
    ensures
        text_of(variable(r, "id"@)) == Some(id@),
{
    broadcast use group_lookup;

    reveal_strlit("id");
    assert("id"@.len() == 2);
    let fields = field("id"@, Expected::Text(id@));
    lemma_variable_described(r, REVOKE_QUERY@, fields, "revokeAPIKey"@, "id"@);
}

} // verus!
