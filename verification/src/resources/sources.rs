//! Sources resource: inbound webhook endpoints.

use crate::json::Json;
use crate::request::{
    Expected, ObjectBuilder, GraphQLRequest, request, field, opt_text, opt_int, opt_flag, opt_doc, request_is, group_lookup, lemma_variable_described, variable, text_of, sent_text, sent_int, lemma_member_described, member_of, sent_flag,
};
use vstd::prelude::*;

verus! {

broadcast use vstd::string::group_string_axioms;

/// Optional filters for the `list` method on the source service.
#[derive(Debug, Default, Clone)]
#[non_exhaustive]
pub struct ListSourcesOptions {
    /// Filter by source status.
    pub status: Option<String>,
    /// Filter by provider type.
    pub provider_type: Option<String>,
    /// Free-text search.
    pub search: Option<String>,
    /// Offset-based page size.
    pub limit: Option<i32>,
    /// Offset-based page offset.
    pub offset: Option<i32>,
    /// Cursor for cursor-based pagination.
    pub after: Option<String>,
    /// Page size for cursor-based pagination.
    pub first: Option<i32>,
}

impl ListSourcesOptions {
    /// The members of the variables object these options are sent as:
    /// camelCase names, absent options left out.
    pub open spec fn members(self) -> Seq<(Seq<char>, Expected)> {
        opt_text("status"@, self.status)
            + opt_text("providerType"@, self.provider_type)
            + opt_text("search"@, self.search)
            + opt_int("limit"@, self.limit)
            + opt_int("offset"@, self.offset)
            + opt_text("after"@, self.after)
            + opt_int("first"@, self.first)
    }
}

/// Input shape for the `create` method on the source service.
#[derive(Debug, Default, Clone)]
#[non_exhaustive]
pub struct CreateSourceInput {
    /// Human-readable name.
    pub name: String,
    /// URL-safe slug for the ingest endpoint.
    pub slug: String,
    /// Provider type identifier.
    pub provider_type: String,
    /// Provider-specific verification configuration.
    pub verify_config: Option<Json>,
    /// Whether to enable spike protection.
    pub spike_protection: Option<bool>,
    /// Hard ingest RPS ceiling.
    pub max_ingest_rps: Option<i32>,
}

impl CreateSourceInput {
    /// The members of the JSON object this input is sent as: camelCase
    /// names, optional fields left out when absent.
    pub open spec fn members(self) -> Seq<(Seq<char>, Expected)> {
        field("name"@, Expected::Text(self.name@))
            + field("slug"@, Expected::Text(self.slug@))
            + field("providerType"@, Expected::Text(self.provider_type@))
            + opt_doc("verifyConfig"@, self.verify_config)
            + opt_flag("spikeProtection"@, self.spike_protection)
            + opt_int("maxIngestRps"@, self.max_ingest_rps)
    }

    /// The JSON object this input is sent as.
    pub fn to_object(self) -> (b: ObjectBuilder)
        ensures
            b.wf(),
            b.expected@ == self.members(),
    {
        let ghost spec = self.members();
        let mut b = ObjectBuilder::new();
        b.put_string("name", self.name);
        b.put_string("slug", self.slug);
        b.put_string("providerType", self.provider_type);
        b.put_opt_doc("verifyConfig", self.verify_config);
        b.put_opt_flag("spikeProtection", self.spike_protection);
        b.put_opt_int("maxIngestRps", self.max_ingest_rps);
        assert(b.expected@ =~= spec);
        b
    }
}

/// Input shape for the `update` method on the source service.
#[derive(Debug, Default, Clone)]
#[non_exhaustive]
pub struct UpdateSourceInput {
    /// New name.
    pub name: Option<String>,
    /// New slug.
    pub slug: Option<String>,
    /// New status.
    pub status: Option<String>,
    /// New verification config.
    pub verify_config: Option<Json>,
    /// New per-source RPS limit.
    pub rate_limit_rps: Option<i32>,
    /// New spike-protection toggle.
    pub spike_protection: Option<bool>,
    /// New hard ingest RPS ceiling.
    pub max_ingest_rps: Option<i32>,
}

impl UpdateSourceInput {
    /// The members of the JSON object this input is sent as: camelCase
    /// names, optional fields left out when absent.
    pub open spec fn members(self) -> Seq<(Seq<char>, Expected)> {
        opt_text("name"@, self.name)
            + opt_text("slug"@, self.slug)
            + opt_text("status"@, self.status)
            + opt_doc("verifyConfig"@, self.verify_config)
            + opt_int("rateLimitRps"@, self.rate_limit_rps)
            + opt_flag("spikeProtection"@, self.spike_protection)
            + opt_int("maxIngestRps"@, self.max_ingest_rps)
    }

    /// The JSON object this input is sent as.
    pub fn to_object(self) -> (b: ObjectBuilder)
        ensures
            b.wf(),
            b.expected@ == self.members(),
    {
        let ghost spec = self.members();
        let mut b = ObjectBuilder::new();
        b.put_opt_text("name", self.name);
        b.put_opt_text("slug", self.slug);
        b.put_opt_text("status", self.status);
        b.put_opt_doc("verifyConfig", self.verify_config);
        b.put_opt_int("rateLimitRps", self.rate_limit_rps);
        b.put_opt_flag("spikeProtection", self.spike_protection);
        b.put_opt_int("maxIngestRps", self.max_ingest_rps);
        assert(b.expected@ =~= spec);
        b
    }
}

/// The GraphQL document of `SourceService::list`.
pub const LIST_QUERY: &'static str = "query($status: SourceStatus, $providerType: String, $search: String, $limit: Int, $offset: Int, $after: String, $first: Int) {\n                sources(status: $status, providerType: $providerType, search: $search, limit: $limit, offset: $offset, after: $after, first: $first) {\n                    nodes { id name slug providerType verifyConfig status rateLimitRps spikeProtection maxIngestRps brokerConfig responseConfig { statusCode body contentType } dedupConfig { strategy fields window } createdAt }\n                    pageInfo { total limit offset endCursor hasNextPage }\n                }\n            }";

/// The GraphQL document of `SourceService::get`.
pub const GET_QUERY: &'static str = "query($id: UUID!) { source(id: $id) { id name slug providerType verifyConfig status rateLimitRps spikeProtection maxIngestRps brokerConfig responseConfig { statusCode body contentType } dedupConfig { strategy fields window } createdAt } }";

/// The GraphQL document of `SourceService::create`.
pub const CREATE_QUERY: &'static str = "mutation($input: CreateSourceInput!) { createSource(input: $input) { id name slug providerType verifyConfig status rateLimitRps spikeProtection maxIngestRps brokerConfig responseConfig { statusCode body contentType } dedupConfig { strategy fields window } createdAt } }";

/// The GraphQL document of `SourceService::update`.
pub const UPDATE_QUERY: &'static str = "mutation($id: UUID!, $input: UpdateSourceInput!) { updateSource(id: $id, input: $input) { id name slug providerType verifyConfig status rateLimitRps spikeProtection maxIngestRps brokerConfig responseConfig { statusCode body contentType } dedupConfig { strategy fields window } createdAt } }";

/// The GraphQL document of `SourceService::delete`.
pub const DELETE_QUERY: &'static str = "mutation($id: UUID!) { deleteSource(id: $id) }";

/// The GraphQL document of `SourceService::rotate_secret`.
pub const ROTATE_SECRET_QUERY: &'static str = "mutation($id: UUID!) { rotateSourceSecret(id: $id) { id name slug providerType verifyConfig status rateLimitRps spikeProtection maxIngestRps brokerConfig responseConfig { statusCode body contentType } dedupConfig { strategy fields window } createdAt } }";

/// The GraphQL document of `SourceService::clear_secondary_secret`.
pub const CLEAR_SECONDARY_SECRET_QUERY: &'static str = "mutation($id: UUID!) { clearSourceSecondarySecret(id: $id) { id name slug providerType verifyConfig status rateLimitRps spikeProtection maxIngestRps brokerConfig responseConfig { statusCode body contentType } dedupConfig { strategy fields window } createdAt } }";

/// Blocking variant of the source service.
pub struct SourceService;

impl SourceService {
    /// List sources with optional filters.
    pub fn list(&self, options: ListSourcesOptions) -> (r: GraphQLRequest)
        ensures
            request_is(r, LIST_QUERY@, Some(options.members()), "sources"@),
    {
        let ghost spec = options.members();
        let mut v = ObjectBuilder::new();
        v.put_opt_text("status", options.status);
        v.put_opt_text("providerType", options.provider_type);
        v.put_opt_text("search", options.search);
        v.put_opt_int("limit", options.limit);
        v.put_opt_int("offset", options.offset);
        v.put_opt_text("after", options.after);
        v.put_opt_int("first", options.first);
        proof {
            assert(v.expected@ =~= spec);
        }
        request(LIST_QUERY, v, "sources")
    }

    /// Get a source by ID. Returns `None` if no source matches.
    pub fn get(&self, id: &str) -> (r: GraphQLRequest)
        ensures
            request_is(r, GET_QUERY@, Some(field("id"@, Expected::Text(id@))), "source"@),
    {
        let ghost spec = field("id"@, Expected::Text(id@));
        let mut v = ObjectBuilder::new();
        v.put_text("id", id);
        proof {
            assert(v.expected@ =~= spec);
        }
        request(GET_QUERY, v, "source")
    }

    /// Create a new source.
    pub fn create(&self, input: CreateSourceInput) -> (r: GraphQLRequest)
        ensures
            request_is(
                r,
                CREATE_QUERY@,
                Some(field("input"@, Expected::Obj(input.members()))),
                "createSource"@,
            ),
    {
        let ghost spec = field("input"@, Expected::Obj(input.members()));
        let mut v = ObjectBuilder::new();
        v.put_object("input", input.to_object());
        proof {
            assert(v.expected@ =~= spec);
        }
        request(CREATE_QUERY, v, "createSource")
    }

    /// Update an existing source.
    pub fn update(&self, id: &str, input: UpdateSourceInput) -> (r: GraphQLRequest)
        ensures
            request_is(
                r,
                UPDATE_QUERY@,
                Some(
                    field("id"@, Expected::Text(id@))
                        + field("input"@, Expected::Obj(input.members())),
                ),
                "updateSource"@,
            ),
    {
        let ghost spec =
            field("id"@, Expected::Text(id@)) + field("input"@, Expected::Obj(input.members()));
        let mut v = ObjectBuilder::new();
        v.put_text("id", id);
        v.put_object("input", input.to_object());
        proof {
            assert(v.expected@ =~= spec);
        }
        request(UPDATE_QUERY, v, "updateSource")
    }

    /// Delete a source. Returns `true` if the source was removed.
    pub fn delete(&self, id: &str) -> (r: GraphQLRequest)
        ensures
            request_is(r, DELETE_QUERY@, Some(field("id"@, Expected::Text(id@))), "deleteSource"@),
    {
        let ghost spec = field("id"@, Expected::Text(id@));
        let mut v = ObjectBuilder::new();
        v.put_text("id", id);
        proof {
            assert(v.expected@ =~= spec);
        }
        request(DELETE_QUERY, v, "deleteSource")
    }

    /// Rotate the signing secret for a source.
    pub fn rotate_secret(&self, id: &str) -> (r: GraphQLRequest)
        ensures
            request_is(
                r,
                ROTATE_SECRET_QUERY@,
                Some(field("id"@, Expected::Text(id@))),
                "rotateSourceSecret"@,
            ),
    {
        let ghost spec = field("id"@, Expected::Text(id@));
        let mut v = ObjectBuilder::new();
        v.put_text("id", id);
        proof {
            assert(v.expected@ =~= spec);
        }
        request(ROTATE_SECRET_QUERY, v, "rotateSourceSecret")
    }

    /// Clear the secondary signing secret previously installed during rotation.
    pub fn clear_secondary_secret(&self, id: &str) -> (r: GraphQLRequest)
        ensures
            request_is(
                r,
                CLEAR_SECONDARY_SECRET_QUERY@,
                Some(field("id"@, Expected::Text(id@))),
                "clearSourceSecondarySecret"@,
            ),
    {
        let ghost spec = field("id"@, Expected::Text(id@));
        let mut v = ObjectBuilder::new();
        v.put_text("id", id);
        proof {
            assert(v.expected@ =~= spec);
        }
        request(CLEAR_SECONDARY_SECRET_QUERY, v, "clearSourceSecondarySecret")
    }
}

/// Async variant of the source service.
pub struct AsyncSourceService;

impl AsyncSourceService {
    /// List sources with optional filters.
    pub fn list(&self, options: ListSourcesOptions) -> (r: GraphQLRequest)
        ensures
            request_is(r, LIST_QUERY@, Some(options.members()), "sources"@),
    {
        SourceService.list(options)
    }

    /// Get a source by ID. Returns `None` if no source matches.
    pub fn get(&self, id: &str) -> (r: GraphQLRequest)
        ensures
            request_is(r, GET_QUERY@, Some(field("id"@, Expected::Text(id@))), "source"@),
    {
        SourceService.get(id)
    }

    /// Create a new source.
    pub fn create(&self, input: CreateSourceInput) -> (r: GraphQLRequest)
        ensures
            request_is(
                r,
                CREATE_QUERY@,
                Some(field("input"@, Expected::Obj(input.members()))),
                "createSource"@,
            ),
    {
        SourceService.create(input)
    }

    /// Update an existing source.
    pub fn update(&self, id: &str, input: UpdateSourceInput) -> (r: GraphQLRequest)
        ensures
            request_is(
                r,
                UPDATE_QUERY@,
                Some(
                    field("id"@, Expected::Text(id@))
                        + field("input"@, Expected::Obj(input.members())),
                ),
                "updateSource"@,
            ),
    {
        SourceService.update(id, input)
    }

    /// Delete a source. Returns `true` if the source was removed.
    pub fn delete(&self, id: &str) -> (r: GraphQLRequest)
        ensures
            request_is(r, DELETE_QUERY@, Some(field("id"@, Expected::Text(id@))), "deleteSource"@),
    {
        SourceService.delete(id)
    }

    /// Rotate the signing secret for a source.
    pub fn rotate_secret(&self, id: &str) -> (r: GraphQLRequest)
        ensures
            request_is(
                r,
                ROTATE_SECRET_QUERY@,
                Some(field("id"@, Expected::Text(id@))),
                "rotateSourceSecret"@,
            ),
    {
        SourceService.rotate_secret(id)
    }

    /// Clear the secondary signing secret previously installed during rotation.
    pub fn clear_secondary_secret(&self, id: &str) -> (r: GraphQLRequest)
        ensures
            request_is(
                r,
                CLEAR_SECONDARY_SECRET_QUERY@,
                Some(field("id"@, Expected::Text(id@))),
                "clearSourceSecondarySecret"@,
            ),
    {
        SourceService.clear_secondary_secret(id)
    }
}

/// What [`SourceService::list`] sends: each argument, and each field of an
/// options or input argument, under its own camelCase name, holding that
/// value; an absent optional one is left out.
pub proof fn lemma_list_sends_arguments(options: ListSourcesOptions, r: GraphQLRequest)
    requires
        request_is(r, LIST_QUERY@, Some(options.members()), "sources"@),
    ensures
        sent_text(variable(r, "status"@), options.status),
        sent_text(variable(r, "providerType"@), options.provider_type),
        sent_text(variable(r, "search"@), options.search),
        sent_int(variable(r, "limit"@), options.limit),
        sent_int(variable(r, "offset"@), options.offset),
        sent_text(variable(r, "after"@), options.after),
        sent_int(variable(r, "first"@), options.first),
{
    broadcast use group_lookup;

    reveal_strlit("after");
    assert("after"@.len() == 5);
    reveal_strlit("first");
    assert("first"@.len() == 5);
    reveal_strlit("limit");
    assert("limit"@.len() == 5);
    reveal_strlit("offset");
    assert("offset"@.len() == 6);
    reveal_strlit("providerType");
    assert("providerType"@.len() == 12);
    reveal_strlit("search");
    assert("search"@.len() == 6);
    reveal_strlit("status");
    assert("status"@.len() == 6);
    assert("after"@[0] == 'a');
    assert("first"@[0] == 'f');
    assert("limit"@[0] == 'l');
    assert("offset"@[0] == 'o');
    assert("search"@[0] == 's');
    assert("status"@[0] == 's');
    assert("search"@[1] == 'e');
    assert("status"@[1] == 't');
    let fields = options.members();
    lemma_variable_described(r, LIST_QUERY@, fields, "sources"@, "status"@);
    lemma_variable_described(r, LIST_QUERY@, fields, "sources"@, "providerType"@);
    lemma_variable_described(r, LIST_QUERY@, fields, "sources"@, "search"@);
    lemma_variable_described(r, LIST_QUERY@, fields, "sources"@, "limit"@);
    lemma_variable_described(r, LIST_QUERY@, fields, "sources"@, "offset"@);
    lemma_variable_described(r, LIST_QUERY@, fields, "sources"@, "after"@);
    lemma_variable_described(r, LIST_QUERY@, fields, "sources"@, "first"@);
}

/// What [`SourceService::get`] sends: each argument, and each field of an
/// options or input argument, under its own camelCase name, holding that
/// value; an absent optional one is left out.
pub proof fn lemma_get_sends_arguments(id: &str, r: GraphQLRequest)
    requires
        request_is(r, GET_QUERY@, Some(field("id"@, Expected::Text(id@))), "source"@),
    ensures
        text_of(variable(r, "id"@)) == Some(id@),
{
    broadcast use group_lookup;

    reveal_strlit("id");
    assert("id"@.len() == 2);
    let fields = field("id"@, Expected::Text(id@));
    lemma_variable_described(r, GET_QUERY@, fields, "source"@, "id"@);
}

/// What [`SourceService::create`] sends: each argument, and each field of an
/// options or input argument, under its own camelCase name, holding that
/// value; an absent optional one is left out.
pub proof fn lemma_create_sends_arguments(input: CreateSourceInput, r: GraphQLRequest)
    requires
        request_is(
            r,
            CREATE_QUERY@,
            Some(field("input"@, Expected::Obj(input.members()))),
            "createSource"@,
        ),
    ensures
        text_of(member_of(variable(r, "input"@), "name"@)) == Some(input.name@),
        text_of(member_of(variable(r, "input"@), "slug"@)) == Some(input.slug@),
        text_of(member_of(variable(r, "input"@), "providerType"@)) == Some(input.provider_type@),
        sent_flag(member_of(variable(r, "input"@), "spikeProtection"@), input.spike_protection),
        sent_int(member_of(variable(r, "input"@), "maxIngestRps"@), input.max_ingest_rps),
{
    broadcast use group_lookup;

    reveal_strlit("input");
    assert("input"@.len() == 5);
    reveal_strlit("maxIngestRps");
    assert("maxIngestRps"@.len() == 12);
    reveal_strlit("name");
    assert("name"@.len() == 4);
    reveal_strlit("providerType");
    assert("providerType"@.len() == 12);
    reveal_strlit("slug");
    assert("slug"@.len() == 4);
    reveal_strlit("spikeProtection");
    assert("spikeProtection"@.len() == 15);
    reveal_strlit("verifyConfig");
    assert("verifyConfig"@.len() == 12);
    assert("maxIngestRps"@[0] == 'm');
    assert("providerType"@[0] == 'p');
    assert("verifyConfig"@[0] == 'v');
    assert("name"@[0] == 'n');
    assert("slug"@[0] == 's');
    let fields = field("input"@, Expected::Obj(input.members()));
    lemma_variable_described(r, CREATE_QUERY@, fields, "createSource"@, "input"@);
    let input_object = variable(r, "input"@).unwrap();
    assert(input_object is Object);
    lemma_member_described(input_object->Object_0@, input.members(), "name"@);
    lemma_member_described(input_object->Object_0@, input.members(), "slug"@);
    lemma_member_described(input_object->Object_0@, input.members(), "providerType"@);
    lemma_member_described(input_object->Object_0@, input.members(), "spikeProtection"@);
    lemma_member_described(input_object->Object_0@, input.members(), "maxIngestRps"@);
}

/// What [`SourceService::update`] sends: each argument, and each field of an
/// options or input argument, under its own camelCase name, holding that
/// value; an absent optional one is left out.
pub proof fn lemma_update_sends_arguments(id: &str, input: UpdateSourceInput, r: GraphQLRequest)
    requires
        request_is(
            r,
            UPDATE_QUERY@,
            Some(
                field("id"@, Expected::Text(id@)) + field("input"@, Expected::Obj(input.members())),
            ),
            "updateSource"@,
        ),
    ensures
        text_of(variable(r, "id"@)) == Some(id@),
        sent_text(member_of(variable(r, "input"@), "name"@), input.name),
        sent_text(member_of(variable(r, "input"@), "slug"@), input.slug),
        sent_text(member_of(variable(r, "input"@), "status"@), input.status),
        sent_int(member_of(variable(r, "input"@), "rateLimitRps"@), input.rate_limit_rps),
        sent_flag(member_of(variable(r, "input"@), "spikeProtection"@), input.spike_protection),
        sent_int(member_of(variable(r, "input"@), "maxIngestRps"@), input.max_ingest_rps),
{
    broadcast use group_lookup;

    reveal_strlit("id");
    assert("id"@.len() == 2);
    reveal_strlit("input");
    assert("input"@.len() == 5);
    reveal_strlit("maxIngestRps");
    assert("maxIngestRps"@.len() == 12);
    reveal_strlit("name");
    assert("name"@.len() == 4);
    reveal_strlit("rateLimitRps");
    assert("rateLimitRps"@.len() == 12);
    reveal_strlit("slug");
    assert("slug"@.len() == 4);
    reveal_strlit("spikeProtection");
    assert("spikeProtection"@.len() == 15);
    reveal_strlit("status");
    assert("status"@.len() == 6);
    reveal_strlit("verifyConfig");
    assert("verifyConfig"@.len() == 12);
    assert("maxIngestRps"@[0] == 'm');
    assert("rateLimitRps"@[0] == 'r');
    assert("verifyConfig"@[0] == 'v');
    assert("name"@[0] == 'n');
    assert("slug"@[0] == 's');
    let fields = field(
        "id"@,
        Expected::Text(id@)) + field("input"@,
        Expected::Obj(input.members()),
    );
    lemma_variable_described(r, UPDATE_QUERY@, fields, "updateSource"@, "id"@);
    lemma_variable_described(r, UPDATE_QUERY@, fields, "updateSource"@, "input"@);
    let input_object = variable(r, "input"@).unwrap();
    assert(input_object is Object);
    lemma_member_described(input_object->Object_0@, input.members(), "name"@);
    lemma_member_described(input_object->Object_0@, input.members(), "slug"@);
    lemma_member_described(input_object->Object_0@, input.members(), "status"@);
    lemma_member_described(input_object->Object_0@, input.members(), "rateLimitRps"@);
    lemma_member_described(input_object->Object_0@, input.members(), "spikeProtection"@);
    lemma_member_described(input_object->Object_0@, input.members(), "maxIngestRps"@);
}

/// What [`SourceService::delete`] sends: each argument, and each field of an
/// options or input argument, under its own camelCase name, holding that
/// value; an absent optional one is left out.
pub proof fn lemma_delete_sends_arguments(id: &str, r: GraphQLRequest)
    requires
        request_is(r, DELETE_QUERY@, Some(field("id"@, Expected::Text(id@))), "deleteSource"@),
    ensures
        text_of(variable(r, "id"@)) == Some(id@),
{
    broadcast use group_lookup;

    reveal_strlit("id");
    assert("id"@.len() == 2);
    let fields = field("id"@, Expected::Text(id@));
    lemma_variable_described(r, DELETE_QUERY@, fields, "deleteSource"@, "id"@);
}

/// What [`SourceService::rotate_secret`] sends: each argument, and each field of an
/// options or input argument, under its own camelCase name, holding that
/// value; an absent optional one is left out.
pub proof fn lemma_rotate_secret_sends_arguments(id: &str, r: GraphQLRequest)
    requires
        request_is(
            r,
            ROTATE_SECRET_QUERY@,
            Some(field("id"@, Expected::Text(id@))),
            "rotateSourceSecret"@,
        ),
    ensures
        text_of(variable(r, "id"@)) == Some(id@),
{
    broadcast use group_lookup;

    reveal_strlit("id");
    assert("id"@.len() == 2);
    let fields = field("id"@, Expected::Text(id@));
    lemma_variable_described(r, ROTATE_SECRET_QUERY@, fields, "rotateSourceSecret"@, "id"@);
}

/// What [`SourceService::clear_secondary_secret`] sends: each argument, and each field of an
/// options or input argument, under its own camelCase name, holding that
/// value; an absent optional one is left out.
pub proof fn lemma_clear_secondary_secret_sends_arguments(id: &str, r: GraphQLRequest)
    requires
        request_is(
            r,
            CLEAR_SECONDARY_SECRET_QUERY@,
            Some(field("id"@, Expected::Text(id@))),
            "clearSourceSecondarySecret"@,
        ),
    ensures
        text_of(variable(r, "id"@)) == Some(id@),
{
    broadcast use group_lookup;

    reveal_strlit("id");
    assert("id"@.len() == 2);
    let fields = field("id"@, Expected::Text(id@));
    lemma_variable_described(
        r,
        CLEAR_SECONDARY_SECRET_QUERY@,
        fields,
        "clearSourceSecondarySecret"@,
        "id"@,
    );
}

} // verus!
