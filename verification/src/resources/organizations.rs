//! Organization management.

use crate::request::{
    Expected, ObjectBuilder, GraphQLRequest, request, field, opt_text, opt_int, request_is, group_lookup, lemma_variable_described, variable, text_of, sent_text, sent_int, lemma_member_described, member_of, number_is,
};
use vstd::prelude::*;

verus! {

broadcast use vstd::string::group_string_axioms;

/// Options for [`OrganizationService::list`].
#[derive(Debug, Default, Clone)]
#[non_exhaustive]
pub struct ListOrganizationsOptions {
    /// Free-text search.
    pub search: Option<String>,
    /// Offset-based page size.
    pub limit: Option<i32>,
    /// Offset-based page offset.
    pub offset: Option<i32>,
}

impl ListOrganizationsOptions {
    /// The members of the variables object these options are sent as:
    /// camelCase names, absent options left out.
    pub open spec fn members(self) -> Seq<(Seq<char>, Expected)> {
        opt_text("search"@, self.search)
            + opt_int("limit"@, self.limit)
            + opt_int("offset"@, self.offset)
    }
}

/// Input shape for `OrganizationService::create`.
#[derive(Debug, Default, Clone)]
#[non_exhaustive]
pub struct CreateOrganizationInput {
    /// Display name.
    pub name: String,
    /// URL-safe slug.
    pub slug: String,
}

impl CreateOrganizationInput {
    /// The members of the JSON object this input is sent as: camelCase
    /// names, optional fields left out when absent.
    pub open spec fn members(self) -> Seq<(Seq<char>, Expected)> {
        field("name"@, Expected::Text(self.name@))
            + field("slug"@, Expected::Text(self.slug@))
    }

    /// The JSON object this input is sent as.
    pub fn to_object(self) -> (b: ObjectBuilder)
        ensures
            b.wf(),
            b.expected@ == self.members(),
    {
        let ghost spec = self.members();
        let mut b = ObjectBuilder::new();
        b.put_string("name", self.name);
        b.put_string("slug", self.slug);
        assert(b.expected@ =~= spec);
        b
    }
}

/// Input shape for `OrganizationService::update`.
#[derive(Debug, Default, Clone)]
#[non_exhaustive]
pub struct UpdateOrganizationInput {
    /// New display name.
    pub name: Option<String>,
    /// New slug.
    pub slug: Option<String>,
}

impl UpdateOrganizationInput {
    /// The members of the JSON object this input is sent as: camelCase
    /// names, optional fields left out when absent.
    pub open spec fn members(self) -> Seq<(Seq<char>, Expected)> {
        opt_text("name"@, self.name)
            + opt_text("slug"@, self.slug)
    }

    /// The JSON object this input is sent as.
    pub fn to_object(self) -> (b: ObjectBuilder)
        ensures
            b.wf(),
            b.expected@ == self.members(),
    {
        let ghost spec = self.members();
        let mut b = ObjectBuilder::new();
        b.put_opt_text("name", self.name);
        b.put_opt_text("slug", self.slug);
        assert(b.expected@ =~= spec);
        b
    }
}

/// Input shape for `OrganizationService::configure_sso`.
#[derive(Debug, Default, Clone)]
#[non_exhaustive]
pub struct SsoConfigInput {
    /// SSO provider name.
    pub provider: String,
    /// SAML IdP metadata URL.
    pub idp_metadata_url: Option<String>,
    /// SAML entity ID.
    pub entity_id: Option<String>,
    /// SAML ACS base URL.
    pub acs_base_url: Option<String>,
    /// OIDC issuer.
    pub issuer: Option<String>,
    /// OIDC client ID.
    pub client_id: Option<String>,
    /// OIDC client secret.
    pub client_secret: Option<String>,
    /// OIDC redirect URL.
    pub redirect_url: Option<String>,
}

impl SsoConfigInput {
    /// The members of the JSON object this input is sent as: camelCase
    /// names, optional fields left out when absent.
    pub open spec fn members(self) -> Seq<(Seq<char>, Expected)> {
        field("provider"@, Expected::Text(self.provider@))
            + opt_text("idpMetadataUrl"@, self.idp_metadata_url)
            + opt_text("entityId"@, self.entity_id)
            + opt_text("acsBaseUrl"@, self.acs_base_url)
            + opt_text("issuer"@, self.issuer)
            + opt_text("clientId"@, self.client_id)
            + opt_text("clientSecret"@, self.client_secret)
            + opt_text("redirectUrl"@, self.redirect_url)
    }

    /// The JSON object this input is sent as.
    pub fn to_object(self) -> (b: ObjectBuilder)
        ensures
            b.wf(),
            b.expected@ == self.members(),
    {
        let ghost spec = self.members();
        let mut b = ObjectBuilder::new();
        b.put_string("provider", self.provider);
        b.put_opt_text("idpMetadataUrl", self.idp_metadata_url);
        b.put_opt_text("entityId", self.entity_id);
        b.put_opt_text("acsBaseUrl", self.acs_base_url);
        b.put_opt_text("issuer", self.issuer);
        b.put_opt_text("clientId", self.client_id);
        b.put_opt_text("clientSecret", self.client_secret);
        b.put_opt_text("redirectUrl", self.redirect_url);
        assert(b.expected@ =~= spec);
        b
    }
}

/// Input shape for `OrganizationService::update_retention`.
#[derive(Debug, Default, Clone)]
#[non_exhaustive]
pub struct RetentionInput {
    /// Event retention in days.
    pub retention_events: i32,
    /// Message retention in days.
    pub retention_messages: i32,
}

impl RetentionInput {
    /// The members of the JSON object this input is sent as: camelCase
    /// names, optional fields left out when absent.
    pub open spec fn members(self) -> Seq<(Seq<char>, Expected)> {
        field("retentionEvents"@, Expected::Int(self.retention_events as int))
            + field("retentionMessages"@, Expected::Int(self.retention_messages as int))
    }

    /// The JSON object this input is sent as.
    pub fn to_object(self) -> (b: ObjectBuilder)
        ensures
            b.wf(),
            b.expected@ == self.members(),
    {
        let ghost spec = self.members();
        let mut b = ObjectBuilder::new();
        b.put_int("retentionEvents", self.retention_events as i64);
        b.put_int("retentionMessages", self.retention_messages as i64);
        assert(b.expected@ =~= spec);
        b
    }
}

/// The GraphQL document of `OrganizationService::list`.
pub const LIST_QUERY: &'static str = "query($search: String, $limit: Int, $offset: Int) {\n                organizations(search: $search, limit: $limit, offset: $offset) {\n                    nodes { id name slug ssoEnabled ssoProvider retentionEvents retentionMessages otlpConfig { endpoint headers insecure sampleRate } createdAt updatedAt }\n                    pageInfo { total limit offset endCursor hasNextPage }\n                }\n            }";

/// The GraphQL document of `OrganizationService::get`.
pub const GET_QUERY: &'static str = "query($id: UUID!) { organization(id: $id) { id name slug ssoEnabled ssoProvider retentionEvents retentionMessages otlpConfig { endpoint headers insecure sampleRate } createdAt updatedAt } }";

/// The GraphQL document of `OrganizationService::create`.
pub const CREATE_QUERY: &'static str = "mutation($input: CreateOrganizationInput!) { createOrganization(input: $input) { id name slug ssoEnabled ssoProvider retentionEvents retentionMessages otlpConfig { endpoint headers insecure sampleRate } createdAt updatedAt } }";

/// The GraphQL document of `OrganizationService::update`.
pub const UPDATE_QUERY: &'static str = "mutation($id: UUID!, $input: UpdateOrganizationInput!) { updateOrganization(id: $id, input: $input) { id name slug ssoEnabled ssoProvider retentionEvents retentionMessages otlpConfig { endpoint headers insecure sampleRate } createdAt updatedAt } }";

/// The GraphQL document of `OrganizationService::delete`.
pub const DELETE_QUERY: &'static str = "mutation($id: UUID!) { deleteOrganization(id: $id) }";

/// The GraphQL document of `OrganizationService::configure_sso`.
pub const CONFIGURE_SSO_QUERY: &'static str = "mutation($organizationId: UUID!, $input: SSOConfigInput!) { configureSSO(organizationId: $organizationId, input: $input) { id name slug ssoEnabled ssoProvider retentionEvents retentionMessages otlpConfig { endpoint headers insecure sampleRate } createdAt updatedAt } }";

/// The GraphQL document of `OrganizationService::disable_sso`.
pub const DISABLE_SSO_QUERY: &'static str = "mutation($organizationId: UUID!) { disableSSO(organizationId: $organizationId) { id name slug ssoEnabled ssoProvider retentionEvents retentionMessages otlpConfig { endpoint headers insecure sampleRate } createdAt updatedAt } }";

/// The GraphQL document of `OrganizationService::update_retention`.
pub const UPDATE_RETENTION_QUERY: &'static str = "mutation($organizationId: UUID!, $input: RetentionInput!) { updateOrganizationRetention(organizationId: $organizationId, input: $input) { id name slug ssoEnabled ssoProvider retentionEvents retentionMessages otlpConfig { endpoint headers insecure sampleRate } createdAt updatedAt } }";

/// The GraphQL document of `OrganizationService::delete_data`.
pub const DELETE_DATA_QUERY: &'static str = "mutation($organizationId: UUID!) { deleteOrganizationData(organizationId: $organizationId) }";

/// The GraphQL document of `OrganizationService::export_data`.
pub const EXPORT_DATA_QUERY: &'static str = "mutation($organizationId: UUID!) { exportOrganizationData(organizationId: $organizationId) }";

/// The GraphQL document of `OrganizationService::disable_otlp`.
pub const DISABLE_OTLP_QUERY: &'static str = "mutation($organizationId: UUID!) { disableOTLP(organizationId: $organizationId) { id name slug ssoEnabled ssoProvider retentionEvents retentionMessages otlpConfig { endpoint headers insecure sampleRate } createdAt updatedAt } }";

/// Service for managing [`Organization`] resources.
pub struct OrganizationService;

impl OrganizationService {
    /// List organizations.
    pub fn list(&self, options: ListOrganizationsOptions) -> (r: GraphQLRequest)
        ensures
            request_is(r, LIST_QUERY@, Some(options.members()), "organizations"@),
    {
        let ghost spec = options.members();
        let mut v = ObjectBuilder::new();
        v.put_opt_text("search", options.search);
        v.put_opt_int("limit", options.limit);
        v.put_opt_int("offset", options.offset);
        proof {
            assert(v.expected@ =~= spec);
        }
        request(LIST_QUERY, v, "organizations")
    }

    /// Get an organization by ID.
    pub fn get(&self, id: &str) -> (r: GraphQLRequest)
        ensures
            request_is(r, GET_QUERY@, Some(field("id"@, Expected::Text(id@))), "organization"@),
    {
        let ghost spec = field("id"@, Expected::Text(id@));
        let mut v = ObjectBuilder::new();
        v.put_text("id", id);
        proof {
            assert(v.expected@ =~= spec);
        }
        request(GET_QUERY, v, "organization")
    }

    /// Create a new organization.
    pub fn create(&self, input: CreateOrganizationInput) -> (r: GraphQLRequest)
        ensures
            request_is(
                r,
                CREATE_QUERY@,
                Some(field("input"@, Expected::Obj(input.members()))),
                "createOrganization"@,
            ),
    {
        let ghost spec = field("input"@, Expected::Obj(input.members()));
        let mut v = ObjectBuilder::new();
        v.put_object("input", input.to_object());
        proof {
            assert(v.expected@ =~= spec);
        }
        request(CREATE_QUERY, v, "createOrganization")
    }

    /// Update an organization.
    pub fn update(&self, id: &str, input: UpdateOrganizationInput) -> (r: GraphQLRequest)
        ensures
            request_is(
                r,
                UPDATE_QUERY@,
                Some(
                    field("id"@, Expected::Text(id@))
                        + field("input"@, Expected::Obj(input.members())),
                ),
                "updateOrganization"@,
            ),
    {
        let ghost spec =
            field("id"@, Expected::Text(id@)) + field("input"@, Expected::Obj(input.members()));
        let mut v = ObjectBuilder::new();
        v.put_text("id", id);
        v.put_object("input", input.to_object());
        proof {
            assert(v.expected@ =~= spec);
        }
        request(UPDATE_QUERY, v, "updateOrganization")
    }

    /// Delete an organization.
    pub fn delete(&self, id: &str) -> (r: GraphQLRequest)
        ensures
            request_is(
                r,
                DELETE_QUERY@,
                Some(field("id"@, Expected::Text(id@))),
                "deleteOrganization"@,
            ),
    {
        let ghost spec = field("id"@, Expected::Text(id@));
        let mut v = ObjectBuilder::new();
        v.put_text("id", id);
        proof {
            assert(v.expected@ =~= spec);
        }
        request(DELETE_QUERY, v, "deleteOrganization")
    }

    /// Configure SSO for an organization.
    pub fn configure_sso(&self, organization_id: &str, input: SsoConfigInput) -> (r: GraphQLRequest)
        ensures
            request_is(
                r,
                CONFIGURE_SSO_QUERY@,
                Some(
                    field("organizationId"@, Expected::Text(organization_id@))
                        + field("input"@, Expected::Obj(input.members())),
                ),
                "configureSSO"@,
            ),
    {
        let ghost spec =
            field("organizationId"@, Expected::Text(organization_id@))
                + field("input"@, Expected::Obj(input.members()));
        let mut v = ObjectBuilder::new();
        v.put_text("organizationId", organization_id);
        v.put_object("input", input.to_object());
        proof {
            assert(v.expected@ =~= spec);
        }
        request(CONFIGURE_SSO_QUERY, v, "configureSSO")
    }

    /// Disable SSO for an organization.
    pub fn disable_sso(&self, organization_id: &str) -> (r: GraphQLRequest)
        ensures
            request_is(
                r,
                DISABLE_SSO_QUERY@,
                Some(field("organizationId"@, Expected::Text(organization_id@))),
                "disableSSO"@,
            ),
    {
        let ghost spec = field("organizationId"@, Expected::Text(organization_id@));
        let mut v = ObjectBuilder::new();
        v.put_text("organizationId", organization_id);
        proof {
            assert(v.expected@ =~= spec);
        }
        request(DISABLE_SSO_QUERY, v, "disableSSO")
    }

    /// Update retention settings.
    pub fn update_retention(
        &self,
        organization_id: &str,
        input: RetentionInput,
    ) -> (r: GraphQLRequest)
        ensures
            request_is(
                r,
                UPDATE_RETENTION_QUERY@,
                Some(
                    field("organizationId"@, Expected::Text(organization_id@))
                        + field("input"@, Expected::Obj(input.members())),
                ),
                "updateOrganizationRetention"@,
            ),
    {
        let ghost spec =
            field("organizationId"@, Expected::Text(organization_id@))
                + field("input"@, Expected::Obj(input.members()));
        let mut v = ObjectBuilder::new();
        v.put_text("organizationId", organization_id);
        v.put_object("input", input.to_object());
        proof {
            assert(v.expected@ =~= spec);
        }
        request(UPDATE_RETENTION_QUERY, v, "updateOrganizationRetention")
    }

    /// Delete an organization's data.
    pub fn delete_data(&self, organization_id: &str) -> (r: GraphQLRequest)
        ensures
            request_is(
                r,
                DELETE_DATA_QUERY@,
                Some(field("organizationId"@, Expected::Text(organization_id@))),
                "deleteOrganizationData"@,
            ),
    {
        let ghost spec = field("organizationId"@, Expected::Text(organization_id@));
        let mut v = ObjectBuilder::new();
        v.put_text("organizationId", organization_id);
        proof {
            assert(v.expected@ =~= spec);
        }
        request(DELETE_DATA_QUERY, v, "deleteOrganizationData")
    }

    /// Export an organization's data. Returns the raw JSON value returned by
    /// the server (shape is product-defined).
    pub fn export_data(&self, organization_id: &str) -> (r: GraphQLRequest)
        ensures
            request_is(
                r,
                EXPORT_DATA_QUERY@,
                Some(field("organizationId"@, Expected::Text(organization_id@))),
                "exportOrganizationData"@,
            ),
    {
        let ghost spec = field("organizationId"@, Expected::Text(organization_id@));
        let mut v = ObjectBuilder::new();
        v.put_text("organizationId", organization_id);
        proof {
            assert(v.expected@ =~= spec);
        }
        request(EXPORT_DATA_QUERY, v, "exportOrganizationData")
    }

    /// Disable OpenTelemetry export.
    pub fn disable_otlp(&self, organization_id: &str) -> (r: GraphQLRequest)
        ensures
            request_is(
                r,
                DISABLE_OTLP_QUERY@,
                Some(field("organizationId"@, Expected::Text(organization_id@))),
                "disableOTLP"@,
            ),
    {
        let ghost spec = field("organizationId"@, Expected::Text(organization_id@));
        let mut v = ObjectBuilder::new();
        v.put_text("organizationId", organization_id);
        proof {
            assert(v.expected@ =~= spec);
        }
        request(DISABLE_OTLP_QUERY, v, "disableOTLP")
    }
}

/// Async variant of the organization service.
pub struct AsyncOrganizationService;

impl AsyncOrganizationService {
    /// List organizations.
    pub fn list(&self, options: ListOrganizationsOptions) -> (r: GraphQLRequest)
        ensures
            request_is(r, LIST_QUERY@, Some(options.members()), "organizations"@),
    {
        OrganizationService.list(options)
    }

    /// Get an organization by ID.
    pub fn get(&self, id: &str) -> (r: GraphQLRequest)
        ensures
            request_is(r, GET_QUERY@, Some(field("id"@, Expected::Text(id@))), "organization"@),
    {
        OrganizationService.get(id)
    }

    /// Create a new organization.
    pub fn create(&self, input: CreateOrganizationInput) -> (r: GraphQLRequest)
        ensures
            request_is(
                r,
                CREATE_QUERY@,
                Some(field("input"@, Expected::Obj(input.members()))),
                "createOrganization"@,
            ),
    {
        OrganizationService.create(input)
    }

    /// Update an organization.
    pub fn update(&self, id: &str, input: UpdateOrganizationInput) -> (r: GraphQLRequest)
        ensures
            request_is(
                r,
                UPDATE_QUERY@,
                Some(
                    field("id"@, Expected::Text(id@))
                        + field("input"@, Expected::Obj(input.members())),
                ),
                "updateOrganization"@,
            ),
    {
        OrganizationService.update(id, input)
    }

    /// Delete an organization.
    pub fn delete(&self, id: &str) -> (r: GraphQLRequest)
        ensures
            request_is(
                r,
                DELETE_QUERY@,
                Some(field("id"@, Expected::Text(id@))),
                "deleteOrganization"@,
            ),
    {
        OrganizationService.delete(id)
    }

    /// Configure SSO for an organization.
    pub fn configure_sso(&self, organization_id: &str, input: SsoConfigInput) -> (r: GraphQLRequest)
        ensures
            request_is(
                r,
                CONFIGURE_SSO_QUERY@,
                Some(
                    field("organizationId"@, Expected::Text(organization_id@))
                        + field("input"@, Expected::Obj(input.members())),
                ),
                "configureSSO"@,
            ),
    {
        OrganizationService.configure_sso(organization_id, input)
    }

    /// Disable SSO for an organization.
    pub fn disable_sso(&self, organization_id: &str) -> (r: GraphQLRequest)
        ensures
            request_is(
                r,
                DISABLE_SSO_QUERY@,
                Some(field("organizationId"@, Expected::Text(organization_id@))),
                "disableSSO"@,
            ),
    {
        OrganizationService.disable_sso(organization_id)
    }

    /// Update retention settings.
    pub fn update_retention(
        &self,
        organization_id: &str,
        input: RetentionInput,
    ) -> (r: GraphQLRequest)
        ensures
            request_is(
                r,
                UPDATE_RETENTION_QUERY@,
                Some(
                    field("organizationId"@, Expected::Text(organization_id@))
                        + field("input"@, Expected::Obj(input.members())),
                ),
                "updateOrganizationRetention"@,
            ),
    {
        OrganizationService.update_retention(organization_id, input)
    }

    /// Delete an organization's data.
    pub fn delete_data(&self, organization_id: &str) -> (r: GraphQLRequest)
        ensures
            request_is(
                r,
                DELETE_DATA_QUERY@,
                Some(field("organizationId"@, Expected::Text(organization_id@))),
                "deleteOrganizationData"@,
            ),
    {
        OrganizationService.delete_data(organization_id)
    }

    /// Export an organization's data. Returns the raw JSON value returned by
    /// the server (shape is product-defined).
    pub fn export_data(&self, organization_id: &str) -> (r: GraphQLRequest)
        ensures
            request_is(
                r,
                EXPORT_DATA_QUERY@,
                Some(field("organizationId"@, Expected::Text(organization_id@))),
                "exportOrganizationData"@,
            ),
    {
        OrganizationService.export_data(organization_id)
    }

    /// Disable OpenTelemetry export.
    pub fn disable_otlp(&self, organization_id: &str) -> (r: GraphQLRequest)
        ensures
            request_is(
                r,
                DISABLE_OTLP_QUERY@,
                Some(field("organizationId"@, Expected::Text(organization_id@))),
                "disableOTLP"@,
            ),
    {
        OrganizationService.disable_otlp(organization_id)
    }
}

/// What [`OrganizationService::list`] sends: each argument, and each field of an
/// options or input argument, under its own camelCase name, holding that
/// value; an absent optional one is left out.
pub proof fn lemma_list_sends_arguments(options: ListOrganizationsOptions, r: GraphQLRequest)
    requires
        request_is(r, LIST_QUERY@, Some(options.members()), "organizations"@),
    ensures
        sent_text(variable(r, "search"@), options.search),
        sent_int(variable(r, "limit"@), options.limit),
        sent_int(variable(r, "offset"@), options.offset),
{
    broadcast use group_lookup;

    reveal_strlit("limit");
    assert("limit"@.len() == 5);
    reveal_strlit("offset");
    assert("offset"@.len() == 6);
    reveal_strlit("search");
    assert("search"@.len() == 6);
    assert("offset"@[0] == 'o');
    assert("search"@[0] == 's');
    let fields = options.members();
    lemma_variable_described(r, LIST_QUERY@, fields, "organizations"@, "search"@);
    lemma_variable_described(r, LIST_QUERY@, fields, "organizations"@, "limit"@);
    lemma_variable_described(r, LIST_QUERY@, fields, "organizations"@, "offset"@);
}

/// What [`OrganizationService::get`] sends: each argument, and each field of an
/// options or input argument, under its own camelCase name, holding that
/// value; an absent optional one is left out.
pub proof fn lemma_get_sends_arguments(id: &str, r: GraphQLRequest)
    requires
        request_is(r, GET_QUERY@, Some(field("id"@, Expected::Text(id@))), "organization"@),
    ensures
        text_of(variable(r, "id"@)) == Some(id@),
{
    broadcast use group_lookup;

    reveal_strlit("id");
    assert("id"@.len() == 2);
    let fields = field("id"@, Expected::Text(id@));
    lemma_variable_described(r, GET_QUERY@, fields, "organization"@, "id"@);
}

/// What [`OrganizationService::create`] sends: each argument, and each field of an
/// options or input argument, under its own camelCase name, holding that
/// value; an absent optional one is left out.
pub proof fn lemma_create_sends_arguments(input: CreateOrganizationInput, r: GraphQLRequest)
    requires
        request_is(
            r,
            CREATE_QUERY@,
            Some(field("input"@, Expected::Obj(input.members()))),
            "createOrganization"@,
        ),
    ensures
        text_of(member_of(variable(r, "input"@), "name"@)) == Some(input.name@),
        text_of(member_of(variable(r, "input"@), "slug"@)) == Some(input.slug@),
{
    broadcast use group_lookup;

    reveal_strlit("input");
    assert("input"@.len() == 5);
    reveal_strlit("name");
    assert("name"@.len() == 4);
    reveal_strlit("slug");
    assert("slug"@.len() == 4);
    assert("name"@[0] == 'n');
    assert("slug"@[0] == 's');
    let fields = field("input"@, Expected::Obj(input.members()));
    lemma_variable_described(r, CREATE_QUERY@, fields, "createOrganization"@, "input"@);
    let input_object = variable(r, "input"@).unwrap();
    assert(input_object is Object);
    lemma_member_described(input_object->Object_0@, input.members(), "name"@);
    lemma_member_described(input_object->Object_0@, input.members(), "slug"@);
}

/// What [`OrganizationService::update`] sends: each argument, and each field of an
/// options or input argument, under its own camelCase name, holding that
/// value; an absent optional one is left out.
pub proof fn lemma_update_sends_arguments(
    id: &str,
    input: UpdateOrganizationInput,
    r: GraphQLRequest,
)
    requires
        request_is(
            r,
            UPDATE_QUERY@,
            Some(
                field("id"@, Expected::Text(id@)) + field("input"@, Expected::Obj(input.members())),
            ),
            "updateOrganization"@,
        ),
    ensures
        text_of(variable(r, "id"@)) == Some(id@),
        sent_text(member_of(variable(r, "input"@), "name"@), input.name),
        sent_text(member_of(variable(r, "input"@), "slug"@), input.slug),
{
    broadcast use group_lookup;

    reveal_strlit("id");
    assert("id"@.len() == 2);
    reveal_strlit("input");
    assert("input"@.len() == 5);
    reveal_strlit("name");
    assert("name"@.len() == 4);
    reveal_strlit("slug");
    assert("slug"@.len() == 4);
    assert("name"@[0] == 'n');
    assert("slug"@[0] == 's');
    let fields = field(
        "id"@,
        Expected::Text(id@)) + field("input"@,
        Expected::Obj(input.members()),
    );
    lemma_variable_described(r, UPDATE_QUERY@, fields, "updateOrganization"@, "id"@);
    lemma_variable_described(r, UPDATE_QUERY@, fields, "updateOrganization"@, "input"@);
    let input_object = variable(r, "input"@).unwrap();
    assert(input_object is Object);
    lemma_member_described(input_object->Object_0@, input.members(), "name"@);
    lemma_member_described(input_object->Object_0@, input.members(), "slug"@);
}

/// What [`OrganizationService::delete`] sends: each argument, and each field of an
/// options or input argument, under its own camelCase name, holding that
/// value; an absent optional one is left out.
pub proof fn lemma_delete_sends_arguments(id: &str, r: GraphQLRequest)
    requires
        request_is(
            r,
            DELETE_QUERY@,
            Some(field("id"@, Expected::Text(id@))),
            "deleteOrganization"@,
        ),
    ensures
        text_of(variable(r, "id"@)) == Some(id@),
{
    broadcast use group_lookup;

    reveal_strlit("id");
    assert("id"@.len() == 2);
    let fields = field("id"@, Expected::Text(id@));
    lemma_variable_described(r, DELETE_QUERY@, fields, "deleteOrganization"@, "id"@);
}

/// What [`OrganizationService::configure_sso`] sends: each argument, and each field of an
/// options or input argument, under its own camelCase name, holding that
/// value; an absent optional one is left out.
pub proof fn lemma_configure_sso_sends_arguments(
    organization_id: &str,
    input: SsoConfigInput,
    r: GraphQLRequest,
)
    requires
        request_is(
            r,
            CONFIGURE_SSO_QUERY@,
            Some(
                field("organizationId"@, Expected::Text(organization_id@))
                    + field("input"@, Expected::Obj(input.members())),
            ),
            "configureSSO"@,
        ),
    ensures
        text_of(variable(r, "organizationId"@)) == Some(organization_id@),
        text_of(member_of(variable(r, "input"@), "provider"@)) == Some(input.provider@),
        sent_text(member_of(variable(r, "input"@), "idpMetadataUrl"@), input.idp_metadata_url),
        sent_text(member_of(variable(r, "input"@), "entityId"@), input.entity_id),
        sent_text(member_of(variable(r, "input"@), "acsBaseUrl"@), input.acs_base_url),
        sent_text(member_of(variable(r, "input"@), "issuer"@), input.issuer),
        sent_text(member_of(variable(r, "input"@), "clientId"@), input.client_id),
        sent_text(member_of(variable(r, "input"@), "clientSecret"@), input.client_secret),
        sent_text(member_of(variable(r, "input"@), "redirectUrl"@), input.redirect_url),
{
    broadcast use group_lookup;

    reveal_strlit("acsBaseUrl");
    assert("acsBaseUrl"@.len() == 10);
    reveal_strlit("clientId");
    assert("clientId"@.len() == 8);
    reveal_strlit("clientSecret");
    assert("clientSecret"@.len() == 12);
    reveal_strlit("entityId");
    assert("entityId"@.len() == 8);
    reveal_strlit("idpMetadataUrl");
    assert("idpMetadataUrl"@.len() == 14);
    reveal_strlit("input");
    assert("input"@.len() == 5);
    reveal_strlit("issuer");
    assert("issuer"@.len() == 6);
    reveal_strlit("organizationId");
    assert("organizationId"@.len() == 14);
    reveal_strlit("provider");
    assert("provider"@.len() == 8);
    reveal_strlit("redirectUrl");
    assert("redirectUrl"@.len() == 11);
    assert("clientId"@[0] == 'c');
    assert("entityId"@[0] == 'e');
    assert("provider"@[0] == 'p');
    assert("idpMetadataUrl"@[0] == 'i');
    assert("organizationId"@[0] == 'o');
    let fields = field(
        "organizationId"@,
        Expected::Text(organization_id@)) + field("input"@,
        Expected::Obj(input.members()),
    );
    lemma_variable_described(r, CONFIGURE_SSO_QUERY@, fields, "configureSSO"@, "organizationId"@);
    lemma_variable_described(r, CONFIGURE_SSO_QUERY@, fields, "configureSSO"@, "input"@);
    let input_object = variable(r, "input"@).unwrap();
    assert(input_object is Object);
    lemma_member_described(input_object->Object_0@, input.members(), "provider"@);
    lemma_member_described(input_object->Object_0@, input.members(), "idpMetadataUrl"@);
    lemma_member_described(input_object->Object_0@, input.members(), "entityId"@);
    lemma_member_described(input_object->Object_0@, input.members(), "acsBaseUrl"@);
    lemma_member_described(input_object->Object_0@, input.members(), "issuer"@);
    lemma_member_described(input_object->Object_0@, input.members(), "clientId"@);
    lemma_member_described(input_object->Object_0@, input.members(), "clientSecret"@);
    lemma_member_described(input_object->Object_0@, input.members(), "redirectUrl"@);
}

/// What [`OrganizationService::disable_sso`] sends: each argument, and each field of an
/// options or input argument, under its own camelCase name, holding that
/// value; an absent optional one is left out.
pub proof fn lemma_disable_sso_sends_arguments(organization_id: &str, r: GraphQLRequest)
    requires
        request_is(
            r,
            DISABLE_SSO_QUERY@,
            Some(field("organizationId"@, Expected::Text(organization_id@))),
            "disableSSO"@,
        ),
    ensures
        text_of(variable(r, "organizationId"@)) == Some(organization_id@),
{
    broadcast use group_lookup;

    reveal_strlit("organizationId");
    assert("organizationId"@.len() == 14);
    let fields = field("organizationId"@, Expected::Text(organization_id@));
    lemma_variable_described(r, DISABLE_SSO_QUERY@, fields, "disableSSO"@, "organizationId"@);
}

/// What [`OrganizationService::update_retention`] sends: each argument, and each field of an
/// options or input argument, under its own camelCase name, holding that
/// value; an absent optional one is left out.
pub proof fn lemma_update_retention_sends_arguments(
    organization_id: &str,
    input: RetentionInput,
    r: GraphQLRequest,
)
    requires
        request_is(
            r,
            UPDATE_RETENTION_QUERY@,
            Some(
                field("organizationId"@, Expected::Text(organization_id@))
                    + field("input"@, Expected::Obj(input.members())),
            ),
            "updateOrganizationRetention"@,
        ),
    ensures
        text_of(variable(r, "organizationId"@)) == Some(organization_id@),
        number_is(member_of(variable(r, "input"@), "retentionEvents"@), input.retention_events as int),
        number_is(member_of(variable(r, "input"@), "retentionMessages"@), input.retention_messages as int),
{
    broadcast use group_lookup;

    reveal_strlit("input");
    assert("input"@.len() == 5);
    reveal_strlit("organizationId");
    assert("organizationId"@.len() == 14);
    reveal_strlit("retentionEvents");
    assert("retentionEvents"@.len() == 15);
    reveal_strlit("retentionMessages");
    assert("retentionMessages"@.len() == 17);
    let fields = field(
        "organizationId"@,
        Expected::Text(organization_id@)) + field("input"@,
        Expected::Obj(input.members()),
    );
    lemma_variable_described(
        r,
        UPDATE_RETENTION_QUERY@,
        fields,
        "updateOrganizationRetention"@,
        "organizationId"@,
    );
    lemma_variable_described(
        r,
        UPDATE_RETENTION_QUERY@,
        fields,
        "updateOrganizationRetention"@,
        "input"@,
    );
    let input_object = variable(r, "input"@).unwrap();
    assert(input_object is Object);
    lemma_member_described(input_object->Object_0@, input.members(), "retentionEvents"@);
    lemma_member_described(input_object->Object_0@, input.members(), "retentionMessages"@);
}

/// What [`OrganizationService::delete_data`] sends: each argument, and each field of an
/// options or input argument, under its own camelCase name, holding that
/// value; an absent optional one is left out.
pub proof fn lemma_delete_data_sends_arguments(organization_id: &str, r: GraphQLRequest)
    requires
        request_is(
            r,
            DELETE_DATA_QUERY@,
            Some(field("organizationId"@, Expected::Text(organization_id@))),
            "deleteOrganizationData"@,
        ),
    ensures
        text_of(variable(r, "organizationId"@)) == Some(organization_id@),
{
    broadcast use group_lookup;

    reveal_strlit("organizationId");
    assert("organizationId"@.len() == 14);
    let fields = field("organizationId"@, Expected::Text(organization_id@));
    lemma_variable_described(
        r,
        DELETE_DATA_QUERY@,
        fields,
        "deleteOrganizationData"@,
        "organizationId"@,
    );
}

/// What [`OrganizationService::export_data`] sends: each argument, and each field of an
/// options or input argument, under its own camelCase name, holding that
/// value; an absent optional one is left out.
pub proof fn lemma_export_data_sends_arguments(organization_id: &str, r: GraphQLRequest)
    requires
        request_is(
            r,
            EXPORT_DATA_QUERY@,
            Some(field("organizationId"@, Expected::Text(organization_id@))),
            "exportOrganizationData"@,
        ),
    ensures
        text_of(variable(r, "organizationId"@)) == Some(organization_id@),
{
    broadcast use group_lookup;

    reveal_strlit("organizationId");
    assert("organizationId"@.len() == 14);
    let fields = field("organizationId"@, Expected::Text(organization_id@));
    lemma_variable_described(
        r,
        EXPORT_DATA_QUERY@,
        fields,
        "exportOrganizationData"@,
        "organizationId"@,
    );
}

/// What [`OrganizationService::disable_otlp`] sends: each argument, and each field of an
/// options or input argument, under its own camelCase name, holding that
/// value; an absent optional one is left out.
pub proof fn lemma_disable_otlp_sends_arguments(organization_id: &str, r: GraphQLRequest)
    requires
        request_is(
            r,
            DISABLE_OTLP_QUERY@,
            Some(field("organizationId"@, Expected::Text(organization_id@))),
            "disableOTLP"@,
        ),
    ensures
        text_of(variable(r, "organizationId"@)) == Some(organization_id@),
{
    broadcast use group_lookup;

    reveal_strlit("organizationId");
    assert("organizationId"@.len() == 14);
    let fields = field("organizationId"@, Expected::Text(organization_id@));
    lemma_variable_described(r, DISABLE_OTLP_QUERY@, fields, "disableOTLP"@, "organizationId"@);
}

} // verus!
