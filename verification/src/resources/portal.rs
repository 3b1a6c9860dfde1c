//! Portal token issuance.

use crate::request::{
    Expected, ObjectBuilder, GraphQLRequest, request, field, request_is, group_lookup, lemma_variable_described, variable, text_of,
};
use vstd::prelude::*;

verus! {

broadcast use vstd::string::group_string_axioms;

/// The GraphQL document of `PortalService::generate_token`.
pub const GENERATE_TOKEN_QUERY: &'static str = "mutation($applicationId: UUID!) { generatePortalToken(applicationId: $applicationId) { token expiresAt } }";

/// Service for issuing portal access tokens.
pub struct PortalService;

impl PortalService {
    /// Generate a short-lived portal token scoped to a single application.
    pub fn generate_token(&self, application_id: &str) -> (r: GraphQLRequest)
        ensures
            request_is(
                r,
                GENERATE_TOKEN_QUERY@,
                Some(field("applicationId"@, Expected::Text(application_id@))),
                "generatePortalToken"@,
            ),
    {
        let ghost spec = field("applicationId"@, Expected::Text(application_id@));
        let mut v = ObjectBuilder::new();
        v.put_text("applicationId", application_id);
        proof {
            assert(v.expected@ =~= spec);
        }
        request(GENERATE_TOKEN_QUERY, v, "generatePortalToken")
    }
}

/// Async variant of the portal service.
pub struct AsyncPortalService;

impl AsyncPortalService {
    /// Generate a short-lived portal token scoped to a single application.
    pub fn generate_token(&self, application_id: &str) -> (r: GraphQLRequest)
        ensures
            request_is(
                r,
                GENERATE_TOKEN_QUERY@,
                Some(field("applicationId"@, Expected::Text(application_id@))),
                "generatePortalToken"@,
            ),
    {
        PortalService.generate_token(application_id)
    }
}

/// What [`PortalService::generate_token`] sends: each argument, and each field of an
/// options or input argument, under its own camelCase name, holding that
/// value; an absent optional one is left out.
pub proof fn lemma_generate_token_sends_arguments(application_id: &str, r: GraphQLRequest)
    requires
        request_is(
            r,
            GENERATE_TOKEN_QUERY@,
            Some(field("applicationId"@, Expected::Text(application_id@))),
            "generatePortalToken"@,
        ),
    ensures
        text_of(variable(r, "applicationId"@)) == Some(application_id@),
{
    broadcast use group_lookup;

    reveal_strlit("applicationId");
    assert("applicationId"@.len() == 13);
    let fields = field("applicationId"@, Expected::Text(application_id@));
    lemma_variable_described(
        r,
        GENERATE_TOKEN_QUERY@,
        fields,
        "generatePortalToken"@,
        "applicationId"@,
    );
}

} // verus!
