//! Subscriptions resource: source-to-destination wiring.

use crate::json::Json;
use crate::request::{
    Expected, ObjectBuilder, GraphQLRequest, request, field, opt_text, opt_int, opt_flag, request_is, group_lookup, lemma_variable_described, variable, text_of, sent_text, sent_int, sent_flag, lemma_member_described, member_of,
};
use crate::types::{FilterConfig, TransformConfig};
use vstd::prelude::*;

verus! {

broadcast use vstd::string::group_string_axioms;

/// Options for the `list` method on the subscription service.
#[derive(Debug, Default, Clone)]
#[non_exhaustive]
pub struct ListSubscriptionsOptions {
    /// Filter by source ID.
    pub source_id: Option<String>,
    /// Filter by destination ID.
    pub destination_id: Option<String>,
    /// Filter by enabled state.
    pub enabled: Option<bool>,
    /// Free-text search.
    pub search: Option<String>,
    /// Offset-based page size.
    pub limit: Option<i32>,
    /// Offset-based page offset.
    pub offset: Option<i32>,
    /// Cursor for cursor-based pagination.
    pub after: Option<String>,
    /// Page size for cursor-based pagination.
    pub first: Option<i32>,
}

impl ListSubscriptionsOptions {
    /// The members of the variables object these options are sent as:
    /// camelCase names, absent options left out.
    pub open spec fn members(self) -> Seq<(Seq<char>, Expected)> {
        opt_text("sourceId"@, self.source_id)
            + opt_text("destinationId"@, self.destination_id)
            + opt_flag("enabled"@, self.enabled)
            + opt_text("search"@, self.search)
            + opt_int("limit"@, self.limit)
            + opt_int("offset"@, self.offset)
            + opt_text("after"@, self.after)
            + opt_int("first"@, self.first)
    }
}

/// Input shape for `create` on the subscription service.
#[derive(Debug, Default, Clone)]
#[non_exhaustive]
pub struct CreateSubscriptionInput {
    /// Human-readable name.
    pub name: String,
    /// Source identifier.
    pub source_id: String,
    /// Destination identifier.
    pub destination_id: String,
    /// Optional filter configuration.
    pub filter_config: Option<FilterConfig>,
    /// Optional transformation configuration.
    pub transform_config: Option<TransformConfig>,
    /// Whether the subscription should start enabled.
    pub enabled: bool,
}

impl CreateSubscriptionInput {
    /// The members of the JSON object this input is sent as: camelCase
    /// names, optional fields left out when absent.
    pub open spec fn members(self) -> Seq<(Seq<char>, Expected)> {
        field("name"@, Expected::Text(self.name@))
            + field("sourceId"@, Expected::Text(self.source_id@))
            + field("destinationId"@, Expected::Text(self.destination_id@))
            + (match self.filter_config {
                Some(c) => field("filterConfig"@, Expected::Obj(c.members())),
                None => Seq::empty(),
            })
            + (match self.transform_config {
                Some(c) => field("transformConfig"@, Expected::Obj(c.members())),
                None => Seq::empty(),
            })
            + field("enabled"@, Expected::Flag(self.enabled))
    }

    /// The JSON object this input is sent as.
    pub fn to_object(self) -> (b: ObjectBuilder)
        ensures
            b.wf(),
            b.expected@ == self.members(),
    {
        let ghost spec = self.members();
        let mut b = ObjectBuilder::new();
        b.put_string("name", self.name);
        b.put_string("sourceId", self.source_id);
        b.put_string("destinationId", self.destination_id);
        match self.filter_config {
            Some(c) => {
                b.put_object("filterConfig", c.to_object());
            },
            None => {},
        }
        match self.transform_config {
            Some(c) => {
                b.put_object("transformConfig", c.to_object());
            },
            None => {},
        }
        b.put_flag("enabled", self.enabled);
        assert(b.expected@ =~= spec);
        b
    }
}

/// Input shape for `update` on the subscription service.
#[derive(Debug, Default, Clone)]
#[non_exhaustive]
pub struct UpdateSubscriptionInput {
    /// New name.
    pub name: Option<String>,
    /// New enabled state.
    pub enabled: Option<bool>,
    /// New filter configuration.
    pub filter_config: Option<FilterConfig>,
    /// New transformation configuration.
    pub transform_config: Option<TransformConfig>,
}

impl UpdateSubscriptionInput {
    /// The members of the JSON object this input is sent as: camelCase
    /// names, optional fields left out when absent.
    pub open spec fn members(self) -> Seq<(Seq<char>, Expected)> {
        opt_text("name"@, self.name)
            + opt_flag("enabled"@, self.enabled)
            + (match self.filter_config {
                Some(c) => field("filterConfig"@, Expected::Obj(c.members())),
                None => Seq::empty(),
            })
            + (match self.transform_config {
                Some(c) => field("transformConfig"@, Expected::Obj(c.members())),
                None => Seq::empty(),
            })
    }

    /// The JSON object this input is sent as.
    pub fn to_object(self) -> (b: ObjectBuilder)
        ensures
            b.wf(),
            b.expected@ == self.members(),
    {
        let ghost spec = self.members();
        let mut b = ObjectBuilder::new();
        b.put_opt_text("name", self.name);
        b.put_opt_flag("enabled", self.enabled);
        match self.filter_config {
            Some(c) => {
                b.put_object("filterConfig", c.to_object());
            },
            None => {},
        }
        match self.transform_config {
            Some(c) => {
                b.put_object("transformConfig", c.to_object());
            },
            None => {},
        }
        assert(b.expected@ =~= spec);
        b
    }
}

/// The GraphQL document of `SubscriptionService::list`.
pub const LIST_QUERY: &'static str = "query($sourceId: UUID, $destinationId: UUID, $enabled: Boolean, $search: String, $limit: Int, $offset: Int, $after: String, $first: Int) {\n                subscriptions(sourceId: $sourceId, destinationId: $destinationId, enabled: $enabled, search: $search, limit: $limit, offset: $offset, after: $after, first: $first) {\n                    nodes { id name sourceId destinationId filterConfig { eventTypes regex bodyMatch { path value operator } rules { path operator value rules { path operator value } } } transformConfig { envelope headers } enabled createdAt }\n                    pageInfo { total limit offset endCursor hasNextPage }\n                }\n            }";

/// The GraphQL document of `SubscriptionService::get`.
pub const GET_QUERY: &'static str = "query($id: UUID!) { subscription(id: $id) { id name sourceId destinationId filterConfig { eventTypes regex bodyMatch { path value operator } rules { path operator value rules { path operator value } } } transformConfig { envelope headers } enabled createdAt } }";

/// The GraphQL document of `SubscriptionService::create`.
pub const CREATE_QUERY: &'static str = "mutation($input: CreateSubscriptionInput!) { createSubscription(input: $input) { id name sourceId destinationId filterConfig { eventTypes regex bodyMatch { path value operator } rules { path operator value rules { path operator value } } } transformConfig { envelope headers } enabled createdAt } }";

/// The GraphQL document of `SubscriptionService::update`.
pub const UPDATE_QUERY: &'static str = "mutation($id: UUID!, $input: UpdateSubscriptionInput!) { updateSubscription(id: $id, input: $input) { id name sourceId destinationId filterConfig { eventTypes regex bodyMatch { path value operator } rules { path operator value rules { path operator value } } } transformConfig { envelope headers } enabled createdAt } }";

/// The GraphQL document of `SubscriptionService::delete`.
pub const DELETE_QUERY: &'static str = "mutation($id: UUID!) { deleteSubscription(id: $id) }";

/// Blocking variant of the subscription service.
pub struct SubscriptionService;

impl SubscriptionService {
    /// List subscriptions.
    pub fn list(&self, options: ListSubscriptionsOptions) -> (r: GraphQLRequest)
        ensures
            request_is(r, LIST_QUERY@, Some(options.members()), "subscriptions"@),
    {
        let ghost spec = options.members();
        let mut v = ObjectBuilder::new();
        v.put_opt_text("sourceId", options.source_id);
        v.put_opt_text("destinationId", options.destination_id);
        v.put_opt_flag("enabled", options.enabled);
        v.put_opt_text("search", options.search);
        v.put_opt_int("limit", options.limit);
        v.put_opt_int("offset", options.offset);
        v.put_opt_text("after", options.after);
        v.put_opt_int("first", options.first);
        proof {
            assert(v.expected@ =~= spec);
        }
        request(LIST_QUERY, v, "subscriptions")
    }

    /// Get a subscription by ID.
    pub fn get(&self, id: &str) -> (r: GraphQLRequest)
        ensures
            request_is(r, GET_QUERY@, Some(field("id"@, Expected::Text(id@))), "subscription"@),
    {
        let ghost spec = field("id"@, Expected::Text(id@));
        let mut v = ObjectBuilder::new();
        v.put_text("id", id);
        proof {
            assert(v.expected@ =~= spec);
        }
        request(GET_QUERY, v, "subscription")
    }

    /// Create a new subscription.
    pub fn create(&self, input: CreateSubscriptionInput) -> (r: GraphQLRequest)
        ensures
            request_is(
                r,
                CREATE_QUERY@,
                Some(field("input"@, Expected::Obj(input.members()))),
                "createSubscription"@,
            ),
    {
        let ghost spec = field("input"@, Expected::Obj(input.members()));
        let mut v = ObjectBuilder::new();
        v.put_object("input", input.to_object());
        proof {
            assert(v.expected@ =~= spec);
        }
        request(CREATE_QUERY, v, "createSubscription")
    }

    /// Update an existing subscription.
    pub fn update(&self, id: &str, input: UpdateSubscriptionInput) -> (r: GraphQLRequest)
        ensures
            request_is(
                r,
                UPDATE_QUERY@,
                Some(
                    field("id"@, Expected::Text(id@))
                        + field("input"@, Expected::Obj(input.members())),
                ),
                "updateSubscription"@,
            ),
    {
        let ghost spec =
            field("id"@, Expected::Text(id@)) + field("input"@, Expected::Obj(input.members()));
        let mut v = ObjectBuilder::new();
        v.put_text("id", id);
        v.put_object("input", input.to_object());
        proof {
            assert(v.expected@ =~= spec);
        }
        request(UPDATE_QUERY, v, "updateSubscription")
    }

    /// Delete a subscription.
    pub fn delete(&self, id: &str) -> (r: GraphQLRequest)
        ensures
            request_is(
                r,
                DELETE_QUERY@,
                Some(field("id"@, Expected::Text(id@))),
                "deleteSubscription"@,
            ),
    {
        let ghost spec = field("id"@, Expected::Text(id@));
        let mut v = ObjectBuilder::new();
        v.put_text("id", id);
        proof {
            assert(v.expected@ =~= spec);
        }
        request(DELETE_QUERY, v, "deleteSubscription")
    }
}

/// Async variant of the subscription service.
pub struct AsyncSubscriptionService;

impl AsyncSubscriptionService {
    /// List subscriptions.
    pub fn list(&self, options: ListSubscriptionsOptions) -> (r: GraphQLRequest)
        ensures
            request_is(r, LIST_QUERY@, Some(options.members()), "subscriptions"@),
    {
        SubscriptionService.list(options)
    }

    /// Get a subscription by ID.
    pub fn get(&self, id: &str) -> (r: GraphQLRequest)
        ensures
            request_is(r, GET_QUERY@, Some(field("id"@, Expected::Text(id@))), "subscription"@),
    {
        SubscriptionService.get(id)
    }

    /// Create a new subscription.
    pub fn create(&self, input: CreateSubscriptionInput) -> (r: GraphQLRequest)
        ensures
            request_is(
                r,
                CREATE_QUERY@,
                Some(field("input"@, Expected::Obj(input.members()))),
                "createSubscription"@,
            ),
    {
        SubscriptionService.create(input)
    }

    /// Update an existing subscription.
    pub fn update(&self, id: &str, input: UpdateSubscriptionInput) -> (r: GraphQLRequest)
        ensures
            request_is(
                r,
                UPDATE_QUERY@,
                Some(
                    field("id"@, Expected::Text(id@))
                        + field("input"@, Expected::Obj(input.members())),
                ),
                "updateSubscription"@,
            ),
    {
        SubscriptionService.update(id, input)
    }

    /// Delete a subscription.
    pub fn delete(&self, id: &str) -> (r: GraphQLRequest)
        ensures
            request_is(
                r,
                DELETE_QUERY@,
                Some(field("id"@, Expected::Text(id@))),
                "deleteSubscription"@,
            ),
    {
        SubscriptionService.delete(id)
    }
}

/// What [`SubscriptionService::list`] sends: each argument, and each field of an
/// options or input argument, under its own camelCase name, holding that
/// value; an absent optional one is left out.
pub proof fn lemma_list_sends_arguments(options: ListSubscriptionsOptions, r: GraphQLRequest)
    requires
        request_is(r, LIST_QUERY@, Some(options.members()), "subscriptions"@),
    ensures
        sent_text(variable(r, "sourceId"@), options.source_id),
        sent_text(variable(r, "destinationId"@), options.destination_id),
        sent_flag(variable(r, "enabled"@), options.enabled),
        sent_text(variable(r, "search"@), options.search),
        sent_int(variable(r, "limit"@), options.limit),
        sent_int(variable(r, "offset"@), options.offset),
        sent_text(variable(r, "after"@), options.after),
        sent_int(variable(r, "first"@), options.first),
{
    broadcast use group_lookup;

    reveal_strlit("after");
    assert("after"@.len() == 5);
    reveal_strlit("destinationId");
    assert("destinationId"@.len() == 13);
    reveal_strlit("enabled");
    assert("enabled"@.len() == 7);
    reveal_strlit("first");
    assert("first"@.len() == 5);
    reveal_strlit("limit");
    assert("limit"@.len() == 5);
    reveal_strlit("offset");
    assert("offset"@.len() == 6);
    reveal_strlit("search");
    assert("search"@.len() == 6);
    reveal_strlit("sourceId");
    assert("sourceId"@.len() == 8);
    assert("after"@[0] == 'a');
    assert("first"@[0] == 'f');
    assert("limit"@[0] == 'l');
    assert("offset"@[0] == 'o');
    assert("search"@[0] == 's');
    let fields = options.members();
    lemma_variable_described(r, LIST_QUERY@, fields, "subscriptions"@, "sourceId"@);
    lemma_variable_described(r, LIST_QUERY@, fields, "subscriptions"@, "destinationId"@);
    lemma_variable_described(r, LIST_QUERY@, fields, "subscriptions"@, "enabled"@);
    lemma_variable_described(r, LIST_QUERY@, fields, "subscriptions"@, "search"@);
    lemma_variable_described(r, LIST_QUERY@, fields, "subscriptions"@, "limit"@);
    lemma_variable_described(r, LIST_QUERY@, fields, "subscriptions"@, "offset"@);
    lemma_variable_described(r, LIST_QUERY@, fields, "subscriptions"@, "after"@);
    lemma_variable_described(r, LIST_QUERY@, fields, "subscriptions"@, "first"@);
}

/// What [`SubscriptionService::get`] sends: each argument, and each field of an
/// options or input argument, under its own camelCase name, holding that
/// value; an absent optional one is left out.
pub proof fn lemma_get_sends_arguments(id: &str, r: GraphQLRequest)
    requires
        request_is(r, GET_QUERY@, Some(field("id"@, Expected::Text(id@))), "subscription"@),
    ensures
        text_of(variable(r, "id"@)) == Some(id@),
{
    broadcast use group_lookup;

    reveal_strlit("id");
    assert("id"@.len() == 2);
    let fields = field("id"@, Expected::Text(id@));
    lemma_variable_described(r, GET_QUERY@, fields, "subscription"@, "id"@);
}

/// What [`SubscriptionService::create`] sends: each argument, and each field of an
/// options or input argument, under its own camelCase name, holding that
/// value; an absent optional one is left out.
pub proof fn lemma_create_sends_arguments(input: CreateSubscriptionInput, r: GraphQLRequest)
    requires
        request_is(
            r,
            CREATE_QUERY@,
            Some(field("input"@, Expected::Obj(input.members()))),
            "createSubscription"@,
        ),
    ensures
        text_of(member_of(variable(r, "input"@), "name"@)) == Some(input.name@),
        text_of(member_of(variable(r, "input"@), "sourceId"@)) == Some(input.source_id@),
        text_of(member_of(variable(r, "input"@), "destinationId"@)) == Some(input.destination_id@),
        member_of(variable(r, "input"@), "enabled"@) == Some(Json::Bool(input.enabled)),
{
    broadcast use group_lookup;

    reveal_strlit("destinationId");
    assert("destinationId"@.len() == 13);
    reveal_strlit("enabled");
    assert("enabled"@.len() == 7);
    reveal_strlit("filterConfig");
    assert("filterConfig"@.len() == 12);
    reveal_strlit("input");
    assert("input"@.len() == 5);
    reveal_strlit("name");
    assert("name"@.len() == 4);
    reveal_strlit("sourceId");
    assert("sourceId"@.len() == 8);
    reveal_strlit("transformConfig");
    assert("transformConfig"@.len() == 15);
    let fields = field("input"@, Expected::Obj(input.members()));
    lemma_variable_described(r, CREATE_QUERY@, fields, "createSubscription"@, "input"@);
    let input_object = variable(r, "input"@).unwrap();
    assert(input_object is Object);
    lemma_member_described(input_object->Object_0@, input.members(), "name"@);
    lemma_member_described(input_object->Object_0@, input.members(), "sourceId"@);
    lemma_member_described(input_object->Object_0@, input.members(), "destinationId"@);
    lemma_member_described(input_object->Object_0@, input.members(), "enabled"@);
}

/// What [`SubscriptionService::update`] sends: each argument, and each field of an
/// options or input argument, under its own camelCase name, holding that
/// value; an absent optional one is left out.
pub proof fn lemma_update_sends_arguments(
    id: &str,
    input: UpdateSubscriptionInput,
    r: GraphQLRequest,
)
    requires
        request_is(
            r,
            UPDATE_QUERY@,
            Some(
                field("id"@, Expected::Text(id@)) + field("input"@, Expected::Obj(input.members())),
            ),
            "updateSubscription"@,
        ),
    ensures
        text_of(variable(r, "id"@)) == Some(id@),
        sent_text(member_of(variable(r, "input"@), "name"@), input.name),
        sent_flag(member_of(variable(r, "input"@), "enabled"@), input.enabled),
{
    broadcast use group_lookup;

    reveal_strlit("enabled");
    assert("enabled"@.len() == 7);
    reveal_strlit("filterConfig");
    assert("filterConfig"@.len() == 12);
    reveal_strlit("id");
    assert("id"@.len() == 2);
    reveal_strlit("input");
    assert("input"@.len() == 5);
    reveal_strlit("name");
    assert("name"@.len() == 4);
    reveal_strlit("transformConfig");
    assert("transformConfig"@.len() == 15);
    let fields = field(
        "id"@,
        Expected::Text(id@)) + field("input"@,
        Expected::Obj(input.members()),
    );
    lemma_variable_described(r, UPDATE_QUERY@, fields, "updateSubscription"@, "id"@);
    lemma_variable_described(r, UPDATE_QUERY@, fields, "updateSubscription"@, "input"@);
    let input_object = variable(r, "input"@).unwrap();
    assert(input_object is Object);
    lemma_member_described(input_object->Object_0@, input.members(), "name"@);
    lemma_member_described(input_object->Object_0@, input.members(), "enabled"@);
}

/// What [`SubscriptionService::delete`] sends: each argument, and each field of an
/// options or input argument, under its own camelCase name, holding that
/// value; an absent optional one is left out.
pub proof fn lemma_delete_sends_arguments(id: &str, r: GraphQLRequest)
    requires
        request_is(
            r,
            DELETE_QUERY@,
            Some(field("id"@, Expected::Text(id@))),
            "deleteSubscription"@,
        ),
    ensures
        text_of(variable(r, "id"@)) == Some(id@),
{
    broadcast use group_lookup;

    reveal_strlit("id");
    assert("id"@.len() == 2);
    let fields = field("id"@, Expected::Text(id@));
    lemma_variable_described(r, DELETE_QUERY@, fields, "deleteSubscription"@, "id"@);
}

} // verus!
