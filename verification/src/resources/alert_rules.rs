//! Alert-rule management.

use crate::json::Json;
use crate::request::{
    Expected, ObjectBuilder, GraphQLRequest, request, field, opt_text, opt_int, opt_flag, request_is, group_lookup, lemma_variable_described, variable, text_of, sent_text, sent_int, sent_flag, lemma_member_described, member_of, number_is,
};
use crate::types::{EmailAlertConfig, SlackAlertConfig};
use vstd::prelude::*;

verus! {

broadcast use vstd::string::group_string_axioms;

/// Options for [`AlertRuleService::list`].
#[derive(Debug, Default, Clone)]
#[non_exhaustive]
pub struct ListAlertRulesOptions {
    /// Filter by enabled state.
    pub enabled: Option<bool>,
    /// Free-text search.
    pub search: Option<String>,
    /// Offset-based page size.
    pub limit: Option<i32>,
    /// Offset-based page offset.
    pub offset: Option<i32>,
    /// Cursor for cursor-based pagination.
    pub after: Option<String>,
    /// Page size for cursor-based pagination.
    pub first: Option<i32>,
}

impl ListAlertRulesOptions {
    /// The members of the variables object these options are sent as:
    /// camelCase names, absent options left out.
    pub open spec fn members(self) -> Seq<(Seq<char>, Expected)> {
        opt_flag("enabled"@, self.enabled)
            + opt_text("search"@, self.search)
            + opt_int("limit"@, self.limit)
            + opt_int("offset"@, self.offset)
            + opt_text("after"@, self.after)
            + opt_int("first"@, self.first)
    }
}

/// Input shape for `AlertRuleService::create`.
#[derive(Debug, Default, Clone)]
#[non_exhaustive]
pub struct CreateAlertRuleInput {
    /// Human-readable name.
    pub name: String,
    /// Type of condition that triggers the alert.
    pub condition_type: String,
    /// Numeric threshold.
    pub threshold: i32,
    /// Cooldown between firings (Go duration).
    pub cooldown: String,
    /// Whether the rule starts enabled.
    pub enabled: bool,
    /// Webhook URL for the `WEBHOOK` channel.
    pub webhook_url: Option<String>,
    /// Output channel (`WEBHOOK`, `EMAIL`, `SLACK`).
    pub channel: Option<String>,
    /// Email channel configuration.
    pub email_config: Option<EmailAlertConfig>,
    /// Slack channel configuration.
    pub slack_config: Option<SlackAlertConfig>,
}

impl CreateAlertRuleInput {
    /// The members of the JSON object this input is sent as: camelCase
    /// names, optional fields left out when absent.
    pub open spec fn members(self) -> Seq<(Seq<char>, Expected)> {
        field("name"@, Expected::Text(self.name@))
            + field("conditionType"@, Expected::Text(self.condition_type@))
            + field("threshold"@, Expected::Int(self.threshold as int))
            + field("cooldown"@, Expected::Text(self.cooldown@))
            + field("enabled"@, Expected::Flag(self.enabled))
            + opt_text("webhookUrl"@, self.webhook_url)
            + opt_text("channel"@, self.channel)
            + (match self.email_config {
                Some(c) => field("emailConfig"@, Expected::Obj(c.members())),
                None => Seq::empty(),
            })
            + (match self.slack_config {
                Some(c) => field("slackConfig"@, Expected::Obj(c.members())),
                None => Seq::empty(),
            })
    }

    /// The JSON object this input is sent as.
    pub fn to_object(self) -> (b: ObjectBuilder)
        ensures
            b.wf(),
            b.expected@ == self.members(),
    {
        let ghost spec = self.members();
        let mut b = ObjectBuilder::new();
        b.put_string("name", self.name);
        b.put_string("conditionType", self.condition_type);
        b.put_int("threshold", self.threshold as i64);
        b.put_string("cooldown", self.cooldown);
        b.put_flag("enabled", self.enabled);
        b.put_opt_text("webhookUrl", self.webhook_url);
        b.put_opt_text("channel", self.channel);
        match self.email_config {
            Some(c) => {
                b.put_object("emailConfig", c.to_object());
            },
            None => {},
        }
        match self.slack_config {
            Some(c) => {
                b.put_object("slackConfig", c.to_object());
            },
            None => {},
        }
        assert(b.expected@ =~= spec);
        b
    }
}

/// Input shape for `AlertRuleService::update`.
#[derive(Debug, Default, Clone)]
#[non_exhaustive]
pub struct UpdateAlertRuleInput {
    /// New name.
    pub name: Option<String>,
    /// New condition type.
    pub condition_type: Option<String>,
    /// New threshold.
    pub threshold: Option<i32>,
    /// New webhook URL.
    pub webhook_url: Option<String>,
    /// New channel.
    pub channel: Option<String>,
    /// New email config.
    pub email_config: Option<EmailAlertConfig>,
    /// New slack config.
    pub slack_config: Option<SlackAlertConfig>,
    /// New cooldown.
    pub cooldown: Option<String>,
    /// New enabled state.
    pub enabled: Option<bool>,
}

impl UpdateAlertRuleInput {
    /// The members of the JSON object this input is sent as: camelCase
    /// names, optional fields left out when absent.
    pub open spec fn members(self) -> Seq<(Seq<char>, Expected)> {
        opt_text("name"@, self.name)
            + opt_text("conditionType"@, self.condition_type)
            + opt_int("threshold"@, self.threshold)
            + opt_text("webhookUrl"@, self.webhook_url)
            + opt_text("channel"@, self.channel)
            + (match self.email_config {
                Some(c) => field("emailConfig"@, Expected::Obj(c.members())),
                None => Seq::empty(),
            })
            + (match self.slack_config {
                Some(c) => field("slackConfig"@, Expected::Obj(c.members())),
                None => Seq::empty(),
            })
            + opt_text("cooldown"@, self.cooldown)
            + opt_flag("enabled"@, self.enabled)
    }

    /// The JSON object this input is sent as.
    pub fn to_object(self) -> (b: ObjectBuilder)
        ensures
            b.wf(),
            b.expected@ == self.members(),
    {
        let ghost spec = self.members();
        let mut b = ObjectBuilder::new();
        b.put_opt_text("name", self.name);
        b.put_opt_text("conditionType", self.condition_type);
        b.put_opt_int("threshold", self.threshold);
        b.put_opt_text("webhookUrl", self.webhook_url);
        b.put_opt_text("channel", self.channel);
        match self.email_config {
            Some(c) => {
                b.put_object("emailConfig", c.to_object());
            },
            None => {},
        }
        match self.slack_config {
            Some(c) => {
                b.put_object("slackConfig", c.to_object());
            },
            None => {},
        }
        b.put_opt_text("cooldown", self.cooldown);
        b.put_opt_flag("enabled", self.enabled);
        assert(b.expected@ =~= spec);
        b
    }
}

/// The GraphQL document of `AlertRuleService::list`.
pub const LIST_QUERY: &'static str = "query($enabled: Boolean, $search: String, $limit: Int, $offset: Int, $after: String, $first: Int) {\n                alertRules(enabled: $enabled, search: $search, limit: $limit, offset: $offset, after: $after, first: $first) {\n                    nodes { id name conditionType threshold webhookUrl channel emailConfig { to subjectTemplate } slackConfig { webhookUrl channel } cooldown enabled createdAt }\n                    pageInfo { total limit offset endCursor hasNextPage }\n                }\n            }";

/// The GraphQL document of `AlertRuleService::get`.
pub const GET_QUERY: &'static str = "query($id: UUID!) { alertRule(id: $id) { id name conditionType threshold webhookUrl channel emailConfig { to subjectTemplate } slackConfig { webhookUrl channel } cooldown enabled createdAt } }";

/// The GraphQL document of `AlertRuleService::create`.
pub const CREATE_QUERY: &'static str = "mutation($input: CreateAlertRuleInput!) { createAlertRule(input: $input) { id name conditionType threshold webhookUrl channel emailConfig { to subjectTemplate } slackConfig { webhookUrl channel } cooldown enabled createdAt } }";

/// The GraphQL document of `AlertRuleService::update`.
pub const UPDATE_QUERY: &'static str = "mutation($id: UUID!, $input: UpdateAlertRuleInput!) { updateAlertRule(id: $id, input: $input) { id name conditionType threshold webhookUrl channel emailConfig { to subjectTemplate } slackConfig { webhookUrl channel } cooldown enabled createdAt } }";

/// The GraphQL document of `AlertRuleService::delete`.
pub const DELETE_QUERY: &'static str = "mutation($id: UUID!) { deleteAlertRule(id: $id) }";

/// The GraphQL document of `AlertRuleService::test`.
pub const TEST_QUERY: &'static str = "mutation($id: UUID!) { testAlertRule(id: $id) }";

/// Service for managing [`AlertRule`] resources.
pub struct AlertRuleService;

impl AlertRuleService {
    /// List alert rules.
    pub fn list(&self, options: ListAlertRulesOptions) -> (r: GraphQLRequest)
        ensures
            request_is(r, LIST_QUERY@, Some(options.members()), "alertRules"@),
    {
        let ghost spec = options.members();
        let mut v = ObjectBuilder::new();
        v.put_opt_flag("enabled", options.enabled);
        v.put_opt_text("search", options.search);
        v.put_opt_int("limit", options.limit);
        v.put_opt_int("offset", options.offset);
        v.put_opt_text("after", options.after);
        v.put_opt_int("first", options.first);
        proof {
            assert(v.expected@ =~= spec);
        }
        request(LIST_QUERY, v, "alertRules")
    }

    /// Get an alert rule by ID.
    pub fn get(&self, id: &str) -> (r: GraphQLRequest)
        ensures
            request_is(r, GET_QUERY@, Some(field("id"@, Expected::Text(id@))), "alertRule"@),
    {
        let ghost spec = field("id"@, Expected::Text(id@));
        let mut v = ObjectBuilder::new();
        v.put_text("id", id);
        proof {
            assert(v.expected@ =~= spec);
        }
        request(GET_QUERY, v, "alertRule")
    }

    /// Create a new alert rule.
    pub fn create(&self, input: CreateAlertRuleInput) -> (r: GraphQLRequest)
        ensures
            request_is(
                r,
                CREATE_QUERY@,
                Some(field("input"@, Expected::Obj(input.members()))),
                "createAlertRule"@,
            ),
    {
        let ghost spec = field("input"@, Expected::Obj(input.members()));
        let mut v = ObjectBuilder::new();
        v.put_object("input", input.to_object());
        proof {
            assert(v.expected@ =~= spec);
        }
        request(CREATE_QUERY, v, "createAlertRule")
    }

    /// Update an existing alert rule.
    pub fn update(&self, id: &str, input: UpdateAlertRuleInput) -> (r: GraphQLRequest)
        ensures
            request_is(
                r,
                UPDATE_QUERY@,
                Some(
                    field("id"@, Expected::Text(id@))
                        + field("input"@, Expected::Obj(input.members())),
                ),
                "updateAlertRule"@,
            ),
    {
        let ghost spec =
            field("id"@, Expected::Text(id@)) + field("input"@, Expected::Obj(input.members()));
        let mut v = ObjectBuilder::new();
        v.put_text("id", id);
        v.put_object("input", input.to_object());
        proof {
            assert(v.expected@ =~= spec);
        }
        request(UPDATE_QUERY, v, "updateAlertRule")
    }

    /// Delete an alert rule.
    pub fn delete(&self, id: &str) -> (r: GraphQLRequest)
        ensures
            request_is(
                r,
                DELETE_QUERY@,
                Some(field("id"@, Expected::Text(id@))),
                "deleteAlertRule"@,
            ),
    {
        let ghost spec = field("id"@, Expected::Text(id@));
        let mut v = ObjectBuilder::new();
        v.put_text("id", id);
        proof {
            assert(v.expected@ =~= spec);
        }
        request(DELETE_QUERY, v, "deleteAlertRule")
    }

    /// Trigger a test firing of an alert rule.
    pub fn test(&self, id: &str) -> (r: GraphQLRequest)
        ensures
            request_is(r, TEST_QUERY@, Some(field("id"@, Expected::Text(id@))), "testAlertRule"@),
    {
        let ghost spec = field("id"@, Expected::Text(id@));
        let mut v = ObjectBuilder::new();
        v.put_text("id", id);
        proof {
            assert(v.expected@ =~= spec);
        }
        request(TEST_QUERY, v, "testAlertRule")
    }
}

/// Async variant of the alert-rule service.
pub struct AsyncAlertRuleService;

impl AsyncAlertRuleService {
    /// List alert rules.
    pub fn list(&self, options: ListAlertRulesOptions) -> (r: GraphQLRequest)
        ensures
            request_is(r, LIST_QUERY@, Some(options.members()), "alertRules"@),
    {
        AlertRuleService.list(options)
    }

    /// Get an alert rule by ID.
    pub fn get(&self, id: &str) -> (r: GraphQLRequest)
        ensures
            request_is(r, GET_QUERY@, Some(field("id"@, Expected::Text(id@))), "alertRule"@),
    {
        AlertRuleService.get(id)
    }

    /// Create a new alert rule.
    pub fn create(&self, input: CreateAlertRuleInput) -> (r: GraphQLRequest)
        ensures
            request_is(
                r,
                CREATE_QUERY@,
                Some(field("input"@, Expected::Obj(input.members()))),
                "createAlertRule"@,
            ),
    {
        AlertRuleService.create(input)
    }

    /// Update an existing alert rule.
    pub fn update(&self, id: &str, input: UpdateAlertRuleInput) -> (r: GraphQLRequest)
        ensures
            request_is(
                r,
                UPDATE_QUERY@,
                Some(
                    field("id"@, Expected::Text(id@))
                        + field("input"@, Expected::Obj(input.members())),
                ),
                "updateAlertRule"@,
            ),
    {
        AlertRuleService.update(id, input)
    }

    /// Delete an alert rule.
    pub fn delete(&self, id: &str) -> (r: GraphQLRequest)
        ensures
            request_is(
                r,
                DELETE_QUERY@,
                Some(field("id"@, Expected::Text(id@))),
                "deleteAlertRule"@,
            ),
    {
        AlertRuleService.delete(id)
    }

    /// Trigger a test firing of an alert rule.
    pub fn test(&self, id: &str) -> (r: GraphQLRequest)
        ensures
            request_is(r, TEST_QUERY@, Some(field("id"@, Expected::Text(id@))), "testAlertRule"@),
    {
        AlertRuleService.test(id)
    }
}

/// What [`AlertRuleService::list`] sends: each argument, and each field of an
/// options or input argument, under its own camelCase name, holding that
/// value; an absent optional one is left out.
pub proof fn lemma_list_sends_arguments(options: ListAlertRulesOptions, r: GraphQLRequest)
    requires
        request_is(r, LIST_QUERY@, Some(options.members()), "alertRules"@),
    ensures
        sent_flag(variable(r, "enabled"@), options.enabled),
        sent_text(variable(r, "search"@), options.search),
        sent_int(variable(r, "limit"@), options.limit),
        sent_int(variable(r, "offset"@), options.offset),
        sent_text(variable(r, "after"@), options.after),
        sent_int(variable(r, "first"@), options.first),
{
    broadcast use group_lookup;

    reveal_strlit("after");
    assert("after"@.len() == 5);
    reveal_strlit("enabled");
    assert("enabled"@.len() == 7);
    reveal_strlit("first");
    assert("first"@.len() == 5);
    reveal_strlit("limit");
    assert("limit"@.len() == 5);
    reveal_strlit("offset");
    assert("offset"@.len() == 6);
    reveal_strlit("search");
    assert("search"@.len() == 6);
    assert("after"@[0] == 'a');
    assert("first"@[0] == 'f');
    assert("limit"@[0] == 'l');
    assert("offset"@[0] == 'o');
    assert("search"@[0] == 's');
    let fields = options.members();
    lemma_variable_described(r, LIST_QUERY@, fields, "alertRules"@, "enabled"@);
    lemma_variable_described(r, LIST_QUERY@, fields, "alertRules"@, "search"@);
    lemma_variable_described(r, LIST_QUERY@, fields, "alertRules"@, "limit"@);
    lemma_variable_described(r, LIST_QUERY@, fields, "alertRules"@, "offset"@);
    lemma_variable_described(r, LIST_QUERY@, fields, "alertRules"@, "after"@);
    lemma_variable_described(r, LIST_QUERY@, fields, "alertRules"@, "first"@);
}

/// What [`AlertRuleService::get`] sends: each argument, and each field of an
/// options or input argument, under its own camelCase name, holding that
/// value; an absent optional one is left out.
pub proof fn lemma_get_sends_arguments(id: &str, r: GraphQLRequest)
    requires
        request_is(r, GET_QUERY@, Some(field("id"@, Expected::Text(id@))), "alertRule"@),
    ensures
        text_of(variable(r, "id"@)) == Some(id@),
{
    broadcast use group_lookup;

    reveal_strlit("id");
    assert("id"@.len() == 2);
    let fields = field("id"@, Expected::Text(id@));
    lemma_variable_described(r, GET_QUERY@, fields, "alertRule"@, "id"@);
}

/// What [`AlertRuleService::create`] sends: each argument, and each field of an
/// options or input argument, under its own camelCase name, holding that
/// value; an absent optional one is left out.
pub proof fn lemma_create_sends_arguments(input: CreateAlertRuleInput, r: GraphQLRequest)
    requires
        request_is(
            r,
            CREATE_QUERY@,
            Some(field("input"@, Expected::Obj(input.members()))),
            "createAlertRule"@,
        ),
    ensures
        text_of(member_of(variable(r, "input"@), "name"@)) == Some(input.name@),
        text_of(member_of(variable(r, "input"@), "conditionType"@)) == Some(input.condition_type@),
        number_is(member_of(variable(r, "input"@), "threshold"@), input.threshold as int),
        text_of(member_of(variable(r, "input"@), "cooldown"@)) == Some(input.cooldown@),
        member_of(variable(r, "input"@), "enabled"@) == Some(Json::Bool(input.enabled)),
        sent_text(member_of(variable(r, "input"@), "webhookUrl"@), input.webhook_url),
        sent_text(member_of(variable(r, "input"@), "channel"@), input.channel),
{
    broadcast use group_lookup;

    reveal_strlit("channel");
    assert("channel"@.len() == 7);
    reveal_strlit("conditionType");
    assert("conditionType"@.len() == 13);
    reveal_strlit("cooldown");
    assert("cooldown"@.len() == 8);
    reveal_strlit("emailConfig");
    assert("emailConfig"@.len() == 11);
    reveal_strlit("enabled");
    assert("enabled"@.len() == 7);
    reveal_strlit("input");
    assert("input"@.len() == 5);
    reveal_strlit("name");
    assert("name"@.len() == 4);
    reveal_strlit("slackConfig");
    assert("slackConfig"@.len() == 11);
    reveal_strlit("threshold");
    assert("threshold"@.len() == 9);
    reveal_strlit("webhookUrl");
    assert("webhookUrl"@.len() == 10);
    assert("channel"@[0] == 'c');
    assert("enabled"@[0] == 'e');
    assert("emailConfig"@[0] == 'e');
    assert("slackConfig"@[0] == 's');
    let fields = field("input"@, Expected::Obj(input.members()));
    lemma_variable_described(r, CREATE_QUERY@, fields, "createAlertRule"@, "input"@);
    let input_object = variable(r, "input"@).unwrap();
    assert(input_object is Object);
    lemma_member_described(input_object->Object_0@, input.members(), "name"@);
    lemma_member_described(input_object->Object_0@, input.members(), "conditionType"@);
    lemma_member_described(input_object->Object_0@, input.members(), "threshold"@);
    lemma_member_described(input_object->Object_0@, input.members(), "cooldown"@);
    lemma_member_described(input_object->Object_0@, input.members(), "enabled"@);
    lemma_member_described(input_object->Object_0@, input.members(), "webhookUrl"@);
    lemma_member_described(input_object->Object_0@, input.members(), "channel"@);
}

/// What [`AlertRuleService::update`] sends: each argument, and each field of an
/// options or input argument, under its own camelCase name, holding that
/// value; an absent optional one is left out.
pub proof fn lemma_update_sends_arguments(id: &str, input: UpdateAlertRuleInput, r: GraphQLRequest)
    requires
        request_is(
            r,
            UPDATE_QUERY@,
            Some(
                field("id"@, Expected::Text(id@)) + field("input"@, Expected::Obj(input.members())),
            ),
            "updateAlertRule"@,
        ),
    ensures
        text_of(variable(r, "id"@)) == Some(id@),
        sent_text(member_of(variable(r, "input"@), "name"@), input.name),
        sent_text(member_of(variable(r, "input"@), "conditionType"@), input.condition_type),
        sent_int(member_of(variable(r, "input"@), "threshold"@), input.threshold),
        sent_text(member_of(variable(r, "input"@), "webhookUrl"@), input.webhook_url),
        sent_text(member_of(variable(r, "input"@), "channel"@), input.channel),
        sent_text(member_of(variable(r, "input"@), "cooldown"@), input.cooldown),
        sent_flag(member_of(variable(r, "input"@), "enabled"@), input.enabled),
{
    broadcast use group_lookup;

    reveal_strlit("channel");
    assert("channel"@.len() == 7);
    reveal_strlit("conditionType");
    assert("conditionType"@.len() == 13);
    reveal_strlit("cooldown");
    assert("cooldown"@.len() == 8);
    reveal_strlit("emailConfig");
    assert("emailConfig"@.len() == 11);
    reveal_strlit("enabled");
    assert("enabled"@.len() == 7);
    reveal_strlit("id");
    assert("id"@.len() == 2);
    reveal_strlit("input");
    assert("input"@.len() == 5);
    reveal_strlit("name");
    assert("name"@.len() == 4);
    reveal_strlit("slackConfig");
    assert("slackConfig"@.len() == 11);
    reveal_strlit("threshold");
    assert("threshold"@.len() == 9);
    reveal_strlit("webhookUrl");
    assert("webhookUrl"@.len() == 10);
    assert("channel"@[0] == 'c');
    assert("enabled"@[0] == 'e');
    assert("emailConfig"@[0] == 'e');
    assert("slackConfig"@[0] == 's');
    let fields = field(
        "id"@,
        Expected::Text(id@)) + field("input"@,
        Expected::Obj(input.members()),
    );
    lemma_variable_described(r, UPDATE_QUERY@, fields, "updateAlertRule"@, "id"@);
    lemma_variable_described(r, UPDATE_QUERY@, fields, "updateAlertRule"@, "input"@);
    let input_object = variable(r, "input"@).unwrap();
    assert(input_object is Object);
    lemma_member_described(input_object->Object_0@, input.members(), "name"@);
    lemma_member_described(input_object->Object_0@, input.members(), "conditionType"@);
    lemma_member_described(input_object->Object_0@, input.members(), "threshold"@);
    lemma_member_described(input_object->Object_0@, input.members(), "webhookUrl"@);
    lemma_member_described(input_object->Object_0@, input.members(), "channel"@);
    lemma_member_described(input_object->Object_0@, input.members(), "cooldown"@);
    lemma_member_described(input_object->Object_0@, input.members(), "enabled"@);
}

/// What [`AlertRuleService::delete`] sends: each argument, and each field of an
/// options or input argument, under its own camelCase name, holding that
/// value; an absent optional one is left out.
pub proof fn lemma_delete_sends_arguments(id: &str, r: GraphQLRequest)
    requires
        request_is(r, DELETE_QUERY@, Some(field("id"@, Expected::Text(id@))), "deleteAlertRule"@),
    ensures
        text_of(variable(r, "id"@)) == Some(id@),
{
    broadcast use group_lookup;

    reveal_strlit("id");
    assert("id"@.len() == 2);
    let fields = field("id"@, Expected::Text(id@));
    lemma_variable_described(r, DELETE_QUERY@, fields, "deleteAlertRule"@, "id"@);
}

/// What [`AlertRuleService::test`] sends: each argument, and each field of an
/// options or input argument, under its own camelCase name, holding that
/// value; an absent optional one is left out.
pub proof fn lemma_test_sends_arguments(id: &str, r: GraphQLRequest)
    requires
        request_is(r, TEST_QUERY@, Some(field("id"@, Expected::Text(id@))), "testAlertRule"@),
    ensures
        text_of(variable(r, "id"@)) == Some(id@),
{
    broadcast use group_lookup;

    reveal_strlit("id");
    assert("id"@.len() == 2);
    let fields = field("id"@, Expected::Text(id@));
    lemma_variable_described(r, TEST_QUERY@, fields, "testAlertRule"@, "id"@);
}

} // verus!
