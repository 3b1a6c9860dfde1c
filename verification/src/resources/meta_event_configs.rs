//! Meta-event webhook configuration.

use crate::request::{
    Expected, ObjectBuilder, GraphQLRequest, request, field, opt_text, opt_int, opt_flag, texts, opt_texts, request_is, group_lookup, lemma_variable_described, variable, text_of, sent_text, sent_int, lemma_member_described, member_of, sent_flag,
};
use vstd::prelude::*;

verus! {

broadcast use vstd::string::group_string_axioms;

/// Options for [`MetaEventConfigService::list`].
#[derive(Debug, Default, Clone)]
#[non_exhaustive]
pub struct ListMetaEventConfigsOptions {
    pub search: Option<String>,
    pub limit: Option<i32>,
    pub offset: Option<i32>,
    pub after: Option<String>,
    pub first: Option<i32>,
}

impl ListMetaEventConfigsOptions {
    /// The members of the variables object these options are sent as:
    /// camelCase names, absent options left out.
    pub open spec fn members(self) -> Seq<(Seq<char>, Expected)> {
        opt_text("search"@, self.search)
            + opt_int("limit"@, self.limit)
            + opt_int("offset"@, self.offset)
            + opt_text("after"@, self.after)
            + opt_int("first"@, self.first)
    }
}

#[derive(Debug, Default, Clone)]
#[non_exhaustive]
pub struct CreateMetaEventConfigInput {
    pub name: String,
    pub url: String,
    pub event_types: Vec<String>,
    pub enabled: Option<bool>,
}

impl CreateMetaEventConfigInput {
    /// The members of the JSON object this input is sent as: camelCase
    /// names, optional fields left out when absent.
    pub open spec fn members(self) -> Seq<(Seq<char>, Expected)> {
        field("name"@, Expected::Text(self.name@))
            + field("url"@, Expected::Text(self.url@))
            + field("eventTypes"@, Expected::Texts(texts(self.event_types@)))
            + opt_flag("enabled"@, self.enabled)
    }

    /// The JSON object this input is sent as.
    pub fn to_object(self) -> (b: ObjectBuilder)
        ensures
            b.wf(),
            b.expected@ == self.members(),
    {
        let ghost spec = self.members();
        let mut b = ObjectBuilder::new();
        b.put_string("name", self.name);
        b.put_string("url", self.url);
        b.put_texts("eventTypes", self.event_types);
        b.put_opt_flag("enabled", self.enabled);
        assert(b.expected@ =~= spec);
        b
    }
}

#[derive(Debug, Default, Clone)]
#[non_exhaustive]
pub struct UpdateMetaEventConfigInput {
    pub name: Option<String>,
    pub url: Option<String>,
    pub event_types: Option<Vec<String>>,
    pub enabled: Option<bool>,
}

impl UpdateMetaEventConfigInput {
    /// The members of the JSON object this input is sent as: camelCase
    /// names, optional fields left out when absent.
    pub open spec fn members(self) -> Seq<(Seq<char>, Expected)> {
        opt_text("name"@, self.name)
            + opt_text("url"@, self.url)
            + opt_texts("eventTypes"@, self.event_types)
            + opt_flag("enabled"@, self.enabled)
    }

    /// The JSON object this input is sent as.
    pub fn to_object(self) -> (b: ObjectBuilder)
        ensures
            b.wf(),
            b.expected@ == self.members(),
    {
        let ghost spec = self.members();
        let mut b = ObjectBuilder::new();
        b.put_opt_text("name", self.name);
        b.put_opt_text("url", self.url);
        b.put_opt_texts("eventTypes", self.event_types);
        b.put_opt_flag("enabled", self.enabled);
        assert(b.expected@ =~= spec);
        b
    }
}

/// The GraphQL document of `MetaEventConfigService::list`.
pub const LIST_QUERY: &'static str = "query($search: String, $limit: Int, $offset: Int, $after: String, $first: Int) {\n                metaEventConfigs(search: $search, limit: $limit, offset: $offset, after: $after, first: $first) {\n                    nodes { id name url signingSecret eventTypes enabled createdAt }\n                    pageInfo { total limit offset endCursor hasNextPage }\n                }\n            }";

/// The GraphQL document of `MetaEventConfigService::get`.
pub const GET_QUERY: &'static str = "query($id: UUID!) { metaEventConfig(id: $id) { id name url signingSecret eventTypes enabled createdAt } }";

/// The GraphQL document of `MetaEventConfigService::create`.
pub const CREATE_QUERY: &'static str = "mutation($input: CreateMetaEventConfigInput!) { createMetaEventConfig(input: $input) { id name url signingSecret eventTypes enabled createdAt } }";

/// The GraphQL document of `MetaEventConfigService::update`.
pub const UPDATE_QUERY: &'static str = "mutation($id: UUID!, $input: UpdateMetaEventConfigInput!) { updateMetaEventConfig(id: $id, input: $input) { id name url signingSecret eventTypes enabled createdAt } }";

/// The GraphQL document of `MetaEventConfigService::delete`.
pub const DELETE_QUERY: &'static str = "mutation($id: UUID!) { deleteMetaEventConfig(id: $id) }";

pub struct MetaEventConfigService;

impl MetaEventConfigService {
    pub fn list(&self, options: ListMetaEventConfigsOptions) -> (r: GraphQLRequest)
        ensures
            request_is(r, LIST_QUERY@, Some(options.members()), "metaEventConfigs"@),
    {
        let ghost spec = options.members();
        let mut v = ObjectBuilder::new();
        v.put_opt_text("search", options.search);
        v.put_opt_int("limit", options.limit);
        v.put_opt_int("offset", options.offset);
        v.put_opt_text("after", options.after);
        v.put_opt_int("first", options.first);
        proof {
            assert(v.expected@ =~= spec);
        }
        request(LIST_QUERY, v, "metaEventConfigs")
    }

    pub fn get(&self, id: &str) -> (r: GraphQLRequest)
        ensures
            request_is(r, GET_QUERY@, Some(field("id"@, Expected::Text(id@))), "metaEventConfig"@),
    {
        let ghost spec = field("id"@, Expected::Text(id@));
        let mut v = ObjectBuilder::new();
        v.put_text("id", id);
        proof {
            assert(v.expected@ =~= spec);
        }
        request(GET_QUERY, v, "metaEventConfig")
    }

    pub fn create(&self, input: CreateMetaEventConfigInput) -> (r: GraphQLRequest)
        ensures
            request_is(
                r,
                CREATE_QUERY@,
                Some(field("input"@, Expected::Obj(input.members()))),
                "createMetaEventConfig"@,
            ),
    {
        let ghost spec = field("input"@, Expected::Obj(input.members()));
        let mut v = ObjectBuilder::new();
        v.put_object("input", input.to_object());
        proof {
            assert(v.expected@ =~= spec);
        }
        request(CREATE_QUERY, v, "createMetaEventConfig")
    }

    pub fn update(&self, id: &str, input: UpdateMetaEventConfigInput) -> (r: GraphQLRequest)
        ensures
            request_is(
                r,
                UPDATE_QUERY@,
                Some(
                    field("id"@, Expected::Text(id@))
                        + field("input"@, Expected::Obj(input.members())),
                ),
                "updateMetaEventConfig"@,
            ),
    {
        let ghost spec =
            field("id"@, Expected::Text(id@)) + field("input"@, Expected::Obj(input.members()));
        let mut v = ObjectBuilder::new();
        v.put_text("id", id);
        v.put_object("input", input.to_object());
        proof {
            assert(v.expected@ =~= spec);
        }
        request(UPDATE_QUERY, v, "updateMetaEventConfig")
    }

    pub fn delete(&self, id: &str) -> (r: GraphQLRequest)
        ensures
            request_is(
                r,
                DELETE_QUERY@,
                Some(field("id"@, Expected::Text(id@))),
                "deleteMetaEventConfig"@,
            ),
    {
        let ghost spec = field("id"@, Expected::Text(id@));
        let mut v = ObjectBuilder::new();
        v.put_text("id", id);
        proof {
            assert(v.expected@ =~= spec);
        }
        request(DELETE_QUERY, v, "deleteMetaEventConfig")
    }
}

pub struct AsyncMetaEventConfigService;

impl AsyncMetaEventConfigService {
    pub fn list(&self, options: ListMetaEventConfigsOptions) -> (r: GraphQLRequest)
        ensures
            request_is(r, LIST_QUERY@, Some(options.members()), "metaEventConfigs"@),
    {
        MetaEventConfigService.list(options)
    }

    pub fn get(&self, id: &str) -> (r: GraphQLRequest)
        ensures
            request_is(r, GET_QUERY@, Some(field("id"@, Expected::Text(id@))), "metaEventConfig"@),
    {
        MetaEventConfigService.get(id)
    }

    pub fn create(&self, input: CreateMetaEventConfigInput) -> (r: GraphQLRequest)
        ensures
            request_is(
                r,
                CREATE_QUERY@,
                Some(field("input"@, Expected::Obj(input.members()))),
                "createMetaEventConfig"@,
            ),
    {
        MetaEventConfigService.create(input)
    }

    pub fn update(&self, id: &str, input: UpdateMetaEventConfigInput) -> (r: GraphQLRequest)
        ensures
            request_is(
                r,
                UPDATE_QUERY@,
                Some(
                    field("id"@, Expected::Text(id@))
                        + field("input"@, Expected::Obj(input.members())),
                ),
                "updateMetaEventConfig"@,
            ),
    {
        MetaEventConfigService.update(id, input)
    }

    pub fn delete(&self, id: &str) -> (r: GraphQLRequest)
        ensures
            request_is(
                r,
                DELETE_QUERY@,
                Some(field("id"@, Expected::Text(id@))),
                "deleteMetaEventConfig"@,
            ),
    {
        MetaEventConfigService.delete(id)
    }
}

/// What [`MetaEventConfigService::list`] sends: each argument, and each field of an
/// options or input argument, under its own camelCase name, holding that
/// value; an absent optional one is left out.
pub proof fn lemma_list_sends_arguments(options: ListMetaEventConfigsOptions, r: GraphQLRequest)
    requires
        request_is(r, LIST_QUERY@, Some(options.members()), "metaEventConfigs"@),
    ensures
        sent_text(variable(r, "search"@), options.search),
        sent_int(variable(r, "limit"@), options.limit),
        sent_int(variable(r, "offset"@), options.offset),
        sent_text(variable(r, "after"@), options.after),
        sent_int(variable(r, "first"@), options.first),
{
    broadcast use group_lookup;

    reveal_strlit("after");
    assert("after"@.len() == 5);
    reveal_strlit("first");
    assert("first"@.len() == 5);
    reveal_strlit("limit");
    assert("limit"@.len() == 5);
    reveal_strlit("offset");
    assert("offset"@.len() == 6);
    reveal_strlit("search");
    assert("search"@.len() == 6);
    assert("after"@[0] == 'a');
    assert("first"@[0] == 'f');
    assert("limit"@[0] == 'l');
    assert("offset"@[0] == 'o');
    assert("search"@[0] == 's');
    let fields = options.members();
    lemma_variable_described(r, LIST_QUERY@, fields, "metaEventConfigs"@, "search"@);
    lemma_variable_described(r, LIST_QUERY@, fields, "metaEventConfigs"@, "limit"@);
    lemma_variable_described(r, LIST_QUERY@, fields, "metaEventConfigs"@, "offset"@);
    lemma_variable_described(r, LIST_QUERY@, fields, "metaEventConfigs"@, "after"@);
    lemma_variable_described(r, LIST_QUERY@, fields, "metaEventConfigs"@, "first"@);
}

/// What [`MetaEventConfigService::get`] sends: each argument, and each field of an
/// options or input argument, under its own camelCase name, holding that
/// value; an absent optional one is left out.
pub proof fn lemma_get_sends_arguments(id: &str, r: GraphQLRequest)
    requires
        request_is(r, GET_QUERY@, Some(field("id"@, Expected::Text(id@))), "metaEventConfig"@),
    ensures
        text_of(variable(r, "id"@)) == Some(id@),
{
    broadcast use group_lookup;

    reveal_strlit("id");
    assert("id"@.len() == 2);
    let fields = field("id"@, Expected::Text(id@));
    lemma_variable_described(r, GET_QUERY@, fields, "metaEventConfig"@, "id"@);
}

/// What [`MetaEventConfigService::create`] sends: each argument, and each field of an
/// options or input argument, under its own camelCase name, holding that
/// value; an absent optional one is left out.
pub proof fn lemma_create_sends_arguments(input: CreateMetaEventConfigInput, r: GraphQLRequest)
    requires
        request_is(
            r,
            CREATE_QUERY@,
            Some(field("input"@, Expected::Obj(input.members()))),
            "createMetaEventConfig"@,
        ),
    ensures
        text_of(member_of(variable(r, "input"@), "name"@)) == Some(input.name@),
        text_of(member_of(variable(r, "input"@), "url"@)) == Some(input.url@),
        sent_flag(member_of(variable(r, "input"@), "enabled"@), input.enabled),
{
    broadcast use group_lookup;

    reveal_strlit("enabled");
    assert("enabled"@.len() == 7);
    reveal_strlit("eventTypes");
    assert("eventTypes"@.len() == 10);
    reveal_strlit("input");
    assert("input"@.len() == 5);
    reveal_strlit("name");
    assert("name"@.len() == 4);
    reveal_strlit("url");
    assert("url"@.len() == 3);
    let fields = field("input"@, Expected::Obj(input.members()));
    lemma_variable_described(r, CREATE_QUERY@, fields, "createMetaEventConfig"@, "input"@);
    let input_object = variable(r, "input"@).unwrap();
    assert(input_object is Object);
    lemma_member_described(input_object->Object_0@, input.members(), "name"@);
    lemma_member_described(input_object->Object_0@, input.members(), "url"@);
    lemma_member_described(input_object->Object_0@, input.members(), "enabled"@);
}

/// What [`MetaEventConfigService::update`] sends: each argument, and each field of an
/// options or input argument, under its own camelCase name, holding that
/// value; an absent optional one is left out.
pub proof fn lemma_update_sends_arguments(
    id: &str,
    input: UpdateMetaEventConfigInput,
    r: GraphQLRequest,
)
    requires
        request_is(
            r,
            UPDATE_QUERY@,
            Some(
                field("id"@, Expected::Text(id@)) + field("input"@, Expected::Obj(input.members())),
            ),
            "updateMetaEventConfig"@,
        ),
    ensures
        text_of(variable(r, "id"@)) == Some(id@),
        sent_text(member_of(variable(r, "input"@), "name"@), input.name),
        sent_text(member_of(variable(r, "input"@), "url"@), input.url),
        sent_flag(member_of(variable(r, "input"@), "enabled"@), input.enabled),
{
    broadcast use group_lookup;

    reveal_strlit("enabled");
    assert("enabled"@.len() == 7);
    reveal_strlit("eventTypes");
    assert("eventTypes"@.len() == 10);
    reveal_strlit("id");
    assert("id"@.len() == 2);
    reveal_strlit("input");
    assert("input"@.len() == 5);
    reveal_strlit("name");
    assert("name"@.len() == 4);
    reveal_strlit("url");
    assert("url"@.len() == 3);
    let fields = field(
        "id"@,
        Expected::Text(id@)) + field("input"@,
        Expected::Obj(input.members()),
    );
    lemma_variable_described(r, UPDATE_QUERY@, fields, "updateMetaEventConfig"@, "id"@);
    lemma_variable_described(r, UPDATE_QUERY@, fields, "updateMetaEventConfig"@, "input"@);
    let input_object = variable(r, "input"@).unwrap();
    assert(input_object is Object);
    lemma_member_described(input_object->Object_0@, input.members(), "name"@);
    lemma_member_described(input_object->Object_0@, input.members(), "url"@);
    lemma_member_described(input_object->Object_0@, input.members(), "enabled"@);
}

/// What [`MetaEventConfigService::delete`] sends: each argument, and each field of an
/// options or input argument, under its own camelCase name, holding that
/// value; an absent optional one is left out.
pub proof fn lemma_delete_sends_arguments(id: &str, r: GraphQLRequest)
    requires
        request_is(
            r,
            DELETE_QUERY@,
            Some(field("id"@, Expected::Text(id@))),
            "deleteMetaEventConfig"@,
        ),
    ensures
        text_of(variable(r, "id"@)) == Some(id@),
{
    broadcast use group_lookup;

    reveal_strlit("id");
    assert("id"@.len() == 2);
    let fields = field("id"@, Expected::Text(id@));
    lemma_variable_described(r, DELETE_QUERY@, fields, "deleteMetaEventConfig"@, "id"@);
}

} // verus!
