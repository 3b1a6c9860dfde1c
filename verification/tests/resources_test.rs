use hivehook::json::Json;
use hivehook::request::GraphQLRequest;
use hivehook::resources::api_keys::{self, ApiKeyService, CreateApiKeyInput};
use hivehook::resources::deliveries::{self, DeliveryService, ListDeliveriesOptions};
use hivehook::resources::dlq::{self, DLQService, ListDlqOptions};
use hivehook::resources::messages::{self, MessageService};
use hivehook::resources::status::{self, AsyncStatusService, StatusService};
use hivehook::resources::users::{self, ListUsersOptions, UserService};
use hivehook::resources::subscriptions::{
    self, CreateSubscriptionInput, SubscriptionService, UpdateSubscriptionInput,
};
use hivehook::types::{FilterConfig, FilterRule, TransformConfig};

fn member<'a>(members: &'a [(String, Json)], key: &str) -> Option<&'a Json> {
    members.iter().find(|(k, _)| k == key).map(|(_, v)| v)
}

fn text(j: Option<&Json>) -> Option<&str> {
    match j {
        Some(Json::Str(s)) => Some(s.as_str()),
        _ => None,
    }
}

fn vars(r: &GraphQLRequest) -> &[(String, Json)] {
    r.variables.as_deref().expect("the operation takes variables")
}

#[test]
fn status_get_sends_no_variables() {
    let r = StatusService.get();
    assert_eq!(r.query, status::GET_QUERY);
    assert!(r.query.contains("status {"));
    assert!(r.variables.is_none());
    assert_eq!(r.field, "status");
    let a = AsyncStatusService.get();
    assert_eq!(a.query, r.query);
    assert_eq!(a.field, r.field);
}

#[test]
fn delivery_list_leaves_out_absent_options() {
    let r = DeliveryService.list(ListDeliveriesOptions::default());
    assert_eq!(r.query, deliveries::LIST_QUERY);
    assert_eq!(r.field, "deliveries");
    assert!(vars(&r).is_empty());

    let mut o = ListDeliveriesOptions::default();
    o.status = Some(String::from("FAILED"));
    o.first = Some(25);
    o.after = Some(String::from("cur"));
    let r = DeliveryService.list(o);
    let v = vars(&r);
    assert_eq!(v.len(), 3);
    assert_eq!(v[0].0, "status");
    assert_eq!(text(member(v, "status")), Some("FAILED"));
    assert_eq!(v[1].0, "after");
    assert_eq!(text(member(v, "after")), Some("cur"));
    assert_eq!(v[2].0, "first");
    assert!(matches!(member(v, "first"), Some(Json::Number(n)) if n == "25"));
}

#[test]
fn dlq_list_and_replay_all() {
    let mut o = ListDlqOptions::default();
    o.replayed = Some(false);
    o.limit = Some(-3);
    let r = DLQService.list(o);
    assert_eq!(r.query, dlq::LIST_QUERY);
    assert_eq!(r.field, "dlqEntries");
    let v = vars(&r);
    assert_eq!(v.len(), 2);
    assert!(matches!(member(v, "replayed"), Some(Json::Bool(false))));
    assert!(matches!(member(v, "limit"), Some(Json::Number(n)) if n == "-3"));

    let all = DLQService.replay_all();
    assert_eq!(all.query, dlq::REPLAY_ALL_QUERY);
    assert_eq!(all.query, "mutation { replayAllDLQ { deliveries } }");
    assert_eq!(all.field, "replayAllDLQ");
}

#[test]
fn users_list_with_offset() {
    let mut o = ListUsersOptions::default();
    o.offset = Some(2);
    let r = UserService.list(o);
    assert_eq!(r.query, users::LIST_QUERY);
    assert_eq!(r.field, "users");
    let v = vars(&r);
    assert_eq!(v.len(), 1);
    assert!(matches!(member(v, "offset"), Some(Json::Number(n)) if n == "2"));
}

#[test]
fn api_key_get_and_create() {
    let r = ApiKeyService.get("k-1");
    assert_eq!(r.query, api_keys::GET_QUERY);
    assert_eq!(r.field, "apiKey");
    assert_eq!(text(member(vars(&r), "id")), Some("k-1"));

    let mut input = CreateApiKeyInput::default();
    input.name = String::from("ci");
    input.scopes = vec![String::from("read"), String::from("write")];
    let r = ApiKeyService.create(input);
    assert_eq!(r.field, "createAPIKey");
    let Some(Json::Object(obj)) = member(vars(&r), "input") else { panic!("input object") };
    assert_eq!(obj.len(), 2);
    assert_eq!(text(member(obj, "name")), Some("ci"));
    let Some(Json::Array(scopes)) = member(obj, "scopes") else { panic!("scopes array") };
    assert_eq!(scopes.len(), 2);
    assert_eq!(text(scopes.get(1)), Some("write"));
    assert!(member(obj, "sourceIds").is_none());
}

#[test]
fn send_dynamic_base64_encodes_payload() {
    let r = MessageService.send_dynamic("https://h.example/x", "order.created", b"hello", Some("sec"), None);
    assert_eq!(r.query, messages::SEND_DYNAMIC_QUERY);
    assert_eq!(r.field, "sendDynamicMessage");
    let Some(Json::Object(obj)) = member(vars(&r), "input") else { panic!("input object") };
    assert_eq!(text(member(obj, "url")), Some("https://h.example/x"));
    assert_eq!(text(member(obj, "eventType")), Some("order.created"));
    assert_eq!(text(member(obj, "payload")), Some("aGVsbG8="));
    assert_eq!(text(member(obj, "signingSecret")), Some("sec"));
    assert!(member(obj, "headers").is_none());
    let empty = MessageService.send_dynamic("u", "e", b"", None, None);
    let Some(Json::Object(obj)) = member(vars(&empty), "input") else { panic!("input object") };
    assert_eq!(text(member(obj, "payload")), Some(""));
}

#[test]
fn subscription_create_sends_nested_filter_rules() {

    let mut input = CreateSubscriptionInput::default();
    input.name = String::from("prod-only");
    input.source_id = String::from("s_1");
    input.destination_id = String::from("d_1");
    input.enabled = true;
    input.filter_config = Some(FilterConfig {
        event_types: Some(vec![String::from("charge.succeeded")]),
        regex: None,
        body_match: None,
        rules: Some(vec![FilterRule {
            operator: String::from("and"),
            path: None,
            value: None,
            rules: Some(vec![FilterRule {
                operator: String::from("eq"),
                path: Some(String::from("$.env")),
                value: Some(Json::Str(String::from("prod"))),
                rules: None,
            }]),
        }]),
    });
    let r = SubscriptionService.create(input);
    assert_eq!(r.query, subscriptions::CREATE_QUERY);
    assert_eq!(r.field, "createSubscription");
    let Some(Json::Object(obj)) = member(vars(&r), "input") else { panic!("input object") };
    let keys: Vec<&str> = obj.iter().map(|(k, _)| k.as_str()).collect();
    assert_eq!(keys, vec!["name", "sourceId", "destinationId", "filterConfig", "enabled"]);
    let Some(Json::Object(filter)) = member(obj, "filterConfig") else { panic!("filter object") };
    assert!(matches!(member(filter, "regex"), Some(Json::Null)));
    assert!(matches!(member(filter, "bodyMatch"), Some(Json::Null)));
    let Some(Json::Array(rules)) = member(filter, "rules") else { panic!("rules array") };
    let Json::Object(and) = &rules[0] else { panic!("rule object") };
    assert_eq!(text(member(and, "operator")), Some("and"));
    assert!(matches!(member(and, "path"), Some(Json::Null)));
    let Some(Json::Array(inner)) = member(and, "rules") else { panic!("nested rules") };
    let Json::Object(eq) = &inner[0] else { panic!("nested rule object") };
    assert_eq!(text(member(eq, "path")), Some("$.env"));
    assert_eq!(text(member(eq, "value")), Some("prod"));
    assert!(matches!(member(eq, "rules"), Some(Json::Null)));

    let mut update = UpdateSubscriptionInput::default();
    update.transform_config = Some(TransformConfig { envelope: true, headers: None });
    let u = SubscriptionService.update("sub_1", update);
    assert_eq!(u.field, "updateSubscription");
    assert_eq!(text(member(vars(&u), "id")), Some("sub_1"));
    let Some(Json::Object(obj)) = member(vars(&u), "input") else { panic!("input object") };
    assert_eq!(obj.len(), 1);
    let Some(Json::Object(t)) = member(obj, "transformConfig") else { panic!("transform object") };
    assert!(matches!(member(t, "envelope"), Some(Json::Bool(true))));
    assert!(matches!(member(t, "headers"), Some(Json::Null)));
}

#[test]
fn documents_and_rules_clone_deeply() {
    let doc = Json::Object(vec![
        (String::from("a"), Json::Array(vec![Json::Number(String::from("1.5")), Json::Null])),
        (String::from("b"), Json::Object(vec![(String::from("c"), Json::Bool(true))])),
    ]);
    assert_eq!(format!("{:?}", doc.clone()), format!("{:?}", doc));
    let rule = FilterRule {
        operator: String::from("or"),
        path: None,
        value: Some(doc),
        rules: Some(vec![FilterRule::default(), FilterRule { operator: String::from("eq"), ..Default::default() }]),
    };
    let copy = rule.clone();
    assert_eq!(format!("{:?}", copy), format!("{:?}", rule));
    let config = FilterConfig { rules: Some(vec![copy]), ..Default::default() };
    assert_eq!(format!("{:?}", config.clone()), format!("{:?}", config));
}
