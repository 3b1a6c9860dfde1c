//! Entities of the Hivehook API as plain values: pagination metadata and
//! the records the list and get operations answer with.

use crate::json::Json;
use crate::request::{
    doc_or_null, field, holds, items_hold, text_or_null, texts, texts_or_null, Expected, ObjectBuilder,
};
use vstd::prelude::*;

verus! {

broadcast use vstd::string::group_string_axioms;

/// Page metadata returned alongside list connections.
#[derive(Debug, Clone, Default)]
pub struct PageInfo {
    /// Total number of records matching the query.
    pub total: i64,
    /// Page size used for this response.
    pub limit: i64,
    /// Offset used for this response.
    pub offset: i64,
    /// Cursor pointing at the next page, when cursor pagination is used.
    pub end_cursor: Option<String>,
    /// Whether more records are available after this page.
    pub has_next_page: bool,
}

/// A generic GraphQL connection containing nodes and page metadata.
#[derive(Debug, Clone)]
pub struct ListResult<T> {
    /// The records on this page.
    pub nodes: Vec<T>,
    /// Page metadata describing total count, cursors, etc.
    pub page_info: PageInfo,
}

/// A single body-match clause used in subscription/endpoint filtering.
#[derive(Debug, Clone, Default)]
pub struct BodyMatchRule {
    /// JSON pointer / dotted path into the event body.
    pub path: String,
    /// Comparison value.
    pub value: String,
    /// Operator (`eq`, `neq`, `contains`, ...).
    pub operator: String,
}

/// Custom response config for an ingest source.
#[derive(Debug, Clone, Default)]
pub struct ResponseConfig {
    /// HTTP status code returned by ingest.
    pub status_code: i32,
    /// Static body returned by ingest.
    pub body: String,
    /// Content-Type header returned by ingest.
    pub content_type: String,
}

/// Deduplication policy applied to inbound events.
#[derive(Debug, Clone, Default)]
pub struct DedupConfig {
    /// Deduplication strategy (e.g. `header`, `hash`).
    pub strategy: String,
    /// Fields involved in the deduplication key.
    pub fields: Option<Vec<String>>,
    /// Window over which duplicates are suppressed.
    pub window: Option<String>,
}

/// OAuth2 client-credentials configuration.
#[derive(Debug, Clone, Default)]
pub struct OAuth2Config {
    /// Token endpoint URL.
    pub token_url: String,
    /// Client ID.
    pub client_id: String,
    /// Client secret (stored encrypted server-side).
    pub client_secret: String,
    /// Requested scopes.
    pub scopes: Vec<String>,
    /// Audience for the token.
    pub audience: String,
}

/// Email alert channel configuration.
#[derive(Debug, Clone, Default)]
pub struct EmailAlertConfig {
    /// Recipient addresses.
    pub to: Vec<String>,
    /// Optional subject template.
    pub subject_template: Option<String>,
}

/// Slack alert channel configuration.
#[derive(Debug, Clone, Default)]
pub struct SlackAlertConfig {
    /// Slack incoming webhook URL.
    pub webhook_url: String,
    /// Optional override channel.
    pub channel: Option<String>,
}

/// A single delivery attempt.
#[derive(Debug, Clone, Default)]
pub struct DeliveryAttempt {
    /// Attempt identifier.
    pub id: String,
    /// Parent delivery identifier.
    pub delivery_id: String,
    /// 1-indexed attempt number.
    pub attempt_number: i32,
    /// HTTP status code returned by the destination.
    pub response_status: i32,
    /// Response body (truncated).
    pub response_body: String,
    /// Transport error, if any.
    pub error: String,
    /// Wall-clock duration of the attempt.
    pub duration_ms: i32,
    /// Attempt timestamp.
    pub attempted_at: String,
}

/// A delivery of an event to a destination.
#[derive(Debug, Clone, Default)]
pub struct Delivery {
    /// Delivery identifier.
    pub id: String,
    /// Originating event identifier.
    pub event_id: String,
    /// Subscription that produced this delivery.
    pub subscription_id: String,
    /// Target destination.
    pub destination_id: String,
    /// Current delivery status.
    pub status: String,
    /// Number of attempts made so far.
    pub attempts: i32,
    /// Maximum allowed attempts.
    pub max_attempts: i32,
    /// Next scheduled attempt timestamp, if pending.
    pub next_attempt_at: Option<String>,
    /// Creation timestamp.
    pub created_at: String,
    /// Detailed list of attempts (only populated when explicitly requested).
    pub delivery_attempts: Option<Vec<DeliveryAttempt>>,
}

/// A dead-letter queue entry for an inbound delivery.
#[derive(Debug, Clone, Default)]
pub struct DlqEntry {
    /// DLQ entry identifier.
    pub id: String,
    /// Failed delivery identifier.
    pub delivery_id: String,
    /// Originating event identifier.
    pub event_id: String,
    /// Last error captured before the entry was dead-lettered.
    pub last_error: String,
    /// Timestamp the entry was replayed, if it was.
    pub replayed_at: Option<String>,
    /// Creation timestamp.
    pub created_at: String,
}

/// An API key issued for accessing the Hivehook API.
#[derive(Debug, Clone, Default)]
pub struct ApiKey {
    /// API key identifier.
    pub id: String,
    /// Human-readable name.
    pub name: String,
    /// Public key prefix (never the full key after creation).
    pub key_prefix: String,
    /// Granted scopes.
    pub scopes: Vec<String>,
    /// Sources this key is scoped to (empty == all).
    pub source_ids: Vec<String>,
    /// Creation timestamp.
    pub created_at: String,
    /// Optional expiry timestamp.
    pub expires_at: Option<String>,
    /// Revocation timestamp, if revoked.
    pub revoked_at: Option<String>,
    /// Last-used timestamp.
    pub last_used_at: Option<String>,
}

/// Wrapper returned by `apiKeys.create()` containing the one-time raw key.
#[derive(Debug, Clone)]
pub struct ApiKeyWithSecret {
    /// The persistent API key metadata.
    pub api_key: ApiKey,
    /// The raw API key string (only available at creation time).
    pub raw_key: String,
}

/// An alert rule firing on system events.
#[derive(Debug, Clone, Default)]
pub struct AlertRule {
    /// Alert rule identifier.
    pub id: String,
    /// Human-readable name.
    pub name: String,
    /// Type of condition that triggers the alert.
    pub condition_type: String,
    /// Numeric threshold.
    pub threshold: i32,
    /// Webhook URL for the `WEBHOOK` channel.
    pub webhook_url: String,
    /// Output channel (`WEBHOOK`, `EMAIL`, `SLACK`).
    pub channel: String,
    /// Email channel configuration.
    pub email_config: Option<EmailAlertConfig>,
    /// Slack channel configuration.
    pub slack_config: Option<SlackAlertConfig>,
    /// Cooldown between firings, as a Go duration.
    pub cooldown: String,
    /// Whether the rule is enabled.
    pub enabled: bool,
    /// Creation timestamp.
    pub created_at: String,
}

/// A user-supplied bookmark on an event.
#[derive(Debug, Clone, Default)]
pub struct Bookmark {
    /// Bookmark identifier.
    pub id: String,
    /// Bookmarked event identifier.
    pub event_id: String,
    /// Bookmark name.
    pub name: String,
    /// Free-form notes.
    pub notes: String,
    /// Creation timestamp.
    pub created_at: String,
}

/// An outbound application that emits messages.
#[derive(Debug, Clone, Default)]
pub struct Application {
    /// Application identifier.
    pub id: String,
    /// Human-readable name.
    pub name: String,
    /// Caller-supplied unique identifier.
    pub uid: String,
    /// Creation timestamp.
    pub created_at: String,
}

/// An outbound message queued for delivery.
#[derive(Debug, Clone, Default)]
pub struct Message {
    /// Message identifier.
    pub id: String,
    /// Owning application.
    pub application_id: String,
    /// Event type identifier.
    pub event_type: String,
    /// Base64-encoded payload (when present).
    pub payload: Option<String>,
    /// Idempotency key.
    pub idempotency_key: String,
    /// Processing status.
    pub status: String,
    /// Creation timestamp.
    pub created_at: String,
}

/// A single outbound delivery attempt.
#[derive(Debug, Clone, Default)]
pub struct OutboundDeliveryAttempt {
    /// Attempt identifier.
    pub id: String,
    /// Parent delivery identifier.
    pub delivery_id: String,
    /// 1-indexed attempt number.
    pub attempt_number: i32,
    /// HTTP status code from the endpoint.
    pub response_status: i32,
    /// Truncated response body.
    pub response_body: String,
    /// Transport error, if any.
    pub error: String,
    /// Attempt duration.
    pub duration_ms: i32,
    /// Attempt timestamp.
    pub attempted_at: String,
}

/// A delivery of a message to an endpoint.
#[derive(Debug, Clone, Default)]
pub struct OutboundDelivery {
    /// Delivery identifier.
    pub id: String,
    /// Originating message identifier.
    pub message_id: String,
    /// Target endpoint.
    pub endpoint_id: String,
    /// Current status.
    pub status: String,
    /// Attempts made so far.
    pub attempts: i32,
    /// Maximum allowed attempts.
    pub max_attempts: i32,
    /// Next scheduled attempt timestamp.
    pub next_attempt_at: Option<String>,
    /// Creation timestamp.
    pub created_at: String,
    /// Detailed list of attempts.
    pub delivery_attempts: Option<Vec<OutboundDeliveryAttempt>>,
}

/// A dead-letter queue entry for an outbound delivery.
#[derive(Debug, Clone, Default)]
pub struct OutboundDlqEntry {
    /// DLQ entry identifier.
    pub id: String,
    /// Failed delivery identifier.
    pub delivery_id: String,
    /// Originating message identifier.
    pub message_id: String,
    /// Last error.
    pub last_error: String,
    /// Timestamp the entry was replayed, if it was.
    pub replayed_at: Option<String>,
    /// Creation timestamp.
    pub created_at: String,
}

/// System health and counters.
#[derive(Debug, Clone, Default)]
pub struct SystemStatus {
    /// Overall status string (`healthy`, etc.).
    pub status: String,
    /// Size of the inbound DLQ.
    pub dlq_size: i64,
    /// Size of the outbound DLQ.
    pub outbound_dlq_size: i64,
    /// Queue depth across destinations.
    pub queue_depth: i64,
    /// Workers currently processing a delivery.
    pub active_workers: i32,
    /// Configured worker pool size.
    pub total_workers: i32,
    /// Uptime in seconds.
    pub uptime: i64,
    /// Build version.
    pub version: String,
    /// Total number of sources.
    pub sources_total: i64,
    /// Total number of destinations.
    pub destinations_total: i64,
    /// Total number of subscriptions.
    pub subscriptions_total: i64,
    /// Total number of events received.
    pub events_total: i64,
    /// Total number of failed events.
    pub events_failed: i64,
    /// Total deliveries.
    pub deliveries_total: i64,
    /// Pending deliveries.
    pub deliveries_pending: i64,
    /// Delivered deliveries.
    pub deliveries_delivered: i64,
    /// Total outbound messages.
    pub messages_total: i64,
    /// Total outbound deliveries.
    pub outbound_deliveries_total: i64,
    /// Pending outbound deliveries.
    pub outbound_deliveries_pending: i64,
    /// Failed outbound deliveries.
    pub outbound_deliveries_failed: i64,
}

/// Result of a DLQ replay-all operation.
#[derive(Debug, Clone, Default)]
pub struct ReplayResult {
    /// Number of deliveries enqueued for replay.
    pub deliveries: i64,
}

/// Result of a DLQ purge operation.
#[derive(Debug, Clone, Default)]
pub struct PurgeResult {
    /// Number of entries purged.
    pub purged: i64,
}

/// A custom transformation script applied to events.
#[derive(Debug, Clone, Default)]
pub struct Transformation {
    /// Transformation identifier.
    pub id: String,
    /// Human-readable name.
    pub name: String,
    /// Free-form description.
    pub description: String,
    /// Script source.
    pub code: String,
    /// Whether the transformation is enabled.
    pub enabled: bool,
    /// Whether failures fall through (vs. dropping the event).
    pub fail_open: bool,
    /// Execution timeout in milliseconds.
    pub timeout_ms: i32,
    /// Creation timestamp.
    pub created_at: String,
    /// Update timestamp.
    pub updated_at: String,
}

/// A short-lived token granting access to the management portal.
#[derive(Debug, Clone, Default)]
pub struct PortalToken {
    /// Opaque token value.
    pub token: String,
    /// Token expiry timestamp.
    pub expires_at: String,
}

/// A user within an organization.
#[derive(Debug, Clone, Default)]
pub struct User {
    /// User identifier.
    pub id: String,
    /// Owning organization.
    pub organization_id: String,
    /// Email address.
    pub email: String,
    /// Display name.
    pub name: String,
    /// Role (`admin`, `member`, ...).
    pub role: String,
    /// Last-login timestamp.
    pub last_login_at: Option<String>,
    /// Creation timestamp.
    pub created_at: String,
    /// Update timestamp.
    pub updated_at: String,
}

/// A persisted stream of events emitted by an application.
#[derive(Debug, Clone, Default)]
pub struct Stream {
    /// Stream identifier.
    pub id: String,
    /// Owning application.
    pub application_id: String,
    /// Stream name.
    pub name: String,
    /// Status (`active`, `paused`, ...).
    pub status: String,
    /// Retention in days.
    pub retention_days: i32,
    /// Creation timestamp.
    pub created_at: String,
}

/// A consumer cursor over a stream.
#[derive(Debug, Clone, Default)]
pub struct StreamConsumer {
    /// Consumer identifier.
    pub id: String,
    /// Owning stream.
    pub stream_id: String,
    /// Consumer name.
    pub name: String,
    /// Last acknowledged sequence number.
    pub cursor_sequence: i64,
    /// Creation timestamp.
    pub created_at: String,
    /// Update timestamp.
    pub updated_at: String,
}

/// A single message persisted in a Stream's log.
#[derive(Debug, Clone, Default)]
pub struct StreamEntry {
    /// Entry identifier.
    pub id: String,
    /// Owning stream.
    pub stream_id: String,
    /// Monotonically increasing position in the stream.
    pub sequence: i64,
    /// Source Message ID, when the entry originated from a published Message.
    pub message_id: Option<String>,
    /// Event type carried by the entry.
    pub event_type: String,
    /// Base64-encoded payload.
    pub payload: String,
    /// Creation timestamp.
    pub created_at: String,
}

/// A meta-event webhook configuration: forwards events about events
/// (delivery.failed, source.created, etc.) to an external receiver.
#[derive(Debug, Clone, Default)]
pub struct MetaEventConfig {
    /// Config identifier.
    pub id: String,
    /// Human-readable name.
    pub name: String,
    /// Receiver URL.
    pub url: String,
    /// HMAC signing secret returned by the server.
    pub signing_secret: String,
    /// Meta-event types this config subscribes to.
    pub event_types: Vec<String>,
    /// Whether the config is currently active.
    pub enabled: bool,
    /// Creation timestamp.
    pub created_at: String,
}
impl EmailAlertConfig {
    /// The members of the JSON object this configuration is sent as; an
    /// absent subject template is sent as `null`.
    pub open spec fn members(self) -> Seq<(Seq<char>, Expected)> {
        field("to"@, Expected::Texts(texts(self.to@)))
            + text_or_null("subjectTemplate"@, self.subject_template)
    }

    /// The JSON object this configuration is sent as.
    pub fn to_object(self) -> (b: ObjectBuilder)
        ensures
            b.wf(),
            b.expected@ == self.members(),
    {
        let ghost spec = self.members();
        let mut b = ObjectBuilder::new();
        b.put_texts("to", self.to);
        b.put_text_or_null("subjectTemplate", self.subject_template);
        assert(b.expected@ =~= spec);
        b
    }
}

impl SlackAlertConfig {
    /// The members of the JSON object this configuration is sent as; an
    /// absent channel is sent as `null`.
    pub open spec fn members(self) -> Seq<(Seq<char>, Expected)> {
        field("webhookUrl"@, Expected::Text(self.webhook_url@))
            + text_or_null("channel"@, self.channel)
    }

    /// The JSON object this configuration is sent as.
    pub fn to_object(self) -> (b: ObjectBuilder)
        ensures
            b.wf(),
            b.expected@ == self.members(),
    {
        let ghost spec = self.members();
        let mut b = ObjectBuilder::new();
        b.put_string("webhookUrl", self.webhook_url);
        b.put_text_or_null("channel", self.channel);
        assert(b.expected@ =~= spec);
        b
    }
}

/// A recursive filter rule supporting boolean groups.
#[derive(Debug, Default)]
pub struct FilterRule {
    /// Operator, e.g. `eq`, `and`, `or`.
    pub operator: String,
    /// Optional JSON path target.
    pub path: Option<String>,
    /// Optional comparison value (any JSON value).
    pub value: Option<Json>,
    /// Optional nested rules for boolean groups.
    pub rules: Option<Vec<FilterRule>>,
}

/// Whether `a` and `b` hold the same text, or are both absent.
pub open spec fn same_text(a: Option<String>, b: Option<String>) -> bool {
    match a {
        Some(x) => b matches Some(y) && x@ == y@,
        None => b is None,
    }
}

/// Whether `a` and `b` are the same rule: the same operator, path and
/// value, and rule for rule the same nested rules.
pub open spec fn same_rule(a: FilterRule, b: FilterRule) -> bool
    decreases a, 1nat,
{
    &&& a.operator@ == b.operator@
    &&& same_text(a.path, b.path)
    &&& match a.value {
        Some(x) => b.value matches Some(y) && crate::json::same_doc(x, y),
        None => b.value is None,
    }
    &&& match a.rules {
        Some(x) => b.rules matches Some(y) && same_rules(x@, y@),
        None => b.rules is None,
    }
}

/// Whether `x` and `y` hold the same rules, in order.
pub open spec fn same_rules(x: Seq<FilterRule>, y: Seq<FilterRule>) -> bool
    decreases x, 0nat,
{
    if x.len() == 0 {
        y.len() == 0
    } else {
        y.len() == x.len() && same_rule(x.last(), y.last()) && same_rules(x.drop_last(), y.drop_last())
    }
}

/// A copy of the filter rule `r`, nested rules included.
fn copy_rule(r: &FilterRule) -> (c: FilterRule)
    ensures
        same_rule(*r, c),
    decreases *r,
{
    let rules = match &r.rules {
        Some(rs) => {
            let mut out: Vec<FilterRule> = Vec::new();
            let mut i: usize = 0;
            while i < rs.len()
                invariant
                    i <= rs@.len(),
                    r.rules == Some(*rs),
                    same_rules(rs@.take(i as int), out@),
                decreases rs.len() - i,
            {
                proof {
                    vstd::std_specs::vec::axiom_vec_index_decreases(*rs, i as int);
                    assert(decreases_to!(*r => r.rules));
                    assert(decreases_to!(r.rules => (r.rules)->0));
                }
                let c = copy_rule(&rs[i]);
                let ghost before = out@;
                out.push(c);
                assert(rs@.take(i + 1).drop_last() == rs@.take(i as int));
                assert(out@.drop_last() == before);
                i = i + 1;
            }
            assert(rs@.take(rs@.len() as int) == rs@);
            Some(out)
        },
        None => None,
    };
    let value = match &r.value {
        Some(v) => Some(v.clone()),
        None => None,
    };
    let path = match &r.path {
        Some(p) => Some(p.clone()),
        None => None,
    };
    FilterRule { operator: r.operator.clone(), path, value, rules }
}

impl Clone for FilterRule {
    /// A copy of the rule, nested rules included.
    fn clone(&self) -> (c: Self)
        ensures
            same_rule(*self, c),
    {
        copy_rule(self)
    }
}

/// Filter configuration attached to a subscription or endpoint.
#[derive(Debug, Default, Clone)]
pub struct FilterConfig {
    /// Allow-list of event types.
    pub event_types: Option<Vec<String>>,
    /// Allow-list of regular expressions matching event types.
    pub regex: Option<Vec<String>>,
    /// Body-match clauses.
    pub body_match: Option<Vec<BodyMatchRule>>,
    /// Top-level recursive rules.
    pub rules: Option<Vec<FilterRule>>,
}

/// Transformation configuration applied before delivery.
#[derive(Debug, Default, Clone)]
pub struct TransformConfig {
    /// Whether the payload should be wrapped in a Hivehook envelope.
    pub envelope: bool,
    /// Additional headers to merge into the outbound request, as the
    /// members of a JSON object.
    pub headers: Option<Vec<(String, Json)>>,
}

/// The JSON object a body-match clause is sent as.
pub open spec fn body_match_shape(r: BodyMatchRule) -> Expected {
    Expected::Obj(
        field("path"@, Expected::Text(r.path@)) + field("value"@, Expected::Text(r.value@))
            + field("operator"@, Expected::Text(r.operator@)),
    )
}

/// The JSON objects body-match clauses are sent as.
pub open spec fn body_match_shapes(rs: Seq<BodyMatchRule>) -> Seq<Expected> {
    rs.map_values(|r: BodyMatchRule| body_match_shape(r))
}

/// The JSON object a filter rule is sent as: every field present, an
/// absent one as `null`, nested rules as an array of such objects.
pub open spec fn rule_shape(r: FilterRule) -> Expected
    decreases r,
{
    let nested = match r.rules {
        Some(rs) => Expected::List(rules_shapes(rs@)),
        None => Expected::Doc(Json::Null),
    };
    Expected::Obj(
        field("operator"@, Expected::Text(r.operator@)) + text_or_null("path"@, r.path)
            + doc_or_null("value"@, r.value) + field("rules"@, nested),
    )
}

/// The JSON objects filter rules are sent as.
pub open spec fn rules_shapes(rs: Seq<FilterRule>) -> Seq<Expected>
    decreases rs,
{
    if rs.len() == 0 {
        Seq::empty()
    } else {
        rules_shapes(rs.drop_last()).push(rule_shape(rs.last()))
    }
}

impl BodyMatchRule {
    /// The JSON object this clause is sent as.
    pub fn to_json(self) -> (j: Json)
        ensures
            holds(j, body_match_shape(self)),
    {
        let ghost spec = match body_match_shape(self) {
            Expected::Obj(f) => f,
            _ => Seq::empty(),
        };
        let mut b = ObjectBuilder::new();
        b.put_string("path", self.path);
        b.put_string("value", self.value);
        b.put_string("operator", self.operator);
        assert(b.expected@ =~= spec);
        b.finish()
    }
}

/// The JSON array body-match clauses are sent as.
pub fn body_match_json(rs: Vec<BodyMatchRule>) -> (v: Vec<Json>)
    ensures
        items_hold(v@, body_match_shapes(rs@)),
{
    let ghost all = rs@;
    let n = rs.len();
    let mut rest = rs;
    let mut items: Vec<Json> = Vec::new();
    let mut i: usize = 0;
    while i < n
        invariant
            n == all.len(),
            i <= n,
            rest@ == all.subrange(i as int, n as int),
            items_hold(items@, body_match_shapes(all.take(i as int))),
        decreases n - i,
    {
        let r = rest.remove(0);
        let ghost before = items@;
        items.push(r.to_json());
        assert(items@.drop_last() == before);
        assert(body_match_shapes(all.take(i + 1)).drop_last() =~= body_match_shapes(all.take(i as int)));
        assert(rest@ =~= all.subrange(i + 1, n as int));
        i = i + 1;
    }
    assert(all.take(n as int) =~= all);
    items
}

impl FilterRule {
    /// The JSON object this rule is sent as.
    pub fn to_json(self) -> (j: Json)
        ensures
            holds(j, rule_shape(self)),
        decreases self,
    {
        let ghost whole = self;
        let mut b = ObjectBuilder::new();
        b.put_string("operator", self.operator);
        b.put_text_or_null("path", self.path);
        b.put_doc_or_null("value", self.value);
        match self.rules {
            Some(rs) => {
                let ghost l = rules_shapes(rs@);
                let items = rules_json(rs);
                b.put_list("rules", items, Ghost(l));
            },
            None => {
                b.put_doc("rules", Json::Null);
            },
        }
        let ghost spec = match rule_shape(whole) {
            Expected::Obj(f) => f,
            _ => Seq::empty(),
        };
        assert(b.expected@ =~= spec);
        b.finish()
    }
}

/// The JSON array filter rules are sent as.
pub fn rules_json(rs: Vec<FilterRule>) -> (v: Vec<Json>)
    ensures
        items_hold(v@, rules_shapes(rs@)),
    decreases rs@,
{
    let ghost all = rs@;
    let mut rest = rs;
    match rest.pop() {
        None => {
            assert(all.len() == 0);
            Vec::new()
        },
        Some(last) => {
            assert(rest@ == all.drop_last());
            assert(last == all.last());
            let ghost shapes = rules_shapes(all);
            assert(shapes == rules_shapes(all.drop_last()).push(rule_shape(all.last())));
            let mut v = rules_json(rest);
            let ghost before = v@;
            v.push(last.to_json());
            assert(v@.drop_last() == before);
            assert(shapes.drop_last() == rules_shapes(all.drop_last()));
            assert(items_hold(v@, shapes));
            v
        },
    }
}

impl FilterConfig {
    /// The members of the JSON object this configuration is sent as; an
    /// absent field is sent as `null`.
    pub open spec fn members(self) -> Seq<(Seq<char>, Expected)> {
        texts_or_null("eventTypes"@, self.event_types) + texts_or_null("regex"@, self.regex)
            + field(
            "bodyMatch"@,
            match self.body_match {
                Some(v) => Expected::List(body_match_shapes(v@)),
                None => Expected::Doc(Json::Null),
            },
        ) + field(
            "rules"@,
            match self.rules {
                Some(v) => Expected::List(rules_shapes(v@)),
                None => Expected::Doc(Json::Null),
            },
        )
    }

    /// The JSON object this configuration is sent as.
    pub fn to_object(self) -> (b: ObjectBuilder)
        ensures
            b.wf(),
            b.expected@ == self.members(),
    {
        let ghost spec = self.members();
        let mut b = ObjectBuilder::new();
        b.put_texts_or_null("eventTypes", self.event_types);
        b.put_texts_or_null("regex", self.regex);
        match self.body_match {
            Some(v) => {
                let ghost l = body_match_shapes(v@);
                b.put_list("bodyMatch", body_match_json(v), Ghost(l));
            },
            None => {
                b.put_doc("bodyMatch", Json::Null);
            },
        }
        match self.rules {
            Some(v) => {
                let ghost l = rules_shapes(v@);
                b.put_list("rules", rules_json(v), Ghost(l));
            },
            None => {
                b.put_doc("rules", Json::Null);
            },
        }
        assert(b.expected@ =~= spec);
        b
    }
}

impl TransformConfig {
    /// The members of the JSON object this configuration is sent as; absent
    /// headers are sent as `null`.
    pub open spec fn members(self) -> Seq<(Seq<char>, Expected)> {
        field("envelope"@, Expected::Flag(self.envelope)) + field(
            "headers"@,
            match self.headers {
                Some(m) => Expected::Doc(Json::Object(m)),
                None => Expected::Doc(Json::Null),
            },
        )
    }

    /// The JSON object this configuration is sent as.
    pub fn to_object(self) -> (b: ObjectBuilder)
        ensures
            b.wf(),
            b.expected@ == self.members(),
    {
        let ghost spec = self.members();
        let mut b = ObjectBuilder::new();
        b.put_flag("envelope", self.envelope);
        match self.headers {
            Some(m) => {
                b.put_members("headers", m);
            },
            None => {
                b.put_doc("headers", Json::Null);
            },
        }
        assert(b.expected@ =~= spec);
        b
    }
}

/// The output format a destination or endpoint reads as when the API's
/// answer leaves it out.
pub fn default_output_format() -> (s: String)
    ensures
        s@ == "default"@,
{
    String::from_str("default")
}

/// The channel an alert rule reads as when the API's answer leaves it out.
pub fn default_alert_channel() -> (s: String)
    ensures
        s@ == "WEBHOOK"@,
{
    String::from_str("WEBHOOK")
}

} // verus!
