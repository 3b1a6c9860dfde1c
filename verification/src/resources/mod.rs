//! Resource services: for each operation of the API, the GraphQL
//! request that performs it.

pub mod alert_rules;
pub mod api_keys;
pub mod applications;
pub mod audit_logs;
pub mod bookmarks;
pub mod deliveries;
pub mod destinations;
pub mod dlq;
pub mod endpoints;
pub mod event_type_schemas;
pub mod events;
pub mod messages;
pub mod meta_event_configs;
pub mod organizations;
pub mod outbound_deliveries;
pub mod outbound_dlq;
pub mod portal;
pub mod sources;
pub mod status;
pub mod stream_consumers;
pub mod stream_sinks;
pub mod streams;
pub mod subscriptions;
pub mod transformations;
pub mod users;
