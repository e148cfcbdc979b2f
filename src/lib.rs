//! Telemetry ingestion and classification, device registry, ordered
//! listing, and the operator account and token lifecycle.
//!
//! Metric values and threshold levels are fixed-point numbers counted in
//! hundredths of a unit, as stored in a `numeric(12,2)` column.

mod auth;
mod clock;
mod crypto;
mod generator;
mod models;
mod telemetry;
mod threshold;

pub use models::{
    AuthRequest, Claims, Device, DeviceStatus, LogEntry, Mailbox, MetricType, Role,
    TelemetryData, Threshold, TokenResponse, User, UserInfo,
};
pub use threshold::is_anomaly;
pub use telemetry::{
    insert_event_to_db, poll_tick, receive_telemetry, IngestError, TelemetryEvent,
    TelemetryResponse, TelemetryStore, TickReport, MAX_ROWS, POLL_INTERVAL_SECS,
};
pub use auth::{
    add_account, claims_for, credential_verdict, generate_token, login_at, login_logic, register_logic,
    AccountStore, AuthConfig, AuthError, DEFAULT_HASH_COST, DEFAULT_ROLE, TOKEN_LIFETIME_SECS,
};
pub use generator::{
    generate_event, Catalog, EventBuffer, Picks, MAX_GENERATED_VALUE,
};
