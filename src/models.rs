use vstd::prelude::*;

verus! {

/// The signed payload of an issued token.
pub struct Claims {
    /// Subject: the username.
    pub sub: String,
    /// Role name of the account.
    pub role: String,
    /// Expiry, in seconds since the Unix epoch.
    pub exp: u64,
}

/// Body of a registration or login request.
pub struct AuthRequest {
    pub username: String,
    pub password: String,
    pub full_name: Option<String>,
    pub email: Option<String>,
    pub phone_number: Option<String>,
    pub organization: Option<String>,
}

/// Answer of a successful registration or login.
pub struct TokenResponse {
    pub token: String,
}

/// Lifecycle status of a device.
#[derive(PartialEq, Eq, Structural, Clone, Copy, Debug)]
pub enum DeviceStatus {
    Active,
    Warning,
    Inactive,
}

/// An operator account.
pub struct User {
    pub id: i32,
    pub username: String,
    /// Irreversible, salted password verifier.
    pub password_hash: String,
    pub role_id: Option<i32>,
    pub user_info_id: Option<i32>,
    /// Seconds since the Unix epoch.
    pub created_at: i64,
}

/// Profile of an account.
pub struct UserInfo {
    pub id: i32,
    pub full_name: String,
    pub email: String,
    pub phone_number: Option<String>,
    pub organization: Option<String>,
}

/// A role of the role catalog.
pub struct Role {
    pub id: i32,
    pub role_name: String,
}

/// A device, identified by its unique name.
pub struct Device {
    pub id: i32,
    pub device_name: String,
    pub ip_address: String,
    pub location: Option<String>,
    pub status: DeviceStatus,
    pub added_by: Option<i32>,
}

/// A stored, classified reading. Immutable once written.
pub struct TelemetryData {
    pub id: i32,
    pub device_id: Option<i32>,
    pub metric_type_id: Option<i32>,
    /// Hundredths of a unit.
    pub metric_value: i64,
    /// Server time of ingestion, in microseconds since the Unix epoch.
    pub recorded_at: i64,
    pub is_anomaly: bool,
    pub action_description: Option<String>,
}

/// Catalog entry of a metric.
pub struct MetricType {
    pub id: i32,
    pub name: String,
    pub description: Option<String>,
}

/// Classification levels of one metric type, in hundredths of a unit.
pub struct Threshold {
    pub id: i32,
    pub metric_type_id: Option<i32>,
    pub warning_level: Option<i64>,
    pub critical_level: Option<i64>,
    pub created_by: Option<i32>,
}

/// An audit log line.
pub struct LogEntry {
    pub id: i32,
    pub user_id: Option<i32>,
    pub action: String,
    pub details: Option<String>,
    /// Seconds since the Unix epoch.
    pub logged_at: i64,
}

/// A message addressed to an account.
pub struct Mailbox {
    pub id: i32,
    pub user_id: Option<i32>,
    pub title: String,
    pub message: String,
    /// Seconds since the Unix epoch.
    pub created_at: i64,
    pub read_status: bool,
}

} // verus!
