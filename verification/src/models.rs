use vstd::prelude::*;

verus! {

/// Declares the JSON value type carried unread inside a [`SecurityEvent`].
#[verifier::external_type_specification]
#[verifier::external_body]
pub struct ExJsonValue(serde_json::Value);

/// A user account as stored in the `users` table.
#[derive(Debug, Clone)]
pub struct User {
    pub id: String,
    pub email: String,
    pub password_hash: String,
    pub role_id: Option<String>,
    pub is_active: i32,
}

/// Body of a login request.
#[derive(Debug)]
pub struct LoginRequest {
    pub email: String,
    pub password: String,
}

/// Body of a registration request; the role is optional.
#[derive(Debug)]
pub struct RegisterRequest {
    pub email: String,
    pub password: String,
    pub role: Option<String>,
}

/// Reply to a successful login.
#[derive(Debug)]
pub struct AuthResponse {
    pub token: String,
    pub token_type: String,
}

/// Claims carried by an access token.
#[derive(Debug, Clone)]
pub struct Claims {
    pub sub: String,
    pub email: String,
    pub role: String,
    pub exp: usize,
}

/// A security event reported by an agent.
///
/// `event_type` is for instance `"FAILED_LOGIN"`, `"PROCESS_CREATION"` or
/// `"NETWORK_CONN"`; `source` an address or a service name; `severity` one of
/// `"LOW"`, `"MEDIUM"`, `"HIGH"`, `"CRITICAL"`. `raw_data` is the raw log
/// content as JSON and is carried through unread.
#[derive(Debug)]
pub struct SecurityEvent {
    pub agent_id: String,
    pub event_type: String,
    pub source: String,
    pub severity: String,
    pub raw_data: serde_json::Value,
}

/// A role as stored in the `roles` table.
#[derive(Debug, Clone)]
pub struct Role {
    pub id: String,
    pub name: String,
}

/// A monitored machine.
#[derive(Debug, Clone)]
pub struct Machine {
    pub id: String,
    pub hostname: String,
    pub os: Option<String>,
    pub ip_address: Option<String>,
    pub status: Option<String>,
    pub last_seen: Option<String>,
}

/// An agent installed on a machine.
#[derive(Debug, Clone)]
pub struct Agent {
    pub id: String,
    pub version: Option<String>,
    pub api_key: Option<String>,
    pub machine_id: Option<String>,
    pub last_heartbeat: Option<String>,
}

/// A stored event row.
#[derive(Debug, Clone)]
pub struct Event {
    pub id: Option<i64>,
    pub agent_id: Option<String>,
    pub event_type: Option<String>,
    pub source: Option<String>,
    pub raw_data: Option<String>,
    pub received_at: Option<String>,
}

/// A detection rule row.
#[derive(Debug, Clone)]
pub struct Rule {
    pub id: String,
    pub name: Option<String>,
    pub description: Option<String>,
    pub condition: Option<String>,
    pub severity: Option<String>,
    pub is_active: Option<i32>,
}

/// An alert row.
#[derive(Debug, Clone)]
pub struct Alert {
    pub id: String,
    pub rule_id: Option<String>,
    pub event_id: Option<i64>,
    pub title: Option<String>,
    pub description: Option<String>,
    pub severity: Option<String>,
    pub status: Option<String>,
    pub created_at: Option<String>,
}

/// An incident row.
#[derive(Debug, Clone)]
pub struct Incident {
    pub id: String,
    pub title: Option<String>,
    pub status: Option<String>,
    pub assigned_to: Option<String>,
    pub created_at: Option<String>,
}

/// An audit-log row.
#[derive(Debug, Clone)]
pub struct AuditLog {
    pub id: Option<i64>,
    pub user_id: Option<String>,
    pub action: Option<String>,
    pub target: Option<String>,
    pub created_at: Option<String>,
}

} // verus!
