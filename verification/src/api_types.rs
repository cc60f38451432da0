//! What the directory API is sent and what it answers.

use vstd::prelude::*;

verus! {

/// What identifies this device to the directory.
pub struct DirectoryIdentity {
    pub rustdesk_id: String,
    pub hostname: String,
    pub friendly_name: String,
    pub contact_email: String,
    pub device_public_key: String,
    pub client_version: String,
}

pub struct EnrollmentDevice {
    pub id: String,
    pub rustdesk_id: String,
    pub hostname: String,
    pub friendly_name: Option<String>,
    pub status: String,
    pub created_at: String,
}

pub struct EnrollmentResponse {
    pub result: String,
    pub device: EnrollmentDevice,
    pub poll_token: String,
    pub poll_expires_at: String,
    pub poll_after_seconds: u64,
}

pub struct EnrollmentStatusResponse {
    pub device_id: String,
    pub rustdesk_id: String,
    pub hostname: String,
    pub friendly_name: Option<String>,
    pub status: String,
    pub status_reason: Option<String>,
    pub status_changed_at: Option<String>,
    pub poll_expires_at: Option<String>,
    pub poll_after_seconds: u64,
    pub credential: Option<String>,
    pub credential_serial: Option<String>,
    pub client_settings: Option<serde_json::Value>,
    pub reenrollment_requested: bool,
    pub reenrollment_request_id: Option<String>,
    pub reenrollment_request_expires_at: Option<String>,
    pub reenrollment_authorized: bool,
    pub reenrollment_authorization_expires_at: Option<String>,
}

pub struct ReenrollmentRequestResponse {
    pub status: String,
    pub device_id: String,
    pub device_status: String,
    pub poll_expires_at: String,
    pub reenrollment_requested: bool,
    pub reenrollment_request_id: Option<String>,
    pub reenrollment_request_expires_at: Option<String>,
    pub reenrollment_authorized: bool,
    pub reenrollment_authorization_expires_at: Option<String>,
}

pub struct DeviceMeResponse {
    pub id: String,
    pub rustdesk_id: String,
    pub hostname: String,
    pub friendly_name: Option<String>,
    pub status: String,
    pub credential_serial: String,
    pub credential_issued_at: String,
    pub credential_expires_at: Option<String>,
    pub instance_id: String,
}

pub struct HeartbeatResponse {
    pub status: String,
    pub server_time: String,
    pub device_status: String,
    pub client_version: Option<String>,
    pub client_settings: Option<serde_json::Value>,
}

pub struct DirectoryDevice {
    pub id: String,
    pub rustdesk_id: String,
    pub display_name: String,
    pub hostname: String,
    pub last_ip: Option<String>,
    pub last_seen_at: Option<String>,
    pub online: bool,
}

/// Absent where an older or degraded server leaves it out.
#[derive(Debug, Clone, Copy)]
pub struct DirectoryServerStats {
    pub online_clients: u64,
    pub active_sessions: u64,
    pub online_window_seconds: u64,
    pub active_session_timeout_seconds: u64,
}

pub struct DirectoryResponse {
    pub instance_id: String,
    pub generated_at: String,
    pub refresh_seconds: u64,
    pub devices: Vec<DirectoryDevice>,
    pub client_settings: Option<serde_json::Value>,
    pub server_stats: Option<DirectoryServerStats>,
}

pub struct RelayLeaseResponse {
    pub status: String,
    pub lease_id: String,
    pub device_id: String,
    pub credential_serial: String,
    pub source_ip: String,
    pub issued_at: String,
    pub expires_at: String,
    pub renew_after_seconds: u64,
    pub firewall_sync_after_seconds: u64,
    pub guard_mode: String,
    pub rustdesk_server: String,
    pub guarded_tcp_ports: Vec<u16>,
    pub guarded_udp_ports: Vec<u16>,
}

} // verus!
