use vstd::prelude::*;

verus! {

/// How a student came to be marked safe.
#[derive(Clone, Copy, Debug, PartialEq, Eq, Structural)]
pub enum ScanKind {
    /// An automated check-in via card or QR identification.
    Badge,
    /// A staff-initiated status flip not tied to a physical scan.
    Manual,
}

/// What a status-changing action did, for the audit trail.
#[derive(Clone, Copy, Debug, PartialEq, Eq, Structural)]
pub enum HistoryAction {
    MarkedSafeScan,
    MarkedSafeManual,
    Revoked,
}

/// One activation-to-deactivation interval during which scans are meaningful.
pub struct EmergencyEvent {
    pub id: u64,
    pub active: bool,
    /// When the session was opened, in milliseconds since the Unix epoch.
    pub start_time: i64,
    /// When the session was closed; `None` while it is still open.
    pub end_time: Option<i64>,
    /// The staff member who triggered the session.
    pub triggered_by: i64,
}

impl Clone for EmergencyEvent {
    fn clone(&self) -> (r: Self)
        ensures
            r == *self,
    {
        EmergencyEvent {
            id: self.id,
            active: self.active,
            start_time: self.start_time,
            end_time: self.end_time,
            triggered_by: self.triggered_by,
        }
    }
}

/// One row of the scan ledger: who scanned whom, when, by what means.
/// Rows are only ever inserted, or deleted as part of a toggle.
pub struct Scan {
    pub id: u64,
    pub student_id: String,
    pub user_id: i64,
    pub timestamp: i64,
    pub scan_type: ScanKind,
}

impl Clone for Scan {
    fn clone(&self) -> (r: Self)
        ensures
            r == *self,
    {
        Scan {
            id: self.id,
            student_id: self.student_id.clone(),
            user_id: self.user_id,
            timestamp: self.timestamp,
            scan_type: self.scan_type,
        }
    }
}

/// One row of the append-only audit trail, independent of session windowing.
pub struct StatusHistoryEntry {
    pub id: u64,
    pub student_id: String,
    pub user_id: i64,
    pub action: HistoryAction,
    pub timestamp: i64,
}

impl Clone for StatusHistoryEntry {
    fn clone(&self) -> (r: Self)
        ensures
            r == *self,
    {
        StatusHistoryEntry {
            id: self.id,
            student_id: self.student_id.clone(),
            user_id: self.user_id,
            action: self.action,
            timestamp: self.timestamp,
        }
    }
}

/// The final tally appended when a session closes.
#[derive(Clone, Copy, Debug, PartialEq, Eq, Structural)]
pub struct SessionSummary {
    pub event_id: u64,
    pub end_time: i64,
    pub total: usize,
    pub scanned: usize,
    pub missing: usize,
}

/// Response of the status poll: is a session active right now?
#[derive(Clone, Copy, Debug, PartialEq, Eq, Structural)]
pub struct EmergencyStatus {
    pub active: bool,
}

/// Request to open (`active = true`) or close (`active = false`) a session.
#[derive(Clone, Copy, Debug, PartialEq, Eq, Structural)]
pub struct EmergencyTriggerRequest {
    pub active: bool,
    pub user_id: i64,
}

/// What a successful trigger reports back: the new session state, and on
/// deactivation the closing tally.
#[derive(Clone, Copy, Debug, PartialEq, Eq, Structural)]
pub struct TriggerResponse {
    pub active: bool,
    pub stats: Option<SessionSummary>,
}

/// Request to record a badge scan for a student (by id or card UID).
pub struct RegisterScanRequest {
    pub student_id: String,
    pub user_id: i64,
}

/// Request to flip a student's safe/missing status by hand.
pub struct ToggleScanRequest {
    pub student_id: String,
    pub user_id: i64,
}

/// One audit row rendered for display: names resolved, timestamp formatted.
pub struct ScanHistoryItem {
    pub id: u64,
    pub student_name: String,
    pub user_name: String,
    pub action: HistoryAction,
    pub timestamp: String,
}

impl Clone for ScanHistoryItem {
    fn clone(&self) -> (r: Self)
        ensures
            r == *self,
    {
        ScanHistoryItem {
            id: self.id,
            student_name: self.student_name.clone(),
            user_name: self.user_name.clone(),
            action: self.action,
            timestamp: self.timestamp.clone(),
        }
    }
}

/// One line of the roll-call board: a student and their windowed status.
pub struct EmergencyStudent {
    pub id: String,
    pub names: String,
    pub paternal_last_name: String,
    pub maternal_last_name: String,
    pub group: String,
    pub major: String,
    pub scanned: bool,
    /// Colour tag of the staff member whose scan last marked the student,
    /// within the active window.
    pub teacher_color: Option<String>,
}

/// Service-level counters for the dashboard.
#[derive(Clone, Copy, Debug, PartialEq, Eq, Structural)]
pub struct StatsResponse {
    pub total_students: usize,
    pub scans_today: usize,
    pub active_emergency: bool,
}

/// Plain totals of the directory and the scan ledger.
#[derive(Clone, Copy, Debug, PartialEq, Eq, Structural)]
pub struct Stats {
    pub total_students: usize,
    pub total_users: usize,
    pub total_scans: usize,
    pub total_groups: usize,
}

} // verus!
