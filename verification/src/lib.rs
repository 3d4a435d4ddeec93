//! A verified emergency roll-call engine for a school safety service.
//!
//! During a declared emergency, staff scan badges or manually mark students
//! as located. The engine turns raw scan events into a consistent,
//! time-windowed safe/missing status per student, keeps an auditable history
//! of every status change, and prepares best-effort push notifications for
//! delivery by the surrounding application.

pub mod attendance;
pub mod clock;
pub mod directory;
pub mod engine;
pub mod errors;
pub mod history;
pub mod justify;
pub mod laws;
pub mod model;
pub mod notify;
pub mod order;
pub mod portal;
pub mod text;

pub use attendance::{AttendanceLog, AttendanceOutcome, AttendanceRecord, CreateAttendanceRequest};
pub use clock::timestamp_text;
pub use directory::{
    CreateGroupRequest, CreateStudentRequest, CreateUserRequest, Directory, Group, Student,
    UpdateStudentGroupRequest, UpdateStudentRequest, User,
};
pub use engine::RollCall;
pub use errors::RollCallError;
pub use history::render_history;
pub use justify::{
    CreateJustificationResponse, Justification, JustificationLog, JustificationStatus,
    UpdateJustificationStatusRequest,
};
pub use model::{
    EmergencyEvent, EmergencyStatus, EmergencyStudent, EmergencyTriggerRequest, HistoryAction,
    RegisterScanRequest, Scan, ScanHistoryItem, ScanKind, SessionSummary, Stats, StatsResponse,
    StatusHistoryEntry, ToggleScanRequest, TriggerResponse,
};
pub use notify::{
    broadcast_emergency_messages, build_messages, NotificationResponse, PushMessage, PushToken,
    RegisterTokenRequest, TokenRegistry,
};
pub use portal::{
    get_student_portal_info, EmergencyStatusInfo, StudentAttendanceRecord, StudentBasicInfo,
    StudentPortalInfo,
};
