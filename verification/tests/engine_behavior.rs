use rollcall::{
    CreateStudentRequest, CreateUserRequest, Directory, EmergencyTriggerRequest, HistoryAction,
    RegisterScanRequest, RollCall, RollCallError, ToggleScanRequest,
};

const HOUR: i64 = 3_600_000;
const MINUTE: i64 = 60_000;

fn student(id: &str, card: Option<&str>, group: &str) -> CreateStudentRequest {
    CreateStudentRequest {
        id: id.to_string(),
        card_uid: card.map(|c| c.to_string()),
        names: "Ana".to_string(),
        paternal_last_name: "Lopez".to_string(),
        maternal_last_name: None,
        birth_date: "2008-03-14".to_string(),
        major: "Science".to_string(),
        group: group.to_string(),
        blood_type: None,
        allergies: None,
        chronic_diseases: None,
        personal_phone: None,
        primary_guardian_phone: None,
        emergency_phone: None,
    }
}

fn sample_directory() -> Directory {
    let mut dir = Directory::new();
    dir.create_student(student("S1", Some("CARD-1"), "3A")).unwrap();
    dir.create_student(student("S2", None, "3B")).unwrap();
    let staff = CreateUserRequest {
        username: "mmejia".to_string(),
        display_name: "M. Mejia".to_string(),
        role: "Teacher".to_string(),
        color: Some("#ff8800".to_string()),
        phone_number: None,
    };
    dir.create_user(staff, &"sturdy-pass".to_string(), "hash-1".to_string()).unwrap();
    dir
}

fn staff_id(dir: &Directory) -> i64 {
    dir.get_all_users()[0].id
}

#[test]
fn status_starts_inactive() {
    let rc = RollCall::new();
    assert!(!rc.get_emergency_status().active);
}

#[test]
fn trigger_conflicts_when_already_active() {
    let dir = sample_directory();
    let mut rc = RollCall::new();
    let uid = staff_id(&dir);
    let first = rc
        .trigger_emergency(&dir, EmergencyTriggerRequest { active: true, user_id: uid }, 1_000)
        .unwrap();
    assert!(first.active);
    assert!(first.stats.is_none());
    assert!(rc.get_emergency_status().active);

    // A session cannot be started twice: the second trigger is rejected and
    // no second active row appears.
    let second =
        rc.trigger_emergency(&dir, EmergencyTriggerRequest { active: true, user_id: uid }, 2_000);
    assert_eq!(second, Err(RollCallError::Conflict));
    assert!(rc.get_emergency_status().active);
}

#[test]
fn deactivating_when_inactive_is_not_found() {
    let dir = sample_directory();
    let mut rc = RollCall::new();
    let uid = staff_id(&dir);
    let r = rc.trigger_emergency(&dir, EmergencyTriggerRequest { active: false, user_id: uid }, 500);
    assert_eq!(r, Err(RollCallError::NotFound));
}

#[test]
fn toggle_outside_session_is_rejected() {
    let mut rc = RollCall::new();
    let req = ToggleScanRequest { student_id: "S1".to_string(), user_id: 1 };
    assert_eq!(rc.toggle_scan_status(&req, 1_000), Err(RollCallError::NoActiveSession));
}

#[test]
fn toggle_twice_returns_to_original_status() {
    let dir = sample_directory();
    let mut rc = RollCall::new();
    let uid = staff_id(&dir);
    let t0: i64 = 10 * HOUR;
    rc.trigger_emergency(&dir, EmergencyTriggerRequest { active: true, user_id: uid }, t0)
        .unwrap();

    let req = ToggleScanRequest { student_id: "S1".to_string(), user_id: uid };
    // missing -> safe -> missing
    assert_eq!(rc.toggle_scan_status(&req, t0 + MINUTE), Ok(true));
    assert_eq!(rc.toggle_scan_status(&req, t0 + 2 * MINUTE), Ok(false));
    let board = rc.get_emergency_students(&dir);
    let s1 = board.iter().find(|row| row.id == "S1").unwrap();
    assert!(!s1.scanned);

    let trail = rc.get_emergency_history();
    assert_eq!(trail.len(), 2);
    assert_eq!(trail[0].action, HistoryAction::Revoked);
    assert_eq!(trail[1].action, HistoryAction::MarkedSafeManual);
}

#[test]
fn duplicate_badge_scan_is_rejected() {
    let dir = sample_directory();
    let mut rc = RollCall::new();
    let uid = staff_id(&dir);
    let t0: i64 = 10 * HOUR;
    rc.trigger_emergency(&dir, EmergencyTriggerRequest { active: true, user_id: uid }, t0)
        .unwrap();

    let req = RegisterScanRequest { student_id: "S1".to_string(), user_id: uid };
    let first = rc.register_scan(&dir, &req, t0 + MINUTE).unwrap();
    assert_eq!(first.id, "S1");
    let second = rc.register_scan(&dir, &req, t0 + 2 * MINUTE);
    assert!(matches!(second, Err(RollCallError::Conflict)));
}

#[test]
fn register_scan_resolves_card_uid() {
    let dir = sample_directory();
    let mut rc = RollCall::new();
    let uid = staff_id(&dir);
    let t0: i64 = 10 * HOUR;
    rc.trigger_emergency(&dir, EmergencyTriggerRequest { active: true, user_id: uid }, t0)
        .unwrap();

    let req = RegisterScanRequest { student_id: "CARD-1".to_string(), user_id: uid };
    let resolved = rc.register_scan(&dir, &req, t0 + MINUTE).unwrap();
    assert_eq!(resolved.id, "S1");
    assert_eq!(rc.is_scanned_now(&"S1".to_string()), Some(true));
}

#[test]
fn register_scan_unknown_student_is_not_found() {
    let dir = sample_directory();
    let mut rc = RollCall::new();
    let uid = staff_id(&dir);
    rc.trigger_emergency(&dir, EmergencyTriggerRequest { active: true, user_id: uid }, 1_000)
        .unwrap();
    let req = RegisterScanRequest { student_id: "NOBODY".to_string(), user_id: uid };
    assert!(matches!(rc.register_scan(&dir, &req, 2_000), Err(RollCallError::NotFound)));
}

#[test]
fn register_scan_outside_session_is_rejected() {
    let dir = sample_directory();
    let mut rc = RollCall::new();
    let req = RegisterScanRequest { student_id: "S1".to_string(), user_id: staff_id(&dir) };
    assert!(matches!(rc.register_scan(&dir, &req, 1_000), Err(RollCallError::NoActiveSession)));
}

#[test]
fn stale_scan_does_not_count_in_new_window() {
    let dir = sample_directory();
    let mut rc = RollCall::new();
    let uid = staff_id(&dir);
    let t0: i64 = 10 * HOUR;

    // An earlier incident: S1 was scanned, then the session closed.
    rc.trigger_emergency(&dir, EmergencyTriggerRequest { active: true, user_id: uid }, t0 - 2 * HOUR)
        .unwrap();
    let req = RegisterScanRequest { student_id: "S1".to_string(), user_id: uid };
    rc.register_scan(&dir, &req, t0 - HOUR).unwrap();
    rc.trigger_emergency(&dir, EmergencyTriggerRequest { active: false, user_id: uid }, t0 - HOUR / 2)
        .unwrap();

    // A new session: the hour-old scan is before the new start time and
    // must not count.
    rc.trigger_emergency(&dir, EmergencyTriggerRequest { active: true, user_id: uid }, t0)
        .unwrap();
    let board = rc.get_emergency_students(&dir);
    assert!(board.iter().all(|row| !row.scanned));
    // And precisely because it does not count, a fresh scan succeeds rather
    // than conflicting.
    assert!(rc.register_scan(&dir, &req, t0 + MINUTE).is_ok());
}

#[test]
fn board_reports_everyone_missing_without_session() {
    let dir = sample_directory();
    let mut rc = RollCall::new();
    let uid = staff_id(&dir);

    // Scan history from a closed incident exists...
    rc.trigger_emergency(&dir, EmergencyTriggerRequest { active: true, user_id: uid }, 1_000)
        .unwrap();
    let req = RegisterScanRequest { student_id: "S1".to_string(), user_id: uid };
    rc.register_scan(&dir, &req, 2_000).unwrap();
    rc.trigger_emergency(&dir, EmergencyTriggerRequest { active: false, user_id: uid }, 3_000)
        .unwrap();

    // ...but with no active session every student reads as not scanned.
    let board = rc.get_emergency_students(&dir);
    assert_eq!(board.len(), 2);
    assert!(board.iter().all(|row| !row.scanned));
    assert!(board.iter().all(|row| row.teacher_color.is_none()));
    assert_eq!(rc.is_scanned_now(&"S1".to_string()), None);
}

#[test]
fn full_incident_scenario() {
    let dir = sample_directory();
    let mut rc = RollCall::new();
    let uid = staff_id(&dir);
    let t0: i64 = 100 * HOUR;

    // S1 carries a stale scan from an incident an hour before this one.
    rc.trigger_emergency(&dir, EmergencyTriggerRequest { active: true, user_id: uid }, t0 - 2 * HOUR)
        .unwrap();
    let scan_s1 = RegisterScanRequest { student_id: "S1".to_string(), user_id: uid };
    rc.register_scan(&dir, &scan_s1, t0 - HOUR).unwrap();
    rc.trigger_emergency(&dir, EmergencyTriggerRequest { active: false, user_id: uid }, t0 - HOUR / 2)
        .unwrap();

    // The session under test starts at t0; the stale scan must not show.
    rc.trigger_emergency(&dir, EmergencyTriggerRequest { active: true, user_id: uid }, t0)
        .unwrap();
    let board = rc.get_emergency_students(&dir);
    assert!(!board.iter().find(|row| row.id == "S1").unwrap().scanned);

    // Staff scans S1 five minutes in.
    rc.register_scan(&dir, &scan_s1, t0 + 5 * MINUTE).unwrap();
    let board = rc.get_emergency_students(&dir);
    let row = board.iter().find(|row| row.id == "S1").unwrap();
    assert!(row.scanned);
    assert_eq!(row.teacher_color.as_deref(), Some("#ff8800"));
    assert_eq!(rc.history_in_window()[0].action, HistoryAction::MarkedSafeScan);

    // A toggle reverts S1 to missing and the trail records the revocation.
    let toggle_s1 = ToggleScanRequest { student_id: "S1".to_string(), user_id: uid };
    assert_eq!(rc.toggle_scan_status(&toggle_s1, t0 + 10 * MINUTE), Ok(false));
    assert!(!rc.get_emergency_students(&dir).iter().find(|r| r.id == "S1").unwrap().scanned);
    assert_eq!(rc.history_in_window()[0].action, HistoryAction::Revoked);

    // A second toggle marks S1 safe again, so exactly one of the two
    // students is still unaccounted for when the session closes.
    assert_eq!(rc.toggle_scan_status(&toggle_s1, t0 + 15 * MINUTE), Ok(true));
    let closed = rc
        .trigger_emergency(&dir, EmergencyTriggerRequest { active: false, user_id: uid }, t0 + HOUR)
        .unwrap();
    assert!(!closed.active);
    let stats = closed.stats.unwrap();
    assert_eq!(stats.total, 2);
    assert_eq!(stats.scanned, 1);
    assert_eq!(stats.missing, 1);
    assert!(!rc.get_emergency_status().active);
}

#[test]
fn error_labels_are_stable() {
    assert_eq!(RollCallError::NotFound.label(), "not found");
    assert_eq!(RollCallError::Conflict.label(), "conflict");
    assert_eq!(RollCallError::NoActiveSession.label(), "no active session");
    assert_eq!(RollCallError::InvalidInput.label(), "invalid input");
}
