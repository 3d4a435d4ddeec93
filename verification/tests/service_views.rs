use rollcall::{
    broadcast_emergency_messages, get_student_portal_info, timestamp_text, AttendanceLog,
    CreateAttendanceRequest, CreateGroupRequest, CreateStudentRequest, CreateUserRequest,
    Directory, EmergencyTriggerRequest, HistoryAction, RegisterScanRequest, RegisterTokenRequest,
    RollCall, RollCallError, ToggleScanRequest, UpdateJustificationStatusRequest,
    UpdateStudentGroupRequest, UpdateStudentRequest, JustificationLog, JustificationStatus,
    TokenRegistry,
};

const HOUR: i64 = 3_600_000;
const DAY: i64 = 86_400_000;

fn student_row(id: &str, names: &str, paternal: &str, group: &str) -> CreateStudentRequest {
    CreateStudentRequest {
        id: id.to_string(),
        card_uid: None,
        names: names.to_string(),
        paternal_last_name: paternal.to_string(),
        maternal_last_name: None,
        birth_date: "2008-03-14".to_string(),
        major: "Science".to_string(),
        group: group.to_string(),
        blood_type: None,
        allergies: None,
        chronic_diseases: None,
        personal_phone: None,
        primary_guardian_phone: None,
        emergency_phone: None,
    }
}

fn view_directory() -> Directory {
    let mut dir = Directory::new();
    dir.create_student(student_row("S1", "Ana", "Lopez", "3A")).unwrap();
    dir.create_student(student_row("S2", "Luis", "Rangel", "3B")).unwrap();
    let staff = CreateUserRequest {
        username: "mmejia".to_string(),
        display_name: "M. Mejia".to_string(),
        role: "Teacher".to_string(),
        color: Some("#ff8800".to_string()),
        phone_number: None,
    };
    dir.create_user(staff, &"sturdy-pass".to_string(), "hash-1".to_string()).unwrap();
    dir
}

#[test]
fn timestamps_render_as_rfc3339() {
    assert_eq!(timestamp_text(0), "1970-01-01T00:00:00+00:00");
    assert_eq!(timestamp_text(DAY + 453), "1970-01-02T00:00:00.453+00:00");
    assert_eq!(timestamp_text(-1_000), "1969-12-31T23:59:59+00:00");
}

#[test]
fn history_is_rendered_newest_first() {
    let dir = view_directory();
    let mut rc = RollCall::new();
    let uid = dir.get_all_users()[0].id;
    rc.trigger_emergency(&dir, EmergencyTriggerRequest { active: true, user_id: uid }, 0)
        .unwrap();
    rc.register_scan(&dir, &RegisterScanRequest { student_id: "S1".to_string(), user_id: uid }, 60_000)
        .unwrap();
    rc.register_scan(&dir, &RegisterScanRequest { student_id: "S2".to_string(), user_id: uid }, 30_000)
        .unwrap();

    let items = rc.get_scan_history(&dir);
    assert_eq!(items.len(), 2);
    // Newest first, despite the out-of-order ledger.
    assert_eq!(items[0].student_name, "Ana Lopez");
    assert_eq!(items[0].timestamp, "1970-01-01T00:01:00+00:00");
    assert_eq!(items[1].student_name, "Luis Rangel");
    assert_eq!(items[1].timestamp, "1970-01-01T00:00:30+00:00");
    assert_eq!(items[0].user_name, "M. Mejia");
    assert_eq!(items[0].action, HistoryAction::MarkedSafeScan);
}

#[test]
fn history_names_fall_back_for_unknown_ids() {
    let dir = view_directory();
    let mut rc = RollCall::new();
    rc.trigger_emergency(&dir, EmergencyTriggerRequest { active: true, user_id: 999 }, 0)
        .unwrap();
    // A toggle by a staff id the directory does not know, for a student who
    // is later absent from the directory used for rendering.
    rc.toggle_scan_status(&ToggleScanRequest { student_id: "GONE".to_string(), user_id: 999 }, 1_000)
        .unwrap();
    let items = rc.get_scan_history(&dir);
    assert_eq!(items.len(), 1);
    assert_eq!(items[0].student_name, "unknown");
    assert_eq!(items[0].user_name, "system");
}

#[test]
fn window_scopes_the_incident_history() {
    let dir = view_directory();
    let mut rc = RollCall::new();
    let uid = dir.get_all_users()[0].id;
    // A closed incident leaves two audit rows behind.
    rc.trigger_emergency(&dir, EmergencyTriggerRequest { active: true, user_id: uid }, 0)
        .unwrap();
    rc.toggle_scan_status(&ToggleScanRequest { student_id: "S1".to_string(), user_id: uid }, 1_000)
        .unwrap();
    rc.trigger_emergency(&dir, EmergencyTriggerRequest { active: false, user_id: uid }, 2_000)
        .unwrap();
    assert_eq!(rc.get_scan_history(&dir).len(), 0);

    // The next incident sees only its own rows; the all-time audit keeps both.
    rc.trigger_emergency(&dir, EmergencyTriggerRequest { active: true, user_id: uid }, HOUR)
        .unwrap();
    rc.toggle_scan_status(&ToggleScanRequest { student_id: "S2".to_string(), user_id: uid }, HOUR + 1_000)
        .unwrap();
    assert_eq!(rc.get_scan_history(&dir).len(), 1);
    assert_eq!(rc.history_in_window().len(), 1);
    assert_eq!(rc.get_emergency_history().len(), 2);
}

#[test]
fn stats_count_scans_on_the_current_day() {
    let dir = view_directory();
    let mut rc = RollCall::new();
    let uid = dir.get_all_users()[0].id;
    let today_noon = 10 * DAY + 12 * HOUR;
    rc.trigger_emergency(&dir, EmergencyTriggerRequest { active: true, user_id: uid }, 9 * DAY)
        .unwrap();
    rc.register_scan(&dir, &RegisterScanRequest { student_id: "S1".to_string(), user_id: uid }, 9 * DAY + HOUR)
        .unwrap();
    rc.register_scan(&dir, &RegisterScanRequest { student_id: "S2".to_string(), user_id: uid }, today_noon)
        .unwrap();

    let stats = rc.get_stats(&dir, today_noon);
    assert_eq!(stats.total_students, 2);
    assert!(stats.active_emergency);
    // Only the scan from day ten counts as today's.
    assert_eq!(stats.scans_today, 1);

    let totals = rc.totals(&dir);
    assert_eq!(totals.total_students, 2);
    assert_eq!(totals.total_users, 1);
    assert_eq!(totals.total_scans, 2);
    assert_eq!(totals.total_groups, 0);
}

#[test]
fn attendance_alternates_entry_and_exit() {
    let dir = view_directory();
    let mut log = AttendanceLog::new();
    let req = CreateAttendanceRequest {
        student_id: "S1".to_string(),
        user_id: 1,
        classroom: "ignored".to_string(),
        present: true,
    };
    let morning = 10 * DAY + 8 * HOUR;
    let first = log.register_attendance(&dir, &req, morning).unwrap();
    assert!(first.entry);
    assert_eq!(first.count, 1);
    // The student's own group is recorded, not the requested classroom.
    assert_eq!(first.classroom, "3A");

    let second = log.register_attendance(&dir, &req, morning + 6 * HOUR).unwrap();
    assert!(!second.entry);
    assert_eq!(second.count, 2);

    // A new day starts the alternation over.
    let third = log.register_attendance(&dir, &req, morning + DAY).unwrap();
    assert!(third.entry);
    assert_eq!(third.count, 1);

    let unknown = CreateAttendanceRequest { student_id: "NOBODY".to_string(), ..req };
    assert!(matches!(
        log.register_attendance(&dir, &unknown, morning),
        Err(RollCallError::NotFound)
    ));
}

#[test]
fn portal_shows_recent_attendance_and_live_status() {
    let dir = view_directory();
    let mut log = AttendanceLog::new();
    let mut rc = RollCall::new();
    let uid = dir.get_all_users()[0].id;
    let now = 100 * DAY;

    let req = CreateAttendanceRequest {
        student_id: "S1".to_string(),
        user_id: uid,
        classroom: "x".to_string(),
        present: true,
    };
    log.register_attendance(&dir, &req, now - 40 * DAY).unwrap(); // too old
    log.register_attendance(&dir, &req, now - 2 * DAY).unwrap();
    log.register_attendance(&dir, &req, now - DAY).unwrap();

    // Without a session the portal shows no emergency status at all.
    let info = get_student_portal_info(&dir, &log, &rc, &"S1".to_string(), now).unwrap();
    assert_eq!(info.student.names, "Ana");
    assert!(info.emergency_status.is_none());
    assert_eq!(info.attendance.len(), 2);
    // Newest first.
    assert!(info.attendance[0].timestamp > info.attendance[1].timestamp);

    // During a session it reports the windowed status.
    rc.trigger_emergency(&dir, EmergencyTriggerRequest { active: true, user_id: uid }, now)
        .unwrap();
    let info = get_student_portal_info(&dir, &log, &rc, &"S1".to_string(), now + 1).unwrap();
    assert_eq!(info.emergency_status.unwrap().scanned, false);
    rc.register_scan(&dir, &RegisterScanRequest { student_id: "S1".to_string(), user_id: uid }, now + 1_000)
        .unwrap();
    let info = get_student_portal_info(&dir, &log, &rc, &"S1".to_string(), now + 2_000).unwrap();
    assert_eq!(info.emergency_status.unwrap().scanned, true);

    assert!(matches!(
        get_student_portal_info(&dir, &log, &rc, &"NOBODY".to_string(), now),
        Err(RollCallError::NotFound)
    ));
}

#[test]
fn token_registry_upserts_by_token() {
    let dir = view_directory();
    let mut reg = TokenRegistry::new();
    let register = |student: &str, token: &str| RegisterTokenRequest {
        student_id: student.to_string(),
        token: token.to_string(),
        device_name: Some("phone".to_string()),
    };

    assert!(matches!(
        reg.register_device_token(&dir, register("NOBODY", "tok-1")),
        Err(RollCallError::NotFound)
    ));

    let ok = reg.register_device_token(&dir, register("S1", "tok-1")).unwrap();
    assert_eq!(ok.message, "device registered");
    reg.register_device_token(&dir, register("S1", "tok-2")).unwrap();
    assert_eq!(reg.tokens_for_student(&"S1".to_string()).len(), 2);

    // Re-registering an existing token moves it, never duplicates it.
    reg.register_device_token(&dir, register("S2", "tok-1")).unwrap();
    assert_eq!(reg.tokens_for_student(&"S1".to_string()).len(), 1);
    let s2_tokens = reg.tokens_for_student(&"S2".to_string());
    assert_eq!(s2_tokens.len(), 1);
    assert_eq!(s2_tokens[0].token, "tok-1");
}

#[test]
fn broadcast_messages_follow_session_state() {
    let dir = view_directory();
    let mut reg = TokenRegistry::new();
    for (student, token) in [("S1", "tok-1"), ("S2", "tok-2")] {
        reg.register_device_token(
            &dir,
            RegisterTokenRequest {
                student_id: student.to_string(),
                token: token.to_string(),
                device_name: None,
            },
        )
        .unwrap();
    }
    let on = broadcast_emergency_messages(true, &reg.tokens);
    assert_eq!(on.len(), 2);
    assert_eq!(on[0].to, "tok-1");
    assert_eq!(on[1].to, "tok-2");
    assert_eq!(on[0].title, "Emergency activated");
    assert_eq!(on[0].body, "The school emergency protocol is active. Please stay alert.");
    let off = broadcast_emergency_messages(false, &reg.tokens);
    assert_eq!(off[1].title, "Emergency deactivated");
    assert_eq!(off[1].body, "The emergency protocol has been lifted. Everything is back to normal.");
}

#[test]
fn justifications_flow_through_approval() {
    let mut log = JustificationLog::new();
    let blank = log.submit_justification(
        "S1".to_string(),
        "2024-05-01".to_string(),
        "".to_string(),
        None,
        1_000,
    );
    assert_eq!(blank.unwrap_err(), RollCallError::InvalidInput);

    let first = log
        .submit_justification(
            "S1".to_string(),
            "2024-05-01".to_string(),
            "medical appointment".to_string(),
            Some("uploads/1.jpg".to_string()),
            1_000,
        )
        .unwrap();
    assert_eq!(first.message, "justification submitted");
    let second = log
        .submit_justification(
            "S2".to_string(),
            "2024-05-02".to_string(),
            "family trip".to_string(),
            None,
            5_000,
        )
        .unwrap();

    let pending = log.get_pending_justifications();
    assert_eq!(pending.len(), 2);
    // Most recently submitted first.
    assert_eq!(pending[0].id, second.id);
    assert_eq!(pending[1].id, first.id);

    let bad = UpdateJustificationStatusRequest { status: "MAYBE".to_string(), admin_comment: None };
    assert_eq!(log.update_justification_status(first.id, bad), Err(RollCallError::InvalidInput));

    let approve = UpdateJustificationStatusRequest {
        status: "APPROVED".to_string(),
        admin_comment: Some("seen the note".to_string()),
    };
    assert_eq!(log.update_justification_status(first.id, approve), Ok(()));
    assert_eq!(log.get_pending_justifications().len(), 1);
    assert_eq!(log.entries[0].status, JustificationStatus::Approved);

    let reject = UpdateJustificationStatusRequest { status: "REJECTED".to_string(), admin_comment: None };
    assert_eq!(log.update_justification_status(9_999, reject), Err(RollCallError::NotFound));
}

#[test]
fn directory_crud_keeps_identity_consistent() {
    let mut dir = view_directory();

    // Duplicate primary id.
    assert_eq!(
        dir.create_student(student_row("S1", "Eva", "Cano", "3C")),
        Err(RollCallError::Conflict)
    );

    // Full update replaces display fields but keeps identity.
    let update = UpdateStudentRequest {
        names: "Ana Maria".to_string(),
        paternal_last_name: "Lopez".to_string(),
        maternal_last_name: Some("Diaz".to_string()),
        birth_date: "2008-03-14".to_string(),
        major: "Arts".to_string(),
        group: "4A".to_string(),
        blood_type: Some("O+".to_string()),
        allergies: None,
        chronic_diseases: None,
        personal_phone: None,
        primary_guardian_phone: None,
        emergency_phone: None,
    };
    dir.update_student(&"S1".to_string(), update).unwrap();
    let s1 = dir.get_student(&"S1".to_string()).unwrap();
    assert_eq!(s1.names, "Ana Maria");
    assert_eq!(s1.group, "4A");

    dir.update_student_group(&"S1".to_string(), UpdateStudentGroupRequest { group: "4B".to_string() })
        .unwrap();
    assert_eq!(dir.get_student(&"S1".to_string()).unwrap().group, "4B");
    assert_eq!(
        dir.update_student_group(&"NOBODY".to_string(), UpdateStudentGroupRequest { group: "4B".to_string() }),
        Err(RollCallError::NotFound)
    );
    assert!(matches!(dir.get_student(&"NOBODY".to_string()), Err(RollCallError::NotFound)));

    let g1 = dir.create_group(CreateGroupRequest { name: "3A".to_string(), description: None }).unwrap();
    let g2 = dir
        .create_group(CreateGroupRequest { name: "3B".to_string(), description: Some("afternoon".to_string()) })
        .unwrap();
    assert_ne!(g1, g2);
    assert_eq!(dir.get_all_groups().len(), 2);
}

#[test]
fn user_creation_validates_and_rejects_duplicates() {
    let mut dir = view_directory();
    let request = |username: &str, role: &str, color: Option<&str>| CreateUserRequest {
        username: username.to_string(),
        display_name: "Someone".to_string(),
        role: role.to_string(),
        color: color.map(|c| c.to_string()),
        phone_number: None,
    };

    // Password too short once trimmed.
    assert_eq!(
        dir.create_user(request("newuser", "Teacher", None), &"  abc ".to_string(), "h".to_string()),
        Err(RollCallError::InvalidInput)
    );
    // Unknown role.
    assert_eq!(
        dir.create_user(request("newuser", "Janitor", None), &"longenough".to_string(), "h".to_string()),
        Err(RollCallError::InvalidInput)
    );
    // Colour tag must start with '#'.
    assert_eq!(
        dir.create_user(request("newuser", "Admin", Some("red")), &"longenough".to_string(), "h".to_string()),
        Err(RollCallError::InvalidInput)
    );
    // Taken username.
    assert_eq!(
        dir.create_user(request("mmejia", "Admin", None), &"longenough".to_string(), "h".to_string()),
        Err(RollCallError::Conflict)
    );

    let id = dir
        .create_user(request("newuser", "Admin", Some("#00ff00")), &"longenough".to_string(), "h2".to_string())
        .unwrap();
    let fetched = dir.get_user(id).unwrap();
    assert_eq!(fetched.username, "newuser");
    assert_eq!(fetched.password_hash, "h2");
    assert_eq!(dir.get_all_users().len(), 2);
}

#[test]
fn attendance_history_is_sorted_and_limited() {
    let dir = view_directory();
    let mut log = AttendanceLog::new();
    let req = CreateAttendanceRequest {
        student_id: "S1".to_string(),
        user_id: 1,
        classroom: "x".to_string(),
        present: true,
    };
    for d in 0..60 {
        log.register_attendance(&dir, &req, (d as i64) * DAY + 9 * HOUR).unwrap();
    }
    let hist = log.get_attendance_history();
    assert_eq!(hist.len(), 50);
    assert!(hist.windows(2).all(|w| w[0].timestamp >= w[1].timestamp));
    assert_eq!(hist[0].timestamp, 59 * DAY + 9 * HOUR);
    assert_eq!(hist[49].timestamp, 10 * DAY + 9 * HOUR);
}
