//! The parent portal view: one student's record, their recent attendance,
//! and, only while an emergency is running, their roll-call status.

use vstd::prelude::*;

use crate::attendance::{AttendanceLog, AttendanceRecord};
use crate::clock::{rfc3339_of, timestamp_text, RENDER_MAX_MS, RENDER_MIN_MS};
use crate::directory::{has_student_id, Directory};
use crate::engine::RollCall;
use crate::errors::RollCallError;
use crate::order::{sort_by_time_desc, sorted_by_time_desc};

verus! {

/// The identity part of the portal view.
pub struct StudentBasicInfo {
    pub id: String,
    pub names: String,
    pub paternal_last_name: String,
    pub maternal_last_name: Option<String>,
    pub group: String,
    pub major: String,
}

/// One attendance row as the portal shows it.
pub struct StudentAttendanceRecord {
    pub id: i64,
    pub timestamp: String,
    pub present: bool,
    pub classroom: String,
}

/// The student's roll-call status, present only during an emergency.
#[derive(Clone, Copy, Debug, PartialEq, Eq, Structural)]
pub struct EmergencyStatusInfo {
    pub scanned: bool,
}

/// Everything the parent portal shows for one student.
pub struct StudentPortalInfo {
    pub student: StudentBasicInfo,
    pub attendance: Vec<StudentAttendanceRecord>,
    pub emergency_status: Option<EmergencyStatusInfo>,
}

/// Thirty days, in milliseconds: the window of attendance the portal shows.
pub const PORTAL_WINDOW_MS: i64 = 2592000000;

/// At most this many attendance rows are shown.
pub const PORTAL_LIMIT: usize = 30;

/// Does this attendance row belong to the student and fall inside the
/// portal's window ending at `now`?
pub open spec fn portal_visible(a: AttendanceRecord, student: Seq<char>, now: int) -> bool {
    a.student_id@ == student && a.timestamp >= now - PORTAL_WINDOW_MS
}

/// Does the display row `item` render the attendance row `a`?
pub open spec fn renders_attendance(a: AttendanceRecord, item: StudentAttendanceRecord) -> bool {
    &&& item.id == a.id
    &&& item.present == a.present
    &&& item.classroom == a.classroom
    &&& (RENDER_MIN_MS <= a.timestamp <= RENDER_MAX_MS ==> item.timestamp@ == rfc3339_of(
        a.timestamp as int,
    ))
}

/// Assemble the portal view for one student.
///
/// The student must exist. The attendance shown is the student's own, within
/// the last thirty days, newest first, at most thirty rows. The emergency
/// status is reported only while a session is active (outside one, the
/// portal shows nothing rather than stale data) and then says whether the
/// student is marked safe in the current window.
pub fn get_student_portal_info(
    dir: &Directory,
    log: &AttendanceLog,
    rc: &RollCall,
    student_id: &String,
    now: i64,
) -> (r: Result<StudentPortalInfo, RollCallError>)
    requires
        dir.wf(),
        now - PORTAL_WINDOW_MS >= i64::MIN,
    ensures
        r is Ok <==> has_student_id(dir.students@, student_id@),
        r is Err ==> r == Err::<StudentPortalInfo, RollCallError>(RollCallError::NotFound),
        r matches Ok(p) ==> {
            &&& p.student.id@ == student_id@
            &&& exists|s: crate::directory::Student|
                #![auto]
                dir.students@.contains(s) && s.id@ == student_id@ && p.student.id == s.id
                    && p.student.names == s.names && p.student.paternal_last_name
                    == s.paternal_last_name && p.student.maternal_last_name
                    == s.maternal_last_name && p.student.group == s.group && p.student.major
                    == s.major
            &&& (rc.active() ==> p.emergency_status == Some(
                EmergencyStatusInfo { scanned: rc.is_scanned(student_id@) },
            ))
            &&& (!rc.active() ==> p.emergency_status is None)
            &&& exists|recs: Seq<AttendanceRecord>|
                {
                    &&& (#[trigger] recs.to_multiset()) == log.records@.filter(
                        |a: AttendanceRecord| portal_visible(a, student_id@, now as int),
                    ).to_multiset()
                    &&& sorted_by_time_desc(recs)
                    &&& p.attendance@.len() == (if recs.len() <= PORTAL_LIMIT {
                        recs.len() as int
                    } else {
                        PORTAL_LIMIT as int
                    })
                    &&& forall|k: int|
                        0 <= k < p.attendance@.len() ==> renders_attendance(
                            recs[k],
                            #[trigger] p.attendance@[k],
                        )
                }
        },
{
    let student = match dir.get_student(student_id) {
        Ok(s) => s,
        Err(_) => {
            return Err(RollCallError::NotFound);
        },
    };
    let basic = StudentBasicInfo {
        id: student.id,
        names: student.names,
        paternal_last_name: student.paternal_last_name,
        maternal_last_name: student.maternal_last_name,
        group: student.group,
        major: student.major,
    };
    let cutoff: i64 = now - PORTAL_WINDOW_MS;
    let ghost pred = |a: AttendanceRecord| portal_visible(a, student_id@, now as int);
    let mut picked: Vec<AttendanceRecord> = Vec::new();
    let n: usize = log.records.len();
    for i in 0..n
        invariant
            n == log.records@.len(),
            cutoff == now - PORTAL_WINDOW_MS,
            picked@ == log.records@.subrange(0, i as int).filter(pred),
            pred == (|a: AttendanceRecord| portal_visible(a, student_id@, now as int)),
    {
        proof {
            reveal(Seq::filter);
            let pre = log.records@.subrange(0, i as int);
            let cur = log.records@.subrange(0, i + 1 as int);
            assert(cur.drop_last() =~= pre);
            assert(cur.last() == log.records@[i as int]);
        }
        if log.records[i].student_id == *student_id && log.records[i].timestamp >= cutoff {
            picked.push(log.records[i].clone());
        }
    }
    proof {
        assert(log.records@.subrange(0, n as int) =~= log.records@);
    }
    let mut recent = sort_by_time_desc(picked);
    let ghost sorted_all = recent@;
    if recent.len() > PORTAL_LIMIT {
        recent.truncate(PORTAL_LIMIT);
        proof {
            assert(recent@ == sorted_all.subrange(0, PORTAL_LIMIT as int));
        }
    }
    let mut shown: Vec<StudentAttendanceRecord> = Vec::new();
    let m: usize = recent.len();
    for i in 0..m
        invariant
            m == recent@.len(),
            shown@.len() == i,
            forall|k: int|
                0 <= k < i ==> renders_attendance(recent@[k], #[trigger] shown@[k]),
    {
        let a = &recent[i];
        shown.push(
            StudentAttendanceRecord {
                id: a.id,
                timestamp: timestamp_text(a.timestamp),
                present: a.present,
                classroom: a.classroom.clone(),
            },
        );
    }
    let emergency_status = if rc.get_emergency_status().active {
        let scanned = match rc.is_scanned_now(student_id) {
            Some(b) => b,
            None => false,
        };
        Some(EmergencyStatusInfo { scanned })
    } else {
        None
    };
    proof {
        assert(sorted_all.to_multiset() == log.records@.filter(pred).to_multiset());
        assert(forall|k: int|
            0 <= k < recent@.len() ==> recent@[k] == sorted_all[k]);
    }
    Ok(StudentPortalInfo { student: basic, attendance: shown, emergency_status })
}

} // verus!
