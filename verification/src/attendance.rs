//! Daily attendance: badge check-ins that alternate between entry and exit,
//! kept separate from the emergency scan ledger.

use vstd::prelude::*;

use crate::directory::{has_card_uid, has_student_id, Directory, Student};
use crate::engine::day_index;
use crate::errors::RollCallError;
use crate::order::Timestamped;

verus! {

/// One attendance row: who was recorded, by whom, when and where.
pub struct AttendanceRecord {
    pub id: i64,
    pub student_id: String,
    pub recorded_by: i64,
    pub timestamp: i64,
    pub classroom: String,
    pub present: bool,
    pub justification: Option<String>,
}

impl Clone for AttendanceRecord {
    fn clone(&self) -> (r: Self)
        ensures
            r == *self,
    {
        let r = AttendanceRecord {
            id: self.id,
            student_id: self.student_id.clone(),
            recorded_by: self.recorded_by,
            timestamp: self.timestamp,
            classroom: self.classroom.clone(),
            present: self.present,
            justification: self.justification.clone(),
        };
        r
    }
}

impl Timestamped for AttendanceRecord {
    open spec fn time(&self) -> int {
        self.timestamp as int
    }

    fn time_exec(&self) -> (t: i64)
        ensures
            t as int == self.time(),
    {
        self.timestamp
    }
}

/// Request to record an attendance check-in.
pub struct CreateAttendanceRequest {
    pub student_id: String,
    pub user_id: i64,
    pub classroom: String,
    pub present: bool,
}

/// What a recorded check-in reports back.
pub struct AttendanceOutcome {
    pub id: i64,
    pub student_id: String,
    pub classroom: String,
    /// True for an entry, false for an exit: check-ins alternate over the
    /// day, the first one counting as an entry.
    pub entry: bool,
    /// How many check-ins the student had today, this one included.
    pub count: usize,
}

/// How many records this student already has on the given day.
pub open spec fn count_on_day(records: Seq<AttendanceRecord>, student: Seq<char>, day: int) -> int
    decreases records.len(),
{
    if records.len() == 0 {
        0
    } else {
        count_on_day(records.drop_last(), student, day) + if records.last().student_id@ == student
            && day_index(records.last().timestamp as int) == day {
            1int
        } else {
            0int
        }
    }
}

/// The attendance ledger.
pub struct AttendanceLog {
    pub records: Vec<AttendanceRecord>,
    pub next_id: i64,
}

impl AttendanceLog {
    pub open spec fn wf(self) -> bool {
        forall|i: int| 0 <= i < self.records@.len() ==> self.records@[i].id < self.next_id
    }

    /// An empty ledger.
    pub fn new() -> (r: AttendanceLog)
        ensures
            r.wf(),
            r.records@.len() == 0,
    {
        AttendanceLog { records: Vec::new(), next_id: 1 }
    }

    /// Record a check-in.
    ///
    /// The scanned identity is resolved by primary id first, then by card
    /// UID; an unknown identity is `NotFound`. Whether this is an entry or
    /// an exit alternates with the student's check-ins so far today, and the
    /// student's own group is recorded as the classroom.
    pub fn register_attendance(
        &mut self,
        dir: &Directory,
        req: &CreateAttendanceRequest,
        now: i64,
    ) -> (r: Result<AttendanceOutcome, RollCallError>)
        requires
            old(self).wf(),
            old(self).next_id < i64::MAX,
            old(self).records@.len() < usize::MAX,
        ensures
            final(self).wf(),
            r is Err <==> (!has_student_id(dir.students@, req.student_id@) && !has_card_uid(
                dir.students@,
                req.student_id@,
            )),
            r is Err ==> r == Err::<AttendanceOutcome, RollCallError>(RollCallError::NotFound)
                && *final(self) == *old(self),
            r matches Ok(o) ==> exists|s: Student|
                #![auto]
                {
                    &&& dir.students@.contains(s)
                    &&& (has_student_id(dir.students@, req.student_id@) ==> s.id@
                        == req.student_id@)
                    &&& (!has_student_id(dir.students@, req.student_id@) ==> (
                    s.card_uid matches Some(u) && u@ == req.student_id@))
                    &&& o.student_id == s.id
                    &&& o.classroom == s.group
                    &&& o.id == old(self).next_id
                    &&& o.count == count_on_day(
                        old(self).records@,
                        s.id@,
                        day_index(now as int),
                    ) + 1
                    &&& o.entry == (count_on_day(
                        old(self).records@,
                        s.id@,
                        day_index(now as int),
                    ) % 2 == 0)
                    &&& final(self).records@ == old(self).records@.push(
                        AttendanceRecord {
                            id: o.id,
                            student_id: s.id,
                            recorded_by: req.user_id,
                            timestamp: now,
                            classroom: s.group,
                            present: req.present,
                            justification: None,
                        },
                    )
                },
    {
        let student = match dir.resolve_student(&req.student_id) {
            Ok(s) => s,
            Err(_) => {
                return Err(RollCallError::NotFound);
            },
        };
        let today = count_today(&self.records, &student.id, now);
        let entry = today % 2 == 0;
        let id: i64 = self.next_id;
        self.next_id = self.next_id + 1;
        let record = AttendanceRecord {
            id,
            student_id: student.id.clone(),
            recorded_by: req.user_id,
            timestamp: now,
            classroom: student.group.clone(),
            present: req.present,
            justification: None,
        };
        self.records.push(record);
        Ok(
            AttendanceOutcome {
                id,
                student_id: student.id,
                classroom: student.group,
                entry,
                count: today + 1,
            },
        )
    }
}

/// How many rows `get_attendance_history` shows at most.
pub const HISTORY_LIMIT: usize = 50;

impl AttendanceLog {
    /// The most recent check-ins across all students, newest first, at most
    /// `HISTORY_LIMIT` rows.
    pub fn get_attendance_history(&self) -> (r: Vec<AttendanceRecord>)
        ensures
            exists|recs: Seq<AttendanceRecord>|
                {
                    &&& (#[trigger] recs.to_multiset()) == self.records@.to_multiset()
                    &&& crate::order::sorted_by_time_desc(recs)
                    &&& r@ == recs.subrange(
                        0,
                        if recs.len() <= HISTORY_LIMIT {
                            recs.len() as int
                        } else {
                            HISTORY_LIMIT as int
                        },
                    )
                },
    {
        let mut all: Vec<AttendanceRecord> = Vec::new();
        let n: usize = self.records.len();
        for i in 0..n
            invariant
                n == self.records@.len(),
                all@ == self.records@.subrange(0, i as int),
        {
            all.push(self.records[i].clone());
            assert(all@ =~= self.records@.subrange(0, i + 1 as int));
        }
        proof {
            assert(self.records@.subrange(0, n as int) =~= self.records@);
        }
        let mut sorted = crate::order::sort_by_time_desc(all);
        let ghost sorted_all = sorted@;
        if sorted.len() > HISTORY_LIMIT {
            sorted.truncate(HISTORY_LIMIT);
        } else {
            proof {
                assert(sorted@ =~= sorted_all.subrange(0, sorted_all.len() as int));
            }
        }
        sorted
    }
}

/// How many records this student already has on the day `now` falls on.
fn count_today(records: &Vec<AttendanceRecord>, student_id: &String, now: i64) -> (c: usize)
    requires
        records@.len() < usize::MAX,
    ensures
        c == count_on_day(records@, student_id@, day_index(now as int)),
        c <= records@.len(),
{
    let today = crate::engine::day_of(now);
    let mut c: usize = 0;
    let n: usize = records.len();
    for i in 0..n
        invariant
            n == records@.len(),
            c <= i,
            today as int == day_index(now as int),
            c == count_on_day(
                records@.subrange(0, i as int),
                student_id@,
                day_index(now as int),
            ),
    {
        proof {
            let pre = records@.subrange(0, i as int);
            let cur = records@.subrange(0, i + 1 as int);
            assert(cur.drop_last() =~= pre);
            assert(cur.last() == records@[i as int]);
        }
        if records[i].student_id == *student_id && crate::engine::day_of(records[i].timestamp)
            == today {
            c = c + 1;
        }
    }
    proof {
        assert(records@.subrange(0, n as int) =~= records@);
    }
    c
}

} // verus!
