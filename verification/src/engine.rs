//! The roll-call engine: session lifecycle, windowed status computation,
//! toggle logic and the audit ledger.
//!
//! All state the engine owns is held in plain in-memory ledgers. Scans are
//! never destroyed by a session change: a new session merely starts a new
//! time window, so stale scans from a closed session cannot leak into the
//! current head count.

use vstd::prelude::*;

use crate::directory::{has_card_uid, has_student_id, has_user_id, Directory, Student, User};
use crate::errors::RollCallError;
use crate::model::{
    EmergencyEvent, EmergencyStatus, EmergencyStudent, EmergencyTriggerRequest, HistoryAction,
    RegisterScanRequest, Scan, ScanKind, SessionSummary, Stats, StatsResponse, StatusHistoryEntry,
    ToggleScanRequest, TriggerResponse,
};

verus! {

/// Does scan `s` mark `student` as safe for a window opening at `start`?
pub open spec fn scan_matches(s: Scan, student: Seq<char>, start: int) -> bool {
    s.student_id@ == student && s.timestamp >= start
}

/// Is there a qualifying scan for `student` in the window opening at `start`?
pub open spec fn scanned_in(scans: Seq<Scan>, student: Seq<char>, start: int) -> bool {
    exists|i: int| 0 <= i < scans.len() && scan_matches(scans[i], student, start)
}

/// How many of `students` have a qualifying scan in the window.
pub open spec fn count_scanned(students: Seq<Student>, scans: Seq<Scan>, start: int) -> int
    decreases students.len(),
{
    if students.len() == 0 {
        0
    } else {
        count_scanned(students.drop_last(), scans, start) + if scanned_in(
            scans,
            students.last().id@,
            start,
        ) {
            1int
        } else {
            0int
        }
    }
}

/// What the scan ledger becomes when a student's status is toggled: a
/// currently safe student has every qualifying scan removed; a missing
/// student gains the fresh manual scan.
pub open spec fn toggle_scans(scans: Seq<Scan>, student: Seq<char>, start: int, fresh: Scan) -> Seq<
    Scan,
> {
    if scanned_in(scans, student, start) {
        scans.filter(|s: Scan| !scan_matches(s, student, start))
    } else {
        scans.push(fresh)
    }
}

/// Every element of a filtered sequence comes from the original sequence.
pub proof fn lemma_filter_is_subset<A>(s: Seq<A>, pred: spec_fn(A) -> bool)
    ensures
        forall|i: int| 0 <= i < s.filter(pred).len() ==> s.contains(#[trigger] s.filter(pred)[i]),
    decreases s.len(),
{
    reveal(Seq::filter);
    if s.len() != 0 {
        lemma_filter_is_subset(s.drop_last(), pred);
        assert forall|i: int| 0 <= i < s.filter(pred).len() implies s.contains(
            #[trigger] s.filter(pred)[i],
        ) by {
            let f = s.filter(pred);
            let fd = s.drop_last().filter(pred);
            if i < fd.len() {
                assert(s.drop_last().contains(fd[i]));
                let w = choose|k: int| 0 <= k < s.drop_last().len() && s.drop_last()[k] == fd[i];
                assert(s[w] == fd[i]);
            } else {
                assert(f[i] == s.last());
            }
        }
    }
}

/// The engine's durable state: the session table, the scan ledger, the
/// audit trail and the closing summaries, with fresh-id counters.
pub struct RollCall {
    pub events: Vec<EmergencyEvent>,
    pub scans: Vec<Scan>,
    pub history: Vec<StatusHistoryEntry>,
    pub summaries: Vec<SessionSummary>,
    pub next_event_id: u64,
    pub next_scan_id: u64,
    pub next_history_id: u64,
}

impl RollCall {
    /// The engine's invariant: only the most recent session row can be
    /// active, and every ledger id is unique and below its counter.
    pub open spec fn wf(self) -> bool {
        &&& forall|i: int|
            0 <= i < self.events@.len() && self.events@[i].active ==> i == self.events@.len() - 1
        &&& forall|i: int, j: int|
            0 <= i < j < self.events@.len() ==> self.events@[i].id < self.events@[j].id
        &&& forall|i: int| 0 <= i < self.events@.len() ==> self.events@[i].id < self.next_event_id
        &&& forall|i: int| 0 <= i < self.scans@.len() ==> self.scans@[i].id < self.next_scan_id
        &&& forall|i: int, j: int|
            0 <= i < j < self.history@.len() ==> self.history@[i].id < self.history@[j].id
        &&& forall|i: int|
            0 <= i < self.history@.len() ==> self.history@[i].id < self.next_history_id
    }

    /// Is a session active right now?
    pub open spec fn active(self) -> bool {
        self.events@.len() > 0 && self.events@.last().active
    }

    /// Opening time of the active session (meaningful only when active).
    pub open spec fn active_start(self) -> int {
        self.events@.last().start_time as int
    }

    /// Is this student marked safe in the current window? Without an active
    /// session no student counts as scanned, whatever the ledger holds.
    pub open spec fn is_scanned(self, student: Seq<char>) -> bool {
        self.active() && scanned_in(self.scans@, student, self.active_start())
    }

    /// A fresh engine: no sessions, no scans, no history.
    pub fn new() -> (r: RollCall)
        ensures
            r.wf(),
            !r.active(),
            r.events@.len() == 0,
            r.scans@.len() == 0,
            r.history@.len() == 0,
            r.summaries@.len() == 0,
            r.next_event_id == 1 && r.next_scan_id == 1 && r.next_history_id == 1,
    {
        RollCall {
            events: Vec::new(),
            scans: Vec::new(),
            history: Vec::new(),
            summaries: Vec::new(),
            next_event_id: 1,
            next_scan_id: 1,
            next_history_id: 1,
        }
    }

    /// The low-stakes status poll: reports whether a session is active.
    pub fn get_emergency_status(&self) -> (r: EmergencyStatus)
        ensures
            r.active == self.active(),
    {
        let n: usize = self.events.len();
        if n == 0 {
            EmergencyStatus { active: false }
        } else {
            EmergencyStatus { active: self.events[n - 1].active }
        }
    }

    /// Open or close a session.
    ///
    /// Opening while a session is active is rejected with `Conflict`;
    /// closing while none is active is rejected with `NotFound`. Closing
    /// computes the final tally over the session's window and appends it to
    /// the summaries ledger. The scan ledger is never touched: windowing is
    /// non-destructive.
    pub fn trigger_emergency(
        &mut self,
        dir: &Directory,
        req: EmergencyTriggerRequest,
        now: i64,
    ) -> (r: Result<TriggerResponse, RollCallError>)
        requires
            old(self).wf(),
            old(self).next_event_id < u64::MAX,
        ensures
            final(self).wf(),
            final(self).scans@ == old(self).scans@,
            final(self).history@ == old(self).history@,
            final(self).next_scan_id == old(self).next_scan_id,
            final(self).next_history_id == old(self).next_history_id,
            req.active && old(self).active() ==> r == Err::<TriggerResponse, RollCallError>(
                RollCallError::Conflict,
            ) && *final(self) == *old(self),
            !req.active && !old(self).active() ==> r == Err::<TriggerResponse, RollCallError>(
                RollCallError::NotFound,
            ) && *final(self) == *old(self),
            req.active && !old(self).active() ==> {
                &&& r == Ok::<TriggerResponse, RollCallError>(
                    TriggerResponse { active: true, stats: None },
                )
                &&& final(self).events@ == old(self).events@.push(
                    EmergencyEvent {
                        id: old(self).next_event_id,
                        active: true,
                        start_time: now,
                        end_time: None,
                        triggered_by: req.user_id,
                    },
                )
                &&& final(self).active()
                &&& final(self).active_start() == now
                &&& final(self).summaries@ == old(self).summaries@
                &&& final(self).next_event_id == old(self).next_event_id + 1
            },
            !req.active && old(self).active() ==> {
                &&& {
                    let total = dir.students@.len() as int;
                    let scanned = count_scanned(
                        dir.students@,
                        old(self).scans@,
                        old(self).active_start(),
                    );
                    let summary = SessionSummary {
                        event_id: old(self).events@.last().id,
                        end_time: now,
                        total: total as usize,
                        scanned: scanned as usize,
                        missing: (total - scanned) as usize,
                    };
                    &&& r == Ok::<TriggerResponse, RollCallError>(
                        TriggerResponse { active: false, stats: Some(summary) },
                    )
                    &&& final(self).summaries@ == old(self).summaries@.push(summary)
                }
                &&& final(self).events@ == old(self).events@.update(
                    old(self).events@.len() - 1,
                    (EmergencyEvent {
                        active: false,
                        end_time: Some(now),
                        ..old(self).events@.last()
                    }),
                )
                &&& !final(self).active()
                &&& final(self).next_event_id == old(self).next_event_id
            },
    {
        let is_active = self.get_emergency_status().active;
        if req.active {
            if is_active {
                return Err(RollCallError::Conflict);
            }
            let ev = EmergencyEvent {
                id: self.next_event_id,
                active: true,
                start_time: now,
                end_time: None,
                triggered_by: req.user_id,
            };
            self.events.push(ev);
            self.next_event_id = self.next_event_id + 1;
            Ok(TriggerResponse { active: true, stats: None })
        } else {
            if !is_active {
                return Err(RollCallError::NotFound);
            }
            let idx: usize = self.events.len() - 1;
            let open_ev = self.events[idx].clone();
            let start: i64 = open_ev.start_time;
            let total: usize = dir.students.len();
            let scanned: usize = count_scanned_exec(&dir.students, &self.scans, start);
            proof {
                lemma_count_scanned_bounds(dir.students@, self.scans@, start as int);
            }
            let summary = SessionSummary {
                event_id: open_ev.id,
                end_time: now,
                total,
                scanned,
                missing: total - scanned,
            };
            self.events[idx] = EmergencyEvent { active: false, end_time: Some(now), ..open_ev };
            self.summaries.push(summary);
            Ok(TriggerResponse { active: false, stats: Some(summary) })
        }
    }

    /// Flip a student's windowed status by hand.
    ///
    /// Outside an active session the request is meaningless and rejected.
    /// A safe student reverts to missing: every qualifying scan is deleted
    /// and a `Revoked` entry is appended to the audit trail. A missing
    /// student becomes safe through a fresh manual-override scan and a
    /// `MarkedSafeManual` entry. The returned flag is the new status.
    pub fn toggle_scan_status(&mut self, req: &ToggleScanRequest, now: i64) -> (r: Result<
        bool,
        RollCallError,
    >)
        requires
            old(self).wf(),
            old(self).next_scan_id < u64::MAX,
            old(self).next_history_id < u64::MAX,
            old(self).active() ==> now >= old(self).active_start(),
        ensures
            final(self).wf(),
            final(self).events@ == old(self).events@,
            final(self).summaries@ == old(self).summaries@,
            final(self).active() == old(self).active(),
            final(self).next_event_id == old(self).next_event_id,
            !old(self).active() ==> r == Err::<bool, RollCallError>(RollCallError::NoActiveSession)
                && *final(self) == *old(self),
            old(self).active() ==> final(self).next_history_id == old(self).next_history_id + 1
                && final(self).next_scan_id == (if old(self).is_scanned(req.student_id@) {
                old(self).next_scan_id
            } else {
                (old(self).next_scan_id + 1) as u64
            }),
            old(self).active() ==> {
                &&& r == Ok::<bool, RollCallError>(!old(self).is_scanned(req.student_id@))
                &&& final(self).scans@ == toggle_scans(
                    old(self).scans@,
                    req.student_id@,
                    old(self).active_start(),
                    (Scan {
                        id: old(self).next_scan_id,
                        student_id: req.student_id,
                        user_id: req.user_id,
                        timestamp: now,
                        scan_type: ScanKind::Manual,
                    }),
                )
                &&& final(self).is_scanned(req.student_id@) == !old(self).is_scanned(
                    req.student_id@,
                )
                &&& final(self).history@ == old(self).history@.push(
                    StatusHistoryEntry {
                        id: old(self).next_history_id,
                        student_id: req.student_id,
                        user_id: req.user_id,
                        action: if old(self).is_scanned(req.student_id@) {
                            HistoryAction::Revoked
                        } else {
                            HistoryAction::MarkedSafeManual
                        },
                        timestamp: now,
                    },
                )
            },
    {
        let n: usize = self.events.len();
        if n == 0 || !self.events[n - 1].active {
            return Err(RollCallError::NoActiveSession);
        }
        let start: i64 = self.events[n - 1].start_time;
        let currently_scanned = has_scan_in_window(&self.scans, &req.student_id, start);
        if currently_scanned {
            let ghost pred = |s: Scan| !scan_matches(s, req.student_id@, start as int);
            let mut kept: Vec<Scan> = Vec::new();
            let m: usize = self.scans.len();
            for i in 0..m
                invariant
                    *self == *old(self),
                    m == self.scans@.len(),
                    kept@ == self.scans@.subrange(0, i as int).filter(pred),
                    pred == (|s: Scan| !scan_matches(s, req.student_id@, start as int)),
            {
                let s = &self.scans[i];
                let keep = !(s.student_id == req.student_id && s.timestamp >= start);
                proof {
                    reveal(Seq::filter);
                    let pre = self.scans@.subrange(0, i as int);
                    let cur = self.scans@.subrange(0, i + 1 as int);
                    assert(cur.drop_last() =~= pre);
                    assert(cur.last() == self.scans@[i as int]);
                }
                if keep {
                    kept.push(self.scans[i].clone());
                }
            }
            proof {
                assert(self.scans@.subrange(0, m as int) =~= self.scans@);
                lemma_filter_is_subset(self.scans@, pred);
                broadcast use vstd::prelude::Seq::lemma_filter_pred;

            }
            self.scans = kept;
            let entry = StatusHistoryEntry {
                id: self.next_history_id,
                student_id: req.student_id.clone(),
                user_id: req.user_id,
                action: HistoryAction::Revoked,
                timestamp: now,
            };
            self.history.push(entry);
            self.next_history_id = self.next_history_id + 1;
            Ok(false)
        } else {
            let scan = Scan {
                id: self.next_scan_id,
                student_id: req.student_id.clone(),
                user_id: req.user_id,
                timestamp: now,
                scan_type: ScanKind::Manual,
            };
            self.scans.push(scan);
            self.next_scan_id = self.next_scan_id + 1;
            let entry = StatusHistoryEntry {
                id: self.next_history_id,
                student_id: req.student_id.clone(),
                user_id: req.user_id,
                action: HistoryAction::MarkedSafeManual,
                timestamp: now,
            };
            self.history.push(entry);
            self.next_history_id = self.next_history_id + 1;
            proof {
                let fresh = Scan {
                    id: old(self).next_scan_id,
                    student_id: req.student_id,
                    user_id: req.user_id,
                    timestamp: now,
                    scan_type: ScanKind::Manual,
                };
                let s1 = self.scans@;
                assert(scan_matches(s1.last(), req.student_id@, start as int));
                assert(scanned_in(s1, req.student_id@, start as int));
            }
            Ok(true)
        }
    }
}

/// The most recent qualifying scan for `student` in the window: the one
/// with the greatest timestamp, later ledger rows winning ties.
pub open spec fn last_scan_in(scans: Seq<Scan>, student: Seq<char>, start: int) -> Option<Scan>
    decreases scans.len(),
{
    if scans.len() == 0 {
        None
    } else {
        let rest = last_scan_in(scans.drop_last(), student, start);
        if scan_matches(scans.last(), student, start) {
            match rest {
                Option::None => Some(scans.last()),
                Option::Some(b) => if scans.last().timestamp >= b.timestamp {
                    Some(scans.last())
                } else {
                    Some(b)
                },
            }
        } else {
            rest
        }
    }
}

/// Colour tag of the user with this id, if the directory knows one.
pub open spec fn color_of_user(users: Seq<User>, id: i64) -> Option<String> {
    if has_user_id(users, id) {
        users[choose|i: int| 0 <= i < users.len() && users[i].id == id].color
    } else {
        None
    }
}

impl RollCall {
    /// Record a badge scan.
    ///
    /// The identity is resolved by primary id first, then by alternate card
    /// UID; an unknown identity is `NotFound`. Outside an active session the
    /// scan is rejected. A duplicate scan for a student already safe in the
    /// window is a data-entry problem surfaced as `Conflict`, never a silent
    /// re-trigger. On success the badge scan and a `MarkedSafeScan` audit
    /// entry are appended, and the resolved student is returned.
    pub fn register_scan(
        &mut self,
        dir: &Directory,
        req: &RegisterScanRequest,
        now: i64,
    ) -> (r: Result<Student, RollCallError>)
        requires
            old(self).wf(),
            dir.wf(),
            old(self).next_scan_id < u64::MAX,
            old(self).next_history_id < u64::MAX,
            old(self).active() ==> now >= old(self).active_start(),
        ensures
            final(self).wf(),
            final(self).events@ == old(self).events@,
            final(self).summaries@ == old(self).summaries@,
            final(self).next_event_id == old(self).next_event_id,
            r is Err ==> *final(self) == *old(self),
            r is Ok ==> final(self).next_scan_id == old(self).next_scan_id + 1
                && final(self).next_history_id == old(self).next_history_id + 1,
            r == Err::<Student, RollCallError>(RollCallError::NotFound) <==> (!has_student_id(
                dir.students@,
                req.student_id@,
            ) && !has_card_uid(dir.students@, req.student_id@)),
            (has_student_id(dir.students@, req.student_id@) || has_card_uid(
                dir.students@,
                req.student_id@,
            )) && !old(self).active() ==> r == Err::<Student, RollCallError>(
                RollCallError::NoActiveSession,
            ),
            has_student_id(dir.students@, req.student_id@) && old(self).active() ==> (r
                == Err::<Student, RollCallError>(RollCallError::Conflict) <==> old(
                self,
            ).is_scanned(req.student_id@)),
            old(self).active() && (has_student_id(dir.students@, req.student_id@) || has_card_uid(
                dir.students@,
                req.student_id@,
            )) && r is Err ==> r == Err::<Student, RollCallError>(RollCallError::Conflict),
            r == Err::<Student, RollCallError>(RollCallError::Conflict) ==> old(self).active()
                && exists|s: Student|
                #![auto]
                dir.students@.contains(s) && (s.id@ == req.student_id@ || (s.card_uid matches Some(
                    u,
                ) && u@ == req.student_id@)) && old(self).is_scanned(s.id@),
            r matches Ok(s) ==> {
                &&& dir.students@.contains(s)
                &&& has_student_id(dir.students@, req.student_id@) ==> s.id@ == req.student_id@
                &&& !has_student_id(dir.students@, req.student_id@) ==> (s.card_uid matches Some(u)
                    && u@ == req.student_id@)
                &&& old(self).active()
                &&& !old(self).is_scanned(s.id@)
                &&& final(self).scans@ == old(self).scans@.push(
                    Scan {
                        id: old(self).next_scan_id,
                        student_id: s.id,
                        user_id: req.user_id,
                        timestamp: now,
                        scan_type: ScanKind::Badge,
                    },
                )
                &&& final(self).history@ == old(self).history@.push(
                    StatusHistoryEntry {
                        id: old(self).next_history_id,
                        student_id: s.id,
                        user_id: req.user_id,
                        action: HistoryAction::MarkedSafeScan,
                        timestamp: now,
                    },
                )
                &&& final(self).is_scanned(s.id@)
            },
    {
        let student = match dir.resolve_student(&req.student_id) {
            Ok(s) => s,
            Err(_) => {
                return Err(RollCallError::NotFound);
            },
        };
        let n: usize = self.events.len();
        if n == 0 || !self.events[n - 1].active {
            return Err(RollCallError::NoActiveSession);
        }
        let start: i64 = self.events[n - 1].start_time;
        if has_scan_in_window(&self.scans, &student.id, start) {
            return Err(RollCallError::Conflict);
        }
        let scan = Scan {
            id: self.next_scan_id,
            student_id: student.id.clone(),
            user_id: req.user_id,
            timestamp: now,
            scan_type: ScanKind::Badge,
        };
        self.scans.push(scan);
        self.next_scan_id = self.next_scan_id + 1;
        let entry = StatusHistoryEntry {
            id: self.next_history_id,
            student_id: student.id.clone(),
            user_id: req.user_id,
            action: HistoryAction::MarkedSafeScan,
            timestamp: now,
        };
        self.history.push(entry);
        self.next_history_id = self.next_history_id + 1;
        proof {
            let s1 = self.scans@;
            assert(scan_matches(s1.last(), student.id@, start as int));
            assert(scanned_in(s1, student.id@, start as int));
        }
        Ok(student)
    }

    /// The roll-call board: every student in the directory with their
    /// windowed status. With no active session every student reports
    /// `scanned = false`, whatever scan history closed sessions left behind.
    /// `teacher_color` comes from the staff member whose qualifying scan is
    /// the most recent.
    pub fn get_emergency_students(&self, dir: &Directory) -> (r: Vec<EmergencyStudent>)
        requires
            dir.wf(),
        ensures
            r@.len() == dir.students@.len(),
            forall|i: int|
                #![trigger r@[i]]
                0 <= i < r@.len() ==> {
                    let st = dir.students@[i];
                    &&& r@[i].id == st.id
                    &&& r@[i].names == st.names
                    &&& r@[i].paternal_last_name == st.paternal_last_name
                    &&& (match st.maternal_last_name {
                        Option::Some(m) => r@[i].maternal_last_name == m,
                        Option::None => r@[i].maternal_last_name@ == Seq::<char>::empty(),
                    })
                    &&& r@[i].group == st.group
                    &&& r@[i].major == st.major
                    &&& r@[i].scanned == self.is_scanned(st.id@)
                    &&& r@[i].teacher_color == (if self.active() {
                        match last_scan_in(self.scans@, st.id@, self.active_start()) {
                            Option::Some(sc) => color_of_user(dir.users@, sc.user_id),
                            Option::None => None::<String>,
                        }
                    } else {
                        None::<String>
                    })
                },
            !self.active() ==> forall|i: int| 0 <= i < r@.len() ==> !(#[trigger] r@[i]).scanned,
    {
        let active = self.get_emergency_status().active;
        let mut out: Vec<EmergencyStudent> = Vec::new();
        let n: usize = dir.students.len();
        for i in 0..n
            invariant
                dir.wf(),
                n == dir.students@.len(),
                out@.len() == i,
                forall|k: int|
                    #![trigger out@[k]]
                    0 <= k < i ==> {
                        let st = dir.students@[k];
                        &&& out@[k].id == st.id
                        &&& out@[k].names == st.names
                        &&& out@[k].paternal_last_name == st.paternal_last_name
                        &&& (match st.maternal_last_name {
                            Option::Some(m) => out@[k].maternal_last_name == m,
                            Option::None => out@[k].maternal_last_name@ == Seq::<char>::empty(),
                        })
                        &&& out@[k].group == st.group
                        &&& out@[k].major == st.major
                        &&& out@[k].scanned == self.is_scanned(st.id@)
                        &&& out@[k].teacher_color == (if self.active() {
                            match last_scan_in(self.scans@, st.id@, self.active_start()) {
                                Option::Some(sc) => color_of_user(dir.users@, sc.user_id),
                                Option::None => None::<String>,
                            }
                        } else {
                            None::<String>
                        })
                    },
                active == self.active(),
        {
            let st = &dir.students[i];
            let mut scanned = false;
            let mut teacher_color: Option<String> = None;
            if active {
                let m: usize = self.events.len();
                let start: i64 = self.events[m - 1].start_time;
                scanned = has_scan_in_window(&self.scans, &st.id, start);
                match last_scan_in_window(&self.scans, &st.id, start) {
                    Some(sc) => {
                        teacher_color = color_of_user_exec(dir, sc.user_id);
                    },
                    None => {},
                }
            }
            let maternal = match &st.maternal_last_name {
                Some(m) => m.clone(),
                None => String::new(),
            };
            let row = EmergencyStudent {
                id: st.id.clone(),
                names: st.names.clone(),
                paternal_last_name: st.paternal_last_name.clone(),
                maternal_last_name: maternal,
                group: st.group.clone(),
                major: st.major.clone(),
                scanned,
                teacher_color,
            };
            out.push(row);
        }
        out
    }
}

/// The calendar day (in UTC) a millisecond timestamp falls on, counted
/// from the epoch.
pub open spec fn day_index(t: int) -> int {
    t / 86400000
}

/// How many scans in the ledger fall on the given day.
pub open spec fn count_scans_on_day(scans: Seq<Scan>, day: int) -> int
    decreases scans.len(),
{
    if scans.len() == 0 {
        0
    } else {
        count_scans_on_day(scans.drop_last(), day) + if day_index(scans.last().timestamp as int)
            == day {
            1int
        } else {
            0int
        }
    }
}

/// The day a timestamp falls on, as a plain value.
pub(crate) fn day_of(t: i64) -> (d: i64)
    ensures
        d as int == day_index(t as int),
{
    proof {
        vstd::arithmetic::div_mod::lemma_div_is_ordered(t as int, i64::MAX as int, 86400000);
        vstd::arithmetic::div_mod::lemma_div_is_ordered(i64::MIN as int, t as int, 86400000);
        assert(i64::MAX as int / 86400000 <= i64::MAX);
        assert(i64::MIN as int / 86400000 >= i64::MIN);
    }
    let q = t.checked_div_euclid(86400000);
    match q {
        Some(d) => d,
        None => 0,
    }
}

impl RollCall {
    /// This student's windowed status: `Some(scanned)` during an active
    /// session, `None` outside one (when no status is meaningful).
    pub fn is_scanned_now(&self, student_id: &String) -> (r: Option<bool>)
        ensures
            self.active() ==> r == Some(self.is_scanned(student_id@)),
            !self.active() ==> r is None,
    {
        let n: usize = self.events.len();
        if n == 0 || !self.events[n - 1].active {
            return None;
        }
        let start: i64 = self.events[n - 1].start_time;
        Some(has_scan_in_window(&self.scans, student_id, start))
    }

    /// Dashboard counters: directory size, scans recorded on the current
    /// day, and whether a session is active.
    pub fn get_stats(&self, dir: &Directory, now: i64) -> (r: StatsResponse)
        ensures
            r.total_students == dir.students@.len(),
            r.active_emergency == self.active(),
            r.scans_today == count_scans_on_day(self.scans@, day_index(now as int)),
    {
        let today = day_of(now);
        let mut c: usize = 0;
        let n: usize = self.scans.len();
        for i in 0..n
            invariant
                n == self.scans@.len(),
                c <= i,
                today as int == day_index(now as int),
                c == count_scans_on_day(
                    self.scans@.subrange(0, i as int),
                    day_index(now as int),
                ),
        {
            proof {
                let pre = self.scans@.subrange(0, i as int);
                let cur = self.scans@.subrange(0, i + 1 as int);
                assert(cur.drop_last() =~= pre);
                assert(cur.last() == self.scans@[i as int]);
            }
            if day_of(self.scans[i].timestamp) == today {
                c = c + 1;
            }
        }
        proof {
            assert(self.scans@.subrange(0, n as int) =~= self.scans@);
        }
        StatsResponse {
            total_students: dir.students.len(),
            scans_today: c,
            active_emergency: self.get_emergency_status().active,
        }
    }

    /// Plain totals of the directory and the scan ledger.
    pub fn totals(&self, dir: &Directory) -> (r: Stats)
        ensures
            r.total_students == dir.students@.len(),
            r.total_users == dir.users@.len(),
            r.total_scans == self.scans@.len(),
            r.total_groups == dir.groups@.len(),
    {
        Stats {
            total_students: dir.students.len(),
            total_users: dir.users.len(),
            total_scans: self.scans.len(),
            total_groups: dir.groups.len(),
        }
    }
}

/// Find the colour tag of the user with this id.
fn color_of_user_exec(dir: &Directory, id: i64) -> (r: Option<String>)
    requires
        dir.wf(),
    ensures
        r == color_of_user(dir.users@, id),
{
    let n: usize = dir.users.len();
    for i in 0..n
        invariant
            dir.wf(),
            n == dir.users@.len(),
            forall|k: int| 0 <= k < i ==> dir.users@[k].id != id,
    {
        if dir.users[i].id == id {
            proof {
                assert(has_user_id(dir.users@, id));
                let w = choose|k: int| 0 <= k < dir.users@.len() && dir.users@[k].id == id;
                assert(w == i as int);
            }
            return dir.users[i].color.clone();
        }
    }
    None
}

/// The most recent qualifying scan for this student in the window.
fn last_scan_in_window(scans: &Vec<Scan>, student_id: &String, start: i64) -> (r: Option<Scan>)
    ensures
        r == last_scan_in(scans@, student_id@, start as int),
{
    let mut best: Option<Scan> = None;
    let n: usize = scans.len();
    for i in 0..n
        invariant
            n == scans@.len(),
            best == last_scan_in(scans@.subrange(0, i as int), student_id@, start as int),
    {
        proof {
            let pre = scans@.subrange(0, i as int);
            let cur = scans@.subrange(0, i + 1 as int);
            assert(cur.drop_last() =~= pre);
            assert(cur.last() == scans@[i as int]);
        }
        if scans[i].student_id == *student_id && scans[i].timestamp >= start {
            best = match best {
                Some(b) => {
                    if scans[i].timestamp >= b.timestamp {
                        Some(scans[i].clone())
                    } else {
                        Some(b)
                    }
                },
                None => Some(scans[i].clone()),
            };
        }
    }
    proof {
        assert(scans@.subrange(0, n as int) =~= scans@);
    }
    best
}

/// Is there a scan for this student at or after `start`?
fn has_scan_in_window(scans: &Vec<Scan>, student_id: &String, start: i64) -> (b: bool)
    ensures
        b == scanned_in(scans@, student_id@, start as int),
{
    let n: usize = scans.len();
    for i in 0..n
        invariant
            n == scans@.len(),
            forall|k: int| 0 <= k < i ==> !scan_matches(scans@[k], student_id@, start as int),
    {
        if scans[i].student_id == *student_id && scans[i].timestamp >= start {
            proof {
                assert(scan_matches(scans@[i as int], student_id@, start as int));
            }
            return true;
        }
    }
    false
}

/// Count the students with a qualifying scan in the window.
fn count_scanned_exec(
    students: &Vec<Student>,
    scans: &Vec<Scan>,
    start: i64,
) -> (c: usize)
    ensures
        c == count_scanned(students@, scans@, start as int),
{
    let mut c: usize = 0;
    let n: usize = students.len();
    for i in 0..n
        invariant
            n == students@.len(),
            c <= i,
            c == count_scanned(students@.subrange(0, i as int), scans@, start as int),
    {
        let hit = has_scan_in_window(scans, &students[i].id, start);
        proof {
            let pre = students@.subrange(0, i as int);
            let cur = students@.subrange(0, i + 1 as int);
            assert(cur.drop_last() =~= pre);
            assert(cur.last() == students@[i as int]);
        }
        if hit {
            c = c + 1;
        }
    }
    proof {
        assert(students@.subrange(0, n as int) =~= students@);
    }
    c
}

/// The windowed count never exceeds the number of students.
pub proof fn lemma_count_scanned_bounds(
    students: Seq<Student>,
    scans: Seq<Scan>,
    start: int,
)
    ensures
        0 <= count_scanned(students, scans, start) <= students.len(),
    decreases students.len(),
{
    if students.len() != 0 {
        lemma_count_scanned_bounds(students.drop_last(), scans, start);
    }
}

} // verus!
