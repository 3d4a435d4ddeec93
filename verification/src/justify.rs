//! Absence justifications: submission, the pending queue, and the
//! approval decision. File storage for evidence lives outside the library;
//! the ledger only keeps the evidence's location.

use vstd::prelude::*;

use crate::errors::RollCallError;
use crate::order::{sort_by_time_desc, sorted_by_time_desc, Timestamped};

verus! {

/// Where a justification stands: awaiting a decision, approved or rejected.
#[derive(Clone, Copy, Debug, PartialEq, Eq, Structural)]
pub enum JustificationStatus {
    Pending,
    Approved,
    Rejected,
}

/// One justification: why a student was absent on a date, with optional
/// stored evidence.
pub struct Justification {
    pub id: i64,
    pub student_id: String,
    pub date: String,
    pub reason: String,
    pub evidence_url: Option<String>,
    pub status: JustificationStatus,
    pub admin_comment: Option<String>,
    pub submitted_at: i64,
}

impl Clone for Justification {
    fn clone(&self) -> (r: Self)
        ensures
            r == *self,
    {
        let r = Justification {
            id: self.id,
            student_id: self.student_id.clone(),
            date: self.date.clone(),
            reason: self.reason.clone(),
            evidence_url: self.evidence_url.clone(),
            status: self.status,
            admin_comment: self.admin_comment.clone(),
            submitted_at: self.submitted_at,
        };
        r
    }
}

impl Timestamped for Justification {
    open spec fn time(&self) -> int {
        self.submitted_at as int
    }

    fn time_exec(&self) -> (t: i64)
        ensures
            t as int == self.time(),
    {
        self.submitted_at
    }
}

/// Acknowledgement of a submitted justification.
#[derive(Debug)]
pub struct CreateJustificationResponse {
    pub message: String,
    pub id: i64,
}

/// Request to decide a pending justification.
pub struct UpdateJustificationStatusRequest {
    pub status: String,
    pub admin_comment: Option<String>,
}

/// The decision named by the request text, if it names one.
pub open spec fn parsed_decision(s: Seq<char>) -> Option<JustificationStatus> {
    if s == "APPROVED"@ {
        Some(JustificationStatus::Approved)
    } else if s == "REJECTED"@ {
        Some(JustificationStatus::Rejected)
    } else {
        None
    }
}

/// The decision named by the request text, if it names one.
fn parse_decision(s: &String) -> (r: Option<JustificationStatus>)
    ensures
        r == parsed_decision(s@),
{
    if *s == "APPROVED".to_owned() {
        Some(JustificationStatus::Approved)
    } else if *s == "REJECTED".to_owned() {
        Some(JustificationStatus::Rejected)
    } else {
        None
    }
}

/// Does some justification in `s` have the numeric id `id`?
pub open spec fn has_justification_id(s: Seq<Justification>, id: i64) -> bool {
    exists|i: int| 0 <= i < s.len() && s[i].id == id
}

/// The justification ledger.
pub struct JustificationLog {
    pub entries: Vec<Justification>,
    pub next_id: i64,
}

impl JustificationLog {
    pub open spec fn wf(self) -> bool {
        &&& forall|i: int, j: int|
            0 <= i < j < self.entries@.len() ==> self.entries@[i].id != self.entries@[j].id
        &&& forall|i: int| 0 <= i < self.entries@.len() ==> self.entries@[i].id < self.next_id
    }

    /// An empty ledger.
    pub fn new() -> (r: JustificationLog)
        ensures
            r.wf(),
            r.entries@.len() == 0,
    {
        JustificationLog { entries: Vec::new(), next_id: 1 }
    }

    /// Submit a justification. The student id, date and reason must not be
    /// empty; the new entry starts pending.
    pub fn submit_justification(
        &mut self,
        student_id: String,
        date: String,
        reason: String,
        evidence_url: Option<String>,
        now: i64,
    ) -> (r: Result<CreateJustificationResponse, RollCallError>)
        requires
            old(self).wf(),
            old(self).next_id < i64::MAX,
        ensures
            final(self).wf(),
            r is Err <==> (student_id@.len() == 0 || date@.len() == 0 || reason@.len() == 0),
            r is Err ==> r == Err::<CreateJustificationResponse, RollCallError>(
                RollCallError::InvalidInput,
            ) && *final(self) == *old(self),
            r matches Ok(resp) ==> {
                &&& resp.id == old(self).next_id
                &&& resp.message@ == "justification submitted"@
                &&& final(self).entries@ == old(self).entries@.push(
                    Justification {
                        id: resp.id,
                        student_id: student_id,
                        date: date,
                        reason: reason,
                        evidence_url: evidence_url,
                        status: JustificationStatus::Pending,
                        admin_comment: None,
                        submitted_at: now,
                    },
                )
            },
    {
        if student_id.as_str().is_empty() || date.as_str().is_empty()
            || reason.as_str().is_empty() {
            return Err(RollCallError::InvalidInput);
        }
        let id: i64 = self.next_id;
        self.next_id = self.next_id + 1;
        self.entries.push(
            Justification {
                id,
                student_id,
                date,
                reason,
                evidence_url,
                status: JustificationStatus::Pending,
                admin_comment: None,
                submitted_at: now,
            },
        );
        Ok(CreateJustificationResponse { message: "justification submitted".to_owned(), id })
    }

    /// The pending queue, most recently submitted first.
    pub fn get_pending_justifications(&self) -> (r: Vec<Justification>)
        ensures
            r@.to_multiset() == self.entries@.filter(
                |j: Justification| j.status is Pending,
            ).to_multiset(),
            sorted_by_time_desc(r@),
    {
        let ghost pred = |j: Justification| j.status is Pending;
        let mut picked: Vec<Justification> = Vec::new();
        let n: usize = self.entries.len();
        for i in 0..n
            invariant
                n == self.entries@.len(),
                picked@ == self.entries@.subrange(0, i as int).filter(pred),
                pred == (|j: Justification| j.status is Pending),
        {
            proof {
                reveal(Seq::filter);
                let pre = self.entries@.subrange(0, i as int);
                let cur = self.entries@.subrange(0, i + 1 as int);
                assert(cur.drop_last() =~= pre);
                assert(cur.last() == self.entries@[i as int]);
            }
            if matches!(self.entries[i].status, JustificationStatus::Pending) {
                picked.push(self.entries[i].clone());
            }
        }
        proof {
            assert(self.entries@.subrange(0, n as int) =~= self.entries@);
        }
        sort_by_time_desc(picked)
    }

    /// Decide a justification: the request must name a decision (approved
    /// or rejected), and the id must exist. The entry keeps everything but
    /// its status and the administrator's comment.
    pub fn update_justification_status(
        &mut self,
        id: i64,
        req: UpdateJustificationStatusRequest,
    ) -> (r: Result<(), RollCallError>)
        requires
            old(self).wf(),
        ensures
            final(self).wf(),
            r == Err::<(), RollCallError>(RollCallError::InvalidInput) <==> parsed_decision(
                req.status@,
            ) is None,
            parsed_decision(req.status@) is Some ==> (r == Err::<(), RollCallError>(
                RollCallError::NotFound,
            ) <==> !has_justification_id(old(self).entries@, id)),
            r is Err ==> *final(self) == *old(self),
            r is Err ==> r == Err::<(), RollCallError>(RollCallError::InvalidInput) || r
                == Err::<(), RollCallError>(RollCallError::NotFound),
            r is Ok ==> exists|i: int|
                0 <= i < old(self).entries@.len() && old(self).entries@[i].id == id
                    && final(self).entries@ == old(self).entries@.update(
                    i,
                    (Justification {
                        status: parsed_decision(req.status@).unwrap(),
                        admin_comment: req.admin_comment,
                        ..old(self).entries@[i]
                    }),
                ),
    {
        let decision = match parse_decision(&req.status) {
            Some(d) => d,
            None => {
                return Err(RollCallError::InvalidInput);
            },
        };
        let n: usize = self.entries.len();
        for i in 0..n
            invariant
                *self == *old(self),
                old(self).wf(),
                parsed_decision(req.status@) == Some(decision),
                n == self.entries@.len(),
                forall|k: int| 0 <= k < i ==> self.entries@[k].id != id,
        {
            if self.entries[i].id == id {
                let old_row = self.entries[i].clone();
                let comment = match &req.admin_comment {
                    Some(c) => Some(c.clone()),
                    None => None,
                };
                self.entries[i] = Justification {
                    status: decision,
                    admin_comment: comment,
                    ..old_row
                };
                proof {
                    let s0 = old(self).entries@;
                    let s1 = self.entries@;
                    assert(forall|k: int| 0 <= k < s1.len() ==> s1[k].id == s0[k].id);
                    assert(s0[i as int].id == id);
                    assert(has_justification_id(s0, id));
                    assert(s1 =~= s0.update(
                        i as int,
                        (Justification {
                            status: parsed_decision(req.status@).unwrap(),
                            admin_comment: req.admin_comment,
                            ..s0[i as int]
                        }),
                    ));
                }
                return Ok(());
            }
        }
        Err(RollCallError::NotFound)
    }
}

} // verus!
