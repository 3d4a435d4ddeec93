//! Audit-trail views: window scoping, reverse-chronological ordering, and
//! rendering entries for display with names resolved and timestamps
//! formatted.

use vstd::prelude::*;

use crate::clock::{timestamp_text, rfc3339_of, RENDER_MAX_MS, RENDER_MIN_MS};
use crate::directory::{has_student_id, has_user_id, Directory, Student, User};
use crate::engine::RollCall;
use crate::model::{ScanHistoryItem, StatusHistoryEntry};
use crate::order::{sort_by_time_desc, sorted_by_time_desc, Timestamped};

verus! {

impl Timestamped for StatusHistoryEntry {
    open spec fn time(&self) -> int {
        self.timestamp as int
    }

    fn time_exec(&self) -> (t: i64)
        ensures
            t as int == self.time(),
    {
        self.timestamp
    }
}

/// The display name of the student with this id: given and paternal name
/// joined by a space, or a placeholder when the directory does not know the
/// id (an audit row is never dropped for a deleted student).
pub open spec fn student_display_name(students: Seq<Student>, key: Seq<char>) -> Seq<char> {
    if has_student_id(students, key) {
        let s = students[choose|i: int| 0 <= i < students.len() && students[i].id@ == key];
        s.names@ + " "@ + s.paternal_last_name@
    } else {
        "unknown"@
    }
}

/// The display name of the staff member with this id, or a placeholder for
/// an id the directory does not know.
pub open spec fn user_display_name(users: Seq<User>, id: i64) -> Seq<char> {
    if has_user_id(users, id) {
        users[choose|i: int| 0 <= i < users.len() && users[i].id == id].display_name@
    } else {
        "system"@
    }
}

/// Does the display row `item` render the audit row `e` against this
/// directory?
pub open spec fn renders_entry(
    students: Seq<Student>,
    users: Seq<User>,
    e: StatusHistoryEntry,
    item: ScanHistoryItem,
) -> bool {
    &&& item.id == e.id
    &&& item.action == e.action
    &&& item.student_name@ == student_display_name(students, e.student_id@)
    &&& item.user_name@ == user_display_name(users, e.user_id)
    &&& (RENDER_MIN_MS <= e.timestamp <= RENDER_MAX_MS ==> item.timestamp@ == rfc3339_of(
        e.timestamp as int,
    ))
}

/// Render audit rows for display, newest-first order preserved.
pub fn render_history(entries: &Vec<StatusHistoryEntry>, dir: &Directory) -> (r: Vec<
    ScanHistoryItem,
>)
    requires
        dir.wf(),
    ensures
        r@.len() == entries@.len(),
        forall|k: int|
            0 <= k < r@.len() ==> renders_entry(
                dir.students@,
                dir.users@,
                entries@[k],
                #[trigger] r@[k],
            ),
{
    let mut out: Vec<ScanHistoryItem> = Vec::new();
    let n: usize = entries.len();
    for i in 0..n
        invariant
            dir.wf(),
            n == entries@.len(),
            out@.len() == i,
            forall|k: int|
                0 <= k < i ==> renders_entry(
                    dir.students@,
                    dir.users@,
                    entries@[k],
                    #[trigger] out@[k],
                ),
    {
        let e = &entries[i];
        let student_name = student_name_exec(dir, &e.student_id);
        let user_name = user_name_exec(dir, e.user_id);
        let item = ScanHistoryItem {
            id: e.id,
            student_name,
            user_name,
            action: e.action,
            timestamp: timestamp_text(e.timestamp),
        };
        out.push(item);
    }
    out
}

/// The display name of a student, by id.
fn student_name_exec(dir: &Directory, key: &String) -> (r: String)
    requires
        dir.wf(),
    ensures
        r@ == student_display_name(dir.students@, key@),
{
    let n: usize = dir.students.len();
    for i in 0..n
        invariant
            dir.wf(),
            n == dir.students@.len(),
            forall|k: int| 0 <= k < i ==> dir.students@[k].id@ != key@,
    {
        if dir.students[i].id == *key {
            proof {
                assert(has_student_id(dir.students@, key@));
                let w = choose|k: int|
                    0 <= k < dir.students@.len() && dir.students@[k].id@ == key@;
                assert(w == i as int);
            }
            let mut name = dir.students[i].names.clone();
            name.append(" ");
            name.append(dir.students[i].paternal_last_name.as_str());
            return name;
        }
    }
    String::from_str("unknown")
}

/// The display name of a staff member, by id.
fn user_name_exec(dir: &Directory, id: i64) -> (r: String)
    requires
        dir.wf(),
    ensures
        r@ == user_display_name(dir.users@, id),
{
    let n: usize = dir.users.len();
    for i in 0..n
        invariant
            dir.wf(),
            n == dir.users@.len(),
            forall|k: int| 0 <= k < i ==> dir.users@[k].id != id,
    {
        if dir.users[i].id == id {
            proof {
                assert(has_user_id(dir.users@, id));
                let w = choose|k: int| 0 <= k < dir.users@.len() && dir.users@[k].id == id;
                assert(w == i as int);
            }
            return dir.users[i].display_name.clone();
        }
    }
    String::from_str("system")
}

impl RollCall {
    /// The audit entries of the current incident: those inside the active
    /// window, newest first. Empty when no session is active, so a closed
    /// incident's trail never leaks into the current view.
    pub fn history_in_window(&self) -> (r: Vec<StatusHistoryEntry>)
        ensures
            !self.active() ==> r@.len() == 0,
            self.active() ==> r@.to_multiset() == self.history@.filter(
                |e: StatusHistoryEntry| e.timestamp >= self.active_start(),
            ).to_multiset(),
            sorted_by_time_desc(r@),
    {
        let n: usize = self.events.len();
        if n == 0 || !self.events[n - 1].active {
            return Vec::new();
        }
        let start: i64 = self.events[n - 1].start_time;
        let ghost pred = |e: StatusHistoryEntry| e.timestamp >= start as int;
        let mut picked: Vec<StatusHistoryEntry> = Vec::new();
        let m: usize = self.history.len();
        for i in 0..m
            invariant
                m == self.history@.len(),
                picked@ == self.history@.subrange(0, i as int).filter(pred),
                pred == (|e: StatusHistoryEntry| e.timestamp >= start as int),
        {
            proof {
                reveal(Seq::filter);
                let pre = self.history@.subrange(0, i as int);
                let cur = self.history@.subrange(0, i + 1 as int);
                assert(cur.drop_last() =~= pre);
                assert(cur.last() == self.history@[i as int]);
            }
            if self.history[i].timestamp >= start {
                picked.push(self.history[i].clone());
            }
        }
        proof {
            assert(self.history@.subrange(0, m as int) =~= self.history@);
        }
        sort_by_time_desc(picked)
    }

    /// The unscoped all-time audit trail, newest first.
    pub fn get_emergency_history(&self) -> (r: Vec<StatusHistoryEntry>)
        ensures
            r@.to_multiset() == self.history@.to_multiset(),
            sorted_by_time_desc(r@),
    {
        let mut all: Vec<StatusHistoryEntry> = Vec::new();
        let n: usize = self.history.len();
        for i in 0..n
            invariant
                n == self.history@.len(),
                all@ == self.history@.subrange(0, i as int),
        {
            all.push(self.history[i].clone());
            assert(all@ =~= self.history@.subrange(0, i + 1 as int));
        }
        proof {
            assert(self.history@.subrange(0, n as int) =~= self.history@);
        }
        sort_by_time_desc(all)
    }

    /// The current incident's audit trail rendered for display: scoped to
    /// the active window, newest first, names resolved against the
    /// directory, timestamps as RFC 3339 text.
    pub fn get_scan_history(&self, dir: &Directory) -> (r: Vec<ScanHistoryItem>)
        requires
            dir.wf(),
        ensures
            !self.active() ==> r@.len() == 0,
            exists|entries: Seq<StatusHistoryEntry>|
                {
                    &&& (self.active() ==> (#[trigger] entries.to_multiset())
                        == self.history@.filter(
                        |e: StatusHistoryEntry| e.timestamp >= self.active_start(),
                    ).to_multiset())
                    &&& (!self.active() ==> entries.len() == 0)
                    &&& sorted_by_time_desc(entries)
                    &&& r@.len() == entries.len()
                    &&& forall|k: int|
                        0 <= k < r@.len() ==> renders_entry(
                            dir.students@,
                            dir.users@,
                            entries[k],
                            #[trigger] r@[k],
                        )
                },
    {
        let entries = self.history_in_window();
        let r = render_history(&entries, dir);
        proof {
            // Mention the entries' multiset so they can serve as the witness
            // for the postcondition's existential.
            assert(entries@.to_multiset() =~= entries@.to_multiset());
        }
        r
    }
}

} // verus!
