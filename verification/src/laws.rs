//! Global properties of the roll-call engine, stated and proved once.

use vstd::prelude::*;

use crate::engine::{last_scan_in, scan_matches, scanned_in, toggle_scans, RollCall};
use crate::model::Scan;

verus! {

/// At most one active emergency event exists: in a well-formed engine any
/// two active session rows are the same row.
pub proof fn lemma_at_most_one_active(rc: RollCall)
    requires
        rc.wf(),
    ensures
        forall|i: int, j: int|
            0 <= i < rc.events@.len() && 0 <= j < rc.events@.len() && (#[trigger] rc.events@[i]).active
                && (#[trigger] rc.events@[j]).active ==> i == j,
{
}

/// Toggling a student twice in succession within one session returns them
/// to their original status. The two fresh scans stand for the manual scans
/// the toggles may insert; like every scan inserted during a session, their
/// timestamps lie inside the window.
pub proof fn lemma_toggle_round_trip(
    scans: Seq<Scan>,
    student: Seq<char>,
    start: int,
    fresh1: Scan,
    fresh2: Scan,
)
    requires
        fresh1.student_id@ == student,
        fresh1.timestamp >= start,
        fresh2.student_id@ == student,
        fresh2.timestamp >= start,
    ensures
        scanned_in(
            toggle_scans(toggle_scans(scans, student, start, fresh1), student, start, fresh2),
            student,
            start,
        ) == scanned_in(scans, student, start),
{
    broadcast use vstd::prelude::Seq::lemma_filter_pred;

    let once = toggle_scans(scans, student, start, fresh1);
    let twice = toggle_scans(once, student, start, fresh2);
    if scanned_in(scans, student, start) {
        assert(!scanned_in(once, student, start));
        assert(twice == once.push(fresh2));
        assert(scan_matches(twice.last(), student, start));
        assert(scanned_in(twice, student, start));
    } else {
        assert(once == scans.push(fresh1));
        assert(scan_matches(once.last(), student, start));
        assert(scanned_in(once, student, start));
        assert(!scanned_in(twice, student, start));
    }
}

/// A successful badge scan leaves the student counting as scanned in the
/// window, so an immediate second scan for the same student meets the
/// engine's duplicate-scan contract and is rejected with `Conflict`.
pub proof fn lemma_duplicate_scan_rejected(
    scans: Seq<Scan>,
    student: Seq<char>,
    start: int,
    fresh: Scan,
)
    requires
        fresh.student_id@ == student,
        fresh.timestamp >= start,
    ensures
        scanned_in(scans.push(fresh), student, start),
{
    let pushed = scans.push(fresh);
    assert(scan_matches(pushed.last(), student, start));
}

/// A scan stamped before the active session began never counts toward the
/// current session's status, whatever closed sessions left in the ledger.
pub proof fn lemma_stale_scan_not_counted(scans: Seq<Scan>, student: Seq<char>, start: int)
    requires
        forall|i: int|
            0 <= i < scans.len() && (#[trigger] scans[i]).student_id@ == student ==> scans[i].timestamp
                < start,
    ensures
        !scanned_in(scans, student, start),
{
}

/// The board's colour source is consistent with the scanned bit: a most
/// recent qualifying scan exists exactly for the students who count as
/// scanned, and it is itself a qualifying scan.
pub proof fn lemma_last_scan_consistent(scans: Seq<Scan>, student: Seq<char>, start: int)
    ensures
        last_scan_in(scans, student, start) is Some <==> scanned_in(scans, student, start),
        last_scan_in(scans, student, start) matches Some(sc) ==> scan_matches(sc, student, start),
    decreases scans.len(),
{
    if scans.len() != 0 {
        lemma_last_scan_consistent(scans.drop_last(), student, start);
        if scanned_in(scans, student, start) && !scan_matches(scans.last(), student, start) {
            let w = choose|i: int|
                0 <= i < scans.len() && scan_matches(scans[i], student, start);
            assert(scan_matches(scans.drop_last()[w], student, start));
        }
        if scanned_in(scans.drop_last(), student, start) {
            let w = choose|i: int|
                0 <= i < scans.drop_last().len() && scan_matches(
                    scans.drop_last()[i],
                    student,
                    start,
                );
            assert(scan_matches(scans[w], student, start));
        }
    }
}

} // verus!
