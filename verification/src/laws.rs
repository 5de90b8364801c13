//! The general guarantees of the compile verifier, stated and proved over
//! the same specification functions that the executable functions' contracts
//! use: how whole-history health, final-revision health and the success
//! count come out for the characteristic shapes of a task's history, that
//! the first clean candidate standard wins, and that a verification pass
//! leaves the working copy where it started.

use vstd::prelude::*;
use crate::compile::{
    all_attempts_clean, any_attempted, attempt_clean, count_clean, first_clean_spec, is_attempt,
    last_attempt_clean, recorded_standard, RevisionEvent,
};

verus! {

proof fn lemma_count_all_clean(events: Seq<RevisionEvent>)
    requires
        forall|i: int| 0 <= i < events.len() ==> attempt_clean(events[i]),
    ensures
        count_clean(events) == events.len(),
    decreases events.len(),
{
    if events.len() > 0 {
        lemma_count_all_clean(events.drop_last());
    }
}

proof fn lemma_count_one_fail(events: Seq<RevisionEvent>, f: int)
    requires
        0 <= f < events.len(),
        !attempt_clean(events[f]),
        forall|i: int| 0 <= i < events.len() && i != f ==> attempt_clean(events[i]),
    ensures
        count_clean(events) == events.len() - 1,
    decreases events.len(),
{
    if f == events.len() - 1 {
        lemma_count_all_clean(events.drop_last());
    } else {
        lemma_count_one_fail(events.drop_last(), f);
    }
}

/// With at least one revision and every revision checked out and compiling
/// cleanly, the summary facts come out all healthy: the whole history
/// compiles, the newest revision compiles, and every revision counts as
/// successful.
pub proof fn law_all_revisions_clean(events: Seq<RevisionEvent>)
    requires
        events.len() > 0,
        forall|i: int| 0 <= i < events.len() ==> attempt_clean(events[i]),
    ensures
        any_attempted(events),
        all_attempts_clean(events),
        last_attempt_clean(events),
        count_clean(events) == events.len(),
{
    assert(attempt_clean(events[0]));
    assert(is_attempt(events[0]));
    lemma_count_all_clean(events);
}

/// With every revision attempted, the oldest failing to compile and all the
/// later ones compiling cleanly: the whole history does not compile, the
/// newest revision does, and all revisions but one count as successful.
/// Events are in visiting order, oldest first.
pub proof fn law_only_oldest_fails(events: Seq<RevisionEvent>)
    requires
        events.len() >= 2,
        forall|i: int| 0 <= i < events.len() ==> is_attempt(events[i]),
        !attempt_clean(events[0]),
        forall|i: int| 1 <= i < events.len() ==> attempt_clean(events[i]),
    ensures
        any_attempted(events),
        !all_attempts_clean(events),
        last_attempt_clean(events),
        count_clean(events) == events.len() - 1,
{
    assert(is_attempt(events[0]) && !attempt_clean(events[0]));
    lemma_count_one_fail(events, 0);
}

/// With every revision attempted, the newest failing to compile and all the
/// earlier ones compiling cleanly: neither the whole history nor the newest
/// revision compiles, and all revisions but one count as successful.
pub proof fn law_only_newest_fails(events: Seq<RevisionEvent>)
    requires
        events.len() >= 1,
        forall|i: int| 0 <= i < events.len() ==> is_attempt(events[i]),
        !attempt_clean(events[events.len() - 1]),
        forall|i: int| 0 <= i < events.len() - 1 ==> attempt_clean(events[i]),
    ensures
        any_attempted(events),
        !all_attempts_clean(events),
        !last_attempt_clean(events),
        count_clean(events) == events.len() - 1,
{
    assert(is_attempt(events[events.len() - 1]));
    lemma_count_one_fail(events, events.len() - 1);
}

/// When exactly one candidate standard yields empty diagnostics, the first
/// clean compile is under that standard and no other.
pub proof fn law_standard_selection(outputs: Seq<Seq<char>>, s: int)
    requires
        0 <= s < outputs.len(),
        outputs[s].len() == 0,
        forall|i: int| 0 <= i < outputs.len() && i != s ==> outputs[i].len() != 0,
    ensures
        first_clean_spec(outputs) == Some(s),
    decreases s,
{
    if s > 0 {
        let tail = outputs.subrange(1, outputs.len() as int);
        law_standard_selection(tail, s - 1);
    }
}

/// A newest revision that compiled cleanly under some standard counts as
/// successful and leaves that standard recorded for the submission.
pub proof fn law_clean_revision_recorded(events: Seq<RevisionEvent>, s: usize)
    requires
        events.len() > 0,
        events.last() == (RevisionEvent::Attempted { first_clean: Some(s) }),
    ensures
        recorded_standard(events) == Some(s),
        count_clean(events) >= 1,
        last_attempt_clean(events),
{
}

/// The verification summary is a function of the revision outcomes alone:
/// two passes that see the same outcomes — as they do over an unchanged,
/// immutable repository — report the same facts.
pub proof fn law_verification_deterministic(e1: Seq<RevisionEvent>, e2: Seq<RevisionEvent>)
    requires
        e1 == e2,
    ensures
        any_attempted(e1) == any_attempted(e2),
        all_attempts_clean(e1) == all_attempts_clean(e2),
        last_attempt_clean(e1) == last_attempt_clean(e2),
        count_clean(e1) == count_clean(e2),
        recorded_standard(e1) == recorded_standard(e2),
{
}

/// One checkout operation on a working copy: checking a revision out, or
/// checking back out the revision that was current before the last checkout.
pub enum TreeOp {
    Checkout(Seq<char>),
    Restore,
}

/// Which revision a working copy has checked out, and which one was checked
/// out before that — the revision a restore goes back to.
pub struct WorkingCopy {
    pub current: Seq<char>,
    pub previous: Seq<char>,
}

pub open spec fn apply_op(w: WorkingCopy, op: TreeOp) -> WorkingCopy {
    match op {
        TreeOp::Checkout(r) => WorkingCopy { current: r, previous: w.current },
        TreeOp::Restore => WorkingCopy { current: w.previous, previous: w.current },
    }
}

pub open spec fn apply_ops(w: WorkingCopy, ops: Seq<TreeOp>) -> WorkingCopy
    decreases ops.len(),
{
    if ops.len() == 0 {
        w
    } else {
        apply_ops(apply_op(w, ops[0]), ops.subrange(1, ops.len() as int))
    }
}

/// The checkout work one revision's visit performs: a failed checkout leaves
/// the working copy alone; an attempted revision is checked out and the
/// working copy restored afterward, whatever the compile outcome was.
pub open spec fn visit_ops(ev: RevisionEvent, rev: Seq<char>) -> Seq<TreeOp> {
    match ev {
        RevisionEvent::CheckoutFailed => Seq::empty(),
        RevisionEvent::Attempted { .. } => seq![TreeOp::Checkout(rev), TreeOp::Restore],
    }
}

/// The checkout work of a whole verification pass, one visit per revision.
pub open spec fn walk_ops(events: Seq<RevisionEvent>, revisions: Seq<Seq<char>>) -> Seq<TreeOp>
    decreases events.len(),
{
    if events.len() == 0 {
        Seq::empty()
    } else {
        visit_ops(events[0], revisions[0]) + walk_ops(
            events.subrange(1, events.len() as int),
            revisions.subrange(1, revisions.len() as int),
        )
    }
}

proof fn lemma_apply_ops_concat(w: WorkingCopy, a: Seq<TreeOp>, b: Seq<TreeOp>)
    ensures
        apply_ops(w, a + b) == apply_ops(apply_ops(w, a), b),
    decreases a.len(),
{
    if a.len() == 0 {
        assert(a + b =~= b);
    } else {
        assert((a + b)[0] == a[0]);
        assert((a + b).subrange(1, (a + b).len() as int) =~= a.subrange(1, a.len() as int) + b);
        lemma_apply_ops_concat(apply_op(w, a[0]), a.subrange(1, a.len() as int), b);
    }
}

/// A verification pass leaves the working copy checked out on the revision
/// it started on: every checkout it performs is paired with a restore, and
/// skipped revisions touch nothing.  So a second pass starts from the same
/// repository state as the first.
pub proof fn law_working_copy_restored(
    events: Seq<RevisionEvent>,
    revisions: Seq<Seq<char>>,
    w: WorkingCopy,
)
    ensures
        apply_ops(w, walk_ops(events, revisions)).current == w.current,
    decreases events.len(),
{
    if events.len() > 0 {
        let ops0 = visit_ops(events[0], revisions[0]);
        let rest = walk_ops(
            events.subrange(1, events.len() as int),
            revisions.subrange(1, revisions.len() as int),
        );
        lemma_apply_ops_concat(w, ops0, rest);
        let w1 = apply_ops(w, ops0);
        match events[0] {
            RevisionEvent::CheckoutFailed => {
                assert(w1 == w);
            },
            RevisionEvent::Attempted { .. } => {
                let p = seq![TreeOp::Checkout(revisions[0]), TreeOp::Restore];
                assert(ops0 == p);
                assert(p[0] == TreeOp::Checkout(revisions[0]));
                let wa = apply_op(w, p[0]);
                let p1 = p.subrange(1, 2);
                assert(apply_ops(w, p) == apply_ops(wa, p1));
                assert(p1 =~= seq![TreeOp::Restore]);
                assert(p1[0] == TreeOp::Restore);
                let wb = apply_op(wa, p1[0]);
                assert(wb.current == w.current);
                assert(p1.subrange(1, 1) =~= Seq::<TreeOp>::empty());
                assert(apply_ops(wa, p1) == apply_ops(wb, p1.subrange(1, 1)));
                assert(apply_ops(wb, p1.subrange(1, 1)) == wb);
                assert(w1.current == w.current);
            },
        }
        law_working_copy_restored(
            events.subrange(1, events.len() as int),
            revisions.subrange(1, revisions.len() as int),
            w1,
        );
    }
}

} // verus!
