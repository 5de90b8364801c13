//! The commit-compilation verifier: walk a task's revisions oldest to
//! newest, judge each checkout-and-compile outcome, and fold the outcomes
//! into three summary facts — whether every visited revision compiled,
//! whether the newest one did, and how many did.
//!
//! The gateway work (checking a revision out, invoking the compiler,
//! restoring the working copy) is done outside the library; its outcomes come
//! back in as [`RevisionEvent`] values, one per revision in oldest-first
//! order, and everything decided about them is verified here.

use vstd::prelude::*;

verus! {

/// What happened at one revision: the checkout failed and the revision was
/// skipped, or compilation was attempted and the first candidate standard
/// with a clean result — empty diagnostics — is recorded, if there was one.
#[derive(Clone, Copy, Debug)]
pub enum RevisionEvent {
    CheckoutFailed,
    Attempted { first_clean: Option<usize> },
}

/// The summary facts for one task once at least one revision was attempted.
#[derive(Clone, Copy, Debug)]
pub struct TaskSummary {
    pub all_revisions_compile: bool,
    pub final_revision_compiles: bool,
    pub successful_revision_count: usize,
    pub recorded_standard: Option<usize>,
}

pub open spec fn is_attempt(ev: RevisionEvent) -> bool {
    ev is Attempted
}

/// Whether the revision was attempted and compiled cleanly under some
/// candidate standard.
pub open spec fn attempt_clean(ev: RevisionEvent) -> bool {
    match ev {
        RevisionEvent::Attempted { first_clean } => first_clean is Some,
        RevisionEvent::CheckoutFailed => false,
    }
}

/// The standard the event recorded, if it compiled cleanly.
pub open spec fn event_standard(ev: RevisionEvent) -> Option<usize> {
    match ev {
        RevisionEvent::Attempted { first_clean } => first_clean,
        RevisionEvent::CheckoutFailed => None,
    }
}

/// Whether any revision at all was attempted (a failed checkout does not
/// count as an attempt).
pub open spec fn any_attempted(events: Seq<RevisionEvent>) -> bool {
    exists|i: int| 0 <= i < events.len() && is_attempt(events[i])
}

/// Whether every attempted revision compiled cleanly.
pub open spec fn all_attempts_clean(events: Seq<RevisionEvent>) -> bool {
    forall|i: int| 0 <= i < events.len() && is_attempt(events[i]) ==> attempt_clean(events[i])
}

/// Whether the chronologically last attempted revision compiled cleanly.
pub open spec fn last_attempt_clean(events: Seq<RevisionEvent>) -> bool
    decreases events.len(),
{
    if events.len() == 0 {
        false
    } else if is_attempt(events.last()) {
        attempt_clean(events.last())
    } else {
        last_attempt_clean(events.drop_last())
    }
}

/// How many revisions compiled cleanly.
pub open spec fn count_clean(events: Seq<RevisionEvent>) -> nat
    decreases events.len(),
{
    if events.len() == 0 {
        0
    } else {
        count_clean(events.drop_last()) + if attempt_clean(events.last()) {
            1nat
        } else {
            0nat
        }
    }
}

/// The standard recorded by the last cleanly compiling revision, if any:
/// each clean revision overwrites the recording, the others leave it.
pub open spec fn recorded_standard(events: Seq<RevisionEvent>) -> Option<usize>
    decreases events.len(),
{
    if events.len() == 0 {
        None
    } else if attempt_clean(events.last()) {
        event_standard(events.last())
    } else {
        recorded_standard(events.drop_last())
    }
}

/// The verifier's running state while walking a task's revisions.
#[derive(Clone, Copy, Debug)]
pub struct VerifyState {
    pub overall_ok: bool,
    pub last_ok: bool,
    pub successful: usize,
    pub any_attempted: bool,
    pub standard: Option<usize>,
}

pub open spec fn init_state() -> VerifyState {
    VerifyState {
        overall_ok: true,
        last_ok: false,
        successful: 0,
        any_attempted: false,
        standard: None,
    }
}

/// How one revision's outcome changes the running state: a skipped revision
/// changes nothing; a clean one bumps the success count and the recorded
/// standard; a failed one pulls the whole-history flag down.
pub open spec fn step_spec(st: VerifyState, ev: RevisionEvent) -> VerifyState {
    match ev {
        RevisionEvent::CheckoutFailed => st,
        RevisionEvent::Attempted { first_clean } => {
            if first_clean is Some {
                VerifyState {
                    overall_ok: st.overall_ok,
                    last_ok: true,
                    successful: (st.successful + 1) as usize,
                    any_attempted: true,
                    standard: first_clean,
                }
            } else {
                VerifyState {
                    overall_ok: false,
                    last_ok: false,
                    successful: st.successful,
                    any_attempted: true,
                    standard: st.standard,
                }
            }
        },
    }
}

impl VerifyState {
    pub fn new() -> (r: Self)
        ensures
            r == init_state(),
    {
        VerifyState {
            overall_ok: true,
            last_ok: false,
            successful: 0,
            any_attempted: false,
            standard: None,
        }
    }

    pub fn step(&mut self, ev: &RevisionEvent)
        requires
            old(self).successful < usize::MAX,
        ensures
            *final(self) == step_spec(*old(self), *ev),
    {
        match ev {
            RevisionEvent::CheckoutFailed => {},
            RevisionEvent::Attempted { first_clean } => {
                if first_clean.is_some() {
                    self.last_ok = true;
                    self.successful = self.successful + 1;
                    self.standard = *first_clean;
                } else {
                    self.last_ok = false;
                    self.overall_ok = false;
                }
                self.any_attempted = true;
            },
        }
    }
}

/// Fold a whole task's revision outcomes, oldest first, into the summary; or
/// nothing when no revision was actually attempted, so that the unknown state
/// is preserved.
pub fn run_verification(events: &Vec<RevisionEvent>) -> (r: Option<TaskSummary>)
    ensures
        r is Some <==> any_attempted(events@),
        r matches Some(s) ==> s.all_revisions_compile == all_attempts_clean(events@)
            && s.final_revision_compiles == last_attempt_clean(events@)
            && s.successful_revision_count == count_clean(events@)
            && s.recorded_standard == recorded_standard(events@),
{
    let mut st = VerifyState::new();
    let mut i: usize = 0;
    while i < events.len()
        invariant
            i <= events.len(),
            st.successful <= i,
            st.any_attempted == any_attempted(events@.subrange(0, i as int)),
            st.overall_ok == all_attempts_clean(events@.subrange(0, i as int)),
            st.last_ok == last_attempt_clean(events@.subrange(0, i as int)),
            st.successful == count_clean(events@.subrange(0, i as int)),
            st.standard == recorded_standard(events@.subrange(0, i as int)),
        decreases events.len() - i,
    {
        let ghost pre = events@.subrange(0, i as int);
        st.step(&events[i]);
        proof {
            let ext = events@.subrange(0, i + 1 as int);
            assert(ext.drop_last() =~= pre);
            assert(ext.last() == events@[i as int]);
            assert(pre.push(events@[i as int]) =~= ext);
        }
        i = i + 1;
    }
    proof {
        assert(events@.subrange(0, events@.len() as int) =~= events@);
    }
    if st.any_attempted {
        Some(
            TaskSummary {
                all_revisions_compile: st.overall_ok,
                final_revision_compiles: st.last_ok,
                successful_revision_count: st.successful,
                recorded_standard: st.standard,
            },
        )
    } else {
        None
    }
}

/// The index of the first candidate standard whose diagnostic output was
/// empty — the first clean compile, which wins.
pub open spec fn first_clean_spec(outputs: Seq<Seq<char>>) -> Option<int>
    decreases outputs.len(),
{
    if outputs.len() == 0 {
        None
    } else if outputs[0].len() == 0 {
        Some(0int)
    } else {
        match first_clean_spec(outputs.subrange(1, outputs.len() as int)) {
            Some(i) => Some(i + 1),
            None => None,
        }
    }
}

/// Whether an executable index matches the specified first clean index.
pub open spec fn first_clean_matches(outputs: Seq<Seq<char>>, fc: Option<usize>) -> bool {
    match fc {
        Some(i) => first_clean_spec(outputs) == Some(i as int),
        None => first_clean_spec(outputs) is None,
    }
}

proof fn lemma_first_clean_skip(outputs: Seq<Seq<char>>, j: int)
    requires
        0 <= j <= outputs.len(),
        forall|i: int| 0 <= i < j ==> outputs[i].len() != 0,
    ensures
        first_clean_spec(outputs) == match first_clean_spec(
            outputs.subrange(j, outputs.len() as int),
        ) {
            Some(i) => Some(i + j),
            None => None::<int>,
        },
    decreases j,
{
    if j == 0 {
        assert(outputs.subrange(0, outputs.len() as int) =~= outputs);
    } else {
        let tail = outputs.subrange(1, outputs.len() as int);
        lemma_first_clean_skip(tail, j - 1);
        assert(tail.subrange(j - 1, tail.len() as int)
            =~= outputs.subrange(j, outputs.len() as int));
    }
}

/// Whether a compile attempt came back clean: no warnings, no errors, no
/// output at all.
pub fn diagnostics_clean(output: &str) -> (r: bool)
    ensures
        r == (output@.len() == 0),
{
    output.is_empty()
}

/// The first candidate standard, in preference order, under which the
/// revision compiled cleanly: the first empty diagnostic text.
pub fn judge_compile(outputs: &Vec<String>) -> (r: Option<usize>)
    ensures
        first_clean_matches(outputs.deep_view(), r),
{
    let ghost dv = outputs.deep_view();
    let mut i: usize = 0;
    while i < outputs.len()
        invariant
            i <= outputs.len(),
            dv == outputs.deep_view(),
            dv.len() == outputs.len(),
            forall|k: int| 0 <= k < i ==> dv[k].len() != 0,
        decreases outputs.len() - i,
    {
        if outputs[i].as_str().is_empty() {
            proof {
                lemma_first_clean_skip(dv, i as int);
                assert(dv.subrange(i as int, dv.len() as int)[0] == dv[i as int]);
            }
            return Some(i);
        }
        i = i + 1;
    }
    proof {
        lemma_first_clean_skip(dv, dv.len() as int);
        assert(dv.subrange(dv.len() as int, dv.len() as int) =~= Seq::<Seq<char>>::empty());
    }
    None
}

/// One revision's outcome from what the gateways reported: a failed checkout
/// skips the revision; otherwise the collected per-standard diagnostics are
/// judged by the first clean compile.
pub fn make_event(checkout_ok: bool, outputs: &Vec<String>) -> (ev: RevisionEvent)
    ensures
        !checkout_ok ==> ev == RevisionEvent::CheckoutFailed,
        checkout_ok ==> is_attempt(ev) && first_clean_matches(
            outputs.deep_view(),
            event_standard(ev),
        ),
{
    if !checkout_ok {
        return RevisionEvent::CheckoutFailed;
    }
    let first_clean = judge_compile(outputs);
    RevisionEvent::Attempted { first_clean }
}

/// The candidate language standards, in the order they are tried.
pub fn candidate_standards() -> (r: Vec<&'static str>)
    ensures
        r@.len() == 5,
        r@[0]@ == "c99"@,
        r@[1]@ == "c90"@,
        r@[2]@ == "c89"@,
        r@[3]@ == "c11"@,
        r@[4]@ == "c17"@,
{
    let mut v: Vec<&'static str> = Vec::new();
    v.push("c99");
    v.push("c90");
    v.push("c89");
    v.push("c11");
    v.push("c17");
    v
}

/// The revisions in the order they are visited: history listings come newest
/// first, verification walks them oldest first.
pub fn oldest_first(revisions: &Vec<String>) -> (r: Vec<String>)
    ensures
        r.deep_view() == revisions.deep_view().reverse(),
{
    let ghost dv = revisions.deep_view();
    let mut out: Vec<String> = Vec::new();
    let mut i: usize = revisions.len();
    while i > 0
        invariant
            i <= revisions.len(),
            dv == revisions.deep_view(),
            dv.len() == revisions.len(),
            out.deep_view().len() == revisions.len() - i,
            forall|k: int| 0 <= k < out.deep_view().len() ==> out.deep_view()[k] == dv[
                dv.len() - 1 - k
            ],
        decreases i,
    {
        i = i - 1;
        let ghost pre = out.deep_view();
        out.push(revisions[i].clone());
        proof {
            assert(out.deep_view() =~= pre.push(dv[i as int]));
        }
    }
    proof {
        assert(out.deep_view() =~= dv.reverse());
    }
    out
}

/// Verify one task: nothing is concluded when the task has no revisions or
/// no entry file — the unknown state is preserved — and otherwise the
/// outcomes of the oldest-first revision walk are folded into the summary.
pub fn verify_task(
    entry_file: &Option<String>,
    revisions: &Vec<String>,
    events: &Vec<RevisionEvent>,
) -> (r: Option<TaskSummary>)
    requires
        entry_file is Some && revisions@.len() > 0 ==> events@.len() == revisions@.len(),
    ensures
        entry_file is None || revisions@.len() == 0 ==> r is None,
        entry_file is Some && revisions@.len() > 0 ==> (r is Some <==> any_attempted(events@)),
        entry_file is Some && revisions@.len() > 0 ==> (r matches Some(s)
            ==> s.all_revisions_compile == all_attempts_clean(events@)
            && s.final_revision_compiles == last_attempt_clean(events@)
            && s.successful_revision_count == count_clean(events@)
            && s.recorded_standard == recorded_standard(events@)),
{
    if entry_file.is_none() || revisions.len() == 0 {
        return None;
    }
    run_verification(events)
}

} // verus!
