use crate::controller::{
    is_stop_control, is_terminal, running_report, step_spec, stopped_report,
    ControlEvent, Controller, Event, HandlerResult, Phase, ServiceState, StatusReport,
    TaskOutcome, EXIT_CLEAN, PROCESS_EXIT_OK, PROCESS_EXIT_STARTUP_FAILURE,
};
use crate::signal::StopSignal;
use vstd::prelude::*;

verus! {

/// The controller after a sequence of events, and every report sent on
/// the way, in order.
pub open spec fn run_spec(c: Controller, evs: Seq<Event>) -> (Controller, Seq<StatusReport>)
    decreases evs.len(),
{
    if evs.len() == 0 {
        (c, seq![])
    } else {
        let (mid, before) = run_spec(c, evs.drop_last());
        let s = step_spec(mid, evs.last());
        (s.0, before + s.2)
    }
}

/// How many of the reports say Stopped.
pub open spec fn count_stopped(rs: Seq<StatusReport>) -> nat
    decreases rs.len(),
{
    if rs.len() == 0 {
        0
    } else {
        count_stopped(rs.drop_last()) + if rs.last().state == ServiceState::Stopped {
            1nat
        } else {
            0nat
        }
    }
}

/// How many of the reports say Running.
pub open spec fn count_running(rs: Seq<StatusReport>) -> nat
    decreases rs.len(),
{
    if rs.len() == 0 {
        0
    } else {
        count_running(rs.drop_last()) + if rs.last().state == ServiceState::Running {
            1nat
        } else {
            0nat
        }
    }
}

/// Whether some event of the sequence is a stop request from the platform.
pub open spec fn has_stop_request(evs: Seq<Event>) -> bool {
    exists|i: int|
        0 <= i < evs.len() && (match #[trigger] evs[i] {
            Event::Control(ce) => is_stop_control(ce),
            _ => false,
        })
}

/// The controller is consistent: while it races, its stop signal has not
/// fired yet.
pub open spec fn well_formed(c: Controller) -> bool {
    c.phase == Phase::Running ==> !c.signal.fired
}

/// The order in which phases follow one another.
pub open spec fn phase_rank(p: Phase) -> nat {
    match p {
        Phase::Init => 0,
        Phase::Starting => 1,
        Phase::Running => 2,
        Phase::Stopped => 3,
        Phase::Aborted => 3,
    }
}

/// Feeds the events to the controller in order and returns every report sent.
pub fn run_events(c: &mut Controller, evs: &Vec<Event>) -> (reports: Vec<StatusReport>)
    ensures
        (*final(c), reports@) == run_spec(*old(c), evs@),
{
    let ghost c0 = *c;
    let mut reports: Vec<StatusReport> = Vec::new();
    let mut i: usize = 0;
    while i < evs.len()
        invariant
            i <= evs.len(),
            (*c, reports@) == run_spec(c0, evs@.subrange(0, i as int)),
        decreases evs.len() - i,
    {
        proof {
            let pre = evs@.subrange(0, i as int + 1);
            assert(pre.drop_last() =~= evs@.subrange(0, i as int));
        }
        let mut r = c.step(evs[i]);
        reports.append(&mut r.reports);
        i = i + 1;
    }
    assert(evs@.subrange(0, evs@.len() as int) =~= evs@);
    reports
}

proof fn lemma_count_concat(a: Seq<StatusReport>, b: Seq<StatusReport>)
    ensures
        count_stopped(a + b) == count_stopped(a) + count_stopped(b),
        count_running(a + b) == count_running(a) + count_running(b),
    decreases b.len(),
{
    if b.len() == 0 {
        assert(a + b =~= a);
    } else {
        lemma_count_concat(a, b.drop_last());
        assert((a + b).drop_last() =~= a + b.drop_last());
    }
}

proof fn lemma_count_small(x: StatusReport, y: StatusReport)
    ensures
        count_stopped(seq![]) == 0,
        count_running(seq![]) == 0,
        count_stopped(seq![x]) == (if x.state == ServiceState::Stopped { 1nat } else { 0nat }),
        count_running(seq![x]) == (if x.state == ServiceState::Running { 1nat } else { 0nat }),
        count_stopped(seq![x, y]) == count_stopped(seq![x]) + count_stopped(seq![y]),
        count_running(seq![x, y]) == count_running(seq![x]) + count_running(seq![y]),
{
    let e = Seq::<StatusReport>::empty();
    assert(seq![x].drop_last() =~= e);
    assert(seq![y].drop_last() =~= e);
    assert(seq![x, y].drop_last() =~= seq![x]);
    assert(seq![x].last() == x);
    assert(seq![y].last() == y);
    assert(seq![x, y].last() == y);
    assert(count_stopped(e) == 0);
    assert(count_running(e) == 0);
}

proof fn lemma_step_counts(c: Controller, e: Event)
    ensures
        is_terminal(c.phase) ==> step_spec(c, e).0 == c && step_spec(c, e).2 == Seq::<
            StatusReport,
        >::empty(),
        count_stopped(step_spec(c, e).2) == (if !is_terminal(c.phase) && step_spec(c, e).0.phase
            == Phase::Stopped {
            1nat
        } else {
            0nat
        }),
        phase_rank(step_spec(c, e).0.phase) >= phase_rank(c.phase),
        well_formed(c) ==> well_formed(step_spec(c, e).0),
{
    lemma_count_small(running_report(), stopped_report(EXIT_CLEAN));
    lemma_count_small(stopped_report(EXIT_CLEAN), stopped_report(EXIT_CLEAN));
    lemma_count_small(stopped_report(1), stopped_report(1));
}

/// Once Stopped was reported or startup was aborted, no event changes the
/// controller and none causes another report.
pub proof fn lemma_finished_is_final(c: Controller, evs: Seq<Event>)
    requires
        is_terminal(c.phase),
    ensures
        run_spec(c, evs) == (c, Seq::<StatusReport>::empty()),
    decreases evs.len(),
{
    if evs.len() > 0 {
        lemma_finished_is_final(c, evs.drop_last());
        lemma_step_counts(c, evs.last());
        assert(Seq::<StatusReport>::empty() + Seq::<StatusReport>::empty() =~= Seq::<
            StatusReport,
        >::empty());
    }
}

/// Over any sequence of events, Stopped is reported at most once: once if the
/// controller started out unfinished and ends Stopped, never otherwise.
pub proof fn lemma_stopped_reported_at_most_once(c: Controller, evs: Seq<Event>)
    ensures
        count_stopped(run_spec(c, evs).1) == (if !is_terminal(c.phase) && run_spec(c, evs).0.phase
            == Phase::Stopped {
            1nat
        } else {
            0nat
        }),
        count_stopped(run_spec(c, evs).1) <= 1,
    decreases evs.len(),
{
    if evs.len() > 0 {
        let prefix = evs.drop_last();
        lemma_stopped_reported_at_most_once(c, prefix);
        let (mid, before) = run_spec(c, prefix);
        lemma_step_counts(mid, evs.last());
        lemma_count_concat(before, step_spec(mid, evs.last()).2);
        if is_terminal(c.phase) {
            lemma_finished_is_final(c, prefix);
        }
    } else {
        lemma_count_small(stopped_report(EXIT_CLEAN), stopped_report(EXIT_CLEAN));
    }
}

/// The phase never goes back: a later phase is never followed by an earlier one.
pub proof fn lemma_phase_never_regresses(c: Controller, evs: Seq<Event>)
    ensures
        phase_rank(run_spec(c, evs).0.phase) >= phase_rank(c.phase),
        well_formed(c) ==> well_formed(run_spec(c, evs).0),
    decreases evs.len(),
{
    if evs.len() > 0 {
        lemma_phase_never_regresses(c, evs.drop_last());
        lemma_step_counts(run_spec(c, evs.drop_last()).0, evs.last());
    }
}

proof fn lemma_running_trace(c: Controller, evs: Seq<Event>)
    requires
        c.phase == Phase::Running,
        !c.signal.fired,
    ensures
        (run_spec(c, evs).0.phase == Phase::Stopped && count_stopped(run_spec(c, evs).1) == 1)
            || (run_spec(c, evs) == (c, Seq::<StatusReport>::empty()) && !has_stop_request(
            evs,
        )),
    decreases evs.len(),
{
    if evs.len() > 0 {
        let prefix = evs.drop_last();
        lemma_running_trace(c, prefix);
        let (mid, before) = run_spec(c, prefix);
        lemma_step_counts(mid, evs.last());
        lemma_count_concat(before, step_spec(mid, evs.last()).2);
        if mid.phase == Phase::Stopped {
        } else {
            assert(before + step_spec(mid, evs.last()).2 =~= step_spec(mid, evs.last()).2);
            if step_spec(mid, evs.last()).0.phase != Phase::Stopped {
                assert forall|i: int| 0 <= i < evs.len() implies !(match #[trigger] evs[i] {
                    Event::Control(ce) => is_stop_control(ce),
                    _ => false,
                }) by {
                    if i < evs.len() - 1 {
                        assert(evs[i] == prefix[i]);
                    }
                }
            }
        }
    } else {
        assert(!has_stop_request(evs));
    }
}

/// A running controller that receives a stop request (once, or several
/// times) reaches Stopped, and reports Stopped exactly once.
pub proof fn lemma_stop_request_stops_once(c: Controller, evs: Seq<Event>)
    requires
        c.phase == Phase::Running,
        well_formed(c),
        has_stop_request(evs),
    ensures
        run_spec(c, evs).0.phase == Phase::Stopped,
        count_stopped(run_spec(c, evs).1) == 1,
{
    lemma_running_trace(c, evs);
}

/// Status queries and declined controls, in any number, change nothing,
/// report nothing, and are each answered.
pub proof fn lemma_inert_controls(c: Controller, evs: Seq<Event>)
    requires
        forall|i: int|
            0 <= i < evs.len() ==> (match #[trigger] evs[i] {
                Event::Control(ce) => !is_stop_control(ce),
                _ => false,
            }),
    ensures
        run_spec(c, evs) == (c, Seq::<StatusReport>::empty()),
    decreases evs.len(),
{
    if evs.len() > 0 {
        let prefix = evs.drop_last();
        assert forall|i: int| 0 <= i < prefix.len() implies (match #[trigger] prefix[i] {
            Event::Control(ce) => !is_stop_control(ce),
            _ => false,
        }) by {
            assert(prefix[i] == evs[i]);
        }
        lemma_inert_controls(c, prefix);
        assert(evs[evs.len() - 1] == evs.last());
        assert(Seq::<StatusReport>::empty() + Seq::<StatusReport>::empty() =~= Seq::<
            StatusReport,
        >::empty());
    }
}

/// A status query is answered as handled and changes nothing.
pub proof fn lemma_interrogate_is_inert(c: Controller)
    ensures
        step_spec(c, Event::Control(ControlEvent::Interrogate)) == (c, Some(HandlerResult::NoError), Seq::<StatusReport>::empty(), None::<i32>),
{
}

/// A control that is neither a status query nor a stop request is declined
/// and changes nothing.
pub proof fn lemma_unrecognized_is_declined(c: Controller, ce: ControlEvent)
    requires
        ce != ControlEvent::Interrogate,
        !is_stop_control(ce),
    ensures
        step_spec(c, Event::Control(ce)) == (c, Some(HandlerResult::NotImplemented), Seq::<StatusReport>::empty(), None::<i32>),
{
}

/// A task that returns on its own while the controller runs takes it straight
/// from Running to Stopped, with exit code 0.
pub proof fn lemma_self_completion_stops_cleanly(c: Controller)
    requires
        c.phase == Phase::Running,
    ensures
        step_spec(c, Event::TaskFinished(TaskOutcome::Completed)) == (
            Controller { phase: Phase::Stopped, signal: c.signal },
            None::<HandlerResult>,
            seq![stopped_report(EXIT_CLEAN)],
            Some(PROCESS_EXIT_OK),
        ),
{
}

/// When the listener cannot be bound, Running is never reported, whatever
/// follows, and the process exits with a non-zero code.
pub proof fn lemma_bind_failure_never_runs(evs: Seq<Event>)
    requires
        evs.len() >= 2,
        evs[0] == Event::Registered(true),
        evs[1] == Event::Bound(false),
    ensures
        count_running(run_spec(Controller { phase: Phase::Init, signal: StopSignal { fired: false } }, evs).1) == 0,
        step_spec(Controller { phase: Phase::Starting, signal: StopSignal { fired: false } }, Event::Bound(false)).3 == Some(PROCESS_EXIT_STARTUP_FAILURE),
        PROCESS_EXIT_STARTUP_FAILURE != 0,
{
    let c0 = Controller { phase: Phase::Init, signal: StopSignal { fired: false } };
    let c1 = Controller { phase: Phase::Starting, signal: StopSignal { fired: false } };
    let c2 = Controller { phase: Phase::Stopped, signal: StopSignal { fired: false } };
    let first = evs.subrange(0, 2);
    let rest = evs.subrange(2, evs.len() as int);
    lemma_count_small(stopped_report(1), stopped_report(1));
    assert(first.drop_last() =~= seq![evs[0]]);
    assert(first.last() == evs[1]);
    let one = seq![evs[0]];
    assert(one.drop_last() =~= Seq::<Event>::empty());
    assert(one.last() == evs[0]);
    assert(run_spec(c0, Seq::<Event>::empty()) == (c0, Seq::<StatusReport>::empty()));
    assert(run_spec(c0, one) == (c1, Seq::<StatusReport>::empty() + Seq::<StatusReport>::empty()));
    assert(run_spec(c0, first).0 == c2);
    assert(count_running(run_spec(c0, first).1) == 0);
    lemma_run_concat(c0, first, rest);
    assert(first + rest =~= evs);
    lemma_finished_is_final(c2, rest);
    lemma_count_concat(run_spec(c0, first).1, Seq::<StatusReport>::empty());
}

/// Running a sequence in two pieces is running it whole.
pub proof fn lemma_run_concat(c: Controller, a: Seq<Event>, b: Seq<Event>)
    ensures
        run_spec(c, a + b) == (run_spec(run_spec(c, a).0, b).0, run_spec(c, a).1 + run_spec(run_spec(c, a).0, b).1),
    decreases b.len(),
{
    if b.len() == 0 {
        assert(a + b =~= a);
        assert(run_spec(c, a).1 + Seq::<StatusReport>::empty() =~= run_spec(c, a).1);
    } else {
        lemma_run_concat(c, a, b.drop_last());
        assert((a + b).drop_last() =~= a + b.drop_last());
        assert((a + b).last() == b.last());
        let m = run_spec(c, a).0;
        let s = step_spec(run_spec(m, b.drop_last()).0, b.last());
        assert(run_spec(c, a).1 + run_spec(m, b.drop_last()).1 + s.2 =~= run_spec(c, a).1 + (run_spec(m, b.drop_last()).1 + s.2));
    }
}

} // verus!
