use service_lifecycle::controller::{
    is_stop_request, reply_for, ControlEvent, Controller, Event, HandlerResult, Phase,
    ServiceState, StatusReport, TaskOutcome, RESERVED_STOP_CODE,
};
use service_lifecycle::trace::run_events;
use service_lifecycle::StopSignal;

fn running() -> StatusReport {
    StatusReport { state: ServiceState::Running, accepts_stop: true, exit_code: 0 }
}

fn stopped(code: u32) -> StatusReport {
    StatusReport { state: ServiceState::Stopped, accepts_stop: false, exit_code: code }
}

fn started() -> Controller {
    let mut c = Controller::new();
    let reports = run_events(&mut c, &vec![Event::Registered(true), Event::Bound(true)]);
    assert_eq!(reports, vec![running()]);
    assert_eq!(c.phase(), Phase::Running);
    c
}

fn count_stopped(reports: &[StatusReport]) -> usize {
    reports.iter().filter(|r| r.state == ServiceState::Stopped).count()
}

#[test]
fn stop_signal_fires_once() {
    let mut s = StopSignal::new();
    assert!(!s.is_fired());
    assert!(s.fire());
    assert!(s.is_fired());
    assert!(!s.fire());
    assert!(s.is_fired());
}

#[test]
fn handler_replies() {
    assert_eq!(reply_for(ControlEvent::Interrogate), HandlerResult::NoError);
    assert_eq!(reply_for(ControlEvent::Stop), HandlerResult::NoError);
    assert_eq!(reply_for(ControlEvent::UserEvent(RESERVED_STOP_CODE)), HandlerResult::NoError);
    assert_eq!(reply_for(ControlEvent::UserEvent(131)), HandlerResult::NotImplemented);
    assert_eq!(reply_for(ControlEvent::Unrecognized), HandlerResult::NotImplemented);
    assert!(is_stop_request(ControlEvent::Stop));
    assert!(is_stop_request(ControlEvent::UserEvent(130)));
    assert!(!is_stop_request(ControlEvent::UserEvent(129)));
    assert!(!is_stop_request(ControlEvent::Interrogate));
}

#[test]
fn running_then_stop_reports_stopped_clean() {
    let mut c = started();
    let r = c.step(Event::Control(ControlEvent::Stop));
    assert_eq!(r.reply, Some(HandlerResult::NoError));
    assert_eq!(r.reports, vec![stopped(0)]);
    assert_eq!(r.reports[0].accepts_stop, false);
    assert_eq!(r.exit, Some(0));
    assert_eq!(c.phase(), Phase::Stopped);
    assert!(c.is_finished());
    // the task finishing after the stop changes nothing
    let late = c.step(Event::TaskFinished(TaskOutcome::Completed));
    assert!(late.reports.is_empty());
    assert_eq!(late.exit, None);
}

#[test]
fn single_stop_among_other_events_stops_once() {
    let mut c = started();
    let evs = vec![
        Event::Control(ControlEvent::Interrogate),
        Event::Control(ControlEvent::Stop),
        Event::Control(ControlEvent::Interrogate),
        Event::TaskFinished(TaskOutcome::Completed),
    ];
    let reports = run_events(&mut c, &evs);
    assert_eq!(reports, vec![stopped(0)]);
    assert_eq!(c.phase(), Phase::Stopped);
}

#[test]
fn reserved_code_stops_like_stop() {
    let mut c = started();
    let r = c.step(Event::Control(ControlEvent::UserEvent(130)));
    assert_eq!(r.reply, Some(HandlerResult::NoError));
    assert_eq!(r.reports, vec![stopped(0)]);
    assert_eq!(r.exit, Some(0));
}

#[test]
fn duplicate_stops_report_stopped_once() {
    let mut c = started();
    let evs = vec![
        Event::Control(ControlEvent::Stop),
        Event::Control(ControlEvent::Stop),
        Event::Control(ControlEvent::UserEvent(130)),
        Event::Control(ControlEvent::Stop),
    ];
    let reports = run_events(&mut c, &evs);
    assert_eq!(count_stopped(&reports), 1);
    assert_eq!(reports, vec![stopped(0)]);
    assert_eq!(c.phase(), Phase::Stopped);
}

#[test]
fn interrogate_never_transitions() {
    for c0 in [Controller::new(), started()] {
        let mut c = c0;
        for _ in 0..5 {
            let r = c.step(Event::Control(ControlEvent::Interrogate));
            assert_eq!(r.reply, Some(HandlerResult::NoError));
            assert!(r.reports.is_empty());
            assert_eq!(r.exit, None);
            assert_eq!(c, c0);
        }
    }
}

#[test]
fn unrecognized_controls_are_declined() {
    let mut c = started();
    let before = c;
    for ce in [ControlEvent::Unrecognized, ControlEvent::UserEvent(128), ControlEvent::UserEvent(255)] {
        let r = c.step(Event::Control(ce));
        assert_eq!(r.reply, Some(HandlerResult::NotImplemented));
        assert!(r.reports.is_empty());
        assert_eq!(r.exit, None);
        assert_eq!(c, before);
    }
}

#[test]
fn self_completion_stops_with_exit_zero() {
    let mut c = started();
    let r = c.step(Event::TaskFinished(TaskOutcome::Completed));
    assert_eq!(r.reports, vec![stopped(0)]);
    assert_eq!(r.exit, Some(0));
    assert_eq!(c.phase(), Phase::Stopped);
}

#[test]
fn task_failure_reports_failure_code() {
    let mut c = started();
    let r = c.step(Event::TaskFinished(TaskOutcome::Failed));
    assert_eq!(r.reports, vec![stopped(1)]);
    assert_eq!(r.exit, Some(0));
}

#[test]
fn bind_failure_never_reports_running() {
    let mut c = Controller::new();
    let evs = vec![
        Event::Registered(true),
        Event::Bound(false),
        Event::Bound(true),
        Event::Control(ControlEvent::Stop),
        Event::TaskFinished(TaskOutcome::Completed),
    ];
    let reports = run_events(&mut c, &evs);
    assert!(reports.iter().all(|r| r.state != ServiceState::Running));
    assert_eq!(reports, vec![stopped(1)]);
    let mut d = Controller::new();
    d.step(Event::Registered(true));
    let r = d.step(Event::Bound(false));
    assert_eq!(r.exit, Some(1));
}

#[test]
fn registration_failure_aborts_without_reports() {
    let mut c = Controller::new();
    let r = c.step(Event::Registered(false));
    assert!(r.reports.is_empty());
    assert_eq!(r.exit, Some(1));
    assert_eq!(c.phase(), Phase::Aborted);
    let reports = run_events(&mut c, &vec![Event::Bound(true), Event::Control(ControlEvent::Stop)]);
    assert!(reports.is_empty());
}

#[test]
fn stop_while_starting_ends_right_after_running() {
    let mut c = Controller::new();
    c.step(Event::Registered(true));
    let r = c.step(Event::Control(ControlEvent::Stop));
    assert_eq!(r.reply, Some(HandlerResult::NoError));
    assert!(r.reports.is_empty());
    assert_eq!(c.phase(), Phase::Starting);
    let r = c.step(Event::Bound(true));
    assert_eq!(r.reports, vec![running(), stopped(0)]);
    assert_eq!(r.exit, Some(0));
}

#[test]
fn phases_only_move_forward() {
    let mut c = Controller::new();
    let order = [Phase::Init, Phase::Starting, Phase::Running, Phase::Stopped];
    let evs = [
        Event::Registered(true),
        Event::Registered(true),
        Event::Bound(true),
        Event::Registered(true),
        Event::TaskFinished(TaskOutcome::Completed),
        Event::Bound(true),
    ];
    let mut rank = 0;
    for e in evs {
        c.step(e);
        let now = order.iter().position(|p| *p == c.phase()).unwrap();
        assert!(now >= rank);
        rank = now;
    }
    assert_eq!(c.phase(), Phase::Stopped);
}
