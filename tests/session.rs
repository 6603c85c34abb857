use event_loop_demo::{Activation, ChannelClosed, Session, Strategy, DEMO_WORK_SECONDS};

#[test]
fn gated_click_once_disables_then_reenables() {
    let mut s = Session::new(Strategy::GatedOffload, DEMO_WORK_SECONDS);
    assert!(s.is_enabled());
    assert_eq!(s.activate(), Activation::SpawnReportingWorker);
    assert!(!s.is_enabled());
    assert_eq!(s.in_flight(), 1);
    assert_eq!(s.worker_finished(), Ok(()));
    assert!(!s.is_enabled());
    assert_eq!(s.pending_reports(), 1);
    assert_eq!(s.deliver(), Some(true));
    assert!(s.is_enabled());
    assert_eq!(s.in_flight(), 0);
    assert_eq!(s.pending_reports(), 0);
}

#[test]
fn gated_double_click_runs_one_unit() {
    let mut s = Session::new(Strategy::GatedOffload, DEMO_WORK_SECONDS);
    assert_eq!(s.activate(), Activation::SpawnReportingWorker);
    assert_eq!(s.activate(), Activation::Ignored);
    assert_eq!(s.in_flight(), 1);
    assert!(!s.is_enabled());
    assert_eq!(s.worker_finished(), Ok(()));
    assert_eq!(s.deliver(), Some(true));
    assert_eq!(s.deliver(), None);
    assert!(s.is_enabled());
}

#[test]
fn gated_many_clicks_keep_one_worker() {
    let mut s = Session::new(Strategy::GatedOffload, DEMO_WORK_SECONDS);
    for round in 0..5u64 {
        assert_eq!(s.activate(), Activation::SpawnReportingWorker);
        for _ in 0..3 {
            assert_eq!(s.activate(), Activation::Ignored);
            assert!(s.in_flight() <= 1);
        }
        s.advance(round * 20 + 10);
        assert_eq!(s.worker_finished(), Ok(()));
        assert_eq!(s.activate(), Activation::Ignored);
        assert_eq!(s.in_flight(), 0);
        assert_eq!(s.deliver(), Some(true));
        assert!(s.is_enabled());
    }
}

#[test]
fn destroy_while_worker_in_flight_swallows_report() {
    let mut s = Session::new(Strategy::GatedOffload, DEMO_WORK_SECONDS);
    assert_eq!(s.activate(), Activation::SpawnReportingWorker);
    s.destroy();
    assert!(!s.is_alive());
    assert_eq!(s.worker_finished(), Err(ChannelClosed));
    assert_eq!(s.in_flight(), 0);
    assert_eq!(s.pending_reports(), 0);
    assert_eq!(s.deliver(), None);
    assert!(!s.is_enabled());
    assert_eq!(s.activate(), Activation::Ignored);
}

#[test]
fn destroy_with_undelivered_report_drops_it() {
    let mut s = Session::new(Strategy::GatedOffload, DEMO_WORK_SECONDS);
    s.activate();
    assert_eq!(s.worker_finished(), Ok(()));
    s.destroy();
    assert_eq!(s.pending_reports(), 0);
    assert_eq!(s.deliver(), None);
    assert!(!s.is_enabled());
}

#[test]
fn cooperative_disabled_until_timer_resumes() {
    let mut s = Session::new(Strategy::CooperativeSuspend, DEMO_WORK_SECONDS);
    assert!(!s.advance(3));
    assert_eq!(s.now(), 3);
    assert_eq!(s.activate(), Activation::Suspend);
    assert!(!s.is_enabled());
    assert_eq!(s.pending_deadline(), Some(13));
    assert_eq!(s.activate(), Activation::Ignored);
    assert!(!s.advance(12));
    assert!(!s.is_enabled());
    assert!(s.advance(13));
    assert!(s.is_enabled());
    assert_eq!(s.pending_deadline(), None);
    assert!(!s.advance(40));
    assert_eq!(s.in_flight(), 0);
}

#[test]
fn cooperative_clock_never_goes_back() {
    let mut s = Session::new(Strategy::CooperativeSuspend, 10);
    s.advance(50);
    s.advance(20);
    assert_eq!(s.now(), 50);
    assert_eq!(s.activate(), Activation::Suspend);
    assert_eq!(s.pending_deadline(), Some(60));
    assert!(!s.advance(59));
    assert!(s.advance(70));
}

#[test]
fn cooperative_destroy_cancels_timer() {
    let mut s = Session::new(Strategy::CooperativeSuspend, DEMO_WORK_SECONDS);
    assert_eq!(s.activate(), Activation::Suspend);
    s.destroy();
    assert_eq!(s.pending_deadline(), None);
    assert!(!s.advance(100));
    assert!(!s.is_enabled());
}

#[test]
fn blocking_runs_inline_and_stays_enabled() {
    let mut s = Session::new(Strategy::Blocking, DEMO_WORK_SECONDS);
    assert_eq!(s.activate(), Activation::RunInline);
    assert!(s.is_enabled());
    assert_eq!(s.in_flight(), 0);
    assert_eq!(s.activate(), Activation::RunInline);
}

#[test]
fn bare_offload_spawns_without_limit() {
    let mut s = Session::new(Strategy::BareOffload, DEMO_WORK_SECONDS);
    for _ in 0..4 {
        assert_eq!(s.activate(), Activation::SpawnWorker);
    }
    assert!(s.is_enabled());
    assert_eq!(s.in_flight(), 4);
    assert_eq!(s.worker_finished(), Ok(()));
    assert_eq!(s.in_flight(), 3);
    assert_eq!(s.pending_reports(), 0);
    assert_eq!(s.deliver(), None);
}

#[test]
fn new_session_reports_its_settings() {
    let s = Session::new(Strategy::GatedOffload, 7);
    assert_eq!(s.strategy(), Strategy::GatedOffload);
    assert_eq!(s.work_seconds(), 7);
    assert_eq!(s.now(), 0);
    assert!(s.is_alive());
    assert_eq!(s.pending_deadline(), None);
    assert_eq!(DEMO_WORK_SECONDS, 10);
}
