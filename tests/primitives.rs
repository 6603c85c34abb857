use event_loop_demo::{ChannelClosed, CooperativeTimer, NotificationChannel, TimerState};

#[test]
fn channel_delivers_false_then_true_in_order() {
    let mut c = NotificationChannel::new();
    assert_eq!(c.send(false), Ok(()));
    assert_eq!(c.send(true), Ok(()));
    assert_eq!(c.len(), 2);
    assert_eq!(c.recv(), Some(false));
    assert_eq!(c.recv(), Some(true));
    assert_eq!(c.recv(), None);
}

#[test]
fn channel_keeps_long_sequence_in_order() {
    let mut c = NotificationChannel::new();
    let sent = vec![true, true, false, true, false, false, true];
    for v in &sent {
        assert_eq!(c.send(*v), Ok(()));
    }
    let mut got = Vec::new();
    while let Some(v) = c.recv() {
        got.push(v);
    }
    assert_eq!(got, sent);
}

#[test]
fn closed_channel_refuses_sends_and_drops_pending() {
    let mut c = NotificationChannel::new();
    assert_eq!(c.send(true), Ok(()));
    c.close();
    assert!(c.is_closed());
    assert_eq!(c.len(), 0);
    assert_eq!(c.send(false), Err(ChannelClosed));
    assert_eq!(c.recv(), None);
}

#[test]
fn timer_resumes_after_ten_seconds_once() {
    let mut t = CooperativeTimer::after(100, 10);
    assert_eq!(t.deadline(), 110);
    assert!(t.is_pending());
    assert!(!t.poll(100));
    assert!(!t.poll(109));
    assert!(t.poll(110));
    assert_eq!(t.state(), TimerState::Resumed);
    assert!(!t.poll(111));
    assert!(!t.poll(500));
}

#[test]
fn timer_zero_duration_resumes_at_once() {
    let mut t = CooperativeTimer::after(5, 0);
    assert!(t.poll(5));
    assert!(!t.poll(5));
}

#[test]
fn cancelled_timer_never_resumes() {
    let mut t = CooperativeTimer::after(0, 10);
    t.cancel();
    assert_eq!(t.state(), TimerState::Cancelled);
    assert!(!t.is_pending());
    assert!(!t.poll(10));
    assert!(!t.poll(1000));
    let mut done = CooperativeTimer::after(0, 1);
    assert!(done.poll(1));
    done.cancel();
    assert_eq!(done.state(), TimerState::Resumed);
}
