use catdex::heartbeat::{
    Heartbeat, HeartbeatError, Opcode, Replacement, TimerAction, CLIENT_UNRESPONSIVE, PING,
    PING_INTERVAL_MS, UNRESPONSIVE_AFTER_MS,
};

fn is_schedule(a: &TimerAction<u32>, delay: u64, token: usize) -> bool {
    matches!(a, TimerAction::Schedule { delay_ms, token: t } if *delay_ms == delay && *t == token)
}

fn armed(ping: Option<u32>, watchdog: Option<u32>) -> Heartbeat<u32> {
    let mut h = Heartbeat::new();
    h.ping_timeout = ping;
    h.client_unresponsive_timeout = watchdog;
    h
}

#[test]
fn open_arms_deadline_then_ping() {
    let h: Heartbeat<u32> = Heartbeat::new();
    let acts = h.on_open();
    assert_eq!(acts.len(), 2);
    assert!(is_schedule(&acts[0], 15_000, 1));
    assert!(is_schedule(&acts[1], 5_000, 0));
    assert_eq!(PING_INTERVAL_MS, 5_000);
    assert_eq!(UNRESPONSIVE_AFTER_MS, 15_000);
    assert_eq!(PING, 0);
    assert_eq!(CLIENT_UNRESPONSIVE, 1);
}

#[test]
fn ping_timer_pings_and_rearms_while_watched() {
    let mut h = armed(Some(7), Some(9));
    let acts = h.on_timeout(PING).unwrap();
    assert_eq!(acts.len(), 2);
    assert!(matches!(acts[0], TimerAction::SendPing));
    assert!(is_schedule(&acts[1], 5_000, PING));
    assert_eq!(h.ping_timeout, Some(7));
    assert_eq!(h.client_unresponsive_timeout, Some(9));
}

#[test]
fn ping_timer_does_not_rearm_without_deadline() {
    let mut h = armed(None, None);
    let acts = h.on_timeout(PING).unwrap();
    assert_eq!(acts.len(), 1);
    assert!(matches!(acts[0], TimerAction::SendPing));
}

#[test]
fn unresponsive_client_cancels_ping_and_closes() {
    let mut h = armed(Some(7), Some(9));
    let acts = h.on_timeout(CLIENT_UNRESPONSIVE).unwrap();
    assert_eq!(acts.len(), 2);
    assert!(matches!(acts[0], TimerAction::Cancel(7)));
    assert!(matches!(acts[1], TimerAction::CloseAway));
    assert_eq!(h.ping_timeout, None);
    assert_eq!(h.client_unresponsive_timeout, None);
}

#[test]
fn unresponsive_client_without_ping_just_closes() {
    let mut h = armed(None, Some(9));
    let acts = h.on_timeout(CLIENT_UNRESPONSIVE).unwrap();
    assert_eq!(acts.len(), 1);
    assert!(matches!(acts[0], TimerAction::CloseAway));
    assert_eq!(h.client_unresponsive_timeout, None);
}

#[test]
fn unknown_timer_token_is_refused() {
    let mut h = armed(Some(7), Some(9));
    let r = h.on_timeout(5);
    assert!(matches!(r, Err(HeartbeatError::InvalidToken)));
    assert_eq!(HeartbeatError::InvalidToken.message(), "Invalid timeout token encountered!");
    assert_eq!(h.ping_timeout, Some(7));
    assert_eq!(h.client_unresponsive_timeout, Some(9));
}

#[test]
fn new_ping_timer_replaces_old_one() {
    let mut h = armed(Some(7), Some(9));
    let r = h.on_new_timeout(PING);
    assert!(matches!(r, Replacement::Replace(Some(7))));
    assert_eq!(h.ping_timeout, None);
    h.keep_new_timeout(PING, 11);
    assert_eq!(h.ping_timeout, Some(11));
    assert_eq!(h.client_unresponsive_timeout, Some(9));
}

#[test]
fn new_ping_timer_dropped_without_deadline() {
    let mut h = armed(None, None);
    let r = h.on_new_timeout(PING);
    assert!(matches!(r, Replacement::Replace(None)));
    h.keep_new_timeout(PING, 11);
    assert_eq!(h.ping_timeout, None);
}

#[test]
fn new_deadline_replaces_old_one() {
    let mut h = armed(None, Some(9));
    let r = h.on_new_timeout(CLIENT_UNRESPONSIVE);
    assert!(matches!(r, Replacement::Replace(Some(9))));
    assert_eq!(h.client_unresponsive_timeout, None);
    h.keep_new_timeout(CLIENT_UNRESPONSIVE, 12);
    assert_eq!(h.client_unresponsive_timeout, Some(12));
}

#[test]
fn new_timer_with_unknown_token_changes_nothing() {
    let mut h = armed(Some(7), Some(9));
    let r = h.on_new_timeout(3);
    assert!(matches!(r, Replacement::UnknownToken));
    h.keep_new_timeout(3, 13);
    assert_eq!(h.ping_timeout, Some(7));
    assert_eq!(h.client_unresponsive_timeout, Some(9));
}

#[test]
fn pong_rearms_deadline_other_frames_do_not() {
    let h: Heartbeat<u32> = Heartbeat::new();
    let acts = h.on_frame(Opcode::Pong);
    assert_eq!(acts.len(), 1);
    assert!(is_schedule(&acts[0], 15_000, CLIENT_UNRESPONSIVE));
    for op in [Opcode::Continue, Opcode::Text, Opcode::Binary, Opcode::Close, Opcode::Ping, Opcode::Bad] {
        assert!(h.on_frame(op).is_empty());
    }
}

#[test]
fn close_hands_out_ping_timer() {
    let mut h = armed(Some(7), Some(9));
    assert_eq!(h.on_close(), Some(7));
    assert_eq!(h.ping_timeout, None);
    assert_eq!(h.client_unresponsive_timeout, Some(9));
    assert_eq!(h.on_close(), None);
}

#[test]
fn pings_stop_after_give_up() {
    let mut h = armed(Some(7), Some(9));
    h.on_timeout(CLIENT_UNRESPONSIVE).unwrap();
    let acts = h.on_timeout(PING).unwrap();
    assert_eq!(acts.len(), 1);
    let _ = h.on_new_timeout(PING);
    h.keep_new_timeout(PING, 20);
    assert_eq!(h.ping_timeout, None);
}
