use weixin_ilink_sdk::receive::{
    NextStep, StreamAction, UpdateEvent, UpdatesCursor, UpdatesStreamOptions, BACKOFF_DELAY_MS,
    RETRY_DELAY_MS, SESSION_PAUSE_MS,
};
use weixin_ilink_sdk::types::{GetUpdatesResponse, Message};

fn m(seq: u64) -> Message {
    Message { seq: Some(seq), ..Default::default() }
}

fn resp(buf: Option<&str>, msgs: Option<Vec<Message>>) -> GetUpdatesResponse {
    GetUpdatesResponse {
        ret: Some(0),
        errcode: None,
        errmsg: None,
        msgs,
        get_updates_buf: buf.map(|b| b.to_string()),
        longpolling_timeout_ms: None,
    }
}

#[test]
fn messages_come_out_in_order() {
    let mut c = UpdatesCursor::new(UpdatesStreamOptions::default());
    let step = c.on_response(resp(None, Some(vec![m(1), m(2), m(3)])));
    assert_eq!(step.next, StreamAction::Poll);
    match step.event {
        Some(UpdateEvent::Message(x)) => assert_eq!(x.seq, Some(1)),
        other => panic!("{:?}", other),
    }
    assert_eq!(c.next_pending().unwrap().seq, Some(2));
    assert_eq!(c.next_pending().unwrap().seq, Some(3));
    assert!(c.next_pending().is_none());
}

#[test]
fn buf_update_comes_first() {
    let mut c = UpdatesCursor::new(UpdatesStreamOptions { initial_buf: "a".into(), poll_timeout_ms: None });
    let step = c.on_response(resp(Some("b"), Some(vec![m(7)])));
    match step.event {
        Some(UpdateEvent::BufUpdated(b)) => assert_eq!(b, "b"),
        other => panic!("{:?}", other),
    }
    assert_eq!(c.current_buf(), "b");
    assert_eq!(c.next_pending().unwrap().seq, Some(7));
    // Same or empty cursor: no update.
    let step = c.on_response(resp(Some("b"), None));
    assert!(step.event.is_none());
    let step = c.on_response(resp(Some(""), None));
    assert!(step.event.is_none());
    assert_eq!(c.current_buf(), "b");
}

#[test]
fn server_poll_timeout_is_taken() {
    let mut c = UpdatesCursor::new(UpdatesStreamOptions { initial_buf: String::new(), poll_timeout_ms: Some(5) });
    let mut r = resp(None, None);
    r.longpolling_timeout_ms = Some(0);
    c.on_response(r);
    assert_eq!(c.poll_timeout_ms(), Some(5));
    let mut r = resp(None, None);
    r.longpolling_timeout_ms = Some(40000);
    c.on_response(r);
    assert_eq!(c.poll_timeout_ms(), Some(40000));
}

#[test]
fn backoff_after_three_failures() {
    let mut c = UpdatesCursor::new(UpdatesStreamOptions::default());
    assert_eq!(c.on_error(), RETRY_DELAY_MS);
    assert_eq!(c.on_error(), RETRY_DELAY_MS);
    assert_eq!(c.on_error(), BACKOFF_DELAY_MS);
    assert_eq!(c.consecutive_failures(), 0);
    assert_eq!(c.on_error(), RETRY_DELAY_MS);
    // An API error counts as a failure too; a good answer resets the count.
    let mut bad = resp(None, None);
    bad.ret = Some(-1);
    let step = c.on_response(bad);
    assert!(step.event.is_none());
    assert_eq!(step.next, StreamAction::Sleep(RETRY_DELAY_MS));
    assert_eq!(c.consecutive_failures(), 2);
    c.on_response(resp(None, None));
    assert_eq!(c.consecutive_failures(), 0);
}

#[test]
fn session_expiry_pauses() {
    let mut c = UpdatesCursor::new(UpdatesStreamOptions::default());
    let mut r = resp(Some("x"), Some(vec![m(1)]));
    r.errcode = Some(-14);
    let step = c.on_response(r);
    assert!(matches!(step.event, Some(UpdateEvent::SessionExpired)));
    assert_eq!(step.next, StreamAction::Sleep(SESSION_PAUSE_MS));
    assert_eq!(c.current_buf(), "");
    assert!(c.next_pending().is_none());
}

#[test]
fn driver_hands_out_queue_before_polling_again() {
    let mut c = UpdatesCursor::new(UpdatesStreamOptions { initial_buf: "a".into(), poll_timeout_ms: Some(9) });
    match c.next_step() {
        NextStep::Poll { buf, timeout_ms } => {
            assert_eq!(buf, "a");
            assert_eq!(timeout_ms, Some(9));
        }
        other => panic!("{:?}", other),
    }
    let mut r = resp(Some("b"), Some(vec![m(1), m(2), m(3)]));
    r.longpolling_timeout_ms = Some(40);
    let step = c.on_response(r);
    assert!(matches!(step.event, Some(UpdateEvent::BufUpdated(ref b)) if b == "b"));
    for seq in 1..=3u64 {
        match c.next_step() {
            NextStep::Deliver(x) => assert_eq!(x.seq, Some(seq)),
            other => panic!("{:?}", other),
        }
    }
    match c.next_step() {
        NextStep::Poll { buf, timeout_ms } => {
            assert_eq!(buf, "b");
            assert_eq!(timeout_ms, Some(40));
        }
        other => panic!("{:?}", other),
    }
}

#[test]
fn failures_count_in_rounds_of_three() {
    let mut c = UpdatesCursor::new(UpdatesStreamOptions::default());
    let delays: Vec<u64> = (0..7).map(|_| c.on_error()).collect();
    assert_eq!(
        delays,
        vec![RETRY_DELAY_MS, RETRY_DELAY_MS, BACKOFF_DELAY_MS, RETRY_DELAY_MS, RETRY_DELAY_MS, BACKOFF_DELAY_MS, RETRY_DELAY_MS]
    );
    assert_eq!(c.consecutive_failures(), 1);
    c.on_response(resp(None, None));
    assert_eq!(c.consecutive_failures(), 0);
}
