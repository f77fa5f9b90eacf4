//! Session scenarios: heartbeat replies, authentication on open, the
//! unauthorized retry cycle, batched message dispatch and subscriptions.

use screeps_api::{
    Channel, Error, FnHandler, Handler, ParsedMessage, Sender, Session, Token, TokenStorage,
};

/// Records every notification the session forwards.
struct Recorder {
    messages: Vec<String>,
    errors: Vec<Error>,
    disconnects: usize,
    fail_from: Option<usize>,
    calls: usize,
}

impl Recorder {
    fn new() -> Recorder {
        Recorder { messages: Vec::new(), errors: Vec::new(), disconnects: 0, fail_from: None, calls: 0 }
    }

    fn failing_from(index: usize) -> Recorder {
        Recorder { fail_from: Some(index), ..Recorder::new() }
    }
}

impl Handler for Recorder {
    fn on_message(&mut self, msg: ParsedMessage) -> Result<(), Error> {
        let index = self.calls;
        self.calls += 1;
        if self.fail_from == Some(index) {
            return Err(Error::Transport { description: "handler gave up".to_string() });
        }
        self.messages.push(msg.into_string());
        Ok(())
    }

    fn on_error(&mut self, err: Error) {
        self.errors.push(err);
    }

    fn on_disconnect(&mut self) -> Result<(), Error> {
        self.disconnects += 1;
        Ok(())
    }
}

fn stored(token: &str) -> TokenStorage {
    let mut storage = TokenStorage::new();
    storage.set(Token::new(token.to_string()));
    storage
}

#[test]
fn heartbeat_sends_empty_frame() {
    let mut session = Session::new(TokenStorage::new(), Recorder::new());
    assert_eq!(session.handle_frame_text("h"), Ok(()));
    assert_eq!(session.take_frames(), vec!["[]".to_string()]);
    assert!(session.take_timers().is_empty());
}

#[test]
fn open_with_stored_token_authenticates() {
    let mut session = Session::new(stored("tok123"), Recorder::new());
    assert_eq!(session.handle_frame_text("o"), Ok(()));
    assert_eq!(session.take_frames(), vec![r#"["auth tok123"]"#.to_string()]);
    assert!(session.handler_ref().errors.is_empty());
    // The credential was taken: a second open cannot reuse it.
    assert_eq!(session.handle_frame_text("o"), Ok(()));
    assert!(session.take_frames().is_empty());
}

#[test]
fn open_without_token_schedules_login_retry() {
    let mut session = Session::new(TokenStorage::new(), Recorder::new());
    assert_eq!(session.handle_frame_text("o"), Ok(()));
    // Nothing is sent; Unauthorized reaches the handler and a retry is
    // armed for fifteen seconds.
    assert!(session.take_frames().is_empty());
    assert_eq!(session.handler_ref().errors, vec![Error::Unauthorized]);
    let timers = session.take_timers();
    assert_eq!(timers.len(), 1);
    assert_eq!(timers[0].delay_ms, 15_000);
    let handle = timers[0].handle;

    // The retry fires with a token now present: the session authenticates.
    session.store_token(Token::new("tok999".to_string()));
    session.on_timeout(handle);
    assert_eq!(session.take_frames(), vec![r#"["auth tok999"]"#.to_string()]);
    assert!(session.take_timers().is_empty());
}

#[test]
fn stale_timer_event_is_ignored() {
    let mut session = Session::new(TokenStorage::new(), Recorder::new());
    session.on_timeout(17);
    assert!(session.take_frames().is_empty());
    assert!(session.take_timers().is_empty());
    assert!(session.handler_ref().errors.is_empty());
}

#[test]
fn retry_without_token_schedules_again() {
    let mut session = Session::new(TokenStorage::new(), Recorder::new());
    session.handle_frame_text("o").unwrap();
    let handle = session.take_timers()[0].handle;
    session.on_timeout(handle);
    // Still no token: another Unauthorized report and another timer.
    assert_eq!(
        session.handler_ref().errors,
        vec![Error::Unauthorized, Error::Unauthorized]
    );
    let timers = session.take_timers();
    assert_eq!(timers.len(), 1);
    assert_eq!(timers[0].delay_ms, 15_000);
    assert!(session.take_frames().is_empty());
}

#[test]
fn batch_messages_dispatch_in_order() {
    let mut session = Session::new(TokenStorage::new(), Recorder::new());
    let outcome = session.handle_frame_text(r#"a["{\"a\":1}","{\"b\":2}"]"#);
    assert_eq!(outcome, Ok(()));
    assert_eq!(
        session.handler_ref().messages,
        vec!["{\"a\":1}".to_string(), "{\"b\":2}".to_string()]
    );
    assert!(session.take_frames().is_empty());
}

#[test]
fn batch_dispatch_stops_at_first_failure() {
    let mut session = Session::new(TokenStorage::new(), Recorder::failing_from(0));
    let outcome = session.handle_frame_text(r#"a["{\"a\":1}","{\"b\":2}"]"#);
    assert!(outcome.is_err());
    // The first forwarding failed, so the second was never attempted.
    assert!(session.handler_ref().messages.is_empty());
    assert_eq!(session.handler_ref().calls, 1);
}

#[test]
fn empty_batch_succeeds_without_dispatch() {
    let mut session = Session::new(TokenStorage::new(), Recorder::new());
    assert_eq!(session.handle_frame_text("a[]"), Ok(()));
    assert_eq!(session.handler_ref().calls, 0);
    assert!(session.handler_ref().messages.is_empty());
}

#[test]
fn close_frame_is_ignored_by_default_dispatch() {
    let mut session = Session::new(TokenStorage::new(), Recorder::new());
    assert_eq!(session.handle_frame_text(r#"c[1000,"bye"]"#), Ok(()));
    assert_eq!(session.handler_ref().calls, 0);
    assert!(session.handler_ref().errors.is_empty());
    assert!(session.take_frames().is_empty());
}

#[test]
fn single_message_reaches_handler() {
    let mut session = Session::new(TokenStorage::new(), Recorder::new());
    session.handle_frame_text(r#"m"gcl changed""#).unwrap();
    assert_eq!(session.handler_ref().messages, vec!["gcl changed".to_string()]);
}

#[test]
fn malformed_frame_reaches_error_callback() {
    let mut session = Session::new(TokenStorage::new(), Recorder::new());
    assert_eq!(session.handle_frame_text("c[oops"), Ok(()));
    assert_eq!(
        session.handler_ref().errors,
        vec![Error::FrameParse { raw: "c[oops".to_string() }]
    );
    assert!(session.take_frames().is_empty());
}

#[test]
fn transport_error_and_disconnect_are_forwarded() {
    let mut session = Session::new(TokenStorage::new(), Recorder::new());
    session.on_transport_error(Error::Transport { description: "socket closed".to_string() });
    assert_eq!(
        session.handler_ref().errors,
        vec![Error::Transport { description: "socket closed".to_string() }]
    );
    assert_eq!(session.on_disconnect(), Ok(()));
    assert_eq!(session.handler_ref().disconnects, 1);
}

#[test]
fn subscribe_sends_prefixed_topic() {
    let mut sender = Sender::new();
    sender.subscribe(&Channel::room_updates("E5N39".to_string()));
    assert_eq!(sender.take_frames(), vec![r#"["subscribe room:E5N39"]"#.to_string()]);
}

#[test]
fn unsubscribe_sends_prefixed_topic() {
    let mut sender = Sender::new();
    sender.unsubscribe(&Channel::user_console("U1".to_string()));
    assert_eq!(
        sender.take_frames(),
        vec![r#"["unsubscribe user:U1/console"]"#.to_string()]
    );
}

#[test]
fn sender_keeps_frame_order() {
    let mut sender = Sender::new();
    sender.send_raw("gzip on");
    sender.subscribe(&Channel::server_messages());
    sender.send_empty_frame();
    assert_eq!(
        sender.take_frames(),
        vec![
            r#"["gzip on"]"#.to_string(),
            r#"["subscribe server-message"]"#.to_string(),
            "[]".to_string(),
        ]
    );
    assert!(sender.take_frames().is_empty());
}

#[test]
fn callable_adapts_into_handler() {
    let mut session = Session::new(
        TokenStorage::new(),
        FnHandler::new(|msg: ParsedMessage| {
            if msg.as_str() == "bad" {
                Err(Error::Transport { description: "rejected".to_string() })
            } else {
                Ok(())
            }
        }),
    );
    assert_eq!(session.handle_frame_text(r#"m"fine""#), Ok(()));
    assert_eq!(
        session.handle_frame_text(r#"m"bad""#),
        Err(Error::Transport { description: "rejected".to_string() })
    );
}
