use rust_ftps::{FtpError, Login, LoginAction, LoginError, LoginState, LoginStep, SessionEvent};

/// Runs a login against a scripted transport: `replies` are read in turn
/// (a read past them fails), and the write numbered `fail_write` fails.
fn run(replies: &[&str], fail_write: Option<usize>) -> (Result<(), LoginError>, Vec<Vec<u8>>, Login) {
    let mut login = Login::new("alice", "secret");
    let mut action = login.begin();
    let mut sent: Vec<Vec<u8>> = Vec::new();
    let mut writes = 0;
    let mut reads = 0;
    loop {
        let event = match action {
            LoginAction::Send(bytes) => {
                writes += 1;
                if fail_write == Some(writes) {
                    SessionEvent::WriteFailed
                } else {
                    sent.push(bytes);
                    SessionEvent::Written
                }
            }
            LoginAction::Receive => {
                reads += 1;
                match replies.get(reads - 1) {
                    Some(text) => SessionEvent::Replied(text.as_bytes().to_vec()),
                    None => SessionEvent::ReadFailed,
                }
            }
            LoginAction::Finish(outcome) => return (outcome, sent, login),
        };
        assert!(login.accepts(&event));
        action = login.step(event);
    }
}

fn error(step: LoginStep, kind: FtpError) -> Result<(), LoginError> {
    Err(LoginError { step, kind })
}

#[test]
fn login_succeeds_on_two_accepting_replies() {
    let (outcome, sent, login) = run(&["230 Logged in", "230 Logged in"], None);
    assert_eq!(outcome, Ok(()));
    assert_eq!(sent, vec![b"USER alice\r\n".to_vec(), b"PASS secret\r\n".to_vec()]);
    assert_eq!(login.state, LoginState::Authenticated);
}

#[test]
fn login_succeeds_after_password_request() {
    let (outcome, sent, _) = run(&["331 Password required\r\n", "230 Logged in\r\n"], None);
    assert_eq!(outcome, Ok(()));
    assert_eq!(sent.len(), 2);
}

#[test]
fn login_refused_user_sends_no_password() {
    let (outcome, sent, login) = run(&["530 Login incorrect", "230 Logged in"], None);
    assert_eq!(outcome, error(LoginStep::User, FtpError::ProtocolRejection));
    assert_eq!(sent, vec![b"USER alice\r\n".to_vec()]);
    assert!(!login.accepts(&SessionEvent::Written));
    assert!(!login.accepts(&SessionEvent::Replied(b"230 ok".to_vec())));
}

#[test]
fn login_refused_password() {
    let (outcome, sent, _) = run(&["331 Password required", "530 Login incorrect"], None);
    assert_eq!(outcome, error(LoginStep::Pass, FtpError::ProtocolRejection));
    assert_eq!(sent.len(), 2);
    let (outcome, _, _) = run(&["331 Password required", "332 Need account"], None);
    assert_eq!(outcome, error(LoginStep::Pass, FtpError::ProtocolRejection));
    let (outcome, _, _) = run(&["120 Wait", "230 Logged in"], None);
    assert_eq!(outcome, error(LoginStep::User, FtpError::ProtocolRejection));
}

#[test]
fn login_first_write_failure_sends_nothing_more() {
    let (outcome, sent, login) = run(&["230 Logged in", "230 Logged in"], Some(1));
    assert_eq!(outcome, error(LoginStep::User, FtpError::TransportError));
    assert!(sent.is_empty());
    assert!(!login.accepts(&SessionEvent::Written));
    assert!(!login.accepts(&SessionEvent::ReadFailed));
}

#[test]
fn login_second_write_failure() {
    let (outcome, sent, _) = run(&["331 Password required", "230 Logged in"], Some(2));
    assert_eq!(outcome, error(LoginStep::Pass, FtpError::TransportError));
    assert_eq!(sent.len(), 1);
}

#[test]
fn login_read_failures() {
    let (outcome, _, _) = run(&[], None);
    assert_eq!(outcome, error(LoginStep::User, FtpError::TransportError));
    let (outcome, _, _) = run(&["331 Password required"], None);
    assert_eq!(outcome, error(LoginStep::Pass, FtpError::TransportError));
}

#[test]
fn login_malformed_replies() {
    let (outcome, sent, _) = run(&["530"], None);
    assert_eq!(outcome, error(LoginStep::User, FtpError::MalformedReply));
    assert_eq!(sent.len(), 1);
    let (outcome, _, _) = run(&["331 Password required", "abc Logged in"], None);
    assert_eq!(outcome, error(LoginStep::Pass, FtpError::MalformedReply));
}

#[test]
fn login_accepts_events_in_turn() {
    let mut login = Login::new("alice", "secret");
    assert_eq!(login.state, LoginState::Connected);
    assert!(!login.accepts(&SessionEvent::Written));
    let action = login.begin();
    assert!(matches!(action, LoginAction::Send(ref b) if b == b"USER alice\r\n"));
    assert!(login.accepts(&SessionEvent::Written));
    assert!(login.accepts(&SessionEvent::WriteFailed));
    assert!(!login.accepts(&SessionEvent::ReadFailed));
    assert!(matches!(login.step(SessionEvent::Written), LoginAction::Receive));
    assert_eq!(login.state, LoginState::AwaitingUserReply);
    assert!(login.accepts(&SessionEvent::ReadFailed));
    assert!(!login.accepts(&SessionEvent::Written));
}
