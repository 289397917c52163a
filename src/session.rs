use vstd::prelude::*;
use vstd::utf8::*;

use crate::command::FtpCommand;
use crate::error::FtpError;
use crate::response::{reply_of, FtpResponse};

verus! {

/// The two round trips of a login.
#[derive(Debug, Clone, Copy, PartialEq, Eq, Structural)]
pub enum LoginStep {
    /// Sending `USER` and reading its reply.
    User,
    /// Sending `PASS` and reading its reply.
    Pass,
}

/// A failed login: the step that failed and how.
#[derive(Debug, Clone, Copy, PartialEq, Eq, Structural)]
pub struct LoginError {
    pub step: LoginStep,
    pub kind: FtpError,
}

/// Where a login stands.
#[derive(Debug, Clone, Copy, PartialEq, Eq, Structural)]
pub enum LoginState {
    /// Nothing sent yet.
    Connected,
    /// `USER` handed out to be written.
    SentUser,
    /// `USER` written; its reply is awaited.
    AwaitingUserReply,
    /// `PASS` handed out to be written.
    SentPass,
    /// `PASS` written; its reply is awaited.
    AwaitingPassReply,
    /// Both replies accepted the login.
    Authenticated,
    /// The login ended with an error: a rejection, or a broken channel.
    Failed(LoginError),
}

/// What the transport reports after the action it was given.
#[derive(Debug)]
pub enum SessionEvent {
    /// The command's bytes were written and flushed.
    Written,
    /// Writing or flushing failed.
    WriteFailed,
    /// The bytes of the reply were read.
    Replied(Vec<u8>),
    /// Reading failed.
    ReadFailed,
}

/// What the transport is to do next.
#[derive(Debug)]
pub enum LoginAction {
    /// Write these bytes and flush.
    Send(Vec<u8>),
    /// Read one reply.
    Receive,
    /// The login is over, with this outcome; nothing more is to be done.
    Finish(Result<(), LoginError>),
}

/// The reply codes that let a login go on after `USER`: completion (2xx) or
/// a request for the password (3xx).
pub open spec fn user_reply_accepted(code: u32) -> bool {
    200 <= code < 400
}

/// The reply codes that complete a login after `PASS` (2xx).
pub open spec fn pass_reply_accepted(code: u32) -> bool {
    200 <= code < 300
}

/// The code of the reply read as `raw`, where it is well-formed.
pub open spec fn reply_code(raw: Seq<u8>) -> Option<u32> {
    match reply_of(raw) {
        Some((code, _)) => Some(code),
        None => None,
    }
}

/// The state of a login that ended at `step` with `kind`.
pub open spec fn failed(step: LoginStep, kind: FtpError) -> LoginState {
    LoginState::Failed(LoginError { step, kind })
}

/// Whether a login in `state` waits for `event`: a write outcome after a
/// command was handed out, a read outcome while a reply is awaited, and nothing
/// once it is over.
pub open spec fn awaits(state: LoginState, event: &SessionEvent) -> bool {
    match state {
        LoginState::SentUser | LoginState::SentPass => event is Written || event is WriteFailed,
        LoginState::AwaitingUserReply | LoginState::AwaitingPassReply => event is Replied
            || event is ReadFailed,
        _ => false,
    }
}

/// The state after one reply, at the given step, read as `raw`.
pub open spec fn after_reply(step: LoginStep, raw: Seq<u8>) -> LoginState {
    match reply_of(raw) {
        None => failed(step, FtpError::MalformedReply),
        Some((code, _)) => match step {
            LoginStep::User => if user_reply_accepted(code) {
                LoginState::SentPass
            } else {
                failed(step, FtpError::ProtocolRejection)
            },
            LoginStep::Pass => if pass_reply_accepted(code) {
                LoginState::Authenticated
            } else {
                failed(step, FtpError::ProtocolRejection)
            },
        },
    }
}

/// The state after `event`, which `state` awaits.
pub open spec fn next_state(state: LoginState, event: &SessionEvent) -> LoginState {
    match state {
        LoginState::SentUser => if event is Written {
            LoginState::AwaitingUserReply
        } else {
            failed(LoginStep::User, FtpError::TransportError)
        },
        LoginState::SentPass => if event is Written {
            LoginState::AwaitingPassReply
        } else {
            failed(LoginStep::Pass, FtpError::TransportError)
        },
        LoginState::AwaitingUserReply => match event {
            SessionEvent::Replied(raw) => after_reply(LoginStep::User, raw@),
            _ => failed(LoginStep::User, FtpError::TransportError),
        },
        LoginState::AwaitingPassReply => match event {
            SessionEvent::Replied(raw) => after_reply(LoginStep::Pass, raw@),
            _ => failed(LoginStep::Pass, FtpError::TransportError),
        },
        _ => state,
    }
}

/// A login that has failed waits for no event: nothing more is sent.
pub proof fn failed_login_is_over(e: LoginError, later: &SessionEvent)
    ensures
        !awaits(LoginState::Failed(e), later),
{
}

/// When the first write fails, the login ends at the `USER` step with a
/// transport error, and no second command follows.
pub proof fn first_write_failure_ends_login(later: &SessionEvent)
    ensures
        next_state(LoginState::SentUser, &SessionEvent::WriteFailed) == failed(
            LoginStep::User,
            FtpError::TransportError,
        ),
        !awaits(next_state(LoginState::SentUser, &SessionEvent::WriteFailed), later),
{
}

/// A well-formed reply that refuses `USER` ends the login with a rejection at
/// that step, and the password is never sent.
pub proof fn refused_user_gets_no_password(reply: &SessionEvent, later: &SessionEvent)
    requires
        reply is Replied,
        reply_code(reply->Replied_0@) is Some,
        !user_reply_accepted(reply_code(reply->Replied_0@)->0),
    ensures
        next_state(LoginState::AwaitingUserReply, reply) == failed(
            LoginStep::User,
            FtpError::ProtocolRejection,
        ),
        !awaits(next_state(LoginState::AwaitingUserReply, reply), later),
{
}

/// The password is sent only after a reply to `USER` whose code accepts it.
pub proof fn password_follows_accepted_user(state: LoginState, event: &SessionEvent)
    requires
        state != LoginState::SentPass,
        next_state(state, event) == LoginState::SentPass,
    ensures
        state == LoginState::AwaitingUserReply,
        event is Replied,
        reply_code(event->Replied_0@) is Some,
        user_reply_accepted(reply_code(event->Replied_0@)->0),
{
}

/// A login succeeds only on a reply to `PASS` whose code completes it.
pub proof fn success_follows_accepted_pass(state: LoginState, event: &SessionEvent)
    requires
        state != LoginState::Authenticated,
        next_state(state, event) == LoginState::Authenticated,
    ensures
        state == LoginState::AwaitingPassReply,
        event is Replied,
        reply_code(event->Replied_0@) is Some,
        pass_reply_accepted(reply_code(event->Replied_0@)->0),
{
}

/// The login exchange of one session: it hands out what to send and read,
/// and decides from each outcome whether and how to go on.
pub struct Login {
    pub user: String,
    pub pass: String,
    pub state: LoginState,
}

impl Login {
    /// The bytes of `USER` for this login.
    pub open spec fn user_line(&self) -> Seq<u8> {
        encode_utf8(FtpCommand::User(self.user).wire())
    }

    /// The bytes of `PASS` for this login.
    pub open spec fn pass_line(&self) -> Seq<u8> {
        encode_utf8(FtpCommand::Pass(self.pass).wire())
    }

    /// Whether `a` is what a login that has just reached its state hands out.
    pub open spec fn action_of_state(&self, a: &LoginAction) -> bool {
        match self.state {
            LoginState::SentUser => a is Send && a->Send_0@ == self.user_line(),
            LoginState::SentPass => a is Send && a->Send_0@ == self.pass_line(),
            LoginState::AwaitingUserReply | LoginState::AwaitingPassReply => a is Receive,
            LoginState::Authenticated => a is Finish && a->Finish_0 == Ok::<(), LoginError>(()),
            LoginState::Failed(e) => a is Finish && a->Finish_0 == Err::<(), LoginError>(e),
            LoginState::Connected => false,
        }
    }

    /// A login for these credentials, with nothing sent yet.
    pub fn new(user: &str, pass: &str) -> (r: Self)
        ensures
            r.user@ == user@,
            r.pass@ == pass@,
            r.state == LoginState::Connected,
    {
        Login { user: user.to_owned(), pass: pass.to_owned(), state: LoginState::Connected }
    }

    /// Starts the login: `USER` is to be sent.
    pub fn begin(&mut self) -> (r: LoginAction)
        requires
            old(self).state == LoginState::Connected,
        ensures
            final(self).user == old(self).user,
            final(self).pass == old(self).pass,
            final(self).state == LoginState::SentUser,
            final(self).action_of_state(&r),
    {
        self.state = LoginState::SentUser;
        let command = FtpCommand::User(self.user.clone());
        LoginAction::Send(command.encode())
    }

    /// Whether the login waits for `event` now.
    pub fn accepts(&self, event: &SessionEvent) -> (r: bool)
        ensures
            r == awaits(self.state, event),
    {
        match self.state {
            LoginState::SentUser | LoginState::SentPass => match event {
                SessionEvent::Written | SessionEvent::WriteFailed => true,
                _ => false,
            },
            LoginState::AwaitingUserReply | LoginState::AwaitingPassReply => match event {
                SessionEvent::Replied(_) | SessionEvent::ReadFailed => true,
                _ => false,
            },
            _ => false,
        }
    }

    /// Takes the outcome of the last action and decides the next one. A
    /// failed write or read, or a reply that does not parse, ends the login at
    /// that step; so does a reply code that refuses it, before anything more
    /// is sent.
    pub fn step(&mut self, event: SessionEvent) -> (r: LoginAction)
        requires
            awaits(old(self).state, &event),
        ensures
            final(self).user == old(self).user,
            final(self).pass == old(self).pass,
            final(self).state == next_state(old(self).state, &event),
            final(self).action_of_state(&r),
    {
        let next = match (self.state, event) {
            (LoginState::SentUser, SessionEvent::Written) => LoginState::AwaitingUserReply,
            (LoginState::SentPass, SessionEvent::Written) => LoginState::AwaitingPassReply,
            (LoginState::SentUser, _) => LoginState::Failed(
                LoginError { step: LoginStep::User, kind: FtpError::TransportError },
            ),
            (LoginState::SentPass, _) => LoginState::Failed(
                LoginError { step: LoginStep::Pass, kind: FtpError::TransportError },
            ),
            (LoginState::AwaitingUserReply, SessionEvent::Replied(raw)) => Self::judge_reply(
                LoginStep::User,
                raw,
            ),
            (LoginState::AwaitingPassReply, SessionEvent::Replied(raw)) => Self::judge_reply(
                LoginStep::Pass,
                raw,
            ),
            (LoginState::AwaitingUserReply, _) => LoginState::Failed(
                LoginError { step: LoginStep::User, kind: FtpError::TransportError },
            ),
            (_, _) => LoginState::Failed(
                LoginError { step: LoginStep::Pass, kind: FtpError::TransportError },
            ),
        };
        self.state = next;
        match next {
            LoginState::SentPass => {
                let command = FtpCommand::Pass(self.pass.clone());
                LoginAction::Send(command.encode())
            },
            LoginState::Authenticated => LoginAction::Finish(Ok(())),
            LoginState::Failed(e) => LoginAction::Finish(Err(e)),
            _ => LoginAction::Receive,
        }
    }

    /// The state that a reply read at `step` leads to.
    fn judge_reply(step: LoginStep, raw: Vec<u8>) -> (r: LoginState)
        ensures
            r == after_reply(step, raw@),
    {
        match FtpResponse::decode(raw) {
            Err(_) => LoginState::Failed(LoginError { step, kind: FtpError::MalformedReply }),
            Ok(reply) => {
                let accepted = match step {
                    LoginStep::User => 200 <= reply.code && reply.code < 400,
                    LoginStep::Pass => 200 <= reply.code && reply.code < 300,
                };
                if !accepted {
                    LoginState::Failed(LoginError { step, kind: FtpError::ProtocolRejection })
                } else {
                    match step {
                        LoginStep::User => LoginState::SentPass,
                        LoginStep::Pass => LoginState::Authenticated,
                    }
                }
            },
        }
    }
}

} // verus!
