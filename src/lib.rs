//! Control-channel core of an FTPS client: encoding of commands, decoding of
//! replies, and the decisions of the login exchange.

mod text;
pub mod command;
pub mod error;
pub mod response;
pub mod session;

pub use command::FtpCommand;
pub use error::FtpError;
pub use response::FtpResponse;
pub use session::{Login, LoginAction, LoginError, LoginState, LoginStep, SessionEvent};
