use vstd::prelude::*;
use vstd::string::*;
use vstd::utf8::*;

verus! {

/// A command sent on the control channel, with its argument.
#[derive(Debug)]
pub enum FtpCommand {
    /// `USER`: the name to log in as.
    User(String),
    /// `PASS`: the password of that user.
    Pass(String),
}

impl FtpCommand {
    /// The verb that starts the command's line.
    pub open spec fn verb(&self) -> Seq<char> {
        match self {
            FtpCommand::User(_) => seq!['U', 'S', 'E', 'R'],
            FtpCommand::Pass(_) => seq!['P', 'A', 'S', 'S'],
        }
    }

    /// The argument, as given: it is not checked or escaped.
    pub open spec fn argument(&self) -> Seq<char> {
        match self {
            FtpCommand::User(name) => name@,
            FtpCommand::Pass(word) => word@,
        }
    }

    /// The command's line: verb, one space, argument, then `\r\n`.
    pub open spec fn wire(&self) -> Seq<char> {
        self.verb() + seq![' '] + self.argument() + seq!['\r', '\n']
    }

    /// The command's line as text, ready to be sent.
    pub fn to_string(&self) -> (r: String)
        ensures
            r@ == self.wire(),
    {
        proof {
            reveal_strlit("USER ");
            reveal_strlit("PASS ");
            reveal_strlit("\r\n");
        }
        let mut line = match self {
            FtpCommand::User(name) => {
                let mut line = String::from_str("USER ");
                line.append(name.as_str());
                line
            },
            FtpCommand::Pass(word) => {
                let mut line = String::from_str("PASS ");
                line.append(word.as_str());
                line
            },
        };
        line.append("\r\n");
        assert(line@ =~= self.wire());
        line
    }

    /// The bytes of the command's line, UTF-8 encoded.
    pub fn encode(&self) -> (r: Vec<u8>)
        ensures
            r@ == encode_utf8(self.wire()),
    {
        let line = self.to_string();
        line.as_str().as_bytes_vec()
    }
}

/// Encoding depends on the command alone: two commands with the same verb and
/// argument give the same line and the same bytes.
pub proof fn encoding_is_pure(a: &FtpCommand, b: &FtpCommand)
    requires
        a.verb() == b.verb(),
        a.argument() == b.argument(),
    ensures
        a.wire() == b.wire(),
        encode_utf8(a.wire()) == encode_utf8(b.wire()),
{
}

} // verus!
