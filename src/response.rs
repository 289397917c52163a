use vstd::prelude::*;
use vstd::string::*;
use vstd::utf8::*;

use crate::error::FtpError;
use crate::text::chars_of;

verus! {

/// A reply of the server: its status code and the text after it.
#[derive(Debug, PartialEq, Eq)]
pub struct FtpResponse {
    /// The status code, such as 220 when the service is ready or 530 when a
    /// login is refused.
    pub code: u32,
    /// The text that follows the code and its separating space.
    pub message: String,
}

pub open spec fn is_digit(c: char) -> bool {
    '0' <= c && c <= '9'
}

pub open spec fn all_digits(s: Seq<char>) -> bool {
    forall|i: int| 0 <= i < s.len() ==> is_digit(#[trigger] s[i])
}

pub open spec fn digit_value(c: char) -> nat {
    (c as nat - '0' as nat) as nat
}

/// The number that a string of decimal digits denotes.
pub open spec fn decimal_value(s: Seq<char>) -> nat
    decreases s.len(),
{
    if s.len() == 0 {
        0
    } else {
        decimal_value(s.drop_last()) * 10 + digit_value(s.last())
    }
}

/// The digits of a code token: all of it, or what follows one leading `+`.
pub open spec fn code_digits(token: Seq<char>) -> Seq<char> {
    if token.len() > 0 && token[0] == '+' {
        token.drop_first()
    } else {
        token
    }
}

/// The code that a token denotes, as an unsigned 32-bit decimal number with an
/// optional leading `+`; `None` where the token is no such number.
pub open spec fn code_of(token: Seq<char>) -> Option<u32> {
    let d = code_digits(token);
    if d.len() > 0 && all_digits(d) && decimal_value(d) <= u32::MAX {
        Some(decimal_value(d) as u32)
    } else {
        None
    }
}

/// `s` without one trailing line terminator (`\r\n`, or else `\n`).
pub open spec fn trim_terminator(s: Seq<char>) -> Seq<char> {
    if s.len() >= 2 && s[s.len() - 2] == '\r' && s[s.len() - 1] == '\n' {
        s.take(s.len() - 2)
    } else if s.len() >= 1 && s[s.len() - 1] == '\n' {
        s.take(s.len() - 1)
    } else {
        s
    }
}

pub open spec fn is_first_space(s: Seq<char>, i: int) -> bool {
    &&& 0 <= i < s.len()
    &&& s[i] == ' '
    &&& forall|j: int| 0 <= j < i ==> s[j] != ' '
}

pub open spec fn has_space(s: Seq<char>) -> bool {
    exists|i: int| 0 <= i < s.len() && s[i] == ' '
}

/// The position of the first space of `s`.
pub open spec fn first_space(s: Seq<char>) -> int
    recommends
        has_space(s),
{
    choose|i: int| is_first_space(s, i)
}

/// The code and message of a reply line: the line without its terminator,
/// split at its first space, where the part before it is a code.
pub open spec fn reply_of_text(t: Seq<char>) -> Option<(u32, Seq<char>)> {
    let line = trim_terminator(t);
    if has_space(line) {
        let i = first_space(line);
        match code_of(line.take(i)) {
            Some(c) => Some((c, line.skip(i + 1))),
            None => None,
        }
    } else {
        None
    }
}

/// The code and message of a reply received as bytes, which must be UTF-8.
pub open spec fn reply_of(raw: Seq<u8>) -> Option<(u32, Seq<char>)> {
    if valid_utf8(raw) {
        reply_of_text(decode_utf8(raw))
    } else {
        None
    }
}

/// The position found by a scan for the first space is the one that
/// `first_space` names.
proof fn lemma_first_space_unique(s: Seq<char>, i: int)
    requires
        is_first_space(s, i),
    ensures
        has_space(s),
        first_space(s) == i,
{
    assert(has_space(s));
    let k = first_space(s);
    assert(is_first_space(s, k));
    if k < i {
        assert(s[k] != ' ');
    } else if i < k {
        assert(s[i] != ' ');
    }
}

/// A longer string of digits never denotes a smaller number than its prefix.
proof fn lemma_decimal_value_prefix(s: Seq<char>, k: int)
    requires
        0 <= k <= s.len(),
    ensures
        decimal_value(s.take(k)) <= decimal_value(s),
    decreases s.len(),
{
    if k < s.len() {
        assert(s.drop_last().take(k) =~= s.take(k));
        lemma_decimal_value_prefix(s.drop_last(), k);
    } else {
        assert(s.take(k) =~= s);
    }
}

/// Parses the code token `chars[..n]` as `u32`'s `from_str` does.
fn parse_code(chars: &Vec<char>, n: usize) -> (r: Option<u32>)
    requires
        n <= chars@.len(),
    ensures
        r == code_of(chars@.take(n as int)),
{
    let ghost token = chars@.take(n as int);
    let mut start: usize = 0;
    if n > 0 && chars[0] == '+' {
        start = 1;
    }
    let ghost d = code_digits(token);
    assert(d =~= token.skip(start as int));
    if start == n {
        return None;
    }
    let mut value: u64 = 0;
    let mut i: usize = start;
    while i < n
        invariant
            start <= i <= n,
            n <= chars@.len(),
            token == chars@.take(n as int),
            d == code_digits(token),
            d =~= token.skip(start as int),
            all_digits(d.take(i - start)),
            value == decimal_value(d.take(i - start)),
            value <= u32::MAX,
        decreases n - i,
    {
        let c = chars[i];
        if c < '0' || c > '9' {
            assert(!is_digit(d[i - start]));
            return None;
        }
        let digit = (c as u32 - '0' as u32) as u64;
        value = value * 10 + digit;
        assert(d.take(i + 1 - start).drop_last() =~= d.take(i - start));
        assert(d.take(i + 1 - start).last() == c);
        assert(digit_value(c) == digit);
        if value > u32::MAX as u64 {
            proof {
                lemma_decimal_value_prefix(d, i + 1 - start);
            }
            return None;
        }
        i = i + 1;
    }
    assert(d.take(n - start) =~= d);
    Some(value as u32)
}

/// The character of a decimal digit `n < 10`.
pub open spec fn digit_char(n: nat) -> char {
    ((n + 48) as u8) as char
}

/// A code in three decimal digits.
pub open spec fn code_text(code: u32) -> Seq<char> {
    seq![digit_char((code / 100) as nat), digit_char((code / 10 % 10) as nat), digit_char((code % 10) as nat)]
}

/// The line a server sends for a reply: code, space, message, `\r\n`.
pub open spec fn reply_line(code: u32, message: Seq<char>) -> Seq<char> {
    code_text(code) + seq![' '] + message + seq!['\r', '\n']
}

/// The bytes of that line on the wire.
pub open spec fn reply_bytes(r: FtpResponse) -> Seq<u8> {
    encode_utf8(reply_line(r.code, r.message@))
}

/// Decoding the bytes of a reply whose code has three digits gives back that
/// reply, whatever its message holds.
pub proof fn reply_round_trip(r: FtpResponse)
    requires
        100 <= r.code <= 599,
    ensures
        reply_of(reply_bytes(r)) == Some((r.code, r.message@)),
{
    let m = r.message@;
    let t = reply_line(r.code, m);
    encode_utf8_valid_utf8(t);
    encode_utf8_decode_utf8(t);
    let line = trim_terminator(t);
    assert(line =~= code_text(r.code) + seq![' '] + m);
    lemma_first_space_unique(line, 3);
    let tok = line.take(3);
    assert(tok =~= code_text(r.code));
    assert(code_digits(tok) == tok);
    assert(all_digits(tok));
    assert(tok.drop_last().drop_last().drop_last() =~= Seq::<char>::empty());
    reveal_with_fuel(decimal_value, 4);
    assert(decimal_value(tok) == r.code) by (nonlinear_arith)
        requires
            decimal_value(tok) == ((r.code / 100) as nat * 10 + (r.code / 10 % 10) as nat) * 10 + (
            r.code % 10) as nat,
    ;
    assert(line.skip(4) =~= m);
}

/// Relies on `String::from_utf8`: it succeeds exactly on valid UTF-8, with the
/// text that the bytes encode.
#[verifier::external_body]
fn utf8_text(raw: Vec<u8>) -> (r: Option<String>)
    ensures
        r is Some <==> valid_utf8(raw@),
        r is Some ==> r->0@ == decode_utf8(raw@),
{
    String::from_utf8(raw).ok()
}

impl FtpResponse {
    /// Decodes a reply from the bytes read off the control channel.
    pub fn decode(raw: Vec<u8>) -> (r: Result<Self, FtpError>)
        ensures
            match r {
                Ok(resp) => reply_of(raw@) == Some((resp.code, resp.message@)),
                Err(e) => e == FtpError::MalformedReply && reply_of(raw@) is None,
            },
    {
        match utf8_text(raw) {
            None => Err(FtpError::MalformedReply),
            Some(text) => FtpResponse::from_string(text),
        }
    }

    /// A reply with the given code and message.
    pub fn new(code: u32, message: String) -> (r: Self)
        ensures
            r.code == code,
            r.message@ == message@,
    {
        FtpResponse { code, message }
    }

    /// Parses a reply line: the code, one space, then the message. One
    /// trailing line terminator is dropped first; the message keeps any
    /// further spaces.
    pub fn from_string(response: String) -> (r: Result<Self, FtpError>)
        ensures
            match r {
                Ok(resp) => reply_of_text(response@) == Some((resp.code, resp.message@)),
                Err(e) => e == FtpError::MalformedReply && reply_of_text(response@) is None,
            },
    {
        let s = response.as_str();
        let chars = chars_of(s);
        let n = chars.len();
        let ghost t = s@;
        let mut end: usize = n;
        if n >= 2 && chars[n - 2] == '\r' && chars[n - 1] == '\n' {
            end = n - 2;
        } else if n >= 1 && chars[n - 1] == '\n' {
            end = n - 1;
        }
        let ghost line = trim_terminator(t);
        assert(line =~= t.take(end as int));
        let mut i: usize = 0;
        while i < end && chars[i] != ' '
            invariant
                i <= end <= n,
                n == t.len(),
                chars@ == t,
                line == t.take(end as int),
                forall|j: int| 0 <= j < i ==> line[j] != ' ',
            decreases end - i,
        {
            i = i + 1;
        }
        if i == end {
            assert(!has_space(line));
            return Err(FtpError::MalformedReply);
        }
        proof {
            lemma_first_space_unique(line, i as int);
        }
        let code = parse_code(&chars, i);
        assert(chars@.take(i as int) =~= line.take(i as int));
        match code {
            None => Err(FtpError::MalformedReply),
            Some(code) => {
                let message = s.substring_char(i + 1, end).to_owned();
                assert(line.skip(i + 1) =~= t.subrange(i + 1, end as int));
                Ok(FtpResponse { code, message })
            },
        }
    }
}

} // verus!
