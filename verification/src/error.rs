//! What an operation answers when it does not succeed.
//!
//! `Error` is the answer to a request that cannot be served as asked; the
//! store is then as it was. `Fault` is a failure of the storage itself, after
//! which the caller should give up the request altogether.

use vstd::prelude::*;
use vstd::string::StringExecFns;

verus! {

/// A request that cannot be served as asked.
#[derive(Clone, Debug)]
pub enum Error {
    /// No poll is stored under the identifier.
    NotFound { msg: String },
    /// The ballot names no option of the poll.
    InvalidVote { msg: String },
}

/// A failure of the storage.
#[derive(Clone, Copy, Debug, PartialEq, Eq, Structural)]
pub enum Fault {
    /// Every identifier has been handed out.
    IdsExhausted,
    /// The record has no encoding.
    Unencodable,
    /// The encoded record is longer than a stored record may be.
    RecordTooLarge,
    /// The counter could not be written.
    CounterWrite,
    /// The decoder made nothing of the bytes stored under an identifier:
    /// they are no record, or the decoder had no room to work.
    Undecodable,
    /// The bytes stored under an identifier decode to something that is not
    /// a poll of that identifier.
    CorruptRecord,
    /// The counter of the option voted for cannot go any higher.
    CounterFull,
}

/// The character for a single decimal digit.
pub open spec fn digit_char(d: nat) -> char {
    if d == 0 {
        '0'
    } else if d == 1 {
        '1'
    } else if d == 2 {
        '2'
    } else if d == 3 {
        '3'
    } else if d == 4 {
        '4'
    } else if d == 5 {
        '5'
    } else if d == 6 {
        '6'
    } else if d == 7 {
        '7'
    } else if d == 8 {
        '8'
    } else {
        '9'
    }
}

/// A number in decimal, most significant digit first, without leading zeros.
pub open spec fn decimal(n: nat) -> Seq<char>
    decreases n,
{
    if n < 10 {
        seq![digit_char(n)]
    } else {
        decimal(n / 10).push(digit_char(n % 10))
    }
}

/// The text of a missing-poll answer.
pub open spec fn not_found_text(id: u64, stop: bool) -> Seq<char> {
    let head = "Poll with id="@ + decimal(id as nat) + " not found"@;
    if stop {
        head + "."@
    } else {
        head
    }
}

/// The text of a refused-ballot answer.
pub open spec fn invalid_vote_text() -> Seq<char> {
    "Invalid option index"@
}

/// The text of one decimal digit.
fn digit_text(d: u64) -> (s: &'static str)
    requires
        d < 10,
    ensures
        s@ == seq![digit_char(d as nat)],
{
    proof {
        reveal_strlit("0");
        reveal_strlit("1");
        reveal_strlit("2");
        reveal_strlit("3");
        reveal_strlit("4");
        reveal_strlit("5");
        reveal_strlit("6");
        reveal_strlit("7");
        reveal_strlit("8");
        reveal_strlit("9");
    }
    let s = if d == 0 {
        "0"
    } else if d == 1 {
        "1"
    } else if d == 2 {
        "2"
    } else if d == 3 {
        "3"
    } else if d == 4 {
        "4"
    } else if d == 5 {
        "5"
    } else if d == 6 {
        "6"
    } else if d == 7 {
        "7"
    } else if d == 8 {
        "8"
    } else {
        "9"
    };
    assert(s@ =~= seq![digit_char(d as nat)]);
    s
}

/// Appends `n` in decimal to `out`.
pub fn push_decimal(out: &mut String, n: u64)
    ensures
        final(out)@ == old(out)@ + decimal(n as nat),
    decreases n,
{
    if n >= 10 {
        push_decimal(out, n / 10);
    }
    out.append(digit_text(n % 10));
    proof {
        assert(final(out)@ =~= old(out)@ + decimal(n as nat));
    }
}

impl Error {
    /// The answer for a poll that is not stored. `stop` ends the text with a
    /// full stop.
    pub fn not_found(id: u64, stop: bool) -> (e: Error)
        ensures
            e matches Error::NotFound { msg } && msg@ == not_found_text(id, stop),
    {
        let mut msg = String::from_str("Poll with id=");
        push_decimal(&mut msg, id);
        msg.append(" not found");
        if stop {
            msg.append(".");
        }
        Error::NotFound { msg }
    }

    /// The answer for a ballot that cannot be counted.
    pub fn invalid_vote() -> (e: Error)
        ensures
            e matches Error::InvalidVote { msg } && msg@ == invalid_vote_text(),
    {
        Error::InvalidVote { msg: String::from_str("Invalid option index") }
    }

    /// The text the answer carries.
    pub fn message(&self) -> (s: &String)
        ensures
            s == (match *self {
                Error::NotFound { msg } => msg,
                Error::InvalidVote { msg } => msg,
            }),
    {
        match self {
            Error::NotFound { msg } => msg,
            Error::InvalidVote { msg } => msg,
        }
    }
}

} // verus!
