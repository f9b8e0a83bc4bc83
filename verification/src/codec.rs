//! How a poll is turned into the bytes that are stored, and back.
//!
//! The bytes are the Candid encoding of the poll's six fields, in the order
//! they are declared, as one record. Candid does the encoding and decoding;
//! this file only names what Candid returns and then checks it: a record may
//! not be longer than `MAX_RECORD_SIZE`, and bytes only count as a poll when
//! they decode to one with a counter for every option.
//!
//! Encoding depends on the poll alone. Decoding does not depend on the bytes
//! alone: the decoder gives up where it is short of stack. So a decoder that
//! gives nothing says nothing about the bytes, and reading is described with
//! a flag, `readable`, that stands for whether the decoder had room.

use crate::backing::MAX_RECORD_SIZE;
use crate::error::Fault;
use crate::poll::{Poll, PollView};
use vstd::prelude::*;

verus! {

/// The Candid encoding of a poll's fields; `None` where Candid has none.
pub uninterp spec fn candid_encoding(poll: PollView) -> Option<Seq<u8>>;

/// The fields that bytes decode to as a Candid record of a poll, where the
/// decoder is given room; `None` where they are no such record.
pub uninterp spec fn candid_decoding(bytes: Seq<u8>) -> Option<PollView>;

/// `candid::encode_one` on the tuple of the poll's fields, its error dropped.
/// The result depends on the fields alone and is named `candid_encoding`;
/// nothing more is claimed of it.
#[verifier::external_body]
pub(crate) fn candid_encode(poll: &Poll) -> (r: Option<Vec<u8>>)
    ensures
        r matches Some(bytes) ==> candid_encoding(poll@) == Some(bytes@),
        r is None ==> candid_encoding(poll@) is None,
{
    candid::encode_one(
        (
            poll.id,
            &poll.question,
            &poll.options,
            &poll.votes,
            poll.created_at,
            poll.updated_at,
        ),
    ).ok()
}

/// `candid::decode_one` at the type of the tuple of a poll's fields, its
/// error dropped. What it decodes is named `candid_decoding`. Nothing is
/// claimed where it decodes nothing, since it also gives up for want of
/// stack; and nothing is claimed of what it decodes, in particular not that
/// the poll has as many counters as options.
#[verifier::external_body]
pub(crate) fn candid_decode(bytes: &[u8]) -> (r: Option<Poll>)
    ensures
        r matches Some(poll) ==> candid_decoding(bytes@) == Some(poll@),
{
    let (id, question, options, votes, created_at, updated_at) = candid::decode_one(bytes).ok()?;
    Some(Poll { id, question, options, votes, created_at, updated_at })
}

/// What encoding gives for a poll: its bytes, or the fault that it has none.
pub open spec fn encoded(poll: PollView) -> Result<Seq<u8>, Fault> {
    match candid_encoding(poll) {
        Some(bytes) => Ok(bytes),
        None => Err(Fault::Unencodable),
    }
}

/// Bytes as they may be stored: unchanged, or refused as too long.
pub open spec fn bounded(bytes: Seq<u8>) -> Result<Seq<u8>, Fault> {
    if bytes.len() <= MAX_RECORD_SIZE {
        Ok(bytes)
    } else {
        Err(Fault::RecordTooLarge)
    }
}

/// What is stored for a poll: its encoding where that is short enough.
pub open spec fn stored_form(poll: PollView) -> Result<Seq<u8>, Fault> {
    match encoded(poll) {
        Ok(bytes) => bounded(bytes),
        Err(fault) => Err(fault),
    }
}

/// What a decoder's result counts as: nothing decoded is a fault, and so is
/// a poll without exactly one counter for every option.
pub open spec fn accepted(decoded: Option<PollView>) -> Result<PollView, Fault> {
    match decoded {
        None => Err(Fault::Undecodable),
        Some(poll) => if poll.well_formed() {
            Ok(poll)
        } else {
            Err(Fault::CorruptRecord)
        },
    }
}

/// The poll that bytes stand for. Without room for the decoder nothing is
/// read.
pub open spec fn read_form(bytes: Seq<u8>, readable: bool) -> Result<PollView, Fault> {
    if readable {
        accepted(candid_decoding(bytes))
    } else {
        Err(Fault::Undecodable)
    }
}

/// Whether a poll survives being stored: it has a stored form, and that form
/// reads as the same poll.
pub open spec fn faithful(poll: PollView) -> bool {
    stored_form(poll) matches Ok(bytes) && read_form(bytes, true) == Ok::<PollView, Fault>(poll)
}

/// Refuses bytes that are too long to be stored.
pub fn check_size(bytes: Vec<u8>) -> (r: Result<Vec<u8>, Fault>)
    ensures
        r matches Ok(kept) ==> kept@ == bytes@ && bounded(bytes@) == Ok::<Seq<u8>, Fault>(bytes@),
        r matches Err(fault) ==> bounded(bytes@) == Err::<Seq<u8>, Fault>(fault),
{
    if bytes.len() <= MAX_RECORD_SIZE {
        Ok(bytes)
    } else {
        Err(Fault::RecordTooLarge)
    }
}

/// What a decoder's result counts as: see `accepted`.
pub fn accept(decoded: Option<Poll>) -> (r: Result<Poll, Fault>)
    ensures
        r matches Ok(poll) ==> decoded == Some(poll) && poll.well_formed(),
        r matches Ok(poll) ==> accepted(Some(poll@)) == Ok::<PollView, Fault>(poll@),
        r matches Err(fault) ==> (match decoded {
            Some(poll) => accepted(Some(poll@)),
            None => accepted(None),
        }) == Err::<PollView, Fault>(fault),
{
    match decoded {
        None => Err(Fault::Undecodable),
        Some(poll) => {
            proof {
                assert(poll@.options.len() == poll.options@.len());
            }
            if poll.votes.len() == poll.options.len() {
                Ok(poll)
            } else {
                Err(Fault::CorruptRecord)
            }
        },
    }
}

impl Poll {
    /// The encoding of the poll.
    pub fn to_bytes(&self) -> (r: Result<Vec<u8>, Fault>)
        ensures
            r matches Ok(bytes) ==> encoded(self@) == Ok::<Seq<u8>, Fault>(bytes@),
            r matches Err(fault) ==> encoded(self@) == Err::<Seq<u8>, Fault>(fault),
    {
        match candid_encode(self) {
            Some(bytes) => Ok(bytes),
            None => Err(Fault::Unencodable),
        }
    }

    /// The poll that `bytes` stand for. Where the decoder makes nothing of
    /// them the answer is `Undecodable`, whatever the bytes are.
    pub fn from_bytes(bytes: &[u8]) -> (r: Result<Poll, Fault>)
        ensures
            r matches Ok(poll) ==> read_form(bytes@, true) == Ok::<PollView, Fault>(poll@)
                && poll.well_formed(),
            r matches Err(fault) ==> read_form(bytes@, fault != Fault::Undecodable) == Err::<
                PollView,
                Fault,
            >(fault),
    {
        accept(candid_decode(bytes))
    }

    /// The bytes to store for the poll: its encoding, where it has one that
    /// is short enough.
    pub fn to_stored(&self) -> (r: Result<Vec<u8>, Fault>)
        ensures
            r matches Ok(bytes) ==> stored_form(self@) == Ok::<Seq<u8>, Fault>(bytes@)
                && bytes@.len() <= MAX_RECORD_SIZE,
            r matches Err(fault) ==> stored_form(self@) == Err::<Seq<u8>, Fault>(fault),
    {
        match self.to_bytes() {
            Ok(bytes) => check_size(bytes),
            Err(fault) => Err(fault),
        }
    }

    /// Tries whether the poll survives being stored: encodes it, decodes the
    /// bytes and compares. A poll that passes is faithful; one that does not
    /// pass may only have met a decoder without room.
    pub fn survives(&self) -> (ok: bool)
        ensures
            ok ==> faithful(self@),
    {
        match self.to_stored() {
            Err(_) => false,
            Ok(bytes) => match Poll::from_bytes(bytes.as_slice()) {
                Err(_) => false,
                Ok(back) => back.same(self),
            },
        }
    }
}

} // verus!
