//! The store as a mathematical value, and what each operation does to it.
//!
//! A store is the next identifier to hand out and the bytes kept under each
//! identifier. The functions here say, for every state and every request,
//! what the answer is and what the state is afterwards. The executable
//! operations are proved to follow them.
//!
//! Two things are for the storage to decide and not for the store: whether
//! the counter takes a write, and whether the decoder has room to read a
//! record. A request carries a flag for each, and the operations are
//! described for either value of it.

use crate::codec::{read_form, stored_form};
use crate::error::Fault;
use crate::poll::PollView;
use vstd::prelude::*;

verus! {

/// The state of a store.
pub struct StoreView {
    /// The identifier the next poll gets.
    pub next_id: u64,
    /// The stored bytes, by identifier.
    pub records: Map<u64, Seq<u8>>,
}

/// What a request is answered with.
pub enum Answer {
    /// The poll asked for, created, voted on or removed.
    Found(PollView),
    /// No poll is stored under the identifier.
    NotFound,
    /// The ballot cannot be counted.
    InvalidVote,
    /// The storage failed.
    Failed(Fault),
}

/// A request to a store. `written` says whether the counter, once it comes
/// to writing it, takes the write; `readable` says whether the decoder, once
/// it comes to reading a record, has room.
pub enum Request {
    Get { id: u64, readable: bool },
    Create { question: Seq<char>, options: Seq<Seq<char>>, now: u64, written: bool },
    Vote { id: u64, index: int, now: u64, readable: bool },
    Delete { id: u64, readable: bool },
}

/// What a record that was read counts as under identifier `id`: it has to
/// be a poll of that identifier.
pub open spec fn under(id: u64, read: Result<PollView, Fault>) -> Result<Option<PollView>, Fault> {
    match read {
        Ok(poll) => if poll.id == id {
            Ok(Some(poll))
        } else {
            Err(Fault::CorruptRecord)
        },
        Err(fault) => Err(fault),
    }
}

/// The answer to a point read, given what was found.
pub open spec fn answer_found(found: Result<Option<PollView>, Fault>) -> Answer {
    match found {
        Ok(Some(poll)) => Answer::Found(poll),
        Ok(None) => Answer::NotFound,
        Err(fault) => Answer::Failed(fault),
    }
}

impl StoreView {
    /// The state with `bytes` kept under `id`.
    pub open spec fn with_record(self, id: u64, bytes: Seq<u8>) -> StoreView {
        StoreView { records: self.records.insert(id, bytes), ..self }
    }

    /// The state with nothing kept under `id`.
    pub open spec fn without_record(self, id: u64) -> StoreView {
        StoreView { records: self.records.remove(id), ..self }
    }

    /// The state after one more identifier was handed out.
    pub open spec fn advanced(self) -> StoreView {
        StoreView { next_id: (self.next_id + 1) as u64, ..self }
    }

    /// The poll under `id`: none where nothing is kept there, a fault where
    /// what is kept there cannot be read as a poll of that identifier.
    pub open spec fn lookup(self, id: u64, readable: bool) -> Result<Option<PollView>, Fault> {
        if !self.records.contains_key(id) {
            Ok(None)
        } else {
            under(id, read_form(self.records[id], readable))
        }
    }

    /// Storing `poll` under its identifier, over whatever was there.
    pub open spec fn put(self, poll: PollView) -> Result<StoreView, Fault> {
        match stored_form(poll) {
            Ok(bytes) => Ok(self.with_record(poll.id, bytes)),
            Err(fault) => Err(fault),
        }
    }

    /// A point read.
    pub open spec fn get(self, id: u64, readable: bool) -> Answer {
        answer_found(self.lookup(id, readable))
    }

    /// Creating a poll. Nothing changes unless the poll is stored.
    pub open spec fn create(
        self,
        question: Seq<char>,
        options: Seq<Seq<char>>,
        now: u64,
        written: bool,
    ) -> (StoreView, Answer) {
        let poll = PollView::fresh(self.next_id, question, options, now);
        if self.next_id == u64::MAX {
            (self, Answer::Failed(Fault::IdsExhausted))
        } else {
            match stored_form(poll) {
                Err(fault) => (self, Answer::Failed(fault)),
                Ok(bytes) => if written {
                    (self.advanced().with_record(poll.id, bytes), Answer::Found(poll))
                } else {
                    (self, Answer::Failed(Fault::CounterWrite))
                },
            }
        }
    }

    /// Casting a ballot, given what was found under the identifier. Nothing
    /// changes unless the ballot is counted.
    pub open spec fn vote_found(
        self,
        found: Result<Option<PollView>, Fault>,
        index: int,
        now: u64,
    ) -> (StoreView, Answer) {
        match found {
            Err(fault) => (self, Answer::Failed(fault)),
            Ok(None) => (self, Answer::NotFound),
            Ok(Some(poll)) => if !poll.has_option(index) {
                (self, Answer::InvalidVote)
            } else if !poll.accepts(index) {
                (self, Answer::Failed(Fault::CounterFull))
            } else {
                match self.put(poll.with_vote(index, now)) {
                    Ok(after) => (after, Answer::Found(poll.with_vote(index, now))),
                    Err(fault) => (self, Answer::Failed(fault)),
                }
            },
        }
    }

    /// Casting a ballot.
    pub open spec fn vote(self, id: u64, index: int, now: u64, readable: bool) -> (
        StoreView,
        Answer,
    ) {
        self.vote_found(self.lookup(id, readable), index, now)
    }

    /// Removing a poll, given what was found under the identifier. Nothing
    /// changes unless a poll is removed.
    pub open spec fn delete_found(self, found: Result<Option<PollView>, Fault>, id: u64) -> (
        StoreView,
        Answer,
    ) {
        match found {
            Err(fault) => (self, Answer::Failed(fault)),
            Ok(None) => (self, Answer::NotFound),
            Ok(Some(poll)) => (self.without_record(id), Answer::Found(poll)),
        }
    }

    /// Removing a poll.
    pub open spec fn delete(self, id: u64, readable: bool) -> (StoreView, Answer) {
        self.delete_found(self.lookup(id, readable), id)
    }

    /// One request: the state afterwards and the answer.
    pub open spec fn step(self, request: Request) -> (StoreView, Answer) {
        match request {
            Request::Get { id, readable } => (self, self.get(id, readable)),
            Request::Create { question, options, now, written } => self.create(
                question,
                options,
                now,
                written,
            ),
            Request::Vote { id, index, now, readable } => self.vote(id, index, now, readable),
            Request::Delete { id, readable } => self.delete(id, readable),
        }
    }

    /// The state after a run of requests.
    pub open spec fn run(self, requests: Seq<Request>) -> StoreView
        decreases requests.len(),
    {
        if requests.len() == 0 {
            self
        } else {
            self.run(requests.drop_last()).step(requests.last()).0
        }
    }

    /// The answer to the last request of a non-empty run.
    pub open spec fn last_answer(self, requests: Seq<Request>) -> Answer
        recommends
            requests.len() > 0,
    {
        self.run(requests.drop_last()).step(requests.last()).1
    }
}

} // verus!
