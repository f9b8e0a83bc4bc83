//! The store and its operations.
//!
//! A store owns a durable counter and a durable map. The counter holds the
//! identifier the next poll gets; the map keeps each poll's encoding under
//! the poll's identifier. An operation either does what was asked or leaves
//! the store exactly as it was.
//!
//! Each operation makes its calls into the storage first and hands what came
//! back to a function that does the rest: `found_under`, `answer_found`,
//! `vote_found`, `delete_found`, `file_created`. Those say what is returned
//! for every outcome of the storage.

use crate::backing::{
    cell_get, cell_set, cell_value, map_entries, map_get, map_insert, map_remove, IdCell,
    RecordMap, MAX_RECORD_SIZE,
};
use crate::codec::{accept, accepted, candid_decode};
use crate::error::{invalid_vote_text, not_found_text, Error, Fault};
use crate::model::{self, under, Answer, StoreView};
use crate::poll::{texts, Poll, PollPayload, PollView};
use vstd::prelude::*;

verus! {

/// The region that holds the counter.
pub const COUNTER_REGION: u8 = 0;

/// The region that holds the map.
pub const RECORDS_REGION: u8 = 1;

/// A durable store of polls.
pub struct PollStore {
    counter: IdCell,
    records: RecordMap,
}

impl View for PollStore {
    type V = StoreView;

    closed spec fn view(&self) -> StoreView {
        StoreView { next_id: cell_value(self.counter), records: map_entries(self.records) }
    }
}

/// The value of what a decoder returned.
pub open spec fn decoded_view(decoded: Option<Poll>) -> Option<PollView> {
    match decoded {
        Some(poll) => Some(poll@),
        None => None,
    }
}

/// The value of what a read returned.
pub open spec fn found_view(found: Result<Option<Poll>, Fault>) -> Result<Option<PollView>, Fault> {
    match found {
        Ok(Some(poll)) => Ok(Some(poll@)),
        Ok(None) => Ok(None),
        Err(fault) => Err(fault),
    }
}

/// Whether what an operation returned is the answer `answer`. A missing poll
/// is reported with the identifier asked for, `id`; `stop` says whether that
/// text ends with a full stop.
pub open spec fn answers(
    r: Result<Result<Poll, Error>, Fault>,
    answer: Answer,
    id: u64,
    stop: bool,
) -> bool {
    match answer {
        Answer::Found(poll) => r matches Ok(Ok(found)) && found@ == poll,
        Answer::NotFound => r matches Ok(Err(Error::NotFound { msg })) && msg@ == not_found_text(
            id,
            stop,
        ),
        Answer::InvalidVote => r matches Ok(Err(Error::InvalidVote { msg })) && msg@
            == invalid_vote_text(),
        Answer::Failed(fault) => r matches Err(failed) && failed == fault,
    }
}

/// Whether the decoder had room, going by what an operation returned: only
/// the fault `Undecodable` says it may not have had.
pub open spec fn was_readable<T>(r: Result<T, Fault>) -> bool {
    !(r matches Err(Fault::Undecodable))
}

/// What a failed write of the counter is reported as.
pub fn written(outcome: Result<u64, ic_stable_structures::cell::ValueError>) -> (r: Result<
    u64,
    Fault,
>)
    ensures
        outcome matches Ok(before) ==> r == Ok::<u64, Fault>(before),
        outcome is Err ==> r == Err::<u64, Fault>(Fault::CounterWrite),
{
    match outcome {
        Ok(before) => Ok(before),
        Err(_) => Err(Fault::CounterWrite),
    }
}

/// What the decoder's result for the bytes under `id` counts as: a poll with
/// a counter for every option and with that identifier, or a fault.
pub fn found_under(id: u64, decoded: Option<Poll>) -> (r: Result<Option<Poll>, Fault>)
    ensures
        found_view(r) == under(id, accepted(decoded_view(decoded))),
        r matches Ok(Some(poll)) ==> decoded == Some(poll) && poll.well_formed() && poll.id == id,
{
    match accept(decoded) {
        Err(fault) => Err(fault),
        Ok(poll) => if poll.id == id {
            Ok(Some(poll))
        } else {
            Err(Fault::CorruptRecord)
        },
    }
}

/// The answer to a point read of `id`, given what was found there.
pub fn answer_found(found: Result<Option<Poll>, Fault>, id: u64) -> (r: Result<
    Result<Poll, Error>,
    Fault,
>)
    ensures
        answers(r, model::answer_found(found_view(found)), id, false),
        r matches Ok(Ok(poll)) ==> found == Ok::<Option<Poll>, Fault>(Some(poll)),
{
    match found {
        Err(fault) => Err(fault),
        Ok(Some(poll)) => Ok(Ok(poll)),
        Ok(None) => Ok(Err(Error::not_found(id, false))),
    }
}

/// Counts one ballot for option `option_index`, cast at time `now`, on the
/// poll that was found under `poll_id`, and stores the poll again.
pub fn vote_found(
    store: &mut PollStore,
    found: Result<Option<Poll>, Fault>,
    poll_id: u64,
    option_index: usize,
    now: u64,
) -> (r: Result<Result<Poll, Error>, Fault>)
    ensures
        final(store)@ == old(store)@.vote_found(found_view(found), option_index as int, now).0,
        answers(
            r,
            old(store)@.vote_found(found_view(found), option_index as int, now).1,
            poll_id,
            false,
        ),
        r matches Ok(Ok(poll)) ==> (found matches Ok(Some(before)) && (poll.id == before.id && (
        before.well_formed() ==> poll.well_formed()))),
{
    match found {
        Err(fault) => Err(fault),
        Ok(None) => Ok(Err(Error::not_found(poll_id, false))),
        Ok(Some(poll)) => {
            let mut poll = poll;
            if !poll.has_option(option_index) {
                Ok(Err(Error::invalid_vote()))
            } else if !poll.accepts(option_index) {
                Err(Fault::CounterFull)
            } else {
                poll.cast_vote(option_index, now);
                match do_insert(store, &poll) {
                    Ok(()) => Ok(Ok(poll)),
                    Err(fault) => Err(fault),
                }
            }
        },
    }
}

/// Takes the poll that was found under `id` out of the store and hands it
/// back.
pub fn delete_found(store: &mut PollStore, found: Result<Option<Poll>, Fault>, id: u64) -> (r:
    Result<Result<Poll, Error>, Fault>)
    ensures
        final(store)@ == old(store)@.delete_found(found_view(found), id).0,
        answers(r, old(store)@.delete_found(found_view(found), id).1, id, true),
        r matches Ok(Ok(poll)) ==> found == Ok::<Option<Poll>, Fault>(Some(poll)),
{
    match found {
        Err(fault) => Err(fault),
        Ok(None) => Ok(Err(Error::not_found(id, true))),
        Ok(Some(poll)) => {
            let _ = map_remove(&mut store.records, id);
            Ok(Ok(poll))
        },
    }
}

/// Files a new poll once its identifier has been allocated: keeps `bytes`
/// under the poll's identifier and hands the poll back. Where the
/// allocation failed, nothing is filed.
pub fn file_created(
    store: &mut PollStore,
    poll: Poll,
    bytes: Vec<u8>,
    allocated: Result<u64, Fault>,
) -> (r: Result<Poll, Fault>)
    requires
        bytes@.len() <= MAX_RECORD_SIZE,
    ensures
        allocated is Ok ==> r == Ok::<Poll, Fault>(poll) && final(store)@ == old(
            store,
        )@.with_record(poll.id, bytes@),
        allocated matches Err(fault) ==> r == Err::<Poll, Fault>(fault) && final(store)@ == old(
            store,
        )@,
{
    match allocated {
        Err(fault) => Err(fault),
        Ok(_) => {
            let _ = map_insert(&mut store.records, poll.id, &bytes);
            Ok(poll)
        },
    }
}

impl PollStore {
    /// The store made of a counter and a map. The counter belongs in region
    /// `COUNTER_REGION` and starts at zero; the map belongs in region
    /// `RECORDS_REGION`.
    pub fn new(counter: IdCell, records: RecordMap) -> (store: PollStore)
        ensures
            store@ == (StoreView { next_id: cell_value(counter), records: map_entries(records) }),
    {
        PollStore { counter, records }
    }

    /// The identifier the next poll gets.
    pub fn current(&self) -> (id: u64)
        ensures
            id == self@.next_id,
    {
        cell_get(&self.counter)
    }

    /// Hands out the next identifier and advances the counter by one. Where
    /// that fails, no identifier is handed out and the counter stays.
    pub fn allocate_next(&mut self) -> (r: Result<u64, Fault>)
        ensures
            r matches Ok(id) ==> id == old(self)@.next_id && id < u64::MAX && final(self)@
                == old(self)@.advanced(),
            r matches Err(fault) ==> final(self)@ == old(self)@ && (fault == Fault::IdsExhausted
                || fault == Fault::CounterWrite),
            r matches Err(Fault::IdsExhausted) <==> old(self)@.next_id == u64::MAX,
    {
        let id = cell_get(&self.counter);
        if id == u64::MAX {
            return Err(Fault::IdsExhausted);
        }
        written(cell_set(&mut self.counter, id + 1))
    }
}

/// The poll stored under `id`, if any.
pub fn _get_poll(store: &PollStore, id: &u64) -> (r: Result<Option<Poll>, Fault>)
    ensures
        found_view(r) == store@.lookup(*id, was_readable(r)),
        r matches Ok(Some(poll)) ==> poll.well_formed() && poll.id == *id,
{
    match map_get(&store.records, *id) {
        None => Ok(None),
        Some(bytes) => found_under(*id, candid_decode(bytes.as_slice())),
    }
}

/// Stores `poll` under its identifier, over whatever was stored there.
pub fn do_insert(store: &mut PollStore, poll: &Poll) -> (r: Result<(), Fault>)
    ensures
        r is Ok ==> old(store)@.put(poll@) == Ok::<StoreView, Fault>(final(store)@),
        r matches Err(fault) ==> old(store)@.put(poll@) == Err::<StoreView, Fault>(fault)
            && final(store)@ == old(store)@,
{
    match poll.to_stored() {
        Err(fault) => Err(fault),
        Ok(bytes) => {
            let _ = map_insert(&mut store.records, poll.id, &bytes);
            Ok(())
        },
    }
}

/// The poll stored under `id`.
pub fn get_poll(store: &PollStore, id: u64) -> (r: Result<Result<Poll, Error>, Fault>)
    ensures
        answers(r, store@.get(id, was_readable(r)), id, false),
        r matches Ok(Ok(poll)) ==> poll.well_formed() && poll.id == id,
{
    answer_found(_get_poll(store, &id), id)
}

/// Creates the poll that `payload` asks for, at time `now`: it gets the next
/// identifier and every counter at zero.
pub fn create_poll(store: &mut PollStore, payload: PollPayload, now: u64) -> (r: Result<
    Poll,
    Fault,
>)
    ensures
        r matches Ok(poll) ==> old(store)@.create(
            payload.question@,
            texts(payload.options@),
            now,
            true,
        ) == (final(store)@, Answer::Found(poll@)),
        r matches Err(fault) ==> final(store)@ == old(store)@ && old(store)@.create(
            payload.question@,
            texts(payload.options@),
            now,
            fault != Fault::CounterWrite,
        ).1 == Answer::Failed(fault),
        r matches Ok(poll) ==> poll.well_formed() && poll.id == old(store)@.next_id,
{
    let id = store.current();
    if id == u64::MAX {
        return Err(Fault::IdsExhausted);
    }
    let poll = Poll::create(id, &payload, now);
    let bytes = match poll.to_stored() {
        Ok(bytes) => bytes,
        Err(fault) => return Err(fault),
    };
    let allocated = store.allocate_next();
    file_created(store, poll, bytes, allocated)
}

/// Counts one ballot for option `option_index` of the poll under `poll_id`,
/// cast at time `now`.
pub fn vote(store: &mut PollStore, poll_id: u64, option_index: usize, now: u64) -> (r: Result<
    Result<Poll, Error>,
    Fault,
>)
    ensures
        final(store)@ == old(store)@.vote(poll_id, option_index as int, now, was_readable(r)).0,
        answers(
            r,
            old(store)@.vote(poll_id, option_index as int, now, was_readable(r)).1,
            poll_id,
            false,
        ),
        r matches Ok(Ok(poll)) ==> poll.well_formed() && poll.id == poll_id,
{
    let found = _get_poll(store, &poll_id);
    vote_found(store, found, poll_id, option_index, now)
}

/// Removes the poll under `id` for good and hands it back.
pub fn delete_poll(store: &mut PollStore, id: u64) -> (r: Result<Result<Poll, Error>, Fault>)
    ensures
        final(store)@ == old(store)@.delete(id, was_readable(r)).0,
        answers(r, old(store)@.delete(id, was_readable(r)).1, id, true),
        r matches Ok(Ok(poll)) ==> poll.well_formed() && poll.id == id,
{
    let found = _get_poll(store, &id);
    delete_found(store, found, id)
}

} // verus!
