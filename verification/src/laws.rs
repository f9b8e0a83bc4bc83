//! What holds of every store, whatever is asked of it.

use crate::codec::faithful;
use crate::error::Fault;
use crate::model::{Answer, Request, StoreView};
use crate::poll::PollView;
use vstd::prelude::*;

verus! {

/// The identifiers a run of requests hands out, in the order they are handed
/// out: one for each request to create a poll that is answered with a poll.
pub open spec fn created_ids(start: StoreView, requests: Seq<Request>) -> Seq<u64>
    decreases requests.len(),
{
    if requests.len() == 0 {
        Seq::empty()
    } else {
        let earlier = created_ids(start, requests.drop_last());
        match (requests.last(), start.last_answer(requests)) {
            (Request::Create { .. }, Answer::Found(poll)) => earlier.push(poll.id),
            _ => earlier,
        }
    }
}

/// No request lowers the counter, and only a poll that was created raises it.
pub proof fn law_counter_never_falls(state: StoreView, request: Request)
    ensures
        state.next_id <= state.step(request).0.next_id,
        state.step(request).0.next_id != state.next_id ==> request is Create && state.step(
            request,
        ).1 is Found,
{
}

/// A poll that is created gets the identifier the counter held, and the
/// counter then holds the next one.
pub proof fn law_created_id(
    state: StoreView,
    question: Seq<char>,
    options: Seq<Seq<char>>,
    now: u64,
    written: bool,
)
    ensures
        state.create(question, options, now, written).1 matches Answer::Found(poll) ==> poll.id
            == state.next_id && state.create(question, options, now, written).0.next_id
            == poll.id + 1,
{
}

/// Over any run of requests, whatever is created, voted on or deleted in
/// between, the identifiers handed out are strictly increasing, so none is
/// handed out twice. All of them lie between the counter before the run and
/// the counter after it.
pub proof fn law_ids_strictly_increase(start: StoreView, requests: Seq<Request>)
    ensures
        start.next_id <= start.run(requests).next_id,
        forall|i: int|
            0 <= i < created_ids(start, requests).len() ==> start.next_id <= #[trigger] created_ids(
                start,
                requests,
            )[i] < start.run(requests).next_id,
        forall|i: int, j: int|
            0 <= i < j < created_ids(start, requests).len() ==> created_ids(start, requests)[i]
                < created_ids(start, requests)[j],
    decreases requests.len(),
{
    let ids = created_ids(start, requests);
    if requests.len() > 0 {
        let earlier = requests.drop_last();
        let before = start.run(earlier);
        let prior = created_ids(start, earlier);
        law_ids_strictly_increase(start, earlier);
        law_counter_never_falls(before, requests.last());
        assert(start.run(requests) == before.step(requests.last()).0);
        match (requests.last(), start.last_answer(requests)) {
            (Request::Create { question, options, now, written }, Answer::Found(poll)) => {
                law_created_id(before, question, options, now, written);
                assert(ids == prior.push(poll.id));
                assert forall|i: int| 0 <= i < ids.len() implies start.next_id <= #[trigger] ids[i]
                    < start.run(requests).next_id by {
                    if i < prior.len() {
                        assert(ids[i] == prior[i]);
                    }
                }
                assert forall|i: int, j: int| 0 <= i < j < ids.len() implies ids[i] < ids[j] by {
                    assert(ids[i] == prior[i]);
                    if j < prior.len() {
                        assert(ids[j] == prior[j]);
                    }
                }
            },
            _ => {
                assert(ids == prior);
            },
        }
    } else {
        assert(ids.len() == 0);
    }
}

/// Every poll a store answers with has exactly one counter for each option.
pub proof fn law_one_counter_per_option(state: StoreView, request: Request)
    ensures
        state.step(request).1 matches Answer::Found(poll) ==> poll.votes.len()
            == poll.options.len(),
{
}

/// A ballot that is counted raises the counter of its option by one, leaves
/// every other counter and every other field alone, and records when it was
/// cast.
pub proof fn law_vote_counts_once(
    state: StoreView,
    id: u64,
    index: int,
    now: u64,
    readable: bool,
)
    requires
        state.vote(id, index, now, readable).1 is Found,
    ensures
        state.lookup(id, readable) matches Ok(Some(before)) && state.vote(
            id,
            index,
            now,
            readable,
        ).1 matches Answer::Found(after) && {
            &&& 0 <= index < before.options.len()
            &&& after.votes.len() == before.votes.len()
            &&& after.votes[index] == before.votes[index] + 1
            &&& forall|k: int|
                0 <= k < before.votes.len() && k != index ==> after.votes[k] == before.votes[k]
            &&& after.updated_at == Some(now)
            &&& after.id == before.id
            &&& after.question == before.question
            &&& after.options == before.options
            &&& after.created_at == before.created_at
        },
{
}

/// A ballot is refused as invalid exactly when the poll is read and has no
/// such option, and the store then stays as it was.
pub proof fn law_vote_out_of_bounds(
    state: StoreView,
    id: u64,
    index: int,
    now: u64,
    readable: bool,
)
    ensures
        state.vote(id, index, now, readable).1 is InvalidVote <==> (state.lookup(
            id,
            readable,
        ) matches Ok(Some(poll)) && !(0 <= index < poll.options.len())),
        state.vote(id, index, now, readable).1 is InvalidVote ==> state.vote(
            id,
            index,
            now,
            readable,
        ).0 == state,
{
}

/// A request that is not answered with a poll leaves the store as it was.
pub proof fn law_refusal_changes_nothing(state: StoreView, request: Request)
    ensures
        !(state.step(request).1 is Found) ==> state.step(request).0 == state,
{
}

/// A poll that was created reads back as it was created: under the
/// identifier it was given, with the question and options asked for, every
/// counter at zero and no time of a last vote. This is stated of polls that
/// survive being stored, which `Poll::survives` tries, and of a read that
/// the decoder has room for.
pub proof fn law_created_poll_reads_back(
    state: StoreView,
    question: Seq<char>,
    options: Seq<Seq<char>>,
    now: u64,
    written: bool,
)
    requires
        state.create(question, options, now, written).1 is Found,
        faithful(PollView::fresh(state.next_id, question, options, now)),
    ensures
        state.create(question, options, now, written).0.get(state.next_id, true) == Answer::Found(
            PollView::fresh(state.next_id, question, options, now),
        ),
        PollView::fresh(state.next_id, question, options, now).question == question,
        PollView::fresh(state.next_id, question, options, now).options == options,
        PollView::fresh(state.next_id, question, options, now).votes.len() == options.len(),
        forall|k: int|
            0 <= k < options.len() ==> (#[trigger] PollView::fresh(
                state.next_id,
                question,
                options,
                now,
            ).votes[k]) == 0,
        PollView::fresh(state.next_id, question, options, now).updated_at is None,
{
}

/// A poll that was voted on reads back with the ballot counted. This is
/// stated of polls that survive being stored, which `Poll::survives` tries,
/// and of a read that the decoder has room for.
pub proof fn law_voted_poll_reads_back(
    state: StoreView,
    id: u64,
    index: int,
    now: u64,
    readable: bool,
)
    requires
        state.vote(id, index, now, readable).1 matches Answer::Found(after) && faithful(after),
    ensures
        state.vote(id, index, now, readable).0.get(id, true) == state.vote(
            id,
            index,
            now,
            readable,
        ).1,
{
}

/// Once a poll is deleted it is gone: reading it, deleting it again and
/// voting on it are all answered with "not found", whether or not the
/// decoder has room, and none of them changes the store.
pub proof fn law_deletion_is_final(
    state: StoreView,
    id: u64,
    index: int,
    now: u64,
    readable: bool,
    later: bool,
)
    requires
        state.delete(id, readable).1 is Found,
    ensures
        state.delete(id, readable).0.get(id, later) == Answer::NotFound,
        state.delete(id, readable).0.delete(id, later) == (
            state.delete(id, readable).0,
            Answer::NotFound,
        ),
        state.delete(id, readable).0.vote(id, index, now, later) == (
            state.delete(id, readable).0,
            Answer::NotFound,
        ),
{
}

/// Deleting a poll takes away that poll and nothing else.
pub proof fn law_deletion_spares_others(
    state: StoreView,
    id: u64,
    other: u64,
    readable: bool,
    later: bool,
)
    requires
        other != id,
    ensures
        state.delete(id, readable).0.get(other, later) == state.get(other, later),
        state.delete(id, readable).0.next_id == state.next_id,
{
}

/// Reading changes nothing. So two reads with nothing written in between
/// give the same answer, unless the decoder lacks room for one of them: that
/// read is then answered with the fault `Undecodable`, and a record is there.
pub proof fn law_read_is_idempotent(state: StoreView, id: u64, first: bool, second: bool)
    ensures
        state.step(Request::Get { id, readable: first }).0 == state,
        state.step(Request::Get { id, readable: first }).1 == state.get(id, first),
        first == second ==> state.get(id, first) == state.get(id, second),
        state.get(id, first) == state.get(id, second) || state.get(id, first) == Answer::Failed(
            Fault::Undecodable,
        ) || state.get(id, second) == Answer::Failed(Fault::Undecodable),
        state.get(id, first) is Found && state.get(id, second) is Found ==> state.get(id, first)
            == state.get(id, second),
        state.get(id, first) != state.get(id, second) ==> state.records.contains_key(id),
{
}

} // verus!
