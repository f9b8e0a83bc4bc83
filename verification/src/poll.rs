//! The poll record, what a caller supplies to make one, and the rule for
//! counting a ballot.

use vstd::prelude::*;

verus! {

/// A poll: a question, its options in order, and one counter per option.
#[derive(Clone, Debug, Default)]
pub struct Poll {
    pub id: u64,
    pub question: String,
    pub options: Vec<String>,
    pub votes: Vec<u64>,
    pub created_at: u64,
    pub updated_at: Option<u64>,
}

/// What a caller supplies to create a poll.
#[derive(Clone, Debug, Default)]
pub struct PollPayload {
    pub question: String,
    pub options: Vec<String>,
}

/// The mathematical value of a poll.
pub struct PollView {
    pub id: u64,
    pub question: Seq<char>,
    pub options: Seq<Seq<char>>,
    pub votes: Seq<u64>,
    pub created_at: u64,
    pub updated_at: Option<u64>,
}

/// The texts of a list of strings, in order.
pub open spec fn texts(items: Seq<String>) -> Seq<Seq<char>> {
    Seq::new(items.len(), |i: int| items[i]@)
}

impl View for Poll {
    type V = PollView;

    open spec fn view(&self) -> PollView {
        PollView {
            id: self.id,
            question: self.question@,
            options: texts(self.options@),
            votes: self.votes@,
            created_at: self.created_at,
            updated_at: self.updated_at,
        }
    }
}

impl PollView {
    /// Every option has exactly one counter.
    pub open spec fn well_formed(self) -> bool {
        self.votes.len() == self.options.len()
    }

    /// The poll as it is first stored: every counter at zero, never voted on.
    pub open spec fn fresh(
        id: u64,
        question: Seq<char>,
        options: Seq<Seq<char>>,
        now: u64,
    ) -> PollView {
        PollView {
            id,
            question,
            options,
            votes: Seq::new(options.len(), |i: int| 0u64),
            created_at: now,
            updated_at: None,
        }
    }

    /// Whether the poll has an option `index`.
    pub open spec fn has_option(self, index: int) -> bool {
        0 <= index < self.options.len()
    }

    /// Whether a ballot for option `index` can be counted: the option exists
    /// and its counter has room for one more.
    pub open spec fn accepts(self, index: int) -> bool {
        self.has_option(index) && index < self.votes.len() && self.votes[index] < u64::MAX
    }

    /// The poll after one ballot for option `index`, cast at time `now`.
    pub open spec fn with_vote(self, index: int, now: u64) -> PollView {
        PollView {
            votes: self.votes.update(index, (self.votes[index] + 1) as u64),
            updated_at: Some(now),
            ..self
        }
    }
}

/// A copy of a list of strings.
pub fn copy_texts(items: &Vec<String>) -> (out: Vec<String>)
    ensures
        out@ == items@,
{
    let mut out: Vec<String> = Vec::new();
    let mut i: usize = 0;
    while i < items.len()
        invariant
            i <= items.len(),
            out@ == items@.subrange(0, i as int),
        decreases items.len() - i,
    {
        out.push(items[i].clone());
        proof {
            assert(out@ =~= items@.subrange(0, i + 1));
        }
        i += 1;
    }
    proof {
        assert(items@.subrange(0, i as int) =~= items@);
    }
    out
}

/// `count` counters, all at zero.
pub fn zero_votes(count: usize) -> (out: Vec<u64>)
    ensures
        out@ == Seq::new(count as nat, |i: int| 0u64),
{
    let mut out: Vec<u64> = Vec::new();
    let mut i: usize = 0;
    while i < count
        invariant
            i <= count,
            out@ == Seq::new(i as nat, |k: int| 0u64),
        decreases count - i,
    {
        out.push(0);
        proof {
            assert(out@ =~= Seq::new((i + 1) as nat, |k: int| 0u64));
        }
        i += 1;
    }
    out
}

/// Whether two lists of strings hold the same texts in the same order.
pub fn same_texts(a: &Vec<String>, b: &Vec<String>) -> (eq: bool)
    ensures
        eq == (texts(a@) == texts(b@)),
{
    if a.len() != b.len() {
        proof {
            assert(texts(a@).len() != texts(b@).len());
        }
        return false;
    }
    let mut i: usize = 0;
    while i < a.len()
        invariant
            i <= a.len(),
            a.len() == b.len(),
            forall|k: int| 0 <= k < i ==> a@[k]@ == b@[k]@,
        decreases a.len() - i,
    {
        if !(a[i] == b[i]) {
            proof {
                assert(texts(a@)[i as int] != texts(b@)[i as int]);
            }
            return false;
        }
        i += 1;
    }
    proof {
        assert(texts(a@) =~= texts(b@));
    }
    true
}

/// Whether two lists of counters are equal.
pub fn same_votes(a: &Vec<u64>, b: &Vec<u64>) -> (eq: bool)
    ensures
        eq == (a@ == b@),
{
    if a.len() != b.len() {
        proof {
            assert(a@.len() != b@.len());
        }
        return false;
    }
    let mut i: usize = 0;
    while i < a.len()
        invariant
            i <= a.len(),
            a.len() == b.len(),
            forall|k: int| 0 <= k < i ==> a@[k] == b@[k],
        decreases a.len() - i,
    {
        if a[i] != b[i] {
            proof {
                assert(a@[i as int] != b@[i as int]);
            }
            return false;
        }
        i += 1;
    }
    proof {
        assert(a@ =~= b@);
    }
    true
}

/// Whether two optional times are equal.
pub fn same_time(a: Option<u64>, b: Option<u64>) -> (eq: bool)
    ensures
        eq == (a == b),
{
    match (a, b) {
        (Some(x), Some(y)) => x == y,
        (None, None) => true,
        _ => false,
    }
}

impl Poll {
    /// Whether two polls are equal, field by field.
    pub fn same(&self, other: &Poll) -> (eq: bool)
        ensures
            eq == (self@ == other@),
    {
        self.id == other.id && self.question == other.question && same_texts(
            &self.options,
            &other.options,
        ) && same_votes(&self.votes, &other.votes) && self.created_at == other.created_at
            && same_time(self.updated_at, other.updated_at)
    }

    /// Every option has exactly one counter.
    pub open spec fn well_formed(&self) -> bool {
        self@.well_formed()
    }

    /// The poll that `payload` asks for, under identifier `id`, created at
    /// time `now`.
    pub fn create(id: u64, payload: &PollPayload, now: u64) -> (poll: Poll)
        ensures
            poll@ == PollView::fresh(id, payload.question@, texts(payload.options@), now),
            poll.well_formed(),
    {
        let options = copy_texts(&payload.options);
        let votes = zero_votes(options.len());
        let poll = Poll {
            id,
            question: payload.question.clone(),
            options,
            votes,
            created_at: now,
            updated_at: None,
        };
        proof {
            assert(texts(payload.options@).len() == payload.options@.len());
            assert(poll@.votes =~= PollView::fresh(
                id,
                payload.question@,
                texts(payload.options@),
                now,
            ).votes);
        }
        poll
    }

    /// Whether the poll has an option `index`.
    pub fn has_option(&self, index: usize) -> (ok: bool)
        ensures
            ok == self@.has_option(index as int),
    {
        proof {
            assert(texts(self.options@).len() == self.options@.len());
        }
        index < self.options.len()
    }

    /// Whether a ballot for option `index` can be counted.
    pub fn accepts(&self, index: usize) -> (ok: bool)
        ensures
            ok == self@.accepts(index as int),
    {
        proof {
            assert(texts(self.options@).len() == self.options@.len());
        }
        index < self.options.len() && index < self.votes.len() && self.votes[index] < u64::MAX
    }

    /// Counts one ballot for option `index`, cast at time `now`.
    pub fn cast_vote(&mut self, index: usize, now: u64)
        requires
            old(self)@.accepts(index as int),
        ensures
            final(self)@ == old(self)@.with_vote(index as int, now),
            final(self).options@ == old(self).options@,
            old(self).well_formed() ==> final(self).well_formed(),
    {
        let count = self.votes[index];
        self.votes.set(index, count + 1);
        self.updated_at = Some(now);
    }
}

} // verus!
