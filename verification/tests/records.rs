use ic_stable_structures::memory_manager::{MemoryId, MemoryManager};
use ic_stable_structures::storable::Blob;
use ic_stable_structures::{Cell, DefaultMemoryImpl, StableBTreeMap};
use poll_store::backing::{IdCell, RecordMap, MAX_RECORD_SIZE};
use poll_store::codec::{accept, check_size};
use poll_store::error::{push_decimal, Error, Fault};
use poll_store::poll::{copy_texts, same_texts, same_time, same_votes, zero_votes, Poll, PollPayload};
use poll_store::store::{
    _get_poll, answer_found, create_poll, delete_found, delete_poll, file_created, found_under,
    get_poll, vote, vote_found, written, PollStore, COUNTER_REGION, RECORDS_REGION,
};

fn open_store(memory: DefaultMemoryImpl) -> PollStore {
    let manager = MemoryManager::init(memory);
    let cell = Cell::init(manager.get(MemoryId::new(COUNTER_REGION)), 0u64).unwrap();
    let tree = StableBTreeMap::init(manager.get(MemoryId::new(RECORDS_REGION)));
    PollStore::new(IdCell { cell }, RecordMap { tree })
}

fn sample() -> Poll {
    Poll {
        id: 3,
        question: "Which?".to_string(),
        options: vec!["this".to_string(), "that".to_string()],
        votes: vec![5, 0],
        created_at: 10,
        updated_at: Some(11),
    }
}

#[test]
fn to_bytes_is_the_candid_encoding_of_the_fields() {
    let poll = sample();
    let expected = candid::encode_one((
        3u64,
        "Which?".to_string(),
        vec!["this".to_string(), "that".to_string()],
        vec![5u64, 0u64],
        10u64,
        Some(11u64),
    ))
    .unwrap();
    let bytes = poll.to_bytes().unwrap();
    assert_eq!(bytes, expected);
    assert_eq!(&bytes[0..4], b"DIDL");
    assert_eq!(poll.to_bytes().unwrap(), bytes);
}

#[test]
fn from_bytes_gives_back_what_to_bytes_took() {
    let poll = sample();
    let back = Poll::from_bytes(&poll.to_bytes().unwrap()).unwrap();
    assert_eq!(back.id, 3);
    assert_eq!(back.question, "Which?");
    assert_eq!(back.options, vec!["this".to_string(), "that".to_string()]);
    assert_eq!(back.votes, vec![5, 0]);
    assert_eq!(back.created_at, 10);
    assert_eq!(back.updated_at, Some(11));
}

#[test]
fn from_bytes_refuses_what_is_no_record() {
    assert_eq!(Poll::from_bytes(&[]).err(), Some(Fault::Undecodable));
    assert_eq!(Poll::from_bytes(&[1, 2, 3, 4, 5]).err(), Some(Fault::Undecodable));
    let text = candid::encode_one("just a text").unwrap();
    assert_eq!(Poll::from_bytes(&text).err(), Some(Fault::Undecodable));
}

#[test]
fn from_bytes_refuses_a_poll_with_missing_counters() {
    let bytes = candid::encode_one((
        3u64,
        "Which?".to_string(),
        vec!["this".to_string(), "that".to_string()],
        vec![5u64],
        10u64,
        None::<u64>,
    ))
    .unwrap();
    assert_eq!(Poll::from_bytes(&bytes).err(), Some(Fault::CorruptRecord));
}

#[test]
fn to_stored_refuses_more_than_the_limit() {
    let mut poll = sample();
    assert!(poll.to_stored().unwrap().len() <= MAX_RECORD_SIZE);
    poll.question = "x".repeat(MAX_RECORD_SIZE);
    assert_eq!(poll.to_stored(), Err(Fault::RecordTooLarge));
    assert!(poll.to_bytes().unwrap().len() > MAX_RECORD_SIZE);
}

#[test]
fn check_size_draws_the_line_at_the_limit() {
    assert_eq!(MAX_RECORD_SIZE, 1024);
    assert_eq!(check_size(vec![]), Ok(vec![]));
    assert_eq!(check_size(vec![7; 1024]), Ok(vec![7; 1024]));
    assert_eq!(check_size(vec![7; 1025]), Err(Fault::RecordTooLarge));
}

#[test]
fn accept_wants_one_counter_per_option() {
    assert!(accept(Some(sample())).unwrap().same(&sample()));
    let mut short = sample();
    short.votes.pop();
    assert_eq!(accept(Some(short)).err(), Some(Fault::CorruptRecord));
    let mut long = sample();
    long.votes.push(0);
    assert_eq!(accept(Some(long)).err(), Some(Fault::CorruptRecord));
    assert!(accept(Some(Poll::default())).is_ok());
    assert_eq!(accept(None).err(), Some(Fault::Undecodable));
}

#[test]
fn found_under_wants_the_identifier_asked_for() {
    assert!(found_under(3, Some(sample())).unwrap().unwrap().same(&sample()));
    assert_eq!(found_under(4, Some(sample())).err(), Some(Fault::CorruptRecord));
    assert_eq!(found_under(3, None).err(), Some(Fault::Undecodable));
    let mut short = sample();
    short.votes.pop();
    assert_eq!(found_under(3, Some(short)).err(), Some(Fault::CorruptRecord));
}

#[test]
fn answer_found_for_each_outcome_of_a_read() {
    assert!(answer_found(Ok(Some(sample())), 3).unwrap().unwrap().same(&sample()));
    match answer_found(Ok(None), 3) {
        Ok(Err(Error::NotFound { msg })) => assert_eq!(msg, "Poll with id=3 not found"),
        other => panic!("expected NotFound, got {:?}", other),
    }
    assert_eq!(answer_found(Err(Fault::Undecodable), 3).err(), Some(Fault::Undecodable));
    assert_eq!(answer_found(Err(Fault::CorruptRecord), 3).err(), Some(Fault::CorruptRecord));
}

#[test]
fn vote_found_for_each_outcome_of_a_read() {
    let mut store = open_store(DefaultMemoryImpl::default());
    assert_eq!(
        vote_found(&mut store, Err(Fault::Undecodable), 3, 0, 5).err(),
        Some(Fault::Undecodable)
    );
    assert!(matches!(
        vote_found(&mut store, Ok(None), 3, 0, 5),
        Ok(Err(Error::NotFound { .. }))
    ));
    assert!(matches!(
        vote_found(&mut store, Ok(Some(sample())), 3, 2, 5),
        Ok(Err(Error::InvalidVote { .. }))
    ));
    assert!(matches!(_get_poll(&store, &3), Ok(None)));
    let voted = vote_found(&mut store, Ok(Some(sample())), 3, 1, 5).unwrap().unwrap();
    assert_eq!(voted.votes, vec![5, 1]);
    assert_eq!(voted.updated_at, Some(5));
    let read = get_poll(&store, 3).unwrap().unwrap();
    assert!(read.same(&voted));
}

#[test]
fn delete_found_for_each_outcome_of_a_read() {
    let mut store = open_store(DefaultMemoryImpl::default());
    poll_store::store::do_insert(&mut store, &sample()).unwrap();
    assert_eq!(
        delete_found(&mut store, Err(Fault::CorruptRecord), 3).err(),
        Some(Fault::CorruptRecord)
    );
    match delete_found(&mut store, Ok(None), 3) {
        Ok(Err(Error::NotFound { msg })) => assert_eq!(msg, "Poll with id=3 not found."),
        other => panic!("expected NotFound, got {:?}", other),
    }
    assert!(get_poll(&store, 3).unwrap().is_ok());
    let gone = delete_found(&mut store, Ok(Some(sample())), 3).unwrap().unwrap();
    assert!(gone.same(&sample()));
    assert!(matches!(_get_poll(&store, &3), Ok(None)));
}

#[test]
fn file_created_files_only_what_was_allocated() {
    let mut store = open_store(DefaultMemoryImpl::default());
    let poll = sample();
    let bytes = poll.to_stored().unwrap();
    assert_eq!(
        file_created(&mut store, sample(), bytes.clone(), Err(Fault::CounterWrite)).err(),
        Some(Fault::CounterWrite)
    );
    assert!(matches!(_get_poll(&store, &3), Ok(None)));
    let made = file_created(&mut store, sample(), bytes, Ok(3)).unwrap();
    assert!(made.same(&poll));
    assert!(get_poll(&store, 3).unwrap().unwrap().same(&poll));
}

#[test]
fn a_store_is_made_of_its_counter_and_its_map() {
    let manager = MemoryManager::init(DefaultMemoryImpl::default());
    let mut cell = Cell::init(manager.get(MemoryId::new(COUNTER_REGION)), 0u64).unwrap();
    cell.set(7).unwrap();
    let mut tree: StableBTreeMap<u64, Blob<1024>, _> =
        StableBTreeMap::init(manager.get(MemoryId::new(RECORDS_REGION)));
    tree.insert(3, Blob::try_from(sample().to_bytes().unwrap().as_slice()).unwrap());
    let store = PollStore::new(IdCell { cell }, RecordMap { tree });
    assert_eq!(store.current(), 7);
    assert!(get_poll(&store, 3).unwrap().unwrap().same(&sample()));
    assert!(matches!(_get_poll(&store, &7), Ok(None)));
    assert_eq!((COUNTER_REGION, RECORDS_REGION), (0, 1));
}

#[test]
fn a_poll_survives_being_stored() {
    assert!(sample().survives());
    assert!(Poll::default().survives());
    let odd = Poll {
        id: u64::MAX,
        question: "Sm\u{f8}rrebr\u{f8}d \u{1f35e}?".to_string(),
        options: vec![String::new(), "\u{0}".to_string()],
        votes: vec![u64::MAX, 0],
        created_at: 0,
        updated_at: Some(u64::MAX),
    };
    assert!(odd.survives());
    let mut big = sample();
    big.question = "x".repeat(2000);
    assert!(!big.survives());
    let mut short = sample();
    short.votes.pop();
    assert!(!short.survives());
}

#[test]
fn same_compares_field_by_field() {
    let poll = sample();
    assert!(poll.same(&sample()));
    let mut other = sample();
    other.id = 4;
    assert!(!poll.same(&other));
    let mut other = sample();
    other.question.push('!');
    assert!(!poll.same(&other));
    let mut other = sample();
    other.options[1] = "those".to_string();
    assert!(!poll.same(&other));
    let mut other = sample();
    other.votes[0] = 6;
    assert!(!poll.same(&other));
    let mut other = sample();
    other.created_at = 11;
    assert!(!poll.same(&other));
    let mut other = sample();
    other.updated_at = None;
    assert!(!poll.same(&other));
    assert!(same_texts(&poll.options, &sample().options));
    assert!(!same_texts(&poll.options, &vec!["this".to_string()]));
    assert!(same_votes(&vec![], &vec![]));
    assert!(!same_votes(&vec![1, 2], &vec![1, 3]));
    assert!(!same_votes(&vec![1], &vec![1, 3]));
    assert!(same_time(None, None));
    assert!(same_time(Some(4), Some(4)));
    assert!(!same_time(Some(4), Some(5)));
    assert!(!same_time(Some(4), None));
}

#[test]
fn create_makes_a_poll_with_all_counters_at_zero() {
    let payload = PollPayload {
        question: "q".to_string(),
        options: vec!["a".to_string(), "b".to_string(), "c".to_string()],
    };
    let poll = Poll::create(42, &payload, 1000);
    assert_eq!(poll.id, 42);
    assert_eq!(poll.question, "q");
    assert_eq!(poll.options, payload.options);
    assert_eq!(poll.votes, vec![0, 0, 0]);
    assert_eq!(poll.created_at, 1000);
    assert_eq!(poll.updated_at, None);
}

#[test]
fn cast_vote_counts_one_ballot() {
    let mut poll = sample();
    assert!(poll.accepts(0));
    assert!(poll.accepts(1));
    assert!(!poll.accepts(2));
    assert!(poll.has_option(1));
    assert!(!poll.has_option(2));
    poll.cast_vote(1, 99);
    assert_eq!(poll.votes, vec![5, 1]);
    assert_eq!(poll.updated_at, Some(99));
    assert_eq!(poll.created_at, 10);
    poll.votes[0] = u64::MAX;
    assert!(!poll.accepts(0));
    assert!(poll.has_option(0));
}

#[test]
fn copies_and_zeroed_counters() {
    let poll = sample();
    assert_eq!(copy_texts(&poll.options), poll.options);
    assert_eq!(copy_texts(&Vec::new()), Vec::<String>::new());
    assert_eq!(zero_votes(0), Vec::<u64>::new());
    assert_eq!(zero_votes(3), vec![0, 0, 0]);
}

#[test]
fn decimal_text_of_numbers() {
    let mut out = String::from("n=");
    push_decimal(&mut out, 0);
    assert_eq!(out, "n=0");
    let mut out = String::new();
    push_decimal(&mut out, 10);
    assert_eq!(out, "10");
    let mut out = String::new();
    push_decimal(&mut out, 1234567890);
    assert_eq!(out, "1234567890");
    let mut out = String::new();
    push_decimal(&mut out, u64::MAX);
    assert_eq!(out, "18446744073709551615");
}

#[test]
fn error_texts() {
    let e = Error::not_found(7, false);
    assert_eq!(e.message(), "Poll with id=7 not found");
    assert!(matches!(e, Error::NotFound { .. }));
    let e = Error::not_found(18446744073709551615, true);
    assert_eq!(e.message(), "Poll with id=18446744073709551615 not found.");
    let e = Error::invalid_vote();
    assert_eq!(e.message(), "Invalid option index");
    assert!(matches!(e, Error::InvalidVote { .. }));
}

#[test]
fn a_failed_counter_write_is_reported_as_such() {
    assert_eq!(written(Ok(5)), Ok(5));
    let refused = ic_stable_structures::cell::ValueError::ValueTooLarge { value_size: 8 };
    assert_eq!(written(Err(refused)), Err(Fault::CounterWrite));
}

#[test]
fn an_exhausted_counter_hands_out_nothing() {
    let memory = DefaultMemoryImpl::default();
    {
        let manager = MemoryManager::init(memory.clone());
        let mut cell = Cell::init(manager.get(MemoryId::new(COUNTER_REGION)), 0u64).unwrap();
        cell.set(u64::MAX - 1).unwrap();
    }
    let mut store = open_store(memory);
    assert_eq!(store.current(), u64::MAX - 1);
    let payload = PollPayload { question: "last".to_string(), options: vec![] };
    let last = create_poll(&mut store, payload.clone(), 1).unwrap();
    assert_eq!(last.id, u64::MAX - 1);
    assert_eq!(store.current(), u64::MAX);
    assert_eq!(create_poll(&mut store, payload, 1).err(), Some(Fault::IdsExhausted));
    assert_eq!(store.allocate_next(), Err(Fault::IdsExhausted));
    assert_eq!(store.current(), u64::MAX);
    assert!(matches!(_get_poll(&store, &u64::MAX), Ok(None)));
}

#[test]
fn stored_bytes_that_are_no_poll_are_a_fault() {
    let memory = DefaultMemoryImpl::default();
    {
        let manager = MemoryManager::init(memory.clone());
        let mut map: StableBTreeMap<u64, Blob<1024>, _> =
            StableBTreeMap::init(manager.get(MemoryId::new(RECORDS_REGION)));
        map.insert(1, Blob::try_from(&[9u8, 9, 9][..]).unwrap());
        let other = Poll { id: 5, ..Poll::default() };
        map.insert(2, Blob::try_from(other.to_bytes().unwrap().as_slice()).unwrap());
    }
    let mut store = open_store(memory);
    assert_eq!(_get_poll(&store, &1).err(), Some(Fault::Undecodable));
    assert_eq!(get_poll(&store, 1).err(), Some(Fault::Undecodable));
    assert_eq!(get_poll(&store, 2).err(), Some(Fault::CorruptRecord));
    assert_eq!(vote(&mut store, 1, 0, 1).err(), Some(Fault::Undecodable));
    assert_eq!(vote(&mut store, 2, 0, 1).err(), Some(Fault::CorruptRecord));
    assert_eq!(delete_poll(&mut store, 1).err(), Some(Fault::Undecodable));
    assert_eq!(delete_poll(&mut store, 2).err(), Some(Fault::CorruptRecord));
    assert_eq!(get_poll(&store, 1).err(), Some(Fault::Undecodable));
    assert_eq!(get_poll(&store, 2).err(), Some(Fault::CorruptRecord));
    assert!(matches!(get_poll(&store, 3), Ok(Err(Error::NotFound { .. }))));
}
