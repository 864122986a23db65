use stack_underflow::address::{answer_address, question_address, u64_le_bytes};
use stack_underflow::ledger::{
    initialize, AnswerRecord, CreateQuestion, Initialize, Ledger, PostAnswer, QuestionRecord,
};
use stack_underflow::state::{
    same_key, Answer, Key, Question, StackError, ANSWER_LENGTH, ANSWER_SPACE, QUESTION_BODY_LENGTH,
    QUESTION_SPACE, QUESTION_TOPIC_LENGTH,
};

fn key(b: u8) -> Key {
    Key { bytes: [b; 32] }
}

fn asker(b: u8) -> CreateQuestion {
    CreateQuestion { question_authority: key(b) }
}

fn answering(b: u8, question: Key) -> PostAnswer {
    PostAnswer { answer_author: key(b), question }
}

fn ledger() -> Ledger {
    Ledger::new(key(7))
}

fn text(c: char, n: usize) -> String {
    std::iter::repeat(c).take(n).collect()
}

#[test]
fn valid_question_is_created_with_inputs() {
    let mut l = ledger();
    let r = l.create_question(asker(1), "rust".to_string(), "what is a borrow?".to_string());
    let a = r.unwrap();
    assert_eq!(l.questions.len(), 1);
    let q = &l.questions[0];
    assert_eq!(q.address.bytes, a.bytes);
    assert_eq!(q.question.question_creator.bytes, key(1).bytes);
    assert_eq!(q.question.question_topic, "rust");
    assert_eq!(q.question.question_body, "what is a borrow?");
    assert_eq!(q.question.answer_count, 0);
    let expected = question_address(&key(7), &"rust".to_string(), &key(1)).unwrap();
    assert_eq!(a.bytes, expected.bytes);
}

#[test]
fn question_address_is_derived_not_copied() {
    let a = question_address(&key(7), &"rust".to_string(), &key(1)).unwrap();
    assert_ne!(a.bytes, key(7).bytes);
    assert_ne!(a.bytes, key(1).bytes);
    let b = question_address(&key(7), &"go".to_string(), &key(1)).unwrap();
    assert_ne!(a.bytes, b.bytes);
    let c = question_address(&key(8), &"rust".to_string(), &key(1)).unwrap();
    assert_ne!(a.bytes, c.bytes);
}

#[test]
fn topic_and_body_at_the_limit_are_accepted() {
    let mut l = ledger();
    let topic = text('t', QUESTION_TOPIC_LENGTH);
    let body = text('b', QUESTION_BODY_LENGTH);
    assert!(l.create_question(asker(1), topic, body).is_ok());
}

#[test]
fn empty_topic_and_body_are_accepted() {
    let mut l = ledger();
    assert!(l.create_question(asker(1), String::new(), String::new()).is_ok());
    assert_eq!(l.questions[0].question.answer_count, 0);
}

#[test]
fn long_topic_is_refused() {
    let mut l = ledger();
    let r = l.create_question(asker(1), text('t', QUESTION_TOPIC_LENGTH + 1), "b".to_string());
    assert_eq!(r.unwrap_err(), StackError::QuestionTopicTooLong);
    assert!(l.questions.is_empty());
}

#[test]
fn topic_length_counts_bytes() {
    let mut l = ledger();
    // sixteen two-byte characters fit, seventeen do not
    assert!(l.create_question(asker(1), text('é', 16), "b".to_string()).is_ok());
    let r = l.create_question(asker(2), text('é', 17), "b".to_string());
    assert_eq!(r.unwrap_err(), StackError::QuestionTopicTooLong);
    assert_eq!(l.questions.len(), 1);
}

#[test]
fn long_question_body_is_refused() {
    let mut l = ledger();
    let r = l.create_question(asker(1), "t".to_string(), text('b', QUESTION_BODY_LENGTH + 1));
    assert_eq!(r.unwrap_err(), StackError::QuestionBodyTooLong);
    assert!(l.questions.is_empty());
}

#[test]
fn long_topic_is_reported_before_long_body() {
    let mut l = ledger();
    let r = l.create_question(asker(1),
        text('t', QUESTION_TOPIC_LENGTH + 1),
        text('b', QUESTION_BODY_LENGTH + 1),
    );
    assert_eq!(r.unwrap_err(), StackError::QuestionTopicTooLong);
}

#[test]
fn same_creator_and_topic_is_refused() {
    let mut l = ledger();
    assert!(l.create_question(asker(1), "rust".to_string(), "one".to_string()).is_ok());
    let r = l.create_question(asker(1), "rust".to_string(), "two".to_string());
    assert_eq!(r.unwrap_err(), StackError::AccountAlreadyInUse);
    assert_eq!(l.questions.len(), 1);
    assert_eq!(l.questions[0].question.question_body, "one");
}

#[test]
fn same_topic_other_creator_is_accepted() {
    let mut l = ledger();
    let a = l.create_question(asker(1), "rust".to_string(), "one".to_string()).unwrap();
    let b = l.create_question(asker(2), "rust".to_string(), "two".to_string()).unwrap();
    assert!(!same_key(&a, &b));
    assert_eq!(l.questions.len(), 2);
}

#[test]
fn answer_takes_the_current_count_as_slot() {
    let mut l = ledger();
    let q = l.create_question(asker(1), "rust".to_string(), "body".to_string()).unwrap();
    let a = l.post_answer_at(answering(3, q), "use references".to_string(), 1_700_000_000).unwrap();
    assert_eq!(l.questions[0].question.answer_count, 1);
    assert_eq!(l.answers.len(), 1);
    let rec = &l.answers[0];
    assert_eq!(rec.slot, 0);
    assert_eq!(rec.address.bytes, a.bytes);
    assert_eq!(rec.question.bytes, q.bytes);
    assert_eq!(rec.answer.answer_author.bytes, key(3).bytes);
    assert_eq!(rec.answer.answer_body, "use references");
    assert_eq!(rec.answer.timestamp, 1_700_000_000);
    assert_eq!(a.bytes, answer_address(&key(7), &q, 0).unwrap().bytes);
}

#[test]
fn sequential_answers_take_slots_in_order() {
    let mut l = ledger();
    let q = l.create_question(asker(1), "rust".to_string(), "body".to_string()).unwrap();
    let mut addresses: Vec<Key> = Vec::new();
    for t in 0..3i64 {
        addresses.push(l.post_answer_at(answering(3, q), "same text".to_string(), t).unwrap());
    }
    let slots: Vec<u64> = l.answers.iter().map(|r| r.slot).collect();
    assert_eq!(slots, vec![0, 1, 2]);
    assert_eq!(l.questions[0].question.answer_count, 3);
    assert!(!same_key(&addresses[0], &addresses[1]));
    assert!(!same_key(&addresses[1], &addresses[2]));
    assert!(!same_key(&addresses[0], &addresses[2]));
}

#[test]
fn answer_at_the_limit_is_accepted() {
    let mut l = ledger();
    let q = l.create_question(asker(1), "rust".to_string(), "body".to_string()).unwrap();
    assert!(l.post_answer_at(answering(3, q), text('a', ANSWER_LENGTH), 5).is_ok());
}

#[test]
fn long_answer_is_refused() {
    let mut l = ledger();
    let q = l.create_question(asker(1), "rust".to_string(), "body".to_string()).unwrap();
    let r = l.post_answer_at(answering(3, q), text('a', ANSWER_LENGTH + 1), 5);
    assert_eq!(r.unwrap_err(), StackError::AnswerTooLong);
    assert_eq!(l.questions[0].question.answer_count, 0);
    assert!(l.answers.is_empty());
}

#[test]
fn answer_to_missing_question_is_refused() {
    let mut l = ledger();
    let r = l.post_answer_at(answering(3, key(9)), "hi".to_string(), 5);
    assert_eq!(r.unwrap_err(), StackError::QuestionNotFound);
    assert!(l.answers.is_empty());
}

#[test]
fn full_answer_count_is_refused() {
    let q = key(4);
    let mut l = Ledger {
        program_id: key(7),
        questions: vec![QuestionRecord {
            address: q,
            question: Question {
                question_creator: key(1),
                question_topic: "t".to_string(),
                question_body: "b".to_string(),
                answer_count: u64::MAX,
            },
        }],
        answers: Vec::new(),
    };
    let r = l.post_answer_at(answering(3, q), "hi".to_string(), 5);
    assert_eq!(r.unwrap_err(), StackError::AnswerCountOverflow);
    assert_eq!(l.questions[0].question.answer_count, u64::MAX);
}

#[test]
fn taken_answer_address_is_refused() {
    let q = key(4);
    let taken = answer_address(&key(7), &q, 0).unwrap();
    let mut l = Ledger {
        program_id: key(7),
        questions: vec![QuestionRecord {
            address: q,
            question: Question {
                question_creator: key(1),
                question_topic: "t".to_string(),
                question_body: "b".to_string(),
                answer_count: 0,
            },
        }],
        answers: vec![AnswerRecord {
            address: taken,
            question: key(5),
            slot: 0,
            answer: Answer { answer_author: key(3), answer_body: "x".to_string(), timestamp: 0 },
        }],
    };
    let r = l.post_answer_at(answering(3, q), "hi".to_string(), 5);
    assert_eq!(r.unwrap_err(), StackError::AccountAlreadyInUse);
    assert_eq!(l.questions[0].question.answer_count, 0);
    assert_eq!(l.answers.len(), 1);
}

#[test]
fn answer_without_a_clock_is_refused_unchanged() {
    let mut l = ledger();
    let q = l.create_question(asker(1), "rust".to_string(), "body".to_string()).unwrap();
    let r = l.post_answer(answering(3, q), "hi".to_string());
    assert_eq!(r.unwrap_err(), StackError::ClockUnavailable);
    assert_eq!(l.questions[0].question.answer_count, 0);
    assert!(l.answers.is_empty());
}

#[test]
fn long_answer_is_refused_before_the_clock_is_read() {
    let mut l = ledger();
    let q = l.create_question(asker(1), "rust".to_string(), "body".to_string()).unwrap();
    let r = l.post_answer(answering(3, q), text('a', ANSWER_LENGTH + 1));
    assert_eq!(r.unwrap_err(), StackError::AnswerTooLong);
}

#[test]
fn slot_bytes_are_little_endian() {
    assert_eq!(u64_le_bytes(0), vec![0u8; 8]);
    assert_eq!(u64_le_bytes(0x0102030405060708), vec![8, 7, 6, 5, 4, 3, 2, 1]);
    assert_eq!(u64_le_bytes(u64::MAX), vec![255u8; 8]);
    assert_eq!(u64_le_bytes(258), 258u64.to_le_bytes().to_vec());
}

#[test]
fn keys_compare_by_bytes() {
    let mut k = key(1);
    assert!(same_key(&k, &key(1)));
    k.bytes[31] = 2;
    assert!(!same_key(&k, &key(1)));
}

#[test]
fn initialize_succeeds() {
    assert!(initialize(Initialize {}).is_ok());
}

#[test]
fn errors_have_messages() {
    assert_eq!(StackError::AnswerTooLong.message(), "answer too long");
    assert_eq!(StackError::QuestionTopicTooLong.message(), "question topic too long");
}

#[test]
fn record_spaces_cover_the_longest_fields() {
    assert_eq!(QUESTION_SPACE, 588);
    assert_eq!(ANSWER_SPACE, 552);
}
