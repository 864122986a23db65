use vstd::prelude::*;

use crate::address::{answer_seeds, program_address, question_seeds};
use crate::ledger::{answer_posted, question_created, Ledger};
use crate::state::{
    byte_len, Key, StackError, ANSWER_LENGTH, QUESTION_BODY_LENGTH, QUESTION_TOPIC_LENGTH,
};

verus! {

/// A question whose topic and body fit, whose address can be derived and is
/// free, is created: it stands last, holds the inputs, and has no answers.
pub proof fn valid_question_is_created(
    l0: Ledger,
    l1: Ledger,
    creator: Key,
    topic: String,
    body: String,
    r: Result<Key, StackError>,
)
    requires
        question_created(l0, l1, creator, topic, body, r),
        byte_len(topic@) <= QUESTION_TOPIC_LENGTH,
        byte_len(body@) <= QUESTION_BODY_LENGTH,
        program_address(question_seeds(topic@, creator.bytes@), l0.program_id.bytes@) is Some,
        !l0.holds(program_address(question_seeds(topic@, creator.bytes@), l0.program_id.bytes@)->0),
    ensures
        r is Ok,
        l1.questions@.len() == l0.questions@.len() + 1,
        l1.questions@.last().address == r->Ok_0,
        l1.questions@.last().question.question_creator == creator,
        l1.questions@.last().question.question_topic == topic,
        l1.questions@.last().question.question_body == body,
        l1.questions@.last().question.answer_count == 0,
        l1.answers@ == l0.answers@,
{
}

/// A topic that is too long is refused with `QuestionTopicTooLong`, and no
/// record is made.
pub proof fn long_topic_is_refused(
    l0: Ledger,
    l1: Ledger,
    creator: Key,
    topic: String,
    body: String,
    r: Result<Key, StackError>,
)
    requires
        question_created(l0, l1, creator, topic, body, r),
        byte_len(topic@) > QUESTION_TOPIC_LENGTH,
    ensures
        r == Err::<Key, StackError>(StackError::QuestionTopicTooLong),
        l1 == l0,
{
}

/// A question body that is too long, under a topic that fits, is refused
/// with `QuestionBodyTooLong`, and no record is made.
pub proof fn long_question_body_is_refused(
    l0: Ledger,
    l1: Ledger,
    creator: Key,
    topic: String,
    body: String,
    r: Result<Key, StackError>,
)
    requires
        question_created(l0, l1, creator, topic, body, r),
        byte_len(topic@) <= QUESTION_TOPIC_LENGTH,
        byte_len(body@) > QUESTION_BODY_LENGTH,
    ensures
        r == Err::<Key, StackError>(StackError::QuestionBodyTooLong),
        l1 == l0,
{
}

/// Once a creator has a question on a topic, a second question of the same
/// creator on the same topic is refused as a duplicate, and nothing changes.
pub proof fn same_creator_and_topic_is_refused(
    l0: Ledger,
    l1: Ledger,
    l2: Ledger,
    creator: Key,
    topic: String,
    body1: String,
    body2: String,
    r1: Result<Key, StackError>,
    r2: Result<Key, StackError>,
)
    requires
        question_created(l0, l1, creator, topic, body1, r1),
        question_created(l1, l2, creator, topic, body2, r2),
        r1 is Ok,
        byte_len(body2@) <= QUESTION_BODY_LENGTH,
    ensures
        r2 == Err::<Key, StackError>(StackError::AccountAlreadyInUse),
        l2 == l1,
{
    let a = r1->Ok_0.bytes@;
    assert(l1.question_at(l0.questions@.len() as int, a));
}

/// Two creators may each ask a question on the same topic: where the two
/// derived addresses differ and are free, both requests succeed, at distinct
/// addresses.
pub proof fn same_topic_other_creator_is_accepted(
    l0: Ledger,
    l1: Ledger,
    l2: Ledger,
    creator1: Key,
    creator2: Key,
    topic: String,
    body1: String,
    body2: String,
    r1: Result<Key, StackError>,
    r2: Result<Key, StackError>,
)
    requires
        question_created(l0, l1, creator1, topic, body1, r1),
        question_created(l1, l2, creator2, topic, body2, r2),
        creator1.bytes@ != creator2.bytes@,
        byte_len(topic@) <= QUESTION_TOPIC_LENGTH,
        byte_len(body1@) <= QUESTION_BODY_LENGTH,
        byte_len(body2@) <= QUESTION_BODY_LENGTH,
        program_address(question_seeds(topic@, creator1.bytes@), l0.program_id.bytes@) is Some,
        program_address(question_seeds(topic@, creator2.bytes@), l0.program_id.bytes@) is Some,
        program_address(question_seeds(topic@, creator1.bytes@), l0.program_id.bytes@)
            != program_address(question_seeds(topic@, creator2.bytes@), l0.program_id.bytes@),
        !l0.holds(program_address(question_seeds(topic@, creator1.bytes@), l0.program_id.bytes@)->0),
        !l0.holds(program_address(question_seeds(topic@, creator2.bytes@), l0.program_id.bytes@)->0),
    ensures
        r1 is Ok,
        r2 is Ok,
        r1->Ok_0.bytes@ != r2->Ok_0.bytes@,
{
    let a1 = program_address(question_seeds(topic@, creator1.bytes@), l0.program_id.bytes@)->0;
    let a2 = program_address(question_seeds(topic@, creator2.bytes@), l0.program_id.bytes@)->0;
    if l1.holds(a2) {
        if l1.has_question(a2) {
            let i = choose|i: int| l1.question_at(i, a2);
            if i < l0.questions@.len() {
                assert(l0.question_at(i, a2));
            }
        } else {
            let j = choose|j: int| l1.answer_at(j, a2);
            assert(l0.answer_at(j, a2));
        }
    }
}

/// An answer with a body that fits, to a question with `n` answers whose
/// answer address can be derived and is free, is posted: it stands last with
/// slot `n`, at the address derived from the question and `n`, and the
/// question then counts `n + 1` answers.
pub proof fn valid_answer_is_posted(
    l0: Ledger,
    l1: Ledger,
    author: Key,
    question: Key,
    body: String,
    timestamp: i64,
    r: Result<Key, StackError>,
    i: int,
)
    requires
        l0.wf(),
        answer_posted(l0, l1, author, question, body, timestamp, r),
        l0.question_at(i, question.bytes@),
        byte_len(body@) <= ANSWER_LENGTH,
        l0.questions@[i].question.answer_count < u64::MAX,
        program_address(
            answer_seeds(question.bytes@, l0.questions@[i].question.answer_count),
            l0.program_id.bytes@,
        ) is Some,
        !l0.holds(
            program_address(
                answer_seeds(question.bytes@, l0.questions@[i].question.answer_count),
                l0.program_id.bytes@,
            )->0,
        ),
    ensures
        r is Ok,
        r->Ok_0.bytes@ == program_address(
            answer_seeds(question.bytes@, l0.questions@[i].question.answer_count),
            l0.program_id.bytes@,
        )->0,
        l1.answers@.len() == l0.answers@.len() + 1,
        l1.answers@.last().address == r->Ok_0,
        l1.answers@.last().question == question,
        l1.answers@.last().slot == l0.questions@[i].question.answer_count,
        l1.answers@.last().answer.answer_author == author,
        l1.answers@.last().answer.answer_body == body,
        l1.answers@.last().answer.timestamp == timestamp,
        l1.questions@[i].question.answer_count == l0.questions@[i].question.answer_count + 1,
{
    let c = l0.question_index(question.bytes@);
    assert(l0.question_at(c, question.bytes@));
    assert(c == i);
}

/// An answer body that is too long is refused with `AnswerTooLong`: no
/// record is made and no answer is counted.
pub proof fn long_answer_is_refused(
    l0: Ledger,
    l1: Ledger,
    author: Key,
    question: Key,
    body: String,
    timestamp: i64,
    r: Result<Key, StackError>,
)
    requires
        answer_posted(l0, l1, author, question, body, timestamp, r),
        byte_len(body@) > ANSWER_LENGTH,
    ensures
        r == Err::<Key, StackError>(StackError::AnswerTooLong),
        l1 == l0,
{
}

/// Two answers posted one after the other to the same question take
/// consecutive slots: the second slot is one past the first, so slots
/// increase and never repeat.
pub proof fn sequential_answers_take_next_slot(
    l0: Ledger,
    l1: Ledger,
    l2: Ledger,
    author1: Key,
    author2: Key,
    question: Key,
    body1: String,
    body2: String,
    t1: i64,
    t2: i64,
    r1: Result<Key, StackError>,
    r2: Result<Key, StackError>,
)
    requires
        l0.wf(),
        l1.wf(),
        answer_posted(l0, l1, author1, question, body1, t1, r1),
        answer_posted(l1, l2, author2, question, body2, t2, r2),
        r1 is Ok,
        r2 is Ok,
    ensures
        l2.answers@.len() == l0.answers@.len() + 2,
        l2.answers@[l0.answers@.len() as int].question == question,
        l2.answers@[l0.answers@.len() + 1int].question == question,
        l2.answers@[l0.answers@.len() + 1int].slot == l2.answers@[l0.answers@.len() as int].slot + 1,
        l2.answers@[l0.answers@.len() + 1int].slot > l2.answers@[l0.answers@.len() as int].slot,
{
    let q = question.bytes@;
    let i = l0.question_index(q);
    assert(l0.question_at(i, q));
    assert(l1.question_at(i, q));
    let k = l1.question_index(q);
    assert(l1.question_at(k, q));
    assert(k == i);
}

} // verus!
