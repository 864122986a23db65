use vstd::prelude::*;

use crate::address::{
    answer_address, answer_seeds, clock_unix_timestamp, program_address, question_address,
    question_seeds,
};
use crate::state::{
    byte_len, same_key, Answer, Key, Question, StackError, ANSWER_LENGTH, QUESTION_BODY_LENGTH,
    QUESTION_TOPIC_LENGTH,
};

verus! {

/// A question record and the address it stands at.
pub struct QuestionRecord {
    pub address: Key,
    pub question: Question,
}

/// An answer record, the address it stands at, the address of its question
/// and its number among that question's answers.
pub struct AnswerRecord {
    pub address: Key,
    pub question: Key,
    pub slot: u64,
    pub answer: Answer,
}

/// The accounts of a request to create a question: its signer, who asks it
/// and pays for its record.
#[derive(Clone, Copy, Debug)]
pub struct CreateQuestion {
    pub question_authority: Key,
}

/// The accounts of a request to answer a question: its signer, who writes
/// the answer and pays for its record, and the address of the question.
#[derive(Clone, Copy, Debug)]
pub struct PostAnswer {
    pub answer_author: Key,
    pub question: Key,
}

/// The accounts of a request to set the program up: none.
#[derive(Clone, Copy, Debug)]
pub struct Initialize {}

/// The records that the program owns, in the order in which they were made.
pub struct Ledger {
    pub program_id: Key,
    pub questions: Vec<QuestionRecord>,
    pub answers: Vec<AnswerRecord>,
}

/// The question record `r` once one more answer has been counted.
pub open spec fn counted(r: QuestionRecord) -> QuestionRecord {
    QuestionRecord {
        address: r.address,
        question: Question { answer_count: (r.question.answer_count + 1) as u64, ..r.question },
    }
}

impl Ledger {
    /// Whether question record `i` stands at address `a`.
    pub open spec fn question_at(&self, i: int, a: Seq<u8>) -> bool {
        0 <= i < self.questions@.len() && self.questions@[i].address.bytes@ == a
    }

    /// Whether a question record stands at address `a`.
    pub open spec fn has_question(&self, a: Seq<u8>) -> bool {
        exists|i: int| #[trigger] self.question_at(i, a)
    }

    /// Whether answer record `j` stands at address `a`.
    pub open spec fn answer_at(&self, j: int, a: Seq<u8>) -> bool {
        0 <= j < self.answers@.len() && self.answers@[j].address.bytes@ == a
    }

    /// Whether any record stands at address `a`.
    pub open spec fn holds(&self, a: Seq<u8>) -> bool {
        self.has_question(a) || exists|j: int| #[trigger] self.answer_at(j, a)
    }

    /// No two records stand at one address.
    pub open spec fn wf(&self) -> bool {
        &&& forall|i: int, k: int|
            0 <= i < k < self.questions@.len() ==> #[trigger] self.questions@[i].address.bytes@
                != #[trigger] self.questions@[k].address.bytes@
        &&& forall|j: int, k: int|
            0 <= j < k < self.answers@.len() ==> #[trigger] self.answers@[j].address.bytes@
                != #[trigger] self.answers@[k].address.bytes@
        &&& forall|i: int, j: int|
            0 <= i < self.questions@.len() && 0 <= j < self.answers@.len()
                ==> #[trigger] self.questions@[i].address.bytes@
                != #[trigger] self.answers@[j].address.bytes@
    }

    /// An address that no record holds differs from the address of every
    /// record.
    pub proof fn free_address_is_new(&self, a: Seq<u8>)
        requires
            !self.holds(a),
        ensures
            forall|j: int| 0 <= j < self.answers@.len() ==> #[trigger] self.answers@[j].address.bytes@ != a,
            forall|k: int| 0 <= k < self.questions@.len() ==> #[trigger] self.questions@[k].address.bytes@ != a,
    {
        assert forall|j: int| 0 <= j < self.answers@.len() implies #[trigger] self.answers@[j].address.bytes@ != a by {
            if self.answers@[j].address.bytes@ == a {
                assert(self.answer_at(j, a));
            }
        }
        assert forall|k: int| 0 <= k < self.questions@.len() implies #[trigger] self.questions@[k].address.bytes@ != a by {
            if self.questions@[k].address.bytes@ == a {
                assert(self.question_at(k, a));
            }
        }
    }

    /// Where a question of `creator` on `topic` with `body` goes, or why it
    /// is refused.
    pub open spec fn question_plan(&self, creator: Seq<u8>, topic: Seq<char>, body: Seq<char>) -> Result<
        Seq<u8>,
        StackError,
    > {
        if byte_len(topic) > QUESTION_TOPIC_LENGTH {
            Err(StackError::QuestionTopicTooLong)
        } else if byte_len(body) > QUESTION_BODY_LENGTH {
            Err(StackError::QuestionBodyTooLong)
        } else {
            match program_address(question_seeds(topic, creator), self.program_id.bytes@) {
                None => Err(StackError::AddressUnavailable),
                Some(a) => if self.holds(a) {
                    Err(StackError::AccountAlreadyInUse)
                } else {
                    Ok(a)
                },
            }
        }
    }

    /// The question record at `question`, for a ledger that has one.
    pub open spec fn question_index(&self, question: Seq<u8>) -> int {
        choose|i: int| self.question_at(i, question)
    }

    /// Where an answer to the question at `question` with `body` goes, or why
    /// it is refused.
    pub open spec fn answer_plan(&self, question: Seq<u8>, body: Seq<char>) -> Result<
        Seq<u8>,
        StackError,
    > {
        if byte_len(body) > ANSWER_LENGTH {
            Err(StackError::AnswerTooLong)
        } else if !self.has_question(question) {
            Err(StackError::QuestionNotFound)
        } else {
            let n = self.questions@[self.question_index(question)].question.answer_count;
            if n == u64::MAX {
                Err(StackError::AnswerCountOverflow)
            } else {
                match program_address(answer_seeds(question, n), self.program_id.bytes@) {
                    None => Err(StackError::AddressUnavailable),
                    Some(a) => if self.holds(a) {
                        Err(StackError::AccountAlreadyInUse)
                    } else {
                        Ok(a)
                    },
                }
            }
        }
    }
}

/// `new` is `old` after a request to create a question of `creator` on
/// `topic` with `body`, which returned `r`.
pub open spec fn question_created(
    old: Ledger,
    new: Ledger,
    creator: Key,
    topic: String,
    body: String,
    r: Result<Key, StackError>,
) -> bool {
    match old.question_plan(creator.bytes@, topic@, body@) {
        Err(e) => r == Err::<Key, StackError>(e) && new == old,
        Ok(a) => {
            &&& r is Ok
            &&& r->Ok_0.bytes@ == a
            &&& new.program_id == old.program_id
            &&& new.answers@ == old.answers@
            &&& new.questions@ == old.questions@.push(
                QuestionRecord {
                    address: r->Ok_0,
                    question: Question {
                        question_creator: creator,
                        question_topic: topic,
                        question_body: body,
                        answer_count: 0,
                    },
                },
            )
        },
    }
}

/// `new` is `old` after a request of `author` to answer the question at
/// `question` with `body` at time `timestamp`, which returned `r`.
pub open spec fn answer_posted(
    old: Ledger,
    new: Ledger,
    author: Key,
    question: Key,
    body: String,
    timestamp: i64,
    r: Result<Key, StackError>,
) -> bool {
    match old.answer_plan(question.bytes@, body@) {
        Err(e) => r == Err::<Key, StackError>(e) && new == old,
        Ok(a) => {
            let i = old.question_index(question.bytes@);
            &&& r is Ok
            &&& r->Ok_0.bytes@ == a
            &&& new.program_id == old.program_id
            &&& new.questions@ == old.questions@.update(i, counted(old.questions@[i]))
            &&& new.answers@ == old.answers@.push(
                AnswerRecord {
                    address: r->Ok_0,
                    question: question,
                    slot: old.questions@[i].question.answer_count,
                    answer: Answer { answer_author: author, answer_body: body, timestamp },
                },
            )
        },
    }
}

impl Ledger {
    /// An empty ledger of the program `program_id`.
    pub fn new(program_id: Key) -> (r: Ledger)
        ensures
            r.wf(),
            r.program_id == program_id,
            r.questions@.len() == 0,
            r.answers@.len() == 0,
    {
        Ledger { program_id, questions: Vec::new(), answers: Vec::new() }
    }

    /// The index of the question record at `question`, if there is one.
    pub fn find_question(&self, question: &Key) -> (r: Option<usize>)
        ensures
            r is None <==> !self.has_question(question.bytes@),
            r is Some ==> self.question_at(r->0 as int, question.bytes@),
    {
        let mut i: usize = 0;
        while i < self.questions.len()
            invariant
                0 <= i <= self.questions@.len(),
                forall|k: int| 0 <= k < i ==> !#[trigger] self.question_at(k, question.bytes@),
            decreases self.questions@.len() - i,
        {
            if same_key(&self.questions[i].address, question) {
                assert(self.question_at(i as int, question.bytes@));
                return Some(i);
            }
            i = i + 1;
        }
        None
    }

    /// Whether any record stands at `address`.
    pub fn holds_address(&self, address: &Key) -> (r: bool)
        ensures
            r == self.holds(address.bytes@),
    {
        if self.find_question(address).is_some() {
            return true;
        }
        let mut j: usize = 0;
        while j < self.answers.len()
            invariant
                0 <= j <= self.answers@.len(),
                forall|k: int| 0 <= k < j ==> !#[trigger] self.answer_at(k, address.bytes@),
            decreases self.answers@.len() - j,
        {
            if same_key(&self.answers[j].address, address) {
                assert(self.answer_at(j as int, address.bytes@));
                return true;
            }
            j = j + 1;
        }
        false
    }

    /// Creates the question of the signer of `ctx` on `topic` with `body` at
    /// the address derived from the two, and returns that address.
    pub fn create_question(&mut self, ctx: CreateQuestion, topic: String, body: String) -> (r: Result<
        Key,
        StackError,
    >)
        requires
            old(self).wf(),
        ensures
            final(self).wf(),
            question_created(*old(self), *final(self), ctx.question_authority, topic, body, r),
    {
        let creator = ctx.question_authority;
        let topic_len = topic.as_str().as_bytes().len();
        assert(topic_len == byte_len(topic@));
        if topic_len > QUESTION_TOPIC_LENGTH {
            return Err(StackError::QuestionTopicTooLong);
        }
        let body_len = body.as_str().as_bytes().len();
        assert(body_len == byte_len(body@));
        if body_len > QUESTION_BODY_LENGTH {
            return Err(StackError::QuestionBodyTooLong);
        }
        let address = match question_address(&self.program_id, &topic, &creator) {
            None => {
                return Err(StackError::AddressUnavailable);
            },
            Some(a) => a,
        };
        if self.holds_address(&address) {
            return Err(StackError::AccountAlreadyInUse);
        }
        let question = Question {
            question_creator: creator,
            question_topic: topic,
            question_body: body,
            answer_count: 0,
        };
        self.questions.push(QuestionRecord { address, question });
        proof {
            old(self).free_address_is_new(address.bytes@);
        }
        Ok(address)
    }

    /// Checks an answer to the question at `question` with `body`, and returns
    /// the index of that question and the address of the answer.
    fn check_answer(&self, question: &Key, body: &String) -> (r: Result<(usize, Key), StackError>)
        requires
            self.wf(),
        ensures
            match self.answer_plan(question.bytes@, body@) {
                Err(e) => r == Err::<(usize, Key), StackError>(e),
                Ok(a) => r is Ok && r->Ok_0.0 == self.question_index(question.bytes@)
                    && r->Ok_0.1.bytes@ == a,
            },
    {
        let body_len = body.as_str().as_bytes().len();
        assert(body_len == byte_len(body@));
        if body_len > ANSWER_LENGTH {
            return Err(StackError::AnswerTooLong);
        }
        let i = match self.find_question(question) {
            None => {
                return Err(StackError::QuestionNotFound);
            },
            Some(i) => i,
        };
        proof {
            let c = self.question_index(question.bytes@);
            assert(self.question_at(c, question.bytes@));
            assert(c == i);
        }
        let n = self.questions[i].question.answer_count;
        if n == u64::MAX {
            return Err(StackError::AnswerCountOverflow);
        }
        let address = match answer_address(&self.program_id, question, n) {
            None => {
                return Err(StackError::AddressUnavailable);
            },
            Some(a) => a,
        };
        if self.holds_address(&address) {
            return Err(StackError::AccountAlreadyInUse);
        }
        Ok((i, address))
    }

    /// Writes the checked answer and counts it on its question.
    fn commit_answer(
        &mut self,
        i: usize,
        address: Key,
        author: Key,
        question: Key,
        body: String,
        timestamp: i64,
    )
        requires
            old(self).wf(),
            0 <= i < old(self).questions@.len(),
            old(self).questions@[i as int].question.answer_count < u64::MAX,
            !old(self).holds(address.bytes@),
        ensures
            final(self).wf(),
            final(self).program_id == old(self).program_id,
            final(self).questions@ == old(self).questions@.update(
                i as int,
                counted(old(self).questions@[i as int]),
            ),
            final(self).answers@ == old(self).answers@.push(
                AnswerRecord {
                    address: address,
                    question: question,
                    slot: old(self).questions@[i as int].question.answer_count,
                    answer: Answer { answer_author: author, answer_body: body, timestamp },
                },
            ),
    {
        let mut record = self.questions.remove(i);
        let slot = record.question.answer_count;
        record.question.answer_count = slot + 1;
        self.questions.insert(i, record);
        let answer = Answer { answer_author: author, answer_body: body, timestamp };
        self.answers.push(AnswerRecord { address, question, slot, answer });
        proof {
            assert(self.questions@ =~= old(self).questions@.update(
                i as int,
                counted(old(self).questions@[i as int]),
            ));
            old(self).free_address_is_new(address.bytes@);
        }
    }

    /// Posts the answer of the signer of `ctx` with `answer_body` to the
    /// question of `ctx`, stamped with `timestamp`, at the address derived
    /// from the question and its answer count, and returns that address.
    pub fn post_answer_at(
        &mut self,
        ctx: PostAnswer,
        answer_body: String,
        timestamp: i64,
    ) -> (r: Result<Key, StackError>)
        requires
            old(self).wf(),
        ensures
            final(self).wf(),
            answer_posted(
                *old(self),
                *final(self),
                ctx.answer_author,
                ctx.question,
                answer_body,
                timestamp,
                r,
            ),
    {
        let author = ctx.answer_author;
        let question = ctx.question;
        let (i, address) = match self.check_answer(&question, &answer_body) {
            Err(e) => {
                return Err(e);
            },
            Ok(p) => p,
        };
        self.commit_answer(i, address, author, question, answer_body, timestamp);
        Ok(address)
    }

    /// Posts the answer of the signer of `ctx` with `answer_body` to the
    /// question of `ctx`, stamped with the current time of the execution
    /// environment, and returns the address of the answer with that time.
    pub fn post_answer(&mut self, ctx: PostAnswer, answer_body: String) -> (r: Result<
        (Key, i64),
        StackError,
    >)
        requires
            old(self).wf(),
        ensures
            final(self).wf(),
            match old(self).answer_plan(ctx.question.bytes@, answer_body@) {
                Err(e) => r == Err::<(Key, i64), StackError>(e) && *final(self) == *old(self),
                Ok(a) => match r {
                    Err(e) => e == StackError::ClockUnavailable && *final(self) == *old(self),
                    Ok(p) => answer_posted(
                        *old(self),
                        *final(self),
                        ctx.answer_author,
                        ctx.question,
                        answer_body,
                        p.1,
                        Ok(p.0),
                    ),
                },
            },
    {
        let author = ctx.answer_author;
        let question = ctx.question;
        let (i, address) = match self.check_answer(&question, &answer_body) {
            Err(e) => {
                return Err(e);
            },
            Ok(p) => p,
        };
        let timestamp = match clock_unix_timestamp() {
            Err(_) => {
                return Err(StackError::ClockUnavailable);
            },
            Ok(t) => t,
        };
        self.commit_answer(i, address, author, question, answer_body, timestamp);
        Ok((address, timestamp))
    }
}

/// Does nothing: the entry point that sets the program up.
pub fn initialize(_ctx: Initialize) -> (r: Result<(), StackError>)
    ensures
        r is Ok,
{
    Ok(())
}

} // verus!
