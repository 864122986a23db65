use vstd::prelude::*;
use vstd::utf8::encode_utf8;

verus! {

/// Largest topic of a question, in bytes of UTF-8.
pub const QUESTION_TOPIC_LENGTH: usize = 32;

/// Largest body of a question, in bytes of UTF-8.
pub const QUESTION_BODY_LENGTH: usize = 500;

/// Largest body of an answer, in bytes of UTF-8.
pub const ANSWER_LENGTH: usize = 500;

/// Bytes that the framework puts ahead of each record to tell its type.
pub const DISCRIMINATOR_LENGTH: usize = 8;

/// Bytes that a text field spends on its length.
pub const STRING_PREFIX_LENGTH: usize = 4;

/// Space of a question record: the type tag, then the creator, the topic and
/// the body at their longest, and the answer count.
pub const QUESTION_SPACE: usize = DISCRIMINATOR_LENGTH + KEY_LENGTH + STRING_PREFIX_LENGTH
    + QUESTION_TOPIC_LENGTH + STRING_PREFIX_LENGTH + QUESTION_BODY_LENGTH + 8;

/// Space of an answer record: the type tag, then the author, the body at its
/// longest, and the timestamp.
pub const ANSWER_SPACE: usize = DISCRIMINATOR_LENGTH + KEY_LENGTH + STRING_PREFIX_LENGTH
    + ANSWER_LENGTH + 8;

/// Number of bytes in an account key.
pub const KEY_LENGTH: usize = 32;

/// Length of `s` in bytes once encoded as UTF-8.
pub open spec fn byte_len(s: Seq<char>) -> nat {
    encode_utf8(s).len()
}

/// A 32-byte account key: the identity of a signer, a program or a record.
#[derive(Clone, Copy, Debug)]
pub struct Key {
    pub bytes: [u8; 32],
}

/// Whether two keys hold the same bytes.
pub fn same_key(a: &Key, b: &Key) -> (r: bool)
    ensures
        r == (a.bytes@ == b.bytes@),
{
    let mut i: usize = 0;
    while i < KEY_LENGTH
        invariant
            0 <= i <= KEY_LENGTH,
            a.bytes@.len() == KEY_LENGTH,
            b.bytes@.len() == KEY_LENGTH,
            forall|j: int| 0 <= j < i ==> a.bytes@[j] == b.bytes@[j],
        decreases KEY_LENGTH - i,
    {
        if a.bytes[i] != b.bytes[i] {
            return false;
        }
        i = i + 1;
    }
    assert(a.bytes@ =~= b.bytes@);
    true
}

/// A question record.
#[derive(Clone, Debug)]
pub struct Question {
    pub question_creator: Key,
    pub question_topic: String,
    pub question_body: String,
    pub answer_count: u64,
}

/// An answer record.
#[derive(Clone, Debug)]
pub struct Answer {
    pub answer_author: Key,
    pub answer_body: String,
    pub timestamp: i64,
}

/// Why a request was refused.
#[derive(Clone, Copy, Debug, PartialEq, Eq, Structural)]
pub enum StackError {
    /// The topic is longer than `QUESTION_TOPIC_LENGTH` bytes.
    QuestionTopicTooLong,
    /// The question body is longer than `QUESTION_BODY_LENGTH` bytes.
    QuestionBodyTooLong,
    /// The answer body is longer than `ANSWER_LENGTH` bytes.
    AnswerTooLong,
    /// A record already stands at the derived address.
    AccountAlreadyInUse,
    /// No question record stands at the given address.
    QuestionNotFound,
    /// No address could be derived from the seeds.
    AddressUnavailable,
    /// The question holds the largest answer count there is.
    AnswerCountOverflow,
    /// The clock of the execution environment could not be read.
    ClockUnavailable,
}

impl StackError {
    /// A message that describes the error.
    pub fn message(&self) -> (r: String) {
        match self {
            StackError::QuestionTopicTooLong => String::from_str("question topic too long"),
            StackError::QuestionBodyTooLong => String::from_str("question body too long"),
            StackError::AnswerTooLong => String::from_str("answer too long"),
            StackError::AccountAlreadyInUse => String::from_str("account already in use"),
            StackError::QuestionNotFound => String::from_str("question not found"),
            StackError::AddressUnavailable => String::from_str("no viable address"),
            StackError::AnswerCountOverflow => String::from_str("answer count overflow"),
            StackError::ClockUnavailable => String::from_str("clock unavailable"),
        }
    }
}

} // verus!
