use anchor_lang::prelude::Pubkey;
use anchor_lang::solana_program::program_error::ProgramError;
use anchor_lang::solana_program::sysvar::Sysvar;
use vstd::prelude::*;
use vstd::utf8::encode_utf8;

use crate::state::Key;

verus! {

/// The address, if any, that the program `program_id` derives from `seeds`.
pub uninterp spec fn program_address(seeds: Seq<Seq<u8>>, program_id: Seq<u8>) -> Option<
    Seq<u8>,
>;

/// Most seeds that a derivation takes, the bump seed that it adds included.
pub const MAX_SEEDS: usize = 16;

/// Most bytes in one seed.
pub const MAX_SEED_LEN: usize = 32;

/// Relies on `Pubkey::try_find_program_address`: the first viable address for
/// the seeds under the program, or none; it depends on its arguments alone and
/// does not panic.
#[verifier::external_body]
fn find_address(seeds: &Vec<Vec<u8>>, program_id: &Key) -> (r: Option<Key>)
    ensures
        r is Some <==> program_address(seeds.deep_view(), program_id.bytes@) is Some,
        r is Some ==> r->0.bytes@ == program_address(seeds.deep_view(), program_id.bytes@)->0,
{
    let parts: Vec<&[u8]> = seeds.iter().map(|s| s.as_slice()).collect();
    let program = Pubkey::new_from_array(program_id.bytes);
    Pubkey::try_find_program_address(&parts, &program).map(|(a, _)| Key { bytes: a.to_bytes() })
}

#[verifier::external_type_specification]
#[verifier::external_body]
pub struct ExProgramError(ProgramError);

/// Relies on `Clock::get`: the current Unix time of the execution environment,
/// or the error of a sysvar that cannot be read there.
#[verifier::external_body]
pub(crate) fn clock_unix_timestamp() -> (r: Result<i64, ProgramError>) {
    anchor_lang::prelude::Clock::get().map(|c| c.unix_timestamp)
}

/// The namespace tag of question addresses: the bytes of `question`.
pub open spec fn question_tag() -> Seq<u8> {
    seq![113u8, 117u8, 101u8, 115u8, 116u8, 105u8, 111u8, 110u8]
}

/// The namespace tag of answer addresses: the bytes of `answer`.
pub open spec fn answer_tag() -> Seq<u8> {
    seq![97u8, 110u8, 115u8, 119u8, 101u8, 114u8]
}

/// The `k` low bytes of `n`, least significant first.
pub open spec fn le_bytes(n: nat, k: nat) -> Seq<u8>
    decreases k,
{
    if k == 0 {
        Seq::empty()
    } else {
        seq![(n % 256) as u8] + le_bytes(n / 256, (k - 1) as nat)
    }
}

/// Seeds of the address of the question that `creator` asks under `topic`.
pub open spec fn question_seeds(topic: Seq<char>, creator: Seq<u8>) -> Seq<Seq<u8>> {
    seq![question_tag(), encode_utf8(topic), creator]
}

/// Seeds of the address of answer number `slot` to the question at `question`.
pub open spec fn answer_seeds(question: Seq<u8>, slot: u64) -> Seq<Seq<u8>> {
    seq![answer_tag(), question, le_bytes(slot as nat, 8)]
}

/// The eight bytes of `n`, least significant first.
pub fn u64_le_bytes(n: u64) -> (r: Vec<u8>)
    ensures
        r@ == le_bytes(n as nat, 8),
{
    let mut out: Vec<u8> = Vec::new();
    let mut m: u64 = n;
    let mut i: usize = 0;
    while i < 8
        invariant
            0 <= i <= 8,
            out@ + le_bytes(m as nat, (8 - i) as nat) == le_bytes(n as nat, 8),
        decreases 8 - i,
    {
        let ghost before = out@;
        out.push((m % 256) as u8);
        assert(le_bytes(m as nat, (8 - i) as nat) == seq![(m % 256) as u8] + le_bytes(
            (m / 256) as nat,
            (8 - i - 1) as nat,
        ));
        assert(out@ + le_bytes((m / 256) as nat, (8 - i - 1) as nat) =~= before + le_bytes(
            m as nat,
            (8 - i) as nat,
        ));
        m = m / 256;
        i = i + 1;
    }
    assert(out@ + le_bytes(m as nat, 0) =~= out@);
    out
}

/// The address of the question that `creator` asks under `topic`, if one can
/// be derived.
pub fn question_address(program_id: &Key, topic: &String, creator: &Key) -> (r: Option<Key>)
    requires
        encode_utf8(topic@).len() <= MAX_SEED_LEN,
    ensures
        r is Some <==> program_address(question_seeds(topic@, creator.bytes@), program_id.bytes@) is Some,
        r is Some ==> r->0.bytes@ == program_address(question_seeds(topic@, creator.bytes@), program_id.bytes@)->0,
{
    let tag: Vec<u8> = vec![113u8, 117u8, 101u8, 115u8, 116u8, 105u8, 111u8, 110u8];
    let topic_bytes = vstd::slice::slice_to_vec(topic.as_str().as_bytes());
    let creator_bytes = vstd::slice::slice_to_vec(creator.bytes.as_slice());
    let seeds: Vec<Vec<u8>> = vec![tag, topic_bytes, creator_bytes];
    assert(tag@ =~= question_tag());
    assert(topic_bytes@ =~= encode_utf8(topic@));
    assert(creator_bytes@ =~= creator.bytes@);
    assert(seeds@[0].deep_view() =~= question_tag());
    assert(seeds@[1].deep_view() =~= encode_utf8(topic@));
    assert(seeds@[2].deep_view() =~= creator.bytes@);
    assert(seeds.deep_view() =~= question_seeds(topic@, creator.bytes@));
    find_address(&seeds, program_id)
}

/// The address of answer number `slot` to the question at `question`, if one
/// can be derived.
pub fn answer_address(program_id: &Key, question: &Key, slot: u64) -> (r: Option<Key>)
    ensures
        r is Some <==> program_address(answer_seeds(question.bytes@, slot), program_id.bytes@) is Some,
        r is Some ==> r->0.bytes@ == program_address(answer_seeds(question.bytes@, slot), program_id.bytes@)->0,
{
    let tag: Vec<u8> = vec![97u8, 110u8, 115u8, 119u8, 101u8, 114u8];
    let question_bytes = vstd::slice::slice_to_vec(question.bytes.as_slice());
    let slot_bytes = u64_le_bytes(slot);
    let seeds: Vec<Vec<u8>> = vec![tag, question_bytes, slot_bytes];
    assert(seeds@[0].deep_view() =~= answer_tag());
    assert(seeds@[1].deep_view() =~= question.bytes@);
    assert(seeds@[2].deep_view() =~= le_bytes(slot as nat, 8));
    assert(seeds.deep_view() =~= answer_seeds(question.bytes@, slot));
    find_address(&seeds, program_id)
}

} // verus!
