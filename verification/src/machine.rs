//! One full invocation against a storage handle.
//!
//! Control flow is strictly linear: decode the instruction, authorize the
//! caller, decode the stored record, apply the transition, encode and
//! commit. Any failure short-circuits before the commit, so the backing
//! bytes are either fully updated or left exactly as they were.

use vstd::prelude::*;

use crate::codec::Instruction;
use crate::codec::Record;
use crate::codec::decode_instruction;
use crate::codec::decode_record;
use crate::codec::encode_record;
use crate::codec::record_bytes;
use crate::codec::spec_decode_instruction;
use crate::codec::spec_decode_record;
use crate::engine::apply;
use crate::engine::spec_apply;
use crate::error::CounterError;

verus! {

/// The storage handle the host lends the core for one invocation: the
/// account's backing bytes, plus whether the caller presented a valid
/// signing credential for this account. The core borrows it mutably for the
/// call and never retains it.
pub struct Account {
    /// True when the caller signed for the account being mutated.
    pub is_signer: bool,
    /// The account's backing bytes, holding the serialized record.
    pub data: Vec<u8>,
}

/// The outcome of one invocation: the bytes the account ends with on
/// success, or the error that aborts the call. Errors rank as the pipeline
/// runs: a malformed instruction is reported before a missing signature,
/// which is reported before a corrupt record, which is reported before an
/// arithmetic error.
pub open spec fn spec_outcome(
    is_signer: bool,
    data: Seq<u8>,
    instruction_data: Seq<u8>,
) -> Result<Seq<u8>, CounterError> {
    match spec_decode_instruction(instruction_data) {
        Err(e) => Err(e),
        Ok(instruction) => if !is_signer {
            Err(CounterError::Unauthorized)
        } else {
            match spec_decode_record(data) {
                Err(e) => Err(e),
                Ok(r) => match spec_apply(r, instruction) {
                    Err(e) => Err(e),
                    Ok(updated) => Ok(record_bytes(updated)),
                },
            }
        },
    }
}

/// Authorization check: succeeds exactly when the caller signed for the
/// account being mutated.
pub fn authorize(account: &Account) -> (res: Result<(), CounterError>)
    ensures
        account.is_signer ==> res == Ok::<(), CounterError>(()),
        !account.is_signer ==> res == Err::<(), CounterError>(CounterError::Unauthorized),
{
    if account.is_signer {
        Ok(())
    } else {
        Err(CounterError::Unauthorized)
    }
}

/// Commit: encodes the record and overwrites the handle's backing bytes
/// with exactly its fixed-width byte sequence.
pub fn commit(account: &mut Account, r: &Record)
    ensures
        final(account).data@ == record_bytes(*r),
        final(account).is_signer == old(account).is_signer,
{
    account.data = encode_record(r);
}

/// One full invocation: decode the instruction, authorize, decode the
/// record, apply the transition, commit. On success the backing bytes hold
/// the new record; on any error they are left byte-for-byte unchanged.
pub fn process_instruction(account: &mut Account, instruction_data: &[u8]) -> (res: Result<
    (),
    CounterError,
>)
    ensures
        final(account).is_signer == old(account).is_signer,
        match spec_outcome(old(account).is_signer, old(account).data@, instruction_data@) {
            Ok(bytes) => res == Ok::<(), CounterError>(()) && final(account).data@ == bytes,
            Err(e) => res == Err::<(), CounterError>(e) && final(account).data@ == old(
                account,
            ).data@,
        },
{
    let instruction = match decode_instruction(instruction_data) {
        Ok(i) => i,
        Err(e) => { return Err(e); },
    };
    match authorize(&*account) {
        Ok(u) => u,
        Err(e) => { return Err(e); },
    };
    let record = match decode_record(account.data.as_slice()) {
        Ok(r) => r,
        Err(e) => { return Err(e); },
    };
    let updated = match apply(&record, &instruction) {
        Ok(r2) => r2,
        Err(e) => { return Err(e); },
    };
    commit(account, &updated);
    Ok(())
}

/// Law (authorization gate): an unauthorized call with a well-formed
/// instruction and a valid stored record fails with `Unauthorized`,
/// whatever the operation; by the contract of `process_instruction` the
/// backing bytes are then left unchanged.
pub proof fn lemma_unauthorized_never_writes(data: Seq<u8>, instruction_data: Seq<u8>)
    requires
        spec_decode_instruction(instruction_data) is Ok,
        spec_decode_record(data) is Ok,
    ensures
        spec_outcome(false, data, instruction_data) == Err::<Seq<u8>, CounterError>(
            CounterError::Unauthorized,
        ),
{
}

/// Law (division by zero): a signed call whose instruction decodes to
/// `Divide` with a zero operand fails with `DivisionByZero` on every valid
/// stored record; by the contract of `process_instruction` the backing
/// bytes are then left unchanged.
pub proof fn lemma_divide_zero_never_writes(data: Seq<u8>, instruction_data: Seq<u8>)
    requires
        spec_decode_instruction(instruction_data) == Ok::<Instruction, CounterError>(
            (Instruction::Divide { value: 0 }),
        ),
        spec_decode_record(data) is Ok,
    ensures
        spec_outcome(true, data, instruction_data) == Err::<Seq<u8>, CounterError>(
            CounterError::DivisionByZero,
        ),
{
}

} // verus!
