//! A minimal persistent-counter state machine.
//!
//! A host execution environment hands the core one opaque instruction buffer
//! and one storage handle per invocation. The core decodes the instruction,
//! checks that the caller signed for the account, decodes the stored record,
//! applies one arithmetic transition, re-encodes the record and writes it
//! back. Every error aborts the invocation before the write, so the stored
//! bytes are either fully updated or left exactly as they were.

mod codec;
mod engine;
mod error;
mod machine;

pub use codec::Instruction;
pub use codec::Record;
pub use codec::decode_instruction;
pub use codec::decode_record;
pub use codec::encode_record;
pub use codec::lemma_record_round_trip;
pub use codec::record_bytes;
pub use codec::spec_decode_instruction;
pub use codec::spec_decode_record;
pub use codec::u32_of_le;
pub use engine::apply;
pub use engine::lemma_add_saturates;
pub use engine::lemma_divide_by_zero;
pub use engine::lemma_init_idempotent;
pub use engine::lemma_subtract_floors;
pub use engine::spec_apply;
pub use error::CounterError;
pub use machine::Account;
pub use machine::authorize;
pub use machine::commit;
pub use machine::lemma_divide_zero_never_writes;
pub use machine::lemma_unauthorized_never_writes;
pub use machine::process_instruction;
pub use machine::spec_outcome;
