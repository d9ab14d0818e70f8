//! The transition engine: one arithmetic step per invocation.
//!
//! The arithmetic policy is saturating for every growth operation: `Add`,
//! `Multiply` and `Double` clamp at the counter's maximum, `Subtract` floors
//! at 0, and the divisions truncate. A persistent counter should fail closed
//! rather than wrap to a small value or abort on a benign overflow, so
//! overflow is never surfaced as an error; the one hard error is an explicit
//! division by zero.

use vstd::prelude::*;

use crate::codec::Instruction;
use crate::codec::Record;
use crate::error::CounterError;

verus! {

/// `a + b`, clamped at the largest representable counter.
pub open spec fn saturating_add_u32(a: u32, b: u32) -> u32 {
    if a + b > u32::MAX {
        u32::MAX
    } else {
        (a + b) as u32
    }
}

/// `a - b`, floored at 0.
pub open spec fn saturating_sub_u32(a: u32, b: u32) -> u32 {
    if a - b < 0 {
        0
    } else {
        (a - b) as u32
    }
}

/// `a * b`, clamped at the largest representable counter.
pub open spec fn saturating_mul_u32(a: u32, b: u32) -> u32 {
    if a * b > u32::MAX {
        u32::MAX
    } else {
        (a * b) as u32
    }
}

/// The transition table: the record an instruction produces, or the error
/// that rejects it. Pure over the current record and the instruction.
pub open spec fn spec_apply(r: Record, instruction: Instruction) -> Result<Record, CounterError> {
    match instruction {
        Instruction::Init => Ok(Record { count: 1 }),
        Instruction::Double => Ok(Record { count: saturating_mul_u32(r.count, 2) }),
        Instruction::Half => Ok(Record { count: r.count / 2 }),
        Instruction::Add { value } => Ok(Record { count: saturating_add_u32(r.count, value) }),
        Instruction::Subtract { value } => Ok(
            Record { count: saturating_sub_u32(r.count, value) },
        ),
        Instruction::Multiply { value } => Ok(
            Record { count: saturating_mul_u32(r.count, value) },
        ),
        Instruction::Divide { value } => if value == 0 {
            Err(CounterError::DivisionByZero)
        } else {
            Ok(Record { count: r.count / value })
        },
    }
}

/// Applies one instruction to the current record, under the saturating
/// arithmetic policy; no side effect beyond the returned value.
pub fn apply(r: &Record, instruction: &Instruction) -> (res: Result<Record, CounterError>)
    ensures
        res == spec_apply(*r, *instruction),
{
    match *instruction {
        Instruction::Init => Ok(Record { count: 1 }),
        Instruction::Double => match r.count.checked_mul(2) {
            Some(n) => Ok(Record { count: n }),
            None => Ok(Record { count: u32::MAX }),
        },
        Instruction::Half => Ok(Record { count: r.count / 2 }),
        Instruction::Add { value } => match r.count.checked_add(value) {
            Some(n) => Ok(Record { count: n }),
            None => Ok(Record { count: u32::MAX }),
        },
        Instruction::Subtract { value } => match r.count.checked_sub(value) {
            Some(n) => Ok(Record { count: n }),
            None => Ok(Record { count: 0 }),
        },
        Instruction::Multiply { value } => match r.count.checked_mul(value) {
            Some(n) => Ok(Record { count: n }),
            None => Ok(Record { count: u32::MAX }),
        },
        Instruction::Divide { value } => if value == 0 {
            Err(CounterError::DivisionByZero)
        } else {
            Ok(Record { count: r.count / value })
        },
    }
}

/// Law: `Init` is idempotent — it always yields the record with count 1,
/// so applying it to its own result changes nothing.
pub proof fn lemma_init_idempotent(r: Record)
    ensures
        spec_apply(r, Instruction::Init) == Ok::<Record, CounterError>((Record { count: 1 })),
        spec_apply((Record { count: 1 }), Instruction::Init) == spec_apply(r, Instruction::Init),
{
}

/// Law: at the maximum, adding any positive value saturates — the counter
/// stays at the maximum and never wraps.
pub proof fn lemma_add_saturates(v: u32)
    requires
        v > 0,
    ensures
        spec_apply((Record { count: u32::MAX }), (Instruction::Add { value: v }))
            == Ok::<Record, CounterError>((Record { count: u32::MAX })),
{
}

/// Law: at 0, subtracting any positive value floors — the counter stays at
/// 0 and never wraps.
pub proof fn lemma_subtract_floors(v: u32)
    requires
        v > 0,
    ensures
        spec_apply((Record { count: 0 }), (Instruction::Subtract { value: v }))
            == Ok::<Record, CounterError>((Record { count: 0 })),
{
}

/// Law: `Divide` with a zero operand fails with `DivisionByZero` on every
/// record.
pub proof fn lemma_divide_by_zero(r: Record)
    ensures
        spec_apply(r, (Instruction::Divide { value: 0 }))
            == Err::<Record, CounterError>(CounterError::DivisionByZero),
{
}

} // verus!
