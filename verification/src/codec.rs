//! Wire formats: the persistent record and the instruction buffer.
//!
//! Both formats are fixed and byte-stable. A record is its counter as four
//! little-endian bytes, nothing else. An instruction is one tag byte,
//! followed by a 32-bit little-endian operand for the variants that take
//! one. Decoding fails only on an unrecognized tag or a buffer shorter than
//! required: trailing bytes beyond the fixed widths are ignored, so decoding
//! never depends on the buffer length beyond what the format itself needs.

use vstd::prelude::*;

use crate::error::CounterError;

verus! {

/// The persistent entity: a single fixed-width unsigned counter. One record
/// exists per storage account and is mutated in place by every call.
#[derive(Clone, Copy, Debug, PartialEq, Eq, Structural)]
pub struct Record {
    pub count: u32,
}

/// A request-scoped operation, decoded from the incoming byte buffer.
///
/// The tag-to-variant mapping is fixed: `Init` 0, `Double` 1, `Half` 2,
/// `Add` 3, `Subtract` 4, `Multiply` 5, `Divide` 6. Tags 3 through 6 are
/// followed by the operand.
#[derive(Clone, Copy, Debug, PartialEq, Eq, Structural)]
pub enum Instruction {
    /// Reset the counter to the constant 1.
    Init,
    /// Double the counter, clamping at the maximum.
    Double,
    /// Halve the counter, truncating.
    Half,
    /// Add the operand, clamping at the maximum.
    Add { value: u32 },
    /// Subtract the operand, flooring at 0.
    Subtract { value: u32 },
    /// Multiply by the operand, clamping at the maximum.
    Multiply { value: u32 },
    /// Divide by the operand, truncating; a zero operand is an error.
    Divide { value: u32 },
}

/// The 32-bit value stored little-endian in four bytes.
pub open spec fn u32_of_le(b0: u8, b1: u8, b2: u8, b3: u8) -> u32 {
    (b0 as u32) | ((b1 as u32) << 8u32) | ((b2 as u32) << 16u32) | ((b3 as u32) << 24u32)
}

/// The four little-endian bytes of a 32-bit value.
pub open spec fn le_bytes_of_u32(n: u32) -> Seq<u8> {
    seq![
        (n & 0xff) as u8,
        ((n >> 8u32) & 0xff) as u8,
        ((n >> 16u32) & 0xff) as u8,
        ((n >> 24u32) & 0xff) as u8,
    ]
}

/// The fixed-width on-wire form of a record: its counter, little-endian.
pub open spec fn record_bytes(r: Record) -> Seq<u8> {
    le_bytes_of_u32(r.count)
}

/// What decoding a stored record yields: the counter read from the first
/// four bytes, or `CorruptRecord` when the buffer is shorter than the fixed
/// record width.
pub open spec fn spec_decode_record(b: Seq<u8>) -> Result<Record, CounterError> {
    if b.len() < 4 {
        Err(CounterError::CorruptRecord)
    } else {
        Ok(Record { count: u32_of_le(b[0], b[1], b[2], b[3]) })
    }
}

/// What decoding an instruction buffer yields: the variant named by the tag
/// byte, with its operand read little-endian where the tag requires one, or
/// `MalformedInstruction` on an unrecognized tag or a buffer shorter than
/// the tag's required width.
pub open spec fn spec_decode_instruction(b: Seq<u8>) -> Result<Instruction, CounterError> {
    if b.len() < 1 {
        Err(CounterError::MalformedInstruction)
    } else if b[0] == 0 {
        Ok(Instruction::Init)
    } else if b[0] == 1 {
        Ok(Instruction::Double)
    } else if b[0] == 2 {
        Ok(Instruction::Half)
    } else if 3 <= b[0] && b[0] <= 6 {
        if b.len() < 5 {
            Err(CounterError::MalformedInstruction)
        } else {
            let value = u32_of_le(b[1], b[2], b[3], b[4]);
            if b[0] == 3 {
                Ok(Instruction::Add { value })
            } else if b[0] == 4 {
                Ok(Instruction::Subtract { value })
            } else if b[0] == 5 {
                Ok(Instruction::Multiply { value })
            } else {
                Ok(Instruction::Divide { value })
            }
        }
    } else {
        Err(CounterError::MalformedInstruction)
    }
}

/// Reads the 32-bit little-endian value stored at `offset`.
fn read_u32_le(bytes: &[u8], offset: usize) -> (n: u32)
    requires
        offset + 4 <= bytes@.len(),
    ensures
        n == u32_of_le(
            bytes@[offset as int],
            bytes@[offset as int + 1],
            bytes@[offset as int + 2],
            bytes@[offset as int + 3],
        ),
{
    let b0 = bytes[offset];
    let b1 = bytes[offset + 1];
    let b2 = bytes[offset + 2];
    let b3 = bytes[offset + 3];
    (b0 as u32) | ((b1 as u32) << 8u32) | ((b2 as u32) << 16u32) | ((b3 as u32) << 24u32)
}

/// Encodes a record as exactly its fixed-width byte sequence.
pub fn encode_record(r: &Record) -> (out: Vec<u8>)
    ensures
        out@ == record_bytes(*r),
{
    proof {
        let n = r.count;
        assert(n & 0xff < 256) by (bit_vector);
        assert((n >> 8u32) & 0xff < 256) by (bit_vector);
        assert((n >> 16u32) & 0xff < 256) by (bit_vector);
        assert((n >> 24u32) & 0xff < 256) by (bit_vector);
    }
    let mut out: Vec<u8> = Vec::new();
    out.push((r.count & 0xff) as u8);
    out.push(((r.count >> 8u32) & 0xff) as u8);
    out.push(((r.count >> 16u32) & 0xff) as u8);
    out.push(((r.count >> 24u32) & 0xff) as u8);
    proof {
        assert(out@ =~= record_bytes(*r));
    }
    out
}

/// Decodes the fixed-width record from a stored buffer.
pub fn decode_record(bytes: &[u8]) -> (res: Result<Record, CounterError>)
    ensures
        res == spec_decode_record(bytes@),
{
    if bytes.len() < 4 {
        Err(CounterError::CorruptRecord)
    } else {
        Ok(Record { count: read_u32_le(bytes, 0) })
    }
}

/// Decodes an instruction buffer: one tag byte, then the operand where the
/// tag requires one.
pub fn decode_instruction(bytes: &[u8]) -> (res: Result<Instruction, CounterError>)
    ensures
        res == spec_decode_instruction(bytes@),
{
    if bytes.len() < 1 {
        return Err(CounterError::MalformedInstruction);
    }
    let tag = bytes[0];
    if tag == 0 {
        Ok(Instruction::Init)
    } else if tag == 1 {
        Ok(Instruction::Double)
    } else if tag == 2 {
        Ok(Instruction::Half)
    } else if 3 <= tag && tag <= 6 {
        if bytes.len() < 5 {
            Err(CounterError::MalformedInstruction)
        } else {
            let value = read_u32_le(bytes, 1);
            if tag == 3 {
                Ok(Instruction::Add { value })
            } else if tag == 4 {
                Ok(Instruction::Subtract { value })
            } else if tag == 5 {
                Ok(Instruction::Multiply { value })
            } else {
                Ok(Instruction::Divide { value })
            }
        }
    } else {
        Err(CounterError::MalformedInstruction)
    }
}

/// Law: encoding is lossless — decoding an encoded record restores it
/// exactly, for every record value.
pub proof fn lemma_record_round_trip(r: Record)
    ensures
        spec_decode_record(record_bytes(r)) == Ok::<Record, CounterError>(r),
{
    let n = r.count;
    assert(u32_of_le(
        (n & 0xff) as u8,
        ((n >> 8u32) & 0xff) as u8,
        ((n >> 16u32) & 0xff) as u8,
        ((n >> 24u32) & 0xff) as u8,
    ) == n) by (bit_vector);
}

} // verus!
