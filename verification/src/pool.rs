//! Pool snapshot codec.
//!
//! The external pool account exposes a fixed-offset little-endian layout:
//! byte 0 is a status flag, byte 1 a nonce, bytes 2..6 the signed 32-bit
//! current tick.  The reader tolerates any longer buffer (the snapshot
//! never assumes fields beyond offset 6) and rejects anything shorter than
//! 6 bytes.  The writer side produces the same layout, so a snapshot
//! written by this module decodes back to itself.

use vstd::prelude::*;
use vstd::bytes::{
    lemma_auto_spec_u32_to_from_le_bytes, spec_u32_from_le_bytes, spec_u32_to_le_bytes,
    u32_from_le_bytes, u32_to_le_bytes,
};
use vstd::slice::{slice_index_get, slice_subrange};

use crate::errors::LiquidityManagerError;

verus! {

/// An ephemeral snapshot of the external pool: decoded fresh from the
/// pool's account buffer on every use, never cached across calls.
#[derive(Clone, Copy, Debug, PartialEq, Eq, Structural)]
pub struct RaydiumPoolState {
    pub status: u8,
    pub nonce: u8,
    pub current_tick: i32,
}

/// The signed 32-bit value whose two's-complement bit pattern is `w`.
pub open spec fn spec_tick_of_word(w: u32) -> int {
    if w < 0x8000_0000 {
        w as int
    } else {
        w - 0x1_0000_0000
    }
}

/// The two's-complement bit pattern of a signed 32-bit tick.
pub open spec fn spec_word_of_tick(tick: int) -> u32
    recommends
        i32::MIN <= tick <= i32::MAX,
{
    if tick >= 0 {
        tick as u32
    } else {
        (tick + 0x1_0000_0000) as u32
    }
}

/// What `decode_pool` returns for a given buffer.
pub open spec fn spec_decode_pool(data: Seq<u8>) -> Result<
    RaydiumPoolState,
    LiquidityManagerError,
> {
    if data.len() < 6 {
        Err(LiquidityManagerError::InvalidPoolData)
    } else {
        Ok(
            RaydiumPoolState {
                status: data[0],
                nonce: data[1],
                current_tick: spec_tick_of_word(spec_u32_from_le_bytes(data.subrange(2, 6))) as i32,
            },
        )
    }
}

/// The 6-byte buffer holding a pool snapshot.
pub open spec fn spec_encode_pool(status: u8, nonce: u8, current_tick: i32) -> Seq<u8> {
    seq![status, nonce] + spec_u32_to_le_bytes(spec_word_of_tick(current_tick as int))
}

/// Any buffer shorter than six bytes is rejected as invalid pool data.
pub proof fn lemma_short_buffer_rejected(data: Seq<u8>)
    requires
        data.len() < 6,
    ensures
        spec_decode_pool(data) == Err::<RaydiumPoolState, LiquidityManagerError>(
            LiquidityManagerError::InvalidPoolData,
        ),
{
}

/// The two's-complement word round-trips back to the tick it encodes.
pub proof fn lemma_tick_word_round_trip(tick: int)
    requires
        i32::MIN <= tick <= i32::MAX,
    ensures
        spec_tick_of_word(spec_word_of_tick(tick)) == tick,
{
}

/// A written snapshot decodes back to exactly the values written.
pub proof fn lemma_decode_encoded_pool(status: u8, nonce: u8, current_tick: i32)
    ensures
        spec_decode_pool(spec_encode_pool(status, nonce, current_tick)) == Ok::<
            RaydiumPoolState,
            LiquidityManagerError,
        >(RaydiumPoolState { status, nonce, current_tick }),
{
    let encoded = spec_encode_pool(status, nonce, current_tick);
    lemma_auto_spec_u32_to_from_le_bytes();
    assert(encoded.subrange(2, 6) =~= spec_u32_to_le_bytes(
        spec_word_of_tick(current_tick as int),
    ));
    lemma_tick_word_round_trip(current_tick as int);
}

fn word_to_tick(w: u32) -> (tick: i32)
    ensures
        tick as int == spec_tick_of_word(w),
{
    if w < 0x8000_0000 {
        w as i32
    } else {
        ((w as i64) - 0x1_0000_0000i64) as i32
    }
}

fn tick_to_word(tick: i32) -> (w: u32)
    ensures
        w == spec_word_of_tick(tick as int),
{
    if tick >= 0 {
        tick as u32
    } else {
        ((tick as i64) + 0x1_0000_0000i64) as u32
    }
}

/// Decodes a pool snapshot from the pool's raw account buffer.
///
/// Fails with `InvalidPoolData` on any buffer shorter than 6 bytes; any
/// longer buffer is accepted and the bytes past offset 6 are ignored.
pub fn decode_pool(data: &[u8]) -> (r: Result<RaydiumPoolState, LiquidityManagerError>)
    ensures
        r == spec_decode_pool(data@),
{
    if data.len() < 6 {
        return Err(LiquidityManagerError::InvalidPoolData);
    }
    let status = *slice_index_get(data, 0);
    let nonce = *slice_index_get(data, 1);
    let word = u32_from_le_bytes(slice_subrange(data, 2, 6));
    let current_tick = word_to_tick(word);
    Ok(RaydiumPoolState { status, nonce, current_tick })
}

/// Writes a whole snapshot into an existing pool account buffer: status,
/// nonce and tick into the first six bytes, every byte past offset 6 left
/// as it was.  Fails with `InvalidPoolData` on a buffer shorter than 6
/// bytes, leaving it untouched.
pub fn initialize_pool(data: &mut Vec<u8>, status: u8, nonce: u8, current_tick: i32) -> (r: Result<(), LiquidityManagerError>)
    ensures
        r is Ok <==> old(data)@.len() >= 6,
        r is Err ==> final(data)@ == old(data)@ && r == Err::<(), LiquidityManagerError>(
            LiquidityManagerError::InvalidPoolData,
        ),
        r is Ok ==> final(data)@ == spec_encode_pool(status, nonce, current_tick) + old(
            data,
        )@.subrange(6, old(data)@.len() as int),
{
    if data.len() < 6 {
        return Err(LiquidityManagerError::InvalidPoolData);
    }
    let word_bytes = u32_to_le_bytes(tick_to_word(current_tick));
    data[0] = status;
    data[1] = nonce;
    data[2] = word_bytes[0];
    data[3] = word_bytes[1];
    data[4] = word_bytes[2];
    data[5] = word_bytes[3];
    proof {
        lemma_auto_spec_u32_to_from_le_bytes();
        assert(data@ =~= spec_encode_pool(status, nonce, current_tick) + old(data)@.subrange(
            6,
            old(data)@.len() as int,
        ));
    }
    Ok(())
}

/// Overwrites the current tick of an existing pool account buffer, leaving
/// every other byte as it was.  Fails with `InvalidPoolData` on a buffer
/// shorter than 6 bytes, leaving it untouched.
pub fn update_pool(data: &mut Vec<u8>, tick: i32) -> (r: Result<(), LiquidityManagerError>)
    ensures
        r is Ok <==> old(data)@.len() >= 6,
        r is Err ==> final(data)@ == old(data)@ && r == Err::<(), LiquidityManagerError>(
            LiquidityManagerError::InvalidPoolData,
        ),
        r is Ok ==> final(data)@ == old(data)@.subrange(0, 2) + spec_u32_to_le_bytes(
            spec_word_of_tick(tick as int),
        ) + old(data)@.subrange(6, old(data)@.len() as int),
{
    if data.len() < 6 {
        return Err(LiquidityManagerError::InvalidPoolData);
    }
    let word_bytes = u32_to_le_bytes(tick_to_word(tick));
    let b0 = word_bytes[0];
    let b1 = word_bytes[1];
    let b2 = word_bytes[2];
    let b3 = word_bytes[3];
    data[2] = b0;
    data[3] = b1;
    data[4] = b2;
    data[5] = b3;
    proof {
        lemma_auto_spec_u32_to_from_le_bytes();
        assert(data@ =~= old(data)@.subrange(0, 2) + spec_u32_to_le_bytes(
            spec_word_of_tick(tick as int),
        ) + old(data)@.subrange(6, old(data)@.len() as int));
    }
    Ok(())
}

} // verus!
