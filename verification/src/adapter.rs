//! Outbound messages to the external AMM / router.
//!
//! The controller owns only the encoding of its three requests and the
//! account lists attached to them; the external protocol's internal logic
//! stays outside.  Each message is a single-byte discriminator followed by
//! little-endian fixed-width fields:
//!
//! * swap:     `[0x01][u64 amount_in][u64 min_out]`
//! * deposit:  `[0x02][i32 lower_tick][i32 upper_tick][u128 liquidity][u64 max_a][u64 max_b]`
//! * withdraw: `[0x03][u128 liquidity][u64 min_a][u64 min_b]`
//!
//! Every request carries an ordered list of account references with
//! explicit writability and signer flags: the operator as signer, then the
//! pool and the two vaults writable; a swap orders the vaults
//! input-then-output.  A list that does not match this convention fails
//! fast with `AccountNotFound` / `InvalidAccountData`, before any message
//! leaves the controller.

use vstd::prelude::*;
use vstd::bytes::{
    spec_u128_to_le_bytes, spec_u32_to_le_bytes, spec_u64_to_le_bytes, u128_to_le_bytes,
    u32_to_le_bytes, u64_to_le_bytes,
};

use crate::errors::LiquidityManagerError;
use crate::pool::spec_word_of_tick;
use crate::position::{AccountId, LiquidityManager};

verus! {

/// One of the three request shapes addressed to the external protocol.
#[derive(Clone, Copy, Debug, PartialEq, Eq, Structural)]
pub enum ProtocolRequest {
    /// Remove `liquidity` from the pool, crediting the vaults; each vault
    /// must receive at least its stated minimum.
    Withdraw { liquidity: u128, min_a: u64, min_b: u64 },
    /// Trade `amount_in` of one vault's asset for at least `min_out` of
    /// the other's; `a_to_b` picks the direction.
    Swap { amount_in: u64, min_out: u64, a_to_b: bool },
    /// Deposit `liquidity` into the given range, posting at most the
    /// stated maximum of each asset.
    Deposit { lower_tick: i32, upper_tick: i32, liquidity: u128, max_a: u64, max_b: u64 },
}

/// An account reference attached to a request, with the mutability and
/// signer flags the external protocol's calling convention requires.
#[derive(Clone, Copy, Debug, PartialEq, Eq, Structural)]
pub struct AccountRef {
    pub id: AccountId,
    pub is_writable: bool,
    pub is_signer: bool,
}

/// A read-only signing reference.
pub open spec fn spec_signer_ref(id: AccountId) -> AccountRef {
    AccountRef { id, is_writable: false, is_signer: true }
}

/// A writable, non-signing reference.
pub open spec fn spec_writable_ref(id: AccountId) -> AccountRef {
    AccountRef { id, is_writable: true, is_signer: false }
}

/// The wire bytes of a request.
pub open spec fn spec_encode_request(req: ProtocolRequest) -> Seq<u8> {
    match req {
        ProtocolRequest::Withdraw { liquidity, min_a, min_b } => seq![0x03u8]
            + spec_u128_to_le_bytes(liquidity) + spec_u64_to_le_bytes(min_a)
            + spec_u64_to_le_bytes(min_b),
        ProtocolRequest::Swap { amount_in, min_out, .. } => seq![0x01u8] + spec_u64_to_le_bytes(
            amount_in,
        ) + spec_u64_to_le_bytes(min_out),
        ProtocolRequest::Deposit { lower_tick, upper_tick, liquidity, max_a, max_b } => seq![0x02u8]
            + spec_u32_to_le_bytes(spec_word_of_tick(lower_tick as int)) + spec_u32_to_le_bytes(
            spec_word_of_tick(upper_tick as int),
        ) + spec_u128_to_le_bytes(liquidity) + spec_u64_to_le_bytes(max_a) + spec_u64_to_le_bytes(
            max_b,
        ),
    }
}

/// The account list a request must carry: the operator signs, the pool and
/// both vaults are writable; a swap lists its input vault before its
/// output vault.
pub open spec fn spec_expected_accounts(req: ProtocolRequest, position: LiquidityManager) -> Seq<
    AccountRef,
> {
    match req {
        ProtocolRequest::Swap { a_to_b, .. } => if a_to_b {
            seq![
                spec_signer_ref(position.executor),
                spec_writable_ref(position.pool),
                spec_writable_ref(position.token_vault_a),
                spec_writable_ref(position.token_vault_b),
            ]
        } else {
            seq![
                spec_signer_ref(position.executor),
                spec_writable_ref(position.pool),
                spec_writable_ref(position.token_vault_b),
                spec_writable_ref(position.token_vault_a),
            ]
        },
        _ => seq![
            spec_signer_ref(position.executor),
            spec_writable_ref(position.pool),
            spec_writable_ref(position.token_vault_a),
            spec_writable_ref(position.token_vault_b),
        ],
    }
}

/// Encodes a request into its wire bytes.
pub fn encode_request(req: &ProtocolRequest) -> (r: Vec<u8>)
    ensures
        r@ == spec_encode_request(*req),
{
    match req {
        ProtocolRequest::Withdraw { liquidity, min_a, min_b } => {
            let mut out: Vec<u8> = Vec::new();
            out.push(0x03u8);
            let mut field = u128_to_le_bytes(*liquidity);
            out.append(&mut field);
            let mut field = u64_to_le_bytes(*min_a);
            out.append(&mut field);
            let mut field = u64_to_le_bytes(*min_b);
            out.append(&mut field);
            proof {
                assert(out@ =~= spec_encode_request(*req));
            }
            out
        }
        ProtocolRequest::Swap { amount_in, min_out, .. } => {
            let mut out: Vec<u8> = Vec::new();
            out.push(0x01u8);
            let mut field = u64_to_le_bytes(*amount_in);
            out.append(&mut field);
            let mut field = u64_to_le_bytes(*min_out);
            out.append(&mut field);
            proof {
                assert(out@ =~= spec_encode_request(*req));
            }
            out
        }
        ProtocolRequest::Deposit { lower_tick, upper_tick, liquidity, max_a, max_b } => {
            let mut out: Vec<u8> = Vec::new();
            out.push(0x02u8);
            let mut field = u32_to_le_bytes(tick_word(*lower_tick));
            out.append(&mut field);
            let mut field = u32_to_le_bytes(tick_word(*upper_tick));
            out.append(&mut field);
            let mut field = u128_to_le_bytes(*liquidity);
            out.append(&mut field);
            let mut field = u64_to_le_bytes(*max_a);
            out.append(&mut field);
            let mut field = u64_to_le_bytes(*max_b);
            out.append(&mut field);
            proof {
                assert(out@ =~= spec_encode_request(*req));
            }
            out
        }
    }
}

fn tick_word(tick: i32) -> (w: u32)
    ensures
        w == spec_word_of_tick(tick as int),
{
    if tick >= 0 {
        tick as u32
    } else {
        ((tick as i64) + 0x1_0000_0000i64) as u32
    }
}

/// Builds the account list a request must carry for the given position.
pub fn expected_accounts(req: &ProtocolRequest, position: &LiquidityManager) -> (r: Vec<AccountRef>)
    ensures
        r@ == spec_expected_accounts(*req, *position),
{
    let first_vault: AccountId;
    let second_vault: AccountId;
    match req {
        ProtocolRequest::Swap { a_to_b, .. } => {
            if *a_to_b {
                first_vault = position.token_vault_a;
                second_vault = position.token_vault_b;
            } else {
                first_vault = position.token_vault_b;
                second_vault = position.token_vault_a;
            }
        }
        _ => {
            first_vault = position.token_vault_a;
            second_vault = position.token_vault_b;
        }
    }
    let mut out: Vec<AccountRef> = Vec::new();
    out.push(AccountRef { id: position.executor, is_writable: false, is_signer: true });
    out.push(AccountRef { id: position.pool, is_writable: true, is_signer: false });
    out.push(AccountRef { id: first_vault, is_writable: true, is_signer: false });
    out.push(AccountRef { id: second_vault, is_writable: true, is_signer: false });
    proof {
        assert(out@ =~= spec_expected_accounts(*req, *position));
    }
    out
}

/// Checks an account list against the calling convention before the
/// message is sent: a list of the wrong length fails with
/// `AccountNotFound`, a list with a wrong identity or wrong flags with
/// `InvalidAccountData`.
pub fn validate_accounts(
    req: &ProtocolRequest,
    accounts: &Vec<AccountRef>,
    position: &LiquidityManager,
) -> (r: Result<(), LiquidityManagerError>)
    ensures
        r is Ok <==> accounts@ == spec_expected_accounts(*req, *position),
        accounts@.len() != spec_expected_accounts(*req, *position).len() ==> r == Err::<
            (),
            LiquidityManagerError,
        >(LiquidityManagerError::AccountNotFound),
        accounts@.len() == spec_expected_accounts(*req, *position).len() && accounts@
            != spec_expected_accounts(*req, *position) ==> r == Err::<(), LiquidityManagerError>(
            LiquidityManagerError::InvalidAccountData,
        ),
{
    let expected = expected_accounts(req, position);
    if accounts.len() != expected.len() {
        return Err(LiquidityManagerError::AccountNotFound);
    }
    let mut i: usize = 0;
    while i < expected.len()
        invariant
            0 <= i <= expected.len(),
            accounts@.len() == expected@.len(),
            expected@ == spec_expected_accounts(*req, *position),
            forall|j: int| 0 <= j < i ==> accounts@[j] == expected@[j],
        decreases expected.len() - i,
    {
        let given = accounts[i];
        let want = expected[i];
        if !(given.id.hi == want.id.hi && given.id.lo == want.id.lo && given.is_writable
            == want.is_writable && given.is_signer == want.is_signer) {
            return Err(LiquidityManagerError::InvalidAccountData);
        }
        i = i + 1;
    }
    proof {
        assert(accounts@ =~= spec_expected_accounts(*req, *position));
    }
    Ok(())
}

} // verus!
