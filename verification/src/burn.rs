//! The source-ledger burn side.
//!
//! Burning assigns the burn a fresh nonce from a global counter, records
//! user, amount, nonce and a digest over them for relayers, and emits the
//! event the attesting validators will later vouch for. All counters use
//! checked arithmetic and fail closed.

use vstd::prelude::*;
use vstd::bytes::{spec_u64_to_le_bytes, u64_to_le_bytes};
use crate::hashes::{keccak256, keccak256_of};
use crate::pubkey::{pubkey_bytes, Pubkey};
use crate::verification::BurnRecord;

verus! {

/// Global burn-side state: the nonce counter and totals.
#[derive(Clone, Copy, PartialEq, Eq, Structural, Debug)]
pub struct GlobalState {
    /// Next burn nonce.
    pub nonce_counter: u64,
    /// How many burns have happened.
    pub total_burns: u64,
    /// Total amount ever burned.
    pub total_amount_burned: u64,
}

/// Event emitted for every burn, consumed by relayers.
#[derive(Clone, Copy, PartialEq, Eq, Structural, Debug)]
pub struct Burned {
    pub user: Pubkey,
    pub amount: u64,
    pub nonce: u64,
    pub timestamp: u64,
}

/// Reasons a burn can fail.
#[derive(Clone, Copy, PartialEq, Eq, Structural, Debug)]
pub enum ErrorCode {
    /// The amount must be greater than zero.
    InvalidAmount,
    /// The token account is not owned by the burning user.
    InvalidOwner,
    /// The token account does not belong to the expected token.
    InvalidMint,
    /// The nonce counter would overflow.
    NonceOverflow,
    /// The burn counter would overflow.
    CounterOverflow,
    /// The burned-amount total would overflow.
    AmountOverflow,
}

/// The bytes hashed into a burn record's digest: user, amount, nonce.
pub open spec fn burn_record_hash_preimage(user: Pubkey, amount: u64, nonce: u64) -> Seq<u8> {
    pubkey_bytes(user) + spec_u64_to_le_bytes(amount) + spec_u64_to_le_bytes(nonce)
}

/// Compute a burn record's digest: the Keccak-256 of user, amount and
/// nonce, which relayers use to verify the record.
pub fn compute_record_hash(user: &Pubkey, amount: u64, nonce: u64) -> (r: Vec<u8>)
    ensures
        r@ == keccak256_of(burn_record_hash_preimage(*user, amount, nonce)),
        r@.len() == 32,
{
    let mut hash_data = user.to_bytes();
    let mut amount_bytes = u64_to_le_bytes(amount);
    hash_data.append(&mut amount_bytes);
    let mut nonce_bytes = u64_to_le_bytes(nonce);
    hash_data.append(&mut nonce_bytes);
    keccak256(hash_data.as_slice())
}

/// Burn: draw the next nonce, advance the totals (failing closed on any
/// overflow), and produce the burn record and the event. The platform
/// performs the token burn of exactly the returned record's amount.
pub fn burn_xencat(state: &mut GlobalState, user: Pubkey, amount: u64, timestamp: u64, bump: u8) -> (r:
    Result<(BurnRecord, Burned), ErrorCode>)
    ensures
        r is Ok <==> {
            &&& amount > 0
            &&& old(state).nonce_counter < u64::MAX
            &&& old(state).total_burns < u64::MAX
            &&& old(state).total_amount_burned + amount <= u64::MAX
        },
        r is Err ==> *final(state) == *old(state),
        r == Err::<(BurnRecord, Burned), ErrorCode>(ErrorCode::InvalidAmount) <==> amount == 0,
        r == Err::<(BurnRecord, Burned), ErrorCode>(ErrorCode::NonceOverflow) <==> (amount > 0
            && old(state).nonce_counter == u64::MAX),
        r == Err::<(BurnRecord, Burned), ErrorCode>(ErrorCode::CounterOverflow) <==> (amount > 0
            && old(state).nonce_counter < u64::MAX && old(state).total_burns == u64::MAX),
        r == Err::<(BurnRecord, Burned), ErrorCode>(ErrorCode::AmountOverflow) <==> (amount > 0
            && old(state).nonce_counter < u64::MAX && old(state).total_burns < u64::MAX && old(
            state,
        ).total_amount_burned + amount > u64::MAX),
        r matches Ok((record, event)) ==> {
            &&& *final(state) == (GlobalState {
                nonce_counter: (old(state).nonce_counter + 1) as u64,
                total_burns: (old(state).total_burns + 1) as u64,
                total_amount_burned: (old(state).total_amount_burned + amount) as u64,
            })
            &&& record.user == user
            &&& record.amount == amount
            &&& record.nonce == old(state).nonce_counter
            &&& record.timestamp == timestamp
            &&& record.record_hash@ == keccak256_of(
                burn_record_hash_preimage(user, amount, old(state).nonce_counter),
            )
            &&& record.bump == bump
            &&& event == (Burned { user, amount, nonce: old(state).nonce_counter, timestamp })
        },
{
    if amount == 0 {
        return Err(ErrorCode::InvalidAmount);
    }
    let nonce = state.nonce_counter;
    let next_nonce = match state.nonce_counter.checked_add(1) {
        Some(n) => n,
        None => {
            return Err(ErrorCode::NonceOverflow);
        },
    };
    let next_burns = match state.total_burns.checked_add(1) {
        Some(n) => n,
        None => {
            return Err(ErrorCode::CounterOverflow);
        },
    };
    let next_total = match state.total_amount_burned.checked_add(amount) {
        Some(n) => n,
        None => {
            return Err(ErrorCode::AmountOverflow);
        },
    };
    state.nonce_counter = next_nonce;
    state.total_burns = next_burns;
    state.total_amount_burned = next_total;
    let record_hash = compute_record_hash(&user, amount, nonce);
    let record = BurnRecord { user, amount, nonce, timestamp, record_hash, bump };
    let event = Burned { user, amount, nonce, timestamp };
    Ok((record, event))
}

} // verus!
