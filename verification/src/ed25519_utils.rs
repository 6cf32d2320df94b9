//! Parsing and binding of signature-verification instruction data.
//!
//! On the execution platform, Ed25519 signatures are verified by a dedicated
//! program co-located in the same transaction: each of its instructions
//! carries one (signature, public key, message) triple that the platform has
//! already verified cryptographically before this code runs. The functions
//! here parse those instructions' raw data and bind the verified triples,
//! byte for byte, to the claims of the burn proof at hand, so a proof can
//! never borrow a verification that was made for different data.

use vstd::prelude::*;
use crate::byteseq::copy_range;
use crate::errors::LightClientError;
use crate::hashes::{keccak256, keccak256_of};
use crate::pubkey::{pubkey_bytes, Pubkey};
use vstd::bytes::{spec_u64_to_le_bytes, u64_to_le_bytes};

verus! {

/// The identity of the platform's Ed25519 signature-verification program.
pub open spec fn spec_ed25519_program_id() -> Pubkey {
    Pubkey {
        w0: 0xbefb937cd6467d03,
        w1: 0xff408d838f42f912,
        w2: 0x648af42749747005,
        w3: 0x804470cafc,
    }
}

/// The identity of the platform's Ed25519 signature-verification program.
pub fn ed25519_program_id() -> (r: Pubkey)
    ensures
        r == spec_ed25519_program_id(),
{
    Pubkey {
        w0: 0xbefb937cd6467d03,
        w1: 0xff408d838f42f912,
        w2: 0x648af42749747005,
        w3: 0x804470cafc,
    }
}

/// One instruction of the surrounding transaction: the program it invokes
/// and its raw data.
#[derive(Clone, Debug)]
pub struct InstructionData {
    /// Which program the instruction invokes.
    pub program_id: Pubkey,
    /// The instruction's raw data bytes.
    pub data: Vec<u8>,
}

/// A 16-bit little-endian offset read at position `i`.
pub open spec fn le16_at(d: Seq<u8>, i: int) -> int {
    d[i] + 256 * d[i + 1]
}

/// Read the 16-bit little-endian value at position `i`.
fn read_le16(d: &Vec<u8>, i: usize) -> (r: usize)
    requires
        i + 2 <= d@.len(),
    ensures
        r == le16_at(d@, i as int),
        r < 0x10000,
{
    let n = d.len();
    assert(i + 2 <= n);
    (d[i] as usize) + 256 * (d[i + 1] as usize)
}

/// Whether raw Ed25519-program instruction data is well-formed for
/// extraction: a full header whose offsets lie within the data and whose
/// message is the 32 bytes a vote message must be.
pub open spec fn ed25519_data_well_formed(d: Seq<u8>) -> bool {
    &&& d.len() >= 16
    &&& le16_at(d, 2) + 64 <= d.len()
    &&& le16_at(d, 6) + 32 <= d.len()
    &&& le16_at(d, 10) + le16_at(d, 12) <= d.len()
    &&& le16_at(d, 12) == 32
}

/// Extract the (public key, signature, message) triple from raw
/// Ed25519-program instruction data.
///
/// The data layout is: a 16-byte header of little-endian offsets (signature
/// at positions 2..4, public key at 6..8, message offset at 10..12 and
/// message size at 12..14), followed by the payloads the offsets point at.
pub fn extract_ed25519_data(ix_data: &Vec<u8>) -> (r: Result<
    (Pubkey, Vec<u8>, Vec<u8>),
    LightClientError,
>)
    ensures
        r is Ok <==> ed25519_data_well_formed(ix_data@),
        r matches Ok((pk, sig, msg)) ==> {
            &&& pubkey_bytes(pk) == ix_data@.subrange(
                le16_at(ix_data@, 6),
                le16_at(ix_data@, 6) + 32,
            )
            &&& sig@ == ix_data@.subrange(le16_at(ix_data@, 2), le16_at(ix_data@, 2) + 64)
            &&& msg@ == ix_data@.subrange(le16_at(ix_data@, 10), le16_at(ix_data@, 10) + 32)
            &&& sig@.len() == 64
            &&& msg@.len() == 32
        },
        r == Err::<(Pubkey, Vec<u8>, Vec<u8>), LightClientError>(
            LightClientError::InvalidEd25519Instruction,
        ) <==> (ix_data@.len() < 16 || (ix_data@.len() >= 16 && (le16_at(ix_data@, 2) + 64
            > ix_data@.len() || le16_at(ix_data@, 6) + 32 > ix_data@.len() || le16_at(ix_data@, 10)
            + le16_at(ix_data@, 12) > ix_data@.len()))),
        r == Err::<(Pubkey, Vec<u8>, Vec<u8>), LightClientError>(
            LightClientError::InvalidMessageSize,
        ) <==> {
            &&& ix_data@.len() >= 16
            &&& le16_at(ix_data@, 2) + 64 <= ix_data@.len()
            &&& le16_at(ix_data@, 6) + 32 <= ix_data@.len()
            &&& le16_at(ix_data@, 10) + le16_at(ix_data@, 12) <= ix_data@.len()
            &&& le16_at(ix_data@, 12) != 32
        },
{
    if ix_data.len() < 16 {
        return Err(LightClientError::InvalidEd25519Instruction);
    }
    let sig_offset = read_le16(ix_data, 2);
    let pubkey_offset = read_le16(ix_data, 6);
    let msg_offset = read_le16(ix_data, 10);
    let msg_size = read_le16(ix_data, 12);
    if sig_offset + 64 > ix_data.len() {
        return Err(LightClientError::InvalidEd25519Instruction);
    }
    if pubkey_offset + 32 > ix_data.len() {
        return Err(LightClientError::InvalidEd25519Instruction);
    }
    if msg_offset + msg_size > ix_data.len() {
        return Err(LightClientError::InvalidEd25519Instruction);
    }
    if msg_size != 32 {
        return Err(LightClientError::InvalidMessageSize);
    }
    let signature = copy_range(ix_data, sig_offset, sig_offset + 64);
    let pubkey_raw = copy_range(ix_data, pubkey_offset, pubkey_offset + 32);
    let pubkey = crate::pubkey::pubkey_from_bytes(&pubkey_raw);
    let message = copy_range(ix_data, msg_offset, msg_offset + 32);
    Ok((pubkey, signature, message))
}

/// Create the vote message validators sign: the Keccak-256 digest of the
/// block hash followed by the slot in little-endian bytes. Signing the
/// digest binds a signature to one block at one slot.
pub open spec fn vote_message_preimage(block_hash: Seq<u8>, slot: u64) -> Seq<u8> {
    block_hash + spec_u64_to_le_bytes(slot)
}

/// Build the vote message for a block hash and slot.
pub fn create_vote_message(block_hash: &Vec<u8>, slot: u64) -> (r: Vec<u8>)
    ensures
        r@ == keccak256_of(vote_message_preimage(block_hash@, slot)),
        r@.len() == 32,
{
    let mut data = crate::byteseq::copy_bytes(block_hash);
    let mut slot_bytes = u64_to_le_bytes(slot);
    data.append(&mut slot_bytes);
    keccak256(data.as_slice())
}

/// The exact verdict of binding one Ed25519-program instruction to expected
/// values: the instruction must invoke the Ed25519 program, carry exactly
/// one signature, and its signature, public key and message payloads must
/// equal the expected ones byte for byte.
///
/// The data layout here is the single-signature header: a count byte, then
/// little-endian offsets (signature at positions 1..3, public key at 5..7,
/// message offset at 9..11 and message size at 11..13).
pub open spec fn native_signature_verdict(
    ix: InstructionData,
    signature: Seq<u8>,
    message: Seq<u8>,
    pubkey: Pubkey,
) -> Result<(), LightClientError> {
    let d = ix.data@;
    if ix.program_id != spec_ed25519_program_id() {
        Err(LightClientError::InvalidValidatorSignature)
    } else if d.len() < 14 {
        Err(LightClientError::InvalidSignatureFormat)
    } else if d[0] != 1 {
        Err(LightClientError::InvalidSignatureFormat)
    } else if le16_at(d, 1) + 64 > d.len() {
        Err(LightClientError::InvalidSignatureFormat)
    } else if d.subrange(le16_at(d, 1), le16_at(d, 1) + 64) != signature {
        Err(LightClientError::InvalidValidatorSignature)
    } else if le16_at(d, 5) + 32 > d.len() {
        Err(LightClientError::InvalidSignatureFormat)
    } else if d.subrange(le16_at(d, 5), le16_at(d, 5) + 32) != pubkey_bytes(pubkey) {
        Err(LightClientError::InvalidValidatorSignature)
    } else if le16_at(d, 9) + le16_at(d, 11) > d.len() {
        Err(LightClientError::InvalidSignatureFormat)
    } else if le16_at(d, 11) != 32 {
        Err(LightClientError::InvalidSignatureFormat)
    } else if d.subrange(le16_at(d, 9), le16_at(d, 9) + 32) != message {
        Err(LightClientError::InvalidValidatorSignature)
    } else {
        Ok(())
    }
}

/// Bind one already-verified Ed25519-program instruction to the expected
/// signature, message and public key.
///
/// The platform has verified the triple cryptographically before this code
/// runs; this check proves the verified triple is exactly the one this
/// proof claims, preventing substitution.
pub fn verify_ed25519_signature_native(
    ix: &InstructionData,
    signature: &Vec<u8>,
    message: &Vec<u8>,
    pubkey: &Pubkey,
) -> (r: Result<(), LightClientError>)
    ensures
        r == native_signature_verdict(*ix, signature@, message@, *pubkey),
{
    let expected_program = ed25519_program_id();
    if !(ix.program_id == expected_program) {
        return Err(LightClientError::InvalidValidatorSignature);
    }
    let d = &ix.data;
    if d.len() < 14 {
        return Err(LightClientError::InvalidSignatureFormat);
    }
    if d[0] != 1 {
        return Err(LightClientError::InvalidSignatureFormat);
    }
    let sig_offset = read_le16(d, 1);
    let pubkey_offset = read_le16(d, 5);
    let msg_offset = read_le16(d, 9);
    let msg_size = read_le16(d, 11);
    if sig_offset + 64 > d.len() {
        return Err(LightClientError::InvalidSignatureFormat);
    }
    let ix_signature = copy_range(d, sig_offset, sig_offset + 64);
    if !crate::byteseq::bytes_eq(&ix_signature, signature) {
        return Err(LightClientError::InvalidValidatorSignature);
    }
    if pubkey_offset + 32 > d.len() {
        return Err(LightClientError::InvalidSignatureFormat);
    }
    let ix_pubkey = copy_range(d, pubkey_offset, pubkey_offset + 32);
    let expected_pubkey = pubkey.to_bytes();
    if !crate::byteseq::bytes_eq(&ix_pubkey, &expected_pubkey) {
        return Err(LightClientError::InvalidValidatorSignature);
    }
    if msg_offset + msg_size > d.len() {
        return Err(LightClientError::InvalidSignatureFormat);
    }
    if msg_size != 32 {
        return Err(LightClientError::InvalidSignatureFormat);
    }
    let ix_message = copy_range(d, msg_offset, msg_offset + 32);
    if !crate::byteseq::bytes_eq(&ix_message, message) {
        return Err(LightClientError::InvalidValidatorSignature);
    }
    Ok(())
}

} // verus!
