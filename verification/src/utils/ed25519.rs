//! Authorization verifier.
//!
//! A transfer request must be accompanied, inside the same atomic
//! execution unit, by a signature-check operation of the environment's
//! native precompile.  That operation's data starts with a fixed-layout
//! offsets header (`Ed25519SignatureOffsets`, seven 16-bit little-endian
//! fields) declaring where the signature, the public key and the message
//! lie.  The precompile itself already verified that triple; this module
//! only confirms that the triple is the *expected* one: that every
//! declaring-instruction index refers to the companion operation itself,
//! that the declared ranges fit its data, and that the message and public
//! key found there equal, byte for byte, the canonical authorization and
//! the configured signer key.
//!
//! This is a pure gate with no side effects, evaluated before any funds
//! move.

use crate::errors::SignatureVerificationError;
use crate::state::Ed25519SignatureOffsets;
use crate::state::Pubkey;
use vstd::prelude::*;

verus! {

/// Length in bytes of the offsets header at the start of the companion
/// operation's data.
pub const OFFSETS_HEADER_LEN: usize = 14;

/// The index value by which a declaring-instruction field refers to the
/// companion operation itself.
pub const CURRENT_INSTRUCTION: u16 = 0xffff;

/// Length in bytes of an ed25519 public key.
pub const PUBKEY_LEN: usize = 32;

/// The 16-bit little-endian quantity at position `i` of `s`.
pub open spec fn u16_at(s: Seq<u8>, i: int) -> u16 {
    (s[i] + s[i + 1] * 256) as u16
}

/// The offsets header as declared by the first `OFFSETS_HEADER_LEN` bytes
/// of the companion operation's data.
pub open spec fn spec_offsets(s: Seq<u8>) -> Ed25519SignatureOffsets {
    Ed25519SignatureOffsets {
        signature_offset: u16_at(s, 0),
        signature_instruction_index: u16_at(s, 2),
        public_key_offset: u16_at(s, 4),
        public_key_instruction_index: u16_at(s, 6),
        message_data_offset: u16_at(s, 8),
        message_data_size: u16_at(s, 10),
        message_instruction_index: u16_at(s, 12),
    }
}

/// What the verifier decides on companion data `data`, expected message
/// `msg` and expected signer key `signer`, checked in this order:
///
/// 1. the data holds the whole header, else `LessDataThanExpected`;
/// 2. the declared public key fits the data, else `InvalidDataFormat`;
/// 3. every declaring-instruction index refers to the companion operation
///    itself, else `InvalidSignatureData`;
/// 4. the declared message fits the data and equals `msg`, else
///    `InvalidMessageData`;
/// 5. the declared public key equals `signer`, else `InvalidSignature`.
pub open spec fn spec_verify(data: Seq<u8>, msg: Seq<u8>, signer: Seq<u8>) -> Result<
    (),
    SignatureVerificationError,
> {
    if data.len() < OFFSETS_HEADER_LEN {
        Err(SignatureVerificationError::LessDataThanExpected)
    } else {
        let o = spec_offsets(data);
        if o.public_key_offset + PUBKEY_LEN > data.len() {
            Err(SignatureVerificationError::InvalidDataFormat)
        } else if o.signature_instruction_index != CURRENT_INSTRUCTION
            || o.public_key_instruction_index != CURRENT_INSTRUCTION
            || o.message_instruction_index != CURRENT_INSTRUCTION {
            Err(SignatureVerificationError::InvalidSignatureData)
        } else if o.message_data_offset + o.message_data_size > data.len() {
            Err(SignatureVerificationError::InvalidMessageData)
        } else if data.subrange(
            o.message_data_offset as int,
            o.message_data_offset + o.message_data_size,
        ) != msg {
            Err(SignatureVerificationError::InvalidMessageData)
        } else if data.subrange(
            o.public_key_offset as int,
            o.public_key_offset + PUBKEY_LEN,
        ) != signer {
            Err(SignatureVerificationError::InvalidSignature)
        } else {
            Ok(())
        }
    }
}

/// Reads the 16-bit little-endian quantity at position `i` of `data`.
fn read_u16_le(data: &[u8], i: usize) -> (x: u16)
    requires
        i + 2 <= data@.len(),
    ensures
        x == u16_at(data@, i as int),
{
    let lo = data[i];
    let hi = data[i + 1];
    lo as u16 + (hi as u16) * 256
}

/// Parses the offsets header from the companion operation's data.
pub fn parse_offsets(data: &[u8]) -> (r: Result<
    Ed25519SignatureOffsets,
    SignatureVerificationError,
>)
    ensures
        data@.len() >= OFFSETS_HEADER_LEN ==> r == Ok::<
            Ed25519SignatureOffsets,
            SignatureVerificationError,
        >(spec_offsets(data@)),
        data@.len() < OFFSETS_HEADER_LEN ==> r == Err::<
            Ed25519SignatureOffsets,
            SignatureVerificationError,
        >(SignatureVerificationError::LessDataThanExpected),
{
    if data.len() < OFFSETS_HEADER_LEN {
        return Err(SignatureVerificationError::LessDataThanExpected);
    }
    Ok(
        Ed25519SignatureOffsets {
            signature_offset: read_u16_le(data, 0),
            signature_instruction_index: read_u16_le(data, 2),
            public_key_offset: read_u16_le(data, 4),
            public_key_instruction_index: read_u16_le(data, 6),
            message_data_offset: read_u16_le(data, 8),
            message_data_size: read_u16_le(data, 10),
            message_instruction_index: read_u16_le(data, 12),
        },
    )
}

/// Compares `expected` with the bytes of `data` starting at `start`.
fn range_eq(data: &[u8], start: usize, expected: &[u8]) -> (r: bool)
    requires
        start + expected@.len() <= data@.len(),
    ensures
        r <==> data@.subrange(start as int, start + expected@.len()) == expected@,
{
    let n = expected.len();
    let dlen = data.len();
    let mut i: usize = 0;
    while i < n
        invariant
            n == expected@.len(),
            dlen == data@.len(),
            start + n <= dlen,
            i <= n,
            forall|j: int| 0 <= j < i ==> data@[start + j] == expected@[j],
        decreases n - i,
    {
        if data[start + i] != expected[i] {
            proof {
                assert(data@.subrange(start as int, start + expected@.len())[i as int]
                    == data@[start + i]);
            }
            return false;
        }
        i += 1;
    }
    proof {
        assert(data@.subrange(start as int, start + expected@.len()) =~= expected@);
    }
    true
}

/// Confirms that the companion signature-check operation, whose data is
/// `data`, attests exactly the pair of the expected authorization bytes
/// `msg` and the configured signer key `signer`.  Returns `Ok` if and
/// only if the checks of [`spec_verify`] all pass, and otherwise the
/// error of the first failing one.
pub fn verify_ed25519_ix(data: &[u8], msg: &[u8], signer: &Pubkey) -> (r: Result<
    (),
    SignatureVerificationError,
>)
    ensures
        r == spec_verify(data@, msg@, signer@),
{
    let offsets = match parse_offsets(data) {
        Ok(o) => o,
        Err(e) => { return Err(e) },
    };
    let pk_off = offsets.public_key_offset as usize;
    if pk_off + PUBKEY_LEN > data.len() {
        return Err(SignatureVerificationError::InvalidDataFormat);
    }
    if offsets.signature_instruction_index != CURRENT_INSTRUCTION
        || offsets.public_key_instruction_index != CURRENT_INSTRUCTION
        || offsets.message_instruction_index != CURRENT_INSTRUCTION {
        return Err(SignatureVerificationError::InvalidSignatureData);
    }
    let msg_off = offsets.message_data_offset as usize;
    let msg_len = offsets.message_data_size as usize;
    if msg_off + msg_len > data.len() {
        return Err(SignatureVerificationError::InvalidMessageData);
    }
    if msg.len() != msg_len || !range_eq(data, msg_off, msg) {
        return Err(SignatureVerificationError::InvalidMessageData);
    }
    if !range_eq(data, pk_off, signer.as_slice()) {
        return Err(SignatureVerificationError::InvalidSignature);
    }
    Ok(())
}

/// Law: a verified authorization pins the signed message.  If
/// verification succeeds for a message, then after mutating any single
/// byte of it verification fails.
pub proof fn lemma_mutated_message_fails(
    data: Seq<u8>,
    msg: Seq<u8>,
    signer: Seq<u8>,
    i: int,
    b: u8,
)
    requires
        spec_verify(data, msg, signer) is Ok,
        0 <= i < msg.len(),
        b != msg[i],
    ensures
        spec_verify(data, msg.update(i, b), signer) == Err::<(), SignatureVerificationError>(
            SignatureVerificationError::InvalidMessageData,
        ),
{
    let msg2 = msg.update(i, b);
    assert(msg2[i] == b);
    assert(msg2 != msg);
}

/// Law: a verified authorization pins the signer key.  If verification
/// succeeds under one key, it fails under any other.
pub proof fn lemma_substituted_signer_fails(
    data: Seq<u8>,
    msg: Seq<u8>,
    signer1: Seq<u8>,
    signer2: Seq<u8>,
)
    requires
        spec_verify(data, msg, signer1) is Ok,
        signer2 != signer1,
    ensures
        spec_verify(data, msg, signer2) == Err::<(), SignatureVerificationError>(
            SignatureVerificationError::InvalidSignature,
        ),
{
}

} // verus!
