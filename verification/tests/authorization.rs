use cashmere_cctp::errors::SignatureVerificationError;
use cashmere_cctp::state::Ed25519SignatureOffsets;
use cashmere_cctp::utils::ed25519::parse_offsets;
use cashmere_cctp::utils::ed25519::verify_ed25519_ix;

/// Companion-operation data attesting `msg` under `signer`: the 14-byte
/// offsets header, then the public key, then the message, every
/// declaring-instruction index referring to the operation itself.
fn companion_data(signer: &[u8; 32], msg: &[u8]) -> Vec<u8> {
    let pk_off: u16 = 14;
    let msg_off: u16 = 14 + 32;
    let header: [u16; 7] = [0, 0xffff, pk_off, 0xffff, msg_off, msg.len() as u16, 0xffff];
    let mut data = Vec::new();
    for field in header {
        data.extend_from_slice(&field.to_le_bytes());
    }
    data.extend_from_slice(signer);
    data.extend_from_slice(msg);
    data
}

#[test]
fn valid_authorization_verifies() {
    let signer = [7u8; 32];
    let msg = [1u8, 2, 3, 4, 5];
    let data = companion_data(&signer, &msg);
    assert_eq!(verify_ed25519_ix(&data, &msg, &signer), Ok(()));
}

#[test]
fn empty_message_verifies() {
    let signer = [9u8; 32];
    let data = companion_data(&signer, &[]);
    assert_eq!(verify_ed25519_ix(&data, &[], &signer), Ok(()));
}

#[test]
fn every_single_byte_mutation_fails() {
    let signer = [7u8; 32];
    let msg = [1u8, 2, 3, 4, 5];
    let data = companion_data(&signer, &msg);
    for i in 0..msg.len() {
        let mut mutated = msg;
        mutated[i] ^= 0x20;
        assert_eq!(
            verify_ed25519_ix(&data, &mutated, &signer),
            Err(SignatureVerificationError::InvalidMessageData)
        );
    }
}

#[test]
fn substituted_signer_fails() {
    let signer = [7u8; 32];
    let msg = [1u8, 2, 3];
    let data = companion_data(&signer, &msg);
    let mut other = signer;
    other[31] = 8;
    assert_eq!(
        verify_ed25519_ix(&data, &msg, &other),
        Err(SignatureVerificationError::InvalidSignature)
    );
}

#[test]
fn message_of_wrong_length_fails() {
    let signer = [7u8; 32];
    let msg = [1u8, 2, 3];
    let data = companion_data(&signer, &msg);
    assert_eq!(
        verify_ed25519_ix(&data, &[1, 2], &signer),
        Err(SignatureVerificationError::InvalidMessageData)
    );
    assert_eq!(
        verify_ed25519_ix(&data, &[1, 2, 3, 0], &signer),
        Err(SignatureVerificationError::InvalidMessageData)
    );
}

#[test]
fn short_buffer_fails() {
    let signer = [7u8; 32];
    assert_eq!(
        verify_ed25519_ix(&[0u8; 13], &[], &signer),
        Err(SignatureVerificationError::LessDataThanExpected)
    );
    assert_eq!(
        verify_ed25519_ix(&[], &[], &signer),
        Err(SignatureVerificationError::LessDataThanExpected)
    );
}

#[test]
fn out_of_bounds_public_key_fails() {
    let signer = [7u8; 32];
    let msg = [1u8];
    let mut data = companion_data(&signer, &msg);
    // Declare the public key so late that it cannot fit the buffer.
    let pk_off = (data.len() as u16 - 31).to_le_bytes();
    data[4] = pk_off[0];
    data[5] = pk_off[1];
    assert_eq!(
        verify_ed25519_ix(&data, &msg, &signer),
        Err(SignatureVerificationError::InvalidDataFormat)
    );
}

#[test]
fn foreign_instruction_index_fails() {
    let signer = [7u8; 32];
    let msg = [1u8, 2];
    for field_offset in [2usize, 6, 12] {
        let mut data = companion_data(&signer, &msg);
        // An index other than 0xffff refers to another instruction.
        data[field_offset] = 0;
        data[field_offset + 1] = 0;
        assert_eq!(
            verify_ed25519_ix(&data, &msg, &signer),
            Err(SignatureVerificationError::InvalidSignatureData)
        );
    }
}

#[test]
fn out_of_bounds_message_fails() {
    let signer = [7u8; 32];
    let msg = [1u8, 2, 3];
    let mut data = companion_data(&signer, &msg);
    // Declare one byte more than the buffer holds.
    let msg_len = (msg.len() as u16 + 1).to_le_bytes();
    data[10] = msg_len[0];
    data[11] = msg_len[1];
    assert_eq!(
        verify_ed25519_ix(&data, &msg, &signer),
        Err(SignatureVerificationError::InvalidMessageData)
    );
}

#[test]
fn offsets_parse_little_endian_fields() {
    let signer = [0u8; 32];
    let msg = [5u8; 300];
    let data = companion_data(&signer, &msg);
    assert_eq!(
        parse_offsets(&data),
        Ok(Ed25519SignatureOffsets {
            signature_offset: 0,
            signature_instruction_index: 0xffff,
            public_key_offset: 14,
            public_key_instruction_index: 0xffff,
            message_data_offset: 46,
            message_data_size: 300,
            message_instruction_index: 0xffff,
        })
    );
    assert_eq!(
        parse_offsets(&[1u8; 5]),
        Err(SignatureVerificationError::LessDataThanExpected)
    );
}
