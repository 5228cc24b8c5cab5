use solana_sdk::pubkey::Pubkey;
use solana_sdk::signature::Signature;
use solana_wallet::address::Address;
use solana_wallet::error::{normalize, GatewayFault, GatewayOperation, WalletError};
use solana_wallet::signature::TransactionId;

fn sample_key_bytes() -> [u8; 32] {
    let mut bytes = [0u8; 32];
    for (i, b) in bytes.iter_mut().enumerate() {
        *b = (i as u8).wrapping_mul(7).wrapping_add(3);
    }
    bytes
}

fn sample_signature_bytes(seed: u8) -> [u8; 64] {
    let mut bytes = [0u8; 64];
    for (i, b) in bytes.iter_mut().enumerate() {
        *b = (i as u8).wrapping_mul(13).wrapping_add(seed);
    }
    bytes
}

#[test]
fn address_of_all_ones_is_all_zero_bytes() {
    let parsed = Address::parse("11111111111111111111111111111111").unwrap();
    assert_eq!(parsed.bytes, [0u8; 32]);
}

#[test]
fn address_parse_gives_the_bytes_of_the_key() {
    let bytes = sample_key_bytes();
    let text = Pubkey::new_from_array(bytes).to_string();
    let parsed = Address::parse(&text).unwrap();
    assert_eq!(parsed.bytes, bytes);
    assert_ne!(text.as_bytes(), &bytes[..]);
}

#[test]
fn address_parse_rejects_malformed_texts() {
    assert_eq!(Address::parse("").err(), Some(WalletError::InvalidAddress));
    assert_eq!(Address::parse("not-a-key").err(), Some(WalletError::InvalidAddress));
    assert_eq!(Address::parse("0OIl").err(), Some(WalletError::InvalidAddress));
    // one character short of a key
    assert_eq!(
        Address::parse("1111111111111111111111111111111").err(),
        Some(WalletError::InvalidAddress)
    );
}

#[test]
fn address_parse_rejects_texts_over_the_length_limit() {
    let long = "1".repeat(45);
    assert_eq!(Address::parse(&long).err(), Some(WalletError::InvalidAddress));
}

#[test]
fn address_from_decoding_maps_both_outcomes() {
    let bytes = sample_key_bytes();
    assert_eq!(Address::from_decoding(Some(bytes)).unwrap().bytes, bytes);
    assert_eq!(Address::from_decoding(None).err(), Some(WalletError::InvalidAddress));
}

#[test]
fn transaction_id_parse_gives_the_bytes_of_the_signature() {
    let bytes = sample_signature_bytes(5);
    let text = Signature::from(bytes).to_string();
    let parsed = TransactionId::parse(&text).unwrap();
    assert_eq!(parsed.bytes, bytes);
}

#[test]
fn transaction_id_parse_rejects_malformed_texts() {
    assert_eq!(TransactionId::parse("").err(), Some(WalletError::NotFound));
    assert_eq!(TransactionId::parse("not a signature").err(), Some(WalletError::NotFound));
    // a well-formed address is too short for a signature
    assert_eq!(
        TransactionId::parse("11111111111111111111111111111111").err(),
        Some(WalletError::NotFound)
    );
    let long = "1".repeat(89);
    assert_eq!(TransactionId::parse(&long).err(), Some(WalletError::NotFound));
}

#[test]
fn transaction_id_from_decoding_maps_both_outcomes() {
    let bytes = sample_signature_bytes(9);
    assert_eq!(TransactionId::from_decoding(Some(bytes)).unwrap().bytes, bytes);
    assert_eq!(TransactionId::from_decoding(None).err(), Some(WalletError::NotFound));
}

#[test]
fn transaction_id_text_is_the_signature_in_base58() {
    let zero = TransactionId { bytes: [0u8; 64] };
    assert_eq!(zero.to_text(), "1".repeat(64));
    let bytes = sample_signature_bytes(1);
    let id = TransactionId { bytes };
    assert_eq!(id.to_text(), Signature::from(bytes).to_string());
    assert_eq!(TransactionId::parse(&id.to_text()).unwrap().bytes, bytes);
}

#[test]
fn transport_faults_are_remote_unavailable() {
    for operation in [
        GatewayOperation::GetBalance,
        GatewayOperation::GetRecencyToken,
        GatewayOperation::SubmitAndConfirm,
        GatewayOperation::ListSignatures,
        GatewayOperation::ResolveTransaction,
    ] {
        assert_eq!(normalize(operation, GatewayFault::Transport), WalletError::RemoteUnavailable);
    }
}

#[test]
fn rejections_are_named_after_the_operation() {
    assert_eq!(
        normalize(GatewayOperation::GetBalance, GatewayFault::Rejected),
        WalletError::RemoteRejected
    );
    assert_eq!(
        normalize(GatewayOperation::GetRecencyToken, GatewayFault::Rejected),
        WalletError::RemoteRejected
    );
    assert_eq!(
        normalize(GatewayOperation::ListSignatures, GatewayFault::Rejected),
        WalletError::RemoteRejected
    );
    assert_eq!(
        normalize(GatewayOperation::SubmitAndConfirm, GatewayFault::Rejected),
        WalletError::SubmissionFailed
    );
    assert_eq!(
        normalize(GatewayOperation::ResolveTransaction, GatewayFault::Rejected),
        WalletError::NotFound
    );
}

#[test]
fn status_codes_split_client_and_server_errors() {
    assert_eq!(WalletError::InvalidAddress.status_code(), 400);
    assert_eq!(WalletError::InvalidCredential.status_code(), 400);
    assert_eq!(WalletError::RemoteUnavailable.status_code(), 500);
    assert_eq!(WalletError::RemoteRejected.status_code(), 500);
    assert_eq!(WalletError::SubmissionFailed.status_code(), 500);
    assert_eq!(WalletError::NotFound.status_code(), 500);
}
