//! Transaction identifiers.

use crate::error::WalletError;
use solana_sdk::signature::Signature;
use std::str::FromStr;
use vstd::prelude::*;

verus! {

/// The 64 bytes that `Signature::from_str` decodes `text` to, or `None`
/// where it rejects the text.
pub uninterp spec fn signature_decoding(text: Seq<char>) -> Option<Seq<u8>>;

/// The text that `Signature`'s `Display` writes for the signature made of
/// `bytes`.
pub uninterp spec fn signature_text(bytes: Seq<u8>) -> Seq<char>;

/// Longest text that can be a transaction identifier.
pub const MAX_SIGNATURE_TEXT_LEN: usize = 88;

/// The identifier of one ledger transaction: its first signature.
#[derive(Clone, Copy, Debug)]
pub struct TransactionId {
    pub bytes: [u8; 64],
}

impl View for TransactionId {
    type V = Seq<u8>;

    open spec fn view(&self) -> Seq<u8> {
        self.bytes@
    }
}

/// Calls `Signature::from_str` and hands out the signature's bytes.
/// Trusted: the outcome is `signature_decoding` of the text, and a text of
/// more than 88 characters is rejected (the function tests the length
/// first).
#[verifier::external_body]
fn decode_signature(text: &str) -> (decoded: Option<[u8; 64]>)
    ensures
        decoded matches Some(bytes) ==> signature_decoding(text@) == Some(bytes@),
        decoded is None ==> signature_decoding(text@) is None,
        text@.len() > MAX_SIGNATURE_TEXT_LEN ==> decoded is None,
{
    match Signature::from_str(text) {
        Ok(signature) => Some(signature.into()),
        Err(_) => None,
    }
}

/// Calls `to_string` on the `Signature` made of `bytes`. Trusted: the text
/// is `signature_text` of the bytes.
#[verifier::external_body]
fn encode_signature(bytes: &[u8; 64]) -> (text: String)
    ensures
        text@ == signature_text(bytes@),
{
    Signature::from(*bytes).to_string()
}

impl TransactionId {
    /// True where `text` is the textual form of a transaction identifier.
    pub open spec fn well_formed(text: Seq<char>) -> bool {
        signature_decoding(text) is Some
    }

    /// Turns the outcome of decoding into an identifier, or `NotFound`: no
    /// transaction goes by a text that does not decode.
    pub fn from_decoding(decoded: Option<[u8; 64]>) -> (parsed: Result<TransactionId, WalletError>)
        ensures
            match decoded {
                Some(bytes) => parsed == Ok::<TransactionId, WalletError>(TransactionId { bytes }),
                None => parsed == Err::<TransactionId, WalletError>(WalletError::NotFound),
            },
    {
        match decoded {
            Some(bytes) => Ok(TransactionId { bytes }),
            None => Err(WalletError::NotFound),
        }
    }

    /// Decodes a textual transaction identifier. Fails with `NotFound`
    /// exactly on the texts that do not decode.
    pub fn parse(text: &str) -> (parsed: Result<TransactionId, WalletError>)
        ensures
            match parsed {
                Ok(id) => signature_decoding(text@) == Some(id@),
                Err(error) => error == WalletError::NotFound && !Self::well_formed(text@),
            },
            text@.len() > MAX_SIGNATURE_TEXT_LEN ==> parsed is Err,
    {
        Self::from_decoding(decode_signature(text))
    }

    /// The identifier's textual form.
    pub fn to_text(&self) -> (text: String)
        ensures
            text@ == signature_text(self@),
    {
        encode_signature(&self.bytes)
    }
}

} // verus!
