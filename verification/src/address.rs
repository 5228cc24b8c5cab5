//! Ledger account addresses.

use crate::error::WalletError;
use solana_sdk::pubkey::Pubkey;
use std::str::FromStr;
use vstd::prelude::*;

verus! {

/// The 32 bytes that `Pubkey::from_str` decodes `text` to, or `None` where
/// it rejects the text.
pub uninterp spec fn pubkey_decoding(text: Seq<char>) -> Option<Seq<u8>>;

/// Longest text that can be an address.
pub const MAX_ADDRESS_TEXT_LEN: usize = 44;

/// The identifier of one ledger account.
#[derive(Clone, Copy, Debug)]
pub struct Address {
    pub bytes: [u8; 32],
}

impl View for Address {
    type V = Seq<u8>;

    open spec fn view(&self) -> Seq<u8> {
        self.bytes@
    }
}

/// Calls `Pubkey::from_str` and hands out the key's bytes. Trusted: the
/// outcome is `pubkey_decoding` of the text, and a text of more than 44
/// characters is rejected (the function tests the length first).
#[verifier::external_body]
fn decode_pubkey(text: &str) -> (decoded: Option<[u8; 32]>)
    ensures
        decoded matches Some(bytes) ==> pubkey_decoding(text@) == Some(bytes@),
        decoded is None ==> pubkey_decoding(text@) is None,
        text@.len() > MAX_ADDRESS_TEXT_LEN ==> decoded is None,
{
    match Pubkey::from_str(text) {
        Ok(key) => Some(key.to_bytes()),
        Err(_) => None,
    }
}

impl Address {
    /// True where `text` is the textual form of an address.
    pub open spec fn well_formed(text: Seq<char>) -> bool {
        pubkey_decoding(text) is Some
    }

    /// Turns the outcome of decoding into an address or `InvalidAddress`.
    pub fn from_decoding(decoded: Option<[u8; 32]>) -> (parsed: Result<Address, WalletError>)
        ensures
            match decoded {
                Some(bytes) => parsed == Ok::<Address, WalletError>(Address { bytes }),
                None => parsed == Err::<Address, WalletError>(WalletError::InvalidAddress),
            },
    {
        match decoded {
            Some(bytes) => Ok(Address { bytes }),
            None => Err(WalletError::InvalidAddress),
        }
    }

    /// Decodes a textual address. Fails with `InvalidAddress` exactly on the
    /// texts that do not decode.
    pub fn parse(text: &str) -> (parsed: Result<Address, WalletError>)
        ensures
            match parsed {
                Ok(address) => pubkey_decoding(text@) == Some(address@),
                Err(error) => error == WalletError::InvalidAddress && !Self::well_formed(text@),
            },
            text@.len() > MAX_ADDRESS_TEXT_LEN ==> parsed is Err,
    {
        Self::from_decoding(decode_pubkey(text))
    }
}

} // verus!
