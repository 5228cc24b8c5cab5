//! The balance of one account.

use crate::error::{normalize, normalized, GatewayFault, GatewayOperation, WalletError};
use vstd::prelude::*;

verus! {

/// How many atomic units make one unit of the ledger's currency.
pub const LAMPORTS_PER_UNIT: u64 = 1_000_000_000;

/// What is answered for a balance: the address as it was asked for, and the
/// balance in atomic units.
pub struct BalanceReport {
    pub address: String,
    pub lamports: u64,
}

/// Turns the node's answer to a balance query into the reply: the balance
/// under the address asked for, or the error that the fault is reported as.
pub fn balance_report(
    address_text: String,
    balance: Result<u64, GatewayFault>,
) -> (reply: Result<BalanceReport, WalletError>)
    ensures
        match balance {
            Ok(lamports) => reply matches Ok(report) && report.address == address_text
                && report.lamports == lamports,
            Err(fault) => reply matches Err(error) && error == normalized(
                GatewayOperation::GetBalance,
                fault,
            ),
        },
{
    match balance {
        Ok(lamports) => Ok(BalanceReport { address: address_text, lamports }),
        Err(fault) => Err(normalize(GatewayOperation::GetBalance, fault)),
    }
}

} // verus!
