//! The failure taxonomy and how gateway faults are normalised into it.

use vstd::prelude::*;

verus! {

/// Why an operation of the wallet failed.
#[derive(Clone, Copy, Debug, PartialEq, Eq, Structural)]
pub enum WalletError {
    /// A textual address did not decode.
    InvalidAddress,
    /// The payer's signing identity could not be loaded or decoded.
    InvalidCredential,
    /// The ledger node could not be reached, or did not answer in time.
    RemoteUnavailable,
    /// The ledger node answered a query with an error.
    RemoteRejected,
    /// The ledger node did not accept and confirm a transaction.
    SubmissionFailed,
    /// The ledger node no longer holds, or never held, a transaction.
    NotFound,
}

/// How a call to the ledger node went wrong, as the caller observed it.
#[derive(Clone, Copy, Debug, PartialEq, Eq, Structural)]
pub enum GatewayFault {
    /// Nothing came back: a transport error or a timeout.
    Transport,
    /// The node answered, and the answer was an error.
    Rejected,
}

/// The five calls that the ledger gateway offers.
#[derive(Clone, Copy, Debug, PartialEq, Eq, Structural)]
pub enum GatewayOperation {
    GetBalance,
    GetRecencyToken,
    SubmitAndConfirm,
    ListSignatures,
    ResolveTransaction,
}

/// The error that a fault observed during `operation` is reported as.
pub open spec fn normalized(operation: GatewayOperation, fault: GatewayFault) -> WalletError {
    match fault {
        GatewayFault::Transport => WalletError::RemoteUnavailable,
        GatewayFault::Rejected => match operation {
            GatewayOperation::SubmitAndConfirm => WalletError::SubmissionFailed,
            GatewayOperation::ResolveTransaction => WalletError::NotFound,
            _ => WalletError::RemoteRejected,
        },
    }
}

/// Maps a gateway fault to the taxonomy: a transport fault is always
/// `RemoteUnavailable`; a rejection is `SubmissionFailed` for a submission,
/// `NotFound` for a transaction lookup and `RemoteRejected` for the queries.
pub fn normalize(operation: GatewayOperation, fault: GatewayFault) -> (error: WalletError)
    ensures
        error == normalized(operation, fault),
{
    match fault {
        GatewayFault::Transport => WalletError::RemoteUnavailable,
        GatewayFault::Rejected => match operation {
            GatewayOperation::SubmitAndConfirm => WalletError::SubmissionFailed,
            GatewayOperation::ResolveTransaction => WalletError::NotFound,
            GatewayOperation::GetBalance => WalletError::RemoteRejected,
            GatewayOperation::GetRecencyToken => WalletError::RemoteRejected,
            GatewayOperation::ListSignatures => WalletError::RemoteRejected,
        },
    }
}

impl WalletError {
    /// True of the two errors that blame the request itself.
    pub open spec fn is_client_error(self) -> bool {
        self == WalletError::InvalidAddress || self == WalletError::InvalidCredential
    }

    /// The HTTP status that the error is answered with: 400 where the
    /// request was wrong, 500 for every failure on the ledger's side.
    pub fn status_code(&self) -> (code: u16)
        ensures
            code == (if self.is_client_error() { 400u16 } else { 500u16 }),
    {
        match self {
            WalletError::InvalidAddress => 400,
            WalletError::InvalidCredential => 400,
            _ => 500,
        }
    }
}

/// A gateway fault never turns into an error that blames the request.
pub proof fn lemma_normalized_is_server_side(operation: GatewayOperation, fault: GatewayFault)
    ensures
        !normalized(operation, fault).is_client_error(),
{
}

} // verus!
