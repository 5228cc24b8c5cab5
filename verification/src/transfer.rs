//! One value transfer, phase by phase: prepare, sign, confirm, report.
//!
//! Between two phases the caller does the outside work (loading the
//! credential, asking the node) and hands the outcome to the next phase.
//! The first three phases are the committed part: a failure there ends the
//! transfer. The last one only enriches a transfer that already succeeded.

use crate::address::{pubkey_decoding, Address};
use crate::amount::{atomic_units, lamports_from_bits};
use crate::error::{normalize, normalized, GatewayFault, GatewayOperation, WalletError};
use crate::signature::{signature_text, TransactionId};
use solana_sdk::instruction::Instruction;
use solana_sdk::pubkey::Pubkey;
use solana_sdk::signer::keypair::Keypair;
use solana_sdk::signer::Signer;
use solana_sdk::system_instruction;
use solana_sdk::transaction::Transaction;
use vstd::prelude::*;

verus! {

/// `solana_sdk`'s key pair, carried through as an opaque value.
#[verifier::external_type_specification]
#[verifier::external_body]
pub struct ExKeypair(Keypair);

/// `solana_sdk`'s instruction, carried through as an opaque value.
#[verifier::external_type_specification]
#[verifier::external_body]
pub struct ExInstruction(Instruction);

/// `solana_sdk`'s transaction, carried through as an opaque value.
#[verifier::external_type_specification]
#[verifier::external_body]
pub struct ExTransaction(Transaction);

/// The balance reported where the node could not be asked after a transfer.
pub const BALANCE_UNKNOWN: u64 = 0;

/// A transfer as it is asked for: where the payer's credential is kept, the
/// receiver's address as text, and the amount in the ledger's unit, held as
/// the bits of its IEEE 754 double.
pub struct TransactionParams {
    pub payer_id: String,
    pub reciever_id: String,
    pub amount_in_sol_bits: u64,
}

/// The anchor that binds a transaction to the ledger's recent past.
#[derive(Clone, Copy, Debug)]
pub struct RecencyToken {
    pub bytes: [u8; 32],
}

/// The payer's key pair together with the address that it signs for.
pub struct SigningIdentity {
    keypair: Keypair,
    address: Address,
}

/// A transfer whose inputs are settled and which waits for a recency token.
pub struct PreparedTransfer {
    pub identity: SigningIdentity,
    pub receiver: Address,
    pub lamports: u64,
}

/// A signed transaction together with what it was made from: it is
/// `signed_transfer` of the payer's key pair and the three other fields.
pub struct SignedTransfer {
    pub payer: Address,
    pub receiver: Address,
    pub lamports: u64,
    pub recency_token: RecencyToken,
    pub transaction: Transaction,
}

/// A transfer that the ledger has accepted and confirmed.
pub struct ConfirmedTransfer {
    pub id: TransactionId,
    pub payer: Address,
    pub receiver: Address,
}

/// What is answered for a transfer that succeeded. The balances are in
/// atomic units, `BALANCE_UNKNOWN` where the node did not tell.
pub struct TransferReceipt {
    pub signature: String,
    pub payer_balance: u64,
    pub receiver_balance: u64,
}

/// The 32 bytes of the address that `Signer::pubkey` gives for the key pair.
pub uninterp spec fn keypair_address(keypair: Keypair) -> Seq<u8>;

/// The instruction that `system_instruction::transfer` makes for moving
/// `lamports` from the address `payer` to the address `receiver`.
pub uninterp spec fn transfer_instruction(
    payer: Seq<u8>,
    receiver: Seq<u8>,
    lamports: u64,
) -> Instruction;

/// The transaction that `Transaction::new_signed_with_payer` gives for the
/// one instruction, with the address `payer` as fee payer, the key pair as
/// the only signer and `token` as recent blockhash.
pub uninterp spec fn signed_with_payer(
    instruction: Instruction,
    payer: Seq<u8>,
    keypair: Keypair,
    token: Seq<u8>,
) -> Transaction;

/// The signed transaction of one transfer: a single instruction that moves
/// `lamports` from the key pair's own address to `receiver`, with that
/// address as fee payer, the key pair as the only signer and `token` as
/// recent blockhash.
pub open spec fn signed_transfer(
    keypair: Keypair,
    receiver: Seq<u8>,
    lamports: u64,
    token: Seq<u8>,
) -> Transaction {
    let payer = keypair_address(keypair);
    signed_with_payer(transfer_instruction(payer, receiver, lamports), payer, keypair, token)
}

/// Calls `Signer::pubkey` on the key pair and hands out the key's bytes.
/// Trusted: the bytes are `keypair_address` of the key pair.
#[verifier::external_body]
fn signer_address(keypair: &Keypair) -> (bytes: [u8; 32])
    ensures
        bytes@ == keypair_address(*keypair),
{
    keypair.pubkey().to_bytes()
}

/// Calls `system_instruction::transfer`. Trusted: the result is
/// `transfer_instruction` of the three arguments.
#[verifier::external_body]
fn build_transfer(
    payer: &[u8; 32],
    receiver: &[u8; 32],
    lamports: u64,
) -> (instruction: Instruction)
    ensures
        instruction == transfer_instruction(payer@, receiver@, lamports),
{
    let from = Pubkey::new_from_array(*payer);
    let to = Pubkey::new_from_array(*receiver);
    system_instruction::transfer(&from, &to, lamports)
}

/// Calls `Transaction::new_signed_with_payer` on the one instruction, with
/// `payer` as fee payer and the key pair as the only signer. Trusted: the
/// result is `signed_with_payer` of the four arguments; it depends on
/// nothing else, the account keys being compiled in a fixed order and the
/// signature being derived by hashing. The outside function panics where a
/// signature is asked for that the signers cannot give, so the payer must be
/// the key pair's own address and the instruction a transfer from it: then
/// the only signature asked for is the key pair's.
#[verifier::external_body]
fn sign_with_payer(
    instruction: Instruction,
    payer: &[u8; 32],
    keypair: &Keypair,
    token: &[u8; 32],
) -> (signed: Transaction)
    requires
        payer@ == keypair_address(*keypair),
        exists|receiver: Seq<u8>, lamports: u64|
            instruction == #[trigger] transfer_instruction(payer@, receiver, lamports),
    ensures
        signed == signed_with_payer(instruction, payer@, *keypair, token@),
{
    let fee_payer = Pubkey::new_from_array(*payer);
    let blockhash = solana_sdk::hash::Hash::new_from_array(*token);
    Transaction::new_signed_with_payer(&[instruction], Some(&fee_payer), &[keypair], blockhash)
}

impl SigningIdentity {
    /// The key pair held.
    pub closed spec fn keypair(&self) -> Keypair {
        self.keypair
    }

    /// The address that the key pair signs for.
    pub closed spec fn payer(&self) -> Address {
        self.address
    }

    /// The invariant: the address noted is the key pair's own.
    #[verifier::type_invariant]
    pub closed spec fn wf(&self) -> bool {
        self.address@ == keypair_address(self.keypair)
    }

    /// Takes a loaded key pair and notes its address.
    pub fn new(keypair: Keypair) -> (identity: SigningIdentity)
        ensures
            identity.keypair() == keypair,
            identity.payer()@ == keypair_address(keypair),
    {
        let address = Address { bytes: signer_address(&keypair) };
        SigningIdentity { keypair, address }
    }

    /// The address that the key pair signs for.
    pub fn address(&self) -> (address: Address)
        ensures
            address == self.payer(),
            address@ == keypair_address(self.keypair()),
    {
        proof {
            use_type_invariant(self);
        }
        self.address
    }
}

/// First phase, after the caller has tried to load the payer's credential.
/// Fails with `InvalidCredential` where none was loaded, whatever the rest
/// holds; else with `InvalidAddress` exactly where the receiver's text does
/// not decode. Otherwise the transfer is prepared for that key pair, the
/// decoded receiver and the amount asked for, converted to atomic units and
/// cut off below one of them.
pub fn prepare(
    params: &TransactionParams,
    credential: Option<Keypair>,
) -> (prepared: Result<PreparedTransfer, WalletError>)
    ensures
        match (credential, pubkey_decoding(params.reciever_id@)) {
            (None, _) => prepared matches Err(error) && error == WalletError::InvalidCredential,
            (Some(_), None) => prepared matches Err(error) && error == WalletError::InvalidAddress,
            (Some(keypair), Some(receiver)) => prepared matches Ok(transfer)
                && transfer.identity.keypair() == keypair && transfer.identity.payer()@
                == keypair_address(keypair) && transfer.receiver@ == receiver
                && transfer.lamports == atomic_units(params.amount_in_sol_bits),
        },
{
    match credential {
        None => Err(WalletError::InvalidCredential),
        Some(keypair) => {
            let identity = SigningIdentity::new(keypair);
            match Address::parse(params.reciever_id.as_str()) {
                Err(error) => Err(error),
                Ok(receiver) => {
                    let lamports = lamports_from_bits(params.amount_in_sol_bits);
                    Ok(PreparedTransfer { identity, receiver, lamports })
                },
            }
        },
    }
}

impl SignedTransfer {
    /// True where this is the signing of `prepared` under `token`: the payer
    /// is the address of the prepared key pair, receiver, amount and token
    /// are those given, and the transaction is `signed_transfer` of them.
    pub open spec fn signs(self, prepared: PreparedTransfer, token: RecencyToken) -> bool {
        &&& self.payer == prepared.identity.payer()
        &&& self.payer@ == keypair_address(prepared.identity.keypair())
        &&& self.receiver == prepared.receiver
        &&& self.lamports == prepared.lamports
        &&& self.recency_token == token
        &&& self.transaction == signed_transfer(
            prepared.identity.keypair(),
            prepared.receiver@,
            prepared.lamports,
            token.bytes@,
        )
    }
}

/// Second phase, after the caller has asked the node for a recency token.
/// A fault there ends the transfer with the error it is reported as. With a
/// token, one transfer of the prepared amount from the key pair's address to
/// the receiver is built, with that address as fee payer, and signed by the
/// key pair alone under the token; then the key pair is let go.
pub fn sign(
    prepared: PreparedTransfer,
    token: Result<RecencyToken, GatewayFault>,
) -> (signed: Result<SignedTransfer, WalletError>)
    ensures
        match token {
            Err(fault) => signed matches Err(error) && error == normalized(
                GatewayOperation::GetRecencyToken,
                fault,
            ),
            Ok(recency_token) => signed matches Ok(transfer) && transfer.signs(
                prepared,
                recency_token,
            ),
        },
{
    match token {
        Err(fault) => Err(normalize(GatewayOperation::GetRecencyToken, fault)),
        Ok(recency_token) => {
            let payer = prepared.identity.address();
            let instruction = build_transfer(
                &payer.bytes,
                &prepared.receiver.bytes,
                prepared.lamports,
            );
            let transaction = sign_with_payer(
                instruction,
                &payer.bytes,
                &prepared.identity.keypair,
                &recency_token.bytes,
            );
            Ok(
                SignedTransfer {
                    payer,
                    receiver: prepared.receiver,
                    lamports: prepared.lamports,
                    recency_token,
                    transaction,
                },
            )
        },
    }
}

/// Third phase, after the caller has submitted the signed transaction and
/// waited for its confirmation. Any fault there is `SubmissionFailed`, and
/// then there is no confirmed transfer and no identifier.
pub fn confirm(
    signed: SignedTransfer,
    submission: Result<TransactionId, GatewayFault>,
) -> (confirmed: Result<ConfirmedTransfer, WalletError>)
    ensures
        match submission {
            Err(_) => confirmed matches Err(error) && error == WalletError::SubmissionFailed,
            Ok(id) => confirmed matches Ok(transfer) && transfer.id == id && transfer.payer
                == signed.payer && transfer.receiver == signed.receiver,
        },
{
    match submission {
        Err(_) => Err(WalletError::SubmissionFailed),
        Ok(id) => Ok(ConfirmedTransfer { id, payer: signed.payer, receiver: signed.receiver }),
    }
}

/// The balance to report for one account after a transfer.
pub open spec fn reported_balance(balance: Result<u64, GatewayFault>) -> u64 {
    match balance {
        Ok(lamports) => lamports,
        Err(_) => BALANCE_UNKNOWN,
    }
}

/// Last phase, after the caller has asked for both balances. It cannot fail:
/// the receipt names the confirmed transaction, and a balance that the node
/// did not tell is reported as `BALANCE_UNKNOWN`.
pub fn report(
    confirmed: ConfirmedTransfer,
    payer_balance: Result<u64, GatewayFault>,
    receiver_balance: Result<u64, GatewayFault>,
) -> (receipt: TransferReceipt)
    ensures
        receipt.signature@ == signature_text(confirmed.id@),
        receipt.payer_balance == reported_balance(payer_balance),
        receipt.receiver_balance == reported_balance(receiver_balance),
{
    let payer = match payer_balance {
        Ok(lamports) => lamports,
        Err(_) => BALANCE_UNKNOWN,
    };
    let receiver = match receiver_balance {
        Ok(lamports) => lamports,
        Err(_) => BALANCE_UNKNOWN,
    };
    TransferReceipt {
        signature: confirmed.id.to_text(),
        payer_balance: payer,
        receiver_balance: receiver,
    }
}

} // verus!
