use vstd::prelude::*;

verus! {

/// A signing identity discovered for one network. The private key is only
/// present when the credential file carried one; it is consumed by exactly
/// one submission and never persisted by this crate.
#[derive(Debug, Clone, PartialEq, Eq)]
pub struct NearCredential {
    pub account_id: String,
    pub public_key: String,
    pub network: String,
    pub private_key: Option<String>,
}

/// The outcome of scanning a credential store: every credential that could
/// be read, or the reason the store could not be read at all.
#[derive(Debug, Clone, PartialEq, Eq)]
pub struct CredentialResponse {
    pub credentials: Vec<NearCredential>,
    pub error: Option<String>,
}

/// The structured payload of a read-only greeting query.
#[derive(Debug, Clone, PartialEq, Eq)]
pub struct GreetingResponse {
    pub greeting: String,
}

/// The caller-facing report of a broadcast transaction: the node's terminal
/// status collapsed to "Success" | "Failed" | "Unknown", with the hashes and
/// gas measurement preserved whichever status came back.
#[derive(Debug, Clone, PartialEq, Eq)]
pub struct TransactionResult {
    pub transaction_hash: String,
    pub block_hash: String,
    pub status: String,
    pub gas_burnt: u64,
    pub message: String,
}

/// One target chain entry point, resolved once per invocation.
#[derive(Debug, Clone, PartialEq, Eq)]
pub struct NetworkEndpoint {
    pub rpc_url: String,
    pub contract_id: String,
}

/// A single contract invocation: the method, its argument bytes, a gas
/// budget and an attached deposit, both exact-precision integers.
#[derive(Debug, Clone, PartialEq, Eq)]
pub struct FunctionCallAction {
    pub method_name: String,
    pub args: Vec<u8>,
    pub gas: u64,
    pub deposit: u128,
}

/// Mathematical image of a `FunctionCallAction`.
#[verifier::ext_equal]
pub struct FunctionCallActionView {
    pub method_name: Seq<char>,
    pub args: Seq<u8>,
    pub gas: u64,
    pub deposit: u128,
}

impl View for FunctionCallAction {
    type V = FunctionCallActionView;

    open spec fn view(&self) -> FunctionCallActionView {
        FunctionCallActionView {
            method_name: self.method_name@,
            args: self.args@,
            gas: self.gas,
            deposit: self.deposit,
        }
    }
}

/// The intent to act: every field the canonical encoding covers. The public
/// key is held in its canonical tagged byte form; the block hash is the raw
/// 32-byte hash of a recently observed final block.
#[derive(Debug, Clone, PartialEq, Eq)]
pub struct UnsignedTransaction {
    pub signer_id: String,
    pub public_key: Vec<u8>,
    pub nonce: u64,
    pub receiver_id: String,
    pub block_hash: Vec<u8>,
    pub actions: Vec<FunctionCallAction>,
}

/// Mathematical image of an `UnsignedTransaction`.
#[verifier::ext_equal]
pub struct UnsignedTransactionView {
    pub signer_id: Seq<char>,
    pub public_key: Seq<u8>,
    pub nonce: u64,
    pub receiver_id: Seq<char>,
    pub block_hash: Seq<u8>,
    pub actions: Seq<FunctionCallActionView>,
}

impl View for UnsignedTransaction {
    type V = UnsignedTransactionView;

    open spec fn view(&self) -> UnsignedTransactionView {
        UnsignedTransactionView {
            signer_id: self.signer_id@,
            public_key: self.public_key@,
            nonce: self.nonce,
            receiver_id: self.receiver_id@,
            block_hash: self.block_hash@,
            actions: self.actions@.map_values(|a: FunctionCallAction| a@),
        }
    }
}

/// The submittable unit: a transaction and a signature, in its canonical
/// tagged byte form, over the hash of the transaction's canonical encoding.
#[derive(Debug, Clone, PartialEq, Eq)]
pub struct SignedTransaction {
    pub transaction: UnsignedTransaction,
    pub signature: Vec<u8>,
}

/// Mathematical image of a `SignedTransaction`.
#[verifier::ext_equal]
pub struct SignedTransactionView {
    pub transaction: UnsignedTransactionView,
    pub signature: Seq<u8>,
}

impl View for SignedTransaction {
    type V = SignedTransactionView;

    open spec fn view(&self) -> SignedTransactionView {
        SignedTransactionView { transaction: self.transaction@, signature: self.signature@ }
    }
}

} // verus!
