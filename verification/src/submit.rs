use vstd::prelude::*;
use crate::account::{spec_valid_account_id, validate_account_id};
use crate::crypto::{check_signing_key, derive_public_key, spec_parsed_public_key, spec_signable};
use crate::encode::{encode_transaction, push_bytes, spec_encode_signed_tx, spec_tx_encodable};
use crate::error::NearError;
use crate::sign::{spec_signature_valid, try_sign_transaction};
use crate::types::{
    FunctionCallAction, FunctionCallActionView, SignedTransaction, TransactionResult,
    UnsignedTransaction, UnsignedTransactionView,
};

verus! {

/// Everything one submission consumes: the signing identity, the contract to
/// call, the method with its argument bytes, and the fixed gas budget and
/// deposit. The private key lives only for this one run.
pub struct SubmissionRequest {
    pub signer_id: String,
    pub private_key: String,
    pub receiver_id: String,
    pub method_name: String,
    pub args: Vec<u8>,
    pub gas: u64,
    pub deposit: u128,
}

/// The terminal status shape the node reported for an included transaction.
#[derive(Debug, Clone, PartialEq, Eq)]
pub enum FinalStatus {
    /// The called method completed and returned a value.
    SuccessValue(Vec<u8>),
    /// The called method failed inside the contract; the transaction was
    /// still included.
    Failure(String),
    /// A status shape this crate does not recognize, rendered as text.
    Other(String),
}

/// What the node reported for a broadcast transaction, with the hashes and
/// the gas measurement preserved whichever status came back.
#[derive(Debug, Clone, PartialEq, Eq)]
pub struct BroadcastReport {
    pub transaction_hash: String,
    pub block_hash: String,
    pub gas_burnt: u64,
    pub status: FinalStatus,
}

/// One observation handed back by the gateway that performs the remote
/// calls. Transport failures carry the step's own message.
#[derive(Debug, Clone, PartialEq, Eq)]
pub enum GatewayEvent {
    /// The access key's current nonce, read at final finality.
    NonceFetched(u64),
    /// The access key is unknown to the node.
    AccessKeyMissing(String),
    /// The hash of the latest final block, 32 bytes.
    BlockHashFetched(Vec<u8>),
    /// A transport failure during one of the reads.
    TransportFailed(String),
    /// The node reported a terminal status for the broadcast transaction.
    Finalized(BroadcastReport),
    /// The node definitively rejected the transaction before inclusion.
    BroadcastRejected(String),
    /// Transport was lost after the transaction was sent, before any status
    /// was observed: inclusion is unknown.
    BroadcastInterrupted(String),
}

/// How one submission ended.
#[derive(Debug, Clone, PartialEq, Eq)]
pub enum SubmissionResult {
    /// The node reported a terminal status; the report says which.
    Completed(TransactionResult),
    /// Transport was lost after the send: the transaction may or may not be
    /// included, and the caller must reconcile by hash before any retry.
    Indeterminate(String),
    /// The run stopped before any terminal status, with the step's error.
    Aborted(NearError),
}

/// Where one submission stands. The two independent reads both complete
/// before anything is built or signed; a transaction is broadcast at most
/// once per run.
pub enum SubmissionState {
    /// Waiting for the nonce and the block hash, in either order.
    Resolving(Option<u64>, Option<Vec<u8>>),
    /// The signed transaction has been handed out for broadcast.
    Broadcasting(SignedTransaction),
    /// The run is over.
    Finished(SubmissionResult),
}

/// What the driver must do next.
pub enum SubmissionAction {
    /// Keep waiting for the outstanding reads or the broadcast outcome.
    Wait,
    /// Submit these canonical signed-transaction bytes and await a terminal
    /// status. Issued at most once per run.
    Broadcast(Vec<u8>),
    /// The run is over; perform no further remote call.
    Stop,
}

/// The transaction a request asks for once both reads completed: a single
/// function-call action, sequenced at exactly one past the observed nonce.
pub open spec fn spec_requested_tx(
    req: SubmissionRequest,
    fetched_nonce: u64,
    block_hash: Seq<u8>,
    pk: Seq<u8>,
) -> UnsignedTransactionView
    recommends
        fetched_nonce < u64::MAX,
{
    UnsignedTransactionView {
        signer_id: req.signer_id@,
        public_key: pk,
        nonce: (fetched_nonce + 1) as u64,
        receiver_id: req.receiver_id@,
        block_hash: block_hash,
        actions: seq![
            FunctionCallActionView {
                method_name: req.method_name@,
                args: req.args@,
                gas: req.gas,
                deposit: req.deposit,
            },
        ],
    }
}

/// When building and signing is owed to succeed: the nonce can still be
/// incremented, the key material signs, and the requested transaction has a
/// canonical encoding.
pub open spec fn spec_build_ok(
    req: SubmissionRequest,
    fetched_nonce: u64,
    block_hash: Seq<u8>,
) -> bool {
    &&& fetched_nonce < u64::MAX
    &&& spec_signable(req.private_key@)
    &&& spec_tx_encodable(
        spec_requested_tx(
            req,
            fetched_nonce,
            block_hash,
            spec_parsed_public_key(req.private_key@).unwrap(),
        ),
    )
}

/// Builds the requested transaction around the freshly observed nonce and
/// block hash and signs the hash of its canonical encoding. Succeeds exactly
/// when `spec_build_ok` holds; on success the transaction's nonce is the
/// observed nonce plus one and the signature is valid for the transaction.
pub fn build_and_sign(req: &SubmissionRequest, fetched_nonce: u64, block_hash: Vec<u8>) -> (r:
    Result<SignedTransaction, NearError>)
    ensures
        r is Ok <==> spec_build_ok(*req, fetched_nonce, block_hash@),
        r matches Ok(st) ==> ({
            &&& st.transaction@ == spec_requested_tx(
                *req,
                fetched_nonce,
                block_hash@,
                spec_parsed_public_key(req.private_key@).unwrap(),
            )
            &&& st.transaction.nonce == fetched_nonce + 1
            &&& spec_signature_valid(st@)
        }),
        r matches Err(e) ==> (e is EncodingError || e is InvalidKeyMaterial),
        r matches Err(e) ==> (e is InvalidKeyMaterial ==> !spec_signable(req.private_key@)),
{
    if fetched_nonce == u64::MAX {
        return Err(
            NearError::EncodingError(String::from_str("the next nonce would overflow")),
        );
    }
    let pk = match derive_public_key(req.private_key.as_str()) {
        None => {
            return Err(
                NearError::InvalidKeyMaterial(
                    String::from_str("the private key does not parse into a signing key"),
                ),
            );
        },
        Some(pk) => pk,
    };
    let ghost bh: Seq<u8> = block_hash@;
    let mut args_copy: Vec<u8> = Vec::new();
    push_bytes(&mut args_copy, &req.args);
    let action = FunctionCallAction {
        method_name: req.method_name.clone(),
        args: args_copy,
        gas: req.gas,
        deposit: req.deposit,
    };
    let mut actions: Vec<FunctionCallAction> = Vec::new();
    actions.push(action);
    let tx = UnsignedTransaction {
        signer_id: req.signer_id.clone(),
        public_key: pk,
        nonce: fetched_nonce + 1,
        receiver_id: req.receiver_id.clone(),
        block_hash,
        actions,
    };
    proof {
        assert(tx@ =~= spec_requested_tx(
            *req,
            fetched_nonce,
            bh,
            spec_parsed_public_key(req.private_key@).unwrap(),
        ));
    }
    try_sign_transaction(tx, req.private_key.as_str())
}

/// The canonical bytes a broadcast carries: the transaction's canonical
/// encoding followed by the signature.
pub fn encode_signed_transaction(st: &SignedTransaction) -> (r: Result<Vec<u8>, NearError>)
    ensures
        r is Ok <==> spec_tx_encodable(st.transaction@),
        r matches Ok(bytes) ==> bytes@ == spec_encode_signed_tx(st@),
        r matches Err(e) ==> e is EncodingError,
{
    match encode_transaction(&st.transaction) {
        Err(e) => Err(e),
        Ok(mut out) => {
            push_bytes(&mut out, &st.signature);
            Ok(out)
        },
    }
}

/// How the step that completes both reads must come out: on `spec_build_ok`
/// the run moves to broadcasting a transaction whose nonce is the observed
/// nonce plus one, with a valid signature and its canonical bytes handed out
/// for exactly one broadcast; otherwise the run aborts with the build step's
/// error and no broadcast is issued.
pub open spec fn spec_step_build(
    req: SubmissionRequest,
    fetched_nonce: u64,
    block_hash: Seq<u8>,
    r: (SubmissionState, SubmissionAction),
) -> bool {
    if spec_build_ok(req, fetched_nonce, block_hash) {
        match r {
            (SubmissionState::Broadcasting(st), SubmissionAction::Broadcast(bytes)) => {
                &&& st.transaction@ == spec_requested_tx(
                    req,
                    fetched_nonce,
                    block_hash,
                    spec_parsed_public_key(req.private_key@).unwrap(),
                )
                &&& st.transaction.nonce == fetched_nonce + 1
                &&& spec_signature_valid(st@)
                &&& bytes@ == spec_encode_signed_tx(st@)
            },
            _ => false,
        }
    } else {
        match r.0 {
            SubmissionState::Finished(SubmissionResult::Aborted(e)) => (e is EncodingError
                || e is InvalidKeyMaterial) && r.1 is Stop,
            _ => false,
        }
    }
}

/// How the node's terminal report ends a run: completed, with the report
/// mapped to the caller-facing result.
pub open spec fn spec_finalized_outcome(
    report: BroadcastReport,
    r: (SubmissionState, SubmissionAction),
) -> bool {
    &&& r.1 is Stop
    &&& match r.0 {
        SubmissionState::Finished(SubmissionResult::Completed(tr)) => spec_result_of_report(
            report,
            tr,
        ),
        _ => false,
    }
}

/// Completes the pair of reads and attempts to build, sign and hand out the
/// transaction.
fn step_build(req: &SubmissionRequest, fetched_nonce: u64, block_hash: Vec<u8>) -> (r: (
    SubmissionState,
    SubmissionAction,
))
    ensures
        spec_step_build(*req, fetched_nonce, block_hash@, r),
        r.1 is Broadcast || r.1 is Stop,
        r.0 is Broadcasting || r.0 is Finished,
{
    match build_and_sign(req, fetched_nonce, block_hash) {
        Err(e) => (
            SubmissionState::Finished(SubmissionResult::Aborted(e)),
            SubmissionAction::Stop,
        ),
        Ok(st) => {
            match encode_signed_transaction(&st) {
                Ok(bytes) => (
                    SubmissionState::Broadcasting(st),
                    SubmissionAction::Broadcast(bytes),
                ),
                Err(e) => {
                    proof {
                        assert(false);
                    }
                    (
                        SubmissionState::Finished(SubmissionResult::Aborted(e)),
                        SubmissionAction::Stop,
                    )
                },
            }
        },
    }
}

/// How a terminal report maps to the caller-facing result: hashes and gas
/// are preserved as they came; a success value reports "Success", a
/// contract-level failure reports "Failed" with the failure rendered into
/// the message, and any unrecognized status shape reports "Unknown" rather
/// than being coerced to either.
pub open spec fn spec_result_of_report(report: BroadcastReport, tr: TransactionResult) -> bool {
    &&& tr.transaction_hash@ == report.transaction_hash@
    &&& tr.block_hash@ == report.block_hash@
    &&& tr.gas_burnt == report.gas_burnt
    &&& report.status is SuccessValue ==> (tr.status@ == "Success"@ && tr.message@
        == "Successfully updated greeting"@)
    &&& report.status matches FinalStatus::Failure(d) ==> (tr.status@ == "Failed"@ && tr.message@
        == "Transaction failed: "@ + d@)
    &&& report.status matches FinalStatus::Other(d) ==> (tr.status@ == "Unknown"@ && tr.message@
        == "Unexpected transaction status: "@ + d@)
}

/// Maps the node's terminal status to the caller-facing result. A
/// contract-level failure is a completed run with status "Failed", not an
/// error of this pipeline: the transaction was included and burnt gas.
pub fn interpret_final_status(report: BroadcastReport) -> (tr: TransactionResult)
    ensures
        spec_result_of_report(report, tr),
{
    match report.status {
        FinalStatus::SuccessValue(_value) => TransactionResult {
            transaction_hash: report.transaction_hash,
            block_hash: report.block_hash,
            status: String::from_str("Success"),
            gas_burnt: report.gas_burnt,
            message: String::from_str("Successfully updated greeting"),
        },
        FinalStatus::Failure(detail) => TransactionResult {
            transaction_hash: report.transaction_hash,
            block_hash: report.block_hash,
            status: String::from_str("Failed"),
            gas_burnt: report.gas_burnt,
            message: String::from_str("Transaction failed: ").concat(detail.as_str()),
        },
        FinalStatus::Other(detail) => TransactionResult {
            transaction_hash: report.transaction_hash,
            block_hash: report.block_hash,
            status: String::from_str("Unknown"),
            gas_burnt: report.gas_burnt,
            message: String::from_str("Unexpected transaction status: ").concat(detail.as_str()),
        },
    }
}

/// Validates the request and opens a run. Succeeds exactly when both account
/// ids are valid and the key material signs; nothing is sent to the network
/// before this step passes.
pub fn start_submission(req: &SubmissionRequest) -> (r: Result<SubmissionState, NearError>)
    ensures
        r is Ok <==> (spec_valid_account_id(req.signer_id@) && spec_valid_account_id(
            req.receiver_id@,
        ) && spec_signable(req.private_key@)),
        r matches Ok(s) ==> s == SubmissionState::Resolving(
            Option::<u64>::None,
            Option::<Vec<u8>>::None,
        ),
        r matches Err(e) ==> (e is InvalidInput || e is InvalidKeyMaterial),
        r matches Err(e) ==> (e is InvalidKeyMaterial ==> !spec_signable(req.private_key@)),
        r matches Err(e) ==> (e is InvalidInput ==> !(spec_valid_account_id(req.signer_id@)
            && spec_valid_account_id(req.receiver_id@))),
{
    if !validate_account_id(req.signer_id.as_str()) {
        return Err(NearError::InvalidInput(String::from_str("the signer account id is not valid")));
    }
    if !validate_account_id(req.receiver_id.as_str()) {
        return Err(
            NearError::InvalidInput(String::from_str("the contract account id is not valid")),
        );
    }
    if !check_signing_key(req.private_key.as_str()) {
        return Err(
            NearError::InvalidKeyMaterial(
                String::from_str("the private key does not parse into a consistent signing key"),
            ),
        );
    }
    Ok(SubmissionState::Resolving(None, None))
}

/// Advances one run by one gateway observation. The two reads may arrive in
/// either order; both must be in before anything is built or signed. A
/// failed read aborts the run with that step's error and no transaction is
/// built. After the broadcast bytes are handed out, the only outcomes are
/// the node's terminal report, a definitive rejection, or an interrupted
/// transport, which ends the run as `Indeterminate` — never as a success or
/// a failure, and never with a second broadcast.
pub fn on_event(req: &SubmissionRequest, state: SubmissionState, event: GatewayEvent) -> (r: (
    SubmissionState,
    SubmissionAction,
))
    ensures
        r.1 is Broadcast ==> state is Resolving,
        state is Finished ==> (r.0 == state && r.1 is Stop),
        state matches SubmissionState::Resolving(n0, b0) ==> ({
            &&& (event matches GatewayEvent::TransportFailed(m) ==> (r.0
                == SubmissionState::Finished(
                SubmissionResult::Aborted(NearError::NetworkError(m)),
            ) && r.1 is Stop))
            &&& (event matches GatewayEvent::AccessKeyMissing(m) ==> (r.0
                == SubmissionState::Finished(
                SubmissionResult::Aborted(NearError::AccessKeyNotFound(m)),
            ) && r.1 is Stop))
            &&& (event matches GatewayEvent::NonceFetched(x) ==> ({
                &&& (b0 is None ==> (r.0 == SubmissionState::Resolving(Some(x), b0) && r.1
                    is Wait))
                &&& (b0 matches Some(h) ==> spec_step_build(*req, x, h@, r))
            }))
            &&& (event matches GatewayEvent::BlockHashFetched(h) ==> ({
                &&& (n0 is None ==> (r.0 == SubmissionState::Resolving(n0, Some(h)) && r.1
                    is Wait))
                &&& (n0 matches Some(x) ==> spec_step_build(*req, x, h@, r))
            }))
            &&& ((event is Finalized || event is BroadcastRejected || event is
            BroadcastInterrupted) ==> (r.0 == state && r.1 is Wait))
        }),
        state is Broadcasting ==> ({
            &&& (event matches GatewayEvent::Finalized(report) ==> spec_finalized_outcome(
                report,
                r,
            ))
            &&& (event matches GatewayEvent::BroadcastRejected(m) ==> (r.0
                == SubmissionState::Finished(
                SubmissionResult::Aborted(NearError::ContractError(m)),
            ) && r.1 is Stop))
            &&& (event matches GatewayEvent::BroadcastInterrupted(m) ==> (r.0
                == SubmissionState::Finished(SubmissionResult::Indeterminate(m)) && r.1
                is Stop))
            &&& (!(event is Finalized || event is BroadcastRejected || event is
            BroadcastInterrupted) ==> (r.0 == state && r.1 is Wait))
        }),
{
    match state {
        SubmissionState::Finished(res) => (
            SubmissionState::Finished(res),
            SubmissionAction::Stop,
        ),
        SubmissionState::Resolving(n0, b0) => match event {
            GatewayEvent::TransportFailed(m) => (
                SubmissionState::Finished(SubmissionResult::Aborted(NearError::NetworkError(m))),
                SubmissionAction::Stop,
            ),
            GatewayEvent::AccessKeyMissing(m) => (
                SubmissionState::Finished(
                    SubmissionResult::Aborted(NearError::AccessKeyNotFound(m)),
                ),
                SubmissionAction::Stop,
            ),
            GatewayEvent::NonceFetched(x) => match b0 {
                Some(h) => step_build(req, x, h),
                None => (SubmissionState::Resolving(Some(x), None), SubmissionAction::Wait),
            },
            GatewayEvent::BlockHashFetched(h) => match n0 {
                Some(x) => step_build(req, x, h),
                None => (SubmissionState::Resolving(None, Some(h)), SubmissionAction::Wait),
            },
            GatewayEvent::Finalized(_report) => (
                SubmissionState::Resolving(n0, b0),
                SubmissionAction::Wait,
            ),
            GatewayEvent::BroadcastRejected(_m) => (
                SubmissionState::Resolving(n0, b0),
                SubmissionAction::Wait,
            ),
            GatewayEvent::BroadcastInterrupted(_m) => (
                SubmissionState::Resolving(n0, b0),
                SubmissionAction::Wait,
            ),
        },
        SubmissionState::Broadcasting(st) => match event {
            GatewayEvent::Finalized(report) => (
                SubmissionState::Finished(
                    SubmissionResult::Completed(interpret_final_status(report)),
                ),
                SubmissionAction::Stop,
            ),
            GatewayEvent::BroadcastRejected(m) => (
                SubmissionState::Finished(
                    SubmissionResult::Aborted(NearError::ContractError(m)),
                ),
                SubmissionAction::Stop,
            ),
            GatewayEvent::BroadcastInterrupted(m) => (
                SubmissionState::Finished(SubmissionResult::Indeterminate(m)),
                SubmissionAction::Stop,
            ),
            GatewayEvent::NonceFetched(_x) => (
                SubmissionState::Broadcasting(st),
                SubmissionAction::Wait,
            ),
            GatewayEvent::AccessKeyMissing(_m) => (
                SubmissionState::Broadcasting(st),
                SubmissionAction::Wait,
            ),
            GatewayEvent::BlockHashFetched(_h) => (
                SubmissionState::Broadcasting(st),
                SubmissionAction::Wait,
            ),
            GatewayEvent::TransportFailed(_m) => (
                SubmissionState::Broadcasting(st),
                SubmissionAction::Wait,
            ),
        },
    }
}

} // verus!
