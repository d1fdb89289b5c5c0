//! Emission: the record or the self-call envelope for one event.
//!
//! Two delivery channels carry an event record. The log channel hands the
//! record to the environment's append-style data-log primitive: cheap,
//! visible to log observers, but silently truncatable by the platform. The
//! authenticated channel instead wraps the record in a self-directed call
//! envelope and asks the environment's dispatcher to invoke the owning
//! program with the derived event authority as a required signer; the
//! dispatcher grants that signer only to the owning program itself, so the
//! recorded invocation proves the event's origin, and it lands in durable
//! transaction metadata.
//!
//! This module decides and builds; it performs nothing. A runner takes the
//! [`EmitAction`] it returns, writes the record or dispatches the envelope,
//! and hands a dispatch verdict back to [`complete_dispatch`]. Every failure
//! here is final for the enclosing execution: a mismatched account is
//! [`EmitError::AuthorityMismatch`], a dispatcher refusal is
//! [`EmitError::DispatchFailure`], and neither is retried. A payload that
//! cannot be serialized never reaches this layer at all — the external
//! serializer aborts the execution itself.

use vstd::prelude::*;

use crate::authority::{
    authority_account_valid, derive_event_authority, derived_event_authority,
    event_authority_seed, event_authority_seed_bytes, validate_authority_account,
    validate_program_account, ADDRESS_LEN,
};
use crate::bytes::{append_bytes, copy_bytes};
use crate::codec::{encode_record, encoded_record};
use crate::discriminator::{envelope_tag, instruction_envelope_tag, TAG_LEN};

verus! {

/// Why an emission was refused or failed.
#[derive(Debug, Clone, Copy, PartialEq, Eq, Structural)]
pub enum EmitError {
    /// A presented account does not match what the owning program's identity
    /// predicts: either a malicious caller or a misconfigured derivation.
    AuthorityMismatch,
    /// The dispatch oracle refused or failed the nested invocation; its error
    /// word is carried unchanged.
    DispatchFailure(u64),
}

/// The process-wide configuration surface: whether the authenticated channel
/// exists at all. Fixed at definition time, not per call; when disabled,
/// every emission routes through the log channel.
#[derive(Debug, Clone, Copy)]
pub struct EmitConfig {
    pub authenticated_channel_enabled: bool,
}

/// One account reference carried by a call envelope.
pub struct AccountRef {
    pub address: Vec<u8>,
    pub is_signer: bool,
    pub is_writable: bool,
}

/// The `(seed, bump)` pair the dispatcher is asked to authorize in place of a
/// private-key signature.
pub struct SignerProof {
    pub seed: Vec<u8>,
    pub bump: u8,
}

/// A self-directed call envelope: the reserved envelope tag and the event
/// record as instruction data, addressed to the owning program, with exactly
/// one account — the event authority, read-only and required to sign.
pub struct CallEnvelope {
    pub target: Vec<u8>,
    pub data: Vec<u8>,
    pub authority: AccountRef,
    pub signer_proof: SignerProof,
}

/// The instruction data of a self-call envelope: the reserved envelope tag,
/// then the event record.
pub open spec fn envelope_data(event_tag: Seq<u8>, payload: Seq<u8>) -> Seq<u8> {
    envelope_tag() + event_tag + payload
}

/// The envelope that an emission through the authenticated channel builds for
/// this event under this owning program: correctly addressed, carrying
/// exactly the tagged record behind the envelope tag, with the derived event
/// authority as its one read-only required signer and the derivation's own
/// `(seed, bump)` pair as the signer proof.
pub open spec fn envelope_for(
    env: CallEnvelope,
    owning_program: Seq<u8>,
    event_tag: Seq<u8>,
    payload: Seq<u8>,
) -> bool {
    &&& env.target@ == owning_program
    &&& env.data@ == envelope_data(event_tag, payload)
    &&& env.authority.is_signer
    &&& !env.authority.is_writable
    &&& env.signer_proof.seed@ == event_authority_seed()
    &&& match derived_event_authority(owning_program) {
        Some(derived) => env.authority.address@ == derived.0 && env.signer_proof.bump
            == derived.1,
        None => false,
    }
}

/// Both accounts a caller presents are exactly what the owning program's
/// identity predicts: the program account is that identity, and the authority
/// account is its derived event authority, bump included.
pub open spec fn accounts_valid(
    program_account: Seq<u8>,
    authority_account: Seq<u8>,
    authority_bump: u8,
    owning_program: Seq<u8>,
) -> bool {
    &&& program_account == owning_program
    &&& authority_account_valid(authority_account, authority_bump, owning_program)
}

/// What one emission asks the runner to perform: write a record to the data
/// log, or have the dispatcher invoke a self-call envelope.
pub enum EmitAction {
    Log(Vec<u8>),
    SelfInvoke(CallEnvelope),
}

/// Emit an event through the log channel: the record to hand to the
/// environment's data-log primitive. Total — the log channel validates
/// nothing and cannot fail here; if the platform later truncates the log,
/// that loss is silent and unrecoverable, which is what the authenticated
/// channel exists to avoid.
pub fn emit_to_log(event_tag: &Vec<u8>, payload: &Vec<u8>) -> (action: EmitAction)
    requires
        event_tag@.len() == TAG_LEN,
    ensures
        (action matches EmitAction::Log(record) && record@ == encoded_record(
            event_tag@,
            payload@,
        )),
{
    EmitAction::Log(encode_record(event_tag, payload))
}

/// Emit an event through the authenticated channel.
///
/// With the channel disabled by configuration, the emission falls back to the
/// log channel unconditionally, exactly as [`emit_to_log`] would build it.
/// With it enabled, both presented accounts are validated against the owning
/// program's identity first — a mismatch is refused as
/// [`EmitError::AuthorityMismatch`] and nothing is dispatched — and a valid
/// pair yields the self-call envelope for the runner to dispatch.
pub fn emit_authenticated(
    cfg: &EmitConfig,
    event_tag: &Vec<u8>,
    payload: &Vec<u8>,
    program_account: &Vec<u8>,
    authority_account: &Vec<u8>,
    authority_bump: u8,
    owning_program: &Vec<u8>,
) -> (r: Result<EmitAction, EmitError>)
    requires
        event_tag@.len() == TAG_LEN,
        owning_program@.len() == ADDRESS_LEN,
    ensures
        (!cfg.authenticated_channel_enabled ==> (r matches Ok(action) && (action
            matches EmitAction::Log(record) && record@ == encoded_record(event_tag@, payload@)))),
        cfg.authenticated_channel_enabled ==> match r {
            Ok(action) => accounts_valid(
                program_account@,
                authority_account@,
                authority_bump,
                owning_program@,
            ) && (action matches EmitAction::SelfInvoke(env) && envelope_for(
                env,
                owning_program@,
                event_tag@,
                payload@,
            )),
            Err(e) => !accounts_valid(
                program_account@,
                authority_account@,
                authority_bump,
                owning_program@,
            ) && e == EmitError::AuthorityMismatch,
        },
{
    if !cfg.authenticated_channel_enabled {
        return Ok(emit_to_log(event_tag, payload));
    }
    if !validate_program_account(program_account, owning_program) {
        return Err(EmitError::AuthorityMismatch);
    }
    if !validate_authority_account(authority_account, authority_bump, owning_program) {
        return Err(EmitError::AuthorityMismatch);
    }
    let mut data = instruction_envelope_tag();
    append_bytes(&mut data, event_tag);
    append_bytes(&mut data, payload);
    proof {
        assert(data@ =~= envelope_data(event_tag@, payload@));
    }
    match derive_event_authority(owning_program) {
        Some((address, derived_bump)) => {
            let envelope = CallEnvelope {
                target: copy_bytes(owning_program),
                data,
                authority: AccountRef { address, is_signer: true, is_writable: false },
                signer_proof: SignerProof {
                    seed: event_authority_seed_bytes(),
                    bump: derived_bump,
                },
            };
            Ok(EmitAction::SelfInvoke(envelope))
        },
        None => {
            // The authority account was just validated, which is only
            // possible when the derivation has a result.
            proof {
                assert(false);
            }
            Err(EmitError::AuthorityMismatch)
        },
    }
}

/// Fold the dispatch oracle's verdict on an invoked envelope back into the
/// emission's own result: completion is success, and a refusal's error word
/// is propagated unchanged — never swallowed, never retried.
pub fn complete_dispatch(outcome: Option<u64>) -> (r: Result<(), EmitError>)
    ensures
        r is Ok <==> outcome is None,
        (outcome matches Some(code) ==> r == Err::<(), EmitError>(EmitError::DispatchFailure(
            code,
        ))),
{
    match outcome {
        None => Ok(()),
        Some(code) => Err(EmitError::DispatchFailure(code)),
    }
}

/// What one execution's observers see of its emissions: the data-log records
/// and the recorded nested invocations, each in emission order. Both channels
/// only ever append, within the single execution thread, so consumers observe
/// emissions in exactly the order the program issued them.
pub struct ExecutionTrace {
    pub log_records: Vec<Vec<u8>>,
    pub invocations: Vec<CallEnvelope>,
}

impl ExecutionTrace {
    /// An execution that has emitted nothing yet.
    pub fn new() -> (trace: ExecutionTrace)
        ensures
            trace.log_records@ == Seq::<Vec<u8>>::empty(),
            trace.invocations@ == Seq::<CallEnvelope>::empty(),
    {
        ExecutionTrace { log_records: Vec::new(), invocations: Vec::new() }
    }

    /// Perform one emission action: append to exactly one channel, leaving
    /// the other and all earlier entries untouched.
    pub fn record(&mut self, action: EmitAction)
        ensures
            (action matches EmitAction::Log(rec) ==> final(self).log_records@ == old(
                self,
            ).log_records@.push(rec) && final(self).invocations@ == old(self).invocations@),
            (action matches EmitAction::SelfInvoke(env) ==> final(self).invocations@ == old(
                self,
            ).invocations@.push(env) && final(self).log_records@ == old(self).log_records@),
    {
        match action {
            EmitAction::Log(record) => self.log_records.push(record),
            EmitAction::SelfInvoke(envelope) => self.invocations.push(envelope),
        }
    }
}

} // verus!
