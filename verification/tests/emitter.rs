use base64::Engine;
use event_emitter::authority::derive_event_authority;
use event_emitter::discriminator::{derive_event_discriminator, instruction_envelope_tag};
use event_emitter::emitter::{
    complete_dispatch, emit_authenticated, emit_to_log, EmitAction, EmitConfig, EmitError,
    ExecutionTrace,
};

fn owning_program() -> Vec<u8> {
    vec![7u8; 32]
}

fn enabled() -> EmitConfig {
    EmitConfig {
        authenticated_channel_enabled: true,
    }
}

fn disabled() -> EmitConfig {
    EmitConfig {
        authenticated_channel_enabled: false,
    }
}

/// The serialized payload of the sample event `{ data: 5u64, label: [1,2,3,4,5] }`.
fn sample_payload() -> Vec<u8> {
    let payload = borsh::to_vec(&(5u64, [1u8, 2, 3, 4, 5])).unwrap();
    assert_eq!(payload, vec![5, 0, 0, 0, 0, 0, 0, 0, 1, 2, 3, 4, 5]);
    payload
}

fn sample_tag() -> Vec<u8> {
    derive_event_discriminator(&b"MyEvent".to_vec())
}

#[test]
fn rejects_wrong_program_account() {
    let (authority, bump) = derive_event_authority(&owning_program()).unwrap();
    let other_program = vec![8u8; 32];
    let r = emit_authenticated(
        &enabled(),
        &sample_tag(),
        &sample_payload(),
        &other_program,
        &authority,
        bump,
        &owning_program(),
    );
    assert_eq!(r.err(), Some(EmitError::AuthorityMismatch));
}

#[test]
fn rejects_wrong_authority_account() {
    let (_, bump) = derive_event_authority(&owning_program()).unwrap();
    let arbitrary_account = vec![9u8; 32];
    let r = emit_authenticated(
        &enabled(),
        &sample_tag(),
        &sample_payload(),
        &owning_program(),
        &arbitrary_account,
        bump,
        &owning_program(),
    );
    assert_eq!(r.err(), Some(EmitError::AuthorityMismatch));
}

#[test]
fn log_channel_record_layout() {
    let action = emit_to_log(&sample_tag(), &sample_payload());
    let record = match action {
        EmitAction::Log(record) => record,
        EmitAction::SelfInvoke(_) => panic!("log emission must not dispatch"),
    };

    // The log line carries the record base64-encoded; an observer decodes it
    // and splits the first 8 bytes off as the discriminator.
    let line = base64::engine::general_purpose::STANDARD.encode(&record);
    let decoded = base64::engine::general_purpose::STANDARD
        .decode(line)
        .unwrap();
    assert_eq!(decoded, record);
    assert_eq!(&decoded[..8], sample_tag().as_slice());
    assert_eq!(&decoded[8..], sample_payload().as_slice());
}

#[test]
fn authenticated_channel_records_one_invocation() {
    let (authority, bump) = derive_event_authority(&owning_program()).unwrap();
    let r = emit_authenticated(
        &enabled(),
        &sample_tag(),
        &sample_payload(),
        &owning_program(),
        &authority,
        bump,
        &owning_program(),
    );
    let action = r.unwrap();

    let mut trace = ExecutionTrace::new();
    trace.record(action);
    assert_eq!(trace.invocations.len(), 1);
    assert!(trace.log_records.is_empty());

    let envelope = &trace.invocations[0];
    assert_eq!(envelope.target, owning_program());

    let mut expected_data = instruction_envelope_tag();
    expected_data.extend_from_slice(&sample_tag());
    expected_data.extend_from_slice(&sample_payload());
    assert_eq!(envelope.data, expected_data);

    assert_eq!(envelope.authority.address, authority);
    assert!(envelope.authority.is_signer);
    assert!(!envelope.authority.is_writable);
    assert_eq!(envelope.signer_proof.seed, b"__event_authority".to_vec());
    assert_eq!(envelope.signer_proof.bump, bump);
}

#[test]
fn observer_recovers_record_from_envelope_data() {
    let (authority, bump) = derive_event_authority(&owning_program()).unwrap();
    let action = emit_authenticated(
        &enabled(),
        &sample_tag(),
        &sample_payload(),
        &owning_program(),
        &authority,
        bump,
        &owning_program(),
    )
    .unwrap();
    let envelope = match action {
        EmitAction::SelfInvoke(envelope) => envelope,
        EmitAction::Log(_) => panic!("enabled channel must dispatch"),
    };

    // An observer scans instruction data for the reserved envelope tag,
    // strips it, and parses the rest as an ordinary event record.
    assert!(event_emitter::codec::record_has_tag(
        &envelope.data,
        &instruction_envelope_tag()
    ));
    let (ix_tag, record) = event_emitter::codec::decode_record(&envelope.data).unwrap();
    assert_eq!(ix_tag, instruction_envelope_tag());
    let (event_tag, payload) = event_emitter::codec::decode_record(&record).unwrap();
    assert_eq!(event_tag, sample_tag());
    assert_eq!(payload, sample_payload());
}

#[test]
fn disabled_channel_falls_back_to_log_only() {
    let (authority, bump) = derive_event_authority(&owning_program()).unwrap();
    let r = emit_authenticated(
        &disabled(),
        &sample_tag(),
        &sample_payload(),
        &owning_program(),
        &authority,
        bump,
        &owning_program(),
    );
    let action = r.unwrap();

    let mut trace = ExecutionTrace::new();
    trace.record(action);
    assert!(trace.invocations.is_empty());
    assert_eq!(trace.log_records.len(), 1);

    let expected = match emit_to_log(&sample_tag(), &sample_payload()) {
        EmitAction::Log(record) => record,
        EmitAction::SelfInvoke(_) => unreachable!(),
    };
    assert_eq!(trace.log_records[0], expected);
}

#[test]
fn emissions_are_observed_in_order() {
    let mut trace = ExecutionTrace::new();
    trace.record(emit_to_log(&sample_tag(), &vec![1]));
    trace.record(emit_to_log(&sample_tag(), &vec![2]));
    assert_eq!(trace.log_records.len(), 2);
    assert_eq!(trace.log_records[0][8], 1);
    assert_eq!(trace.log_records[1][8], 2);
}

#[test]
fn dispatch_verdict_is_propagated_unchanged() {
    assert_eq!(complete_dispatch(None), Ok(()));
    assert_eq!(
        complete_dispatch(Some(42)),
        Err(EmitError::DispatchFailure(42))
    );
}
