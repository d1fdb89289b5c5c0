use event_emitter::discriminator::{derive_event_discriminator, instruction_envelope_tag};

fn tag_of(name: &str) -> Vec<u8> {
    derive_event_discriminator(&name.as_bytes().to_vec())
}

#[test]
fn stable_across_calls() {
    let first = tag_of("MyEvent");
    let second = tag_of("MyEvent");
    assert_eq!(first, second);
    assert_eq!(first.len(), 8);
}

#[test]
fn matches_digest_of_preimage() {
    let tag = tag_of("MyEvent");
    let digest = anchor_syn::hash::hash(b"event:MyEvent").to_bytes();
    assert_eq!(tag.as_slice(), &digest[..8]);
}

#[test]
fn collision_free_over_sample() {
    let names = [
        "MyEvent",
        "MyEvents",
        "MyEven",
        "Transfer",
        "TransferChecked",
        "Deposit",
        "Withdraw",
        "Withdrawal",
        "OrderPlaced",
        "OrderCancelled",
        "OrderFilled",
        "PriceUpdated",
        "PriceUpdate",
        "AccountCreated",
        "AccountClosed",
        "StakeDelegated",
        "StakeUndelegated",
        "RewardsClaimed",
        "PoolInitialized",
        "PoolDrained",
        "SwapExecuted",
        "LiquidityAdded",
        "LiquidityRemoved",
        "VoteCast",
        "ProposalCreated",
        "ProposalExecuted",
        "AuthorityChanged",
        "ConfigUpdated",
        "Event",
        "E",
    ];
    let tags: Vec<Vec<u8>> = names.iter().map(|n| tag_of(n)).collect();
    for i in 0..tags.len() {
        for j in 0..tags.len() {
            if i != j {
                assert_ne!(tags[i], tags[j], "{} vs {}", names[i], names[j]);
            }
        }
    }
}

#[test]
fn envelope_tag_matches_reserved_constant() {
    let tag = instruction_envelope_tag();
    assert_eq!(tag.as_slice(), anchor_lang::event::EVENT_IX_TAG_LE);
    let digest = anchor_syn::hash::hash(b"anchor:event").to_bytes();
    let mut expected = digest[..8].to_vec();
    expected.reverse();
    assert_eq!(tag, expected);
}

#[test]
fn envelope_tag_differs_from_event_tags() {
    let envelope = instruction_envelope_tag();
    for name in ["MyEvent", "Transfer", "Event", "anchor:event", "event"] {
        assert_ne!(envelope, tag_of(name));
    }
}
