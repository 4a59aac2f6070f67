use instant_seal::trivial_verifier::InstantSealVerifier;
use instant_seal::types::{BlockOrigin, ForkChoiceStrategy, Header};

#[test]
fn verifier_accepts_own_block_without_body() {
    let mut verifier = InstantSealVerifier;
    let header = Header { hash: 1, parent_hash: 0, number: 1 };
    let (directive, cache) =
        verifier.verify(BlockOrigin::Own, header, None, None).expect("must accept");
    assert_eq!(directive.origin, BlockOrigin::Own);
    assert_eq!(directive.header, header);
    assert!(directive.justification.is_none());
    assert!(directive.body.is_none());
    assert!(directive.finalized);
    assert_eq!(directive.fork_choice, ForkChoiceStrategy::LongestChain);
    assert!(!directive.allow_missing_state);
    assert!(directive.post_digests.is_empty());
    assert!(directive.auxiliary.is_empty());
    assert!(cache.is_none());
}

#[test]
fn verifier_accepts_peer_block_with_body_and_justification() {
    let mut verifier = InstantSealVerifier;
    let header = Header { hash: 8, parent_hash: 7, number: 19 };
    let justification = vec![0xde, 0xad];
    let body = vec![vec![1], vec![2, 3]];
    let (directive, cache) = verifier
        .verify(BlockOrigin::Peer, header, Some(justification.clone()), Some(body.clone()))
        .expect("must accept");
    assert_eq!(directive.origin, BlockOrigin::Peer);
    assert_eq!(directive.header, header);
    assert_eq!(directive.justification, Some(justification));
    assert_eq!(directive.body, Some(body));
    assert!(directive.finalized);
    assert_eq!(directive.fork_choice, ForkChoiceStrategy::LongestChain);
    assert!(cache.is_none());
}

#[test]
fn verifier_finalizes_every_origin() {
    for origin in [BlockOrigin::Own, BlockOrigin::Peer] {
        let mut verifier = InstantSealVerifier;
        let header = Header { hash: 2, parent_hash: 1, number: 2 };
        let result = verifier.verify(origin, header, None, Some(Vec::new()));
        let (directive, _) = result.expect("the trivial verifier never errs");
        assert!(directive.finalized);
        assert_eq!(directive.origin, origin);
    }
}
