//! Transition bundles and their identifiers.
use commit_verify::{mpc, CommitEngine, Digest, DigestExt, Sha256};
use rgb_contract_vm::bundle::{
    BundleId, InputMap, KnownTransitions, TransitionBundle, BUNDLE_TAG,
};
use rgb_contract_vm::confinement::ConfinementError;
use rgb_contract_vm::operation::dummy_transition;
use rgb_contract_vm::types::{ContractId, OpId};
use std::collections::BTreeMap;

fn known(ids: &[OpId]) -> KnownTransitions {
    let mut map = BTreeMap::new();
    for id in ids {
        map.insert(id.to_number(), dummy_transition(ContractId::strict_dumb(), None));
    }
    KnownTransitions::try_from(map).unwrap()
}

fn bundle(inputs: &[(u32, OpId)]) -> TransitionBundle {
    let input_map: BTreeMap<u32, OpId> = inputs.iter().copied().collect();
    TransitionBundle {
        input_map: InputMap::try_from(input_map).unwrap(),
        known_transitions: known(&[OpId::strict_dumb()]),
    }
}

fn counting_id() -> OpId {
    let mut bytes = [0u8; 32];
    for i in 0..32 {
        bytes[i] = i as u8;
    }
    OpId(bytes)
}

fn hex(bytes: &[u8]) -> String {
    bytes.iter().map(|b| format!("{:02x}", b)).collect()
}

#[test]
fn bundle_id_of_placeholder() {
    let id = TransitionBundle::strict_dumb().bundle_id();
    assert_eq!(hex(&id.0), "fd8f93bcd3ae6c6af8530c0ebb0e98c8c7cc2907e354846dbb6e4391cef65ae6");
}

#[test]
fn bundle_id_of_two_inputs() {
    let id = bundle(&[(258, OpId([0xAA; 32])), (1, counting_id())]).bundle_id();
    assert_eq!(hex(&id.0), "fe3c427a25c3270c2cad1f298a49490ab5faab6935c869e59e37e5380932c20f");
}

#[test]
fn bundle_id_is_a_tagged_hash_of_the_input_map() {
    let mut hasher = Sha256::from_tag(BUNDLE_TAG);
    hasher.update([2, 0]);
    hasher.update([1, 0, 0, 0]);
    hasher.update(counting_id().0);
    hasher.update([0xFF, 0xFF, 0xFF, 0xFF]);
    hasher.update([7u8; 32]);
    let expected: [u8; 32] = hasher.finish();
    let bundle = bundle(&[(u32::MAX, OpId([7; 32])), (1, counting_id())]);
    assert_eq!(bundle.bundle_id(), BundleId(expected));
}

#[test]
fn bundle_id_ignores_known_transitions() {
    let mut other = bundle(&[(3, counting_id())]);
    let id = other.bundle_id();
    other.known_transitions = known(&[counting_id(), OpId([9; 32])]);
    assert_eq!(other.bundle_id(), id);
}

#[test]
fn bundle_id_depends_on_inputs_and_transitions() {
    let id = bundle(&[(3, counting_id())]).bundle_id();
    assert_ne!(bundle(&[(4, counting_id())]).bundle_id(), id);
    assert_ne!(bundle(&[(3, OpId([0; 32]))]).bundle_id(), id);
    assert_ne!(bundle(&[(3, counting_id()), (4, counting_id())]).bundle_id(), id);
    assert_eq!(bundle(&[(3, counting_id())]).bundle_id(), id);
}

#[test]
fn commit_encode_feeds_the_engine() {
    let bundle = bundle(&[(3, counting_id())]);
    let mut engine = CommitEngine::new(BUNDLE_TAG);
    bundle.commit_encode(&mut engine);
    assert_eq!(BundleId::from_engine(engine), bundle.bundle_id());

    let empty = BundleId::from_engine(CommitEngine::new(BUNDLE_TAG));
    let expected: [u8; 32] = Sha256::from_tag(BUNDLE_TAG).finish();
    assert_eq!(empty, BundleId(expected));
    assert_ne!(empty, bundle.bundle_id());
}

#[test]
fn another_tag_gives_another_digest() {
    let bundle = bundle(&[(3, counting_id())]);
    let mut engine = CommitEngine::new("another tag");
    bundle.commit_encode(&mut engine);
    assert_ne!(BundleId::from_engine(engine), bundle.bundle_id());
}

#[test]
fn messages_and_ids_round_trip() {
    let id = BundleId::from(counting_id().0);
    assert_eq!(id.0, counting_id().0);
    let message = mpc::Message::from(id);
    assert_eq!(message, mpc::Message::from(counting_id().0));
    assert_ne!(message, mpc::Message::from(BundleId::strict_dumb()));
    assert_eq!(BundleId::from(message), id);
    assert_eq!(mpc::Message::from(BundleId::from(message)), message);
}

#[test]
fn placeholder_bundle_has_one_input_and_one_transition() {
    let bundle = TransitionBundle::strict_dumb();
    assert_eq!(bundle.input_map.as_unconfined().len(), 1);
    assert_eq!(bundle.input_map.as_unconfined().get(&0), Some(&OpId::strict_dumb()));
    let transitions = bundle.known_transitions.as_unconfined();
    assert_eq!(transitions.len(), 1);
    let expected = dummy_transition(ContractId::strict_dumb(), None);
    assert_eq!(transitions.get(&(0, 0)), Some(&expected));
    assert_eq!(BundleId::strict_dumb().0, [0; 32]);
}

#[test]
fn op_ids_are_big_endian_numbers() {
    assert_eq!(OpId::strict_dumb().to_number(), (0, 0));
    assert_eq!(
        counting_id().to_number(),
        (5233100606242806050955395731361295, 0x101112131415161718191a1b1c1d1e1f)
    );
    assert_eq!(OpId([0xFF; 32]).to_number(), (u128::MAX, u128::MAX));
    assert_ne!(counting_id().to_number(), OpId([0xFF; 32]).to_number());
}

#[test]
fn input_map_bounds() {
    let undersize = ConfinementError::Undersize { len: 0, min_len: 1 };
    assert_eq!(InputMap::try_from(BTreeMap::new()), Err(undersize));
    let full: BTreeMap<u32, OpId> = (0..65535).map(|k| (k, counting_id())).collect();
    assert_eq!(InputMap::try_from(full.clone()).unwrap().as_unconfined(), &full);
    let over: BTreeMap<u32, OpId> = (0..65536).map(|k| (k, counting_id())).collect();
    let oversize = ConfinementError::Oversize { len: 65536, max_len: 65535 };
    assert_eq!(InputMap::try_from(over), Err(oversize));
}

#[test]
fn known_transitions_bounds() {
    let undersize = ConfinementError::Undersize { len: 0, min_len: 1 };
    assert_eq!(KnownTransitions::try_from(BTreeMap::new()), Err(undersize));
    let transition = dummy_transition(ContractId::strict_dumb(), None);
    let mut entries: BTreeMap<(u128, u128), _> =
        (0..65535).map(|k| ((1, k), transition.clone())).collect();
    let held = KnownTransitions::try_from(entries.clone()).unwrap();
    assert_eq!(held.as_unconfined(), &entries);
    assert_eq!(held.clone(), held);
    entries.insert((0, 0), transition);
    let oversize = ConfinementError::Oversize { len: 65536, max_len: 65535 };
    assert_eq!(KnownTransitions::try_from(entries), Err(oversize));
}
