//! Bounds of collections and of the state that is held in them.
use rgb_contract_vm::confinement::{
    ConfinementError, NonEmptyVec, SmallBlob, SmallOrdMap, U16,
};
use rgb_contract_vm::state::{
    Assign, AssignVec, Assignments, GlobalState, MetaValue, Metadata, RevealedData, RevealedValue,
    TypedAssigns, VoidState,
};
use rgb_contract_vm::types::{AssignmentType, GlobalStateType, GraphSeal, MetaType, SecretSeal};

fn blob(bytes: &[u8]) -> SmallBlob {
    SmallBlob::try_from(bytes.to_vec()).unwrap()
}

fn amounts(values: &[u64]) -> TypedAssigns<GraphSeal> {
    let assigns: Vec<Assign<RevealedValue, GraphSeal>> = values
        .iter()
        .map(|v| Assign::Revealed { seal: GraphSeal::strict_dumb(), state: RevealedValue(*v) })
        .collect();
    TypedAssigns::Fungible(AssignVec::with(NonEmptyVec::try_from(assigns).unwrap()))
}

#[test]
fn blob_bounds() {
    assert_eq!(blob(&[]).as_unconfined(), &Vec::<u8>::new());
    assert_eq!(blob(&[1, 2]).clone().as_unconfined(), &vec![1, 2]);
    assert!(SmallBlob::try_from(vec![0; U16]).is_ok());
    assert_eq!(
        SmallBlob::try_from(vec![0; U16 + 1]),
        Err(ConfinementError::Oversize { len: 65536, max_len: 65535 })
    );
}

#[test]
fn vector_bounds() {
    assert_eq!(
        NonEmptyVec::try_from(Vec::<u8>::new()),
        Err(ConfinementError::Undersize { len: 0, min_len: 1 })
    );
    assert_eq!(
        NonEmptyVec::try_from(vec![0u8; 65537]),
        Err(ConfinementError::Oversize { len: 65537, max_len: 65535 })
    );
    let v = NonEmptyVec::try_from(vec![3u8, 4]).unwrap();
    assert_eq!(v.as_unconfined(), &vec![3, 4]);
    assert_eq!(v.clone(), v);
    assert_eq!(NonEmptyVec::with(5u8).as_unconfined(), &vec![5]);
}

#[test]
fn full_vector_refuses_another_item() {
    let (v, pushed) = NonEmptyVec::with(5u8).push(6);
    assert_eq!(pushed, Ok(()));
    assert_eq!(v.as_unconfined(), &vec![5, 6]);
    let full = NonEmptyVec::try_from(vec![7u8; U16]).unwrap();
    let (after, pushed) = full.clone().push(8);
    assert_eq!(pushed, Err(ConfinementError::Oversize { len: 65536, max_len: 65535 }));
    assert_eq!(after, full);
}

#[test]
fn full_map_refuses_every_entry() {
    let mut map: SmallOrdMap<u8> = SmallOrdMap::new();
    assert_eq!(map.insert(7, 1), Ok(None));
    assert_eq!(map.insert(7, 2), Ok(Some(1)));
    for key in 0..65535u16 {
        map.insert(key, 3).unwrap();
    }
    let before = map.clone();
    let error = ConfinementError::Oversize { len: 65536, max_len: 65535 };
    assert_eq!(map.insert(65535, 4), Err(error));
    assert_eq!(map.insert(7, 4), Err(error));
    assert_eq!(map, before);
    assert_eq!(map.get(7), Some(&3));
    assert_eq!(map.get(65535), None);
    assert_eq!(map.as_unconfined().len(), 65535);
}

#[test]
fn assignments_hold_one_kind_per_type() {
    let ty = AssignmentType::with(4);
    let mut assignments: Assignments<GraphSeal> = Assignments::default();
    assert_eq!(assignments.insert(ty, amounts(&[1, 2])), Ok(None));
    assert_eq!(assignments.insert(ty, amounts(&[5])), Ok(Some(amounts(&[1, 2]))));
    assert_eq!(assignments.get(ty), Some(&amounts(&[5])));
    assert_eq!(assignments.get(AssignmentType::with(5)), None);
    assert_eq!(assignments.checked_total(ty), Some(5));
    assert_eq!(assignments.checked_total(AssignmentType::with(5)), Some(0));
    assert!(!assignments.has_zero_amount(ty));
    assert!(!assignments.has_zero_amount(AssignmentType::with(5)));
}

#[test]
fn full_assignments_refuse_another_type() {
    let mut assignments: Assignments<GraphSeal> = Assignments::default();
    for ty in 0..65535u16 {
        assignments.insert(AssignmentType(ty), amounts(&[1])).unwrap();
    }
    assert_eq!(
        assignments.insert(AssignmentType(65535), amounts(&[1])),
        Err(ConfinementError::Oversize { len: 65536, max_len: 65535 })
    );
}

#[test]
fn sums_and_zero_amounts() {
    assert_eq!(amounts(&[10, 20, 30]).checked_sum(), Some(60));
    assert_eq!(amounts(&[u64::MAX]).checked_sum(), Some(u64::MAX));
    assert_eq!(amounts(&[u64::MAX, 0]).checked_sum(), Some(u64::MAX));
    assert_eq!(amounts(&[u64::MAX, 1]).checked_sum(), None);
    assert_eq!(amounts(&[1, u64::MAX]).checked_sum(), None);
    assert!(amounts(&[1, 0]).has_zero_amount());
    assert!(!amounts(&[1, 2]).has_zero_amount());
    assert_eq!(amounts(&[1, 2]).len_u16(), 2);
    assert_eq!(amounts(&[1, 2]).as_fungible_state_at(1), Some(2));
    assert_eq!(amounts(&[1, 2]).as_fungible_state_at(2), None);
    assert_eq!(amounts(&[1, 2]).as_structured_state_at(0), None);
}

#[test]
fn rights_carry_no_data() {
    let right: Assign<VoidState, GraphSeal> =
        Assign::ConfidentialSeal { seal: SecretSeal::strict_dumb(), state: VoidState };
    assert_eq!(right.as_revealed_state(), &VoidState);
    let rights = TypedAssigns::Declarative(AssignVec::with(NonEmptyVec::with(right)));
    assert_eq!(rights.len_u16(), 1);
    assert_eq!(rights.as_structured_state_at(0), None);
    assert_eq!(rights.as_fungible_state_at(0), None);
    assert_eq!(rights.checked_sum(), None);
    assert!(!rights.has_zero_amount());
}

#[test]
fn global_state_keeps_the_order_of_values() {
    let ty = GlobalStateType::with(9);
    let mut state = GlobalState::default();
    assert_eq!(state.get(ty), None);
    state.add_state(ty, RevealedData::new(blob(&[1]))).unwrap();
    state.add_state(ty, RevealedData::new(blob(&[2, 3]))).unwrap();
    state.add_state(GlobalStateType::with(10), RevealedData::new(blob(&[4]))).unwrap();
    let expected = vec![RevealedData::new(blob(&[1])), RevealedData::new(blob(&[2, 3]))];
    assert_eq!(state.get(ty), Some(&expected));
    assert_eq!(state.clone(), state);
}

#[test]
fn full_global_state_refuses_another_value() {
    let ty = GlobalStateType::with(9);
    let mut state = GlobalState::default();
    for _ in 0..65535 {
        state.add_state(ty, RevealedData::new(blob(&[]))).unwrap();
    }
    assert_eq!(
        state.add_state(ty, RevealedData::new(blob(&[1]))),
        Err(ConfinementError::Oversize { len: 65536, max_len: 65535 })
    );
    assert_eq!(state.get(ty).unwrap().len(), 65535);
    assert!(state.add_state(GlobalStateType::with(10), RevealedData::new(blob(&[1]))).is_ok());
}

#[test]
fn metadata_is_replaced() {
    let ty = MetaType::with(6);
    let mut metadata = Metadata::default();
    assert_eq!(metadata.insert(ty, MetaValue::new(blob(&[1]))), Ok(None));
    assert_eq!(
        metadata.insert(ty, MetaValue::new(blob(&[2]))),
        Ok(Some(MetaValue::new(blob(&[1]))))
    );
    assert_eq!(metadata.get(ty), Some(&MetaValue::new(blob(&[2]))));
    assert_eq!(metadata.get(MetaType::with(7)), None);
    for ty in 0..65535u16 {
        metadata.insert(MetaType(ty), MetaValue::new(blob(&[]))).unwrap();
    }
    assert_eq!(
        metadata.insert(MetaType(65535), MetaValue::new(blob(&[]))),
        Err(ConfinementError::Oversize { len: 65536, max_len: 65535 })
    );
}
