//! Building environments and running operations in them.
use aluvm::data::{MaybeNumber, Number};
use aluvm::reg::{CoreRegs, Reg32 as CoreReg32, RegA};
use rgb_contract_vm::bundle::BundleId;
use rgb_contract_vm::confinement::SmallBlob;
use rgb_contract_vm::contract_op::{create_vm_context, ContractOp, ExecStep, OpInfo};
use rgb_contract_vm::contract_state::{MockContractState, WitnessOrd, WitnessPos};
use rgb_contract_vm::env::{
    assignments_from_typed, create_fungible_assign_vec, create_structured_assign_vec,
    exec_op_and_assert_st0, TestEnv,
};
use rgb_contract_vm::operation::{
    dummy_genesis, dummy_transition, dummy_witness_ord_mined, dummy_witness_pos, ChainNet, OrdOpRef,
};
use rgb_contract_vm::registers::{Reg16, Reg32, RegS};
use rgb_contract_vm::state::{
    Assign, Assignments, MetaValue, RevealedData, RevealedValue, TypedAssigns,
};
use rgb_contract_vm::types::{
    AssignmentType, ContractId, GlobalStateType, GraphSeal, MetaType, OpId, Opout, Signature, Txid,
};
use std::collections::BTreeMap;

const AMOUNTS: AssignmentType = AssignmentType(1);
const DATA: AssignmentType = AssignmentType(2);
const GLOBAL: GlobalStateType = GlobalStateType(3);
const META: MetaType = MetaType(4);

fn data(bytes: &[u8]) -> RevealedData {
    RevealedData::new(SmallBlob::try_from(bytes.to_vec()).unwrap())
}

#[test]
fn placeholders() {
    let genesis = dummy_genesis();
    assert_eq!(genesis.chain_net, ChainNet::BitcoinRegtest);
    assert_eq!(genesis.timestamp, 0);
    assert_eq!(genesis.issuer.0, "");
    assert_eq!(genesis.schema_id.0, [0; 32]);
    assert_eq!(genesis.globals.get(GLOBAL), None);
    assert_eq!(genesis.metadata.get(META), None);
    assert_eq!(genesis.assignments.get(AMOUNTS), None);

    let signature = Signature([5; 64]);
    let transition = dummy_transition(ContractId([6; 32]), Some(signature));
    assert_eq!(transition.contract_id, ContractId([6; 32]));
    assert_eq!(transition.signature, Some(signature));
    assert_eq!(transition.nonce, 0);
    assert_eq!(transition.transition_type.0, 0);
    assert_eq!(transition.ffv.0, 0);
    assert_eq!(transition.inputs.opouts.as_unconfined(), &vec![Opout::strict_dumb()]);

    assert_eq!(dummy_witness_pos(), WitnessPos { height: 1, timestamp: 1231006505 });
    assert_eq!(dummy_witness_ord_mined(), WitnessOrd::Mined(dummy_witness_pos()));
}

#[test]
fn fresh_environments() {
    let env = TestEnv::for_genesis(ContractId([8; 32]));
    assert_eq!(env.contract_id, ContractId([8; 32]));
    assert_eq!(env.genesis_val, Some(dummy_genesis()));
    assert_eq!(env.transition_val, None);
    assert_eq!(env.mock_contract_state, MockContractState::default());
    assert!(env.regs.status());

    let env = TestEnv::for_transition();
    assert_eq!(env.contract_id, ContractId::strict_dumb());
    assert_eq!(env.genesis_val, None);
    assert_eq!(env.transition_val, Some(dummy_transition(ContractId::strict_dumb(), None)));
    assert_eq!(env.prev_assignments_val, Assignments::default());
    assert_eq!(env.regs.get_n(RegA::A64, CoreReg32::Reg31), MaybeNumber::none());
}

#[test]
fn contract_id_reaches_the_transition() {
    let id = ContractId([8; 32]);
    let env = TestEnv::for_transition().set_contract_id(id);
    assert_eq!(env.contract_id, id);
    assert_eq!(env.transition_val.unwrap().contract_id, id);
    let env = TestEnv::for_genesis(ContractId::strict_dumb()).set_contract_id(id);
    assert_eq!(env.contract_id, id);
    assert_eq!(env.genesis_val, Some(dummy_genesis()));
}

#[test]
fn copies_agree_with_the_operation() {
    let env = TestEnv::for_genesis(ContractId::strict_dumb())
        .add_global_current_op(GLOBAL, vec![1])
        .add_metadata_current_op(META, vec![2]);
    let genesis = env.genesis_val.unwrap();
    assert_eq!(genesis.globals, env.globals_val);
    assert_eq!(genesis.metadata, env.metadata_val);
    assert_eq!(env.globals_val.get(GLOBAL), Some(&vec![data(&[1])]));
    let meta = MetaValue::new(SmallBlob::try_from(vec![2]).unwrap());
    assert_eq!(env.metadata_val.get(META), Some(&meta));

    let env = TestEnv::for_transition()
        .add_global_current_op(GLOBAL, vec![1])
        .add_global_current_op(GLOBAL, vec![3])
        .add_metadata_current_op(META, vec![2])
        .add_metadata_current_op(META, vec![4])
        .add_owned_assign_fungible(AMOUNTS, vec![5])
        .add_owned_assign_structured(DATA, vec![vec![6], vec![7]]);
    let transition = env.transition_val.unwrap();
    assert_eq!(transition.globals, env.globals_val);
    assert_eq!(transition.metadata, env.metadata_val);
    assert_eq!(transition.assignments, env.owned_assignments_val);
    assert_eq!(env.globals_val.get(GLOBAL), Some(&vec![data(&[1]), data(&[3])]));
    let meta = MetaValue::new(SmallBlob::try_from(vec![4]).unwrap());
    assert_eq!(env.metadata_val.get(META), Some(&meta));
    assert_eq!(env.owned_assignments_val.get(AMOUNTS).unwrap().as_fungible_state_at(0), Some(5));
    assert_eq!(env.owned_assignments_val.get(DATA).unwrap().len_u16(), 2);
    assert_eq!(env.prev_assignments_val, Assignments::default());
}

#[test]
fn assigned_state_has_the_given_seal() {
    let seal = GraphSeal { txid: Some(Txid { hi: 1, lo: 2 }), vout: 3, blinding: 4 };
    let amounts = create_fungible_assign_vec(seal, vec![9, 8]);
    assert_eq!(
        amounts.items.as_unconfined(),
        &vec![
            Assign::Revealed { seal, state: RevealedValue(9) },
            Assign::Revealed { seal, state: RevealedValue(8) },
        ]
    );
    let items = create_structured_assign_vec(seal, vec![vec![], vec![1, 2]]);
    assert_eq!(
        items.items.as_unconfined(),
        &vec![
            Assign::Revealed { seal, state: data(&[]) },
            Assign::Revealed { seal, state: data(&[1, 2]) },
        ]
    );
}

#[test]
fn assignments_hold_the_entries_of_a_map() {
    let seal = GraphSeal::strict_dumb();
    let mut map = BTreeMap::new();
    map.insert(1, TypedAssigns::Fungible(create_fungible_assign_vec(seal, vec![9, 8])));
    map.insert(65535, TypedAssigns::Structured(create_structured_assign_vec(seal, vec![vec![7]])));
    let assignments = assignments_from_typed(map.clone());
    assert_eq!(assignments.map.as_unconfined(), &map);
    assert_eq!(assignments_from_typed(BTreeMap::new()), Assignments::<GraphSeal>::default());
}

#[test]
fn expectations_that_are_not_met() {
    let mut env = TestEnv::for_transition();
    let count = ContractOp::CnP(AMOUNTS, Reg32::with(0));
    assert!(!env.execute(OpId::strict_dumb(), count, false));
    let load = ContractOp::LdM(META, RegS::from(0));
    assert!(!env.execute(OpId::strict_dumb(), load, true));
    // The flag stays lowered, so a later success is not as expected either.
    assert!(!env.execute(OpId::strict_dumb(), count, true));
    assert!(!env.regs.status());
}

#[test]
fn operation_on_a_context() {
    let mut regs = CoreRegs::default();
    let state = MockContractState::default();
    let transition = dummy_transition(ContractId::strict_dumb(), None);
    let prev = TestEnv::for_transition().add_prev_assign_fungible(AMOUNTS, vec![4, 5]);
    let op = OrdOpRef::Transition(
        &transition,
        Txid::strict_dumb(),
        dummy_witness_ord_mined(),
        BundleId::strict_dumb(),
    );
    let op_info =
        OpInfo { id: OpId::strict_dumb(), prev_state: &prev.prev_assignments_val, op: &op };
    let context = create_vm_context(ContractId::strict_dumb(), op_info, &state);

    let count = ContractOp::CnP(AMOUNTS, Reg32::with(31));
    assert_eq!(count.exec(&mut regs, &context), ExecStep::Next);
    assert_eq!(regs.get_n(RegA::A16, CoreReg32::Reg31), MaybeNumber::from(Number::from(2u16)));
    assert!(exec_op_and_assert_st0(count, &mut regs, &context, true));

    let load = ContractOp::LdF(AMOUNTS, Reg16::with(1), Reg16::with(2));
    assert_eq!(load.exec(&mut regs, &context), ExecStep::Stop);
    assert!(!regs.status());
    assert!(exec_op_and_assert_st0(load, &mut regs, &context, false));
}
