//! Loading operations.
use aluvm::data::{MaybeNumber, Number};
use aluvm::reg::{Reg32 as CoreReg32, RegA, RegS as CoreRegS};
use amplify::num::u24;
use rgb_contract_vm::confinement::{NonEmptyVec, SmallBlob};
use rgb_contract_vm::contract_op::ContractOp;
use rgb_contract_vm::contract_state::GlobalOrd;
use rgb_contract_vm::env::{assignments_from_typed, TestEnv};
use rgb_contract_vm::registers::{Reg16, RegS};
use rgb_contract_vm::state::{Assign, AssignVec, RevealedData, TypedAssigns};
use rgb_contract_vm::types::{AssignmentType, ContractId, GlobalStateType, MetaType, OpId, SecretSeal};
use std::collections::BTreeMap;

const DUMMY_ASSIGN_TYPE_FUNGIBLE: AssignmentType = AssignmentType(1000);
const DUMMY_ASSIGN_TYPE_DATA: AssignmentType = AssignmentType(1001);
const DUMMY_GLOBAL_TYPE_A: GlobalStateType = GlobalStateType(2000);
const DUMMY_META_TYPE_A: MetaType = MetaType(3000);

// LdP (Load Previous structured state) Tests
#[test]
fn test_ldp_success_revealed() {
    let data_vec = vec![0xAB, 0xCD, 0xEF];
    let mut env = TestEnv::for_transition()
        .add_prev_assign_structured(DUMMY_ASSIGN_TYPE_DATA, vec![data_vec.clone()]);
    env.regs.set_n(RegA::A16, CoreReg32::Reg0, Number::from(0u16)); // index = 0

    let op_code = ContractOp::LdP(DUMMY_ASSIGN_TYPE_DATA, Reg16::with(0), RegS::from(0));
    assert!(env.execute(OpId::strict_dumb(), op_code, true));

    assert_eq!(env.regs.s16(CoreRegS::from(0)).unwrap().as_ref(), data_vec.as_slice());
}

#[test]
fn test_ldp_success_concealed_seal_loads_state() {
    let data_vec = vec![0xAA, 0xBB];
    let revealed_data = RevealedData::new(SmallBlob::try_from(data_vec.clone()).unwrap());
    let concealed_assign = Assign::ConfidentialSeal {
        seal: SecretSeal::strict_dumb(),
        state: revealed_data,
    };

    let mut prev_map = BTreeMap::new();
    prev_map.insert(
        DUMMY_ASSIGN_TYPE_DATA.0,
        TypedAssigns::Structured(AssignVec::with(NonEmptyVec::with(concealed_assign))),
    );
    let mut env = TestEnv::for_transition();
    env.prev_assignments_val = assignments_from_typed(prev_map);
    env.regs.set_n(RegA::A16, CoreReg32::Reg0, Number::from(0u16));

    let op_code = ContractOp::LdP(DUMMY_ASSIGN_TYPE_DATA, Reg16::with(0), RegS::from(0));
    assert!(env.execute(OpId::strict_dumb(), op_code, true));
    assert_eq!(env.regs.s16(CoreRegS::from(0)).unwrap().as_ref(), data_vec.as_slice());
}

#[test]
fn test_ldp_fail_index_reg_none() {
    let mut env = TestEnv::for_transition(); // a16[0] (index_reg) is None
    let op_code = ContractOp::LdP(DUMMY_ASSIGN_TYPE_DATA, Reg16::with(0), RegS::from(0));
    assert!(env.execute(OpId::strict_dumb(), op_code, false));
    assert!(env.regs.s16(CoreRegS::from(0)).is_none());
}

#[test]
fn test_ldp_fail_state_type_missing_in_prev() {
    let mut env = TestEnv::for_transition(); // prev_assignments is empty
    env.regs.set_n(RegA::A16, CoreReg32::Reg0, Number::from(0u16));
    let op_code = ContractOp::LdP(DUMMY_ASSIGN_TYPE_DATA, Reg16::with(0), RegS::from(0));
    assert!(env.execute(OpId::strict_dumb(), op_code, false));
    assert!(env.regs.s16(CoreRegS::from(0)).is_none());
}

#[test]
fn test_ldp_fail_index_oob() {
    // 1 item at index 0
    let mut env = TestEnv::for_transition()
        .add_prev_assign_structured(DUMMY_ASSIGN_TYPE_DATA, vec![vec![1]]);
    // Request index 1
    env.regs.set_n(RegA::A16, CoreReg32::Reg0, Number::from(1u16));

    let op_code = ContractOp::LdP(DUMMY_ASSIGN_TYPE_DATA, Reg16::with(0), RegS::from(0));
    assert!(env.execute(OpId::strict_dumb(), op_code, false));
    assert!(env.regs.s16(CoreRegS::from(0)).is_none());
}

#[test]
fn test_ldp_fail_wrong_state_type_in_prev() {
    // prev_state has DUMMY_ASSIGN_TYPE_DATA, but it's Fungible, not Structured for LdP
    let mut env =
        TestEnv::for_transition().add_prev_assign_fungible(DUMMY_ASSIGN_TYPE_DATA, vec![100]);
    env.regs.set_n(RegA::A16, CoreReg32::Reg0, Number::from(0u16));

    let op_code = ContractOp::LdP(DUMMY_ASSIGN_TYPE_DATA, Reg16::with(0), RegS::from(0));
    assert!(env.execute(OpId::strict_dumb(), op_code, false));
    assert!(env.regs.s16(CoreRegS::from(0)).is_none());
}

// LdS (Load Same/owned structured state) Tests
#[test]
fn test_lds_success_revealed() {
    let data_vec = vec![0xBE, 0xEF];
    let mut env = TestEnv::for_transition()
        .add_owned_assign_structured(DUMMY_ASSIGN_TYPE_DATA, vec![data_vec.clone()]);
    env.regs.set_n(RegA::A16, CoreReg32::Reg0, Number::from(0u16));

    let op_code = ContractOp::LdS(DUMMY_ASSIGN_TYPE_DATA, Reg16::with(0), RegS::from(1));
    assert!(env.execute(OpId::strict_dumb(), op_code, true));
    assert_eq!(env.regs.s16(CoreRegS::from(1)).unwrap().as_ref(), data_vec.as_slice());
}

#[test]
fn test_lds_fail_index_reg_none() {
    let mut env = TestEnv::for_transition(); // a16[0] is None
    let op_code = ContractOp::LdS(DUMMY_ASSIGN_TYPE_DATA, Reg16::with(0), RegS::from(1));
    assert!(env.execute(OpId::strict_dumb(), op_code, false));
    assert!(env.regs.s16(CoreRegS::from(1)).is_none());
}

#[test]
fn test_lds_fail_state_type_missing_in_owned() {
    let mut env = TestEnv::for_transition();
    env.regs.set_n(RegA::A16, CoreReg32::Reg0, Number::from(0u16));
    let op_code = ContractOp::LdS(DUMMY_ASSIGN_TYPE_DATA, Reg16::with(0), RegS::from(1));
    assert!(env.execute(OpId::strict_dumb(), op_code, false));
    assert!(env.regs.s16(CoreRegS::from(1)).is_none());
}

#[test]
fn test_lds_fail_index_oob() {
    let mut env = TestEnv::for_transition()
        .add_owned_assign_structured(DUMMY_ASSIGN_TYPE_DATA, vec![vec![1]]);
    env.regs.set_n(RegA::A16, CoreReg32::Reg0, Number::from(1u16)); // Request index 1
    let op_code = ContractOp::LdS(DUMMY_ASSIGN_TYPE_DATA, Reg16::with(0), RegS::from(1));
    assert!(env.execute(OpId::strict_dumb(), op_code, false));
    assert!(env.regs.s16(CoreRegS::from(1)).is_none());
}

#[test]
fn test_lds_fail_wrong_state_type_in_owned() {
    // Data is fungible
    let mut env =
        TestEnv::for_transition().add_owned_assign_fungible(DUMMY_ASSIGN_TYPE_DATA, vec![100]);
    env.regs.set_n(RegA::A16, CoreReg32::Reg0, Number::from(0u16));
    let op_code = ContractOp::LdS(DUMMY_ASSIGN_TYPE_DATA, Reg16::with(0), RegS::from(1));
    assert!(env.execute(OpId::strict_dumb(), op_code, false));
    assert!(env.regs.s16(CoreRegS::from(1)).is_none());
}

// LdF (Load Same/owned Fungible state) Tests
#[test]
fn test_ldf_success_revealed() {
    let fungible_val = 777u64;
    let mut env = TestEnv::for_transition()
        .add_owned_assign_fungible(DUMMY_ASSIGN_TYPE_FUNGIBLE, vec![fungible_val]);
    // index_reg for source; destination is a64[Reg16::Reg0]
    env.regs.set_n(RegA::A16, CoreReg32::Reg0, Number::from(0u16));

    let op_code = ContractOp::LdF(DUMMY_ASSIGN_TYPE_FUNGIBLE, Reg16::with(0), Reg16::with(0));
    assert!(env.execute(OpId::strict_dumb(), op_code, true));
    assert_eq!(
        env.regs.get_n(RegA::A64, CoreReg32::Reg0),
        MaybeNumber::from(Number::from(fungible_val))
    );
}

#[test]
fn test_ldf_fail_index_reg_none() {
    let mut env = TestEnv::for_transition();
    let op_code = ContractOp::LdF(DUMMY_ASSIGN_TYPE_FUNGIBLE, Reg16::with(0), Reg16::with(0));
    assert!(env.execute(OpId::strict_dumb(), op_code, false));
    assert!(env.regs.get_n(RegA::A64, CoreReg32::Reg0).is_none());
}

#[test]
fn test_ldf_fail_state_type_missing_in_owned() {
    let mut env = TestEnv::for_transition();
    env.regs.set_n(RegA::A16, CoreReg32::Reg0, Number::from(0u16));
    let op_code = ContractOp::LdF(DUMMY_ASSIGN_TYPE_FUNGIBLE, Reg16::with(0), Reg16::with(0));
    assert!(env.execute(OpId::strict_dumb(), op_code, false));
    assert!(env.regs.get_n(RegA::A64, CoreReg32::Reg0).is_none());
}

#[test]
fn test_ldf_fail_index_oob() {
    let mut env = TestEnv::for_transition()
        .add_owned_assign_fungible(DUMMY_ASSIGN_TYPE_FUNGIBLE, vec![100]);
    // Request index 1
    env.regs.set_n(RegA::A16, CoreReg32::Reg0, Number::from(1u16));
    let op_code = ContractOp::LdF(DUMMY_ASSIGN_TYPE_FUNGIBLE, Reg16::with(0), Reg16::with(0));
    assert!(env.execute(OpId::strict_dumb(), op_code, false));
    assert!(env.regs.get_n(RegA::A64, CoreReg32::Reg0).is_none());
}

#[test]
fn test_ldf_fail_wrong_state_type_in_owned() {
    // Data is structured
    let mut env = TestEnv::for_transition()
        .add_owned_assign_structured(DUMMY_ASSIGN_TYPE_FUNGIBLE, vec![vec![1]]);
    env.regs.set_n(RegA::A16, CoreReg32::Reg0, Number::from(0u16));
    let op_code = ContractOp::LdF(DUMMY_ASSIGN_TYPE_FUNGIBLE, Reg16::with(0), Reg16::with(0));
    assert!(env.execute(OpId::strict_dumb(), op_code, false));
    assert!(env.regs.get_n(RegA::A64, CoreReg32::Reg0).is_none());
}

// LdG (Load Global state from current op) Tests
#[test]
fn test_ldg_success() {
    let data_vec = vec![0xC0, 0xDE];
    let mut env =
        TestEnv::for_genesis(ContractId::strict_dumb()).add_global_current_op(DUMMY_GLOBAL_TYPE_A, data_vec.clone());
    // index_reg for source (a8)
    env.regs.set_n(RegA::A8, CoreReg32::Reg0, Number::from(0u8));

    let op_code = ContractOp::LdG(DUMMY_GLOBAL_TYPE_A, Reg16::with(0), RegS::from(2));
    assert!(env.execute(OpId::strict_dumb(), op_code, true));
    assert_eq!(env.regs.s16(CoreRegS::from(2)).unwrap().as_ref(), data_vec.as_slice());
}

#[test]
fn test_ldg_success_multiple_items_correct_index() {
    let data_vec1 = vec![0xC0];
    let data_vec2 = vec![0xDE];
    let mut env = TestEnv::for_genesis(ContractId::strict_dumb())
        .add_global_current_op(DUMMY_GLOBAL_TYPE_A, data_vec1.clone())
        .add_global_current_op(DUMMY_GLOBAL_TYPE_A, data_vec2.clone());
    // index = 1 (for the second item)
    env.regs.set_n(RegA::A8, CoreReg32::Reg0, Number::from(1u8));

    let op_code = ContractOp::LdG(DUMMY_GLOBAL_TYPE_A, Reg16::with(0), RegS::from(2));
    assert!(env.execute(OpId::strict_dumb(), op_code, true));
    assert_eq!(env.regs.s16(CoreRegS::from(2)).unwrap().as_ref(), data_vec2.as_slice());
}

#[test]
fn test_ldg_fail_index_reg_none() {
    let mut env = TestEnv::for_genesis(ContractId::strict_dumb()).add_global_current_op(DUMMY_GLOBAL_TYPE_A, vec![1, 2]);
    // Index register a8[0] is deliberately not set (i.e., None)
    let op_code = ContractOp::LdG(DUMMY_GLOBAL_TYPE_A, Reg16::with(0), RegS::from(2));
    assert!(env.execute(OpId::strict_dumb(), op_code, false));
    assert!(env.regs.s16(CoreRegS::from(2)).is_none());
}

#[test]
fn test_ldg_fail_state_type_missing_in_globals() {
    // Globals are empty for DUMMY_GLOBAL_TYPE_A
    let mut env = TestEnv::for_genesis(ContractId::strict_dumb());
    env.regs.set_n(RegA::A8, CoreReg32::Reg0, Number::from(0u8));
    let op_code = ContractOp::LdG(DUMMY_GLOBAL_TYPE_A, Reg16::with(0), RegS::from(2));
    assert!(env.execute(OpId::strict_dumb(), op_code, false));
    assert!(env.regs.s16(CoreRegS::from(2)).is_none());
}

#[test]
fn test_ldg_fail_index_oob() {
    // 1 item
    let mut env = TestEnv::for_genesis(ContractId::strict_dumb()).add_global_current_op(DUMMY_GLOBAL_TYPE_A, vec![1, 2]);
    // Request index 1 (OOB for 1 item)
    env.regs.set_n(RegA::A8, CoreReg32::Reg0, Number::from(1u8));

    let op_code = ContractOp::LdG(DUMMY_GLOBAL_TYPE_A, Reg16::with(0), RegS::from(2));
    assert!(env.execute(OpId::strict_dumb(), op_code, false));
    assert!(env.regs.s16(CoreRegS::from(2)).is_none());
}

// LdC (Load Global state from Contract history) Tests
#[test]
fn test_ldc_success() {
    let data_vec_hist = vec![0x12, 0x34];
    let history = vec![(
        GlobalOrd::genesis(0), // Dummy GlobalOrd
        RevealedData::new(SmallBlob::try_from(data_vec_hist.clone()).unwrap()),
    )];
    // LdC uses contract_state, not current op's state
    let mut env =
        TestEnv::for_genesis(ContractId::strict_dumb()).set_mock_global_state_history(DUMMY_GLOBAL_TYPE_A, history);
    // Depth 1 is the first item
    env.regs.set_n(RegA::A32, CoreReg32::Reg0, Number::from(1u32));

    let op_code = ContractOp::LdC(DUMMY_GLOBAL_TYPE_A, Reg16::with(0), RegS::from(3));
    assert!(env.execute(OpId::strict_dumb(), op_code, true));
    assert_eq!(env.regs.s16(CoreRegS::from(3)).unwrap().as_ref(), data_vec_hist.as_slice());
}

#[test]
fn test_ldc_success_at_depth_one() {
    let data_vec_hist1 = vec![0x01, 0x02];
    let data_vec_hist2 = vec![0x03, 0x04];
    let history = vec![
        (
            GlobalOrd::genesis(1), // d = 1
            RevealedData::new(SmallBlob::try_from(data_vec_hist1.clone()).unwrap()),
        ),
        (
            GlobalOrd::genesis(2), // d = 2
            RevealedData::new(SmallBlob::try_from(data_vec_hist2.clone()).unwrap()),
        ),
    ];
    let mut env =
        TestEnv::for_genesis(ContractId::strict_dumb()).set_mock_global_state_history(DUMMY_GLOBAL_TYPE_A, history);
    env.regs.set_n(RegA::A32, CoreReg32::Reg0, Number::from(1u32)); // depth = 1

    let op_code = ContractOp::LdC(DUMMY_GLOBAL_TYPE_A, Reg16::with(0), RegS::from(3));
    assert!(env.execute(OpId::strict_dumb(), op_code, true));
    assert_eq!(env.regs.s16(CoreRegS::from(3)).unwrap().as_ref(), data_vec_hist1.as_slice());

    env.regs.set_n(RegA::A32, CoreReg32::Reg0, Number::from(2u32)); // depth = 2
    let op_code = ContractOp::LdC(DUMMY_GLOBAL_TYPE_A, Reg16::with(0), RegS::from(4));
    assert!(env.execute(OpId::strict_dumb(), op_code, true));
    assert_eq!(env.regs.s16(CoreRegS::from(4)).unwrap().as_ref(), data_vec_hist2.as_slice());
}

#[test]
fn test_ldc_fail_mock_global_access_error() {
    let mut env = TestEnv::for_genesis(ContractId::strict_dumb()).set_mock_fail_global_access(true);
    env.regs.set_n(RegA::A32, CoreReg32::Reg0, Number::from(0u32));
    let op_code = ContractOp::LdC(DUMMY_GLOBAL_TYPE_A, Reg16::with(0), RegS::from(3));
    // The operation fails if global state is inaccessible
    assert!(env.execute(OpId::strict_dumb(), op_code, false));
    assert!(env.regs.s16(CoreRegS::from(3)).is_none());
}

#[test]
fn test_ldc_fail_depth_reg_none() {
    let mut env = TestEnv::for_genesis(ContractId::strict_dumb()); // a32[0] (depth_reg) is None
    let op_code = ContractOp::LdC(DUMMY_GLOBAL_TYPE_A, Reg16::with(0), RegS::from(3));
    assert!(env.execute(OpId::strict_dumb(), op_code, false));
    assert!(env.regs.s16(CoreRegS::from(3)).is_none());
}

#[test]
fn test_ldc_fail_depth_oob_in_history() {
    let history =
        vec![(GlobalOrd::genesis(0), RevealedData::new(SmallBlob::try_from(vec![1]).unwrap()))]; // Only 1 item
    let mut env =
        TestEnv::for_genesis(ContractId::strict_dumb()).set_mock_global_state_history(DUMMY_GLOBAL_TYPE_A, history);
    env.regs.set_n(RegA::A32, CoreReg32::Reg0, Number::from(2u32)); // Request depth 2 (OOB)

    let op_code = ContractOp::LdC(DUMMY_GLOBAL_TYPE_A, Reg16::with(0), RegS::from(3));
    assert!(env.execute(OpId::strict_dumb(), op_code, false));
    assert!(env.regs.s16(CoreRegS::from(3)).is_none());
}

#[test]
fn test_ldc_fail_depth_too_large_for_u24() {
    let mut env = TestEnv::for_genesis(ContractId::strict_dumb());
    // Set depth register to a value greater than u24::MAX to test saturation/error handling
    env.regs
        .set_n(RegA::A32, CoreReg32::Reg0, Number::from(u24::MAX.to_u32() + 1));

    let op_code = ContractOp::LdC(DUMMY_GLOBAL_TYPE_A, Reg16::with(0), RegS::from(3));
    assert!(env.execute(OpId::strict_dumb(), op_code, false));
    assert!(env.regs.s16(CoreRegS::from(3)).is_none());
}

// LdM (Load Metadata from current op) Tests
#[test]
fn test_ldm_success() {
    let meta_bytes = vec![0xDA, 0x7A];
    let mut env =
        TestEnv::for_genesis(ContractId::strict_dumb()).add_metadata_current_op(DUMMY_META_TYPE_A, meta_bytes.clone());

    let op_code = ContractOp::LdM(DUMMY_META_TYPE_A, RegS::from(4));
    assert!(env.execute(OpId::strict_dumb(), op_code, true));
    assert_eq!(env.regs.s16(CoreRegS::from(4)).unwrap().as_ref(), meta_bytes.as_slice());
}

#[test]
fn test_ldm_fail_meta_type_missing() {
    let mut env = TestEnv::for_genesis(ContractId::strict_dumb()); // metadata is empty by default
    let op_code = ContractOp::LdM(DUMMY_META_TYPE_A, RegS::from(4));
    assert!(env.execute(OpId::strict_dumb(), op_code, false));
    assert!(env.regs.s16(CoreRegS::from(4)).is_none());
}
