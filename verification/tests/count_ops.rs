//! Counting operations.
use aluvm::data::{MaybeNumber, Number};
use aluvm::reg::{Reg32 as CoreReg32, RegA};
use rgb_contract_vm::confinement::SmallBlob;
use rgb_contract_vm::contract_op::ContractOp;
use rgb_contract_vm::contract_state::GlobalOrd;
use rgb_contract_vm::env::TestEnv;
use rgb_contract_vm::registers::Reg32;
use rgb_contract_vm::state::RevealedData;
use rgb_contract_vm::types::{AssignmentType, ContractId, GlobalStateType, OpId};

const DUMMY_ASSIGN_TYPE_FUNGIBLE: AssignmentType = AssignmentType(1000);
const DUMMY_ASSIGN_TYPE_DATA: AssignmentType = AssignmentType(1001);
const DUMMY_ASSIGN_TYPE_UNUSED: AssignmentType = AssignmentType(1003);
const DUMMY_GLOBAL_TYPE_A: GlobalStateType = GlobalStateType(2000);
const DUMMY_GLOBAL_TYPE_UNUSED: GlobalStateType = GlobalStateType(2002);

// CnP Tests (Count Previous state)
#[test]
fn test_cnp_found_multiple() {
    let mut env = TestEnv::for_transition().add_prev_assign_fungible(
        DUMMY_ASSIGN_TYPE_FUNGIBLE,
        vec![10, 20, 30], // 3 items
    );
    let op_code = ContractOp::CnP(DUMMY_ASSIGN_TYPE_FUNGIBLE, Reg32::with(0));
    assert!(env.execute(OpId::strict_dumb(), op_code, true));
    assert_eq!(env.regs.get_n(RegA::A16, CoreReg32::Reg0), MaybeNumber::from(Number::from(3u16)));
}

#[test]
fn test_cnp_found_single() {
    let mut env = TestEnv::for_transition()
        .add_prev_assign_fungible(DUMMY_ASSIGN_TYPE_FUNGIBLE, vec![10]);
    let op_code = ContractOp::CnP(DUMMY_ASSIGN_TYPE_FUNGIBLE, Reg32::with(0));
    assert!(env.execute(OpId::strict_dumb(), op_code, true));
    assert_eq!(env.regs.get_n(RegA::A16, CoreReg32::Reg0), MaybeNumber::from(Number::from(1u16)));
}

#[test]
fn test_cnp_type_not_found_in_prev_state() {
    let mut env = TestEnv::for_transition();
    let op_code = ContractOp::CnP(DUMMY_ASSIGN_TYPE_UNUSED, Reg32::with(0));
    assert!(env.execute(OpId::strict_dumb(), op_code, true));
    // CnP sets target register to None if the type is not found in prev_state
    assert_eq!(env.regs.get_n(RegA::A16, CoreReg32::Reg0), MaybeNumber::none());
}

// CnS Tests (Count Same [owned] state)
#[test]
fn test_cns_found_multiple_transition() {
    let mut env = TestEnv::for_transition().add_owned_assign_structured(
        DUMMY_ASSIGN_TYPE_DATA,
        vec![vec![1], vec![2]], // 2 items
    );
    let op_code = ContractOp::CnS(DUMMY_ASSIGN_TYPE_DATA, Reg32::with(0));
    assert!(env.execute(OpId::strict_dumb(), op_code, true));
    assert_eq!(env.regs.get_n(RegA::A16, CoreReg32::Reg0), MaybeNumber::from(Number::from(2u16)));
}

#[test]
fn test_cns_found_single_transition() {
    let mut env = TestEnv::for_transition()
        .add_owned_assign_structured(DUMMY_ASSIGN_TYPE_DATA, vec![vec![1]]);
    let op_code = ContractOp::CnS(DUMMY_ASSIGN_TYPE_DATA, Reg32::with(0));
    assert!(env.execute(OpId::strict_dumb(), op_code, true));
    assert_eq!(env.regs.get_n(RegA::A16, CoreReg32::Reg0), MaybeNumber::from(Number::from(1u16)));
}

#[test]
fn test_cns_type_not_found_in_owned_state_transition() {
    let mut env = TestEnv::for_transition();
    let op_code = ContractOp::CnS(DUMMY_ASSIGN_TYPE_UNUSED, Reg32::with(0));
    assert!(env.execute(OpId::strict_dumb(), op_code, true));
    assert_eq!(env.regs.get_n(RegA::A16, CoreReg32::Reg0), MaybeNumber::none());
}

// CnS for a genesis without owned state
#[test]
fn test_cns_genesis_type_not_found() {
    let mut env = TestEnv::for_genesis(ContractId::strict_dumb());
    let op_code = ContractOp::CnS(DUMMY_ASSIGN_TYPE_UNUSED, Reg32::with(0));
    assert!(env.execute(OpId::strict_dumb(), op_code, true));
    assert_eq!(env.regs.get_n(RegA::A16, CoreReg32::Reg0), MaybeNumber::none());
}

// CnG Tests (Count Next [current op's] Global state)
#[test]
fn test_cng_found_multiple() {
    let mut env = TestEnv::for_genesis(ContractId::strict_dumb())
        .add_global_current_op(DUMMY_GLOBAL_TYPE_A, vec![1])
        .add_global_current_op(DUMMY_GLOBAL_TYPE_A, vec![2]);
    let op_code = ContractOp::CnG(DUMMY_GLOBAL_TYPE_A, Reg32::with(0));
    assert!(env.execute(OpId::strict_dumb(), op_code, true));
    assert_eq!(env.regs.get_n(RegA::A8, CoreReg32::Reg0), MaybeNumber::from(Number::from(2u8)));
}

#[test]
fn test_cng_found_single() {
    let mut env = TestEnv::for_genesis(ContractId::strict_dumb()).add_global_current_op(DUMMY_GLOBAL_TYPE_A, vec![1]);
    let op_code = ContractOp::CnG(DUMMY_GLOBAL_TYPE_A, Reg32::with(0));
    assert!(env.execute(OpId::strict_dumb(), op_code, true));
    assert_eq!(env.regs.get_n(RegA::A8, CoreReg32::Reg0), MaybeNumber::from(Number::from(1u8)));
}

#[test]
fn test_cng_type_not_found_in_globals() {
    let mut env = TestEnv::for_genesis(ContractId::strict_dumb());
    let op_code = ContractOp::CnG(DUMMY_GLOBAL_TYPE_UNUSED, Reg32::with(0));
    assert!(env.execute(OpId::strict_dumb(), op_code, true));
    assert_eq!(env.regs.get_n(RegA::A8, CoreReg32::Reg0), MaybeNumber::none());
}

// CnC Tests (Count Contract's [historical] Global state)
#[test]
fn test_cnc_found_multiple() {
    let history = vec![
        (GlobalOrd::genesis(0), RevealedData::new(SmallBlob::try_from(vec![1]).unwrap())),
        (GlobalOrd::genesis(1), RevealedData::new(SmallBlob::try_from(vec![2]).unwrap())),
    ];
    let mut env =
        TestEnv::for_genesis(ContractId::strict_dumb()).set_mock_global_state_history(DUMMY_GLOBAL_TYPE_A, history);
    let op_code = ContractOp::CnC(DUMMY_GLOBAL_TYPE_A, Reg32::with(0));
    assert!(env.execute(OpId::strict_dumb(), op_code, true));
    assert_eq!(env.regs.get_n(RegA::A32, CoreReg32::Reg0), MaybeNumber::from(Number::from(2u32)));
}

#[test]
fn test_cnc_found_single() {
    let history =
        vec![(GlobalOrd::genesis(0), RevealedData::new(SmallBlob::try_from(vec![1]).unwrap()))];
    let mut env =
        TestEnv::for_genesis(ContractId::strict_dumb()).set_mock_global_state_history(DUMMY_GLOBAL_TYPE_A, history);
    let op_code = ContractOp::CnC(DUMMY_GLOBAL_TYPE_A, Reg32::with(0));
    assert!(env.execute(OpId::strict_dumb(), op_code, true));
    assert_eq!(env.regs.get_n(RegA::A32, CoreReg32::Reg0), MaybeNumber::from(Number::from(1u32)));
}

#[test]
fn test_cnc_type_not_found_in_history() {
    let mut env = TestEnv::for_genesis(ContractId::strict_dumb());
    let op_code = ContractOp::CnC(DUMMY_GLOBAL_TYPE_UNUSED, Reg32::with(0));
    assert!(env.execute(OpId::strict_dumb(), op_code, true));
    // A type without history has an empty one, so its size is 0.
    assert_eq!(env.regs.get_n(RegA::A32, CoreReg32::Reg0), MaybeNumber::from(Number::from(0u32)));
}

#[test]
fn test_cnc_fail_on_global_access_error() {
    let mut env = TestEnv::for_genesis(ContractId::strict_dumb()).set_mock_fail_global_access(true);
    let op_code = ContractOp::CnC(DUMMY_GLOBAL_TYPE_A, Reg32::with(0));
    assert!(env.execute(OpId::strict_dumb(), op_code, true));
    assert_eq!(env.regs.get_n(RegA::A32, CoreReg32::Reg0), MaybeNumber::none());
}
