//! Operations that contract scripts use to read and check state.
use crate::contract_state::{try_u24, GlobalItem, MockContractState, U24_MAX};
use crate::operation::OrdOpRef;
use crate::registers::{
    get_n, reg_file, set_failure, set_n, set_s16, Reg16, Reg32, RegA, RegFile, RegS,
};
use crate::state::{total, Assignments, StateView};
use crate::types::{AssignmentType, ContractId, GlobalStateType, GraphSeal, MetaType, OpId};
use aluvm::reg::CoreRegs;
use vstd::prelude::*;

verus! {

/// The operation under validation.
pub struct OpInfo<'op> {
    /// Identifier of the operation.
    pub id: OpId,
    /// The state that the operation spends.
    pub prev_state: &'op Assignments<GraphSeal>,
    /// The operation.
    pub op: &'op OrdOpRef<'op>,
}

/// What a contract script runs on.
pub struct VmContext<'op> {
    /// The contract.
    pub contract_id: ContractId,
    /// The operation under validation.
    pub op_info: OpInfo<'op>,
    /// State of the contract before the operation.
    pub contract_state: &'op MockContractState,
}

/// Puts a context together.
pub fn create_vm_context<'op>(
    contract_id: ContractId,
    op_info: OpInfo<'op>,
    contract_state: &'op MockContractState,
) -> (context: VmContext<'op>)
    ensures
        context.contract_id == contract_id,
        context.op_info == op_info,
        context.contract_state == contract_state,
{
    VmContext { contract_id, op_info, contract_state }
}

impl<'op> VmContext<'op> {
    /// Spent states of a type; `None` if there are none.
    pub open spec fn prev(&self, ty: AssignmentType) -> Option<StateView> {
        self.op_info.prev_state.states(ty)
    }

    /// Owned states of a type that the operation assigns; `None` if there are
    /// none.
    pub open spec fn owned(&self, ty: AssignmentType) -> Option<StateView> {
        self.op_info.op.owned(ty)
    }

    /// Global state of a type in the operation; `None` if there is none.
    pub open spec fn global(&self, ty: GlobalStateType) -> Option<Seq<Seq<u8>>> {
        self.op_info.op.globals().get(ty.0)
    }

    /// Metadata of a type in the operation; `None` if there is none.
    pub open spec fn meta(&self, ty: MetaType) -> Option<Seq<u8>> {
        self.op_info.op.metadata().get(ty.0)
    }

    /// Global state of a type in the history of the contract; `None` if it is
    /// inaccessible.
    pub open spec fn history(&self, ty: GlobalStateType) -> Option<Seq<Seq<u8>>> {
        if self.contract_state.fail_global_access {
            None
        } else {
            Some(self.contract_state.history(ty).map_values(|item: GlobalItem| item.1@))
        }
    }
}

/// What the machine does after an operation.
#[derive(Clone, Copy, Debug, PartialEq, Eq, Structural)]
pub enum ExecStep {
    /// The script ends.
    Stop,
    /// The next operation runs.
    Next,
}

/// An operation on state.
#[derive(Clone, Copy, Debug, PartialEq, Eq)]
pub enum ContractOp {
    /// Counts spent states of a type into an `a16` register, which is cleared
    /// if there are none.
    CnP(AssignmentType, Reg32),
    /// Counts owned states of a type into an `a16` register, which is cleared
    /// if there are none.
    CnS(AssignmentType, Reg32),
    /// Counts global states of a type in the operation into an `a8` register,
    /// which is cleared if there are none.
    CnG(GlobalStateType, Reg32),
    /// Counts global states of a type in the contract into an `a32` register,
    /// which is cleared if they are inaccessible.
    CnC(GlobalStateType, Reg32),
    /// Loads the spent structured state of a type whose position stands in an
    /// `a16` register. Fails if there is none.
    LdP(AssignmentType, Reg16, RegS),
    /// Loads the owned structured state of a type whose position stands in an
    /// `a16` register. Fails if there is none.
    LdS(AssignmentType, Reg16, RegS),
    /// Loads the owned amount of a type whose position stands in an `a16`
    /// register into an `a64` register. Fails if there is none.
    LdF(AssignmentType, Reg16, Reg16),
    /// Loads the global state of a type in the operation whose position stands
    /// in an `a8` register. Fails if there is none.
    LdG(GlobalStateType, Reg16, RegS),
    /// Loads the global state of a type in the contract whose depth stands in
    /// an `a32` register. Fails if there is none.
    LdC(GlobalStateType, Reg16, RegS),
    /// Loads the metadata of a type. Fails if there is none.
    LdM(MetaType, RegS),
    /// Fails unless the spent and the owned amounts of a type have the same
    /// total.
    Svs(AssignmentType),
    /// Fails unless the owned amounts of a type have the total that stands in
    /// `a64[0]` and none of them is zero.
    Sas(AssignmentType),
    /// Fails unless the spent amounts of a type have the total that stands in
    /// `a64[0]`.
    Sps(AssignmentType),
}

/// The number of states; `None` if there are none.
pub open spec fn state_count(state: Option<StateView>) -> Option<u64> {
    match state {
        Some(view) => Some(view.count() as u64),
        None => None,
    }
}

/// The number of items; `None` if they do not exist.
pub open spec fn item_count(items: Option<Seq<Seq<u8>>>) -> Option<u64> {
    match items {
        Some(items) => Some(items.len() as u64),
        None => None,
    }
}

/// The item at a position.
pub open spec fn item_at(items: Option<Seq<Seq<u8>>>, index: Option<u64>) -> Option<Seq<u8>> {
    match (items, index) {
        (Some(items), Some(index)) => if index < items.len() {
            Some(items[index as int])
        } else {
            None
        },
        _ => None,
    }
}

/// The item at a depth of at most 24 bits; the first item has depth 1.
pub open spec fn item_at_depth(items: Option<Seq<Seq<u8>>>, depth: Option<u64>) -> Option<Seq<u8>> {
    match (items, depth) {
        (Some(items), Some(depth)) => if 1 <= depth <= items.len() && depth <= U24_MAX {
            Some(items[depth - 1])
        } else {
            None
        },
        _ => None,
    }
}

/// The byte strings of structured state.
pub open spec fn structured(state: Option<StateView>) -> Option<Seq<Seq<u8>>> {
    match state {
        Some(StateView::Data(items)) => Some(items),
        _ => None,
    }
}

/// The amount at a position.
pub open spec fn amount_at(state: Option<StateView>, index: Option<u64>) -> Option<u64> {
    match (state, index) {
        (Some(StateView::Amounts(amounts)), Some(index)) => if index < amounts.len() {
            Some(amounts[index as int])
        } else {
            None
        },
        _ => None,
    }
}

/// Whether there are amounts and one of them is zero.
pub open spec fn has_zero(state: Option<StateView>) -> bool {
    state matches Some(StateView::Amounts(amounts)) && amounts.contains(0u64)
}

/// The registers and the next step when an operation succeeds.
pub open spec fn succeed(regs: RegFile) -> (RegFile, ExecStep) {
    (regs, ExecStep::Next)
}

/// The registers and the next step when an operation fails: nothing but the
/// status flag changes.
pub open spec fn fail(regs: RegFile) -> (RegFile, ExecStep) {
    (regs.failed(), ExecStep::Stop)
}

/// The outcome of an operation that checks a condition.
pub open spec fn verify(regs: RegFile, holds: bool) -> (RegFile, ExecStep) {
    if holds {
        succeed(regs)
    } else {
        fail(regs)
    }
}

/// The outcome of loading bytes, if there are any, into a register.
pub open spec fn load(regs: RegFile, dst: RegS, bytes: Option<Seq<u8>>) -> (RegFile, ExecStep) {
    match bytes {
        Some(bytes) => succeed(regs.with_str(dst.index(), bytes)),
        None => fail(regs),
    }
}

impl ContractOp {
    /// Whether the operation can run: what it counts fits the register it is
    /// counted into, and an item of a history is asked for at a depth other
    /// than zero, in a history whose size fits 24 bits.
    pub open spec fn executable(&self, regs: RegFile, context: VmContext<'_>) -> bool {
        match self {
            ContractOp::CnG(ty, _) => context.global(*ty) matches Some(items) ==> items.len()
                <= 0xFF,
            ContractOp::CnC(ty, _) => context.history(*ty) matches Some(items) ==> items.len()
                <= U24_MAX,
            ContractOp::LdC(ty, src, _) => {
                (context.history(*ty) matches Some(items) && regs.number(RegA::A32, src.index())
                    matches Some(depth) && depth <= U24_MAX) ==> regs.number(
                    RegA::A32,
                    src.index(),
                ) != Some(0u64) && context.history(*ty)->0.len() <= U24_MAX
            },
            _ => true,
        }
    }

    /// The registers after the operation, and the next step.
    pub open spec fn outcome(&self, regs: RegFile, context: VmContext<'_>) -> (RegFile, ExecStep) {
        match self {
            ContractOp::CnP(ty, dst) => succeed(
                regs.with_int(RegA::A16, dst.index(), state_count(context.prev(*ty))),
            ),
            ContractOp::CnS(ty, dst) => succeed(
                regs.with_int(RegA::A16, dst.index(), state_count(context.owned(*ty))),
            ),
            ContractOp::CnG(ty, dst) => succeed(
                regs.with_int(RegA::A8, dst.index(), item_count(context.global(*ty))),
            ),
            ContractOp::CnC(ty, dst) => succeed(
                regs.with_int(RegA::A32, dst.index(), item_count(context.history(*ty))),
            ),
            ContractOp::LdP(ty, src, dst) => load(
                regs,
                *dst,
                item_at(structured(context.prev(*ty)), regs.number(RegA::A16, src.index())),
            ),
            ContractOp::LdS(ty, src, dst) => load(
                regs,
                *dst,
                item_at(structured(context.owned(*ty)), regs.number(RegA::A16, src.index())),
            ),
            ContractOp::LdF(ty, src, dst) => match amount_at(
                context.owned(*ty),
                regs.number(RegA::A16, src.index()),
            ) {
                Some(amount) => succeed(regs.with_int(RegA::A64, dst.index(), Some(amount))),
                None => fail(regs),
            },
            ContractOp::LdG(ty, src, dst) => load(
                regs,
                *dst,
                item_at(context.global(*ty), regs.number(RegA::A8, src.index())),
            ),
            ContractOp::LdC(ty, src, dst) => load(
                regs,
                *dst,
                item_at_depth(context.history(*ty), regs.number(RegA::A32, src.index())),
            ),
            ContractOp::LdM(ty, dst) => load(regs, *dst, context.meta(*ty)),
            ContractOp::Svs(ty) => verify(
                regs,
                total(context.prev(*ty)) is Some && total(context.prev(*ty)) == total(
                    context.owned(*ty),
                ),
            ),
            ContractOp::Sas(ty) => verify(
                regs,
                regs.number(RegA::A64, 0) is Some && regs.number(RegA::A64, 0) == total(
                    context.owned(*ty),
                ) && !has_zero(context.owned(*ty)),
            ),
            ContractOp::Sps(ty) => verify(
                regs,
                regs.number(RegA::A64, 0) is Some && regs.number(RegA::A64, 0) == total(
                    context.prev(*ty),
                ),
            ),
        }
    }

    /// Runs the operation.
    pub fn exec(&self, regs: &mut CoreRegs, context: &VmContext<'_>) -> (step: ExecStep)
        requires
            self.executable(reg_file(*old(regs)), *context),
        ensures
            (reg_file(*final(regs)), step) == self.outcome(reg_file(*old(regs)), *context),
    {
        match self {
            ContractOp::CnP(ty, dst) => {
                let n: Option<u64> = match context.op_info.prev_state.get(*ty) {
                    Some(assigns) => Some(assigns.len_u16() as u64),
                    None => None,
                };
                set_n(regs, RegA::A16, dst.to_u8(), n);
                ExecStep::Next
            },
            ContractOp::CnS(ty, dst) => {
                let n: Option<u64> = match context.op_info.op.owned_len(*ty) {
                    Some(n) => Some(n as u64),
                    None => None,
                };
                set_n(regs, RegA::A16, dst.to_u8(), n);
                ExecStep::Next
            },
            ContractOp::CnG(ty, dst) => {
                let n: Option<u64> = match context.op_info.op.global(*ty) {
                    Some(items) => Some(items.len() as u64),
                    None => None,
                };
                set_n(regs, RegA::A8, dst.to_u8(), n);
                ExecStep::Next
            },
            ContractOp::CnC(ty, dst) => {
                let n: Option<u64> = match context.contract_state.global(*ty) {
                    Ok(mut history) => Some(history.size() as u64),
                    Err(_) => None,
                };
                set_n(regs, RegA::A32, dst.to_u8(), n);
                ExecStep::Next
            },
            ContractOp::LdP(ty, src, dst) => {
                let index: u16 = match get_n(regs, RegA::A16, src.to_u8()) {
                    Some(index) => index as u16,
                    None => return Self::stop(regs),
                };
                let assigns = match context.op_info.prev_state.get(*ty) {
                    Some(assigns) => assigns,
                    None => return Self::stop(regs),
                };
                match assigns.as_structured_state_at(index) {
                    Some(data) => {
                        set_s16(regs, dst.to_u8(), data.value.as_unconfined());
                        ExecStep::Next
                    },
                    None => Self::stop(regs),
                }
            },
            ContractOp::LdS(ty, src, dst) => {
                let index: u16 = match get_n(regs, RegA::A16, src.to_u8()) {
                    Some(index) => index as u16,
                    None => return Self::stop(regs),
                };
                match context.op_info.op.owned_structured_at(*ty, index) {
                    Some(data) => {
                        set_s16(regs, dst.to_u8(), data.value.as_unconfined());
                        ExecStep::Next
                    },
                    None => Self::stop(regs),
                }
            },
            ContractOp::LdF(ty, src, dst) => {
                let index: u16 = match get_n(regs, RegA::A16, src.to_u8()) {
                    Some(index) => index as u16,
                    None => return Self::stop(regs),
                };
                match context.op_info.op.owned_fungible_at(*ty, index) {
                    Some(amount) => {
                        set_n(regs, RegA::A64, dst.to_u8(), Some(amount));
                        ExecStep::Next
                    },
                    None => Self::stop(regs),
                }
            },
            ContractOp::LdG(ty, src, dst) => {
                let index: usize = match get_n(regs, RegA::A8, src.to_u8()) {
                    Some(index) => index as usize,
                    None => return Self::stop(regs),
                };
                let items = match context.op_info.op.global(*ty) {
                    Some(items) => items,
                    None => return Self::stop(regs),
                };
                if index < items.len() {
                    assert(items@[index as int]@ == crate::state::bytes_of(items@)[index as int]);
                    set_s16(regs, dst.to_u8(), items[index].value.as_unconfined());
                    ExecStep::Next
                } else {
                    Self::stop(regs)
                }
            },
            ContractOp::LdC(ty, src, dst) => {
                let mut history = match context.contract_state.global(*ty) {
                    Ok(history) => history,
                    Err(_) => return Self::stop(regs),
                };
                let depth: u32 = match get_n(regs, RegA::A32, src.to_u8()) {
                    Some(depth) => depth as u32,
                    None => return Self::stop(regs),
                };
                let depth: u32 = match try_u24(depth) {
                    Some(depth) => depth,
                    None => return Self::stop(regs),
                };
                match history.nth(depth) {
                    Some(data) => {
                        set_s16(regs, dst.to_u8(), data.value.as_unconfined());
                        ExecStep::Next
                    },
                    None => Self::stop(regs),
                }
            },
            ContractOp::LdM(ty, dst) => match context.op_info.op.meta(*ty) {
                Some(meta) => {
                    set_s16(regs, dst.to_u8(), meta.value.as_unconfined());
                    ExecStep::Next
                },
                None => Self::stop(regs),
            },
            ContractOp::Svs(ty) => {
                let spent: u64 = match context.op_info.prev_state.checked_total(*ty) {
                    Some(spent) => spent,
                    None => return Self::stop(regs),
                };
                let assigned: u64 = match context.op_info.op.owned_total(*ty) {
                    Some(assigned) => assigned,
                    None => return Self::stop(regs),
                };
                if spent == assigned {
                    ExecStep::Next
                } else {
                    Self::stop(regs)
                }
            },
            ContractOp::Sas(ty) => {
                let expected: u64 = match get_n(regs, RegA::A64, 0) {
                    Some(expected) => expected,
                    None => return Self::stop(regs),
                };
                let assigned: u64 = match context.op_info.op.owned_total(*ty) {
                    Some(assigned) => assigned,
                    None => return Self::stop(regs),
                };
                if expected == assigned && !context.op_info.op.owned_has_zero_amount(*ty) {
                    ExecStep::Next
                } else {
                    Self::stop(regs)
                }
            },
            ContractOp::Sps(ty) => {
                let expected: u64 = match get_n(regs, RegA::A64, 0) {
                    Some(expected) => expected,
                    None => return Self::stop(regs),
                };
                let spent: u64 = match context.op_info.prev_state.checked_total(*ty) {
                    Some(spent) => spent,
                    None => return Self::stop(regs),
                };
                if expected == spent {
                    ExecStep::Next
                } else {
                    Self::stop(regs)
                }
            },
        }
    }

    /// Fails an operation.
    fn stop(regs: &mut CoreRegs) -> (step: ExecStep)
        ensures
            (reg_file(*final(regs)), step) == fail(reg_file(*old(regs))),
    {
        set_failure(regs);
        ExecStep::Stop
    }
}

} // verus!
