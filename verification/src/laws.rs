//! Laws of contract operations.
//!
//! They are stated over the outcome that [`ContractOp::exec`] produces.
use crate::confinement::blob_bytes;
use crate::contract_op::{ContractOp, ExecStep, VmContext};
use crate::contract_state::U24_MAX;
use crate::operation::OrdOpRef;
use crate::registers::{Reg16, Reg32, RegA, RegFile, RegS};
use crate::state::{
    law_sum_is_fold, Assign, AssignVec, RevealedData, RevealedValue, StateView, TypedAssigns,
};
use crate::types::{AssignmentType, GlobalStateType, MetaType};
use vstd::prelude::*;

verus! {

/// The integer register that an operation writes, if it writes one.
pub open spec fn int_destination(op: ContractOp) -> Option<(RegA, u8)> {
    match op {
        ContractOp::CnP(_, dst) => Some((RegA::A16, dst.index())),
        ContractOp::CnS(_, dst) => Some((RegA::A16, dst.index())),
        ContractOp::CnG(_, dst) => Some((RegA::A8, dst.index())),
        ContractOp::CnC(_, dst) => Some((RegA::A32, dst.index())),
        ContractOp::LdF(_, _, dst) => Some((RegA::A64, dst.index())),
        _ => None,
    }
}

/// The byte-string register that an operation writes, if it writes one.
pub open spec fn str_destination(op: ContractOp) -> Option<u8> {
    match op {
        ContractOp::LdP(_, _, dst) => Some(dst.index()),
        ContractOp::LdS(_, _, dst) => Some(dst.index()),
        ContractOp::LdG(_, _, dst) => Some(dst.index()),
        ContractOp::LdC(_, _, dst) => Some(dst.index()),
        ContractOp::LdM(_, dst) => Some(dst.index()),
        _ => None,
    }
}

/// An operation that stops the script lowers the status flag and changes
/// nothing else; an operation that does not stop it leaves the flag alone.
pub proof fn law_status(op: ContractOp, regs: RegFile, context: VmContext<'_>)
    ensures
        op.outcome(regs, context).1 == ExecStep::Stop ==> op.outcome(regs, context).0
            == regs.failed(),
        op.outcome(regs, context).1 == ExecStep::Next ==> op.outcome(regs, context).0.st0
            == regs.st0,
{
}

/// No operation changes a register other than its destination and the status
/// flag: neither one of the same banks nor anything else that the machine holds.
pub proof fn law_frame(op: ContractOp, regs: RegFile, context: VmContext<'_>)
    ensures
        forall|bank: RegA, index: u8|
            int_destination(op) != Some((bank, index)) ==> #[trigger] op.outcome(
                regs,
                context,
            ).0.number(bank, index) == regs.number(bank, index),
        forall|index: u8|
            str_destination(op) != Some(index) ==> #[trigger] op.outcome(
                regs,
                context,
            ).0.strs.get(index) == regs.strs.get(index),
        op.outcome(regs, context).0.rest == regs.rest,
{
}

/// Counting operations never fail.
pub proof fn law_counts_succeed(op: ContractOp, regs: RegFile, context: VmContext<'_>)
    requires
        op is CnP || op is CnS || op is CnG || op is CnC,
    ensures
        op.outcome(regs, context).1 == ExecStep::Next,
{
}

/// An operation that was repeated on the same state has the same outcome.
pub proof fn law_repeatable(op: ContractOp, regs: RegFile, context: VmContext<'_>)
    ensures
        op.outcome(op.outcome(regs, context).0, context) == op.outcome(regs, context),
{
    let once = op.outcome(regs, context).0;
    let twice = op.outcome(once, context).0;
    assert(twice =~= once);
}

/// A position loads spent structured state exactly if it is below the number
/// that counting the spent state gives.
pub proof fn law_load_spent(
    ty: AssignmentType,
    src: Reg16,
    dst: RegS,
    count: Reg32,
    regs: RegFile,
    context: VmContext<'_>,
    index: u64,
)
    requires
        context.prev(ty) matches Some(state) && state is Data && state.count() <= u16::MAX,
        regs.number(RegA::A16, src.index()) == Some(index),
    ensures
        ({
            let (loaded, step) = ContractOp::LdP(ty, src, dst).outcome(regs, context);
            let counted = ContractOp::CnP(ty, count).outcome(regs, context).0;
            let n = counted.number(RegA::A16, count.index());
            &&& n is Some
            &&& (step == ExecStep::Next) == (index < n->0)
            &&& step == ExecStep::Next ==> loaded.strs.get(dst.index()) == Some(
                context.prev(ty)->0->Data_0[index as int],
            )
        }),
{
}

/// A position loads owned structured state exactly if it is below the number
/// that counting the owned state gives.
pub proof fn law_load_owned(
    ty: AssignmentType,
    src: Reg16,
    dst: RegS,
    count: Reg32,
    regs: RegFile,
    context: VmContext<'_>,
    index: u64,
)
    requires
        context.owned(ty) matches Some(state) && state is Data && state.count() <= u16::MAX,
        regs.number(RegA::A16, src.index()) == Some(index),
    ensures
        ({
            let (loaded, step) = ContractOp::LdS(ty, src, dst).outcome(regs, context);
            let counted = ContractOp::CnS(ty, count).outcome(regs, context).0;
            let n = counted.number(RegA::A16, count.index());
            &&& n is Some
            &&& (step == ExecStep::Next) == (index < n->0)
            &&& step == ExecStep::Next ==> loaded.strs.get(dst.index()) == Some(
                context.owned(ty)->0->Data_0[index as int],
            )
        }),
{
}

/// A position loads an owned amount exactly if it is below the number that
/// counting the owned state gives.
pub proof fn law_load_amount(
    ty: AssignmentType,
    src: Reg16,
    dst: Reg16,
    count: Reg32,
    regs: RegFile,
    context: VmContext<'_>,
    index: u64,
)
    requires
        context.owned(ty) matches Some(state) && state is Amounts && state.count() <= u16::MAX,
        regs.number(RegA::A16, src.index()) == Some(index),
    ensures
        ({
            let (loaded, step) = ContractOp::LdF(ty, src, dst).outcome(regs, context);
            let counted = ContractOp::CnS(ty, count).outcome(regs, context).0;
            let n = counted.number(RegA::A16, count.index());
            &&& n is Some
            &&& (step == ExecStep::Next) == (index < n->0)
            &&& step == ExecStep::Next ==> loaded.number(RegA::A64, dst.index()) == Some(
                context.owned(ty)->0->Amounts_0[index as int],
            )
        }),
{
}

/// A position loads global state of the operation exactly if it is below the
/// number that counting that state gives.
pub proof fn law_load_global(
    ty: GlobalStateType,
    src: Reg16,
    dst: RegS,
    count: Reg32,
    regs: RegFile,
    context: VmContext<'_>,
    index: u64,
)
    requires
        context.global(ty) matches Some(items) && items.len() <= u8::MAX,
        regs.number(RegA::A8, src.index()) == Some(index),
    ensures
        ({
            let (loaded, step) = ContractOp::LdG(ty, src, dst).outcome(regs, context);
            let counted = ContractOp::CnG(ty, count).outcome(regs, context).0;
            let n = counted.number(RegA::A8, count.index());
            &&& n is Some
            &&& (step == ExecStep::Next) == (index < n->0)
            &&& step == ExecStep::Next ==> loaded.strs.get(dst.index()) == Some(
                context.global(ty)->0[index as int],
            )
        }),
{
}

/// A depth loads global state of the contract exactly if it lies between one
/// and the number that counting that state gives. Depth one is the first item
/// of the history.
pub proof fn law_load_history(
    ty: GlobalStateType,
    src: Reg16,
    dst: RegS,
    count: Reg32,
    regs: RegFile,
    context: VmContext<'_>,
    depth: u64,
)
    requires
        context.history(ty) matches Some(items) && items.len() <= U24_MAX,
        regs.number(RegA::A32, src.index()) == Some(depth),
    ensures
        ({
            let (loaded, step) = ContractOp::LdC(ty, src, dst).outcome(regs, context);
            let counted = ContractOp::CnC(ty, count).outcome(regs, context).0;
            let n = counted.number(RegA::A32, count.index());
            &&& n is Some
            &&& (step == ExecStep::Next) == (1 <= depth <= n->0)
            &&& step == ExecStep::Next ==> loaded.strs.get(dst.index()) == Some(
                context.history(ty)->0[depth - 1],
            )
        }),
{
}

/// Loads fail if the register that holds the position is not set, or if there
/// is no state of the type, or none of the kind that they load.
pub proof fn law_loads_fail(op: ContractOp, regs: RegFile, context: VmContext<'_>)
    ensures
        op matches ContractOp::LdP(ty, src, _) && (regs.number(RegA::A16, src.index()) is None
            || !(context.prev(ty) matches Some(state) && state is Data)) ==> op.outcome(
            regs,
            context,
        ).1 == ExecStep::Stop,
        op matches ContractOp::LdS(ty, src, _) && (regs.number(RegA::A16, src.index()) is None
            || !(context.owned(ty) matches Some(state) && state is Data)) ==> op.outcome(
            regs,
            context,
        ).1 == ExecStep::Stop,
        op matches ContractOp::LdF(ty, src, _) && (regs.number(RegA::A16, src.index()) is None
            || !(context.owned(ty) matches Some(state) && state is Amounts)) ==> op.outcome(
            regs,
            context,
        ).1 == ExecStep::Stop,
        op matches ContractOp::LdG(ty, src, _) && (regs.number(RegA::A8, src.index()) is None
            || context.global(ty) is None) ==> op.outcome(regs, context).1 == ExecStep::Stop,
        op matches ContractOp::LdC(ty, src, _) && (regs.number(RegA::A32, src.index()) is None
            || context.history(ty) is None) ==> op.outcome(regs, context).1 == ExecStep::Stop,
        op matches ContractOp::LdM(ty, _) && context.meta(ty) is None ==> op.outcome(
            regs,
            context,
        ).1 == ExecStep::Stop,
{
}

/// If the spent and the owned amounts both have the total in `a64[0]`, they
/// have the same total.
pub proof fn law_sums_agree(ty: AssignmentType, regs: RegFile, context: VmContext<'_>)
    requires
        ContractOp::Sps(ty).outcome(regs, context).1 == ExecStep::Next,
        ContractOp::Sas(ty).outcome(regs, context).1 == ExecStep::Next,
    ensures
        ContractOp::Svs(ty).outcome(regs, context).1 == ExecStep::Next,
{
}

/// If the spent and the owned amounts have the same total and the owned ones
/// have the total in `a64[0]`, so have the spent ones.
pub proof fn law_sums_carry_over(ty: AssignmentType, regs: RegFile, context: VmContext<'_>)
    requires
        ContractOp::Svs(ty).outcome(regs, context).1 == ExecStep::Next,
        ContractOp::Sas(ty).outcome(regs, context).1 == ExecStep::Next,
    ensures
        ContractOp::Sps(ty).outcome(regs, context).1 == ExecStep::Next,
{
}

/// A type without state has the total zero on either side.
pub proof fn law_absent_state_sums_to_zero(
    ty: AssignmentType,
    regs: RegFile,
    context: VmContext<'_>,
)
    ensures
        context.prev(ty) is None && context.owned(ty) is None ==> ContractOp::Svs(ty).outcome(
            regs,
            context,
        ).1 == ExecStep::Next,
        context.prev(ty) is None ==> (ContractOp::Sps(ty).outcome(regs, context).1
            == ExecStep::Next) == (regs.number(RegA::A64, 0) == Some(0u64)),
        context.owned(ty) is None ==> (ContractOp::Sas(ty).outcome(regs, context).1
            == ExecStep::Next) == (regs.number(RegA::A64, 0) == Some(0u64)),
{
}

/// Sums fail on state that is not fungible.
pub proof fn law_sums_need_amounts(ty: AssignmentType, regs: RegFile, context: VmContext<'_>)
    ensures
        context.prev(ty) matches Some(state) && !(state is Amounts) ==> {
            &&& ContractOp::Svs(ty).outcome(regs, context).1 == ExecStep::Stop
            &&& ContractOp::Sps(ty).outcome(regs, context).1 == ExecStep::Stop
        },
        context.owned(ty) matches Some(state) && !(state is Amounts) ==> {
            &&& ContractOp::Svs(ty).outcome(regs, context).1 == ExecStep::Stop
            &&& ContractOp::Sas(ty).outcome(regs, context).1 == ExecStep::Stop
        },
{
}

/// Structured state counts the same whether or not the seals of its
/// assignments are known.
pub proof fn law_seals_do_not_matter<S, T>(
    a: AssignVec<Assign<RevealedData, S>>,
    b: AssignVec<Assign<RevealedData, T>>,
)
    requires
        a@.len() == b@.len(),
        forall|i: int| 0 <= i < a@.len() ==> (#[trigger] a@[i]).state()@ == b@[i].state()@,
    ensures
        TypedAssigns::Structured(a)@ == TypedAssigns::Structured(b)@,
{
    assert(TypedAssigns::Structured(a)@->Data_0 =~= TypedAssigns::Structured(b)@->Data_0);
}

/// Amounts count the same whether or not the seals of their assignments are
/// known.
pub proof fn law_seals_do_not_matter_to_amounts<S, T>(
    a: AssignVec<Assign<RevealedValue, S>>,
    b: AssignVec<Assign<RevealedValue, T>>,
)
    requires
        a@.len() == b@.len(),
        forall|i: int| 0 <= i < a@.len() ==> (#[trigger] a@[i]).state() == b@[i].state(),
    ensures
        TypedAssigns::Fungible(a)@ == TypedAssigns::Fungible(b)@,
{
    assert(TypedAssigns::Fungible(a)@->Amounts_0 =~= TypedAssigns::Fungible(b)@->Amounts_0);
}

/// Counting spent state puts the number of its assignments into the
/// destination, whatever their kind, and clears the destination if there are
/// none. Nothing else changes.
pub proof fn law_count_spent(
    ty: AssignmentType,
    dst: Reg32,
    regs: RegFile,
    context: VmContext<'_>,
)
    ensures
        ({
            let (after, step) = ContractOp::CnP(ty, dst).outcome(regs, context);
            let key = (RegA::A16, dst.index());
            &&& step == ExecStep::Next
            &&& (context.prev(ty) matches Some(StateView::Rights(n)) ==> n <= u16::MAX
                ==> after.ints.contains_key(key) && after.ints[key] == n)
            &&& (context.prev(ty) matches Some(StateView::Amounts(amounts)) ==> amounts.len() <= u16::MAX
                ==> after.ints.contains_key(key) && after.ints[key] == amounts.len())
            &&& (context.prev(ty) matches Some(StateView::Data(items)) ==> items.len() <= u16::MAX
                ==> after.ints.contains_key(key) && after.ints[key] == items.len())
            &&& context.prev(ty) is None ==> !after.ints.contains_key(key)
            &&& after.ints.remove(key) == regs.ints.remove(key)
            &&& after.strs == regs.strs
            &&& after.st0 == regs.st0
            &&& after.rest == regs.rest
        }),
{
}

/// Counting owned state puts the number of its assignments into the
/// destination, whatever their kind, and clears the destination if there are
/// none. Nothing else changes.
pub proof fn law_count_owned(
    ty: AssignmentType,
    dst: Reg32,
    regs: RegFile,
    context: VmContext<'_>,
)
    ensures
        ({
            let (after, step) = ContractOp::CnS(ty, dst).outcome(regs, context);
            let key = (RegA::A16, dst.index());
            &&& step == ExecStep::Next
            &&& (context.owned(ty) matches Some(StateView::Rights(n)) ==> n <= u16::MAX
                ==> after.ints.contains_key(key) && after.ints[key] == n)
            &&& (context.owned(ty) matches Some(StateView::Amounts(amounts)) ==> amounts.len() <= u16::MAX
                ==> after.ints.contains_key(key) && after.ints[key] == amounts.len())
            &&& (context.owned(ty) matches Some(StateView::Data(items)) ==> items.len() <= u16::MAX
                ==> after.ints.contains_key(key) && after.ints[key] == items.len())
            &&& context.owned(ty) is None ==> !after.ints.contains_key(key)
            &&& after.ints.remove(key) == regs.ints.remove(key)
            &&& after.strs == regs.strs
            &&& after.st0 == regs.st0
            &&& after.rest == regs.rest
        }),
{
}

/// Counting global state of the operation puts the number of its values into
/// the destination, and clears the destination if there are none. Nothing else
/// changes.
pub proof fn law_count_global(
    ty: GlobalStateType,
    dst: Reg32,
    regs: RegFile,
    context: VmContext<'_>,
)
    ensures
        ({
            let (after, step) = ContractOp::CnG(ty, dst).outcome(regs, context);
            let key = (RegA::A8, dst.index());
            &&& step == ExecStep::Next
            &&& (context.global(ty) matches Some(items) ==> items.len() <= u8::MAX
                ==> after.ints.contains_key(key) && after.ints[key] == items.len())
            &&& context.global(ty) is None ==> !after.ints.contains_key(key)
            &&& after.ints.remove(key) == regs.ints.remove(key)
            &&& after.strs == regs.strs
            &&& after.st0 == regs.st0
            &&& after.rest == regs.rest
        }),
{
}

/// Counting global state of the contract puts the number of its items, zero
/// included, into the destination, and clears the destination if they are
/// inaccessible. Nothing else changes.
pub proof fn law_count_history(
    ty: GlobalStateType,
    dst: Reg32,
    regs: RegFile,
    context: VmContext<'_>,
)
    ensures
        ({
            let (after, step) = ContractOp::CnC(ty, dst).outcome(regs, context);
            let key = (RegA::A32, dst.index());
            &&& step == ExecStep::Next
            &&& (context.history(ty) matches Some(items) ==> items.len() <= u32::MAX
                ==> after.ints.contains_key(key) && after.ints[key] == items.len())
            &&& context.history(ty) is None ==> !after.ints.contains_key(key)
            &&& after.ints.remove(key) == regs.ints.remove(key)
            &&& after.strs == regs.strs
            &&& after.st0 == regs.st0
            &&& after.rest == regs.rest
        }),
{
}

/// Loading spent structured state succeeds exactly if the source register
/// holds a position below the number of items, and then the destination holds
/// the whole item at that position. Nothing else changes but the status flag,
/// which a failure lowers.
pub proof fn law_load_spent_exactly(
    ty: AssignmentType,
    src: Reg16,
    dst: RegS,
    regs: RegFile,
    context: VmContext<'_>,
    items: Seq<Seq<u8>>,
    index: u64,
)
    requires
        context.prev(ty) == Some(StateView::Data(items)),
    ensures
        ({
            let (after, step) = ContractOp::LdP(ty, src, dst).outcome(regs, context);
            let key = (RegA::A16, src.index());
            &&& !regs.ints.contains_key(key) ==> step == ExecStep::Stop
            &&& regs.ints.contains_key(key) && regs.ints[key] == index ==> (step
                == ExecStep::Next) == (index < items.len())
            &&& regs.ints.contains_key(key) && regs.ints[key] == index && step == ExecStep::Next
                ==> after.strs.contains_key(dst.index()) && after.strs[dst.index()] == items[index as int]
            &&& step == ExecStep::Next ==> after.st0 == regs.st0
            &&& step == ExecStep::Next ==> after.strs.remove(dst.index()) == regs.strs.remove(
                dst.index(),
            )
            &&& step == ExecStep::Stop ==> !after.st0 && after.strs == regs.strs
            &&& after.ints == regs.ints
            &&& after.rest == regs.rest
        }),
{
}

/// Loading owned structured state succeeds exactly if the source register
/// holds a position below the number of items, and then the destination holds
/// the whole item at that position. Nothing else changes but the status flag,
/// which a failure lowers.
pub proof fn law_load_owned_exactly(
    ty: AssignmentType,
    src: Reg16,
    dst: RegS,
    regs: RegFile,
    context: VmContext<'_>,
    items: Seq<Seq<u8>>,
    index: u64,
)
    requires
        context.owned(ty) == Some(StateView::Data(items)),
    ensures
        ({
            let (after, step) = ContractOp::LdS(ty, src, dst).outcome(regs, context);
            let key = (RegA::A16, src.index());
            &&& !regs.ints.contains_key(key) ==> step == ExecStep::Stop
            &&& regs.ints.contains_key(key) && regs.ints[key] == index ==> (step
                == ExecStep::Next) == (index < items.len())
            &&& regs.ints.contains_key(key) && regs.ints[key] == index && step == ExecStep::Next
                ==> after.strs.contains_key(dst.index()) && after.strs[dst.index()] == items[index as int]
            &&& step == ExecStep::Next ==> after.st0 == regs.st0
            &&& step == ExecStep::Next ==> after.strs.remove(dst.index()) == regs.strs.remove(
                dst.index(),
            )
            &&& step == ExecStep::Stop ==> !after.st0 && after.strs == regs.strs
            &&& after.ints == regs.ints
            &&& after.rest == regs.rest
        }),
{
}

/// Loading global state of the operation succeeds exactly if the source
/// register holds a position below the number of values, and then the
/// destination holds the whole value at that position. Nothing else changes but
/// the status flag, which a failure lowers.
pub proof fn law_load_global_exactly(
    ty: GlobalStateType,
    src: Reg16,
    dst: RegS,
    regs: RegFile,
    context: VmContext<'_>,
    items: Seq<Seq<u8>>,
    index: u64,
)
    requires
        context.global(ty) == Some(items),
    ensures
        ({
            let (after, step) = ContractOp::LdG(ty, src, dst).outcome(regs, context);
            let key = (RegA::A8, src.index());
            &&& !regs.ints.contains_key(key) ==> step == ExecStep::Stop
            &&& regs.ints.contains_key(key) && regs.ints[key] == index ==> (step
                == ExecStep::Next) == (index < items.len())
            &&& regs.ints.contains_key(key) && regs.ints[key] == index && step == ExecStep::Next
                ==> after.strs.contains_key(dst.index()) && after.strs[dst.index()] == items[index as int]
            &&& step == ExecStep::Next ==> after.st0 == regs.st0
            &&& step == ExecStep::Next ==> after.strs.remove(dst.index()) == regs.strs.remove(
                dst.index(),
            )
            &&& step == ExecStep::Stop ==> !after.st0 && after.strs == regs.strs
            &&& after.ints == regs.ints
            &&& after.rest == regs.rest
        }),
{
}

/// Loading global state of the contract succeeds exactly if the source
/// register holds a depth of at most 24 bits that lies between one and the
/// number of items, and then the destination holds the whole item that stands
/// one place before the depth. Nothing else changes but the status flag, which a
/// failure lowers.
pub proof fn law_load_history_exactly(
    ty: GlobalStateType,
    src: Reg16,
    dst: RegS,
    regs: RegFile,
    context: VmContext<'_>,
    items: Seq<Seq<u8>>,
    depth: u64,
)
    requires
        context.history(ty) == Some(items),
    ensures
        ({
            let (after, step) = ContractOp::LdC(ty, src, dst).outcome(regs, context);
            let key = (RegA::A32, src.index());
            &&& !regs.ints.contains_key(key) ==> step == ExecStep::Stop
            &&& regs.ints.contains_key(key) && regs.ints[key] == depth ==> (step
                == ExecStep::Next) == (1 <= depth && depth <= items.len() && depth < 0x100_0000)
            &&& regs.ints.contains_key(key) && regs.ints[key] == depth && step == ExecStep::Next
                ==> after.strs.contains_key(dst.index()) && after.strs[dst.index()] == items[depth - 1]
            &&& step == ExecStep::Next ==> after.st0 == regs.st0
            &&& step == ExecStep::Next ==> after.strs.remove(dst.index()) == regs.strs.remove(
                dst.index(),
            )
            &&& step == ExecStep::Stop ==> !after.st0 && after.strs == regs.strs
            &&& after.ints == regs.ints
            &&& after.rest == regs.rest
        }),
{
}

/// Loading an owned amount succeeds exactly if the source register holds a
/// position below the number of amounts, and then the destination holds the
/// amount at that position. Nothing else changes but the status flag, which a
/// failure lowers.
pub proof fn law_load_amount_exactly(
    ty: AssignmentType,
    src: Reg16,
    dst: Reg16,
    regs: RegFile,
    context: VmContext<'_>,
    amounts: Seq<u64>,
    index: u64,
)
    requires
        context.owned(ty) == Some(StateView::Amounts(amounts)),
    ensures
        ({
            let (after, step) = ContractOp::LdF(ty, src, dst).outcome(regs, context);
            let key = (RegA::A16, src.index());
            let target = (RegA::A64, dst.index());
            &&& !regs.ints.contains_key(key) ==> step == ExecStep::Stop
            &&& regs.ints.contains_key(key) && regs.ints[key] == index ==> (step
                == ExecStep::Next) == (index < amounts.len())
            &&& regs.ints.contains_key(key) && regs.ints[key] == index && step == ExecStep::Next
                ==> after.ints.contains_key(target) && after.ints[target] == amounts[index as int]
            &&& step == ExecStep::Next ==> after.st0 == regs.st0
            &&& step == ExecStep::Next ==> after.ints.remove(target) == regs.ints.remove(target)
            &&& step == ExecStep::Stop ==> !after.st0 && after.ints == regs.ints
            &&& after.strs == regs.strs
            &&& after.rest == regs.rest
        }),
{
}

/// Loading metadata succeeds exactly if the operation has metadata of the type,
/// and then the destination holds all of its bytes. Nothing else changes but
/// the status flag, which a failure lowers.
pub proof fn law_load_metadata(
    ty: MetaType,
    dst: RegS,
    regs: RegFile,
    context: VmContext<'_>,
    bytes: Seq<u8>,
)
    ensures
        ({
            let (after, step) = ContractOp::LdM(ty, dst).outcome(regs, context);
            &&& context.meta(ty) == Some(bytes) ==> step == ExecStep::Next
            &&& context.meta(ty) == Some(bytes) ==> after.strs == regs.strs.insert(
                dst.index(),
                bytes,
            )
            &&& context.meta(ty) == Some(bytes) ==> after.st0 == regs.st0
            &&& context.meta(ty) is None ==> step == ExecStep::Stop && !after.st0 && after.strs
                == regs.strs
            &&& after.ints == regs.ints
            &&& after.rest == regs.rest
        }),
{
}

/// The spent and the owned amounts of a type conserve value exactly if their
/// sums are the same number and that number fits 64 bits, whatever the registers
/// hold. A side without state has no amounts. Nothing changes but the status
/// flag, which a failure lowers.
pub proof fn law_conservation(
    ty: AssignmentType,
    regs: RegFile,
    context: VmContext<'_>,
    spent: Seq<u64>,
    owned: Seq<u64>,
)
    requires
        context.prev(ty) == Some(StateView::Amounts(spent)) || (context.prev(ty) is None
            && spent.len() == 0),
        context.owned(ty) == Some(StateView::Amounts(owned)) || (context.owned(ty) is None
            && owned.len() == 0),
    ensures
        ({
            let (after, step) = ContractOp::Svs(ty).outcome(regs, context);
            let spent_sum = spent.fold_left(0int, |acc: int, amount: u64| acc + amount);
            let owned_sum = owned.fold_left(0int, |acc: int, amount: u64| acc + amount);
            &&& (step == ExecStep::Next) == (spent_sum == owned_sum && spent_sum <= u64::MAX)
            &&& step == ExecStep::Next ==> after.st0 == regs.st0
            &&& step == ExecStep::Stop ==> !after.st0
            &&& after.ints == regs.ints
            &&& after.strs == regs.strs
            &&& after.rest == regs.rest
        }),
{
    law_sum_is_fold(spent, |acc: int, amount: u64| acc + amount);
    law_sum_is_fold(owned, |acc: int, amount: u64| acc + amount);
}

/// Owned amounts are verified exactly if `a64[0]` holds their sum and none of
/// them, the first and the last included, is zero. Nothing changes but the
/// status flag, which a failure lowers.
pub proof fn law_owned_sum(
    ty: AssignmentType,
    regs: RegFile,
    context: VmContext<'_>,
    owned: Seq<u64>,
)
    requires
        context.owned(ty) == Some(StateView::Amounts(owned)) || (context.owned(ty) is None
            && owned.len() == 0),
    ensures
        ({
            let (after, step) = ContractOp::Sas(ty).outcome(regs, context);
            let owned_sum = owned.fold_left(0int, |acc: int, amount: u64| acc + amount);
            let key = (RegA::A64, 0u8);
            &&& (step == ExecStep::Next) == (regs.ints.contains_key(key) && regs.ints[key]
                == owned_sum && forall|i: int| 0 <= i < owned.len() ==> owned[i] != 0)
            &&& forall|i: int|
                0 <= i < owned.len() && #[trigger] owned[i] == 0 ==> step == ExecStep::Stop
            &&& step == ExecStep::Next ==> after.st0 == regs.st0
            &&& step == ExecStep::Stop ==> !after.st0
            &&& after.ints == regs.ints
            &&& after.strs == regs.strs
            &&& after.rest == regs.rest
        }),
{
    law_sum_is_fold(owned, |acc: int, amount: u64| acc + amount);
}

/// Spent amounts are verified exactly if `a64[0]` holds their sum. Nothing
/// changes but the status flag, which a failure lowers.
pub proof fn law_spent_sum(
    ty: AssignmentType,
    regs: RegFile,
    context: VmContext<'_>,
    spent: Seq<u64>,
)
    requires
        context.prev(ty) == Some(StateView::Amounts(spent)) || (context.prev(ty) is None
            && spent.len() == 0),
    ensures
        ({
            let (after, step) = ContractOp::Sps(ty).outcome(regs, context);
            let spent_sum = spent.fold_left(0int, |acc: int, amount: u64| acc + amount);
            let key = (RegA::A64, 0u8);
            &&& (step == ExecStep::Next) == (regs.ints.contains_key(key) && regs.ints[key]
                == spent_sum)
            &&& step == ExecStep::Next ==> after.st0 == regs.st0
            &&& step == ExecStep::Stop ==> !after.st0
            &&& after.ints == regs.ints
            &&& after.strs == regs.strs
            &&& after.rest == regs.rest
        }),
{
    law_sum_is_fold(spent, |acc: int, amount: u64| acc + amount);
}

/// Whether two sides conserve value does not depend on the registers.
pub proof fn law_conservation_reads_no_register(
    ty: AssignmentType,
    a: RegFile,
    b: RegFile,
    context: VmContext<'_>,
)
    ensures
        ContractOp::Svs(ty).outcome(a, context).1 == ContractOp::Svs(ty).outcome(b, context).1,
{
}

/// Operations run on every register file and context, with two exceptions. A
/// number of values that the register cannot hold is not counted. A history of
/// more items than 24 bits can number is neither counted nor looked into, and
/// no history is looked into at depth zero.
pub proof fn law_executable(op: ContractOp, regs: RegFile, context: VmContext<'_>)
    ensures
        !(op is CnG || op is CnC || op is LdC) ==> op.executable(regs, context),
        op matches ContractOp::CnG(ty, _) ==> op.executable(regs, context) == (context.global(ty)
            matches Some(items) ==> items.len() < 0x100),
        op matches ContractOp::CnC(ty, _) ==> op.executable(regs, context) == (context.history(ty)
            matches Some(items) ==> items.len() < 0x100_0000),
        op matches ContractOp::LdC(ty, src, _) ==> op.executable(regs, context) == ({
            let key = (RegA::A32, src.index());
            ||| context.history(ty) is None
            ||| !regs.ints.contains_key(key)
            ||| regs.ints[key] >= 0x100_0000
            ||| regs.ints[key] > 0 && context.history(ty)->0.len() < 0x100_0000
        }),
{
}

/// What an operation sees is what it and its contract hold: spent state, owned
/// state, global state, metadata, and the history of the contract.
pub proof fn law_context_shows_operation(context: VmContext<'_>)
    ensures
        forall|ty: AssignmentType| #[trigger]
            context.prev(ty) == context.op_info.prev_state.states(ty),
        *context.op_info.op matches OrdOpRef::Genesis(genesis) ==> {
            &&& forall|ty: AssignmentType| #[trigger]
                context.owned(ty) == genesis.assignments.states(ty)
            &&& forall|ty: GlobalStateType| #[trigger]
                context.global(ty) == genesis.globals@.get(ty.0)
            &&& forall|ty: MetaType| #[trigger] context.meta(ty) == genesis.metadata@.get(ty.0)
        },
        *context.op_info.op matches OrdOpRef::Transition(transition, _, _, _) ==> {
            &&& forall|ty: AssignmentType| #[trigger]
                context.owned(ty) == transition.assignments.states(ty)
            &&& forall|ty: GlobalStateType| #[trigger]
                context.global(ty) == transition.globals@.get(ty.0)
            &&& forall|ty: MetaType| #[trigger] context.meta(ty) == transition.metadata@.get(ty.0)
        },
        forall|ty: GlobalStateType|
            context.contract_state.fail_global_access ==> #[trigger] context.history(ty) is None,
        forall|ty: GlobalStateType|
            !context.contract_state.fail_global_access
                && !context.contract_state.global_data@.contains_key(ty.0)
                ==> #[trigger] context.history(ty) == Some(Seq::<Seq<u8>>::empty()),
{
    assert forall|ty: GlobalStateType|
        !context.contract_state.fail_global_access
            && !context.contract_state.global_data@.contains_key(
            ty.0,
        ) implies #[trigger] context.history(ty) == Some(Seq::<Seq<u8>>::empty()) by {
        assert(context.history(ty)->0 =~= Seq::<Seq<u8>>::empty());
    }
}

/// The history that an operation sees has the bytes of every item of the
/// contract, in the same order.
pub proof fn law_context_shows_history(context: VmContext<'_>, ty: GlobalStateType)
    requires
        !context.contract_state.fail_global_access,
        context.contract_state.global_data@.contains_key(ty.0),
    ensures
        ({
            let held = context.contract_state.global_data@[ty.0]@;
            &&& context.history(ty) matches Some(items)
            &&& items.len() == held.len()
            &&& forall|i: int|
                0 <= i < held.len() ==> #[trigger] items[i] == blob_bytes(held[i].1.value)
        }),
{
}

} // verus!
