//! An environment that runs contract operations one at a time.
//!
//! It holds an operation under validation, the state that the operation
//! spends, the state of the contract and the registers of the machine.
use crate::bundle::BundleId;
use crate::confinement::{NonEmptyVec, SmallBlob, SmallOrdMap, U16};
use crate::contract_op::{create_vm_context, ContractOp, ExecStep, OpInfo, VmContext};
use crate::contract_state::{GlobalItem, MockContractState, WitnessOrd, WitnessPos};
use crate::operation::{
    dummy_genesis, dummy_transition, dummy_witness_ord_mined, Genesis, OrdOpRef, Transition,
};
use crate::registers::{default_regs, reg_file, status, RegA, RegFile};
use crate::state::{
    Assign, AssignVec, Assignments, GlobalState, MetaValue, Metadata, RevealedData, RevealedValue,
    StateView, TypedAssigns,
};
use crate::types::{
    zero_array, zero_id, AssignmentType, ContractId, GlobalStateType, GraphSeal, MetaType, OpId,
    Txid,
};
use aluvm::reg::CoreRegs;
use std::collections::BTreeMap;
use vstd::prelude::*;

verus! {

/// Whether an outcome is the expected one: the status flag has the expected
/// value, and the script goes on exactly if the flag is raised.
pub open spec fn as_expected(outcome: (RegFile, ExecStep), expected_st0_ok: bool) -> bool {
    &&& outcome.0.st0 == expected_st0_ok
    &&& outcome.1 == (if expected_st0_ok {
        ExecStep::Next
    } else {
        ExecStep::Stop
    })
}

/// Runs an operation and tells whether it succeeded or failed as expected.
#[must_use]
pub fn exec_op_and_assert_st0(
    op: ContractOp,
    regs: &mut CoreRegs,
    context: &VmContext<'_>,
    expected_st0_ok: bool,
) -> (met: bool)
    requires
        op.executable(reg_file(*old(regs)), *context),
    ensures
        reg_file(*final(regs)) == op.outcome(reg_file(*old(regs)), *context).0,
        met == as_expected(op.outcome(reg_file(*old(regs)), *context), expected_st0_ok),
{
    let step = op.exec(regs, context);
    let st0 = status(regs);
    if expected_st0_ok {
        st0 && step == ExecStep::Next
    } else {
        !st0 && step == ExecStep::Stop
    }
}

/// The keys of a map, each of them once.
fn keys_of<V>(map: &BTreeMap<u16, V>) -> (keys: Vec<u16>)
    ensures
        keys@.to_set() == map@.dom(),
        keys@.no_duplicates(),
        keys@.len() == map@.len(),
{
    let mut keys: Vec<u16> = Vec::new();
    for key in it: map.keys()
        invariant
            keys@ == it.seq().unref().take(it.index() as int),
            it.index() == it.seq().len() ==> keys@ == it.seq().unref(),
            it.seq().unref().to_set() == map@.dom(),
            it.seq().no_duplicates(),
            it.seq().len() == map@.len(),
    {
        keys.push(*key);
    }
    keys
}

/// Owned state with the entries of a map.
pub fn assignments_from_typed<Seal>(map: BTreeMap<u16, TypedAssigns<Seal>>) -> (assignments:
    Assignments<Seal>)
    requires
        map@.len() <= U16,
    ensures
        assignments@ == map@,
{
    let keys = keys_of(&map);
    let mut rest = map;
    let mut confined: SmallOrdMap<TypedAssigns<Seal>> = SmallOrdMap::new();
    let mut i: usize = 0;
    while i < keys.len()
        invariant
            i <= keys@.len(),
            keys@.to_set() == map@.dom(),
            keys@.no_duplicates(),
            keys@.len() <= U16,
            confined@.dom().finite(),
            confined@.len() == i,
            forall|k: u16|
                #![trigger confined@.contains_key(k)]
                #![trigger keys@.take(i as int).contains(k)]
                confined@.contains_key(k) == keys@.take(i as int).contains(k),
            forall|k: u16| #[trigger] confined@.contains_key(k) ==> confined@[k] == map@[k],
            forall|j: int|
                i <= j < keys@.len() ==> rest@.contains_key(#[trigger] keys@[j]) && rest@[keys@[j]]
                    == map@[keys@[j]],
        decreases keys@.len() - i,
    {
        let key: u16 = keys[i];
        proof {
            assert(keys@.take(i + 1) =~= keys@.take(i as int).push(key));
            assert(!keys@.take(i as int).contains(key));
            assert(!confined@.contains_key(key));
            assert(rest@.contains_key(keys@[i as int]));
            assert forall|k: u16|
                keys@.take(i + 1).contains(k) == (keys@.take(i as int).contains(k) || k == key) by {
                vstd::seq_lib::lemma_seq_contains_after_push(keys@.take(i as int), key, k);
            }
        }
        if let Some(assigns) = rest.remove(&key) {
            confined.insert(key, assigns).unwrap();
        }
        i = i + 1;
    }
    proof {
        assert(keys@.take(i as int) =~= keys@);
        assert forall|k: u16| confined@.contains_key(k) == map@.contains_key(k) by {
            assert(keys@.to_set().contains(k) == keys@.contains(k));
        }
        assert(confined@ =~= map@);
    }
    Assignments::from_inner(confined)
}

/// Known seals with given amounts.
pub open spec fn fungible_assigns(seal: GraphSeal, values: Seq<u64>) -> Seq<
    Assign<RevealedValue, GraphSeal>,
> {
    values.map_values(|value: u64| Assign::Revealed { seal, state: RevealedValue(value) })
}

/// Assigns amounts, at least one, to a seal.
pub fn create_fungible_assign_vec(seal: GraphSeal, values: Vec<u64>) -> (assigns: AssignVec<
    Assign<RevealedValue, GraphSeal>,
>)
    requires
        1 <= values@.len() <= U16,
    ensures
        assigns@ == fungible_assigns(seal, values@),
{
    let mut assigns: Vec<Assign<RevealedValue, GraphSeal>> = Vec::new();
    let mut i: usize = 0;
    while i < values.len()
        invariant
            i <= values@.len(),
            assigns@ == fungible_assigns(seal, values@.take(i as int)),
        decreases values@.len() - i,
    {
        assigns.push(Assign::Revealed { seal, state: RevealedValue(values[i]) });
        i = i + 1;
        proof {
            assert(values@.take(i as int) =~= values@.take(i - 1).push(values@[i - 1]));
        }
    }
    proof {
        assert(values@.take(i as int) =~= values@);
    }
    AssignVec::with(NonEmptyVec::try_from(assigns).unwrap())
}

/// Whether assignments are known seals with given byte strings.
pub open spec fn are_structured_assigns(
    assigns: Seq<Assign<RevealedData, GraphSeal>>,
    seal: GraphSeal,
    items: Seq<Seq<u8>>,
) -> bool {
    &&& assigns.len() == items.len()
    &&& forall|i: int|
        0 <= i < items.len() ==> {
            &&& #[trigger] assigns[i] matches Assign::Revealed { seal: s, state }
            &&& s == seal
            &&& state@ == items[i]
        }
}

/// Assigns byte strings, at least one, to a seal.
pub fn create_structured_assign_vec(seal: GraphSeal, data_items: Vec<Vec<u8>>) -> (assigns:
    AssignVec<Assign<RevealedData, GraphSeal>>)
    requires
        1 <= data_items@.len() <= U16,
        forall|i: int| 0 <= i < data_items@.len() ==> (#[trigger] data_items@[i])@.len() <= U16,
    ensures
        are_structured_assigns(assigns@, seal, data_items.deep_view()),
{
    let mut assigns: Vec<Assign<RevealedData, GraphSeal>> = Vec::new();
    let mut i: usize = 0;
    while i < data_items.len()
        invariant
            i <= data_items@.len(),
            forall|k: int| 0 <= k < data_items@.len() ==> (#[trigger] data_items@[k])@.len() <= U16,
            are_structured_assigns(assigns@, seal, data_items.deep_view().take(i as int)),
        decreases data_items@.len() - i,
    {
        let bytes: Vec<u8> = data_items[i].clone();
        proof {
            assert(bytes@ =~= data_items@[i as int]@);
            assert(bytes@ =~= data_items.deep_view()[i as int]);
        }
        let state = RevealedData::new(SmallBlob::try_from(bytes).unwrap());
        assigns.push(Assign::Revealed { seal, state });
        i = i + 1;
    }
    proof {
        assert(data_items.deep_view().take(i as int) =~= data_items.deep_view());
    }
    AssignVec::with(NonEmptyVec::try_from(assigns).unwrap())
}

/// Whether the assignments of a type were set to amounts under placeholder
/// seals, and no other type changed.
pub open spec fn has_amounts(
    before: Map<u16, TypedAssigns<GraphSeal>>,
    after: Map<u16, TypedAssigns<GraphSeal>>,
    ty: AssignmentType,
    values: Seq<u64>,
) -> bool {
    &&& after == before.insert(ty.0, after[ty.0])
    &&& after[ty.0] matches TypedAssigns::Fungible(assigns)
    &&& assigns@ == fungible_assigns(GraphSeal { txid: None, vout: 0, blinding: 0 }, values)
}

/// Whether the assignments of a type were set to byte strings under
/// placeholder seals, and no other type changed.
pub open spec fn has_data(
    before: Map<u16, TypedAssigns<GraphSeal>>,
    after: Map<u16, TypedAssigns<GraphSeal>>,
    ty: AssignmentType,
    items: Seq<Seq<u8>>,
) -> bool {
    &&& after == before.insert(ty.0, after[ty.0])
    &&& after[ty.0] matches TypedAssigns::Structured(assigns)
    &&& are_structured_assigns(
        assigns@,
        GraphSeal { txid: None, vout: 0, blinding: 0 },
        items,
    )
}

/// An operation under validation with everything that it runs on.
pub struct TestEnv {
    /// The contract.
    pub contract_id: ContractId,
    /// The operation, if it is a genesis.
    pub genesis_val: Option<Genesis>,
    /// The operation, if it is a state transition.
    pub transition_val: Option<Transition>,
    /// The state that the operation spends.
    pub prev_assignments_val: Assignments<GraphSeal>,
    /// Copy of the owned state of the transition.
    pub owned_assignments_val: Assignments<GraphSeal>,
    /// Copy of the global state of the operation.
    pub globals_val: GlobalState,
    /// Copy of the metadata of the operation.
    pub metadata_val: Metadata,
    /// State of the contract before the operation.
    pub mock_contract_state: MockContractState,
    /// Registers of the machine.
    pub regs: CoreRegs,
}

impl TestEnv {
    /// Global state of the operation.
    pub open spec fn globals(&self) -> Map<u16, Seq<Seq<u8>>> {
        match self.genesis_val {
            Some(genesis) => genesis.globals@,
            None => self.transition_val->0.globals@,
        }
    }

    /// Metadata of the operation.
    pub open spec fn metadata(&self) -> Map<u16, Seq<u8>> {
        match self.genesis_val {
            Some(genesis) => genesis.metadata@,
            None => self.transition_val->0.metadata@,
        }
    }

    /// Whether there is an operation.
    pub open spec fn has_operation(&self) -> bool {
        self.genesis_val is Some || self.transition_val is Some
    }

    /// Whether there is exactly one operation, the copies agree with it, and a
    /// transition belongs to the contract.
    pub open spec fn wf(&self) -> bool {
        &&& self.genesis_val is Some != self.transition_val is Some
        &&& self.globals_val@ == self.globals()
        &&& self.metadata_val@ == self.metadata()
        &&& self.genesis_val is Some ==> self.owned_assignments_val@ == Map::<
            u16,
            TypedAssigns<GraphSeal>,
        >::empty()
        &&& self.transition_val matches Some(transition) ==> {
            &&& self.owned_assignments_val@ == transition.assignments@
            &&& transition.contract_id == self.contract_id
        }
    }

    /// What the operation with a given identifier runs on. A transition has a
    /// placeholder as its witness transaction and its bundle.
    pub open spec fn context(&self, op_id: OpId) -> VmContext<'_> {
        VmContext {
            contract_id: self.contract_id,
            op_info: OpInfo {
                id: op_id,
                prev_state: &self.prev_assignments_val,
                op: &match self.genesis_val {
                    Some(genesis) => OrdOpRef::Genesis(&genesis),
                    None => OrdOpRef::Transition(
                        &self.transition_val->0,
                        Txid { hi: 0, lo: 0 },
                        WitnessOrd::Mined(WitnessPos { height: 1, timestamp: 1231006505 }),
                        BundleId(zero_array()),
                    ),
                },
            },
            contract_state: &self.mock_contract_state,
        }
    }

    /// Whether nothing is set but the contract and an operation without
    /// metadata and state.
    pub open spec fn is_fresh(&self) -> bool {
        &&& self.wf()
        &&& self.prev_assignments_val@ == Map::<u16, TypedAssigns<GraphSeal>>::empty()
        &&& self.owned_assignments_val@ == Map::<u16, TypedAssigns<GraphSeal>>::empty()
        &&& self.globals_val@ == Map::<u16, Seq<Seq<u8>>>::empty()
        &&& self.metadata_val@ == Map::<u16, Seq<u8>>::empty()
        &&& self.mock_contract_state.is_empty()
        &&& reg_file(self.regs) == RegFile::initial()
    }

    /// An environment for an empty genesis of a contract.
    pub fn for_genesis(contract_id: ContractId) -> (env: Self)
        ensures
            env.is_fresh(),
            env.contract_id == contract_id,
            env.genesis_val matches Some(genesis) && genesis.is_blank(),
    {
        TestEnv {
            contract_id,
            genesis_val: Some(dummy_genesis()),
            transition_val: None,
            prev_assignments_val: Assignments::default(),
            owned_assignments_val: Assignments::default(),
            globals_val: GlobalState::default(),
            metadata_val: Metadata::default(),
            mock_contract_state: MockContractState::default(),
            regs: default_regs(),
        }
    }

    /// An environment for an empty transition of a placeholder contract.
    pub fn for_transition() -> (env: Self)
        ensures
            env.is_fresh(),
            env.contract_id.0@ == zero_id(),
            env.transition_val matches Some(transition) && transition.is_blank()
                && transition.signature is None,
    {
        let contract_id = ContractId::strict_dumb();
        TestEnv {
            contract_id,
            genesis_val: None,
            transition_val: Some(dummy_transition(contract_id, None)),
            prev_assignments_val: Assignments::default(),
            owned_assignments_val: Assignments::default(),
            globals_val: GlobalState::default(),
            metadata_val: Metadata::default(),
            mock_contract_state: MockContractState::default(),
            regs: default_regs(),
        }
    }

    /// Moves the environment, and its transition if it has one, to another
    /// contract.
    pub fn set_contract_id(self, contract_id: ContractId) -> (env: Self)
        ensures
            self.wf() ==> env.wf(),
            env.contract_id == contract_id,
            env.transition_val == (match self.transition_val {
                Some(transition) => Some(Transition { contract_id, ..transition }),
                None => None,
            }),
            env.genesis_val == self.genesis_val,
            env.prev_assignments_val == self.prev_assignments_val,
            env.owned_assignments_val == self.owned_assignments_val,
            env.globals_val == self.globals_val,
            env.metadata_val == self.metadata_val,
            env.mock_contract_state == self.mock_contract_state,
            env.regs == self.regs,
    {
        let mut env = self;
        env.contract_id = contract_id;
        match &mut env.transition_val {
            Some(transition) => {
                transition.contract_id = contract_id;
            },
            None => {},
        }
        env
    }

    /// Adds a value to the global state of the operation.
    pub fn add_global_current_op(self, global_type: GlobalStateType, data: Vec<u8>) -> (env: Self)
        requires
            self.has_operation(),
            data@.len() <= U16,
            GlobalState::has_room(self.globals(), global_type.0),
        ensures
            self.wf() ==> env.wf(),
            env.globals_val@ == env.globals(),
            env.globals() == GlobalState::with_state(self.globals(), global_type.0, data@),
            env.genesis_val == (match self.genesis_val {
                Some(genesis) => Some(Genesis { globals: env.genesis_val->0.globals, ..genesis }),
                None => None,
            }),
            env.transition_val == (if self.genesis_val is Some {
                self.transition_val
            } else {
                Some(
                    Transition {
                        globals: env.transition_val->0.globals,
                        ..self.transition_val->0
                    },
                )
            }),
            env.contract_id == self.contract_id,
            env.prev_assignments_val == self.prev_assignments_val,
            env.owned_assignments_val == self.owned_assignments_val,
            env.metadata_val == self.metadata_val,
            env.mock_contract_state == self.mock_contract_state,
            env.regs == self.regs,
    {
        let revealed_data = RevealedData::new(SmallBlob::try_from(data).unwrap());
        let mut env = self;
        match &mut env.genesis_val {
            Some(genesis) => {
                genesis.globals.add_state(global_type, revealed_data).unwrap();
                env.globals_val = genesis.globals.clone();
            },
            None => match &mut env.transition_val {
                Some(transition) => {
                    transition.globals.add_state(global_type, revealed_data).unwrap();
                    env.globals_val = transition.globals.clone();
                },
                None => {},
            },
        }
        env
    }

    /// Sets a metadata value of the operation.
    pub fn add_metadata_current_op(self, meta_type: MetaType, data: Vec<u8>) -> (env: Self)
        requires
            self.has_operation(),
            data@.len() <= U16,
            self.metadata().len() < U16,
        ensures
            self.wf() ==> env.wf(),
            env.metadata_val@ == env.metadata(),
            env.metadata() == self.metadata().insert(meta_type.0, data@),
            env.genesis_val == (match self.genesis_val {
                Some(genesis) => Some(Genesis { metadata: env.genesis_val->0.metadata, ..genesis }),
                None => None,
            }),
            env.transition_val == (if self.genesis_val is Some {
                self.transition_val
            } else {
                Some(
                    Transition {
                        metadata: env.transition_val->0.metadata,
                        ..self.transition_val->0
                    },
                )
            }),
            env.contract_id == self.contract_id,
            env.prev_assignments_val == self.prev_assignments_val,
            env.owned_assignments_val == self.owned_assignments_val,
            env.globals_val == self.globals_val,
            env.mock_contract_state == self.mock_contract_state,
            env.regs == self.regs,
    {
        let meta_value = MetaValue::new(SmallBlob::try_from(data).unwrap());
        let mut env = self;
        match &mut env.genesis_val {
            Some(genesis) => {
                genesis.metadata.insert(meta_type, meta_value).unwrap();
                env.metadata_val = genesis.metadata.clone();
            },
            None => match &mut env.transition_val {
                Some(transition) => {
                    transition.metadata.insert(meta_type, meta_value).unwrap();
                    env.metadata_val = transition.metadata.clone();
                },
                None => {},
            },
        }
        env
    }

    /// Sets the spent amounts of a type.
    pub fn add_prev_assign_fungible(self, assign_type: AssignmentType, values: Vec<u64>) -> (env:
        Self)
        requires
            1 <= values@.len() <= U16,
            self.prev_assignments_val@.len() < U16,
        ensures
            self.wf() ==> env.wf(),
            has_amounts(
                self.prev_assignments_val@,
                env.prev_assignments_val@,
                assign_type,
                values@,
            ),
            env.prev_assignments_val.states(assign_type) == Some(StateView::Amounts(values@)),
            env.contract_id == self.contract_id,
            env.genesis_val == self.genesis_val,
            env.transition_val == self.transition_val,
            env.owned_assignments_val == self.owned_assignments_val,
            env.globals_val == self.globals_val,
            env.metadata_val == self.metadata_val,
            env.mock_contract_state == self.mock_contract_state,
            env.regs == self.regs,
    {
        let typed_assigns = TypedAssigns::Fungible(
            create_fungible_assign_vec(GraphSeal::strict_dumb(), values),
        );
        let mut env = self;
        env.prev_assignments_val.insert(assign_type, typed_assigns).unwrap();
        env
    }

    /// Sets the spent structured state of a type.
    pub fn add_prev_assign_structured(
        self,
        assign_type: AssignmentType,
        data_items: Vec<Vec<u8>>,
    ) -> (env: Self)
        requires
            1 <= data_items@.len() <= U16,
            forall|i: int| 0 <= i < data_items@.len() ==> (#[trigger] data_items@[i])@.len() <= U16,
            self.prev_assignments_val@.len() < U16,
        ensures
            self.wf() ==> env.wf(),
            has_data(
                self.prev_assignments_val@,
                env.prev_assignments_val@,
                assign_type,
                data_items.deep_view(),
            ),
            env.prev_assignments_val.states(assign_type) == Some(
                StateView::Data(data_items.deep_view()),
            ),
            env.contract_id == self.contract_id,
            env.genesis_val == self.genesis_val,
            env.transition_val == self.transition_val,
            env.owned_assignments_val == self.owned_assignments_val,
            env.globals_val == self.globals_val,
            env.metadata_val == self.metadata_val,
            env.mock_contract_state == self.mock_contract_state,
            env.regs == self.regs,
    {
        let typed_assigns = TypedAssigns::Structured(
            create_structured_assign_vec(GraphSeal::strict_dumb(), data_items),
        );
        let mut env = self;
        env.prev_assignments_val.insert(assign_type, typed_assigns).unwrap();
        env
    }

    /// Sets the owned amounts of a type in the transition. A genesis has
    /// another kind of seals, so the operation must not be one.
    pub fn add_owned_assign_fungible(self, assign_type: AssignmentType, values: Vec<u64>) -> (env:
        Self)
        requires
            self.genesis_val is None,
            self.transition_val is Some,
            1 <= values@.len() <= U16,
            self.transition_val->0.assignments@.len() < U16,
        ensures
            self.wf() ==> env.wf(),
            env.owned_assignments_val@ == env.transition_val->0.assignments@,
            has_amounts(
                self.transition_val->0.assignments@,
                env.transition_val->0.assignments@,
                assign_type,
                values@,
            ),
            env.transition_val->0.assignments.states(assign_type) == Some(StateView::Amounts(values@)),
            env.transition_val == Some(
                Transition {
                    assignments: env.transition_val->0.assignments,
                    ..self.transition_val->0
                },
            ),
            env.contract_id == self.contract_id,
            env.genesis_val == self.genesis_val,
            env.prev_assignments_val == self.prev_assignments_val,
            env.globals_val == self.globals_val,
            env.metadata_val == self.metadata_val,
            env.mock_contract_state == self.mock_contract_state,
            env.regs == self.regs,
    {
        let typed_assigns = TypedAssigns::Fungible(
            create_fungible_assign_vec(GraphSeal::strict_dumb(), values),
        );
        let mut env = self;
        match &mut env.transition_val {
            Some(transition) => {
                transition.assignments.insert(assign_type, typed_assigns).unwrap();
                env.owned_assignments_val = transition.assignments.clone();
            },
            None => {},
        }
        env
    }

    /// Sets the owned structured state of a type in the transition. A genesis
    /// has another kind of seals, so the operation must not be one.
    pub fn add_owned_assign_structured(
        self,
        assign_type: AssignmentType,
        data_items: Vec<Vec<u8>>,
    ) -> (env: Self)
        requires
            self.genesis_val is None,
            self.transition_val is Some,
            1 <= data_items@.len() <= U16,
            forall|i: int| 0 <= i < data_items@.len() ==> (#[trigger] data_items@[i])@.len() <= U16,
            self.transition_val->0.assignments@.len() < U16,
        ensures
            self.wf() ==> env.wf(),
            env.owned_assignments_val@ == env.transition_val->0.assignments@,
            has_data(
                self.transition_val->0.assignments@,
                env.transition_val->0.assignments@,
                assign_type,
                data_items.deep_view(),
            ),
            env.transition_val->0.assignments.states(assign_type) == Some(
                StateView::Data(data_items.deep_view()),
            ),
            env.transition_val == Some(
                Transition {
                    assignments: env.transition_val->0.assignments,
                    ..self.transition_val->0
                },
            ),
            env.contract_id == self.contract_id,
            env.genesis_val == self.genesis_val,
            env.prev_assignments_val == self.prev_assignments_val,
            env.globals_val == self.globals_val,
            env.metadata_val == self.metadata_val,
            env.mock_contract_state == self.mock_contract_state,
            env.regs == self.regs,
    {
        let typed_assigns = TypedAssigns::Structured(
            create_structured_assign_vec(GraphSeal::strict_dumb(), data_items),
        );
        let mut env = self;
        match &mut env.transition_val {
            Some(transition) => {
                transition.assignments.insert(assign_type, typed_assigns).unwrap();
                env.owned_assignments_val = transition.assignments.clone();
            },
            None => {},
        }
        env
    }

    /// Sets the history of a global state type.
    pub fn set_mock_global_state_history(
        self,
        global_type: GlobalStateType,
        history: Vec<GlobalItem>,
    ) -> (env: Self)
        ensures
            self.wf() ==> env.wf(),
            env.mock_contract_state.global_data@ == self.mock_contract_state.global_data@.insert(
                global_type.0,
                history,
            ),
            env.mock_contract_state == (MockContractState {
                global_data: env.mock_contract_state.global_data,
                ..self.mock_contract_state
            }),
            env.contract_id == self.contract_id,
            env.genesis_val == self.genesis_val,
            env.transition_val == self.transition_val,
            env.prev_assignments_val == self.prev_assignments_val,
            env.owned_assignments_val == self.owned_assignments_val,
            env.globals_val == self.globals_val,
            env.metadata_val == self.metadata_val,
            env.regs == self.regs,
    {
        let mut env = self;
        env.mock_contract_state.global_data.insert(global_type.0, history);
        env
    }

    /// Makes global state of the contract inaccessible, or accessible again.
    pub fn set_mock_fail_global_access(self, fail: bool) -> (env: Self)
        ensures
            self.wf() ==> env.wf(),
            env.mock_contract_state == (MockContractState {
                fail_global_access: fail,
                ..self.mock_contract_state
            }),
            env.contract_id == self.contract_id,
            env.genesis_val == self.genesis_val,
            env.transition_val == self.transition_val,
            env.prev_assignments_val == self.prev_assignments_val,
            env.owned_assignments_val == self.owned_assignments_val,
            env.globals_val == self.globals_val,
            env.metadata_val == self.metadata_val,
            env.regs == self.regs,
    {
        let mut env = self;
        env.mock_contract_state.fail_global_access = fail;
        env
    }

    /// Runs an operation of a script on the registers, and tells whether it
    /// succeeded or failed as expected. `op_id` identifies the operation under
    /// validation.
    #[must_use]
    pub fn execute(&mut self, op_id: OpId, op_code: ContractOp, expected_st0_ok: bool) -> (met: bool)
        requires
            old(self).has_operation(),
            op_code.executable(reg_file(old(self).regs), old(self).context(op_id)),
        ensures
            old(self).wf() ==> final(self).wf(),
            reg_file(final(self).regs) == op_code.outcome(
                reg_file(old(self).regs),
                old(self).context(op_id),
            ).0,
            met == as_expected(
                op_code.outcome(reg_file(old(self).regs), old(self).context(op_id)),
                expected_st0_ok,
            ),
            final(self).contract_id == old(self).contract_id,
            final(self).genesis_val == old(self).genesis_val,
            final(self).transition_val == old(self).transition_val,
            final(self).prev_assignments_val == old(self).prev_assignments_val,
            final(self).owned_assignments_val == old(self).owned_assignments_val,
            final(self).globals_val == old(self).globals_val,
            final(self).metadata_val == old(self).metadata_val,
            final(self).mock_contract_state == old(self).mock_contract_state,
    {
        let op: OrdOpRef<'_> = match &self.genesis_val {
            Some(genesis) => OrdOpRef::Genesis(genesis),
            None => {
                let bundle_id = BundleId::strict_dumb();
                proof {
                    assert(bundle_id.0 =~= zero_array());
                }
                OrdOpRef::Transition(
                    self.transition_val.as_ref().unwrap(),
                    Txid::strict_dumb(),
                    dummy_witness_ord_mined(),
                    bundle_id,
                )
            },
        };
        let op_info = OpInfo { id: op_id, prev_state: &self.prev_assignments_val, op: &op };
        let context = create_vm_context(self.contract_id, op_info, &self.mock_contract_state);
        exec_op_and_assert_st0(op_code, &mut self.regs, &context, expected_st0_ok)
    }
}

/// Operations see what was put into the environment: the spent state, the owned
/// state of a transition, the global state and the metadata of the operation,
/// and the history of the contract unless that is inaccessible.
pub proof fn law_context_shows_environment(env: TestEnv, op_id: OpId)
    requires
        env.wf(),
    ensures
        forall|ty: AssignmentType| #[trigger]
            env.context(op_id).prev(ty) == env.prev_assignments_val.states(ty),
        env.transition_val is Some ==> forall|ty: AssignmentType| #[trigger]
            env.context(op_id).owned(ty) == env.owned_assignments_val.states(ty),
        forall|ty: GlobalStateType| #[trigger]
            env.context(op_id).global(ty) == env.globals_val@.get(ty.0),
        forall|ty: MetaType| #[trigger]
            env.context(op_id).meta(ty) == env.metadata_val@.get(ty.0),
        forall|ty: GlobalStateType|
            (#[trigger] env.context(op_id).history(ty) is None)
                == env.mock_contract_state.fail_global_access,
        forall|ty: GlobalStateType|
            !env.mock_contract_state.fail_global_access ==> #[trigger] env.context(op_id).history(
                ty,
            ) == Some(
                env.mock_contract_state.history(ty).map_values(|item: GlobalItem| item.1@),
            ),
{
}

/// An expectation is met exactly if the status flag has the expected value and
/// the script goes on when success, or stops when failure was expected.
pub proof fn law_expectation(outcome: (RegFile, ExecStep))
    ensures
        as_expected(outcome, true) == (outcome.0.st0 && outcome.1 == ExecStep::Next),
        as_expected(outcome, false) == (!outcome.0.st0 && outcome.1 == ExecStep::Stop),
{
}

/// On a raised flag an operation meets exactly one of the two expectations.
pub proof fn law_one_expectation_is_met(op: ContractOp, regs: RegFile, context: VmContext<'_>)
    requires
        regs.st0,
    ensures
        as_expected(op.outcome(regs, context), true) != as_expected(
            op.outcome(regs, context),
            false,
        ),
{
}

/// Amounts are assigned one for one, in order, each to the given seal.
pub proof fn law_assigned_amounts(seal: GraphSeal, values: Seq<u64>)
    ensures
        fungible_assigns(seal, values).len() == values.len(),
        forall|i: int|
            0 <= i < values.len() ==> #[trigger] fungible_assigns(seal, values)[i] == (
            Assign::<RevealedValue, GraphSeal>::Revealed { seal, state: RevealedValue(values[i]) }),
{
}

/// Byte strings are assigned one for one, in order, each to the given seal.
pub proof fn law_assigned_data(
    assigns: Seq<Assign<RevealedData, GraphSeal>>,
    seal: GraphSeal,
    items: Seq<Seq<u8>>,
)
    requires
        are_structured_assigns(assigns, seal, items),
    ensures
        assigns.len() == items.len(),
        forall|i: int|
            0 <= i < items.len() ==> match #[trigger] assigns[i] {
                Assign::Revealed { seal: given, state } => given == seal && state@ == items[i],
                Assign::ConfidentialSeal { .. } => false,
            },
{
}

/// Setting the amounts of a type leaves every other type alone and gives the
/// type an assignment for each amount, in order, to the placeholder seal.
pub proof fn law_set_amounts(
    before: Map<u16, TypedAssigns<GraphSeal>>,
    after: Map<u16, TypedAssigns<GraphSeal>>,
    ty: AssignmentType,
    values: Seq<u64>,
)
    requires
        has_amounts(before, after, ty, values),
    ensures
        after.remove(ty.0) == before.remove(ty.0),
        after.contains_key(ty.0),
        match after[ty.0] {
            TypedAssigns::Fungible(held) => {
                &&& held.items@.len() == values.len()
                &&& forall|i: int|
                    0 <= i < values.len() ==> match #[trigger] held.items@[i] {
                        Assign::Revealed { seal, state } => {
                            &&& state.0 == values[i]
                            &&& seal.txid is None && seal.vout == 0 && seal.blinding == 0
                        },
                        Assign::ConfidentialSeal { .. } => false,
                    }
            },
            _ => false,
        },
{
    assert(after.remove(ty.0) =~= before.remove(ty.0));
}

/// Setting the structured state of a type leaves every other type alone and
/// gives the type an assignment for each byte string, in order, to the
/// placeholder seal.
pub proof fn law_set_data(
    before: Map<u16, TypedAssigns<GraphSeal>>,
    after: Map<u16, TypedAssigns<GraphSeal>>,
    ty: AssignmentType,
    items: Seq<Seq<u8>>,
)
    requires
        has_data(before, after, ty, items),
    ensures
        after.remove(ty.0) == before.remove(ty.0),
        after.contains_key(ty.0),
        match after[ty.0] {
            TypedAssigns::Structured(held) => {
                &&& held.items@.len() == items.len()
                &&& forall|i: int|
                    0 <= i < items.len() ==> match #[trigger] held.items@[i] {
                        Assign::Revealed { seal, state } => {
                            &&& state@ == items[i]
                            &&& seal.txid is None && seal.vout == 0 && seal.blinding == 0
                        },
                        Assign::ConfidentialSeal { .. } => false,
                    }
            },
            _ => false,
        },
{
    assert(after.remove(ty.0) =~= before.remove(ty.0));
}

/// The global state and the metadata of an environment are those of its
/// genesis, or of its transition if it has no genesis; the context names the
/// contract and the operation.
pub proof fn law_environment_parts(env: TestEnv, op_id: OpId)
    ensures
        env.genesis_val matches Some(genesis) ==> env.globals() == genesis.globals@
            && env.metadata() == genesis.metadata@,
        env.genesis_val is None ==> (env.transition_val matches Some(transition)
            ==> env.globals() == transition.globals@ && env.metadata() == transition.metadata@),
        env.has_operation() == !(env.genesis_val is None && env.transition_val is None),
        env.context(op_id).contract_id == env.contract_id,
        env.context(op_id).op_info.id == op_id,
        *env.context(op_id).op_info.prev_state == env.prev_assignments_val,
        *env.context(op_id).contract_state == env.mock_contract_state,
        env.genesis_val matches Some(genesis) ==> *env.context(op_id).op_info.op
            == OrdOpRef::Genesis(&genesis),
        env.genesis_val is None && env.transition_val is Some ==> match *env.context(
            op_id,
        ).op_info.op {
            OrdOpRef::Transition(transition, txid, ord, bundle_id) => {
                &&& *transition == env.transition_val->0
                &&& txid.hi == 0 && txid.lo == 0
                &&& ord == WitnessOrd::Mined(WitnessPos { height: 1, timestamp: 1231006505 })
                &&& bundle_id.0@ == zero_array()@
            },
            _ => false,
        },
{
}

/// A well-formed environment has one operation and not two, and its copies of
/// the parts of the operation agree with the operation. Conversely an
/// environment of which this holds is well-formed.
pub proof fn law_well_formed(env: TestEnv)
    ensures
        env.wf() && env.genesis_val is Some ==> {
            &&& env.transition_val is None
            &&& env.globals_val@ == env.genesis_val->0.globals@
            &&& env.metadata_val@ == env.genesis_val->0.metadata@
            &&& forall|ty: u16| !env.owned_assignments_val@.contains_key(ty)
        },
        env.wf() && env.genesis_val is None ==> {
            &&& env.transition_val is Some
            &&& env.globals_val@ == env.transition_val->0.globals@
            &&& env.metadata_val@ == env.transition_val->0.metadata@
            &&& env.owned_assignments_val@ == env.transition_val->0.assignments@
            &&& env.contract_id == env.transition_val->0.contract_id
        },
        env.genesis_val is None && env.transition_val is Some && env.globals_val@
            == env.transition_val->0.globals@ && env.metadata_val@
            == env.transition_val->0.metadata@ && env.owned_assignments_val@
            == env.transition_val->0.assignments@ && env.contract_id
            == env.transition_val->0.contract_id ==> env.wf(),
{
}

/// A fresh environment is well-formed and empty: nothing is spent, owned, added
/// or kept, no register is set, and the status flag is raised.
pub proof fn law_fresh_environment(env: TestEnv)
    requires
        env.is_fresh(),
    ensures
        env.wf(),
        forall|ty: u16| !env.prev_assignments_val@.contains_key(ty),
        forall|ty: u16| !env.owned_assignments_val@.contains_key(ty),
        forall|ty: u16| !env.globals_val@.contains_key(ty),
        forall|ty: u16| !env.metadata_val@.contains_key(ty),
        forall|ty: u16| !env.mock_contract_state.global_data@.contains_key(ty),
        !env.mock_contract_state.fail_global_access,
        forall|bank: RegA, index: u8| !reg_file(env.regs).ints.contains_key((bank, index)),
        forall|index: u8| !reg_file(env.regs).strs.contains_key(index),
        reg_file(env.regs).st0,
{
}

} // verus!
