//! Operations of a contract: its genesis and its state transitions.
use crate::bundle::BundleId;
use crate::confinement::NonEmptyVec;
use crate::contract_state::{WitnessOrd, WitnessPos};
use crate::state::{
    bytes_of, total, Assignments, GlobalState, MetaValue, Metadata, RevealedData, StateView,
    TypedAssigns,
};
use crate::types::{
    zero_id, AssignmentType, ContractId, Ffv, GenesisSeal, GlobalStateType, GraphSeal, Identity,
    MetaType, Opout, SchemaId, Signature, TransitionType, Txid,
};
use vstd::prelude::*;

verus! {

/// The bitcoin network that a contract lives on.
#[derive(Clone, Copy, Debug, PartialEq, Eq, Structural)]
pub enum ChainNet {
    /// A local test network.
    BitcoinRegtest,
}

/// How the seals of a contract are closed.
#[derive(Clone, Copy, Debug, PartialEq, Eq, Structural)]
pub enum SealClosingStrategy {
    /// By the first output that commits through opret or tapret.
    FirstOpretOrTapret,
}

impl Default for SealClosingStrategy {
    fn default() -> (strategy: SealClosingStrategy)
        ensures
            strategy == SealClosingStrategy::FirstOpretOrTapret,
    {
        SealClosingStrategy::FirstOpretOrTapret
    }
}

/// The assignments that a state transition spends; at least one.
#[derive(Debug, PartialEq, Eq)]
pub struct Inputs {
    /// The spent assignments, each of them once.
    pub opouts: NonEmptyVec<Opout>,
}

impl Inputs {
    /// Whether no assignment is spent twice.
    pub open spec fn wf(&self) -> bool {
        self.opouts@.no_duplicates()
    }

    /// The inputs of a transition that spends a single assignment.
    pub fn with(opout: Opout) -> (inputs: Inputs)
        ensures
            inputs.wf(),
            inputs.opouts@ == seq![opout],
    {
        let mut opouts: Vec<Opout> = Vec::new();
        opouts.push(opout);
        Inputs { opouts: NonEmptyVec::try_from(opouts).unwrap() }
    }
}

impl Clone for Inputs {
    fn clone(&self) -> (copy: Inputs)
        ensures
            copy.opouts@ == self.opouts@,
    {
        let copy = Inputs { opouts: self.opouts.clone() };
        proof {
            assert(copy.opouts@ =~= self.opouts@);
        }
        copy
    }
}

/// The operation that issues a contract.
#[derive(Clone, Debug, PartialEq, Eq)]
pub struct Genesis {
    /// Fast-forward version.
    pub ffv: Ffv,
    /// Schema of the contract.
    pub schema_id: SchemaId,
    /// Time of issue in seconds.
    pub timestamp: i64,
    /// Who issues the contract.
    pub issuer: Identity,
    /// Network of the contract.
    pub chain_net: ChainNet,
    /// How seals are closed.
    pub seal_closing_strategy: SealClosingStrategy,
    /// Metadata.
    pub metadata: Metadata,
    /// Global state.
    pub globals: GlobalState,
    /// Owned state.
    pub assignments: Assignments<GenesisSeal>,
}

/// An operation that updates a contract.
#[derive(Debug, PartialEq, Eq)]
pub struct Transition {
    /// Fast-forward version.
    pub ffv: Ffv,
    /// The contract.
    pub contract_id: ContractId,
    /// Tells apart transitions that are otherwise equal.
    pub nonce: u64,
    /// Type of the transition.
    pub transition_type: TransitionType,
    /// Metadata.
    pub metadata: Metadata,
    /// Global state.
    pub globals: GlobalState,
    /// Spent assignments.
    pub inputs: Inputs,
    /// Owned state.
    pub assignments: Assignments<GraphSeal>,
    /// Signature, if the transition has one.
    pub signature: Option<Signature>,
}

impl Genesis {
    /// Whether the genesis is of a placeholder contract on a local test
    /// network and has no metadata and no state. Its issuer is the placeholder
    /// of [`Identity::strict_dumb`], an empty name.
    pub open spec fn is_blank(&self) -> bool {
        &&& self.ffv == Ffv(0)
        &&& self.schema_id.0@ == zero_id()
        &&& self.timestamp == 0
        &&& self.issuer.0@ == Seq::<char>::empty()
        &&& self.chain_net == ChainNet::BitcoinRegtest
        &&& self.seal_closing_strategy == SealClosingStrategy::FirstOpretOrTapret
        &&& self.metadata@ == Map::<u16, Seq<u8>>::empty()
        &&& self.globals@ == Map::<u16, Seq<Seq<u8>>>::empty()
        &&& self.assignments@ == Map::<u16, TypedAssigns<GenesisSeal>>::empty()
    }
}

/// A regtest genesis without metadata and state.
pub fn dummy_genesis() -> (genesis: Genesis)
    ensures
        genesis.is_blank(),
{
    Genesis {
        ffv: Ffv::default(),
        schema_id: SchemaId::strict_dumb(),
        timestamp: 0,
        issuer: Identity::strict_dumb(),
        chain_net: ChainNet::BitcoinRegtest,
        seal_closing_strategy: SealClosingStrategy::default(),
        metadata: Metadata::default(),
        globals: GlobalState::default(),
        assignments: Assignments::default(),
    }
}

/// The first block, at the time of the first bitcoin block.
pub fn dummy_witness_pos() -> (pos: WitnessPos)
    ensures
        pos == (WitnessPos { height: 1, timestamp: 1231006505 }),
        pos.is_mined(),
{
    WitnessPos { height: 1, timestamp: 1231006505 }
}

/// The order of a witness that was mined in the first block.
pub fn dummy_witness_ord_mined() -> (ord: WitnessOrd)
    ensures
        ord == WitnessOrd::Mined((WitnessPos { height: 1, timestamp: 1231006505 })),
{
    WitnessOrd::Mined(dummy_witness_pos())
}

impl Transition {
    /// Whether the transition has no metadata and no state and spends a single
    /// placeholder.
    pub open spec fn is_blank(&self) -> bool {
        &&& self.ffv == Ffv(0)
        &&& self.nonce == 0
        &&& self.transition_type == TransitionType(0)
        &&& self.metadata@ == Map::<u16, Seq<u8>>::empty()
        &&& self.globals@ == Map::<u16, Seq<Seq<u8>>>::empty()
        &&& self.inputs.wf()
        &&& self.inputs.opouts@.len() == 1
        &&& self.inputs.opouts@[0].op.0@ == zero_id()
        &&& self.inputs.opouts@[0].ty == AssignmentType(0)
        &&& self.inputs.opouts@[0].no == 0
        &&& self.assignments@ == Map::<u16, TypedAssigns<GraphSeal>>::empty()
    }
}

impl Transition {
    /// Whether the transition agrees with another one in every field.
    pub open spec fn same_as(&self, other: &Transition) -> bool {
        &&& self.ffv == other.ffv
        &&& self.contract_id == other.contract_id
        &&& self.nonce == other.nonce
        &&& self.transition_type == other.transition_type
        &&& self.metadata@ == other.metadata@
        &&& self.globals@ == other.globals@
        &&& self.inputs.opouts@ == other.inputs.opouts@
        &&& self.assignments@ == other.assignments@
        &&& self.signature == other.signature
    }
}

impl Clone for Transition {
    fn clone(&self) -> (copy: Transition)
        ensures
            copy.same_as(self),
    {
        Transition {
            ffv: self.ffv,
            contract_id: self.contract_id,
            nonce: self.nonce,
            transition_type: self.transition_type,
            metadata: self.metadata.clone(),
            globals: self.globals.clone(),
            inputs: self.inputs.clone(),
            assignments: self.assignments.clone(),
            signature: self.signature,
        }
    }
}

/// A transition without metadata and state that spends a placeholder.
pub fn dummy_transition(contract_id: ContractId, signature: Option<Signature>) -> (transition:
    Transition)
    ensures
        transition.is_blank(),
        transition.contract_id == contract_id,
        transition.signature == signature,
{
    Transition {
        ffv: Ffv::default(),
        contract_id,
        nonce: 0,
        transition_type: TransitionType::strict_dumb(),
        metadata: Metadata::default(),
        globals: GlobalState::default(),
        inputs: Inputs::with(Opout::strict_dumb()),
        assignments: Assignments::default(),
        signature,
    }
}

/// An operation with what orders it in the history of its contract.
pub enum OrdOpRef<'op> {
    /// A genesis.
    Genesis(&'op Genesis),
    /// A state transition, its witness transaction, how that is ordered, and
    /// the bundle of the transition.
    Transition(&'op Transition, Txid, WitnessOrd, BundleId),
}

impl<'op> OrdOpRef<'op> {
    /// Owned states of a type; `None` if there are none.
    pub open spec fn owned(&self, ty: AssignmentType) -> Option<StateView> {
        match self {
            OrdOpRef::Genesis(genesis) => genesis.assignments.states(ty),
            OrdOpRef::Transition(transition, _, _, _) => transition.assignments.states(ty),
        }
    }

    /// Global state by type.
    pub open spec fn globals(&self) -> Map<u16, Seq<Seq<u8>>> {
        match self {
            OrdOpRef::Genesis(genesis) => genesis.globals@,
            OrdOpRef::Transition(transition, _, _, _) => transition.globals@,
        }
    }

    /// Metadata by type.
    pub open spec fn metadata(&self) -> Map<u16, Seq<u8>> {
        match self {
            OrdOpRef::Genesis(genesis) => genesis.metadata@,
            OrdOpRef::Transition(transition, _, _, _) => transition.metadata@,
        }
    }

    /// Number of owned states of a type; `None` if there are none.
    pub fn owned_len(&self, ty: AssignmentType) -> (n: Option<u16>)
        ensures
            n is Some == self.owned(ty) is Some,
            n matches Some(n) ==> n == self.owned(ty)->0.count() && n >= 1,
    {
        match self {
            OrdOpRef::Genesis(genesis) => match genesis.assignments.get(ty) {
                Some(assigns) => Some(assigns.len_u16()),
                None => None,
            },
            OrdOpRef::Transition(transition, _, _, _) => match transition.assignments.get(ty) {
                Some(assigns) => Some(assigns.len_u16()),
                None => None,
            },
        }
    }

    /// The owned structured state of a type at a position, if there is one.
    pub fn owned_structured_at(&self, ty: AssignmentType, index: u16) -> (data: Option<
        &RevealedData,
    >)
        ensures
            data is Some == (self.owned(ty) matches Some(StateView::Data(items)) && index
                < items.len()),
            data matches Some(d) ==> d@ == self.owned(ty)->0->Data_0[index as int],
    {
        match self {
            OrdOpRef::Genesis(genesis) => match genesis.assignments.get(ty) {
                Some(assigns) => assigns.as_structured_state_at(index),
                None => None,
            },
            OrdOpRef::Transition(transition, _, _, _) => match transition.assignments.get(ty) {
                Some(assigns) => assigns.as_structured_state_at(index),
                None => None,
            },
        }
    }

    /// The owned amount of a type at a position, if there is one.
    pub fn owned_fungible_at(&self, ty: AssignmentType, index: u16) -> (amount: Option<u64>)
        ensures
            amount is Some == (self.owned(ty) matches Some(StateView::Amounts(amounts)) && index
                < amounts.len()),
            amount matches Some(a) ==> a == self.owned(ty)->0->Amounts_0[index as int],
    {
        match self {
            OrdOpRef::Genesis(genesis) => match genesis.assignments.get(ty) {
                Some(assigns) => assigns.as_fungible_state_at(index),
                None => None,
            },
            OrdOpRef::Transition(transition, _, _, _) => match transition.assignments.get(ty) {
                Some(assigns) => assigns.as_fungible_state_at(index),
                None => None,
            },
        }
    }

    /// The total of the owned amounts of a type.
    pub fn owned_total(&self, ty: AssignmentType) -> (sum: Option<u64>)
        ensures
            sum == total(self.owned(ty)),
    {
        match self {
            OrdOpRef::Genesis(genesis) => genesis.assignments.checked_total(ty),
            OrdOpRef::Transition(transition, _, _, _) => transition.assignments.checked_total(ty),
        }
    }

    /// Whether some owned amount of a type is zero.
    pub fn owned_has_zero_amount(&self, ty: AssignmentType) -> (found: bool)
        ensures
            found == (self.owned(ty) matches Some(StateView::Amounts(amounts))
                && amounts.contains(0u64)),
    {
        match self {
            OrdOpRef::Genesis(genesis) => genesis.assignments.has_zero_amount(ty),
            OrdOpRef::Transition(transition, _, _, _) => transition.assignments.has_zero_amount(ty),
        }
    }

    /// The global state of a type, if there is any.
    pub fn global(&self, ty: GlobalStateType) -> (items: Option<&Vec<RevealedData>>)
        ensures
            items is Some == self.globals().contains_key(ty.0),
            items matches Some(items) ==> bytes_of(items@) == self.globals()[ty.0],
    {
        match self {
            OrdOpRef::Genesis(genesis) => genesis.globals.get(ty),
            OrdOpRef::Transition(transition, _, _, _) => transition.globals.get(ty),
        }
    }

    /// The metadata of a type, if there is any.
    pub fn meta(&self, ty: MetaType) -> (meta: Option<&MetaValue>)
        ensures
            meta is Some == self.metadata().contains_key(ty.0),
            meta matches Some(meta) ==> meta@ == self.metadata()[ty.0],
    {
        match self {
            OrdOpRef::Genesis(genesis) => genesis.metadata.get(ty),
            OrdOpRef::Transition(transition, _, _, _) => transition.metadata.get(ty),
        }
    }
}

/// A blank genesis has no metadata and no state, and nothing in it but
/// placeholders.
pub proof fn law_blank_genesis(genesis: Genesis)
    requires
        genesis.is_blank(),
    ensures
        forall|ty: u16| !genesis.metadata@.contains_key(ty),
        forall|ty: u16| !genesis.globals@.contains_key(ty),
        forall|ty: u16| !genesis.assignments@.contains_key(ty),
        forall|i: int| 0 <= i < 32 ==> #[trigger] genesis.schema_id.0@[i] == 0,
        genesis.ffv.0 == 0,
        genesis.timestamp == 0,
        genesis.issuer.0@.len() == 0,
        genesis.chain_net == ChainNet::BitcoinRegtest,
        genesis.seal_closing_strategy == SealClosingStrategy::FirstOpretOrTapret,
{
}

/// A blank transition has no metadata and no state, and spends exactly one
/// assignment, the placeholder.
pub proof fn law_blank_transition(transition: Transition)
    requires
        transition.is_blank(),
    ensures
        forall|ty: u16| !transition.metadata@.contains_key(ty),
        forall|ty: u16| !transition.globals@.contains_key(ty),
        forall|ty: u16| !transition.assignments@.contains_key(ty),
        transition.inputs.opouts@.len() == 1,
        forall|i: int| 0 <= i < 32 ==> #[trigger] transition.inputs.opouts@[0].op.0@[i] == 0,
        transition.inputs.opouts@[0].ty.0 == 0,
        transition.inputs.opouts@[0].no == 0,
        transition.ffv.0 == 0,
        transition.nonce == 0,
        transition.transition_type.0 == 0,
{
}

/// Inputs are well-formed exactly if no assignment stands at two places.
pub proof fn law_inputs_are_distinct(inputs: Inputs)
    ensures
        inputs.wf() == (forall|i: int, j: int|
            0 <= i < inputs.opouts@.len() && 0 <= j < inputs.opouts@.len() && i != j
                ==> inputs.opouts@[i] != inputs.opouts@[j]),
{
}

/// Transitions that are the same agree in each of their fields.
pub proof fn law_same_transition(a: Transition, b: Transition)
    requires
        a.same_as(&b),
    ensures
        a.ffv == b.ffv,
        a.contract_id == b.contract_id,
        a.nonce == b.nonce,
        a.transition_type == b.transition_type,
        a.metadata@ == b.metadata@,
        a.globals@ == b.globals@,
        a.inputs.opouts@ == b.inputs.opouts@,
        a.assignments@ == b.assignments@,
        a.signature == b.signature,
{
}

/// What an operation owns, adds to global state and says in its metadata is
/// what stands in the genesis or in the transition.
pub proof fn law_operation_parts(
    genesis: &Genesis,
    transition: &Transition,
    txid: Txid,
    ord: WitnessOrd,
    bundle_id: BundleId,
)
    ensures
        ({
            let op = OrdOpRef::Genesis(genesis);
            &&& op.globals() == genesis.globals@
            &&& op.metadata() == genesis.metadata@
            &&& forall|ty: AssignmentType| #[trigger]
                op.owned(ty) == genesis.assignments.states(ty)
        }),
        ({
            let op = OrdOpRef::Transition(transition, txid, ord, bundle_id);
            &&& op.globals() == transition.globals@
            &&& op.metadata() == transition.metadata@
            &&& forall|ty: AssignmentType| #[trigger]
                op.owned(ty) == transition.assignments.states(ty)
        }),
{
}

} // verus!
