//! Owned state, global state and metadata of operations.
use crate::confinement::{blob_bytes, misfit, ConfinementError, NonEmptyVec, SmallBlob, SmallOrdMap, U16};
use crate::types::{AssignmentType, GlobalStateType, MetaType, SecretSeal};
use std::collections::BTreeMap;
use vstd::prelude::*;

verus! {

/// Structured state: a byte string.
#[derive(Debug, PartialEq, Eq)]
pub struct RevealedData {
    /// The bytes.
    pub value: SmallBlob,
}

impl View for RevealedData {
    type V = Seq<u8>;

    open spec fn view(&self) -> Seq<u8> {
        self.value@
    }
}

impl RevealedData {
    /// State with given bytes.
    pub fn new(value: SmallBlob) -> (data: RevealedData)
        ensures
            data.value == value,
    {
        RevealedData { value }
    }
}

impl Clone for RevealedData {
    fn clone(&self) -> (copy: RevealedData)
        ensures
            copy@ == self@,
    {
        RevealedData { value: self.value.clone() }
    }
}

/// The bytes of every item.
pub open spec fn bytes_of(items: Seq<RevealedData>) -> Seq<Seq<u8>> {
    items.map_values(|item: RevealedData| item@)
}

/// Fungible state: an amount.
#[derive(Clone, Copy, Debug, PartialEq, Eq, Structural)]
pub struct FungibleState(pub u64);

/// Fungible state as it stands in an assignment.
#[derive(Clone, Copy, Debug, PartialEq, Eq, Structural)]
pub struct RevealedValue(pub u64);

/// State of an assignment that confers a right and carries no data.
#[derive(Clone, Copy, Debug, PartialEq, Eq, Structural)]
pub struct VoidState;

/// Value of a metadata entry: a byte string.
#[derive(Debug, PartialEq, Eq)]
pub struct MetaValue {
    /// The bytes.
    pub value: SmallBlob,
}

impl View for MetaValue {
    type V = Seq<u8>;

    open spec fn view(&self) -> Seq<u8> {
        self.value@
    }
}

impl MetaValue {
    /// A value with given bytes.
    pub fn new(value: SmallBlob) -> (meta: MetaValue)
        ensures
            meta.value == value,
    {
        MetaValue { value }
    }
}

impl Clone for MetaValue {
    fn clone(&self) -> (copy: MetaValue)
        ensures
            copy@ == self@,
    {
        MetaValue { value: self.value.clone() }
    }
}

/// State assigned to a seal.
#[allow(inconsistent_fields)]
#[derive(Clone, Debug, PartialEq, Eq)]
pub enum Assign<State, Seal> {
    /// The seal is known.
    Revealed { seal: Seal, state: State },
    /// Only a commitment to the seal is known.
    ConfidentialSeal { seal: SecretSeal, state: State },
}

impl<State, Seal> Assign<State, Seal> {
    /// The assigned state, whether or not the seal is known.
    pub open spec fn state(self) -> State {
        match self {
            Assign::Revealed { seal: _, state } => state,
            Assign::ConfidentialSeal { seal: _, state } => state,
        }
    }

    /// The assigned state, whether or not the seal is known.
    pub fn as_revealed_state(&self) -> (state: &State)
        ensures
            *state == self.state(),
    {
        match self {
            Assign::Revealed { seal: _, state } => state,
            Assign::ConfidentialSeal { seal: _, state } => state,
        }
    }
}

/// Assignments of one state type.
#[derive(Clone, Debug, PartialEq, Eq)]
pub struct AssignVec<A> {
    /// The assignments; never empty.
    pub items: NonEmptyVec<A>,
}

impl<A> View for AssignVec<A> {
    type V = Seq<A>;

    open spec fn view(&self) -> Seq<A> {
        self.items@
    }
}

impl<A> AssignVec<A> {
    /// The given assignments.
    pub fn with(items: NonEmptyVec<A>) -> (assigns: AssignVec<A>)
        ensures
            assigns.items == items,
    {
        AssignVec { items }
    }

    /// Number of assignments.
    pub fn len_u16(&self) -> (n: u16)
        ensures
            n == self@.len(),
            n >= 1,
    {
        self.items.as_unconfined().len() as u16
    }
}

/// Assignments of one type, by the kind of their state.
#[derive(Clone, Debug, PartialEq, Eq)]
pub enum TypedAssigns<Seal> {
    /// Rights.
    Declarative(AssignVec<Assign<VoidState, Seal>>),
    /// Amounts.
    Fungible(AssignVec<Assign<RevealedValue, Seal>>),
    /// Byte strings.
    Structured(AssignVec<Assign<RevealedData, Seal>>),
}

/// The states of all assignments of one type, in order, without their seals.
#[verifier::ext_equal]
pub ghost enum StateView {
    /// A number of rights.
    Rights(nat),
    /// Amounts.
    Amounts(Seq<u64>),
    /// Byte strings.
    Data(Seq<Seq<u8>>),
}

impl StateView {
    /// Number of assignments.
    pub open spec fn count(self) -> nat {
        match self {
            StateView::Rights(n) => n,
            StateView::Amounts(amounts) => amounts.len(),
            StateView::Data(items) => items.len(),
        }
    }
}

/// The sum of amounts.
pub open spec fn sum(amounts: Seq<u64>) -> nat
    decreases amounts.len(),
{
    if amounts.len() == 0 {
        0
    } else {
        sum(amounts.drop_last()) + amounts.last() as nat
    }
}

/// A longer prefix has no smaller sum.
proof fn lemma_sum_grows(amounts: Seq<u64>, i: int, j: int)
    requires
        0 <= i <= j <= amounts.len(),
    ensures
        sum(amounts.take(i)) <= sum(amounts.take(j)),
    decreases j - i,
{
    if i < j {
        lemma_sum_grows(amounts, i, j - 1);
        assert(amounts.take(j).drop_last() =~= amounts.take(j - 1));
    }
}

impl<Seal> View for TypedAssigns<Seal> {
    type V = StateView;

    open spec fn view(&self) -> StateView {
        match self {
            TypedAssigns::Declarative(assigns) => StateView::Rights(assigns@.len()),
            TypedAssigns::Fungible(assigns) => StateView::Amounts(
                assigns@.map_values(|assign: Assign<RevealedValue, Seal>| assign.state().0),
            ),
            TypedAssigns::Structured(assigns) => StateView::Data(
                assigns@.map_values(|assign: Assign<RevealedData, Seal>| assign.state()@),
            ),
        }
    }
}

impl<Seal> TypedAssigns<Seal> {
    /// Number of assignments.
    pub fn len_u16(&self) -> (n: u16)
        ensures
            n == self@.count(),
            n >= 1,
    {
        match self {
            TypedAssigns::Declarative(assigns) => assigns.len_u16(),
            TypedAssigns::Fungible(assigns) => assigns.len_u16(),
            TypedAssigns::Structured(assigns) => assigns.len_u16(),
        }
    }

    /// The structured state at a position. `None` if the state is not
    /// structured or the position is past the last assignment.
    pub fn as_structured_state_at(&self, index: u16) -> (data: Option<&RevealedData>)
        ensures
            data is Some == (self@ is Data && index < self@.count()),
            data matches Some(d) ==> d@ == self@->Data_0[index as int],
    {
        match self {
            TypedAssigns::Structured(assigns) => {
                let items = assigns.items.as_unconfined();
                if (index as usize) < items.len() {
                    Some(items[index as usize].as_revealed_state())
                } else {
                    None
                }
            },
            _ => None,
        }
    }

    /// The amount at a position. `None` if the state is not fungible or the
    /// position is past the last assignment.
    pub fn as_fungible_state_at(&self, index: u16) -> (amount: Option<u64>)
        ensures
            amount is Some == (self@ is Amounts && index < self@.count()),
            amount matches Some(a) ==> a == self@->Amounts_0[index as int],
    {
        match self {
            TypedAssigns::Fungible(assigns) => {
                let items = assigns.items.as_unconfined();
                if (index as usize) < items.len() {
                    Some(items[index as usize].as_revealed_state().0)
                } else {
                    None
                }
            },
            _ => None,
        }
    }

    /// The sum of the amounts. `None` if the state is not fungible or the sum
    /// does not fit 64 bits.
    pub fn checked_sum(&self) -> (total: Option<u64>)
        ensures
            total is Some == (self@ is Amounts && sum(self@->Amounts_0) <= u64::MAX),
            total matches Some(t) ==> t == sum(self@->Amounts_0),
    {
        match self {
            TypedAssigns::Fungible(assigns) => {
                let items = assigns.items.as_unconfined();
                let ghost amounts = self@->Amounts_0;
                let mut total: u64 = 0;
                let mut i: usize = 0;
                while i < items.len()
                    invariant
                        i <= items@.len(),
                        amounts.len() == items@.len(),
                        forall|k: int|
                            0 <= k < items@.len() ==> amounts[k] == (#[trigger] items@[k]).state().0,
                        self@ == StateView::Amounts(amounts),
                        total == sum(amounts.take(i as int)),
                    decreases items@.len() - i,
                {
                    let amount: u64 = items[i].as_revealed_state().0;
                    proof {
                        assert(amounts.take(i + 1).drop_last() =~= amounts.take(i as int));
                        lemma_sum_grows(amounts, i + 1, amounts.len() as int);
                        assert(amounts.take(amounts.len() as int) =~= amounts);
                    }
                    total = match total.checked_add(amount) {
                        Some(total) => total,
                        None => return None,
                    };
                    i = i + 1;
                }
                proof {
                    assert(amounts.take(i as int) =~= amounts);
                }
                Some(total)
            },
            _ => None,
        }
    }

    /// Whether some amount is zero; never so for state that is not fungible.
    pub fn has_zero_amount(&self) -> (found: bool)
        ensures
            found == (self@ is Amounts && self@->Amounts_0.contains(0u64)),
    {
        match self {
            TypedAssigns::Fungible(assigns) => {
                let items = assigns.items.as_unconfined();
                let ghost amounts = self@->Amounts_0;
                let mut i: usize = 0;
                while i < items.len()
                    invariant
                        i <= items@.len(),
                        amounts.len() == items@.len(),
                        forall|k: int|
                            0 <= k < items@.len() ==> amounts[k] == (#[trigger] items@[k]).state().0,
                        self@ == StateView::Amounts(amounts),
                        forall|k: int| 0 <= k < i ==> amounts[k] != 0,
                    decreases items@.len() - i,
                {
                    if items[i].as_revealed_state().0 == 0 {
                        assert(amounts[i as int] == 0);
                        return true;
                    }
                    i = i + 1;
                }
                false
            },
            _ => false,
        }
    }
}

/// The total of the amounts of a state type. A type without assignments has
/// the total zero. `None` if the state is of another kind or the total does not
/// fit 64 bits.
pub open spec fn total(state: Option<StateView>) -> Option<u64> {
    match state {
        None => Some(0),
        Some(StateView::Amounts(amounts)) => if sum(amounts) <= u64::MAX {
            Some(sum(amounts) as u64)
        } else {
            None
        },
        Some(_) => None,
    }
}

/// Owned state of an operation, by type.
#[derive(Debug, PartialEq, Eq)]
pub struct Assignments<Seal> {
    /// Assignments of every type that has some.
    pub map: SmallOrdMap<TypedAssigns<Seal>>,
}

impl<Seal> View for Assignments<Seal> {
    type V = Map<u16, TypedAssigns<Seal>>;

    open spec fn view(&self) -> Map<u16, TypedAssigns<Seal>> {
        self.map@
    }
}

impl<Seal> Assignments<Seal> {
    /// The states of a type without their seals; `None` if there are none.
    pub open spec fn states(&self, ty: AssignmentType) -> Option<StateView> {
        if self@.contains_key(ty.0) {
            Some(self@[ty.0]@)
        } else {
            None
        }
    }

    /// Owned state held in a map.
    pub fn from_inner(map: SmallOrdMap<TypedAssigns<Seal>>) -> (assignments: Assignments<Seal>)
        ensures
            assignments.map == map,
    {
        Assignments { map }
    }

    /// The assignments of a type.
    pub fn get(&self, ty: AssignmentType) -> (assigns: Option<&TypedAssigns<Seal>>)
        ensures
            assigns == (if self@.contains_key(ty.0) {
                Some(&self@[ty.0])
            } else {
                None
            }),
    {
        self.map.get(ty.0)
    }

    /// The total of the amounts of a type.
    pub fn checked_total(&self, ty: AssignmentType) -> (sum: Option<u64>)
        ensures
            sum == total(self.states(ty)),
    {
        match self.get(ty) {
            None => Some(0),
            Some(assigns) => assigns.checked_sum(),
        }
    }

    /// Whether some amount of a type is zero.
    pub fn has_zero_amount(&self, ty: AssignmentType) -> (found: bool)
        ensures
            found == (self.states(ty) matches Some(StateView::Amounts(amounts))
                && amounts.contains(0u64)),
    {
        match self.get(ty) {
            None => false,
            Some(assigns) => assigns.has_zero_amount(),
        }
    }

    /// Sets the assignments of a type and returns those that it had. Fails,
    /// and changes nothing, if there is no room for another type.
    pub fn insert(&mut self, ty: AssignmentType, assigns: TypedAssigns<Seal>) -> (r: Result<
        Option<TypedAssigns<Seal>>,
        ConfinementError,
    >)
        ensures
            old(self)@.len() <= U16,
            r is Ok == (old(self)@.len() < U16),
            r matches Ok(before) ==> before == old(self)@.get(ty.0) && final(self)@ == old(
                self,
            )@.insert(ty.0, assigns),
            r matches Err(e) ==> final(self)@ == old(self)@ && e == misfit(U16 as nat + 1, 0, U16),
    {
        self.map.insert(ty.0, assigns)
    }
}

impl<Seal> Default for Assignments<Seal> {
    fn default() -> (assignments: Assignments<Seal>)
        ensures
            assignments@ == Map::<u16, TypedAssigns<Seal>>::empty(),
    {
        Assignments { map: SmallOrdMap::new() }
    }
}

impl<Seal: Clone> Clone for Assignments<Seal> {
    fn clone(&self) -> (copy: Assignments<Seal>)
        ensures
            copy@ == self@,
    {
        Assignments { map: self.map.clone() }
    }
}

/// Global state of an operation, by type. The number of values of a type is
/// bounded; that of types is not, beyond what their numbers allow.
#[derive(Debug, PartialEq, Eq)]
pub struct GlobalState {
    entries: BTreeMap<u16, NonEmptyVec<RevealedData>>,
}

impl View for GlobalState {
    type V = Map<u16, Seq<Seq<u8>>>;

    closed spec fn view(&self) -> Map<u16, Seq<Seq<u8>>> {
        self.entries@.map_values(|items: NonEmptyVec<RevealedData>| bytes_of(items@))
    }
}

impl GlobalState {
    /// What adding `bytes` to the state of a type leads to.
    pub open spec fn with_state(
        state: Map<u16, Seq<Seq<u8>>>,
        ty: u16,
        bytes: Seq<u8>,
    ) -> Map<u16, Seq<Seq<u8>>> {
        if state.contains_key(ty) {
            state.insert(ty, state[ty].push(bytes))
        } else {
            state.insert(ty, seq![bytes])
        }
    }

    /// Whether a type can take another value.
    pub open spec fn has_room(state: Map<u16, Seq<Seq<u8>>>, ty: u16) -> bool {
        state.contains_key(ty) ==> state[ty].len() < U16
    }

    /// Adds a value behind those that its type already has. Fails, and changes
    /// nothing, if the type has as many values as it can have.
    pub fn add_state(&mut self, ty: GlobalStateType, state: RevealedData) -> (r: Result<
        (),
        ConfinementError,
    >)
        ensures
            r is Ok == GlobalState::has_room(old(self)@, ty.0),
            r is Ok ==> final(self)@ == GlobalState::with_state(old(self)@, ty.0, state@),
            r matches Err(e) ==> final(self)@ == old(self)@ && e == misfit(U16 as nat + 1, 1, U16),
    {
        let (items, added) = match self.entries.remove(&ty.0) {
            None => {
                let items = NonEmptyVec::with(state);
                proof {
                    assert(bytes_of(items@) =~= seq![state@]);
                }
                (items, Ok(()))
            },
            Some(held) => {
                let (items, pushed) = held.push(state);
                proof {
                    if pushed is Ok {
                        assert(bytes_of(items@) =~= bytes_of(held@).push(state@));
                    } else {
                        assert(bytes_of(items@) =~= bytes_of(held@));
                    }
                }
                (items, pushed)
            },
        };
        self.entries.insert(ty.0, items);
        proof {
            if added is Ok {
                assert(self@ =~= GlobalState::with_state(old(self)@, ty.0, state@));
            } else {
                assert(self@ =~= old(self)@);
            }
        }
        added
    }

    /// The values of a type.
    pub fn get(&self, ty: GlobalStateType) -> (items: Option<&Vec<RevealedData>>)
        ensures
            items is Some == self@.contains_key(ty.0),
            items matches Some(items) ==> bytes_of(items@) == self@[ty.0] && 1 <= items@.len()
                <= U16,
    {
        match self.entries.get(&ty.0) {
            Some(items) => Some(items.as_unconfined()),
            None => None,
        }
    }
}

impl Default for GlobalState {
    fn default() -> (state: GlobalState)
        ensures
            state@ == Map::<u16, Seq<Seq<u8>>>::empty(),
    {
        let state = GlobalState { entries: BTreeMap::new() };
        proof {
            assert(state@ =~= Map::<u16, Seq<Seq<u8>>>::empty());
        }
        state
    }
}

impl Clone for GlobalState {
    fn clone(&self) -> (copy: GlobalState)
        ensures
            copy@ == self@,
    {
        GlobalState { entries: self.entries.clone() }
    }
}

/// Metadata of an operation, by type. The bound on the number of types is that
/// of a small map.
#[derive(Debug, PartialEq, Eq)]
pub struct Metadata {
    map: SmallOrdMap<MetaValue>,
}

impl View for Metadata {
    type V = Map<u16, Seq<u8>>;

    closed spec fn view(&self) -> Map<u16, Seq<u8>> {
        self.map@.map_values(|meta: MetaValue| meta@)
    }
}

impl Metadata {
    /// Sets the value of a type and returns the one that it had. Fails, and
    /// changes nothing, if there is no room for another type.
    pub fn insert(&mut self, ty: MetaType, value: MetaValue) -> (r: Result<
        Option<MetaValue>,
        ConfinementError,
    >)
        ensures
            r is Ok == (old(self)@.len() < U16),
            r matches Ok(before) ==> final(self)@ == old(self)@.insert(ty.0, value@),
            r matches Ok(before) ==> (before is Some == old(self)@.contains_key(ty.0)),
            r matches Ok(Some(before)) ==> before@ == old(self)@[ty.0],
            r matches Err(e) ==> final(self)@ == old(self)@ && e == misfit(U16 as nat + 1, 0, U16),
    {
        proof {
            assert(self.map@.dom() =~= self@.dom());
        }
        let r = self.map.insert(ty.0, value);
        proof {
            if r is Ok {
                assert(self@ =~= old(self)@.insert(ty.0, value@));
            }
        }
        r
    }

    /// The value of a type.
    pub fn get(&self, ty: MetaType) -> (meta: Option<&MetaValue>)
        ensures
            meta is Some == self@.contains_key(ty.0),
            meta matches Some(meta) ==> meta@ == self@[ty.0],
    {
        self.map.get(ty.0)
    }
}

impl Default for Metadata {
    fn default() -> (metadata: Metadata)
        ensures
            metadata@ == Map::<u16, Seq<u8>>::empty(),
    {
        let metadata = Metadata { map: SmallOrdMap::new() };
        proof {
            assert(metadata@ =~= Map::<u16, Seq<u8>>::empty());
        }
        metadata
    }
}

impl Clone for Metadata {
    fn clone(&self) -> (copy: Metadata)
        ensures
            copy@ == self@,
    {
        Metadata { map: self.map.clone() }
    }
}

/// The sum of amounts is what adding them one after the other to zero gives.
pub proof fn law_sum_is_fold(amounts: Seq<u64>, plus: spec_fn(int, u64) -> int)
    requires
        forall|acc: int, amount: u64| #[trigger] plus(acc, amount) == acc + amount,
    ensures
        sum(amounts) == amounts.fold_left(0int, plus),
    decreases amounts.len(),
{
    if amounts.len() > 0 {
        law_sum_is_fold(amounts.drop_last(), plus);
    }
}

/// The total of a type is the sum of its amounts if that fits 64 bits, zero for
/// a type without state, and nothing for state of another kind.
pub proof fn law_total(amounts: Seq<u64>, count: nat, items: Seq<Seq<u8>>)
    ensures
        ({
            let all = amounts.fold_left(0int, |acc: int, amount: u64| acc + amount);
            let sides = total(Some(StateView::Amounts(amounts)));
            &&& sides is Some == (all <= u64::MAX)
            &&& sides matches Some(n) ==> n == all
        }),
        total(None) == Some(0u64),
        total(Some(StateView::Rights(count))) is None,
        total(Some(StateView::Data(items))) is None,
{
    law_sum_is_fold(amounts, |acc: int, amount: u64| acc + amount);
}

/// Every kind of state has as many states as assignments.
pub proof fn law_count(n: nat, amounts: Seq<u64>, items: Seq<Seq<u8>>)
    ensures
        StateView::Rights(n).count() == n,
        StateView::Amounts(amounts).count() == amounts.len(),
        StateView::Data(items).count() == items.len(),
{
}

/// The states of a type are those of its assignments, one for one and in order,
/// whether or not their seals are known; a type without assignments has none.
pub proof fn law_states<Seal>(assignments: Assignments<Seal>, ty: AssignmentType)
    ensures
        !assignments.map@.contains_key(ty.0) ==> assignments.states(ty) is None,
        assignments.map@.contains_key(ty.0) ==> match assignments.map@[ty.0] {
            TypedAssigns::Declarative(held) => assignments.states(ty) == Some(
                StateView::Rights(held.items@.len()),
            ),
            TypedAssigns::Fungible(held) => {
                &&& assignments.states(ty) matches Some(StateView::Amounts(amounts))
                &&& amounts.len() == held.items@.len()
                &&& forall|i: int|
                    0 <= i < amounts.len() ==> #[trigger] amounts[i] == match held.items@[i] {
                        Assign::Revealed { seal: _, state } => state.0,
                        Assign::ConfidentialSeal { seal: _, state } => state.0,
                    }
            },
            TypedAssigns::Structured(held) => {
                &&& assignments.states(ty) matches Some(StateView::Data(items))
                &&& items.len() == held.items@.len()
                &&& forall|i: int|
                    0 <= i < items.len() ==> #[trigger] items[i] == match held.items@[i] {
                        Assign::Revealed { seal: _, state } => blob_bytes(state.value),
                        Assign::ConfidentialSeal { seal: _, state } => blob_bytes(state.value),
                    }
            },
        },
{
}

/// The bytes of items are those of each item, in order; the bytes of an item or
/// of a metadata value are those of the byte string that it holds.
pub proof fn law_bytes(items: Seq<RevealedData>, meta: MetaValue)
    ensures
        bytes_of(items).len() == items.len(),
        forall|i: int|
            0 <= i < items.len() ==> #[trigger] bytes_of(items)[i] == blob_bytes(items[i].value),
        meta@ == blob_bytes(meta.value),
{
}

/// Adding a value to global state puts it behind the values that its type has,
/// and leaves every other type alone. There is room for it exactly if the type
/// has fewer than 65535 values.
pub proof fn law_global_state_grows(state: Map<u16, Seq<Seq<u8>>>, ty: u16, bytes: Seq<u8>)
    ensures
        ({
            let after = GlobalState::with_state(state, ty, bytes);
            let before = if state.contains_key(ty) {
                state[ty].len()
            } else {
                0
            };
            &&& after.remove(ty) == state.remove(ty)
            &&& after.contains_key(ty)
            &&& after[ty].len() == before + 1
            &&& after[ty][before as int] == bytes
            &&& state.contains_key(ty) ==> after[ty].take(before as int) == state[ty]
            &&& GlobalState::has_room(state, ty) == (before < 65535)
        }),
{
}

/// The state of an assignment is the one that stands in it, whether or not the
/// seal is known.
pub proof fn law_assigned_state<State, Seal>(seal: Seal, secret: SecretSeal, held: State)
    ensures
        (Assign::Revealed { seal, state: held }).state() == held,
        (Assign::<State, Seal>::ConfidentialSeal { seal: secret, state: held }).state() == held,
{
}

} // verus!
