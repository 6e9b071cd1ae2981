//! Contract state as contract operations see it.
use crate::state::{bytes_of, FungibleState, RevealedData};
use crate::types::{AssignmentType, GlobalStateType, OpId, Outpoint};
use amplify::num::u24;
use std::collections::BTreeMap;
use vstd::prelude::*;

verus! {

/// Largest 24-bit number.
pub const U24_MAX: u32 = 0xFF_FFFF;

/// `u24::try_from` of `amplify`: a number that fits 24 bits comes back, any
/// other is refused.
#[verifier::external_body]
pub(crate) fn try_u24(value: u32) -> (r: Option<u32>)
    ensures
        r == (if value <= U24_MAX {
            Some(value)
        } else {
            None
        }),
{
    u24::try_from(value).ok().map(|value| value.to_u32())
}

/// Height and time of the block that holds a witness transaction.
#[derive(Clone, Copy, Debug, PartialEq, Eq, Structural)]
pub struct WitnessPos {
    /// Height of the block.
    pub height: u32,
    /// Time of the block in seconds.
    pub timestamp: i64,
}

impl WitnessPos {
    /// Whether the height is one that a mined witness can have: not zero.
    pub open spec fn is_mined(&self) -> bool {
        self.height != 0
    }
}

/// How a witness transaction is ordered.
#[derive(Clone, Copy, Debug, PartialEq, Eq, Structural)]
pub enum WitnessOrd {
    /// By its place in the chain.
    Mined(WitnessPos),
}

/// The operation that a global state item comes from.
#[derive(Clone, Copy, Debug, PartialEq, Eq)]
pub enum OpOrd {
    /// The genesis.
    Genesis,
    /// A state transition with its witness.
    Transition { witness: WitnessOrd, op: OpId },
}

/// Place of a global state item in the history of a contract.
#[derive(Clone, Copy, Debug, PartialEq, Eq)]
pub struct GlobalOrd {
    /// The operation that the item comes from.
    pub op_ord: OpOrd,
    /// Number of the item within the operation.
    pub idx: u16,
}

impl GlobalOrd {
    /// Place of an item of the genesis.
    pub fn genesis(idx: u16) -> (ord: GlobalOrd)
        ensures
            ord == (GlobalOrd { op_ord: OpOrd::Genesis, idx }),
    {
        GlobalOrd { op_ord: OpOrd::Genesis, idx }
    }
}

/// An item of global state and its place in the history.
pub type GlobalItem = (GlobalOrd, RevealedData);

/// Where a walk over a history stands.
#[verifier::ext_equal]
pub ghost struct Cursor {
    /// The whole history.
    pub items: Seq<GlobalItem>,
    /// Number of items that were passed.
    pub pos: nat,
    /// The item that was passed last; `None` at the start and past the end.
    pub last: Option<GlobalItem>,
}

impl Cursor {
    /// The start of a history.
    pub open spec fn start(items: Seq<GlobalItem>) -> Cursor {
        Cursor { items, pos: 0, last: None }
    }

    /// After the next item was passed, or past the end if there is none.
    pub open spec fn next(self) -> Cursor {
        if self.pos < self.items.len() {
            Cursor { pos: self.pos + 1, last: Some(self.items[self.pos as int]), ..self }
        } else {
            Cursor { last: None, ..self }
        }
    }

    /// After the item at a depth was passed; the first item has depth 1. Past
    /// the end if the history is shorter.
    pub open spec fn at(self, depth: nat) -> Cursor {
        if depth <= self.items.len() {
            Cursor { pos: depth, last: Some(self.items[depth - 1]), ..self }
        } else {
            Cursor { pos: self.items.len(), last: None, ..self }
        }
    }

    /// After a number of steps.
    pub open spec fn walk(self, steps: nat) -> Cursor
        decreases steps,
    {
        if steps == 0 {
            self
        } else {
            self.walk((steps - 1) as nat).next()
        }
    }
}

/// Walks over the history of a global state type.
pub struct MockGlobalStateIter<'a> {
    data: &'a [GlobalItem],
    current_pos: usize,
    last_item_cache: Option<(GlobalOrd, &'a RevealedData)>,
    total_size: usize,
}

impl<'a> View for MockGlobalStateIter<'a> {
    type V = Cursor;

    closed spec fn view(&self) -> Cursor {
        Cursor {
            items: self.data@,
            pos: self.current_pos as nat,
            last: match self.last_item_cache {
                Some((ord, data)) => Some((ord, *data)),
                None => None,
            },
        }
    }
}

/// The place and the data of an item that may not exist.
pub open spec fn item_of(item: Option<(GlobalOrd, &RevealedData)>) -> Option<GlobalItem> {
    match item {
        Some((ord, data)) => Some((ord, *data)),
        None => None,
    }
}

impl<'a> MockGlobalStateIter<'a> {
    #[verifier::type_invariant]
    spec fn coherent(self) -> bool {
        &&& self.total_size == self.data@.len()
        &&& self.current_pos <= self.total_size
        &&& match self.last_item_cache {
            Some((ord, data)) => self.current_pos > 0 && self.data@[self.current_pos - 1] == (
                ord,
                *data,
            ),
            None => self.current_pos == 0 || self.current_pos == self.total_size,
        }
    }

    /// An iterator at the start of a history.
    pub fn new(initial_data: &'a Vec<GlobalItem>) -> (iter: Self)
        ensures
            iter@ == Cursor::start(initial_data@),
    {
        MockGlobalStateIter {
            data: initial_data.as_slice(),
            current_pos: 0,
            last_item_cache: None,
            total_size: initial_data.len(),
        }
    }

    /// An iterator over an empty history.
    pub fn empty() -> (iter: Self)
        ensures
            iter@ == Cursor::start(Seq::empty()),
    {
        let data: &'a [GlobalItem] = &[];
        assert(data@ =~= Seq::<GlobalItem>::empty());
        MockGlobalStateIter { data, current_pos: 0, last_item_cache: None, total_size: 0 }
    }

    /// Number of items in the history, which must fit 24 bits.
    pub fn size(&mut self) -> (n: u32)
        requires
            old(self)@.items.len() <= U24_MAX,
        ensures
            n == old(self)@.items.len(),
            final(self)@ == old(self)@,
    {
        proof {
            use_type_invariant(&*self);
        }
        try_u24(self.total_size as u32).unwrap()
    }

    /// Passes the next item and returns it; `None` past the end.
    pub fn prev(&mut self) -> (item: Option<(GlobalOrd, &'a RevealedData)>)
        ensures
            final(self)@ == old(self)@.next(),
            item_of(item) == old(self)@.next().last,
    {
        proof {
            use_type_invariant(&*self);
        }
        if self.current_pos < self.total_size {
            let entry: &'a GlobalItem = &self.data[self.current_pos];
            let item: (GlobalOrd, &'a RevealedData) = (entry.0, &entry.1);
            *self = MockGlobalStateIter {
                data: self.data,
                current_pos: self.current_pos + 1,
                last_item_cache: Some(item),
                total_size: self.total_size,
            };
            Some(item)
        } else {
            self.last_item_cache = None;
            None
        }
    }

    /// The item that was passed last; `None` at the start and past the end.
    pub fn last(&mut self) -> (item: Option<(GlobalOrd, &'a RevealedData)>)
        ensures
            final(self)@ == old(self)@,
            item_of(item) == old(self)@.last,
    {
        self.last_item_cache
    }

    /// Goes to a depth: the item there is the one passed last. Goes past the
    /// end if the history is shorter than that.
    pub fn reset(&mut self, depth_1based: u32)
        requires
            depth_1based != 0,
        ensures
            final(self)@ == old(self)@.at(depth_1based as nat),
    {
        proof {
            use_type_invariant(&*self);
        }
        let target: usize = depth_1based as usize - 1;
        if target < self.total_size {
            let entry: &'a GlobalItem = &self.data[target];
            *self = MockGlobalStateIter {
                data: self.data,
                current_pos: target + 1,
                last_item_cache: Some((entry.0, &entry.1)),
                total_size: self.total_size,
            };
        } else {
            *self = MockGlobalStateIter {
                data: self.data,
                current_pos: self.total_size,
                last_item_cache: None,
                total_size: self.total_size,
            };
        }
    }
}

/// After going to a depth, the next item is the one behind the item there, if
/// the history has one.
pub proof fn lemma_next_after_reset(cursor: Cursor, depth: nat)
    requires
        1 <= depth,
    ensures
        depth < cursor.items.len() ==> cursor.at(depth).next().last == Some(
            cursor.items[depth as int],
        ),
        depth >= cursor.items.len() ==> cursor.at(depth).next().last is None,
        depth < cursor.items.len() ==> cursor.at(depth).next() == cursor.at(depth + 1),
{
}

/// Going to a depth does not depend on where the walk stood before.
pub proof fn lemma_reset_forgets(a: Cursor, b: Cursor, depth: nat)
    requires
        a.items == b.items,
        1 <= depth,
    ensures
        a.at(depth) == b.at(depth),
{
}

/// Walking from the start leads to the same place as going to the depth of the
/// last item that was passed. A walk of more steps than there are items ends
/// past the end.
pub proof fn lemma_walk_is_reset(items: Seq<GlobalItem>, steps: nat)
    requires
        1 <= steps,
    ensures
        Cursor::start(items).walk(steps) == Cursor::start(items).at(steps),
    decreases steps,
{
    let start = Cursor::start(items);
    if steps == 1 {
        assert(start.walk(0) == start);
    } else {
        lemma_walk_is_reset(items, (steps - 1) as nat);
    }
    assert(start.walk(steps) =~= start.at(steps));
}

/// The history of a global state type, looked up by depth.
pub struct GlobalContractState<'a> {
    iter: MockGlobalStateIter<'a>,
}

impl<'a> GlobalContractState<'a> {
    /// Where the walk over the history stands.
    pub closed spec fn cursor(&self) -> Cursor {
        self.iter@
    }

    /// The history that an iterator walks over, from where the iterator stands.
    pub fn new(iter: MockGlobalStateIter<'a>) -> (state: Self)
        ensures
            state.cursor() == iter@,
    {
        GlobalContractState { iter }
    }

    /// Number of items in the history, which must fit 24 bits.
    pub fn size(&mut self) -> (n: u32)
        requires
            old(self).cursor().items.len() <= U24_MAX,
        ensures
            n == old(self).cursor().items.len(),
            final(self).cursor() == old(self).cursor(),
    {
        self.iter.size()
    }

    /// The data of the item at a depth, which the walk then stands at. `None`,
    /// and the walk stays where it was, if the history is shorter.
    pub fn nth(&mut self, depth: u32) -> (data: Option<&'a RevealedData>)
        requires
            depth != 0,
            old(self).cursor().items.len() <= U24_MAX,
        ensures
            data is Some == (depth <= old(self).cursor().items.len()),
            data matches Some(data) ==> *data == old(self).cursor().items[depth - 1].1,
            final(self).cursor() == (if depth <= old(self).cursor().items.len() {
                old(self).cursor().at(depth as nat)
            } else {
                old(self).cursor()
            }),
    {
        if depth > self.iter.size() {
            return None;
        }
        self.iter.reset(depth);
        match self.iter.last() {
            Some((_, data)) => Some(data),
            None => None,
        }
    }
}

/// A global state type that the contract does not know.
#[derive(Clone, Copy, Debug, PartialEq, Eq, Structural)]
pub struct UnknownGlobalStateType(pub GlobalStateType);

/// Key under which owned state is kept: the halves of the transaction id, the
/// number of the output and the number of the state type.
pub type OwnedKey = (u128, u128, u32, u16);

/// The key of owned state of a type on an output.
pub open spec fn owned_key(outpoint: Outpoint, ty: AssignmentType) -> OwnedKey {
    (outpoint.txid.hi, outpoint.txid.lo, outpoint.vout, ty.0)
}

/// Contract state held in memory.
#[derive(Clone, Debug, PartialEq, Eq)]
pub struct MockContractState {
    /// History of every global state type.
    pub global_data: BTreeMap<u16, Vec<GlobalItem>>,
    /// Number of rights on every output.
    pub rights_data: BTreeMap<OwnedKey, u32>,
    /// Amounts on every output.
    pub fungible_data: BTreeMap<OwnedKey, Vec<FungibleState>>,
    /// Structured state on every output.
    pub structured_data: BTreeMap<OwnedKey, Vec<RevealedData>>,
    /// Whether every global state type counts as unknown.
    pub fail_global_access: bool,
}

impl Default for MockContractState {
    fn default() -> (state: MockContractState)
        ensures
            state.is_empty(),
    {
        MockContractState {
            global_data: BTreeMap::new(),
            rights_data: BTreeMap::new(),
            fungible_data: BTreeMap::new(),
            structured_data: BTreeMap::new(),
            fail_global_access: false,
        }
    }
}

impl MockContractState {
    /// Whether there is no state at all, and none is inaccessible.
    pub open spec fn is_empty(&self) -> bool {
        &&& self.global_data@ == Map::<u16, Vec<GlobalItem>>::empty()
        &&& self.rights_data@ == Map::<OwnedKey, u32>::empty()
        &&& self.fungible_data@ == Map::<OwnedKey, Vec<FungibleState>>::empty()
        &&& self.structured_data@ == Map::<OwnedKey, Vec<RevealedData>>::empty()
        &&& !self.fail_global_access
    }

    /// History of a global state type; empty for a type without one.
    pub open spec fn history(&self, ty: GlobalStateType) -> Seq<GlobalItem> {
        if self.global_data@.contains_key(ty.0) {
            self.global_data@[ty.0]@
        } else {
            Seq::empty()
        }
    }

    /// The key of owned state of a type on an output.
    pub fn key(outpoint: Outpoint, ty: AssignmentType) -> (key: OwnedKey)
        ensures
            key == owned_key(outpoint, ty),
    {
        (outpoint.txid.hi, outpoint.txid.lo, outpoint.vout, ty.0)
    }

    /// History of a global state type, at its start. Fails if global state is
    /// inaccessible.
    pub fn global(&self, ty: GlobalStateType) -> (r: Result<
        GlobalContractState<'_>,
        UnknownGlobalStateType,
    >)
        ensures
            r is Err == self.fail_global_access,
            r matches Err(e) ==> e == UnknownGlobalStateType(ty),
            r matches Ok(state) ==> state.cursor() == Cursor::start(self.history(ty)),
    {
        if self.fail_global_access {
            return Err(UnknownGlobalStateType(ty));
        }
        let iter = match self.global_data.get(&ty.0) {
            Some(data) => MockGlobalStateIter::new(data),
            None => MockGlobalStateIter::empty(),
        };
        Ok(GlobalContractState::new(iter))
    }

    /// Number of rights of a type on an output.
    pub fn rights(&self, outpoint: Outpoint, ty: AssignmentType) -> (n: u32)
        ensures
            n == (if self.rights_data@.contains_key(owned_key(outpoint, ty)) {
                self.rights_data@[owned_key(outpoint, ty)]
            } else {
                0
            }),
    {
        match self.rights_data.get(&MockContractState::key(outpoint, ty)) {
            Some(n) => *n,
            None => 0,
        }
    }

    /// Amounts of a type on an output, in order.
    pub fn fungible(&self, outpoint: Outpoint, ty: AssignmentType) -> (amounts: Vec<FungibleState>)
        ensures
            amounts@ == (if self.fungible_data@.contains_key(owned_key(outpoint, ty)) {
                self.fungible_data@[owned_key(outpoint, ty)]@
            } else {
                Seq::empty()
            }),
    {
        match self.fungible_data.get(&MockContractState::key(outpoint, ty)) {
            Some(held) => {
                let amounts: Vec<FungibleState> = held.clone();
                assert(amounts@ =~= held@);
                amounts
            },
            None => Vec::new(),
        }
    }

    /// Structured state of a type on an output, in order.
    pub fn data(&self, outpoint: Outpoint, ty: AssignmentType) -> (items: Vec<RevealedData>)
        ensures
            bytes_of(items@) == (if self.structured_data@.contains_key(owned_key(outpoint, ty)) {
                bytes_of(self.structured_data@[owned_key(outpoint, ty)]@)
            } else {
                Seq::empty()
            }),
    {
        match self.structured_data.get(&MockContractState::key(outpoint, ty)) {
            Some(held) => {
                let items: Vec<RevealedData> = held.clone();
                assert(bytes_of(items@) =~= bytes_of(held@));
                items
            },
            None => {
                let items: Vec<RevealedData> = Vec::new();
                assert(bytes_of(items@) =~= Seq::empty());
                items
            },
        }
    }
}

/// A walk starts before the first item. Each step passes exactly one item, the
/// one behind those that were passed, and past the end it stays there with no
/// last item. The history never changes.
pub proof fn law_step(cursor: Cursor, items: Seq<GlobalItem>)
    ensures
        Cursor::start(items).items == items,
        Cursor::start(items).pos == 0,
        Cursor::start(items).last is None,
        cursor.next().items == cursor.items,
        cursor.pos < cursor.items.len() ==> {
            &&& cursor.next().pos == cursor.pos + 1
            &&& cursor.next().last == Some(cursor.items[cursor.pos as int])
        },
        cursor.pos >= cursor.items.len() ==> {
            &&& cursor.next().pos == cursor.pos
            &&& cursor.next().last is None
        },
        cursor.walk(0) == cursor,
        cursor.walk(1) == cursor.next(),
{
    reveal_with_fuel(Cursor::walk, 2);
}

/// Going to a depth that the history has makes the item there, counted from
/// one, the last item, with as many items passed as the depth says. A depth
/// beyond the history passes all items and leaves no last one.
pub proof fn law_depth(cursor: Cursor, depth: nat)
    requires
        1 <= depth,
    ensures
        cursor.at(depth).items == cursor.items,
        depth <= cursor.items.len() ==> {
            &&& cursor.at(depth).pos == depth
            &&& cursor.at(depth).last == Some(cursor.items[depth - 1])
        },
        depth > cursor.items.len() ==> {
            &&& cursor.at(depth).pos == cursor.items.len()
            &&& cursor.at(depth).last is None
        },
{
}

/// An item that is handed out has the place and the data of the item in the
/// history.
pub proof fn law_item(ord: GlobalOrd, data: &RevealedData)
    ensures
        item_of(Some((ord, data))) == Some((ord, *data)),
        item_of(None) is None,
{
}

/// Owned state is kept apart by transaction, output and type: different places
/// have different keys.
pub proof fn law_owned_keys_differ(
    a: Outpoint,
    a_ty: AssignmentType,
    b: Outpoint,
    b_ty: AssignmentType,
)
    ensures
        (owned_key(a, a_ty) == owned_key(b, b_ty)) == (a == b && a_ty == b_ty),
        owned_key(a, a_ty).0 == a.txid.hi,
        owned_key(a, a_ty).1 == a.txid.lo,
        owned_key(a, a_ty).2 == a.vout,
        owned_key(a, a_ty).3 == a_ty.0,
{
}

/// The history of a type is what is kept for it, whole and in order; a type for
/// which nothing is kept has no items.
pub proof fn law_history(state: MockContractState, ty: GlobalStateType)
    ensures
        state.global_data@.contains_key(ty.0) ==> state.history(ty) == state.global_data@[ty.0]@,
        !state.global_data@.contains_key(ty.0) ==> state.history(ty).len() == 0,
{
}

/// An empty state has no entry of any kind, and its global state is accessible.
pub proof fn law_empty_state(state: MockContractState)
    requires
        state.is_empty(),
    ensures
        forall|ty: u16| !state.global_data@.contains_key(ty),
        forall|key: OwnedKey| !state.rights_data@.contains_key(key),
        forall|key: OwnedKey| !state.fungible_data@.contains_key(key),
        forall|key: OwnedKey| !state.structured_data@.contains_key(key),
        !state.fail_global_access,
{
}

/// A mined witness has a height above zero.
pub proof fn law_mined(pos: WitnessPos)
    ensures
        pos.is_mined() == (pos.height > 0),
{
}

} // verus!
