//! Identifiers, type numbers and seals.
use vstd::arithmetic::power::pow;
use vstd::prelude::*;

verus! {

/// Number of an owned state type in a contract schema.
#[derive(Clone, Copy, Debug, PartialEq, Eq, Structural)]
pub struct AssignmentType(pub u16);

impl AssignmentType {
    /// The type with a given number.
    pub fn with(number: u16) -> (ty: AssignmentType)
        ensures
            ty == AssignmentType(number),
    {
        AssignmentType(number)
    }
}

/// Number of a global state type in a contract schema.
#[derive(Clone, Copy, Debug, PartialEq, Eq, Structural)]
pub struct GlobalStateType(pub u16);

impl GlobalStateType {
    /// The type with a given number.
    pub fn with(number: u16) -> (ty: GlobalStateType)
        ensures
            ty == GlobalStateType(number),
    {
        GlobalStateType(number)
    }
}

/// Number of a metadata type in a contract schema.
#[derive(Clone, Copy, Debug, PartialEq, Eq, Structural)]
pub struct MetaType(pub u16);

impl MetaType {
    /// The type with a given number.
    pub fn with(number: u16) -> (ty: MetaType)
        ensures
            ty == MetaType(number),
    {
        MetaType(number)
    }
}

/// Number of a state transition type in a contract schema.
#[derive(Clone, Copy, Debug, PartialEq, Eq, Structural)]
pub struct TransitionType(pub u16);

impl TransitionType {
    /// A placeholder value.
    pub fn strict_dumb() -> (ty: TransitionType)
        ensures
            ty == TransitionType(0),
    {
        TransitionType(0)
    }
}

/// Fast-forward version of an operation.
#[derive(Clone, Copy, Debug, PartialEq, Eq, Structural)]
pub struct Ffv(pub u16);

impl Default for Ffv {
    fn default() -> (ffv: Ffv)
        ensures
            ffv == Ffv(0),
    {
        Ffv(0)
    }
}

/// The 32 bytes of a placeholder identifier.
pub open spec fn zero_id() -> Seq<u8> {
    Seq::new(32, |i: int| 0u8)
}

/// The array that holds the bytes of a placeholder identifier.
pub open spec fn zero_array() -> [u8; 32] {
    choose|bytes: [u8; 32]| bytes@ == zero_id()
}

/// The number that bytes stand for in big-endian order.
pub open spec fn be_number(bytes: Seq<u8>) -> nat
    decreases bytes.len(),
{
    if bytes.len() == 0 {
        0
    } else {
        be_number(bytes.drop_last()) * 256 + bytes.last() as nat
    }
}

/// The number of `n` bytes is below `256` to the power of `n`.
proof fn lemma_be_number_bound(bytes: Seq<u8>)
    ensures
        be_number(bytes) < pow(256, bytes.len()),
    decreases bytes.len(),
{
    reveal(pow);
    if bytes.len() > 0 {
        lemma_be_number_bound(bytes.drop_last());
    }
}

/// The number of at most 15 bytes leaves room for another byte in 128 bits.
proof fn lemma_be_number_room(bytes: Seq<u8>)
    requires
        bytes.len() < 16,
    ensures
        be_number(bytes) * 256 + 255 <= u128::MAX,
{
    lemma_be_number_bound(bytes);
    vstd::arithmetic::power::lemma_pow_increases(256, bytes.len(), 15);
    assert(pow(256, 15) == 0x100_0000_0000_0000_0000_0000_0000_0000) by {
        reveal_with_fuel(pow, 16);
    }
}

/// The number of 16 bytes fits 128 bits.
proof fn lemma_be_number_fits(bytes: Seq<u8>)
    requires
        bytes.len() == 16,
    ensures
        be_number(bytes) <= u128::MAX,
{
    lemma_be_number_room(bytes.drop_last());
}

/// Equally many bytes that stand for the same number are the same bytes.
proof fn lemma_be_number_injective(a: Seq<u8>, b: Seq<u8>)
    requires
        a.len() == b.len(),
        be_number(a) == be_number(b),
    ensures
        a == b,
    decreases a.len(),
{
    if a.len() > 0 {
        assert(a.last() == b.last());
        lemma_be_number_injective(a.drop_last(), b.drop_last());
        assert(a =~= a.drop_last().push(a.last()));
        assert(b =~= b.drop_last().push(b.last()));
    }
    assert(a =~= b);
}

/// The number that the 16 bytes from a position on stand for.
fn half(bytes: &[u8; 32], from: usize) -> (n: u128)
    requires
        from <= 16,
    ensures
        n == be_number(bytes@.subrange(from as int, from + 16)),
{
    let mut n: u128 = 0;
    let mut i: usize = 0;
    while i < 16
        invariant
            i <= 16,
            from <= 16,
            n == be_number(bytes@.subrange(from as int, from + i)),
        decreases 16 - i,
    {
        proof {
            let taken = bytes@.subrange(from as int, from + i);
            lemma_be_number_room(taken);
            assert(bytes@.subrange(from as int, from + i + 1).drop_last() =~= taken);
        }
        n = n * 256 + bytes[from + i] as u128;
        i = i + 1;
    }
    n
}

/// Identifier of an operation.
#[derive(Clone, Copy, Debug, PartialEq, Eq, PartialOrd, Ord, Hash)]
pub struct OpId(pub [u8; 32]);

impl OpId {
    /// A placeholder value.
    pub fn strict_dumb() -> (id: OpId)
        ensures
            id.0@ == zero_id(),
    {
        OpId([0u8;32])
    }

    /// The identifier as the two halves of a number.
    pub open spec fn number(self) -> (u128, u128) {
        (
            be_number(self.0@.subrange(0, 16)) as u128,
            be_number(self.0@.subrange(16, 32)) as u128,
        )
    }

    /// The identifier as the two halves of a number.
    pub fn to_number(&self) -> (halves: (u128, u128))
        ensures
            halves == self.number(),
    {
        (half(&self.0, 0), half(&self.0, 16))
    }

    /// Different identifiers are different numbers.
    pub proof fn lemma_number_injective(a: OpId, b: OpId)
        requires
            a.number() == b.number(),
        ensures
            a == b,
    {
        let (a0, a1) = (a.0@.subrange(0, 16), a.0@.subrange(16, 32));
        let (b0, b1) = (b.0@.subrange(0, 16), b.0@.subrange(16, 32));
        lemma_be_number_fits(a0);
        lemma_be_number_fits(a1);
        lemma_be_number_fits(b0);
        lemma_be_number_fits(b1);
        lemma_be_number_injective(a0, b0);
        lemma_be_number_injective(a1, b1);
        assert(a.0@ =~= a0 + a1);
        assert(b.0@ =~= b0 + b1);
        assert(a.0 =~= b.0);
    }
}

/// Identifier of a contract.
#[derive(Clone, Copy, Debug, PartialEq, Eq)]
pub struct ContractId(pub [u8; 32]);

impl ContractId {
    /// A placeholder value.
    pub fn strict_dumb() -> (id: ContractId)
        ensures
            id.0@ == zero_id(),
    {
        ContractId([0u8;32])
    }
}

/// Identifier of a contract schema.
#[derive(Clone, Copy, Debug, PartialEq, Eq)]
pub struct SchemaId(pub [u8; 32]);

impl SchemaId {
    /// A placeholder value.
    pub fn strict_dumb() -> (id: SchemaId)
        ensures
            id.0@ == zero_id(),
    {
        SchemaId([0u8;32])
    }
}

/// Signature over an operation.
#[derive(Clone, Copy, Debug, PartialEq, Eq)]
pub struct Signature(pub [u8; 64]);

/// Name under which the issuer of a contract is known.
#[derive(Clone, Debug, PartialEq, Eq)]
pub struct Identity(pub String);

impl Identity {
    /// A placeholder value. The empty name is a choice of this library.
    pub fn strict_dumb() -> (id: Identity)
        ensures
            id.0@ == Seq::<char>::empty(),
    {
        Identity(String::new())
    }
}

/// Bitcoin transaction id: the upper and the lower half of a 256-bit number.
#[derive(Clone, Copy, Debug, PartialEq, Eq, Structural)]
pub struct Txid {
    /// The more significant half.
    pub hi: u128,
    /// The less significant half.
    pub lo: u128,
}

impl Txid {
    /// A placeholder value.
    pub fn strict_dumb() -> (txid: Txid)
        ensures
            txid == (Txid { hi: 0, lo: 0 }),
    {
        Txid { hi: 0, lo: 0 }
    }
}

/// An output of a bitcoin transaction.
#[derive(Clone, Copy, Debug, PartialEq, Eq, Structural)]
pub struct Outpoint {
    /// The transaction.
    pub txid: Txid,
    /// Number of the output.
    pub vout: u32,
}

/// Seal of state that is assigned in a genesis.
#[derive(Clone, Copy, Debug, PartialEq, Eq, Structural)]
pub struct GenesisSeal {
    /// Transaction of the sealed output.
    pub txid: Txid,
    /// Number of the sealed output.
    pub vout: u32,
    /// Blinding factor.
    pub blinding: u64,
}

/// Seal of state that is assigned in a state transition.
#[derive(Clone, Copy, Debug, PartialEq, Eq, Structural)]
pub struct GraphSeal {
    /// Transaction of the sealed output; the witness transaction if `None`.
    pub txid: Option<Txid>,
    /// Number of the sealed output.
    pub vout: u32,
    /// Blinding factor.
    pub blinding: u64,
}

impl GraphSeal {
    /// A placeholder value.
    pub fn strict_dumb() -> (seal: GraphSeal)
        ensures
            seal == (GraphSeal { txid: None, vout: 0, blinding: 0 }),
    {
        GraphSeal { txid: None, vout: 0, blinding: 0 }
    }
}

/// A seal of which only a commitment is known.
#[derive(Clone, Copy, Debug, PartialEq, Eq)]
pub struct SecretSeal(pub [u8; 32]);

impl SecretSeal {
    /// A placeholder value.
    pub fn strict_dumb() -> (seal: SecretSeal)
        ensures
            seal.0@ == zero_id(),
    {
        SecretSeal([0u8;32])
    }
}

/// An assignment made by an earlier operation.
#[derive(Clone, Copy, Debug, PartialEq, Eq)]
pub struct Opout {
    /// The operation.
    pub op: OpId,
    /// Type of the assignment.
    pub ty: AssignmentType,
    /// Position among the assignments of that type.
    pub no: u16,
}

impl Opout {
    /// A placeholder value.
    pub fn strict_dumb() -> (opout: Opout)
        ensures
            opout.op.0@ == zero_id(),
            opout.ty == AssignmentType(0),
            opout.no == 0,
    {
        Opout { op: OpId::strict_dumb(), ty: AssignmentType(0), no: 0 }
    }
}

/// A placeholder identifier has 32 bytes, all of them zero.
pub proof fn law_placeholder_is_zero()
    ensures
        zero_id().len() == 32,
        forall|i: int| 0 <= i < 32 ==> #[trigger] zero_id()[i] == 0,
        forall|bytes: [u8; 32]|
            (forall|i: int| 0 <= i < 32 ==> bytes@[i] == 0) ==> #[trigger] bytes@ == zero_array()@,
{
    assert forall|bytes: [u8; 32]|
        (forall|i: int| 0 <= i < 32 ==> bytes@[i] == 0) implies #[trigger] bytes@
        == zero_array()@ by {
        assert(bytes@ =~= zero_id());
    }
}

/// A byte at the end multiplies the number of the bytes before it by 256 and is
/// added to it; no bytes stand for zero.
pub proof fn law_be_number(bytes: Seq<u8>, byte: u8)
    ensures
        be_number(Seq::empty()) == 0,
        be_number(bytes.push(byte)) == 256 * be_number(bytes) + byte,
{
    assert(bytes.push(byte).drop_last() =~= bytes);
}

/// The halves of the number of an identifier are the numbers of the first and
/// of the last 16 of its bytes.
pub proof fn law_id_number(id: OpId)
    ensures
        id.number().0 == be_number(id.0@.take(16)),
        id.number().1 == be_number(id.0@.skip(16)),
{
    assert(id.0@.take(16) =~= id.0@.subrange(0, 16));
    assert(id.0@.skip(16) =~= id.0@.subrange(16, 32));
    lemma_be_number_fits(id.0@.subrange(0, 16));
    lemma_be_number_fits(id.0@.subrange(16, 32));
}

} // verus!
