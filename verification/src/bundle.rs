//! Bundles of state transitions and their identifiers.
//!
//! The identifier of a bundle is a tagged hash: SHA-256 over the hash of a tag,
//! taken twice, and the encoded input map of the bundle.
use crate::confinement::{fits, misfit, ConfinementError, U16};
use crate::operation::{dummy_transition, Transition};
use crate::types::{zero_id, ContractId, OpId};
use amplify::confinement::{Confined, Error};
use commit_verify::{mpc, CommitEngine, DigestExt, StrictHash};
use std::collections::BTreeMap;
use vstd::prelude::*;
use vstd::utf8::encode_utf8;

verus! {

/// Number of an input of a witness transaction.
pub type Vin = u32;

/// Tag of bundle identifiers.
pub const BUNDLE_TAG: &'static str = "urn:lnp-bp:rgb:bundle#2024-02-03";

/// A hasher that commits to data.
#[verifier::external_type_specification]
#[verifier::external_body]
pub struct ExCommitEngine(CommitEngine);

/// A message of a multi-protocol commitment.
#[verifier::external_type_specification]
#[verifier::external_body]
pub struct ExMessage(mpc::Message);

/// The bytes that the hasher inside an engine has taken in.
pub uninterp spec fn engine_input(engine: CommitEngine) -> Seq<u8>;

/// Number of fields that an engine has committed to.
pub uninterp spec fn engine_fields(engine: CommitEngine) -> nat;

/// Whether an engine takes no more fields.
pub uninterp spec fn engine_finished(engine: CommitEngine) -> bool;

/// The SHA-256 digest of bytes.
pub uninterp spec fn sha256(bytes: Seq<u8>) -> Seq<u8>;

/// The bytes of a message.
pub uninterp spec fn message_bytes(message: mpc::Message) -> Seq<u8>;

/// A 16-bit number in little-endian bytes.
pub open spec fn le16(n: nat) -> Seq<u8> {
    seq![(n % 256) as u8, (n / 256 % 256) as u8]
}

/// A 32-bit number in little-endian bytes.
pub open spec fn le32(n: nat) -> Seq<u8> {
    seq![
        (n % 256) as u8,
        (n / 256 % 256) as u8,
        (n / 65536 % 256) as u8,
        (n / 16777216 % 256) as u8,
    ]
}

/// The entries of an input map from a key on, in ascending order of their
/// keys: every key in little-endian bytes, followed by the bytes of its value.
pub open spec fn encode_entries(map: Map<u32, OpId>, from: nat) -> Seq<u8>
    decreases 0x1_0000_0000 - from,
{
    if from > u32::MAX {
        Seq::empty()
    } else if map.contains_key(from as u32) {
        le32(from) + map[from as u32].0@ + encode_entries(map, from + 1)
    } else {
        encode_entries(map, from + 1)
    }
}

/// The strict encoding of an input map: the number of its entries, then the
/// entries.
pub open spec fn encode_map(map: Map<u32, OpId>) -> Seq<u8> {
    le16(map.len()) + encode_entries(map, 0)
}

/// The digest of a tag, taken twice: what a tagged hash starts with.
pub open spec fn tag_prefix(tag: Seq<char>) -> Seq<u8> {
    sha256(encode_utf8(tag)) + sha256(encode_utf8(tag))
}

/// `CommitEngine::new`: the hasher has taken in the digest of the tag twice,
/// and there are no fields yet.
pub assume_specification[ CommitEngine::new ](tag: &'static str) -> (engine: CommitEngine)
    ensures
        engine_input(engine) == tag_prefix(tag@),
        engine_fields(engine) == 0,
        !engine_finished(engine),
;

/// The transition that spends each input of a witness transaction: one to
/// [`U16`] entries, held in `amplify`'s `Confined`.
#[verifier::external_body]
#[derive(Debug, PartialEq, Eq)]
pub struct InputMap {
    inner: Confined<BTreeMap<Vin, OpId>, 1, U16>,
}

/// The entries of an input map.
pub uninterp spec fn input_entries(map: InputMap) -> Map<u32, OpId>;

/// `Confined::try_from` on an ordered map from inputs to transitions, for one
/// to [`U16`] entries: the map is held if its size lies within the bounds, and
/// otherwise the error names its size and the bound that it breaks.
#[verifier::external_body]
fn confine_inputs(entries: BTreeMap<Vin, OpId>) -> (r: Result<InputMap, ConfinementError>)
    ensures
        r is Ok == fits(entries@.len(), 1, U16),
        r matches Ok(map) ==> input_entries(map) == entries@,
        r matches Err(e) ==> e == misfit(entries@.len(), 1, U16),
{
    match Confined::<BTreeMap<Vin, OpId>, 1, U16>::try_from(entries) {
        Ok(inner) => Ok(InputMap { inner }),
        Err(Error::Undersize { len, min_len }) => Err(ConfinementError::Undersize { len, min_len }),
        Err(Error::Oversize { len, max_len }) => Err(ConfinementError::Oversize { len, max_len }),
        Err(Error::OutOfBoundary { index, len }) => Err(ConfinementError::OutOfBoundary { index, len }),
    }
}

/// `Confined::as_unconfined` on an ordered map from inputs to transitions: the
/// held map, which has one to [`U16`] entries.
#[verifier::external_body]
fn unconfined_inputs(map: &InputMap) -> (entries: &BTreeMap<Vin, OpId>)
    ensures
        entries@ == input_entries(*map),
        1 <= entries@.len() <= U16,
{
    map.inner.as_unconfined()
}

/// `Confined::clone` on an ordered map from inputs to transitions: the copy
/// has the same entries.
#[verifier::external_body]
fn clone_inputs(map: &InputMap) -> (copy: InputMap)
    ensures
        input_entries(copy) == input_entries(*map),
{
    InputMap { inner: map.inner.clone() }
}

impl Clone for InputMap {
    fn clone(&self) -> (copy: InputMap)
        ensures
            copy@ == self@,
    {
        clone_inputs(self)
    }
}

impl View for InputMap {
    type V = Map<u32, OpId>;

    open spec fn view(&self) -> Map<u32, OpId> {
        input_entries(*self)
    }
}

impl InputMap {
    /// Confines a map; fails if it is empty or has more than [`U16`] entries.
    pub fn try_from(entries: BTreeMap<Vin, OpId>) -> (r: Result<InputMap, ConfinementError>)
        ensures
            r is Ok == (1 <= entries@.len() <= U16),
            r matches Ok(map) ==> map@ == entries@,
            r matches Err(e) ==> e == misfit(entries@.len(), 1, U16),
    {
        confine_inputs(entries)
    }

    /// The entries.
    pub fn as_unconfined(&self) -> (entries: &BTreeMap<Vin, OpId>)
        ensures
            entries@ == self@,
            1 <= entries@.len() <= U16,
    {
        unconfined_inputs(self)
    }
}

/// Key of a transition: the number of its identifier.
pub type OpKey = (u128, u128);

/// Transitions by the number of their identifier: one to [`U16`] entries, held
/// in `amplify`'s `Confined`.
#[verifier::external_body]
#[derive(Debug, PartialEq, Eq)]
pub struct KnownTransitions {
    inner: Confined<BTreeMap<OpKey, Transition>, 1, U16>,
}

/// The entries of a map of transitions.
pub uninterp spec fn transition_entries(map: KnownTransitions) -> Map<OpKey, Transition>;

/// `Confined::try_from` on an ordered map of transitions, for one to [`U16`]
/// entries: the map is held if its size lies within the bounds, and otherwise
/// the error names its size and the bound that it breaks.
#[verifier::external_body]
fn confine_transitions(entries: BTreeMap<OpKey, Transition>) -> (r: Result<
    KnownTransitions,
    ConfinementError,
>)
    ensures
        r is Ok == fits(entries@.len(), 1, U16),
        r matches Ok(map) ==> transition_entries(map) == entries@,
        r matches Err(e) ==> e == misfit(entries@.len(), 1, U16),
{
    match Confined::<BTreeMap<OpKey, Transition>, 1, U16>::try_from(entries) {
        Ok(inner) => Ok(KnownTransitions { inner }),
        Err(Error::Undersize { len, min_len }) => Err(ConfinementError::Undersize { len, min_len }),
        Err(Error::Oversize { len, max_len }) => Err(ConfinementError::Oversize { len, max_len }),
        Err(Error::OutOfBoundary { index, len }) => Err(ConfinementError::OutOfBoundary { index, len }),
    }
}

/// `Confined::as_unconfined` on an ordered map of transitions: the held map,
/// which has one to [`U16`] entries.
#[verifier::external_body]
fn unconfined_transitions(map: &KnownTransitions) -> (entries: &BTreeMap<OpKey, Transition>)
    ensures
        entries@ == transition_entries(*map),
        1 <= entries@.len() <= U16,
{
    map.inner.as_unconfined()
}

/// `Confined::clone` on an ordered map of transitions: the copy has the same
/// keys, and for each of them what `clone` makes of its transition.
#[verifier::external_body]
fn clone_transitions(map: &KnownTransitions) -> (copy: KnownTransitions)
    ensures
        transition_entries(copy).dom() == transition_entries(*map).dom(),
        forall|key: OpKey| #[trigger]
            transition_entries(copy).contains_key(key) ==> cloned::<Transition>(
                transition_entries(*map)[key],
                transition_entries(copy)[key],
            ),
{
    KnownTransitions { inner: map.inner.clone() }
}

impl Clone for KnownTransitions {
    fn clone(&self) -> (copy: KnownTransitions)
        ensures
            copy@.dom() == self@.dom(),
            forall|key: OpKey| #[trigger]
                copy@.contains_key(key) ==> copy@[key].same_as(&self@[key]),
    {
        clone_transitions(self)
    }
}

impl View for KnownTransitions {
    type V = Map<OpKey, Transition>;

    open spec fn view(&self) -> Map<OpKey, Transition> {
        transition_entries(*self)
    }
}

impl KnownTransitions {
    /// Confines a map; fails if it is empty or has more than [`U16`] entries.
    pub fn try_from(entries: BTreeMap<OpKey, Transition>) -> (r: Result<
        KnownTransitions,
        ConfinementError,
    >)
        ensures
            r is Ok == (1 <= entries@.len() <= U16),
            r matches Ok(map) ==> map@ == entries@,
            r matches Err(e) ==> e == misfit(entries@.len(), 1, U16),
    {
        confine_transitions(entries)
    }

    /// The entries.
    pub fn as_unconfined(&self) -> (entries: &BTreeMap<OpKey, Transition>)
        ensures
            entries@ == self@,
            1 <= entries@.len() <= U16,
    {
        unconfined_transitions(self)
    }
}

/// `CommitEngine::commit_to_map` on an input map: the hasher takes in the
/// strict encoding of the map, as one more field. The call panics on an engine
/// that is finished or has 255 fields.
#[verifier::external_body]
fn commit_to_map(engine: &mut CommitEngine, map: &InputMap)
    requires
        engine_fields(*old(engine)) < 255,
        !engine_finished(*old(engine)),
    ensures
        engine_input(*final(engine)) == engine_input(*old(engine)) + encode_map(
            input_entries(*map),
        ),
        engine_fields(*final(engine)) == engine_fields(*old(engine)) + 1,
        !engine_finished(*final(engine)),
{
    let map: BTreeMap<bp::Vout, StrictHash> = map
        .inner
        .iter()
        .map(|(vin, opid)| (bp::Vout::from_u32(*vin), StrictHash::from(opid.0)))
        .collect();
    engine.commit_to_map(&Confined::<_, 1, U16>::from_checked(map));
}

/// `CommitEngine::finish` and `DigestExt::finish`: the digest of what the
/// hasher has taken in.
#[verifier::external_body]
fn finish_engine(engine: CommitEngine) -> (digest: [u8; 32])
    ensures
        digest@ == sha256(engine_input(engine)),
{
    engine.finish().finish()
}

/// `mpc::Message::from`: the message with given bytes.
#[verifier::external_body]
fn message_from_bytes(bytes: [u8; 32]) -> (message: mpc::Message)
    ensures
        message_bytes(message) == bytes@,
{
    mpc::Message::from(bytes)
}

/// `mpc::Message::into_inner` and `Bytes32::to_byte_array`: the bytes of a
/// message.
#[verifier::external_body]
fn message_to_bytes(message: mpc::Message) -> (bytes: [u8; 32])
    ensures
        bytes@ == message_bytes(message),
{
    amplify::Wrapper::into_inner(message).to_byte_array()
}

/// Identifier of a transition bundle: the hash that commits to the bundle.
#[derive(Clone, Copy, Debug, PartialEq, Eq, PartialOrd, Ord, Hash)]
pub struct BundleId(pub [u8; 32]);

impl BundleId {
    /// A placeholder value.
    pub fn strict_dumb() -> (id: BundleId)
        ensures
            id.0@ == zero_id(),
    {
        BundleId([0u8;32])
    }

    /// The digest of what an engine has taken in.
    pub fn from_engine(engine: CommitEngine) -> (id: BundleId)
        ensures
            id.0@ == sha256(engine_input(engine)),
    {
        BundleId(finish_engine(engine))
    }
}

impl From<[u8; 32]> for BundleId {
    fn from(bytes: [u8; 32]) -> (id: BundleId)
        ensures
            id.0@ == bytes@,
    {
        BundleId(bytes)
    }
}

impl vstd::std_specs::convert::FromSpecImpl<[u8; 32]> for BundleId {
    open spec fn obeys_from_spec() -> bool {
        true
    }

    open spec fn from_spec(bytes: [u8; 32]) -> BundleId {
        BundleId(bytes)
    }
}

impl From<BundleId> for mpc::Message {
    fn from(id: BundleId) -> (message: mpc::Message)
        ensures
            message_bytes(message) == id.0@,
    {
        message_from_bytes(id.0)
    }
}

impl vstd::std_specs::convert::FromSpecImpl<BundleId> for mpc::Message {
    open spec fn obeys_from_spec() -> bool {
        false
    }

    open spec fn from_spec(id: BundleId) -> mpc::Message {
        arbitrary()
    }
}

impl From<mpc::Message> for BundleId {
    fn from(message: mpc::Message) -> (id: BundleId)
        ensures
            id.0@ == message_bytes(message),
    {
        BundleId(message_to_bytes(message))
    }
}

impl vstd::std_specs::convert::FromSpecImpl<mpc::Message> for BundleId {
    open spec fn obeys_from_spec() -> bool {
        false
    }

    open spec fn from_spec(message: mpc::Message) -> BundleId {
        arbitrary()
    }
}

/// The transitions of a contract that share a witness transaction.
#[derive(Clone, Debug, PartialEq, Eq)]
pub struct TransitionBundle {
    /// The transition that spends each input of the witness transaction.
    pub input_map: InputMap,
    /// The transitions that are known, by the number of their identifier.
    pub known_transitions: KnownTransitions,
}

impl TransitionBundle {
    /// What is hashed into the identifier of a bundle with a given input map.
    pub open spec fn preimage(input_map: Map<u32, OpId>) -> Seq<u8> {
        tag_prefix(BUNDLE_TAG@) + encode_map(input_map)
    }

    /// Commits to the input map.
    pub fn commit_encode(&self, e: &mut CommitEngine)
        requires
            engine_fields(*old(e)) < 255,
            !engine_finished(*old(e)),
        ensures
            engine_input(*final(e)) == engine_input(*old(e)) + encode_map(self.input_map@),
            engine_fields(*final(e)) == engine_fields(*old(e)) + 1,
            !engine_finished(*final(e)),
    {
        commit_to_map(e, &self.input_map);
    }

    /// The identifier of the bundle.
    pub fn bundle_id(&self) -> (id: BundleId)
        ensures
            id.0@ == sha256(TransitionBundle::preimage(self.input_map@)),
            id.0@ == sha256(
                sha256(encode_utf8(BUNDLE_TAG@)) + sha256(encode_utf8(BUNDLE_TAG@)) + encode_map(
                    self.input_map@,
                ),
            ),
    {
        let mut engine = CommitEngine::new(BUNDLE_TAG);
        self.commit_encode(&mut engine);
        BundleId::from_engine(engine)
    }

    /// A bundle of a single placeholder transition.
    pub fn strict_dumb() -> (bundle: TransitionBundle)
        ensures
            bundle.input_map@.dom() == set![0u32],
            bundle.input_map@[0].0@ == zero_id(),
            bundle.known_transitions@.dom() == set![bundle.input_map@[0].number()],
            bundle.known_transitions@[bundle.input_map@[0].number()].is_blank(),
            bundle.known_transitions@[bundle.input_map@[0].number()].contract_id.0@ == zero_id(),
            bundle.known_transitions@[bundle.input_map@[0].number()].signature is None,
    {
        let id = OpId::strict_dumb();
        let mut input_map: BTreeMap<Vin, OpId> = BTreeMap::new();
        input_map.insert(0, id);
        let mut known: BTreeMap<OpKey, Transition> = BTreeMap::new();
        known.insert(id.to_number(), dummy_transition(ContractId::strict_dumb(), None));
        TransitionBundle {
            input_map: InputMap::try_from(input_map).unwrap(),
            known_transitions: KnownTransitions::try_from(known).unwrap(),
        }
    }
}

/// A 32-bit number is the sum of its bytes, each times its weight.
proof fn lemma_le32_value(n: u32)
    ensures
        n == le32(n as nat)[0] + 256 * le32(n as nat)[1] + 65536 * le32(n as nat)[2] + 16777216
            * le32(n as nat)[3],
{
    assert(n == n % 256 + 256 * (n / 256 % 256) + 65536 * (n / 65536 % 256) + 16777216 * (n
        / 16777216 % 256)) by (bit_vector);
}

/// The little-endian bytes of a 32-bit number determine the number.
proof fn lemma_le32_injective(m: nat, n: nat)
    requires
        m <= u32::MAX,
        n <= u32::MAX,
        le32(m) == le32(n),
    ensures
        m == n,
{
    lemma_le32_value(m as u32);
    lemma_le32_value(n as u32);
}

/// Encoded entries from a key on are empty or start with a key that is not
/// smaller.
proof fn lemma_first_key(map: Map<u32, OpId>, from: nat) -> (key: nat)
    ensures
        encode_entries(map, from).len() != 0 ==> {
            &&& from <= key <= u32::MAX
            &&& encode_entries(map, from).len() >= 36
            &&& encode_entries(map, from).take(4) == le32(key)
        },
    decreases 0x1_0000_0000 - from,
{
    if from > u32::MAX {
        0
    } else if map.contains_key(from as u32) {
        assert(encode_entries(map, from).take(4) =~= le32(from));
        from
    } else {
        lemma_first_key(map, from + 1)
    }
}

/// Encoded entries determine the entries.
proof fn lemma_entries_injective(a: Map<u32, OpId>, b: Map<u32, OpId>, from: nat)
    requires
        encode_entries(a, from) == encode_entries(b, from),
    ensures
        forall|k: u32| from <= k ==> a.contains_key(k) == #[trigger] b.contains_key(k),
        forall|k: u32| from <= k && a.contains_key(k) ==> (#[trigger] a[k]).0@ == b[k].0@,
    decreases 0x1_0000_0000 - from,
{
    if from <= u32::MAX {
        let key = from as u32;
        if a.contains_key(key) {
            assert(encode_entries(a, from).take(4) =~= le32(from));
        }
        if b.contains_key(key) {
            assert(encode_entries(b, from).take(4) =~= le32(from));
        }
        if a.contains_key(key) && !b.contains_key(key) {
            let other = lemma_first_key(b, from + 1);
            lemma_le32_injective(from, other);
        }
        if b.contains_key(key) && !a.contains_key(key) {
            let other = lemma_first_key(a, from + 1);
            lemma_le32_injective(from, other);
        }
        if a.contains_key(key) {
            assert(encode_entries(a, from).subrange(4, 36) =~= a[key].0@);
            assert(encode_entries(b, from).subrange(4, 36) =~= b[key].0@);
            assert(encode_entries(a, from).skip(36) =~= encode_entries(a, from + 1));
            assert(encode_entries(b, from).skip(36) =~= encode_entries(b, from + 1));
        }
        lemma_entries_injective(a, b, from + 1);
        assert forall|k: u32| from <= k implies a.contains_key(k) == #[trigger] b.contains_key(
            k,
        ) by {
            assert(k == key || from + 1 <= k);
        }
    }
}

/// Bundles with the same input map have the same identifier, whatever
/// transitions are known.
pub proof fn lemma_id_ignores_known_transitions(a: TransitionBundle, b: TransitionBundle)
    requires
        a.input_map@ == b.input_map@,
    ensures
        sha256(TransitionBundle::preimage(a.input_map@)) == sha256(
            TransitionBundle::preimage(b.input_map@),
        ),
{
}

/// What is hashed into the identifiers of two bundles is the same only if the
/// bundles have the same input map: the same inputs, and for every input the
/// same transition.
pub proof fn lemma_preimage_injective(a: Map<u32, OpId>, b: Map<u32, OpId>)
    requires
        TransitionBundle::preimage(a) == TransitionBundle::preimage(b),
    ensures
        a == b,
{
    let n = tag_prefix(BUNDLE_TAG@).len() as int;
    assert(TransitionBundle::preimage(a).skip(n) =~= encode_map(a));
    assert(TransitionBundle::preimage(b).skip(n) =~= encode_map(b));
    assert(encode_map(a).skip(2) =~= encode_entries(a, 0));
    assert(encode_map(b).skip(2) =~= encode_entries(b, 0));
    lemma_entries_injective(a, b, 0);
    assert forall|k: u32| a.dom().contains(k) == b.dom().contains(k) by {
        assert(a.contains_key(k) == b.contains_key(k));
    }
    assert forall|k: u32| a.dom().contains(k) implies a[k] == b[k] by {
        assert(a[k].0 =~= b[k].0);
    }
    assert(a =~= b);
}

/// An identifier that travels through a message comes back, and so does a
/// message that travels through an identifier.
pub proof fn lemma_message_round_trip(
    id: BundleId,
    message: mpc::Message,
    id_back: BundleId,
    message_back: mpc::Message,
)
    requires
        message_bytes(message) == id.0@,
        id_back.0@ == message_bytes(message),
        message_bytes(message_back) == id_back.0@,
    ensures
        id_back == id,
        message_bytes(message_back) == message_bytes(message),
{
    assert(id_back.0 =~= id.0);
}

/// Encoded entries from a key on are 36 bytes for each of the keys from there
/// on: the key, least significant byte first, and the transition.
proof fn lemma_entries_layout(map: Map<u32, OpId>, from: nat, keys: Seq<u32>)
    requires
        forall|k: u32| from <= k ==> #[trigger] keys.contains(k) == map.contains_key(k),
        forall|i: int| 0 <= i < keys.len() ==> from <= #[trigger] keys[i],
        forall|i: int, j: int| 0 <= i < j < keys.len() ==> keys[i] < keys[j],
    ensures
        encode_entries(map, from).len() == 36 * keys.len(),
        forall|i: int|
            0 <= i < keys.len() ==> {
                let e = encode_entries(map, from);
                &&& #[trigger] keys[i] == e[36 * i] + 256 * e[36 * i + 1] + 65536 * e[36 * i + 2]
                    + 16777216 * e[36 * i + 3]
                &&& e.subrange(36 * i + 4, 36 * i + 36) == map[keys[i]].0@
            },
    decreases 0x1_0000_0000 - from,
{
    let e = encode_entries(map, from);
    if from > u32::MAX {
        assert(keys.len() == 0) by {
            if keys.len() > 0 {
                assert(from <= keys[0]);
            }
        }
    } else if map.contains_key(from as u32) {
        let key = from as u32;
        assert(keys.contains(key));
        let at = choose|i: int| 0 <= i < keys.len() && keys[i] == key;
        assert(at == 0) by {
            if at > 0 {
                assert(keys[0] < keys[at]);
                assert(from <= keys[0]);
            }
        }
        let rest = keys.skip(1);
        assert forall|k: u32| from + 1 <= k implies #[trigger] rest.contains(k)
            == map.contains_key(k) by {
            assert(keys.contains(k) == map.contains_key(k));
            if rest.contains(k) {
                let i = choose|i: int| 0 <= i < rest.len() && rest[i] == k;
                assert(keys[i + 1] == k);
            }
            if keys.contains(k) {
                let i = choose|i: int| 0 <= i < keys.len() && keys[i] == k;
                assert(rest[i - 1] == k);
            }
        }
        assert forall|i: int| 0 <= i < rest.len() implies from + 1 <= #[trigger] rest[i] by {
            assert(keys[0] < keys[i + 1]);
        }
        lemma_entries_layout(map, from + 1, rest);
        lemma_le32_value(key);
        let tail = encode_entries(map, from + 1);
        assert(e =~= le32(from) + map[key].0@ + tail);
        assert forall|i: int| 0 <= i < keys.len() implies {
            &&& #[trigger] keys[i] == e[36 * i] + 256 * e[36 * i + 1] + 65536 * e[36 * i + 2]
                + 16777216 * e[36 * i + 3]
            &&& e.subrange(36 * i + 4, 36 * i + 36) == map[keys[i]].0@
        } by {
            if i == 0 {
                assert(e.subrange(4, 36) =~= map[key].0@);
            } else {
                let j = i - 1;
                assert(rest[j] == keys[i]);
                assert(36 * i == 36 * j + 36);
                assert(36 * j + 36 <= tail.len());
                assert(e[36 * i] == tail[36 * j]);
                assert(e[36 * i + 1] == tail[36 * j + 1]);
                assert(e[36 * i + 2] == tail[36 * j + 2]);
                assert(e[36 * i + 3] == tail[36 * j + 3]);
                assert(e.subrange(36 * i + 4, 36 * i + 36) =~= tail.subrange(
                    36 * j + 4,
                    36 * j + 36,
                ));
            }
        }
    } else {
        assert forall|i: int| 0 <= i < keys.len() implies from + 1 <= #[trigger] keys[i] by {
            if keys[i] == from as u32 {
                assert(keys.contains(from as u32));
            }
        }
        lemma_entries_layout(map, from + 1, keys);
    }
}

/// The identifier of a bundle is a hash of these bytes and no others: the digest
/// of the tag twice; the number of inputs in two bytes; and 36 bytes for each
/// input in ascending order, namely its number in four bytes and the 32 bytes of
/// the transition that spends it. Numbers stand with their least significant
/// byte first. `keys` lists the inputs.
pub proof fn law_hashed_bytes(map: Map<u32, OpId>, keys: Seq<u32>)
    requires
        keys.len() <= 65535,
        keys.to_set() == map.dom(),
        forall|i: int, j: int| 0 <= i < j < keys.len() ==> keys[i] < keys[j],
    ensures
        ({
            let tag = sha256(encode_utf8("urn:lnp-bp:rgb:bundle#2024-02-03"@));
            let hashed = TransitionBundle::preimage(map);
            let n = (2 * tag.len()) as int;
            &&& hashed.len() == n + 2 + 36 * keys.len()
            &&& hashed.take(n) == tag + tag
            &&& keys.len() == hashed[n] + 256 * hashed[n + 1]
            &&& forall|i: int|
                0 <= i < keys.len() ==> {
                    let p = n + 2 + 36 * i;
                    &&& #[trigger] keys[i] == hashed[p] + 256 * hashed[p + 1] + 65536 * hashed[p
                        + 2] + 16777216 * hashed[p + 3]
                    &&& hashed.subrange(p + 4, p + 36) == map[keys[i]].0@
                }
        }),
{
    let tag = sha256(encode_utf8(BUNDLE_TAG@));
    let hashed = TransitionBundle::preimage(map);
    let n = (2 * tag.len()) as int;
    let e = encode_entries(map, 0);
    assert(keys.no_duplicates());
    keys.unique_seq_to_set();
    assert(map.len() == keys.len());
    assert forall|k: u32| 0 <= k implies #[trigger] keys.contains(k) == map.contains_key(k) by {
        assert(keys.to_set().contains(k) == map.dom().contains(k));
    }
    lemma_entries_layout(map, 0, keys);
    assert(hashed =~= tag + tag + le16(map.len()) + e);
    assert(hashed.take(n) =~= tag + tag);
    assert(hashed[n] == le16(map.len())[0]);
    assert(hashed[n + 1] == le16(map.len())[1]);
    assert forall|i: int| 0 <= i < keys.len() implies {
        let p = n + 2 + 36 * i;
        &&& #[trigger] keys[i] == hashed[p] + 256 * hashed[p + 1] + 65536 * hashed[p + 2]
            + 16777216 * hashed[p + 3]
        &&& hashed.subrange(p + 4, p + 36) == map[keys[i]].0@
    } by {
        let p = n + 2 + 36 * i;
        assert(hashed[p] == e[36 * i]);
        assert(hashed[p + 1] == e[36 * i + 1]);
        assert(hashed[p + 2] == e[36 * i + 2]);
        assert(hashed[p + 3] == e[36 * i + 3]);
        assert(hashed.subrange(p + 4, p + 36) =~= e.subrange(36 * i + 4, 36 * i + 36));
    }
}

/// What a bundle commits to is what its identifier hashes behind the tag: an
/// engine with the tag of bundles that took in the bundle once has taken in
/// exactly the hashed bytes.
pub proof fn law_identifier_commits_once(
    bundle: TransitionBundle,
    fresh: CommitEngine,
    fed: CommitEngine,
)
    requires
        engine_input(fresh) == tag_prefix(BUNDLE_TAG@),
        engine_input(fed) == engine_input(fresh) + encode_map(bundle.input_map@),
    ensures
        engine_input(fed) == TransitionBundle::preimage(bundle.input_map@),
{
}

/// The tag of a hash is its digest, taken twice.
pub proof fn law_tag_is_hashed_twice(tag: Seq<char>)
    ensures
        tag_prefix(tag).len() == 2 * sha256(encode_utf8(tag)).len(),
        tag_prefix(tag).take(sha256(encode_utf8(tag)).len() as int) == sha256(encode_utf8(tag)),
        tag_prefix(tag).skip(sha256(encode_utf8(tag)).len() as int) == sha256(encode_utf8(tag)),
{
}

} // verus!
