//! Collections of bounded size.
//!
//! Whether a collection fits its bounds is decided by `amplify`'s `Confined`.
//! Byte strings are held in it. The generic collections hold a standard
//! collection whose size is proved to lie within the bounds at all times.
use amplify::confinement::{Confined, Error};
use std::collections::BTreeMap;
use vstd::prelude::*;

verus! {

/// Largest size of a small collection.
pub const U16: usize = 65535;

/// Why a collection does not fit its bounds.
#[derive(Clone, Copy, Debug, PartialEq, Eq, Structural)]
pub enum ConfinementError {
    /// Fewer items than the lower bound.
    Undersize { len: usize, min_len: usize },
    /// More items than the upper bound.
    Oversize { len: usize, max_len: usize },
    /// An index past the last item.
    OutOfBoundary { index: usize, len: usize },
}

/// Whether `len` items fit the bounds.
pub open spec fn fits(len: nat, min_len: usize, max_len: usize) -> bool {
    min_len <= len <= max_len
}

/// The error for `len` items that do not fit the bounds.
pub open spec fn misfit(len: nat, min_len: usize, max_len: usize) -> ConfinementError {
    if len < min_len {
        ConfinementError::Undersize { len: len as usize, min_len }
    } else {
        ConfinementError::Oversize { len: len as usize, max_len }
    }
}

/// `Confined::try_from` on a vector, for one to [`U16`] items, released again
/// with `Confined::release`: the vector comes back unchanged if its length lies
/// within the bounds, and otherwise the error names its length and the bound
/// that it breaks.
#[verifier::external_body]
fn confine_vec<T>(items: Vec<T>) -> (r: Result<Vec<T>, ConfinementError>)
    ensures
        r is Ok == fits(items@.len(), 1, U16),
        r matches Ok(kept) ==> kept@ == items@,
        r matches Err(e) ==> e == misfit(items@.len(), 1, U16),
{
    match Confined::<Vec<T>, 1, U16>::try_from(items) {
        Ok(confined) => Ok(confined.release()),
        Err(Error::Undersize { len, min_len }) => Err(ConfinementError::Undersize { len, min_len }),
        Err(Error::Oversize { len, max_len }) => Err(ConfinementError::Oversize { len, max_len }),
        Err(Error::OutOfBoundary { index, len }) => Err(ConfinementError::OutOfBoundary { index, len }),
    }
}

/// `Confined::insert` on an ordered map of at most [`U16`] entries. A map that
/// is already full refuses every entry, also one for a key that it has, and
/// stays as it is. Any other map takes the entry and hands back what the key
/// held before.
#[verifier::external_body]
fn confined_insert<V>(entries: BTreeMap<u16, V>, key: u16, value: V) -> (r: (
    BTreeMap<u16, V>,
    Result<Option<V>, ConfinementError>,
))
    requires
        entries@.len() <= U16,
    ensures
        r.0@ == (if entries@.len() == U16 {
            entries@
        } else {
            entries@.insert(key, value)
        }),
        r.1 is Ok == (entries@.len() != U16),
        r.1 matches Ok(before) ==> before == entries@.get(key),
        r.1 matches Err(e) ==> e == misfit(U16 as nat + 1, 0, U16),
{
    let mut confined = Confined::<BTreeMap<u16, V>, 0, U16>::from_checked(entries);
    let inserted = match confined.insert(key, value) {
        Ok(before) => Ok(before),
        Err(Error::Undersize { len, min_len }) => Err(ConfinementError::Undersize { len, min_len }),
        Err(Error::Oversize { len, max_len }) => Err(ConfinementError::Oversize { len, max_len }),
        Err(Error::OutOfBoundary { index, len }) => Err(ConfinementError::OutOfBoundary { index, len }),
    };
    (confined.release(), inserted)
}

/// `Confined::push` on a vector of one to [`U16`] items. A vector that is
/// already full refuses the item and stays as it is. Any other vector takes the
/// item as its last one.
#[verifier::external_body]
fn confined_push<T>(items: Vec<T>, item: T) -> (r: (Vec<T>, Result<(), ConfinementError>))
    requires
        1 <= items@.len() <= U16,
    ensures
        r.0@ == (if items@.len() == U16 {
            items@
        } else {
            items@.push(item)
        }),
        r.1 is Ok == (items@.len() != U16),
        r.1 matches Err(e) ==> e == misfit(U16 as nat + 1, 1, U16),
{
    let mut confined = Confined::<Vec<T>, 1, U16>::from_checked(items);
    let pushed = match confined.push(item) {
        Ok(()) => Ok(()),
        Err(Error::Undersize { len, min_len }) => Err(ConfinementError::Undersize { len, min_len }),
        Err(Error::Oversize { len, max_len }) => Err(ConfinementError::Oversize { len, max_len }),
        Err(Error::OutOfBoundary { index, len }) => Err(ConfinementError::OutOfBoundary { index, len }),
    };
    (confined.release(), pushed)
}

/// A byte string of at most [`U16`] bytes, held in `Confined`.
#[verifier::external_body]
#[derive(Debug, PartialEq, Eq)]
pub struct SmallBlob {
    inner: Confined<Vec<u8>, 0, U16>,
}

/// The bytes of a byte string.
pub uninterp spec fn blob_bytes(blob: SmallBlob) -> Seq<u8>;

/// `Confined::try_from` on bytes, for at most [`U16`] of them: they are held if
/// there are no more, and otherwise the error names their number and the bound.
#[verifier::external_body]
fn confine_bytes(bytes: Vec<u8>) -> (r: Result<SmallBlob, ConfinementError>)
    ensures
        r is Ok == fits(bytes@.len(), 0, U16),
        r matches Ok(blob) ==> blob_bytes(blob) == bytes@,
        r matches Err(e) ==> e == misfit(bytes@.len(), 0, U16),
{
    match Confined::<Vec<u8>, 0, U16>::try_from(bytes) {
        Ok(inner) => Ok(SmallBlob { inner }),
        Err(Error::Undersize { len, min_len }) => Err(ConfinementError::Undersize { len, min_len }),
        Err(Error::Oversize { len, max_len }) => Err(ConfinementError::Oversize { len, max_len }),
        Err(Error::OutOfBoundary { index, len }) => Err(ConfinementError::OutOfBoundary { index, len }),
    }
}

/// `Confined::as_unconfined` on bytes: the held bytes, of which there are at
/// most [`U16`].
#[verifier::external_body]
fn unconfined_bytes(blob: &SmallBlob) -> (bytes: &Vec<u8>)
    ensures
        bytes@ == blob_bytes(*blob),
        bytes@.len() <= U16,
{
    blob.inner.as_unconfined()
}

/// `Confined::clone` on bytes: the copy holds the same bytes.
#[verifier::external_body]
fn clone_bytes(blob: &SmallBlob) -> (copy: SmallBlob)
    ensures
        blob_bytes(copy) == blob_bytes(*blob),
{
    SmallBlob { inner: blob.inner.clone() }
}

impl View for SmallBlob {
    type V = Seq<u8>;

    open spec fn view(&self) -> Seq<u8> {
        blob_bytes(*self)
    }
}

impl SmallBlob {
    /// Confines bytes; fails if there are more than [`U16`] of them.
    pub fn try_from(bytes: Vec<u8>) -> (r: Result<SmallBlob, ConfinementError>)
        ensures
            r is Ok == (bytes@.len() <= U16),
            r matches Ok(blob) ==> blob@ == bytes@,
            r matches Err(e) ==> e == misfit(bytes@.len(), 0, U16),
    {
        confine_bytes(bytes)
    }

    /// The bytes.
    pub fn as_unconfined(&self) -> (bytes: &Vec<u8>)
        ensures
            bytes@ == self@,
            bytes@.len() <= U16,
    {
        unconfined_bytes(self)
    }
}

impl Clone for SmallBlob {
    fn clone(&self) -> (copy: SmallBlob)
        ensures
            copy@ == self@,
    {
        clone_bytes(self)
    }
}

/// A vector of at least one and at most [`U16`] items.
#[derive(Debug, PartialEq, Eq)]
pub struct NonEmptyVec<T> {
    items: Vec<T>,
}

impl<T> View for NonEmptyVec<T> {
    type V = Seq<T>;

    closed spec fn view(&self) -> Seq<T> {
        self.items@
    }
}

impl<T> NonEmptyVec<T> {
    #[verifier::type_invariant]
    spec fn bounded(self) -> bool {
        1 <= self.items@.len() <= U16
    }

    /// Confines a vector; fails if it is empty or has more than [`U16`] items.
    pub fn try_from(items: Vec<T>) -> (r: Result<NonEmptyVec<T>, ConfinementError>)
        ensures
            r is Ok == (1 <= items@.len() <= U16),
            r matches Ok(v) ==> v@ == items@,
            r matches Err(e) ==> e == misfit(items@.len(), 1, U16),
    {
        match confine_vec(items) {
            Ok(items) => Ok(NonEmptyVec { items }),
            Err(e) => Err(e),
        }
    }

    /// The vector of a single item.
    pub fn with(item: T) -> (v: NonEmptyVec<T>)
        ensures
            v@ == seq![item],
    {
        let mut items: Vec<T> = Vec::new();
        items.push(item);
        NonEmptyVec { items }
    }

    /// The items.
    pub fn as_unconfined(&self) -> (items: &Vec<T>)
        ensures
            items@ == self@,
            1 <= items@.len() <= U16,
    {
        proof {
            use_type_invariant(self);
        }
        &self.items
    }

    /// The vector with one more item at its end. Fails, and gives the vector
    /// back as it was, if it is full.
    pub fn push(self, item: T) -> (r: (NonEmptyVec<T>, Result<(), ConfinementError>))
        ensures
            1 <= self@.len() <= U16,
            r.1 is Ok == (self@.len() < U16),
            r.1 is Ok ==> r.0@ == self@.push(item),
            r.1 matches Err(e) ==> r.0@ == self@ && e == misfit(U16 as nat + 1, 1, U16),
    {
        proof {
            use_type_invariant(&self);
        }
        let (items, pushed) = confined_push(self.items, item);
        (NonEmptyVec { items }, pushed)
    }
}

impl<T: Clone> Clone for NonEmptyVec<T> {
    fn clone(&self) -> (copy: NonEmptyVec<T>)
        ensures
            copy@.len() == self@.len(),
            forall|i: int| 0 <= i < self@.len() ==> cloned::<T>(self@[i], #[trigger] copy@[i]),
    {
        proof {
            use_type_invariant(self);
        }
        let items: Vec<T> = self.items.clone();
        NonEmptyVec { items }
    }
}

/// An ordered map of at most [`U16`] entries with 16-bit keys.
#[derive(Debug, PartialEq, Eq)]
pub struct SmallOrdMap<V> {
    entries: BTreeMap<u16, V>,
}

impl<V> View for SmallOrdMap<V> {
    type V = Map<u16, V>;

    closed spec fn view(&self) -> Map<u16, V> {
        self.entries@
    }
}

impl<V> SmallOrdMap<V> {
    #[verifier::type_invariant]
    spec fn bounded(self) -> bool {
        self.entries@.len() <= U16
    }

    /// The empty map.
    pub fn new() -> (m: SmallOrdMap<V>)
        ensures
            m@ == Map::<u16, V>::empty(),
    {
        SmallOrdMap { entries: BTreeMap::new() }
    }

    /// Puts an entry into the map and returns what the key held before. Fails,
    /// and leaves the map as it is, if the map is full.
    pub fn insert(&mut self, key: u16, value: V) -> (r: Result<Option<V>, ConfinementError>)
        ensures
            old(self)@.len() <= U16,
            r is Ok == (old(self)@.len() < U16),
            r matches Ok(before) ==> before == old(self)@.get(key) && final(self)@ == old(
                self,
            )@.insert(key, value),
            r matches Err(e) ==> final(self)@ == old(self)@ && e == misfit(U16 as nat + 1, 0, U16),
    {
        proof {
            use_type_invariant(&*self);
        }
        let mut entries: BTreeMap<u16, V> = BTreeMap::new();
        std::mem::swap(&mut entries, &mut self.entries);
        let (entries, inserted) = confined_insert(entries, key, value);
        self.entries = entries;
        inserted
    }

    /// What a key holds.
    pub fn get(&self, key: u16) -> (value: Option<&V>)
        ensures
            value == (if self@.contains_key(key) {
                Some(&self@[key])
            } else {
                None
            }),
    {
        self.entries.get(&key)
    }

    /// The entries.
    pub fn as_unconfined(&self) -> (entries: &BTreeMap<u16, V>)
        ensures
            entries@ == self@,
            entries@.len() <= U16,
    {
        proof {
            use_type_invariant(self);
        }
        &self.entries
    }
}

impl<V: Clone> Clone for SmallOrdMap<V> {
    fn clone(&self) -> (copy: SmallOrdMap<V>)
        ensures
            copy@ == self@,
    {
        proof {
            use_type_invariant(self);
        }
        SmallOrdMap { entries: self.entries.clone() }
    }
}

/// A size is fit exactly if it is neither below the lower nor above the upper
/// bound. The error for one that is not names it and the bound that it breaks.
pub proof fn law_bounds(len: nat, min_len: usize, max_len: usize)
    requires
        len <= usize::MAX,
        min_len <= max_len,
    ensures
        fits(len, min_len, max_len) == !(len < min_len || len > max_len),
        len < min_len ==> misfit(len, min_len, max_len) == (ConfinementError::Undersize {
            len: len as usize,
            min_len,
        }),
        len > max_len ==> misfit(len, min_len, max_len) == (ConfinementError::Oversize {
            len: len as usize,
            max_len,
        }),
        U16 == u16::MAX,
{
}

} // verus!
