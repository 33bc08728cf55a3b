//! Values that carry their hash with them.

use crate::hashing::{entity_hash, AnyValueBuilder, EntityHash, FixedState, PassHash};
use std::hash::{BuildHasher, Hash, Hasher};
use std::marker::PhantomData;
use std::ops::Deref;
use vstd::prelude::*;
use vstd::std_specs::cmp::{PartialEqSpec, PartialEqSpecImpl};

verus! {

/// std's `BuildHasher::hash_one`: the hash of `value` by a hasher that
/// `builder` builds. It is for builders whose hashers take whatever the
/// value's `Hash` feeds them; one that takes numbers only would end the
/// program on other values. Nothing is claimed of the hash: it is whatever
/// the builder's hasher and the value's `Hash` make of each other.
#[verifier::external_body]
fn hash_one<V: Hash, H: AnyValueBuilder>(builder: &H, value: &V) -> u64
    requires
        H::takes_any_value(),
{
    builder.hash_one(value)
}

/// std's `Hasher::write_u64`, which feeds one number to a hasher. Nothing is
/// claimed of the hasher afterwards.
#[verifier::external_body]
fn feed_u64<R: Hasher>(state: &mut R, i: u64) {
    state.write_u64(i)
}

/// A value together with its hash, computed once. The hash stands for the
/// value wherever a hash is asked for, and settles most comparisons before
/// the values are looked at.
#[derive(Debug)]
pub struct Hashed<V, H = FixedState> {
    hash: u64,
    value: V,
    marker: PhantomData<H>,
}

impl<V, H> Hashed<V, H> {
    /// The hash that the value carries.
    pub closed spec fn spec_hash(&self) -> u64 {
        self.hash
    }

    /// The value.
    pub closed spec fn spec_value(&self) -> V {
        self.value
    }

    /// The value `value` with the hash `hash`.
    pub fn from_parts(hash: u64, value: V) -> (r: Self)
        ensures
            r.spec_hash() == hash,
            r.spec_value() == value,
    {
        Hashed { hash, value, marker: PhantomData }
    }

    /// The hash that the value carries.
    pub fn hash(&self) -> (h: u64)
        ensures
            h == self.spec_hash(),
    {
        self.hash
    }

    /// The value.
    pub fn value(&self) -> (v: &V)
        ensures
            *v == self.spec_value(),
    {
        &self.value
    }
}

impl<V: Hash, H: AnyValueBuilder> Hashed<V, H> {
    /// `value` with its hash, as a hasher of `H` computes it. The builder
    /// must be one whose hashers take any value; for the hashers that take
    /// numbers only there is `of_number`.
    pub fn new(value: V) -> (r: Self)
        requires
            H::takes_any_value(),
        ensures
            r.spec_value() == value,
    {
        let builder = H::default();
        let hash = hash_one(&builder, &value);
        Hashed::from_parts(hash, value)
    }
}

impl Hashed<u64, PassHash> {
    /// The number `i` with its hash as a `PassHasher` computes it: `i`
    /// itself.
    pub fn of_number(i: u64) -> (r: Self)
        ensures
            r.spec_value() == i,
            r.spec_hash() == i,
    {
        let builder = PassHash::default();
        let mut hasher = builder.build_hasher();
        hasher.write_u64(i);
        Hashed::from_parts(hasher.finish(), i)
    }
}

impl Hashed<u64, EntityHash> {
    /// The number `i` with its hash as an `EntityHasher` computes it.
    pub fn of_number(i: u64) -> (r: Self)
        ensures
            r.spec_value() == i,
            r.spec_hash() == entity_hash(i),
    {
        let builder = EntityHash::default();
        let mut hasher = builder.build_hasher();
        hasher.write_u64(i);
        Hashed::from_parts(hasher.finish(), i)
    }
}

impl<V, H> Hash for Hashed<V, H> {
    fn hash<R: Hasher>(&self, state: &mut R) {
        feed_u64(state, self.hash);
    }
}

impl<V, H> Deref for Hashed<V, H> {
    type Target = V;

    fn deref(&self) -> (v: &V)
        ensures
            *v == self.spec_value(),
    {
        &self.value
    }
}

impl<V: PartialEq, H> PartialEq for Hashed<V, H> {
    fn eq(&self, other: &Self) -> (r: bool) {
        self.hash == other.hash && self.value.eq(&other.value)
    }
}

impl<V: PartialEq, H> PartialEqSpecImpl for Hashed<V, H> {
    open spec fn obeys_eq_spec() -> bool {
        <V as PartialEqSpec>::obeys_eq_spec()
    }

    open spec fn eq_spec(&self, other: &Self) -> bool {
        self.spec_hash() == other.spec_hash() && self.spec_value().eq_spec(&other.spec_value())
    }
}

impl<V: Eq, H> Eq for Hashed<V, H> {

}

impl<V: Clone, H> Clone for Hashed<V, H> {
    fn clone(&self) -> (r: Self)
        ensures
            r.spec_hash() == self.spec_hash(),
            cloned(self.spec_value(), r.spec_value()),
    {
        Hashed { hash: self.hash, value: self.value.clone(), marker: PhantomData }
    }
}

} // verus!
