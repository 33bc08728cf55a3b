//! Hash builders: one that hashes alike in every map, and two for keys that
//! are numbers already.

use ahash::{AHasher, RandomState};
use std::hash::{BuildHasher, Hasher};
use vstd::prelude::*;

verus! {

#[verifier::external_type_specification]
#[verifier::external_body]
pub struct ExAHasher(AHasher);

#[verifier::external_type_specification]
#[verifier::external_body]
pub struct ExAhashRandomState(RandomState);

/// The first seed of `FixedState`.
pub const FIXED_SEED_0: u64 = 0b10010101111011100000010011000100;

/// The second seed of `FixedState`.
pub const FIXED_SEED_1: u64 = 0b00000011001001101011001001111000;

/// The third seed of `FixedState`.
pub const FIXED_SEED_2: u64 = 0b11001111011010110111100010110101;

/// The fourth seed of `FixedState`.
pub const FIXED_SEED_3: u64 = 0b00000100001111100011010011010101;

/// The state that ahash makes of four seeds.
pub uninterp spec fn state_with_seeds(k0: u64, k1: u64, k2: u64, k3: u64) -> RandomState;

/// The hasher that ahash builds from a state, before anything is written to
/// it.
pub uninterp spec fn hasher_built_by(state: RandomState) -> AHasher;

/// The hasher that every `FixedState` builds: the one of the state with the
/// four fixed seeds.
pub open spec fn fixed_hasher() -> AHasher {
    hasher_built_by(state_with_seeds(FIXED_SEED_0, FIXED_SEED_1, FIXED_SEED_2, FIXED_SEED_3))
}

/// ahash's `RandomState::with_seeds`: the state with these four seeds. Not
/// proved: that the state depends on the seeds alone, which is what naming
/// it `state_with_seeds` claims. ahash mixes each seed with a constant of
/// its own and takes in nothing else.
#[verifier::external_body]
fn seeded_state(k0: u64, k1: u64, k2: u64, k3: u64) -> (state: RandomState)
    ensures
        state == state_with_seeds(k0, k1, k2, k3),
{
    RandomState::with_seeds(k0, k1, k2, k3)
}

/// ahash's `BuildHasher::build_hasher` for its `RandomState`: a hasher
/// keyed by the state. Not proved: that the hasher depends on the state
/// alone, which is what naming it `hasher_built_by` claims. ahash copies the
/// state's keys into the hasher and takes in nothing else.
#[verifier::external_body]
fn hasher_of(state: &RandomState) -> (hasher: AHasher)
    ensures
        hasher == hasher_built_by(*state),
{
    state.build_hasher()
}

/// A hash builder that knows what its hashers take. A value's `Hash` may
/// feed a hasher bytes and numbers of any width; a hasher that takes only
/// whole `u64` numbers ends the program on anything else.
pub trait AnyValueBuilder: BuildHasher + Default {
    /// Whether the hashers that the builder builds take whatever a value's
    /// `Hash` feeds them.
    spec fn takes_any_value() -> bool;
}

/// A hash builder whose hashers are all keyed alike, so that a map built
/// with it is walked in an order that depends on its insertions and
/// deletions alone.
#[derive(Debug, Clone, Copy)]
pub struct FixedState;

impl Default for FixedState {
    fn default() -> (r: Self) {
        FixedState
    }
}

impl AnyValueBuilder for FixedState {
    /// ahash's hasher takes bytes and numbers of every width.
    open spec fn takes_any_value() -> bool {
        true
    }
}

impl BuildHasher for FixedState {
    type Hasher = AHasher;

    /// A hasher keyed by the four fixed seeds: the same one every time, so
    /// that equal values hash alike in every map and in every run.
    fn build_hasher(&self) -> (hasher: AHasher)
        ensures
            hasher == fixed_hasher(),
    {
        let state = seeded_state(FIXED_SEED_0, FIXED_SEED_1, FIXED_SEED_2, FIXED_SEED_3);
        hasher_of(&state)
    }
}

/// Builds `PassHasher`s.
pub struct PassHash;

impl Default for PassHash {
    fn default() -> (r: Self) {
        PassHash
    }
}

/// A hasher for one `u64`, which is its own hash. It takes nothing else.
#[derive(Debug)]
pub struct PassHasher {
    hash: u64,
}

impl PassHasher {
    /// The number written last, or zero where none was.
    pub closed spec fn view(&self) -> u64 {
        self.hash
    }

    /// Whether the hasher takes bytes: it does not, only whole numbers.
    pub open spec fn takes_bytes(&self) -> bool {
        false
    }
}

impl Default for PassHasher {
    fn default() -> (r: Self)
        ensures
            r@ == 0,
    {
        PassHasher { hash: 0 }
    }
}

impl Hasher for PassHasher {
    /// Never to be called: the hasher takes whole numbers and nothing else.
    /// A key that feeds it bytes is a mistake in the program, which ends
    /// here.
    fn write(&mut self, _bytes: &[u8])
        requires
            old(self).takes_bytes(),
    {
        vstd::pervasive::unreached()
    }

    /// Takes `i`, which is the hash from then on.
    fn write_u64(&mut self, i: u64)
        ensures
            final(self)@ == i,
    {
        self.hash = i;
    }

    /// The number written last, or zero where none was.
    fn finish(&self) -> (h: u64)
        ensures
            h == self@,
    {
        self.hash
    }
}

impl AnyValueBuilder for PassHash {
    /// A `PassHasher` takes a `u64` and nothing else.
    open spec fn takes_any_value() -> bool {
        false
    }
}

impl BuildHasher for PassHash {
    type Hasher = PassHasher;

    /// A hasher that has taken no number yet.
    fn build_hasher(&self) -> (h: PassHasher)
        ensures
            h@ == 0,
    {
        PassHasher::default()
    }
}

/// Builds `EntityHasher`s.
pub struct EntityHash;

impl Default for EntityHash {
    fn default() -> (r: Self) {
        EntityHash
    }
}

/// A hasher for one `u64` that is an index with a generation, such as the
/// id of an entity. It takes nothing else.
#[derive(Debug)]
pub struct EntityHasher {
    hash: u64,
}

/// A number close to `u64::MAX` divided by pi, which spreads the bits of a
/// number that is multiplied by it.
pub const FRAC_U64MAX_PI: u64 = 0x517cc1b727220a95;

/// The product of two numbers, as far as it fits in 64 bits.
pub open spec fn wrapped_product(a: u64, b: u64) -> u64 {
    ((a * b) % 0x1_0000_0000_0000_0000) as u64
}

/// The hash of `i`: `i` itself, with the low half of its product with
/// `FRAC_U64MAX_PI` laid over its upper half. The upper bits are the ones
/// that a hash table picks its group by.
pub open spec fn entity_hash(i: u64) -> u64 {
    i | (wrapped_product(i, FRAC_U64MAX_PI) << 32)
}

impl EntityHasher {
    /// The hash of the number written last, or zero where none was.
    pub closed spec fn view(&self) -> u64 {
        self.hash
    }

    /// Whether the hasher takes bytes: it does not, only whole numbers.
    pub open spec fn takes_bytes(&self) -> bool {
        false
    }
}

impl Default for EntityHasher {
    fn default() -> (r: Self)
        ensures
            r@ == 0,
    {
        EntityHasher { hash: 0 }
    }
}

impl Hasher for EntityHasher {
    /// Never to be called: the hasher takes whole numbers and nothing else.
    /// A key that feeds it bytes is a mistake in the program, which ends
    /// here.
    fn write(&mut self, _bytes: &[u8])
        requires
            old(self).takes_bytes(),
    {
        vstd::pervasive::unreached()
    }

    /// Takes `i`, whose hash is the hash from then on.
    fn write_u64(&mut self, i: u64)
        ensures
            final(self)@ == entity_hash(i),
    {
        self.hash = i | (i.wrapping_mul(FRAC_U64MAX_PI) << 32);
    }

    /// The hash of the number written last, or zero where none was.
    fn finish(&self) -> (h: u64)
        ensures
            h == self@,
    {
        self.hash
    }
}

impl AnyValueBuilder for EntityHash {
    /// An `EntityHasher` takes a `u64` and nothing else.
    open spec fn takes_any_value() -> bool {
        false
    }
}

impl BuildHasher for EntityHash {
    type Hasher = EntityHasher;

    /// A hasher that has taken no number yet.
    fn build_hasher(&self) -> (h: EntityHasher)
        ensures
            h@ == 0,
    {
        EntityHasher::default()
    }
}

/// Every bit of a number is set in its hash.
pub proof fn lemma_entity_hash_keeps_bits(i: u64)
    ensures
        entity_hash(i) & i == i,
{
    let p = wrapped_product(i, FRAC_U64MAX_PI);
    assert((i | (p << 32)) & i == i) by (bit_vector);
}

} // verus!
