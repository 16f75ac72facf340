//! Durable state: the seed stored under each key name, and the counter of
//! signatures handed out.
//!
//! Both live in stable memory, in a `StableBTreeMap` and a `StableCell` of
//! `ic_stable_structures`. What the two hold is named by `stored_seeds` and
//! `stored_count`; the contracts of this module are stated over these names.

use crate::types::Error;
use crate::types::Metrics;
use crate::types::SchnorrKeyId;
use ic_stable_structures::memory_manager::MemoryId;
use ic_stable_structures::memory_manager::MemoryManager;
use ic_stable_structures::memory_manager::VirtualMemory;
use ic_stable_structures::DefaultMemoryImpl;
use ic_stable_structures::StableBTreeMap;
use ic_stable_structures::StableCell;
use vstd::prelude::*;

verus! {

/// The stable memory of the process, split into independent regions by a
/// `MemoryManager`.
#[verifier::external_body]
pub struct StableMemory {
    manager: MemoryManager<DefaultMemoryImpl>,
}

/// The durable map from key name to seed.
#[verifier::external_body]
pub struct SeedMap {
    map: StableBTreeMap<String, [u8; 64], VirtualMemory<DefaultMemoryImpl>>,
}

/// The durable cell that holds the signature counter.
#[verifier::external_body]
pub struct CountCell {
    cell: StableCell<u128, VirtualMemory<DefaultMemoryImpl>>,
}

/// The seeds that a seed map holds, by key name.
pub uninterp spec fn stored_seeds(seeds: SeedMap) -> Map<Seq<char>, Seq<u8>>;

/// The value that a counter cell holds.
pub uninterp spec fn stored_count(count: CountCell) -> u128;

/// The region of stable memory that holds the seeds.
pub const SEEDS_MEMORY: u8 = 0;

/// The region of stable memory that holds the counter.
pub const SIG_COUNT_MEMORY: u8 = 1;

/// Calls `MemoryManager::init` on the default memory of the platform.
/// Trusted; nothing is claimed of what the memory holds.
#[verifier::external_body]
fn default_memory() -> (memory: StableMemory) {
    StableMemory { manager: MemoryManager::init(DefaultMemoryImpl::default()) }
}

impl StableMemory {
    /// The stable memory of the process, as it was left.
    pub fn open() -> (memory: StableMemory) {
        default_memory()
    }
}

/// Calls `StableBTreeMap::init` on region `id` of the memory, which loads the
/// map that the region holds or makes an empty one. Trusted; nothing is
/// claimed of what the map holds. Region 255 is reserved by the memory
/// manager.
#[verifier::external_body]
fn init_stable_data(memory: &StableMemory, id: u8) -> (seeds: SeedMap)
    requires
        id < 255,
{
    SeedMap { map: StableBTreeMap::init(memory.manager.get(MemoryId::new(id))) }
}

/// Calls `StableCell::init` on region `id` of the memory, which loads the
/// cell that the region holds or writes `initial` to it; `None` where the
/// cell reports an error. Trusted; nothing is claimed of what the cell
/// holds.
#[verifier::external_body]
fn init_sig_count(memory: &StableMemory, id: u8, initial: u128) -> (count: Option<CountCell>)
    requires
        id < 255,
{
    match StableCell::init(memory.manager.get(MemoryId::new(id)), initial) {
        Ok(cell) => Some(CountCell { cell }),
        Err(_) => None,
    }
}

/// Calls `StableBTreeMap::get`. Trusted: the seed stored under the name, if
/// there is one.
#[verifier::external_body]
fn seeds_get(seeds: &SeedMap, name: &String) -> (found: Option<[u8; 64]>)
    ensures
        found is Some <==> stored_seeds(*seeds).contains_key(name@),
        found matches Some(seed) ==> seed@ == stored_seeds(*seeds)[name@],
{
    seeds.map.get(name)
}

/// Calls `StableBTreeMap::insert`. Trusted: afterwards the map holds the seed
/// under the name and is otherwise unchanged; the result is the seed that the
/// name had before, if it had one.
#[verifier::external_body]
fn seeds_insert(seeds: &mut SeedMap, name: String, seed: [u8; 64]) -> (previous: Option<[u8; 64]>)
    ensures
        stored_seeds(*final(seeds)) == stored_seeds(*old(seeds)).insert(name@, seed@),
        previous is Some <==> stored_seeds(*old(seeds)).contains_key(name@),
        previous matches Some(p) ==> p@ == stored_seeds(*old(seeds))[name@],
{
    seeds.map.insert(name, seed)
}

/// Calls `StableCell::get`. Trusted: the value that the cell holds.
#[verifier::external_body]
fn count_get(count: &CountCell) -> (value: u128)
    ensures
        value == stored_count(*count),
{
    *count.cell.get()
}

/// Calls `StableCell::set` and says whether the write succeeded. Trusted:
/// after a write that succeeded the cell holds the value; after one that
/// failed it holds what it held.
#[verifier::external_body]
fn count_set(count: &mut CountCell, value: u128) -> (written: bool)
    ensures
        written ==> stored_count(*final(count)) == value,
        !written ==> stored_count(*final(count)) == stored_count(*old(count)),
{
    count.cell.set(value).is_ok()
}

/// The seeds after provisioning `seed` under `name`: a name that has a seed
/// keeps it, a name that has none gets `seed`.
pub open spec fn provisioned(seeds: Map<Seq<char>, Seq<u8>>, name: Seq<char>, seed: Seq<u8>) -> Map<
    Seq<char>,
    Seq<u8>,
> {
    if seeds.contains_key(name) {
        seeds
    } else {
        seeds.insert(name, seed)
    }
}

/// What a lookup finds under a name: the seed, or `NotFound`.
pub open spec fn seed_of(seeds: Map<Seq<char>, Seq<u8>>, name: Seq<char>) -> Result<Seq<u8>, Error> {
    if seeds.contains_key(name) {
        Ok(seeds[name])
    } else {
        Err(Error::NotFound)
    }
}

/// The bytes of a seed or of the failure to find one.
pub open spec fn seed_view(r: Result<[u8; 64], Error>) -> Result<Seq<u8>, Error> {
    match r {
        Ok(seed) => Ok(seed@),
        Err(e) => Err(e),
    }
}

/// What a lookup hands on: the seed that was found, or `NotFound`.
pub fn seed_or_not_found(found: Option<[u8; 64]>) -> (r: Result<[u8; 64], Error>)
    ensures
        r == match found {
            Some(seed) => Ok::<[u8; 64], Error>(seed),
            None => Err(Error::NotFound),
        },
{
    match found {
        Some(seed) => Ok(seed),
        None => Err(Error::NotFound),
    }
}

/// What opening the counter hands on: the state with the seeds and the
/// counter, or a persistence failure where the counter could not be opened.
pub fn state_or_failure(seeds: SeedMap, count: Option<CountCell>) -> (r: Result<State, Error>)
    ensures
        match count {
            Some(c) => r matches Ok(state) && state.seeds() == stored_seeds(seeds) && state.count()
                == stored_count(c),
            None => r matches Err(e) && e == Error::PersistenceFailure,
        },
{
    match count {
        Some(sig_count) => Ok(State { seeds, sig_count }),
        None => Err(Error::PersistenceFailure),
    }
}

/// What a write of the counter hands on: the new value where the write
/// succeeded, a persistence failure where it did not.
pub fn count_or_failure(written: bool, value: u128) -> (r: Result<u128, Error>)
    ensures
        r == if written {
            Ok::<u128, Error>(value)
        } else {
            Err(Error::PersistenceFailure)
        },
{
    if written {
        Ok(value)
    } else {
        Err(Error::PersistenceFailure)
    }
}

/// The durable state of the service.
pub struct State {
    seeds: SeedMap,
    sig_count: CountCell,
}

impl State {
    /// The stored seeds, by key name.
    pub closed spec fn seeds(&self) -> Map<Seq<char>, Seq<u8>> {
        stored_seeds(self.seeds)
    }

    /// The number of signatures handed out.
    pub closed spec fn count(&self) -> u128 {
        stored_count(self.sig_count)
    }

    /// Opens the state that the memory holds: the seeds in their region, the
    /// counter in its own, starting at zero where the region holds none.
    ///
    /// What the state holds is what the memory held. The memory is used up:
    /// one memory backs one state. Fails with `PersistenceFailure` where the
    /// counter's region cannot be used.
    pub fn new(memory: StableMemory) -> (r: Result<State, Error>)
        ensures
            r matches Err(e) ==> e == Error::PersistenceFailure,
    {
        let seeds = init_stable_data(&memory, SEEDS_MEMORY);
        let count = init_sig_count(&memory, SIG_COUNT_MEMORY, 0);
        state_or_failure(seeds, count)
    }

    /// The seed stored under a key name, `NotFound` where there is none.
    pub fn seed(&self, key_id: &SchnorrKeyId) -> (r: Result<[u8; 64], Error>)
        ensures
            seed_view(r) == seed_of(self.seeds(), key_id@),
    {
        seed_or_not_found(seeds_get(&self.seeds, key_id.name()))
    }

    /// Provisions a seed: stores `seed` under the key name unless the name
    /// has a seed already, and says whether it was stored. A stored seed is
    /// never overwritten.
    pub fn insert_seed_if_absent(&mut self, key_id: &SchnorrKeyId, seed: [u8; 64]) -> (stored: bool)
        ensures
            final(self).seeds() == provisioned(old(self).seeds(), key_id@, seed@),
            stored == !old(self).seeds().contains_key(key_id@),
            final(self).count() == old(self).count(),
    {
        match seeds_get(&self.seeds, key_id.name()) {
            Some(_) => false,
            None => {
                let _ = seeds_insert(&mut self.seeds, key_id.name().clone(), seed);
                true
            },
        }
    }

    /// The number of signatures handed out.
    pub fn sig_count(&self) -> (count: u128)
        ensures
            count == self.count(),
    {
        count_get(&self.sig_count)
    }

    /// Adds one to the counter and returns the new value.
    ///
    /// Fails with `PersistenceFailure`, and leaves the counter as it is,
    /// where the counter is at its maximum or the write does not succeed.
    pub fn increment(&mut self) -> (r: Result<u128, Error>)
        ensures
            final(self).seeds() == old(self).seeds(),
            match r {
                Ok(value) => value == old(self).count() + 1 && final(self).count() == value,
                Err(e) => e == Error::PersistenceFailure && final(self).count() == old(
                    self,
                ).count(),
            },
            old(self).count() == u128::MAX ==> r is Err,
    {
        let current = count_get(&self.sig_count);
        if current == u128::MAX {
            return Err(Error::PersistenceFailure);
        }
        let next: u128 = current + 1;
        let written = count_set(&mut self.sig_count, next);
        count_or_failure(written, next)
    }

    /// A snapshot of the counter next to the given balance.
    pub fn metrics(&self, balance: u128) -> (m: Metrics)
        ensures
            m == (Metrics { balance, sig_count: self.count() }),
    {
        Metrics { balance, sig_count: count_get(&self.sig_count) }
    }
}

/// The counter after one sign call: one more where the call handed out a
/// signature, unchanged where it failed.
pub open spec fn counted(count: nat, signed: bool) -> nat {
    if signed {
        count + 1
    } else {
        count
    }
}

/// The counter after a run of sign calls from `start`, one entry of `signed`
/// per call: `true` where the call handed out a signature.
pub open spec fn count_after(start: nat, signed: Seq<bool>) -> nat
    decreases signed.len(),
{
    if signed.len() == 0 {
        start
    } else {
        counted(count_after(start, signed.drop_last()), signed.last())
    }
}

/// The calls of a run that handed out a signature.
pub open spec fn successes(signed: Seq<bool>) -> nat {
    signed.filter(|b: bool| b).len()
}

/// A seed is written at most once: provisioning a name twice leaves what the
/// first provisioning left, whatever the second seed is.
pub proof fn lemma_provision_idempotent(
    seeds: Map<Seq<char>, Seq<u8>>,
    name: Seq<char>,
    first: Seq<u8>,
    second: Seq<u8>,
)
    ensures
        provisioned(provisioned(seeds, name, first), name, second) == provisioned(
            seeds,
            name,
            first,
        ),
        provisioned(seeds, name, first).contains_key(name),
        seeds.contains_key(name) ==> provisioned(seeds, name, first) == seeds,
{
}

/// Provisioning one name leaves every other name as it was.
pub proof fn lemma_provision_keeps_others(
    seeds: Map<Seq<char>, Seq<u8>>,
    name: Seq<char>,
    seed: Seq<u8>,
    other: Seq<char>,
)
    requires
        other != name,
    ensures
        provisioned(seeds, name, seed).contains_key(other) == seeds.contains_key(other),
        seeds.contains_key(other) ==> provisioned(seeds, name, seed)[other] == seeds[other],
{
}

/// After a run of sign calls the counter is its value before the run plus
/// the number of calls that handed out a signature: it never decreases, and
/// a failed call leaves it unchanged.
pub proof fn lemma_count_after(start: nat, signed: Seq<bool>)
    ensures
        count_after(start, signed) == start + successes(signed),
        count_after(start, signed) >= start,
    decreases signed.len(),
{
    if signed.len() == 0 {
        assert(signed.filter(|b: bool| b) =~= Seq::<bool>::empty()) by {
            reveal(Seq::filter);
        }
    } else {
        lemma_count_after(start, signed.drop_last());
        assert(signed.filter(|b: bool| b) == if signed.last() {
            signed.drop_last().filter(|b: bool| b).push(signed.last())
        } else {
            signed.drop_last().filter(|b: bool| b)
        }) by {
            reveal(Seq::filter);
        }
    }
}

} // verus!
