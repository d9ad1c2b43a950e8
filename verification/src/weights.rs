//! What the calls cost. The arithmetic on costs is that of
//! `frame_support::weights`.

use core::marker::PhantomData;
use frame_support::traits::Get;
use vstd::prelude::*;

verus! {

/// The cost of a call: the time it takes on the reference hardware, and the
/// size of the proof that it adds.
#[derive(Clone, Copy, Debug, PartialEq, Eq)]
pub struct Weight {
    pub ref_time: u64,
    pub proof_size: u64,
}

/// The cost of one read and of one write to the database, in reference time.
#[derive(Clone, Copy, Debug, PartialEq, Eq)]
pub struct RuntimeDbWeight {
    pub read: u64,
    pub write: u64,
}

/// The sum of two costs, or the greatest `u64` where the sum is above it.
pub open spec fn saturating_sum(a: u64, b: u64) -> u64 {
    if a + b > u64::MAX {
        u64::MAX
    } else {
        (a + b) as u64
    }
}

/// The product of two costs, or the greatest `u64` where the product is above
/// it.
pub open spec fn saturating_product(a: u64, b: u64) -> u64 {
    if a * b > u64::MAX {
        u64::MAX
    } else {
        (a * b) as u64
    }
}

/// Calls `Weight::from_parts`.
///
/// Taken on trust: the weight has the two parts that were given.
#[verifier::external_body]
fn weight_from_parts(ref_time: u64, proof_size: u64) -> (w: Weight)
    ensures
        w.ref_time == ref_time,
        w.proof_size == proof_size,
{
    let w = frame_support::weights::Weight::from_parts(ref_time, proof_size);
    Weight { ref_time: w.ref_time(), proof_size: w.proof_size() }
}

/// Calls `Weight::saturating_add`.
///
/// Taken on trust: each part of the result is the sum of that part of `a` and
/// of `b`, or the greatest `u64` where the sum is above it.
#[verifier::external_body]
fn weight_saturating_add(a: Weight, b: Weight) -> (w: Weight)
    ensures
        w.ref_time == saturating_sum(a.ref_time, b.ref_time),
        w.proof_size == saturating_sum(a.proof_size, b.proof_size),
{
    let a = frame_support::weights::Weight::from_parts(a.ref_time, a.proof_size);
    let b = frame_support::weights::Weight::from_parts(b.ref_time, b.proof_size);
    let w = a.saturating_add(b);
    Weight { ref_time: w.ref_time(), proof_size: w.proof_size() }
}

/// Calls `RuntimeDbWeight::writes`.
///
/// Taken on trust: the reference time of the result is `n` times the cost of
/// a write, or the greatest `u64` where that is above it, and its proof size
/// is zero.
#[verifier::external_body]
fn db_writes(db: RuntimeDbWeight, n: u64) -> (w: Weight)
    ensures
        w.ref_time == saturating_product(db.write, n),
        w.proof_size == 0,
{
    let db = frame_support::weights::RuntimeDbWeight { read: db.read, write: db.write };
    let w = db.writes(n);
    Weight { ref_time: w.ref_time(), proof_size: w.proof_size() }
}

/// Calls `RocksDbWeight::get`.
///
/// Taken on trust: a read of RocksDB costs 25_000_000 and a write
/// 100_000_000.
#[verifier::external_body]
fn rocks_db_weight() -> (db: RuntimeDbWeight)
    ensures
        db.read == 25_000_000,
        db.write == 100_000_000,
{
    let db = frame_support::weights::constants::RocksDbWeight::get();
    RuntimeDbWeight { read: db.read, write: db.write }
}

/// The reference time that a call costs before its writes.
pub const BASE_REF_TIME: u64 = 9_000_000;

/// The cost of a call that writes once: the base time and the time of one
/// write of `db`, with no proof size.
pub open spec fn spec_call_weight(db: RuntimeDbWeight) -> Weight {
    Weight { ref_time: saturating_sum(BASE_REF_TIME, db.write), proof_size: 0 }
}

/// The cost of a call that writes once, on a database whose costs are `db`.
#[verifier::when_used_as_spec(spec_call_weight)]
pub fn call_weight(db: RuntimeDbWeight) -> (w: Weight)
    ensures
        w == spec_call_weight(db),
{
    weight_saturating_add(weight_from_parts(BASE_REF_TIME, 0), db_writes(db, 1))
}

/// The cost of each call of the book store.
pub trait WeightInfo {
    fn create_book() -> Weight;

    fn get_books() -> Weight;

    fn update_book() -> Weight;

    fn delete_book() -> Weight;
}

/// A source of the database costs of a host.
pub trait DbWeight {
    fn get() -> RuntimeDbWeight;
}

/// The costs of the calls on a host whose database costs are those of `T`.
/// Each call costs one write, for some cost of a write that `T` gives.
pub struct SubstrateWeight<T>(PhantomData<T>);

impl<T: DbWeight> WeightInfo for SubstrateWeight<T> {
    fn create_book() -> (w: Weight)
        ensures
            exists|db: RuntimeDbWeight| call_ensures(T::get, (), db) && w == call_weight(db),
    {
        call_weight(T::get())
    }

    fn get_books() -> (w: Weight)
        ensures
            exists|db: RuntimeDbWeight| call_ensures(T::get, (), db) && w == call_weight(db),
    {
        call_weight(T::get())
    }

    fn update_book() -> (w: Weight)
        ensures
            exists|db: RuntimeDbWeight| call_ensures(T::get, (), db) && w == call_weight(db),
    {
        call_weight(T::get())
    }

    fn delete_book() -> (w: Weight)
        ensures
            exists|db: RuntimeDbWeight| call_ensures(T::get, (), db) && w == call_weight(db),
    {
        call_weight(T::get())
    }
}

/// The costs of the calls on RocksDB: 109_000_000 of reference time each.
impl WeightInfo for () {
    fn create_book() -> (w: Weight)
        ensures
            w == (Weight { ref_time: 109_000_000, proof_size: 0 }),
    {
        call_weight(rocks_db_weight())
    }

    fn get_books() -> (w: Weight)
        ensures
            w == (Weight { ref_time: 109_000_000, proof_size: 0 }),
    {
        call_weight(rocks_db_weight())
    }

    fn update_book() -> (w: Weight)
        ensures
            w == (Weight { ref_time: 109_000_000, proof_size: 0 }),
    {
        call_weight(rocks_db_weight())
    }

    fn delete_book() -> (w: Weight)
        ensures
            w == (Weight { ref_time: 109_000_000, proof_size: 0 }),
    {
        call_weight(rocks_db_weight())
    }
}

} // verus!
