//! The record of the contracts that were deployed, and the prices that the
//! market has published.

use crate::price_data::PriceData;
use vstd::prelude::*;

verus! {

/// One deployed contract.
#[derive(Debug, Clone)]
pub struct Contract {
    pub name: String,
    pub package_hash: String,
}

/// The deployed contracts and the time at which the record was begun.
#[derive(Debug, Clone)]
pub struct DeployedContractsToml {
    pub time: String,
    pub contracts: Vec<Contract>,
}

/// Calls `chrono::Utc::now` and `chrono::DateTime::to_rfc3339_opts`: the
/// current time as text. Nothing is claimed of it.
#[verifier::external_body]
fn current_time() -> String {
    chrono::Utc::now().to_rfc3339_opts(chrono::SecondsFormat::Secs, true)
}

impl DeployedContractsToml {
    /// An empty record, begun now: the record of [`Self::begun_at`] for the
    /// time that the clock gives.
    pub fn new() -> (r: Self)
        ensures
            r.contracts@.len() == 0,
    {
        Self::begun_at(current_time())
    }

    /// An empty record, begun at `time`.
    pub fn begun_at(time: String) -> (r: Self)
        ensures
            r.time == time,
            r.contracts@.len() == 0,
    {
        Self { time, contracts: Vec::new() }
    }

    /// The time at which the record was begun.
    pub fn time(&self) -> (r: &str)
        ensures
            r@ == self.time@,
    {
        self.time.as_str()
    }

    /// Adds a contract at the end of the record.
    pub fn add_contract(&mut self, name: String, package_hash: String)
        ensures
            final(self).time == old(self).time,
            final(self).contracts@ == old(self).contracts@.push(Contract { name, package_hash }),
    {
        self.contracts.push(Contract { name, package_hash });
    }

    /// The package hash of the first contract called `name`, or `None` where
    /// the record has no such contract.
    pub fn package_hash(&self, name: &String) -> (r: Option<&String>)
        ensures
            match r {
                Some(hash) => exists|i: int|
                    0 <= i < self.contracts@.len() && self.contracts@[i].name@ == name@
                        && self.contracts@[i].package_hash == *hash && forall|j: int|
                        0 <= j < i ==> self.contracts@[j].name@ != name@,
                None => forall|i: int|
                    0 <= i < self.contracts@.len() ==> self.contracts@[i].name@ != name@,
            },
    {
        let mut i: usize = 0;
        while i < self.contracts.len()
            invariant
                i <= self.contracts@.len(),
                forall|j: int| 0 <= j < i ==> self.contracts@[j].name@ != name@,
            decreases self.contracts@.len() - i,
        {
            if self.contracts[i].name == *name {
                return Some(&self.contracts[i].package_hash);
            }
            i += 1;
        }
        None
    }
}

/// The prices among `fetched` that could be had, in the order of `fetched`.
pub open spec fn present(fetched: Seq<Option<PriceData>>) -> Seq<PriceData>
    decreases fetched.len(),
{
    if fetched.len() == 0 {
        Seq::empty()
    } else {
        let before = present(fetched.drop_last());
        match fetched.last() {
            Some(price) => before.push(price),
            None => before,
        }
    }
}

/// Leaves out of `fetched` what could not be had.
pub fn available(fetched: &Vec<Option<PriceData>>) -> (r: Vec<PriceData>)
    ensures
        r@ == present(fetched@),
{
    let mut prices: Vec<PriceData> = Vec::new();
    let mut i: usize = 0;
    while i < fetched.len()
        invariant
            i <= fetched@.len(),
            prices@ == present(fetched@.take(i as int)),
        decreases fetched@.len() - i,
    {
        assert(fetched@.take(i as int + 1).drop_last() == fetched@.take(i as int));
        match fetched[i] {
            Some(price) => {
                prices.push(price);
            },
            None => {},
        }
        i += 1;
    }
    assert(fetched@.take(fetched@.len() as int) == fetched@);
    prices
}

/// Fetches the prices numbered from `start` to `end`, `end` left out, the
/// latest first, and leaves out those that cannot be had: `fetch` is called
/// once for each number, from `end - 1` down to `start`, and what it returned
/// is returned in that order.
pub fn get_prices(fetch: impl Fn(u32) -> Option<PriceData>, start: u32, end: u32) -> (r: Vec<
    PriceData,
>)
    requires
        forall|idx: u32| start <= idx < end ==> call_requires(fetch, (idx,)),
    ensures
        exists|fetched: Seq<Option<PriceData>>|
            {
                &&& fetched.len() == if start < end {
                    end - start
                } else {
                    0
                }
                &&& forall|k: int|
                    0 <= k < fetched.len() ==> call_ensures(
                        fetch,
                        ((end - 1 - k) as u32,),
                        #[trigger] fetched[k],
                    )
                &&& r@ == present(fetched)
            },
{
    let mut fetched: Vec<Option<PriceData>> = Vec::new();
    let mut i: u32 = end;
    while i > start
        invariant
            start <= i <= end || (start >= end && i == end),
            forall|idx: u32| start <= idx < end ==> call_requires(fetch, (idx,)),
            fetched@.len() == end - i,
            forall|k: int|
                0 <= k < fetched@.len() ==> call_ensures(
                    fetch,
                    ((end - 1 - k) as u32,),
                    #[trigger] fetched@[k],
                ),
        decreases i,
    {
        i -= 1;
        let outcome = fetch(i);
        fetched.push(outcome);
    }
    available(&fetched)
}

} // verus!
