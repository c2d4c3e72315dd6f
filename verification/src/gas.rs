//! Gas accounting for guest execution.
//!
//! Both meters are monotonic counters with a configured ceiling. Every host
//! call and every instrumented guest instruction charges the meter; a charge
//! that would push the total past the ceiling fails with `GasExceeded` and
//! leaves the recorded consumption at the ceiling, so that every later charge
//! fails as well.

use vstd::prelude::*;

verus! {

/// Default ceiling for a transaction-level gas meter.
pub const DEFAULT_TX_GAS_CEILING: u64 = 10_000_000_000;

/// Error raised when a charge does not fit under the meter's ceiling.
#[derive(Clone, Copy, Debug, PartialEq, Eq, Structural)]
pub struct GasExceeded;

/// Gas meter for a whole transaction (aggregated per block by the caller).
#[derive(Clone, Debug)]
pub struct BlockGasMeter {
    used: u64,
    ceiling: u64,
}

impl BlockGasMeter {
    /// All gas recorded so far.
    pub closed spec fn spec_used(self) -> u64 {
        self.used
    }

    /// The configured ceiling.
    pub closed spec fn spec_ceiling(self) -> u64 {
        self.ceiling
    }

    /// A meter never records more than its ceiling.
    pub open spec fn wf(self) -> bool {
        self.spec_used() <= self.spec_ceiling()
    }

    /// A fresh meter with the given ceiling and nothing consumed.
    pub fn new(ceiling: u64) -> (r: Self)
        ensures
            r.wf(),
            r.spec_used() == 0,
            r.spec_ceiling() == ceiling,
    {
        BlockGasMeter { used: 0, ceiling }
    }

    /// A fresh meter with the default transaction ceiling.
    pub fn default_meter() -> (r: Self)
        ensures
            r.wf(),
            r.spec_used() == 0,
            r.spec_ceiling() == DEFAULT_TX_GAS_CEILING,
    {
        BlockGasMeter { used: 0, ceiling: DEFAULT_TX_GAS_CEILING }
    }

    /// Record `cost` units of gas. Fails, saturating the meter at its
    /// ceiling, exactly when the total would go past the ceiling.
    pub fn add(&mut self, cost: u64) -> (r: Result<(), GasExceeded>)
        requires
            old(self).wf(),
        ensures
            final(self).wf(),
            final(self).spec_ceiling() == old(self).spec_ceiling(),
            r is Ok <==> old(self).spec_used() + cost <= old(self).spec_ceiling(),
            r is Ok ==> final(self).spec_used() == old(self).spec_used() + cost,
            r is Err ==> final(self).spec_used() == old(self).spec_ceiling(),
    {
        if cost <= self.ceiling - self.used {
            self.used = self.used + cost;
            Ok(())
        } else {
            self.used = self.ceiling;
            Err(GasExceeded)
        }
    }

    /// Record three charges at once; fails, saturating the meter, exactly
    /// when their sum would go past the ceiling.
    pub fn charge3(&mut self, c1: u64, c2: u64, c3: u64) -> (r: Result<(), GasExceeded>)
        requires
            old(self).wf(),
        ensures
            final(self).wf(),
            final(self).spec_ceiling() == old(self).spec_ceiling(),
            r is Ok <==> old(self).spec_used() + c1 + c2 + c3 <= old(self).spec_ceiling(),
            r is Ok ==> final(self).spec_used() == old(self).spec_used() + c1 + c2 + c3,
            r is Err ==> final(self).spec_used() == old(self).spec_ceiling(),
    {
        let room = self.ceiling - self.used;
        if c1 <= room && c2 <= room - c1 && c3 <= (room - c1) - c2 {
            self.used = self.used + c1 + c2 + c3;
            Ok(())
        } else {
            self.used = self.ceiling;
            Err(GasExceeded)
        }
    }

    /// All gas recorded so far.
    pub fn used(&self) -> (r: u64)
        ensures
            r == self.spec_used(),
    {
        self.used
    }

    /// The configured ceiling.
    pub fn ceiling(&self) -> (r: u64)
        ensures
            r == self.spec_ceiling(),
    {
        self.ceiling
    }

    /// A copy with the same consumption and ceiling.
    pub fn snapshot(&self) -> (r: Self)
        ensures
            r == *self,
    {
        BlockGasMeter { used: self.used, ceiling: self.ceiling }
    }
}

/// Once a positive charge has saturated a meter, every later positive charge
/// fails as well: a guest that ran out of gas stays out of gas.
pub proof fn lemma_gas_exhaustion_is_final(m: BlockGasMeter, cost: u64)
    requires
        m.wf(),
        m.spec_used() == m.spec_ceiling(),
        cost > 0,
    ensures
        m.spec_used() + cost > m.spec_ceiling(),
{
}

/// Gas meter for a single validity-predicate run. It starts from the gas
/// already consumed by the transaction, so that the transaction and its
/// predicates share one budget.
#[derive(Clone, Debug)]
pub struct VpGasMeter {
    initial: u64,
    used: u64,
    ceiling: u64,
}

impl VpGasMeter {
    /// Gas consumed by the transaction before this predicate started.
    pub closed spec fn spec_initial(self) -> u64 {
        self.initial
    }

    /// Gas recorded by this predicate on top of the initial amount.
    pub closed spec fn spec_used(self) -> u64 {
        self.used
    }

    /// The configured ceiling.
    pub closed spec fn spec_ceiling(self) -> u64 {
        self.ceiling
    }

    /// The total never goes past the ceiling.
    pub open spec fn wf(self) -> bool {
        self.spec_initial() + self.spec_used() <= self.spec_ceiling()
    }

    /// A fresh meter that continues from `initial_used` units already
    /// consumed, under the default transaction ceiling.
    pub fn new(initial_used: u64) -> (r: Self)
        requires
            initial_used <= DEFAULT_TX_GAS_CEILING,
        ensures
            r.wf(),
            r.spec_initial() == initial_used,
            r.spec_used() == 0,
            r.spec_ceiling() == DEFAULT_TX_GAS_CEILING,
    {
        VpGasMeter { initial: initial_used, used: 0, ceiling: DEFAULT_TX_GAS_CEILING }
    }

    /// A fresh meter continuing from `initial_used` under a caller-chosen
    /// ceiling.
    pub fn new_with_ceiling(initial_used: u64, ceiling: u64) -> (r: Self)
        requires
            initial_used <= ceiling,
        ensures
            r.wf(),
            r.spec_initial() == initial_used,
            r.spec_used() == 0,
            r.spec_ceiling() == ceiling,
    {
        VpGasMeter { initial: initial_used, used: 0, ceiling }
    }

    /// Record `cost` units of gas. Fails, saturating the meter, exactly when
    /// the total would go past the ceiling.
    pub fn add(&mut self, cost: u64) -> (r: Result<(), GasExceeded>)
        requires
            old(self).wf(),
        ensures
            final(self).wf(),
            final(self).spec_ceiling() == old(self).spec_ceiling(),
            final(self).spec_initial() == old(self).spec_initial(),
            r is Ok <==> old(self).spec_initial() + old(self).spec_used() + cost
                <= old(self).spec_ceiling(),
            r is Ok ==> final(self).spec_used() == old(self).spec_used() + cost,
            r is Err ==> final(self).spec_initial() + final(self).spec_used()
                == final(self).spec_ceiling(),
    {
        let headroom = self.ceiling - self.initial;
        if cost <= headroom - self.used {
            self.used = self.used + cost;
            Ok(())
        } else {
            self.used = headroom;
            Err(GasExceeded)
        }
    }

    /// Record three charges at once; fails, saturating the meter, exactly
    /// when their sum would go past the ceiling.
    pub fn charge3(&mut self, c1: u64, c2: u64, c3: u64) -> (r: Result<(), GasExceeded>)
        requires
            old(self).wf(),
        ensures
            final(self).wf(),
            final(self).spec_ceiling() == old(self).spec_ceiling(),
            final(self).spec_initial() == old(self).spec_initial(),
            r is Ok <==> old(self).spec_initial() + old(self).spec_used() + c1 + c2 + c3
                <= old(self).spec_ceiling(),
            r is Ok ==> final(self).spec_used() == old(self).spec_used() + c1 + c2 + c3,
            r is Err ==> final(self).spec_initial() + final(self).spec_used()
                == final(self).spec_ceiling(),
    {
        let room = (self.ceiling - self.initial) - self.used;
        if c1 <= room && c2 <= room - c1 && c3 <= (room - c1) - c2 {
            self.used = self.used + c1 + c2 + c3;
            Ok(())
        } else {
            self.used = self.ceiling - self.initial;
            Err(GasExceeded)
        }
    }

    /// Gas recorded by this predicate on top of the initial amount.
    pub fn used(&self) -> (r: u64)
        ensures
            r == self.spec_used(),
    {
        self.used
    }

    /// Gas consumed before this predicate started.
    pub fn initial(&self) -> (r: u64)
        ensures
            r == self.spec_initial(),
    {
        self.initial
    }

    /// The configured ceiling.
    pub fn ceiling(&self) -> (r: u64)
        ensures
            r == self.spec_ceiling(),
    {
        self.ceiling
    }

    /// A copy with the same consumption, start and ceiling.
    pub fn snapshot(&self) -> (r: Self)
        ensures
            r == *self,
    {
        VpGasMeter { initial: self.initial, used: self.used, ceiling: self.ceiling }
    }

}

} // verus!
