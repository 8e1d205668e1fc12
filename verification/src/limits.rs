//! Resource limits of a sandbox: the cap on its linear memory and the
//! accounting of the fuel it burns.
use vstd::prelude::*;

verus! {

/// The bytes by which a linear memory grows from `current` to `desired`
/// bytes; nothing when it does not grow.
pub open spec fn growth(current: usize, desired: usize) -> nat {
    if desired > current {
        (desired - current) as nat
    } else {
        0
    }
}

/// Whether a growth from `current` to `desired` bytes fits beside the
/// `reserved` bytes already held under the cap `limit`.
pub open spec fn growth_fits(limit: nat, reserved: nat, current: usize, desired: usize) -> bool {
    reserved + growth(current, desired) <= limit
}

/// The fuel an execution burned: the budget it was given minus what is left
/// of it, and never less than nothing.
pub open spec fn fuel_burned(budget: u64, remaining: u64) -> u64 {
    if remaining <= budget {
        (budget - remaining) as u64
    } else {
        0
    }
}

/// The fuel burned by an execution that was given `budget` and has
/// `remaining` left.
pub fn fuel_consumed(budget: u64, remaining: u64) -> (r: u64)
    ensures
        r == fuel_burned(budget, remaining),
{
    if remaining <= budget {
        budget - remaining
    } else {
        0
    }
}

/// An execution never burns more fuel than it was given.
pub proof fn lemma_burned_within_budget(budget: u64, remaining: u64)
    ensures
        fuel_burned(budget, remaining) <= budget,
        remaining <= budget ==> fuel_burned(budget, remaining) + remaining == budget,
{
}

/// The linear memory of one sandbox: a hard cap over all of its memories
/// together, and the bytes its memories hold under that cap.
#[derive(Debug)]
pub struct MemoryBudget {
    limit: usize,
    reserved: usize,
    last_grant: usize,
}

impl MemoryBudget {
    /// The cap, in bytes.
    pub closed spec fn limit(&self) -> nat {
        self.limit as nat
    }

    /// The bytes that the sandbox's memories hold.
    pub closed spec fn reserved(&self) -> nat {
        self.reserved as nat
    }

    /// The bytes of the last growth granted, until it is settled.
    pub closed spec fn last_grant(&self) -> nat {
        self.last_grant as nat
    }

    /// The budget never holds more than its cap, and the last growth granted
    /// is part of what it holds.
    pub closed spec fn wf(&self) -> bool {
        &&& self.reserved <= self.limit
        &&& self.last_grant <= self.reserved
    }

    /// A budget with cap `limit` of which nothing is held yet.
    pub fn new(limit: usize) -> (r: MemoryBudget)
        ensures
            r.wf(),
            r.limit() == limit,
            r.reserved() == 0,
            r.last_grant() == 0,
    {
        MemoryBudget { limit, reserved: 0, last_grant: 0 }
    }

    /// The cap, in bytes.
    pub fn limit_bytes(&self) -> (r: usize)
        ensures
            r == self.limit(),
    {
        self.limit
    }

    /// The bytes that the sandbox's memories hold.
    pub fn reserved_bytes(&self) -> (r: usize)
        ensures
            r == self.reserved(),
    {
        self.reserved
    }

    /// Decides whether a linear memory of the sandbox may grow (or be
    /// created, from 0 bytes) from `current` to `desired` bytes. A growth
    /// that fits under the cap is granted and held; any other is refused and
    /// changes nothing.
    pub fn memory_growing(&mut self, current: usize, desired: usize) -> (r: bool)
        requires
            old(self).wf(),
        ensures
            final(self).wf(),
            final(self).limit() == old(self).limit(),
            r == growth_fits(old(self).limit(), old(self).reserved(), current, desired),
            r ==> final(self).reserved() == old(self).reserved() + growth(current, desired)
                && final(self).last_grant() == growth(current, desired),
            !r ==> final(self).reserved() == old(self).reserved() && final(self).last_grant()
                == old(self).last_grant(),
    {
        if desired <= current {
            self.last_grant = 0;
            true
        } else {
            let extra = desired - current;
            if extra <= self.limit - self.reserved {
                self.reserved = self.reserved + extra;
                self.last_grant = extra;
                true
            } else {
                false
            }
        }
    }

    /// The growth granted last did not happen after all: its bytes are given
    /// back.
    pub fn memory_grow_failed(&mut self)
        requires
            old(self).wf(),
        ensures
            final(self).wf(),
            final(self).limit() == old(self).limit(),
            final(self).reserved() == old(self).reserved() - old(self).last_grant(),
            final(self).last_grant() == 0,
    {
        self.reserved = self.reserved - self.last_grant;
        self.last_grant = 0;
    }
}

/// The error with which a sandbox is stopped when its memory would grow
/// beyond its cap.
pub open spec fn memory_cap_text() -> Seq<char> {
    "linear memory limit exceeded"@
}

/// The error for a growth beyond the memory cap.
pub fn memory_cap_message() -> (r: String)
    ensures
        r@ == memory_cap_text(),
{
    String::from_str("linear memory limit exceeded")
}

/// A single request for more than the whole cap is always refused.
pub proof fn lemma_oversized_growth_refused(
    limit: nat,
    reserved: nat,
    current: usize,
    desired: usize,
)
    requires
        growth(current, desired) > limit,
    ensures
        !growth_fits(limit, reserved, current, desired),
{
}

/// Once the cap is full, no memory of the sandbox can grow any more.
pub proof fn lemma_full_budget_refuses_growth(
    limit: nat,
    current: usize,
    desired: usize,
)
    requires
        desired > current,
    ensures
        !growth_fits(limit, limit, current, desired),
{
}

} // verus!
