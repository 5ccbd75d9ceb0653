//! Reference-counted clock gating shared by every driver handle of a peripheral.
//!
//! Each handle holds a `PeripheralGuard`. The first guard of a peripheral opens
//! its clock gate, the last one to be released closes it; in between the clock
//! is left alone.
use vstd::prelude::*;

verus! {

/// The peripherals whose clock gates the drivers control.
#[derive(Clone, Copy, Debug, PartialEq, Eq, Structural)]
pub enum Peripheral {
    Aes,
    Pcnt,
}

/// Number of peripherals with a clock gate.
pub const PERIPHERAL_COUNT: usize = 2;

impl Peripheral {
    /// The stable id of the peripheral, an index into the count and clock tables.
    pub open spec fn id(self) -> int {
        match self {
            Peripheral::Aes => 0,
            Peripheral::Pcnt => 1,
        }
    }

    pub fn index(&self) -> (r: usize)
        ensures
            r == self.id(),
    {
        match self {
            Peripheral::Aes => 0,
            Peripheral::Pcnt => 1,
        }
    }
}

/// Ownership token for one enabled use of a peripheral.
pub struct PeripheralGuard {
    peripheral: Peripheral,
}

impl PeripheralGuard {
    pub closed spec fn spec_peripheral(&self) -> Peripheral {
        self.peripheral
    }

    pub fn peripheral(&self) -> (r: Peripheral)
        ensures
            r == self.spec_peripheral(),
    {
        self.peripheral
    }
}

/// The per-peripheral guard counts and the clock-gate register they drive.
pub struct ClockControl {
    counts: Vec<usize>,
    gates: Vec<bool>,
}

impl ClockControl {
    /// Number of outstanding guards of `p`.
    pub closed spec fn count(&self, p: Peripheral) -> nat {
        self.counts@[p.id()] as nat
    }

    /// Whether the clock gate of `p` is open.
    pub closed spec fn enabled(&self, p: Peripheral) -> bool {
        self.gates@[p.id()]
    }

    pub closed spec fn wf(&self) -> bool {
        &&& self.counts@.len() == PERIPHERAL_COUNT
        &&& self.gates@.len() == PERIPHERAL_COUNT
        &&& forall|i: int| 0 <= i < PERIPHERAL_COUNT ==> #[trigger] self.gates@[i] == (self.counts@[i] > 0)
    }

    /// Every clock gate is open exactly when its peripheral has an outstanding guard.
    pub open spec fn gates_follow_counts(&self) -> bool {
        forall|p: Peripheral| #[trigger] self.enabled(p) == (self.count(p) > 0)
    }

    /// A well-formed state keeps every gate in step with its count.
    pub proof fn lemma_gates_follow_counts(&self)
        requires
            self.wf(),
        ensures
            self.gates_follow_counts(),
    {
        assert forall|p: Peripheral| #[trigger] self.enabled(p) == (self.count(p) > 0) by {
            assert(0 <= p.id() < PERIPHERAL_COUNT);
        }
    }

    /// All gates closed, no guard outstanding.
    pub fn new() -> (r: ClockControl)
        ensures
            r.wf(),
            r.gates_follow_counts(),
            forall|p: Peripheral| #[trigger] r.count(p) == 0 && !r.enabled(p),
    {
        let r = ClockControl { counts: vec![0, 0], gates: vec![false, false] };
        proof {
            r.lemma_gates_follow_counts();
        }
        r
    }

    pub fn count_of(&self, p: Peripheral) -> (r: usize)
        requires
            self.wf(),
        ensures
            r == self.count(p),
    {
        self.counts[p.index()]
    }

    pub fn is_enabled(&self, p: Peripheral) -> (r: bool)
        requires
            self.wf(),
        ensures
            r == self.enabled(p),
    {
        self.gates[p.index()]
    }

    /// Takes one guard of `p`, opening its clock gate if it was the first.
    pub fn acquire(&mut self, p: Peripheral) -> (g: PeripheralGuard)
        requires
            old(self).wf(),
            old(self).count(p) < usize::MAX,
        ensures
            final(self).wf(),
            final(self).gates_follow_counts(),
            g.spec_peripheral() == p,
            final(self).count(p) == old(self).count(p) + 1,
            final(self).enabled(p),
            forall|q: Peripheral|
                q != p ==> #[trigger] final(self).count(q) == old(self).count(q)
                    && final(self).enabled(q) == old(self).enabled(q),
    {
        let i = p.index();
        let c = self.counts[i];
        self.counts.set(i, c + 1);
        if c == 0 {
            self.gates.set(i, true);
        }
        proof {
            assert forall|q: Peripheral| q != p implies q.id() != p.id() by {}
            self.lemma_gates_follow_counts();
        }
        PeripheralGuard { peripheral: p }
    }

    /// Gives a guard back, closing the clock gate of its peripheral if it was
    /// the last one. A guard with no outstanding count behind it changes nothing.
    pub fn release(&mut self, g: PeripheralGuard)
        requires
            old(self).wf(),
        ensures
            final(self).wf(),
            final(self).gates_follow_counts(),
            ({
                let p = g.spec_peripheral();
                &&& old(self).count(p) == 0 ==> final(self).count(p) == 0
                &&& old(self).count(p) > 0 ==> final(self).count(p) == old(self).count(p) - 1
                &&& final(self).enabled(p) == (final(self).count(p) > 0)
            }),
            forall|q: Peripheral|
                q != g.spec_peripheral() ==> #[trigger] final(self).count(q) == old(self).count(q)
                    && final(self).enabled(q) == old(self).enabled(q),
    {
        let p = g.peripheral;
        let i = p.index();
        let c = self.counts[i];
        if c > 0 {
            self.counts.set(i, c - 1);
            if c == 1 {
                self.gates.set(i, false);
            }
        }
        proof {
            assert forall|q: Peripheral| q != p implies q.id() != p.id() by {}
            self.lemma_gates_follow_counts();
        }
    }
}

} // verus!
