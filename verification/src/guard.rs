//! The ownership guard: each kind of peripheral can be claimed once.
//!
//! The guard is a value, made once when the system starts. `acquire` takes
//! it by exclusive reference and tests and sets the flag of a kind in one
//! exchange, so no two callers can both see the flag clear.

use vstd::prelude::*;

verus! {

/// The kinds of peripheral that have a single handle.
#[derive(Clone, Copy, Debug, PartialEq, Eq, Structural)]
pub enum PeripheralKind {
    /// Reset and clock control
    Rcc,
    /// Analog-to-digital converter
    Adc,
}

/// The proof of a successful `acquire`. It cannot be copied, and only the
/// guard makes one.
#[derive(Debug)]
pub struct Claim {
    kind: PeripheralKind,
}

impl Claim {
    /// The kind of peripheral that was claimed.
    pub closed spec fn spec_kind(&self) -> PeripheralKind {
        self.kind
    }

    /// The kind of peripheral that was claimed.
    #[verifier::when_used_as_spec(spec_kind)]
    pub fn kind(&self) -> (kind: PeripheralKind)
        ensures
            kind == self.spec_kind(),
    {
        self.kind
    }
}

/// One "taken" flag for each kind of peripheral.
#[derive(Debug)]
pub struct OwnershipGuard {
    rcc: bool,
    adc: bool,
}

/// Puts `value` in the flag and returns what the flag held: the test and
/// the set are one step.
fn exchange(flag: &mut bool, value: bool) -> (held: bool)
    ensures
        held == *old(flag),
        *final(flag) == value,
{
    let held = *flag;
    *flag = value;
    held
}

impl OwnershipGuard {
    /// Whether `kind` has been claimed.
    pub closed spec fn spec_is_taken(&self, kind: PeripheralKind) -> bool {
        match kind {
            PeripheralKind::Rcc => self.rcc,
            PeripheralKind::Adc => self.adc,
        }
    }

    /// The guard after a call of `acquire` for `kind`: `kind` is taken, the
    /// other kinds are as they were.
    pub closed spec fn after_acquire(self, kind: PeripheralKind) -> Self {
        match kind {
            PeripheralKind::Rcc => OwnershipGuard { rcc: true, adc: self.adc },
            PeripheralKind::Adc => OwnershipGuard { rcc: self.rcc, adc: true },
        }
    }

    /// The guard after one call of `acquire` for each kind of `kinds`, in
    /// order.
    pub open spec fn after_all(self, kinds: Seq<PeripheralKind>) -> Self
        decreases kinds.len(),
    {
        if kinds.len() == 0 {
            self
        } else {
            self.after_all(kinds.drop_last()).after_acquire(kinds.last())
        }
    }

    /// A guard with nothing taken.
    pub fn new() -> (guard: Self)
        ensures
            forall|kind: PeripheralKind| !guard.spec_is_taken(kind),
    {
        OwnershipGuard { rcc: false, adc: false }
    }

    /// Whether `kind` has been claimed.
    #[verifier::when_used_as_spec(spec_is_taken)]
    pub fn is_taken(&self, kind: PeripheralKind) -> (taken: bool)
        ensures
            taken == self.spec_is_taken(kind),
    {
        match kind {
            PeripheralKind::Rcc => self.rcc,
            PeripheralKind::Adc => self.adc,
        }
    }

    /// Claims `kind`. The claim is granted if and only if `kind` was not
    /// taken. Afterwards `kind` is taken, and a call that is refused leaves
    /// the guard as it was.
    pub fn acquire(&mut self, kind: PeripheralKind) -> (claim: Option<Claim>)
        ensures
            claim is Some <==> !old(self).is_taken(kind),
            claim matches Some(c) ==> c.kind() == kind,
            *final(self) == old(self).after_acquire(kind),
            final(self).is_taken(kind),
            forall|other: PeripheralKind|
                other != kind ==> final(self).is_taken(other) == old(self).is_taken(other),
            claim is None ==> *final(self) == *old(self),
    {
        let held = match kind {
            PeripheralKind::Rcc => exchange(&mut self.rcc, true),
            PeripheralKind::Adc => exchange(&mut self.adc, true),
        };
        if held {
            None
        } else {
            Some(Claim { kind })
        }
    }

    /// What `after_acquire` does to each flag.
    pub proof fn lemma_after_acquire(self, kind: PeripheralKind, other: PeripheralKind)
        ensures
            self.after_acquire(kind).is_taken(other) == (other == kind || self.is_taken(other)),
            self.is_taken(kind) ==> self.after_acquire(kind) == self,
    {
    }

    /// After any calls of `acquire`, a kind is taken if and only if it was
    /// taken before or one of the calls was for it. A flag is never cleared.
    pub proof fn lemma_taken_after_all(self, kinds: Seq<PeripheralKind>, kind: PeripheralKind)
        ensures
            self.after_all(kinds).is_taken(kind) == (self.is_taken(kind) || kinds.contains(kind)),
        decreases kinds.len(),
    {
        if kinds.len() > 0 {
            let front = kinds.drop_last();
            self.lemma_taken_after_all(front, kind);
            self.after_all(front).lemma_after_acquire(kinds.last(), kind);
            if kinds.contains(kind) {
                let i = choose|i: int| 0 <= i < kinds.len() && kinds[i] == kind;
                if i < kinds.len() - 1 {
                    assert(front[i] == kind);
                }
            }
            if front.contains(kind) {
                let i = choose|i: int| 0 <= i < front.len() && front[i] == kind;
                assert(kinds[i] == kind);
            }
            if kinds.last() == kind {
                assert(kinds[kinds.len() - 1] == kind);
            }
        }
    }

    /// Single ownership. Of the calls of `acquire` made on a guard that
    /// started with nothing taken, the one at position `at` is granted if
    /// and only if no earlier call was for the same kind: the first call for
    /// a kind is granted, and every later one is refused.
    pub proof fn lemma_granted_once(self, kinds: Seq<PeripheralKind>, at: int)
        requires
            forall|kind: PeripheralKind| !self.is_taken(kind),
            0 <= at < kinds.len(),
        ensures
            !self.after_all(kinds.take(at)).is_taken(kinds[at]) <==> forall|earlier: int|
                0 <= earlier < at ==> kinds[earlier] != kinds[at],
    {
        let before = kinds.take(at);
        self.lemma_taken_after_all(before, kinds[at]);
        if before.contains(kinds[at]) {
            let i = choose|i: int| 0 <= i < before.len() && before[i] == kinds[at];
            assert(kinds[i] == kinds[at]);
        }
        if exists|earlier: int| 0 <= earlier < at && kinds[earlier] == kinds[at] {
            let i = choose|earlier: int| 0 <= earlier < at && kinds[earlier] == kinds[at];
            assert(before[i] == kinds[at]);
        }
    }
}

} // verus!
