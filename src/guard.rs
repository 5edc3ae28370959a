//! Save-and-restore discipline for the interrupt-enable flag.
use vstd::prelude::*;

verus! {

/// Holds the value the interrupt-enable flag had when a critical section began.
///
/// It is made only by [`InterruptGuard::acquire`] and consumed by
/// [`InterruptGuard::release`], which writes that value back.
#[derive(Debug)]
pub struct InterruptGuard {
    previous: bool,
}

impl InterruptGuard {
    /// The flag value that releasing this guard restores.
    pub closed spec fn saved(&self) -> bool {
        self.previous
    }

    /// Begins a critical section: records the current flag and disables interrupts.
    pub fn acquire(ime: &mut bool) -> (guard: Self)
        ensures
            acquired(*old(ime), *final(ime), guard),
    {
        let guard = InterruptGuard { previous: *ime };
        *ime = false;
        guard
    }

    /// Ends a critical section: puts the flag back to what `acquire` found, which
    /// keeps interrupts disabled when an outer section had already disabled them.
    pub fn release(self, ime: &mut bool)
        ensures
            released(self, *final(ime)),
    {
        *ime = self.previous;
    }

    /// The flag value that releasing this guard restores.
    pub fn previous(&self) -> (r: bool)
        ensures
            r == self.saved(),
    {
        self.previous
    }
}

/// An acquire that found the flag at `before` left it at `after` and returned `guard`.
pub open spec fn acquired(before: bool, after: bool, guard: InterruptGuard) -> bool {
    !after && guard.saved() == before
}

/// Releasing `guard` left the flag at `after`.
pub open spec fn released(guard: InterruptGuard, after: bool) -> bool {
    after == guard.saved()
}

/// Acquiring and then releasing a guard leaves the interrupt-enable flag as it was:
/// disabled stays disabled, enabled is enabled again. In between it is disabled.
pub proof fn lemma_guard_restores(before: bool, during: bool, guard: InterruptGuard, after: bool)
    requires
        acquired(before, during, guard),
        released(guard, after),
    ensures
        !during,
        after == before,
{
}

/// Guards nest: an inner section entered while an outer one holds the flag finds it
/// disabled and leaves it disabled on release; only the outer release restores the
/// value from before both.
pub proof fn lemma_nested_guards_compose(
    before: bool,
    in_outer: bool,
    outer: InterruptGuard,
    in_inner: bool,
    inner: InterruptGuard,
    after_inner: bool,
    after_outer: bool,
)
    requires
        acquired(before, in_outer, outer),
        acquired(in_outer, in_inner, inner),
        released(inner, after_inner),
        released(outer, after_outer),
    ensures
        !in_inner,
        !after_inner,
        after_outer == before,
{
}

} // verus!
