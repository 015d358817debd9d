//! Dirty-flag-driven stat recomputation.
//!
//! A modifier attached to a simulation object conditionally rewrites one
//! of the object's derived stat records.  The engine applies a modifier
//! exactly once per settled dirty transition: a clean modifier is never
//! reapplied, so settling is a no-op on an already-settled pair.

use vstd::prelude::*;

verus! {

/// A modifier of stat records of type `Target`.
///
/// Each implementation models its executable behaviour with spec
/// functions, so that the generic engine below can state exactly what a
/// settle pass does to the pair of modifier and stat record.
pub trait Recalculated<Target>: Sized {
    /// Whether the modifier needs to be reapplied.
    spec fn dirty_spec(&self) -> bool;

    /// The modifier with its dirty flag for `Target` set or cleared,
    /// everything else unchanged.
    spec fn with_dirty(&self, d: bool) -> Self;

    /// The modifier's whole effect on a stat record, together with the
    /// modifier-local bookkeeping it performs while applying itself.
    spec fn modify_model(&self, stats: Target) -> (Self, Target);

    /// Ranges and internal consistency under which the modifier's
    /// effect is defined.
    spec fn wf(&self, stats: Target) -> bool;

    fn is_dirty(&self) -> (r: bool)
        ensures
            r == self.dirty_spec(),
    ;

    fn set_dirty(&mut self)
        ensures
            *final(self) == old(self).with_dirty(true),
            final(self).dirty_spec(),
    ;

    fn clear_dirty(&mut self)
        ensures
            *final(self) == old(self).with_dirty(false),
            !final(self).dirty_spec(),
    ;

    fn modify(&mut self, stats: &mut Target)
        requires
            old(self).wf(*old(stats)),
        ensures
            (*final(self), *final(stats)) == old(self).modify_model(*old(stats)),
    ;
}

/// What one settle pass leaves behind: a dirty modifier is applied and
/// cleaned, a clean one is left untouched along with its stat record.
pub open spec fn recalculated_model<Target, R: Recalculated<Target>>(
    r: R,
    stats: Target,
) -> (R, Target) {
    if r.dirty_spec() {
        let (r2, stats2) = r.modify_model(stats);
        (r2.with_dirty(false), stats2)
    } else {
        (r, stats)
    }
}

/// Settle one (modifier, stat record) pair.
///
/// The second ensures clause is the engine's idempotence guarantee:
/// settling a clean modifier leaves both the stat record and the
/// modifier bit-for-bit unchanged, so repeated settle passes never
/// double-apply an effect.
pub fn recalculate<Target, R: Recalculated<Target>>(r: &mut R, stats: &mut Target)
    requires
        old(r).wf(*old(stats)),
    ensures
        (*final(r), *final(stats)) == recalculated_model(*old(r), *old(stats)),
        !old(r).dirty_spec() ==> *final(r) == *old(r) && *final(stats) == *old(stats),
{
    if r.is_dirty() {
        r.modify(stats);
        r.clear_dirty();
    }
}

} // verus!
