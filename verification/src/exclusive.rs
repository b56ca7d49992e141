//! A guarded container for a resource that an interrupt handler and the main
//! loop share. The platform wraps every access in a critical section that
//! stops all preemption; within it, the container enforces the
//! take-mutate-restore discipline: the value is moved out, acted on with
//! exclusive ownership, and moved back, so a completed access always leaves
//! the value present. Taking from an empty cell would mean a second access
//! began while the value was absent (reentrancy), which the discipline rules
//! out; the contracts here make that state unreachable from verified code.

use vstd::prelude::*;

verus! {

pub struct SafeGlobal<T> {
    pub cell: Option<T>,
}

impl<T> SafeGlobal<T> {
    /// The value is in the cell, as it must be outside any access.
    pub open spec fn present(self) -> bool {
        self.cell is Some
    }

    /// The guarded value.
    pub open spec fn value(self) -> T
        recommends
            self.present(),
    {
        self.cell->Some_0
    }

    pub fn new(value: T) -> (g: Self)
        ensures
            g.present(),
            g.value() == value,
    {
        SafeGlobal { cell: Some(value) }
    }

    /// Moves the guarded value out for exclusive use. The caller must know the
    /// value is present: an absent value here is the reentrancy error, which
    /// the original treats as fatal, so verified callers are held to presence.
    pub fn take(&mut self) -> (v: T)
        requires
            old(self).present(),
        ensures
            !final(self).present(),
            v == old(self).value(),
    {
        let taken = self.cell.take();
        match taken {
            Some(v) => v,
            None => {
                proof {
                    assert(false);
                }
                unreached()
            },
        }
    }

    /// Moves a value back in, ending an exclusive access.
    pub fn restore(&mut self, value: T)
        ensures
            final(self).present(),
            final(self).value() == value,
    {
        self.cell = Some(value);
    }

    /// Whether the cell currently holds its value; lets unverified callers
    /// check presence before an access instead of failing fatally inside one.
    pub fn has_value(&self) -> (b: bool)
        ensures
            b == self.present(),
    {
        self.cell.is_some()
    }
}

/// Runs `f` with exclusive ownership of the guarded value and restores the
/// result: the take-mutate-restore access pattern. After the call the cell is
/// present again and holds exactly what `f` made of the old value, so no
/// partial state ever remains visible.
pub fn use_global<T, F: FnOnce(T) -> T>(var: &mut SafeGlobal<T>, f: F)
    requires
        old(var).present(),
        call_requires(f, (old(var).value(),)),
    ensures
        final(var).present(),
        call_ensures(f, (old(var).value(),), final(var).value()),
{
    let value = var.take();
    let value = f(value);
    var.restore(value);
}

} // verus!
