use vstd::prelude::*;
use crate::vec3::{Vec3, Vec3Model};

verus! {

/// Timer-gated factory for falling objects. It accumulates elapsed real
/// time and reports, once per evaluation, whether a full period has
/// passed; the prototype is the position new objects start from.
///
/// Firing policy: one evaluation fires at most once, however much time
/// has passed, but the accumulator is reduced modulo the period, so no
/// elapsed time is lost. A stall of several periods therefore yields a
/// single object on that evaluation, not one per period.
pub struct Spawner {
    pub period_ms: u64,
    pub elapsed_ms: u64,
    pub prototype: Vec3,
}

/// The mathematical value of a [`Spawner`]: durations as unbounded
/// integers, in milliseconds.
pub ghost struct SpawnerModel {
    pub period_ms: int,
    pub elapsed_ms: int,
    pub prototype: Vec3Model,
}

impl View for Spawner {
    type V = SpawnerModel;

    open spec fn view(&self) -> SpawnerModel {
        SpawnerModel {
            period_ms: self.period_ms as int,
            elapsed_ms: self.elapsed_ms as int,
            prototype: self.prototype@,
        }
    }
}

impl SpawnerModel {
    /// Well-formedness of a spawner: a positive period, and an
    /// accumulator strictly below it — the state every evaluation
    /// leaves behind.
    pub open spec fn wf(self) -> bool {
        &&& self.period_ms > 0
        &&& 0 <= self.elapsed_ms < self.period_ms
    }
}

/// Whether an evaluation that adds `delta_ms` to the accumulator fires:
/// the accumulated time reaches the period.
pub open spec fn spawner_fires(sp: SpawnerModel, delta_ms: int) -> bool {
    sp.elapsed_ms + delta_ms >= sp.period_ms
}

/// The spawner after an evaluation that adds `delta_ms`: the accumulator
/// holds the accumulated time reduced modulo the period, so it is again
/// strictly below the period; period and prototype never change.
pub open spec fn spawner_advanced(sp: SpawnerModel, delta_ms: int) -> SpawnerModel {
    SpawnerModel { elapsed_ms: (sp.elapsed_ms + delta_ms) % sp.period_ms, ..sp }
}

impl Spawner {
    /// Well-formedness, lifted from the model.
    pub open spec fn wf(self) -> bool {
        self@.wf()
    }

    /// A spawner that has just been reset: nothing accumulated yet.
    pub fn new(period_ms: u64, prototype: Vec3) -> (sp: Spawner)
        requires
            period_ms > 0,
        ensures
            sp@ == (SpawnerModel {
                period_ms: period_ms as int,
                elapsed_ms: 0,
                prototype: prototype@,
            }),
            sp.wf(),
    {
        Spawner { period_ms, elapsed_ms: 0, prototype }
    }

    /// One evaluation of the timer: accumulates `delta_ms` and reports
    /// whether a falling object is due. The caller spawns one object when
    /// the result is true.
    pub fn advance(&mut self, delta_ms: u64) -> (fired: bool)
        requires
            old(self).wf(),
        ensures
            final(self)@ == spawner_advanced(old(self)@, delta_ms as int),
            fired == spawner_fires(old(self)@, delta_ms as int),
            final(self).wf(),
    {
        let total: u128 = (self.elapsed_ms as u128) + (delta_ms as u128);
        let period: u128 = self.period_ms as u128;
        if total < period {
            proof {
                vstd::arithmetic::div_mod::lemma_small_mod(total as nat, period as nat);
            }
            self.elapsed_ms = total as u64;
            false
        } else {
            let rest: u128 = total % period;
            self.elapsed_ms = rest as u64;
            true
        }
    }
}

} // verus!
