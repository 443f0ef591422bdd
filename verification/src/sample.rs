//! Battery samples and the sampler's emit decision.
//!
//! The polling loop itself blocks on the operating system and sleeps between
//! iterations; what is verified here is its state machine: which readings
//! lead to a sample being pushed onto the update channel, and how the
//! sampler's memory of the last emitted sample evolves.

use vstd::prelude::*;

verus! {

/// Charging state as the battery source reports it.
#[derive(Clone, Copy, Debug, PartialEq, Eq, Structural)]
pub enum ChargeState {
    Charging,
    Discharging,
    Full,
    Unknown,
}

/// One battery reading: a percentage and the charging state.
#[derive(Clone, Copy, Debug, PartialEq, Eq, Structural)]
pub struct BatterySample {
    pub percentage: u32,
    pub state: ChargeState,
}

impl BatterySample {
    /// A sample is valid when its percentage is in range.
    pub open spec fn valid(self) -> bool {
        self.percentage <= 100
    }

    /// Whether the sample counts as charging for the formatter.
    pub open spec fn is_charging_spec(self) -> bool {
        self.state is Charging
    }

    /// Whether the sample counts as charging for the formatter.
    pub fn is_charging(&self) -> (r: bool)
        ensures
            r == self.is_charging_spec(),
    {
        match self.state {
            ChargeState::Charging => true,
            _ => false,
        }
    }
}

/// Whether a poll iteration's reading is pushed onto the channel: never for
/// a skipped iteration (source unavailable or no device), and under the
/// dedup policy only when the reading differs from the last emitted sample.
pub open spec fn should_emit(
    last: Option<BatterySample>,
    dedup: bool,
    reading: Option<BatterySample>,
) -> bool {
    match reading {
        None => false,
        Some(s) => !dedup || last != Some(s),
    }
}

/// The sampler's decision state: the last emitted sample and the emit
/// policy. The policy is explicit: emit only on change (deduplicating
/// repeated readings) or emit every reading.
pub struct Sampler {
    last: Option<BatterySample>,
    emit_on_change_only: bool,
}

impl Sampler {
    /// The last sample the sampler decided to emit.
    pub closed spec fn last_emitted(&self) -> Option<BatterySample> {
        self.last
    }

    /// Whether the sampler deduplicates repeated readings.
    pub closed spec fn dedup(&self) -> bool {
        self.emit_on_change_only
    }

    /// A fresh sampler that has emitted nothing.
    pub fn new(emit_on_change_only: bool) -> (r: Self)
        ensures
            r.last_emitted() is None,
            r.dedup() == emit_on_change_only,
    {
        Sampler { last: None, emit_on_change_only }
    }

    /// One poll iteration's decision: given the iteration's reading (None
    /// when the source erred or reported no battery), the sample to push, if
    /// any. A skipped or deduplicated iteration emits nothing and leaves the
    /// sampler unchanged.
    pub fn observe(&mut self, reading: Option<BatterySample>) -> (emit: Option<BatterySample>)
        ensures
            final(self).dedup() == old(self).dedup(),
            should_emit(old(self).last_emitted(), old(self).dedup(), reading) ==> emit == reading
                && final(self).last_emitted() == reading,
            !should_emit(old(self).last_emitted(), old(self).dedup(), reading) ==> emit
                is None && final(self).last_emitted() == old(self).last_emitted(),
    {
        match reading {
            None => None,
            Some(s) => {
                let same = match self.last {
                    Some(prev) => prev == s,
                    None => false,
                };
                if self.emit_on_change_only && same {
                    None
                } else {
                    self.last = Some(s);
                    Some(s)
                }
            },
        }
    }
}

} // verus!
