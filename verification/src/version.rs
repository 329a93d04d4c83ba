//! Clock-tagged state versions and per-state SLA windows.

use vstd::prelude::*;

verus! {

/// A monotonic, clock-tagged version of an object's controller state.
/// The serial strictly increases on every transition; the timestamp records
/// when the state was entered.
#[derive(Debug, Clone, Copy, PartialEq, Eq, Structural)]
pub struct ConfigVersion {
    pub serial: u64,
    pub timestamp_micros: i64,
}

impl ConfigVersion {
    /// The version a freshly created object starts with.
    pub fn initial(now_micros: i64) -> (r: ConfigVersion)
        ensures
            r.serial == 0,
            r.timestamp_micros == now_micros,
    {
        ConfigVersion { serial: 0, timestamp_micros: now_micros }
    }

    /// The version recorded by a transition at `now_micros`: strictly larger
    /// serial, fresh timestamp.
    pub fn bumped(&self, now_micros: i64) -> (r: ConfigVersion)
        requires
            self.serial < u64::MAX,
        ensures
            r.serial == self.serial + 1,
            r.timestamp_micros == now_micros,
            r.serial > self.serial,
    {
        ConfigVersion { serial: self.serial + 1, timestamp_micros: now_micros }
    }

    /// How long the object has sat in this state at `now_micros`, in
    /// microseconds. When the clock ran backwards the duration is not
    /// computable; a full day is reported so that a bounded state escalates
    /// rather than sitting silent under a skewed clock.
    pub fn time_in_state(&self, now_micros: i64) -> (r: i64)
        requires
            self.timestamp_micros >= 0,
            now_micros >= 0,
        ensures
            r == if now_micros >= self.timestamp_micros {
                now_micros - self.timestamp_micros
            } else {
                CLOCK_SKEW_FALLBACK_MICROS as int
            },
    {
        if now_micros >= self.timestamp_micros {
            now_micros - self.timestamp_micros
        } else {
            CLOCK_SKEW_FALLBACK_MICROS
        }
    }
}

/// Time in state reported when the clock ran backwards: one day, so that
/// every bounded SLA window counts as breached.
pub const CLOCK_SKEW_FALLBACK_MICROS: i64 = 86_400_000_000;

/// A value paired with the version at which it was last written.
#[derive(Debug, Clone, Copy, PartialEq, Eq, Structural)]
pub struct Versioned<T> {
    pub value: T,
    pub version: ConfigVersion,
}

/// The SLA window of an object's current state: either no bound, or a bound
/// with the time already spent in the state.
#[derive(Debug, Clone, Copy, PartialEq, Eq, Structural)]
pub enum StateSla {
    NoSla,
    Sla { sla_micros: i64, time_in_state_micros: i64 },
}

impl StateSla {
    pub fn no_sla() -> (r: StateSla)
        ensures
            r == StateSla::NoSla,
    {
        StateSla::NoSla
    }

    pub fn with_sla(sla_micros: i64, time_in_state_micros: i64) -> (r: StateSla)
        ensures
            r == (StateSla::Sla { sla_micros, time_in_state_micros }),
    {
        StateSla::Sla { sla_micros, time_in_state_micros }
    }

    /// Whether the object has sat in its state past the SLA window.
    pub fn breached(&self) -> (r: bool)
        ensures
            r == self.spec_breached(),
    {
        match self {
            StateSla::NoSla => false,
            StateSla::Sla { sla_micros, time_in_state_micros } =>
                *time_in_state_micros > *sla_micros,
        }
    }

    pub open spec fn spec_breached(&self) -> bool {
        match *self {
            StateSla::NoSla => false,
            StateSla::Sla { sla_micros, time_in_state_micros } => time_in_state_micros > sla_micros,
        }
    }
}

} // verus!
