//! Timing configuration of one keyboard half: the settle tick and the
//! report cadence, together with the half's key mapping.
use vstd::prelude::*;
use crate::keymap::{left_keys, left_table, right_keys, right_table, KeyMapping, LINES};

verus! {

/// Shortest accepted tick period, in microseconds.
pub const MIN_TICK_US: u32 = 500;

/// Longest accepted tick period, in microseconds.
pub const MAX_TICK_US: u32 = 1000;

/// Report period used by both halves, in microseconds.
pub const INPUT_PERIOD_US: u32 = 10000;

/// Why a timing configuration was refused.
#[derive(Debug, Clone, Copy, PartialEq, Eq, Structural)]
pub enum ConfigError {
    /// The tick period lies outside `MIN_TICK_US..=MAX_TICK_US`.
    TickOutOfRange,
    /// The settle waits of one sweep (one tick per line) take longer than
    /// the report period.
    InputTooShort,
}

/// Whether `tick_us` lies in the accepted range.
pub open spec fn tick_in_range(tick_us: u32) -> bool {
    MIN_TICK_US <= tick_us <= MAX_TICK_US
}

/// Whether a sweep's settle waits fit in one report period.
pub open spec fn sweep_fits(tick_us: u32, input_us: u32) -> bool {
    LINES * tick_us <= input_us
}

/// The startup configuration of one keyboard half.
#[derive(Clone, Copy)]
pub struct DeviceConfig {
    /// The half's key mapping.
    pub mapping: KeyMapping,
    /// Settle delay per line, and pace of the HID maintenance call.
    pub tick_period_us: u32,
    /// Pace of report submission.
    pub input_period_us: u32,
}

impl DeviceConfig {
    /// Whether the periods lie in their documented ranges.
    pub open spec fn valid(&self) -> bool {
        tick_in_range(self.tick_period_us) && sweep_fits(self.tick_period_us, self.input_period_us)
    }

    /// Checks the periods and builds the configuration.
    pub fn new(mapping: KeyMapping, tick_period_us: u32, input_period_us: u32) -> (r: Result<
        DeviceConfig,
        ConfigError,
    >)
        ensures
            r is Ok <==> tick_in_range(tick_period_us) && sweep_fits(
                tick_period_us,
                input_period_us,
            ),
            r matches Ok(c) ==> c.valid() && c.mapping == mapping && c.tick_period_us
                == tick_period_us && c.input_period_us == input_period_us,
            r == Err::<DeviceConfig, ConfigError>(ConfigError::TickOutOfRange) <==> !tick_in_range(
                tick_period_us,
            ),
            r == Err::<DeviceConfig, ConfigError>(ConfigError::InputTooShort) <==> tick_in_range(
                tick_period_us,
            ) && !sweep_fits(tick_period_us, input_period_us),
    {
        if tick_period_us < MIN_TICK_US || tick_period_us > MAX_TICK_US {
            Err(ConfigError::TickOutOfRange)
        } else if (tick_period_us as u64) * (LINES as u64) > input_period_us as u64 {
            Err(ConfigError::InputTooShort)
        } else {
            Ok(DeviceConfig { mapping, tick_period_us, input_period_us })
        }
    }

    /// The right half: direct column order, 500 µs tick.
    pub fn right_half() -> (r: DeviceConfig)
        ensures
            r.valid(),
            r.mapping == KeyMapping::Right(right_table()),
            r.tick_period_us == 500,
            r.input_period_us == INPUT_PERIOD_US,
    {
        DeviceConfig { mapping: right_keys(), tick_period_us: 500, input_period_us: INPUT_PERIOD_US }
    }

    /// The left half: mirrored column order, 1 ms tick.
    pub fn left_half() -> (r: DeviceConfig)
        ensures
            r.valid(),
            r.mapping == KeyMapping::Left(left_table()),
            r.tick_period_us == 1000,
            r.input_period_us == INPUT_PERIOD_US,
    {
        DeviceConfig { mapping: left_keys(), tick_period_us: 1000, input_period_us: INPUT_PERIOD_US }
    }
}

} // verus!
