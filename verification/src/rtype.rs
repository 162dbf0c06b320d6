//! The raw discriminants of the record catalog.
use vstd::prelude::*;

verus! {

/// A trade.
pub const MBP_0: u8 = 0x00;

/// A market-by-price record with one book level.
pub const MBP_1: u8 = 0x01;

/// A market-by-price record with ten book levels.
pub const MBP_10: u8 = 0x0a;

/// An open, high, low, close and volume bar of unspecified cadence.
pub const OHLCV_DEPRECATED: u8 = 0x11;

/// A one-second bar.
pub const OHLCV_1S: u8 = 0x20;

/// A one-minute bar.
pub const OHLCV_1M: u8 = 0x21;

/// An hourly bar.
pub const OHLCV_1H: u8 = 0x22;

/// A daily bar.
pub const OHLCV_1D: u8 = 0x23;

/// An exchange status record.
pub const STATUS: u8 = 0x12;

/// An instrument definition.
pub const INSTRUMENT_DEF: u8 = 0x13;

/// An order imbalance.
pub const IMBALANCE: u8 = 0x14;

/// A gateway error.
pub const ERROR: u8 = 0x15;

/// A symbol mapping.
pub const SYMBOL_MAPPING: u8 = 0x16;

/// A gateway system message.
pub const SYSTEM: u8 = 0x17;

/// A venue statistic.
pub const STATISTICS: u8 = 0x18;

/// A market-by-order record.
pub const MBO: u8 = 0xa0;

/// Whether `raw` names an entry of the catalog.
pub open spec fn known(raw: u8) -> bool {
    raw == MBP_0 || raw == MBP_1 || raw == MBP_10 || raw == OHLCV_DEPRECATED || raw == OHLCV_1S
        || raw == OHLCV_1M || raw == OHLCV_1H || raw == OHLCV_1D || raw == STATUS || raw
        == INSTRUMENT_DEF || raw == IMBALANCE || raw == ERROR || raw == SYMBOL_MAPPING || raw
        == SYSTEM || raw == STATISTICS || raw == MBO
}

} // verus!
