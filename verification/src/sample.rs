//! Flat per-slot weather data and location coordinates.
//!
//! Values that the dataset only carries and never computes on — the
//! latitude, longitude, and the precipitation amounts — are held as the raw
//! bit patterns of the host's double-precision numbers, unchanged in either
//! direction. Pressure is held as its raw count of millionths of an inch of
//! mercury, and the precipitation type as its raw mask byte.

use vstd::prelude::*;

verus! {

/// Where a location sits: latitude and longitude (carried as raw
/// double-precision bit patterns) and its grid cell.
#[derive(Clone, Copy, Debug, PartialEq, Eq, Structural)]
pub struct Coords {
    /// Latitude, as the bit pattern of the host's double-precision value.
    pub lat_bits: u64,
    /// Longitude, as the bit pattern of the host's double-precision value.
    pub lon_bits: u64,
    /// Grid column.
    pub x: u16,
    /// Grid row.
    pub y: u16,
}

impl Coords {
    /// The all-zero coordinates a location starts with.
    pub fn zero() -> (r: Coords)
        ensures
            r == (Coords { lat_bits: 0, lon_bits: 0, x: 0, y: 0 }),
    {
        Coords { lat_bits: 0, lon_bits: 0, x: 0, y: 0 }
    }
}

/// One weather sample: the values of every field of the time series at a
/// single forecast-time slot.
#[derive(Clone, Copy, Debug, PartialEq, Eq, Structural)]
pub struct WxSingle {
    pub dewpoint: i16,
    pub gust: u16,
    pub lightning: u16,
    /// New precipitation, as a raw double-precision bit pattern.
    pub new_precip_bits: u64,
    /// Precipitation rate, as a raw double-precision bit pattern.
    pub precip_rate_bits: u64,
    /// The precipitation-type mask byte.
    pub precip_type: u8,
    /// Pressure, in millionths of an inch of mercury.
    pub pressure_micro: i64,
    pub temperature: i16,
    pub total_cloud_cover: u16,
    /// Total precipitation, as a raw double-precision bit pattern.
    pub total_precip_bits: u64,
    /// Total snow, as a raw double-precision bit pattern.
    pub total_snow_bits: u64,
    pub vis: u16,
    pub wind_dir: u16,
    pub wind_spd: u16,
}

impl WxSingle {
    /// The sample with every field zero: what a freshly created slot holds.
    pub open spec fn spec_zero() -> WxSingle {
        WxSingle {
            dewpoint: 0,
            gust: 0,
            lightning: 0,
            new_precip_bits: 0,
            precip_rate_bits: 0,
            precip_type: 0,
            pressure_micro: 0,
            temperature: 0,
            total_cloud_cover: 0,
            total_precip_bits: 0,
            total_snow_bits: 0,
            vis: 0,
            wind_dir: 0,
            wind_spd: 0,
        }
    }

    /// The all-zero sample.
    pub fn zero() -> (r: WxSingle)
        ensures
            r == Self::spec_zero(),
    {
        WxSingle {
            dewpoint: 0,
            gust: 0,
            lightning: 0,
            new_precip_bits: 0,
            precip_rate_bits: 0,
            precip_type: 0,
            pressure_micro: 0,
            temperature: 0,
            total_cloud_cover: 0,
            total_precip_bits: 0,
            total_snow_bits: 0,
            vis: 0,
            wind_dir: 0,
            wind_spd: 0,
        }
    }
}

} // verus!
