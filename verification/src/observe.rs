//! The observer-facing snapshot and its range invariants.
//!
//! A propagation step hands back raw scaled readings; building a snapshot
//! normalizes them so that every published value lies in its documented
//! range: azimuth in [0, 360) degrees, elevation in [-90, 90] degrees,
//! sub-satellite longitude in [-180, 180) degrees, latitude in [-90, 90]
//! degrees. Azimuth and longitude are wrapped modulo a full turn;
//! elevation and latitude, which a well-formed geometry already bounds,
//! are clamped.

use vstd::prelude::*;

verus! {

/// An angle wrapped into [0, 360) degrees, in 1e-7 degrees.
pub open spec fn wrap_360_e7(x: int) -> int {
    x % 3_600_000_000
}

/// An angle wrapped into [-180, 180) degrees, in 1e-7 degrees.
pub open spec fn wrap_lon_e7(x: int) -> int {
    (x + 1_800_000_000) % 3_600_000_000 - 1_800_000_000
}

/// An angle clamped into [-90, 90] degrees, in 1e-7 degrees.
pub open spec fn clamp_90_e7(x: int) -> int {
    if x < -900_000_000 {
        -900_000_000
    } else if x > 900_000_000 {
        900_000_000
    } else {
        x
    }
}

/// Wraps an angle into [0, 360) degrees.
pub fn wrap_360(x: i64) -> (r: i64)
    requires
        -4_100_000_000_000_000 <= x <= 4_100_000_000_000_000,
    ensures
        r == wrap_360_e7(x as int),
        0 <= r < 3_600_000_000,
{
    if x >= 0 {
        x % 3_600_000_000
    } else {
        let m = (-x) % 3_600_000_000;
        proof {
            let d = 3_600_000_000int;
            vstd::arithmetic::div_mod::lemma_fundamental_div_mod(-x as int, d);
            vstd::arithmetic::div_mod::lemma_mod_bound(-x as int, d);
            let q = (-x as int) / d;
            let b = (-x as int) % d;
            if b == 0 {
                vstd::arithmetic::div_mod::lemma_fundamental_div_mod_converse(
                    x as int, d, -q, 0);
            } else {
                vstd::arithmetic::div_mod::lemma_fundamental_div_mod_converse(
                    x as int, d, -q - 1, d - b);
            }
        }
        if m == 0 {
            0
        } else {
            3_600_000_000 - m
        }
    }
}

/// Wraps an angle into [-180, 180) degrees.
pub fn wrap_lon(x: i64) -> (r: i64)
    requires
        -4_000_000_000_000_000 <= x <= 4_000_000_000_000_000,
    ensures
        r == wrap_lon_e7(x as int),
        -1_800_000_000 <= r < 1_800_000_000,
{
    let w = wrap_360(x + 1_800_000_000);
    w - 1_800_000_000
}

/// Clamps an angle into [-90, 90] degrees.
pub fn clamp_90(x: i64) -> (r: i64)
    ensures
        r == clamp_90_e7(x as int),
        -900_000_000 <= r <= 900_000_000,
{
    if x < -900_000_000 {
        -900_000_000
    } else if x > 900_000_000 {
        900_000_000
    } else {
        x
    }
}

/// Raw scaled readings of one propagation step: look angles, ranges and
/// ground track as the propagator and observer geometry computed them,
/// before any range normalization.
#[derive(PartialEq, Eq, Structural, Clone, Copy, Debug)]
pub struct RawObservation {
    /// Azimuth, 1e-7 degrees, any winding.
    pub az_e7: i64,
    /// Elevation, 1e-7 degrees.
    pub el_e7: i64,
    /// Slant range, meters.
    pub range_km_e3: i64,
    /// Range rate, 1e-6 kilometers per second.
    pub range_rate_km_s_e6: i64,
    /// Sub-satellite latitude, 1e-7 degrees.
    pub ssp_lat_e7: i64,
    /// Sub-satellite longitude, 1e-7 degrees, any winding.
    pub ssp_lon_e7: i64,
    /// Altitude above the geoid, meters.
    pub alt_km_e3: i64,
    /// Orbital speed, 1e-6 kilometers per second.
    pub vel_km_s_e6: i64,
    /// Revolution count since launch.
    pub orbit_nr: u64,
}

impl RawObservation {
    /// The raw angles are small enough to normalize without overflow.
    pub open spec fn bounded(self) -> bool {
        &&& -4_000_000_000_000_000 <= self.az_e7 <= 4_000_000_000_000_000
        &&& -4_000_000_000_000_000 <= self.ssp_lon_e7 <= 4_000_000_000_000_000
    }
}

/// The published snapshot of one propagation step.
#[derive(PartialEq, Eq, Structural, Clone, Copy, Debug)]
pub struct Observable {
    /// Azimuth from true north, 1e-7 degrees, in [0, 360) degrees.
    pub az_e7: i64,
    /// Elevation above the horizon, 1e-7 degrees, in [-90, 90] degrees.
    pub el_e7: i64,
    /// Slant range, meters.
    pub range_km_e3: i64,
    /// Range rate, 1e-6 kilometers per second.
    pub range_rate_km_s_e6: i64,
    /// Sub-satellite latitude, 1e-7 degrees, in [-90, 90] degrees.
    pub ssp_lat_e7: i64,
    /// Sub-satellite longitude, 1e-7 degrees, in [-180, 180) degrees.
    pub ssp_lon_e7: i64,
    /// Altitude above the geoid, meters.
    pub alt_km_e3: i64,
    /// Orbital speed, 1e-6 kilometers per second.
    pub vel_km_s_e6: i64,
    /// Revolution count since launch.
    pub orbit_nr: u64,
    /// Next acquisition of signal, Unix microseconds; absent when the
    /// satellite never rises for the observer.
    pub aos_unix_us: Option<i64>,
    /// Next loss of signal, Unix microseconds; absent when the satellite
    /// never sets for the observer.
    pub los_unix_us: Option<i64>,
}

/// The snapshot a raw reading and the two crossing instants normalize to.
pub open spec fn observable_of(
    raw: RawObservation,
    aos_unix_us: Option<i64>,
    los_unix_us: Option<i64>,
) -> Observable {
    Observable {
        az_e7: wrap_360_e7(raw.az_e7 as int) as i64,
        el_e7: clamp_90_e7(raw.el_e7 as int) as i64,
        range_km_e3: raw.range_km_e3,
        range_rate_km_s_e6: raw.range_rate_km_s_e6,
        ssp_lat_e7: clamp_90_e7(raw.ssp_lat_e7 as int) as i64,
        ssp_lon_e7: wrap_lon_e7(raw.ssp_lon_e7 as int) as i64,
        alt_km_e3: raw.alt_km_e3,
        vel_km_s_e6: raw.vel_km_s_e6,
        orbit_nr: raw.orbit_nr,
        aos_unix_us,
        los_unix_us,
    }
}

impl Observable {
    /// Every published angle lies in its documented range.
    pub open spec fn valid(self) -> bool {
        &&& 0 <= self.az_e7 < 3_600_000_000
        &&& -900_000_000 <= self.el_e7 <= 900_000_000
        &&& -900_000_000 <= self.ssp_lat_e7 <= 900_000_000
        &&& -1_800_000_000 <= self.ssp_lon_e7 < 1_800_000_000
    }

    /// Builds a snapshot from one raw reading, wrapping the azimuth and
    /// longitude and clamping the elevation and latitude.
    pub fn normalize(
        raw: &RawObservation,
        aos_unix_us: Option<i64>,
        los_unix_us: Option<i64>,
    ) -> (o: Observable)
        requires
            raw.bounded(),
        ensures
            o == observable_of(*raw, aos_unix_us, los_unix_us),
            o.valid(),
    {
        Observable {
            az_e7: wrap_360(raw.az_e7),
            el_e7: clamp_90(raw.el_e7),
            range_km_e3: raw.range_km_e3,
            range_rate_km_s_e6: raw.range_rate_km_s_e6,
            ssp_lat_e7: clamp_90(raw.ssp_lat_e7),
            ssp_lon_e7: wrap_lon(raw.ssp_lon_e7),
            alt_km_e3: raw.alt_km_e3,
            vel_km_s_e6: raw.vel_km_s_e6,
            orbit_nr: raw.orbit_nr,
            aos_unix_us,
            los_unix_us,
        }
    }
}

/// Every snapshot built from a raw reading satisfies the range invariant:
/// azimuth in [0, 360), elevation in [-90, 90], sub-satellite longitude in
/// [-180, 180), latitude in [-90, 90] degrees.
pub proof fn lemma_observable_ranges(
    raw: RawObservation,
    aos_unix_us: Option<i64>,
    los_unix_us: Option<i64>,
)
    requires
        raw.bounded(),
    ensures
        observable_of(raw, aos_unix_us, los_unix_us).valid(),
{
    vstd::arithmetic::div_mod::lemma_mod_bound(raw.az_e7 as int, 3_600_000_000);
    vstd::arithmetic::div_mod::lemma_mod_bound(
        raw.ssp_lon_e7 as int + 1_800_000_000,
        3_600_000_000,
    );
}

} // verus!
