//! A tracking session: one element set, one observer, and the latest
//! computed snapshot, advanced by feeding back each propagation step.

use vstd::prelude::*;

use crate::elements::OrbitRegime;
use crate::elements::OrbitalElements;
use crate::elements::classify;
use crate::elements::regime_of;
use crate::observe::Observable;
use crate::observe::RawObservation;
use crate::observe::observable_of;

verus! {

/// Observer ground-station location.
///
/// Latitude and longitude are held in 1e-7 degrees, the resolution at which
/// coordinates from decimal text coincide once rounded; equality of two
/// locations is therefore exact equality of the scaled fields.
#[derive(PartialEq, Eq, Structural, Clone, Copy, Debug)]
pub struct Location {
    /// Latitude, 1e-7 degrees, northward positive.
    pub lat_e7: i64,
    /// Longitude, 1e-7 degrees, eastward positive.
    pub lon_e7: i64,
    /// Altitude above sea level, meters.
    pub alt_m: i32,
}

impl Location {
    /// Latitude within a quarter turn of the equator, longitude within half
    /// a turn of the prime meridian.
    pub open spec fn valid(self) -> bool {
        &&& -900_000_000 <= self.lat_e7 <= 900_000_000
        &&& -1_800_000_000 <= self.lon_e7 < 1_800_000_000
    }
}

/// Condition of the propagation a snapshot was computed from.
#[derive(PartialEq, Eq, Structural, Clone, Copy, Debug)]
pub enum PropagationStatus {
    /// The satellite is above the Earth's surface.
    Nominal,
    /// The propagated radius fell below the Earth's surface: the element
    /// set describes a decayed satellite and further snapshots are
    /// physically meaningless.
    Decayed,
}

/// The snapshot a new session holds before its first advance.
pub open spec fn initial_observable() -> Observable {
    Observable {
        az_e7: 0,
        el_e7: 0,
        range_km_e3: 0,
        range_rate_km_s_e6: 0,
        ssp_lat_e7: 0,
        ssp_lon_e7: 0,
        alt_km_e3: 0,
        vel_km_s_e6: 0,
        orbit_nr: 0,
        aos_unix_us: None,
        los_unix_us: None,
    }
}

/// A tracking session binding one element set to one observer.
pub struct Predict {
    /// Latest computed snapshot, replaced wholesale by each advance.
    pub sat: Observable,
    /// The element set driving the session.
    pub elements: OrbitalElements,
    /// The observer's location.
    pub location: Location,
    /// Orbit regime, computed once at creation and immutable after.
    pub regime: OrbitRegime,
}

impl Predict {
    /// The session invariant: a valid element set, the regime that element
    /// set classifies to, and a snapshot within its documented ranges.
    pub open spec fn wf(self) -> bool {
        &&& self.elements.valid()
        &&& self.regime == regime_of(self.elements.mean_motion_e8)
        &&& self.sat.valid()
    }

    /// Opens a session for one element set and one observer.
    pub fn new(elements: OrbitalElements, location: &Location) -> (p: Predict)
        requires
            elements.valid(),
        ensures
            p.elements == elements,
            p.location == *location,
            p.regime == regime_of(elements.mean_motion_e8),
            p.sat == initial_observable(),
            p.wf(),
    {
        let regime = classify(elements.mean_motion_e8);
        Predict {
            sat: Observable {
                az_e7: 0,
                el_e7: 0,
                range_km_e3: 0,
                range_rate_km_s_e6: 0,
                ssp_lat_e7: 0,
                ssp_lon_e7: 0,
                alt_km_e3: 0,
                vel_km_s_e6: 0,
                orbit_nr: 0,
                aos_unix_us: None,
                los_unix_us: None,
            },
            elements,
            location: *location,
            regime,
        }
    }

    /// Advances the session: replaces the snapshot, wholesale, with the
    /// normalization of one raw propagation reading and the two crossing
    /// instants found from the same instant. The new snapshot depends on
    /// those inputs alone — never on the snapshot held before — so
    /// repeated advances accumulate no drift. Reports the decay condition
    /// instead of failing when the reading places the satellite below the
    /// Earth's surface.
    pub fn update(
        &mut self,
        raw: &RawObservation,
        aos_unix_us: Option<i64>,
        los_unix_us: Option<i64>,
    ) -> (st: PropagationStatus)
        requires
            old(self).wf(),
            raw.bounded(),
        ensures
            final(self).wf(),
            final(self).elements == old(self).elements,
            final(self).location == old(self).location,
            final(self).regime == old(self).regime,
            final(self).sat == observable_of(*raw, aos_unix_us, los_unix_us),
            st is Decayed <==> raw.alt_km_e3 < 0,
    {
        self.sat = Observable::normalize(raw, aos_unix_us, los_unix_us);
        if raw.alt_km_e3 < 0 {
            PropagationStatus::Decayed
        } else {
            PropagationStatus::Nominal
        }
    }
}

/// Advancing is deterministic and history-free: two sessions handed the
/// same raw reading and crossing instants hold identical snapshots
/// afterwards, bit for bit, whatever either held before.
pub proof fn lemma_advance_deterministic(
    p1: Predict,
    p2: Predict,
    raw: RawObservation,
    aos_unix_us: Option<i64>,
    los_unix_us: Option<i64>,
)
    requires
        p1.sat == observable_of(raw, aos_unix_us, los_unix_us),
        p2.sat == observable_of(raw, aos_unix_us, los_unix_us),
    ensures
        p1.sat == p2.sat,
{
}

} // verus!
