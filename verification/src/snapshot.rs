//! The data that the checks read.

use vstd::prelude::*;

verus! {

/// A wind: its speed, and the direction it comes from in degrees. Both are
/// binary64 bit patterns.
#[derive(Clone, Copy, Debug, PartialEq)]
pub struct Wind {
    pub speed: u64,
    pub direction: u64,
}

/// One sounding, as the checks see it.
///
/// A profile holds one sample per level, from the lowest level to the
/// highest, and `None` where a level has no measurement. Profiles are aligned
/// by index, with pressure as the vertical coordinate. A profile that was not
/// measured at all is empty. Every number is a binary64 bit pattern.
#[derive(Clone, Debug)]
pub struct Snapshot {
    pub pressure: Vec<Option<u64>>,
    pub temperature: Vec<Option<u64>>,
    pub wet_bulb: Vec<Option<u64>>,
    pub dew_point: Vec<Option<u64>>,
    pub theta_e: Vec<Option<u64>>,
    pub wind: Vec<Option<Wind>>,
    pub pvv: Vec<Option<u64>>,
    pub height: Vec<Option<u64>>,
    pub cloud_fraction: Vec<Option<u64>>,
    pub mslp: Option<u64>,
    pub station_pressure: Option<u64>,
    pub low_cloud: Option<u64>,
    pub mid_cloud: Option<u64>,
    pub high_cloud: Option<u64>,
    pub sfc_wind: Option<Wind>,
    pub elevation: Option<u64>,
}

impl Snapshot {
    /// A sounding without any data.
    pub fn new() -> (s: Self)
        ensures
            s@ == (SnapshotView {
                pressure: Seq::empty(),
                temperature: Seq::empty(),
                wet_bulb: Seq::empty(),
                dew_point: Seq::empty(),
                theta_e: Seq::empty(),
                wind: Seq::empty(),
                pvv: Seq::empty(),
                height: Seq::empty(),
                cloud_fraction: Seq::empty(),
                mslp: None,
                station_pressure: None,
                low_cloud: None,
                mid_cloud: None,
                high_cloud: None,
                sfc_wind: None,
                elevation: None,
            }),
    {
        Snapshot {
            pressure: Vec::new(),
            temperature: Vec::new(),
            wet_bulb: Vec::new(),
            dew_point: Vec::new(),
            theta_e: Vec::new(),
            wind: Vec::new(),
            pvv: Vec::new(),
            height: Vec::new(),
            cloud_fraction: Vec::new(),
            mslp: None,
            station_pressure: None,
            low_cloud: None,
            mid_cloud: None,
            high_cloud: None,
            sfc_wind: None,
            elevation: None,
        }
    }
}

/// A sounding as sequences: what the contracts speak of.
pub struct SnapshotView {
    pub pressure: Seq<Option<u64>>,
    pub temperature: Seq<Option<u64>>,
    pub wet_bulb: Seq<Option<u64>>,
    pub dew_point: Seq<Option<u64>>,
    pub theta_e: Seq<Option<u64>>,
    pub wind: Seq<Option<Wind>>,
    pub pvv: Seq<Option<u64>>,
    pub height: Seq<Option<u64>>,
    pub cloud_fraction: Seq<Option<u64>>,
    pub mslp: Option<u64>,
    pub station_pressure: Option<u64>,
    pub low_cloud: Option<u64>,
    pub mid_cloud: Option<u64>,
    pub high_cloud: Option<u64>,
    pub sfc_wind: Option<Wind>,
    pub elevation: Option<u64>,
}

impl View for Snapshot {
    type V = SnapshotView;

    open spec fn view(&self) -> SnapshotView {
        SnapshotView {
            pressure: self.pressure@,
            temperature: self.temperature@,
            wet_bulb: self.wet_bulb@,
            dew_point: self.dew_point@,
            theta_e: self.theta_e@,
            wind: self.wind@,
            pvv: self.pvv@,
            height: self.height@,
            cloud_fraction: self.cloud_fraction@,
            mslp: self.mslp,
            station_pressure: self.station_pressure,
            low_cloud: self.low_cloud,
            mid_cloud: self.mid_cloud,
            high_cloud: self.high_cloud,
            sfc_wind: self.sfc_wind,
            elevation: self.elevation,
        }
    }
}

} // verus!
