//! The snapshot: everything that one poll of the flight controller yields.

use crate::msg::MAX_WAYPOINTS;
use crate::telemetry::{ArmStatus, ChannelData, InputModeSwitch, LinkStats, Params, Quaternion};
use crate::waypoint::{table_view, Location, LocationView};
use crate::wire::Binary32;
use vstd::prelude::*;

verus! {

/// The state of the aircraft as one complete poll found it.
#[derive(Clone, Debug, PartialEq, Eq)]
pub struct AircraftSnapshot {
    pub attitude_quat: Quaternion,
    /// Barometric altitude.
    pub altimeter: Binary32,
    /// Altitude above ground level, where the flight controller has one.
    pub altimeter_agl: Option<Binary32>,
    /// Battery voltage.
    pub batt_v: Binary32,
    /// Current draw.
    pub current: Binary32,
    pub controls: ChannelData,
    pub link_stats: LinkStats,
    /// The waypoint table, one entry for each slot.
    pub waypoints: Vec<Option<Location>>,
}

/// A snapshot with its waypoints by their views.
pub struct SnapshotView {
    pub attitude_quat: Quaternion,
    pub altimeter: Binary32,
    pub altimeter_agl: Option<Binary32>,
    pub batt_v: Binary32,
    pub current: Binary32,
    pub controls: ChannelData,
    pub link_stats: LinkStats,
    pub waypoints: Seq<Option<LocationView>>,
}

impl View for AircraftSnapshot {
    type V = SnapshotView;

    open spec fn view(&self) -> SnapshotView {
        SnapshotView {
            attitude_quat: self.attitude_quat,
            altimeter: self.altimeter,
            altimeter_agl: self.altimeter_agl,
            batt_v: self.batt_v,
            current: self.current,
            controls: self.controls,
            link_stats: self.link_stats,
            waypoints: table_view(self.waypoints@),
        }
    }
}

impl SnapshotView {
    /// The snapshot before anything was read: every number zero, motors
    /// disarmed, acro mode, no ground-level reading, thirty empty waypoint
    /// slots.
    pub open spec fn blank() -> SnapshotView {
        let zero = Binary32 { bits: 0 };
        SnapshotView {
            attitude_quat: Quaternion { w: zero, x: zero, y: zero, z: zero },
            altimeter: zero,
            altimeter_agl: None,
            batt_v: zero,
            current: zero,
            controls: ChannelData {
                roll: zero,
                pitch: zero,
                throttle: zero,
                yaw: zero,
                arm_status: ArmStatus::Disarmed,
                input_mode: InputModeSwitch::Acro,
            },
            link_stats: LinkStats::zero(),
            waypoints: Seq::new(MAX_WAYPOINTS as nat, |i: int| None::<LocationView>),
        }
    }

    /// The snapshot with attitude, altitudes, voltage and current replaced.
    pub open spec fn with_params(self, params: Params) -> SnapshotView {
        SnapshotView {
            attitude_quat: params.attitude_quat,
            altimeter: params.altimeter,
            altimeter_agl: params.altimeter_agl,
            batt_v: params.batt_v,
            current: params.current,
            ..self
        }
    }

    /// The snapshot with the controls replaced.
    pub open spec fn with_controls(self, controls: ChannelData) -> SnapshotView {
        SnapshotView { controls, ..self }
    }

    /// The snapshot with the link statistics replaced.
    pub open spec fn with_link_stats(self, link_stats: LinkStats) -> SnapshotView {
        SnapshotView { link_stats, ..self }
    }

    /// The snapshot with the waypoint table replaced.
    pub open spec fn with_waypoints(self, waypoints: Seq<Option<LocationView>>) -> SnapshotView {
        SnapshotView { waypoints, ..self }
    }
}

impl Default for AircraftSnapshot {
    fn default() -> (snapshot: Self)
        ensures
            snapshot@ == SnapshotView::blank(),
    {
        let zero = Binary32 { bits: 0 };
        let mut waypoints: Vec<Option<Location>> = Vec::with_capacity(MAX_WAYPOINTS);
        let mut i: usize = 0;
        while i < MAX_WAYPOINTS
            invariant
                i <= MAX_WAYPOINTS,
                waypoints@.len() == i,
                forall|k: int| 0 <= k < i ==> waypoints@[k] is None,
            decreases MAX_WAYPOINTS - i,
        {
            waypoints.push(None);
            i += 1;
        }
        let snapshot = AircraftSnapshot {
            attitude_quat: Quaternion::default(),
            altimeter: zero,
            altimeter_agl: None,
            batt_v: zero,
            current: zero,
            controls: ChannelData::default(),
            link_stats: LinkStats::default(),
            waypoints,
        };
        assert(snapshot@.waypoints =~= SnapshotView::blank().waypoints);
        snapshot
    }
}

} // verus!
