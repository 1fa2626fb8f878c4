//! The simulated vehicle's pose and the keys that change it.
//!
//! Each field is a whole number of its own unit. The units are chosen so that
//! every waypoint and every step is exact: a hundred-millionth of a degree
//! for latitude and longitude, a third of a metre for altitude, a degree for
//! the three angles.

use vstd::prelude::*;

verus! {

/// Units of latitude or longitude in one degree.
pub const POSITION_UNITS_PER_DEGREE: i64 = 100_000_000;

/// Units of altitude in one metre.
pub const ALTITUDE_UNITS_PER_METER: i64 = 3;

/// Units of yaw, pitch or roll in one degree.
pub const ANGLE_UNITS_PER_DEGREE: i64 = 1;

/// The step of latitude and longitude: 0.0005 degrees.
pub const POSITION_STEP: i64 = 50_000;

/// The step of altitude: 10 metres.
pub const ALTITUDE_STEP: i64 = 30;

/// The step of yaw, pitch and roll: 1 degree.
pub const ANGLE_STEP: i64 = 1;

/// The six fields of a pose.
#[derive(Clone, Copy, Debug, PartialEq, Eq, Structural)]
pub enum Field {
    Lat,
    Lon,
    Alt,
    Yaw,
    Pitch,
    Roll,
}

/// The three fixed places that a key can jump to.
#[derive(Clone, Copy, Debug, PartialEq, Eq, Structural)]
pub enum Waypoint {
    Eddm,
    Lowi,
    Tunnel,
}

/// What a key of the pose program does.
#[derive(Clone, Copy, Debug, PartialEq, Eq, Structural)]
pub enum PoseAction {
    /// Overwrite the whole pose with a waypoint.
    Snap(Waypoint),
    /// Move one field by its step, up or down.
    Nudge { field: Field, increase: bool },
}

/// The pose of the simulated vehicle.
#[derive(Clone, Copy, Debug, PartialEq, Eq, Structural)]
pub struct SimStatus {
    /// Latitude, in hundred-millionths of a degree.
    pub lat: i64,
    /// Longitude, in hundred-millionths of a degree.
    pub lon: i64,
    /// Altitude, in thirds of a metre.
    pub alt: i64,
    /// Yaw, in degrees.
    pub yaw: i64,
    /// Pitch, in degrees.
    pub pitch: i64,
    /// Roll, in degrees.
    pub roll: i64,
}

/// The value nearest to `v` that a field can hold.
pub open spec fn clamped(v: int) -> int {
    if v > i64::MAX {
        i64::MAX as int
    } else if v < i64::MIN {
        i64::MIN as int
    } else {
        v
    }
}

impl Field {
    /// The step by which a key moves this field.
    pub open spec fn step(self) -> int {
        match self {
            Field::Lat | Field::Lon => POSITION_STEP as int,
            Field::Alt => ALTITUDE_STEP as int,
            Field::Yaw | Field::Pitch | Field::Roll => ANGLE_STEP as int,
        }
    }

    /// What a nudge adds to this field: the step, or the step negated.
    pub open spec fn signed_step(self, increase: bool) -> int {
        if increase {
            self.step()
        } else {
            -self.step()
        }
    }

    /// The step by which a key moves this field.
    pub fn step_size(self) -> (step: i64)
        ensures
            step == self.step(),
    {
        match self {
            Field::Lat | Field::Lon => POSITION_STEP,
            Field::Alt => ALTITUDE_STEP,
            Field::Yaw | Field::Pitch | Field::Roll => ANGLE_STEP,
        }
    }
}

impl Waypoint {
    /// The pose of this waypoint.
    pub open spec fn status(self) -> SimStatus {
        match self {
            Waypoint::Eddm => SimStatus {
                lat: 4_836_196_100,
                lon: 1_175_035_300,
                alt: 2_100,
                yaw: 82,
                pitch: 0,
                roll: 0,
            },
            Waypoint::Lowi => SimStatus {
                lat: 4_725_899_000,
                lon: 1_133_090_000,
                alt: 2_100,
                yaw: 84,
                pitch: 0,
                roll: 0,
            },
            Waypoint::Tunnel => SimStatus {
                lat: 4_833_842_534,
                lon: 1_145_679_864,
                alt: 5_101,
                yaw: 84,
                pitch: 0,
                roll: 0,
            },
        }
    }

    /// The pose of this waypoint.
    pub fn pose(self) -> (pose: SimStatus)
        ensures
            pose == self.status(),
    {
        match self {
            Waypoint::Eddm => SimStatus {
                lat: 4_836_196_100,
                lon: 1_175_035_300,
                alt: 2_100,
                yaw: 82,
                pitch: 0,
                roll: 0,
            },
            Waypoint::Lowi => SimStatus {
                lat: 4_725_899_000,
                lon: 1_133_090_000,
                alt: 2_100,
                yaw: 84,
                pitch: 0,
                roll: 0,
            },
            Waypoint::Tunnel => SimStatus {
                lat: 4_833_842_534,
                lon: 1_145_679_864,
                alt: 5_101,
                yaw: 84,
                pitch: 0,
                roll: 0,
            },
        }
    }
}

/// What the key `key` does to a pose; `None` for a key without effect.
pub open spec fn key_action(key: char) -> Option<PoseAction> {
    match key {
        '1' => Some(PoseAction::Snap(Waypoint::Eddm)),
        '2' => Some(PoseAction::Snap(Waypoint::Lowi)),
        '3' => Some(PoseAction::Snap(Waypoint::Tunnel)),
        'w' => Some(PoseAction::Nudge { field: Field::Lat, increase: true }),
        's' => Some(PoseAction::Nudge { field: Field::Lat, increase: false }),
        'd' => Some(PoseAction::Nudge { field: Field::Lon, increase: true }),
        'a' => Some(PoseAction::Nudge { field: Field::Lon, increase: false }),
        'e' => Some(PoseAction::Nudge { field: Field::Alt, increase: true }),
        'q' => Some(PoseAction::Nudge { field: Field::Alt, increase: false }),
        'i' => Some(PoseAction::Nudge { field: Field::Yaw, increase: true }),
        'k' => Some(PoseAction::Nudge { field: Field::Yaw, increase: false }),
        'l' => Some(PoseAction::Nudge { field: Field::Pitch, increase: true }),
        'j' => Some(PoseAction::Nudge { field: Field::Pitch, increase: false }),
        'o' => Some(PoseAction::Nudge { field: Field::Roll, increase: true }),
        'u' => Some(PoseAction::Nudge { field: Field::Roll, increase: false }),
        _ => None,
    }
}

/// What the key `key` does to a pose; `None` for a key without effect.
pub fn pose_action(key: char) -> (action: Option<PoseAction>)
    ensures
        action == key_action(key),
{
    match key {
        '1' => Some(PoseAction::Snap(Waypoint::Eddm)),
        '2' => Some(PoseAction::Snap(Waypoint::Lowi)),
        '3' => Some(PoseAction::Snap(Waypoint::Tunnel)),
        'w' => Some(PoseAction::Nudge { field: Field::Lat, increase: true }),
        's' => Some(PoseAction::Nudge { field: Field::Lat, increase: false }),
        'd' => Some(PoseAction::Nudge { field: Field::Lon, increase: true }),
        'a' => Some(PoseAction::Nudge { field: Field::Lon, increase: false }),
        'e' => Some(PoseAction::Nudge { field: Field::Alt, increase: true }),
        'q' => Some(PoseAction::Nudge { field: Field::Alt, increase: false }),
        'i' => Some(PoseAction::Nudge { field: Field::Yaw, increase: true }),
        'k' => Some(PoseAction::Nudge { field: Field::Yaw, increase: false }),
        'l' => Some(PoseAction::Nudge { field: Field::Pitch, increase: true }),
        'j' => Some(PoseAction::Nudge { field: Field::Pitch, increase: false }),
        'o' => Some(PoseAction::Nudge { field: Field::Roll, increase: true }),
        'u' => Some(PoseAction::Nudge { field: Field::Roll, increase: false }),
        _ => None,
    }
}

/// `value` moved by `step`, held at the nearest end of the range where the
/// sum would leave it.
fn shifted(value: i64, step: i64) -> (moved: i64)
    ensures
        moved == clamped(value + step),
{
    match value.checked_add(step) {
        Some(moved) => moved,
        None => if step > 0 {
            i64::MAX
        } else {
            i64::MIN
        },
    }
}

impl SimStatus {
    /// The value of one field.
    pub open spec fn get(self, field: Field) -> int {
        match field {
            Field::Lat => self.lat as int,
            Field::Lon => self.lon as int,
            Field::Alt => self.alt as int,
            Field::Yaw => self.yaw as int,
            Field::Pitch => self.pitch as int,
            Field::Roll => self.roll as int,
        }
    }

    /// This pose with one field replaced.
    pub open spec fn with(self, field: Field, value: i64) -> SimStatus {
        match field {
            Field::Lat => SimStatus { lat: value, ..self },
            Field::Lon => SimStatus { lon: value, ..self },
            Field::Alt => SimStatus { alt: value, ..self },
            Field::Yaw => SimStatus { yaw: value, ..self },
            Field::Pitch => SimStatus { pitch: value, ..self },
            Field::Roll => SimStatus { roll: value, ..self },
        }
    }

    /// The pose that `action` makes of this one. A waypoint replaces all six
    /// fields; a nudge moves one field by its step and stops at the ends of
    /// the range.
    pub open spec fn after(self, action: PoseAction) -> SimStatus {
        match action {
            PoseAction::Snap(waypoint) => waypoint.status(),
            PoseAction::Nudge { field, increase } => self.with(
                field,
                clamped(self.get(field) + field.signed_step(increase)) as i64,
            ),
        }
    }

    /// Whether a nudge of `field` keeps it inside the range of its values.
    pub open spec fn has_room(self, field: Field, increase: bool) -> bool {
        i64::MIN <= self.get(field) + field.signed_step(increase) <= i64::MAX
    }

    /// The pose after the key `key`: a key without effect leaves it as it is.
    pub open spec fn after_key(self, key: char) -> SimStatus {
        match key_action(key) {
            Some(action) => self.after(action),
            None => self,
        }
    }

    /// The pose of a fresh session.
    pub fn initial() -> (pose: SimStatus)
        ensures
            pose == Waypoint::Eddm.status(),
    {
        Waypoint::Eddm.pose()
    }

    /// Carries out `action` on this pose.
    pub fn apply(&mut self, action: PoseAction)
        ensures
            *final(self) == old(self).after(action),
    {
        match action {
            PoseAction::Snap(waypoint) => {
                *self = waypoint.pose();
            },
            PoseAction::Nudge { field, increase } => {
                let step: i64 = field.step_size();
                let delta: i64 = if increase {
                    step
                } else {
                    -step
                };
                match field {
                    Field::Lat => {
                        self.lat = shifted(self.lat, delta);
                    },
                    Field::Lon => {
                        self.lon = shifted(self.lon, delta);
                    },
                    Field::Alt => {
                        self.alt = shifted(self.alt, delta);
                    },
                    Field::Yaw => {
                        self.yaw = shifted(self.yaw, delta);
                    },
                    Field::Pitch => {
                        self.pitch = shifted(self.pitch, delta);
                    },
                    Field::Roll => {
                        self.roll = shifted(self.roll, delta);
                    },
                }
            },
        }
    }

    /// Handles one key and says whether the key had an effect.
    pub fn press(&mut self, key: char) -> (matched: bool)
        ensures
            *final(self) == old(self).after_key(key),
            matched == key_action(key).is_some(),
            !matched ==> *final(self) == *old(self),
    {
        match pose_action(key) {
            Some(action) => {
                self.apply(action);
                true
            },
            None => false,
        }
    }
}

/// What each key does to a pose.
///
/// A key without effect leaves the pose as it is. A waypoint key overwrites
/// all six fields at once with one of the three waypoints, whatever the pose
/// was. Every other key changes exactly one field by exactly that field's
/// step, upwards or downwards, and leaves the other five as they were. The
/// last holds wherever the field has room for the step; at the ends of its
/// range a field stays where it is.
pub proof fn lemma_key_effect(pose: SimStatus, key: char)
    requires
        match key_action(key) {
            Some(PoseAction::Nudge { field, increase }) => pose.has_room(field, increase),
            _ => true,
        },
    ensures
        match key_action(key) {
            None => pose.after_key(key) == pose,
            Some(PoseAction::Snap(waypoint)) => {
                &&& pose.after_key(key) == waypoint.status()
                &&& waypoint.status() == Waypoint::Eddm.status() || waypoint.status()
                    == Waypoint::Lowi.status() || waypoint.status() == Waypoint::Tunnel.status()
            },
            Some(PoseAction::Nudge { field, increase }) => {
                &&& pose.after_key(key).get(field) == pose.get(field) + field.signed_step(increase)
                &&& forall|other: Field|
                    other != field ==> pose.after_key(key).get(other) == pose.get(other)
            },
        },
{
}

} // verus!
