//! The settings of a device session.

use crate::config::{MevoSection, EIGHT, EIGHTY, ONE_AND_A_HALF};
use crate::event::MevoConfigEvent;
use crate::scalar::Scalar;
use crate::units::{Distance, PartialMode, ShotDetectionMode};
use vstd::prelude::*;

verus! {

/// The settings that are sent to the device when a session is configured. Each distance keeps
/// the unit in which the user gave it.
#[derive(Debug, Clone, Copy, PartialEq, Eq, Structural)]
pub struct SessionConfig {
    pub ball_type: u8,
    pub tee_height: Distance,
    pub range: Distance,
    pub surface_height: Distance,
    pub track_pct: Scalar,
    pub use_partial: PartialMode,
}

/// The settings of a session that has none of its own: ball type 0, a tee 1.5 inches high, a
/// range of 8 feet, the surface at 0 inches, 80 percent tracking, partial shots for chipping.
pub open spec fn default_session() -> SessionConfig {
    SessionConfig {
        ball_type: 0,
        tee_height: Distance::Inches(Scalar { bits: ONE_AND_A_HALF }),
        range: Distance::Feet(Scalar { bits: EIGHT }),
        surface_height: Distance::Inches(Scalar { bits: 0 }),
        track_pct: Scalar { bits: EIGHTY },
        use_partial: PartialMode::ChippingOnly,
    }
}

/// `value` where it is there, `fallback` where it is not.
pub open spec fn or_default<T>(value: Option<T>, fallback: T) -> T {
    match value {
        Some(v) => v,
        None => fallback,
    }
}

impl Default for SessionConfig {
    fn default() -> (c: SessionConfig)
        ensures
            c == default_session(),
    {
        SessionConfig {
            ball_type: 0,
            tee_height: Distance::Inches(Scalar { bits: ONE_AND_A_HALF }),
            range: Distance::Feet(Scalar { bits: EIGHT }),
            surface_height: Distance::Inches(Scalar { bits: 0 }),
            track_pct: Scalar { bits: EIGHTY },
            use_partial: PartialMode::ChippingOnly,
        }
    }
}

impl SessionConfig {
    /// The settings that a section asks for: each setting of the section, or its default.
    pub open spec fn spec_from_mevo_section(s: MevoSection) -> SessionConfig {
        SessionConfig {
            ball_type: or_default(s.ball_type, default_session().ball_type),
            tee_height: or_default(s.tee_height, default_session().tee_height),
            range: or_default(s.range, default_session().range),
            surface_height: or_default(s.surface_height, default_session().surface_height),
            track_pct: or_default(s.track_pct, default_session().track_pct),
            use_partial: or_default(s.use_partial, default_session().use_partial),
        }
    }

    /// The settings as they are announced on the bus.
    pub open spec fn spec_to_config_event(self) -> MevoConfigEvent {
        MevoConfigEvent {
            ball_type: self.ball_type,
            tee_height: self.tee_height,
            range: self.range,
            surface_height: self.surface_height,
            track_pct: self.track_pct,
            use_partial: self.use_partial,
        }
    }

    /// The settings that an announcement carries.
    pub open spec fn spec_from_config_event(event: MevoConfigEvent) -> SessionConfig {
        SessionConfig {
            ball_type: event.ball_type,
            tee_height: event.tee_height,
            range: event.range,
            surface_height: event.surface_height,
            track_pct: event.track_pct,
            use_partial: event.use_partial,
        }
    }

    /// Both ask the device for the same thing: every number is the same number, in the same
    /// unit.
    pub open spec fn same_settings(self, other: SessionConfig) -> bool {
        &&& self.ball_type == other.ball_type
        &&& self.tee_height.same_distance(other.tee_height)
        &&& self.range.same_distance(other.range)
        &&& self.surface_height.same_distance(other.surface_height)
        &&& self.track_pct.same_number(other.track_pct)
        &&& self.use_partial == other.use_partial
    }

    /// The label of a mode: its name on the device and the index that is sent for it.
    pub open spec fn spec_mode_label(mode: ShotDetectionMode) -> Seq<char> {
        match mode {
            ShotDetectionMode::Full => "outdoor(9)"@,
            ShotDetectionMode::Putting => "putting(3)"@,
            ShotDetectionMode::Chipping => "chipping(5)"@,
        }
    }

    /// The index that is sent to the device for a mode: 9 outdoors for full shots, 3 for
    /// putting, 5 for chipping.
    pub open spec fn spec_mode_index(mode: ShotDetectionMode) -> u8 {
        match mode {
            ShotDetectionMode::Full => 9,
            ShotDetectionMode::Putting => 3,
            ShotDetectionMode::Chipping => 5,
        }
    }

    /// The index that is sent to the device for a mode.
    pub fn mode_index(mode: ShotDetectionMode) -> (index: u8)
        ensures
            index == Self::spec_mode_index(mode),
    {
        match mode {
            ShotDetectionMode::Full => 9,
            ShotDetectionMode::Putting => 3,
            ShotDetectionMode::Chipping => 5,
        }
    }

    /// Builds the settings from a configuration section; a setting that the section leaves out
    /// takes its default.
    pub fn from_mevo_section(s: &MevoSection) -> (c: SessionConfig)
        ensures
            c == Self::spec_from_mevo_section(*s),
    {
        let defaults = SessionConfig::default();
        SessionConfig {
            ball_type: match s.ball_type {
                Some(v) => v,
                None => defaults.ball_type,
            },
            tee_height: match s.tee_height {
                Some(v) => v,
                None => defaults.tee_height,
            },
            range: match s.range {
                Some(v) => v,
                None => defaults.range,
            },
            surface_height: match s.surface_height {
                Some(v) => v,
                None => defaults.surface_height,
            },
            track_pct: match s.track_pct {
                Some(v) => v,
                None => defaults.track_pct,
            },
            use_partial: match s.use_partial {
                Some(v) => v,
                None => defaults.use_partial,
            },
        }
    }

    /// Takes over every setting of an announcement.
    pub fn apply_config_event(&mut self, event: &MevoConfigEvent)
        ensures
            *final(self) == Self::spec_from_config_event(*event),
    {
        self.ball_type = event.ball_type;
        self.tee_height = event.tee_height;
        self.range = event.range;
        self.surface_height = event.surface_height;
        self.track_pct = event.track_pct;
        self.use_partial = event.use_partial;
    }

    /// The label of a mode, for logs and telemetry.
    pub fn mode_label(mode: &ShotDetectionMode) -> (s: &'static str)
        ensures
            s@ == Self::spec_mode_label(*mode),
    {
        match mode {
            ShotDetectionMode::Full => "outdoor(9)",
            ShotDetectionMode::Putting => "putting(3)",
            ShotDetectionMode::Chipping => "chipping(5)",
        }
    }

    /// The settings as an announcement for the bus.
    pub fn to_config_event(&self) -> (e: MevoConfigEvent)
        ensures
            e == self.spec_to_config_event(),
    {
        MevoConfigEvent {
            ball_type: self.ball_type,
            tee_height: self.tee_height,
            range: self.range,
            surface_height: self.surface_height,
            track_pct: self.track_pct,
            use_partial: self.use_partial,
        }
    }

    /// Whether both ask the device for the same thing.
    pub fn equals(&self, other: &SessionConfig) -> (r: bool)
        ensures
            r == self.same_settings(*other),
    {
        self.ball_type == other.ball_type && self.tee_height.equals(other.tee_height)
            && self.range.equals(other.range) && self.surface_height.equals(other.surface_height)
            && self.track_pct.equals(other.track_pct) && self.use_partial == other.use_partial
    }
}

/// An announcement made from settings carries those settings back.
pub proof fn lemma_config_event_round_trip(c: SessionConfig)
    ensures
        SessionConfig::spec_from_config_event(c.spec_to_config_event()) == c,
{
}

} // verus!
