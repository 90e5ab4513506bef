//! Modes and unit-tagged measurements.

use crate::scalar::Scalar;
use crate::text::{ends_with, str_eq, strip_suffix, without_suffix};
use vstd::prelude::*;
use vstd::string::*;

verus! {

/// Which kind of swing the launch monitor is set up to detect.
#[derive(Debug, Clone, Copy, PartialEq, Eq, Structural)]
pub enum ShotDetectionMode {
    Full,
    Putting,
    Chipping,
}

impl ShotDetectionMode {
    /// The mode's name on the wire.
    pub open spec fn spec_name(self) -> Seq<char> {
        match self {
            ShotDetectionMode::Full => "full"@,
            ShotDetectionMode::Putting => "putting"@,
            ShotDetectionMode::Chipping => "chipping"@,
        }
    }

    /// The mode's name on the wire: `full`, `putting` or `chipping`.
    pub fn name(self) -> (s: &'static str)
        ensures
            s@ == self.spec_name(),
    {
        match self {
            ShotDetectionMode::Full => "full",
            ShotDetectionMode::Putting => "putting",
            ShotDetectionMode::Chipping => "chipping",
        }
    }

    /// The mode that `name` stands for.
    pub open spec fn spec_from_name(name: Seq<char>) -> Option<ShotDetectionMode> {
        if name == "full"@ {
            Some(ShotDetectionMode::Full)
        } else if name == "putting"@ {
            Some(ShotDetectionMode::Putting)
        } else if name == "chipping"@ {
            Some(ShotDetectionMode::Chipping)
        } else {
            None
        }
    }

    /// Reads a mode's wire name. Any other text gives `None`.
    pub fn from_name(name: &str) -> (r: Option<ShotDetectionMode>)
        ensures
            r == Self::spec_from_name(name@),
    {
        if str_eq(name, "full") {
            Some(ShotDetectionMode::Full)
        } else if str_eq(name, "putting") {
            Some(ShotDetectionMode::Putting)
        } else if str_eq(name, "chipping") {
            Some(ShotDetectionMode::Chipping)
        } else {
            None
        }
    }
}

/// Reading a mode's own name gives the mode back.
pub proof fn lemma_mode_name_round_trip(mode: ShotDetectionMode)
    ensures
        ShotDetectionMode::spec_from_name(mode.spec_name()) == Some(mode),
{
    reveal_strlit("full");
    reveal_strlit("putting");
    reveal_strlit("chipping");
    assert("full"@.len() == 4);
    assert("putting"@.len() == 7);
    assert("chipping"@.len() == 8);
}

/// A length and the unit it is given in.
#[derive(Debug, Clone, Copy, PartialEq, Eq, Structural)]
pub enum Distance {
    Feet(Scalar),
    Inches(Scalar),
    Meters(Scalar),
    Centimeters(Scalar),
    Yards(Scalar),
}

impl Distance {
    /// The number, in the distance's own unit.
    pub open spec fn spec_value(self) -> Scalar {
        match self {
            Distance::Feet(v) => v,
            Distance::Inches(v) => v,
            Distance::Meters(v) => v,
            Distance::Centimeters(v) => v,
            Distance::Yards(v) => v,
        }
    }

    /// The unit's short suffix.
    pub open spec fn spec_unit_suffix(self) -> Seq<char> {
        match self {
            Distance::Feet(_) => "ft"@,
            Distance::Inches(_) => "in"@,
            Distance::Meters(_) => "m"@,
            Distance::Centimeters(_) => "cm"@,
            Distance::Yards(_) => "yd"@,
        }
    }

    /// The unit's full name.
    pub open spec fn spec_unit_key(self) -> Seq<char> {
        match self {
            Distance::Feet(_) => "feet"@,
            Distance::Inches(_) => "inches"@,
            Distance::Meters(_) => "meters"@,
            Distance::Centimeters(_) => "centimeters"@,
            Distance::Yards(_) => "yards"@,
        }
    }

    /// The distance of `value` in the unit named `unit`; an unknown name means inches.
    pub open spec fn spec_from_value_and_unit(value: Scalar, unit: Seq<char>) -> Distance {
        if unit == "feet"@ {
            Distance::Feet(value)
        } else if unit == "meters"@ {
            Distance::Meters(value)
        } else if unit == "centimeters"@ {
            Distance::Centimeters(value)
        } else if unit == "yards"@ {
            Distance::Yards(value)
        } else {
            Distance::Inches(value)
        }
    }

    /// Both are given in the same unit and hold the same number.
    pub open spec fn same_distance(self, other: Distance) -> bool {
        match (self, other) {
            (Distance::Feet(a), Distance::Feet(b)) => a.same_number(b),
            (Distance::Inches(a), Distance::Inches(b)) => a.same_number(b),
            (Distance::Meters(a), Distance::Meters(b)) => a.same_number(b),
            (Distance::Centimeters(a), Distance::Centimeters(b)) => a.same_number(b),
            (Distance::Yards(a), Distance::Yards(b)) => a.same_number(b),
            _ => false,
        }
    }

    /// What the text of a distance splits into: the text before the unit's suffix, and the
    /// unit's full name. The suffixes are tried in the order `cm`, `ft`, `in`, `yd`, `m`, so
    /// that centimetres are not taken for metres. A text that ends in none of them is no
    /// distance.
    pub open spec fn spec_split_text(text: Seq<char>) -> Option<(Seq<char>, Seq<char>)> {
        if ends_with(text, "cm"@) {
            Some((without_suffix(text, "cm"@), "centimeters"@))
        } else if ends_with(text, "ft"@) {
            Some((without_suffix(text, "ft"@), "feet"@))
        } else if ends_with(text, "in"@) {
            Some((without_suffix(text, "in"@), "inches"@))
        } else if ends_with(text, "yd"@) {
            Some((without_suffix(text, "yd"@), "yards"@))
        } else if ends_with(text, "m"@) {
            Some((without_suffix(text, "m"@), "meters"@))
        } else {
            None
        }
    }

    /// Splits the text of a distance, such as `1.5in`, into the text of its number and the
    /// full name of its unit. The caller reads the number and tags it with
    /// `from_value_and_unit`.
    pub fn split_text(text: &str) -> (r: Option<(String, &'static str)>)
        ensures
            match r {
                Some((number, unit)) => Self::spec_split_text(text@) == Some((number@, unit@)),
                None => Self::spec_split_text(text@) is None,
            },
    {
        match strip_suffix(text, "cm") {
            Some(number) => {
                return Some((number, "centimeters"));
            },
            None => {},
        }
        match strip_suffix(text, "ft") {
            Some(number) => {
                return Some((number, "feet"));
            },
            None => {},
        }
        match strip_suffix(text, "in") {
            Some(number) => {
                return Some((number, "inches"));
            },
            None => {},
        }
        match strip_suffix(text, "yd") {
            Some(number) => {
                return Some((number, "yards"));
            },
            None => {},
        }
        match strip_suffix(text, "m") {
            Some(number) => Some((number, "meters")),
            None => None,
        }
    }

    /// The number, in the distance's own unit.
    pub fn value(self) -> (v: Scalar)
        ensures
            v == self.spec_value(),
    {
        match self {
            Distance::Feet(v) => v,
            Distance::Inches(v) => v,
            Distance::Meters(v) => v,
            Distance::Centimeters(v) => v,
            Distance::Yards(v) => v,
        }
    }

    /// The unit's short suffix: `ft`, `in`, `m`, `cm` or `yd`.
    pub fn unit_suffix(self) -> (s: &'static str)
        ensures
            s@ == self.spec_unit_suffix(),
    {
        match self {
            Distance::Feet(_) => "ft",
            Distance::Inches(_) => "in",
            Distance::Meters(_) => "m",
            Distance::Centimeters(_) => "cm",
            Distance::Yards(_) => "yd",
        }
    }

    /// The unit's full name: `feet`, `inches`, `meters`, `centimeters` or `yards`.
    pub fn unit_key(self) -> (s: &'static str)
        ensures
            s@ == self.spec_unit_key(),
    {
        match self {
            Distance::Feet(_) => "feet",
            Distance::Inches(_) => "inches",
            Distance::Meters(_) => "meters",
            Distance::Centimeters(_) => "centimeters",
            Distance::Yards(_) => "yards",
        }
    }

    /// Tags `value` with the unit named `unit`; an unknown name means inches.
    pub fn from_value_and_unit(value: Scalar, unit: &str) -> (d: Distance)
        ensures
            d == Self::spec_from_value_and_unit(value, unit@),
            d.spec_value() == value,
    {
        if str_eq(unit, "feet") {
            Distance::Feet(value)
        } else if str_eq(unit, "meters") {
            Distance::Meters(value)
        } else if str_eq(unit, "centimeters") {
            Distance::Centimeters(value)
        } else if str_eq(unit, "yards") {
            Distance::Yards(value)
        } else {
            Distance::Inches(value)
        }
    }

    /// Whether both are given in the same unit and hold the same number.
    pub fn equals(self, other: Distance) -> (r: bool)
        ensures
            r == self.same_distance(other),
    {
        match (self, other) {
            (Distance::Feet(a), Distance::Feet(b)) => a.equals(b),
            (Distance::Inches(a), Distance::Inches(b)) => a.equals(b),
            (Distance::Meters(a), Distance::Meters(b)) => a.equals(b),
            (Distance::Centimeters(a), Distance::Centimeters(b)) => a.equals(b),
            (Distance::Yards(a), Distance::Yards(b)) => a.equals(b),
            _ => false,
        }
    }
}

/// Tagging a distance's number with its own unit name gives the distance back.
pub proof fn lemma_distance_unit_round_trip(d: Distance)
    ensures
        Distance::spec_from_value_and_unit(d.spec_value(), d.spec_unit_key()) == d,
{
    reveal_strlit("feet");
    reveal_strlit("inches");
    reveal_strlit("meters");
    reveal_strlit("centimeters");
    reveal_strlit("yards");
    assert("feet"@.len() == 4);
    assert("inches"@.len() == 6);
    assert("meters"@.len() == 6);
    assert("centimeters"@.len() == 11);
    assert("yards"@.len() == 5);
    assert("meters"@[0] == 'm');
    assert("inches"@[0] == 'i');
}

/// The text of a number followed by a unit's suffix splits into that text and that unit's
/// name. The one exception is left out: a text that ends in `c`, followed by the suffix of
/// metres, reads as centimetres.
pub proof fn lemma_distance_text_round_trip(d: Distance, number: Seq<char>)
    requires
        !(d is Meters && number.len() > 0 && number.last() == 'c'),
    ensures
        Distance::spec_split_text(number + d.spec_unit_suffix()) == Some(
            (number, d.spec_unit_key()),
        ),
{
    reveal_strlit("cm");
    reveal_strlit("ft");
    reveal_strlit("in");
    reveal_strlit("yd");
    reveal_strlit("m");
    let suffix = d.spec_unit_suffix();
    let text = number + suffix;
    let n = text.len() as int;
    assert(text.skip(n - suffix.len()) =~= suffix);
    assert(without_suffix(text, suffix) =~= number);
    assert(text[n - 1] == suffix[suffix.len() - 1]);
    if n >= 2 {
        assert(text.skip(n - 2)[1] == text[n - 1]);
        assert(text.skip(n - 2)[0] == text[n - 2]);
        assert("cm"@[0] == 'c' && "cm"@[1] == 'm');
        assert("ft"@[1] == 't');
        assert("in"@[1] == 'n');
        assert("yd"@[1] == 'd');
        if d is Meters {
            assert(text[n - 2] == number.last());
        }
    }
}

/// A speed and the unit it is given in.
#[derive(Debug, Clone, Copy, PartialEq, Eq, Structural)]
pub enum Velocity {
    MilesPerHour(Scalar),
    FeetPerSecond(Scalar),
    MetersPerSecond(Scalar),
    KilometersPerHour(Scalar),
}

impl Velocity {
    /// The number, in the velocity's own unit.
    pub open spec fn spec_value(self) -> Scalar {
        match self {
            Velocity::MilesPerHour(v) => v,
            Velocity::FeetPerSecond(v) => v,
            Velocity::MetersPerSecond(v) => v,
            Velocity::KilometersPerHour(v) => v,
        }
    }

    /// The unit's name, which is also its suffix.
    pub open spec fn spec_unit_key(self) -> Seq<char> {
        match self {
            Velocity::MilesPerHour(_) => "mph"@,
            Velocity::FeetPerSecond(_) => "fps"@,
            Velocity::MetersPerSecond(_) => "mps"@,
            Velocity::KilometersPerHour(_) => "kph"@,
        }
    }

    /// The velocity of `value` in the unit named `unit`; an unknown name means metres per second.
    pub open spec fn spec_from_value_and_unit(value: Scalar, unit: Seq<char>) -> Velocity {
        if unit == "mph"@ {
            Velocity::MilesPerHour(value)
        } else if unit == "fps"@ {
            Velocity::FeetPerSecond(value)
        } else if unit == "kph"@ {
            Velocity::KilometersPerHour(value)
        } else {
            Velocity::MetersPerSecond(value)
        }
    }

    /// What the text of a speed splits into: the text before the unit's suffix, and the unit's
    /// name, which is the suffix itself: `mph`, `mps`, `kph` or `fps`. A text that ends in
    /// none of them is no speed.
    pub open spec fn spec_split_text(text: Seq<char>) -> Option<(Seq<char>, Seq<char>)> {
        if ends_with(text, "mph"@) {
            Some((without_suffix(text, "mph"@), "mph"@))
        } else if ends_with(text, "mps"@) {
            Some((without_suffix(text, "mps"@), "mps"@))
        } else if ends_with(text, "kph"@) {
            Some((without_suffix(text, "kph"@), "kph"@))
        } else if ends_with(text, "fps"@) {
            Some((without_suffix(text, "fps"@), "fps"@))
        } else {
            None
        }
    }

    /// Splits the text of a speed, such as `67.2mph`, into the text of its number and the
    /// name of its unit. The caller reads the number and tags it with `from_value_and_unit`.
    pub fn split_text(text: &str) -> (r: Option<(String, &'static str)>)
        ensures
            match r {
                Some((number, unit)) => Self::spec_split_text(text@) == Some((number@, unit@)),
                None => Self::spec_split_text(text@) is None,
            },
    {
        match strip_suffix(text, "mph") {
            Some(number) => {
                return Some((number, "mph"));
            },
            None => {},
        }
        match strip_suffix(text, "mps") {
            Some(number) => {
                return Some((number, "mps"));
            },
            None => {},
        }
        match strip_suffix(text, "kph") {
            Some(number) => {
                return Some((number, "kph"));
            },
            None => {},
        }
        match strip_suffix(text, "fps") {
            Some(number) => Some((number, "fps")),
            None => None,
        }
    }

    /// The number, in the velocity's own unit.
    pub fn value(self) -> (v: Scalar)
        ensures
            v == self.spec_value(),
    {
        match self {
            Velocity::MilesPerHour(v) => v,
            Velocity::FeetPerSecond(v) => v,
            Velocity::MetersPerSecond(v) => v,
            Velocity::KilometersPerHour(v) => v,
        }
    }

    /// The unit's short suffix: `mph`, `fps`, `mps` or `kph`.
    pub fn unit_suffix(self) -> (s: &'static str)
        ensures
            s@ == self.spec_unit_key(),
    {
        self.unit_key()
    }

    /// The unit's name: `mph`, `fps`, `mps` or `kph`.
    pub fn unit_key(self) -> (s: &'static str)
        ensures
            s@ == self.spec_unit_key(),
    {
        match self {
            Velocity::MilesPerHour(_) => "mph",
            Velocity::FeetPerSecond(_) => "fps",
            Velocity::MetersPerSecond(_) => "mps",
            Velocity::KilometersPerHour(_) => "kph",
        }
    }

    /// Tags `value` with the unit named `unit`; an unknown name means metres per second.
    pub fn from_value_and_unit(value: Scalar, unit: &str) -> (v: Velocity)
        ensures
            v == Self::spec_from_value_and_unit(value, unit@),
            v.spec_value() == value,
    {
        if str_eq(unit, "mph") {
            Velocity::MilesPerHour(value)
        } else if str_eq(unit, "fps") {
            Velocity::FeetPerSecond(value)
        } else if str_eq(unit, "kph") {
            Velocity::KilometersPerHour(value)
        } else {
            Velocity::MetersPerSecond(value)
        }
    }
}

/// Tagging a velocity's number with its own unit name gives the velocity back.
pub proof fn lemma_velocity_unit_round_trip(v: Velocity)
    ensures
        Velocity::spec_from_value_and_unit(v.spec_value(), v.spec_unit_key()) == v,
{
    reveal_strlit("mph");
    reveal_strlit("fps");
    reveal_strlit("mps");
    reveal_strlit("kph");
    assert("mph"@[2] == 'h');
    assert("mps"@[2] == 's');
    assert("fps"@[0] == 'f');
    assert("kph"@[0] == 'k');
}

/// The text of a number followed by a speed unit's suffix splits into that text and that
/// unit's name.
pub proof fn lemma_velocity_text_round_trip(v: Velocity, number: Seq<char>)
    ensures
        Velocity::spec_split_text(number + v.spec_unit_key()) == Some((number, v.spec_unit_key())),
{
    reveal_strlit("mph");
    reveal_strlit("mps");
    reveal_strlit("kph");
    reveal_strlit("fps");
    let suffix = v.spec_unit_key();
    let text = number + suffix;
    let n = text.len() as int;
    assert(suffix.len() == 3);
    assert(text.skip(n - 3) =~= suffix);
    assert(without_suffix(text, suffix) =~= number);
    assert("mph"@[0] == 'm' && "mph"@[2] == 'h');
    assert("mps"@[0] == 'm' && "mps"@[2] == 's');
    assert("kph"@[0] == 'k');
    assert("fps"@[0] == 'f');
}

/// Whether estimated shots may be forwarded: never, in chipping mode only, or always.
#[derive(Debug, Clone, Copy, PartialEq, Eq, Structural)]
pub enum PartialMode {
    Never,
    ChippingOnly,
    Always,
}

impl PartialMode {
    /// The policy's name on the wire.
    pub open spec fn spec_name(self) -> Seq<char> {
        match self {
            PartialMode::Never => "never"@,
            PartialMode::ChippingOnly => "chipping_only"@,
            PartialMode::Always => "always"@,
        }
    }

    /// The policy that `name` stands for; any unknown name stands for chipping only.
    pub open spec fn spec_from_name(name: Seq<char>) -> PartialMode {
        if name == "never"@ {
            PartialMode::Never
        } else if name == "always"@ {
            PartialMode::Always
        } else {
            PartialMode::ChippingOnly
        }
    }

    /// The policy's name on the wire: `never`, `chipping_only` or `always`.
    pub fn name(self) -> (s: &'static str)
        ensures
            s@ == self.spec_name(),
    {
        match self {
            PartialMode::Never => "never",
            PartialMode::ChippingOnly => "chipping_only",
            PartialMode::Always => "always",
        }
    }

    /// Reads a policy's wire name; any unknown name means chipping only.
    pub fn from_name(name: &str) -> (m: PartialMode)
        ensures
            m == Self::spec_from_name(name@),
    {
        if str_eq(name, "never") {
            PartialMode::Never
        } else if str_eq(name, "always") {
            PartialMode::Always
        } else {
            PartialMode::ChippingOnly
        }
    }
}

/// Reading a policy's own name gives the policy back.
pub proof fn lemma_partial_mode_round_trip(mode: PartialMode)
    ensures
        PartialMode::spec_from_name(mode.spec_name()) == mode,
{
    reveal_strlit("never");
    reveal_strlit("chipping_only");
    reveal_strlit("always");
    assert("never"@.len() == 5);
    assert("always"@.len() == 6);
    assert("chipping_only"@.len() == 13);
}

impl Default for PartialMode {
    fn default() -> (m: PartialMode)
        ensures
            m == PartialMode::ChippingOnly,
    {
        PartialMode::ChippingOnly
    }
}

/// The units in which shots are shown.
#[derive(Debug, Clone, Copy, PartialEq, Eq, Structural)]
pub enum UnitSystem {
    Imperial,
    Metric,
}

impl Default for UnitSystem {
    fn default() -> (u: UnitSystem)
        ensures
            u == UnitSystem::Imperial,
    {
        UnitSystem::Imperial
    }
}

impl UnitSystem {
    /// The system's name on the wire.
    pub open spec fn spec_name(self) -> Seq<char> {
        match self {
            UnitSystem::Imperial => "imperial"@,
            UnitSystem::Metric => "metric"@,
        }
    }

    /// The system's name on the wire: `imperial` or `metric`.
    pub fn name(self) -> (s: &'static str)
        ensures
            s@ == self.spec_name(),
    {
        match self {
            UnitSystem::Imperial => "imperial",
            UnitSystem::Metric => "metric",
        }
    }

    /// The system that `name` stands for.
    pub open spec fn spec_from_name(name: Seq<char>) -> Option<UnitSystem> {
        if name == "imperial"@ {
            Some(UnitSystem::Imperial)
        } else if name == "metric"@ {
            Some(UnitSystem::Metric)
        } else {
            None
        }
    }

    /// Reads a unit system's wire name. Any other text gives `None`.
    pub fn from_name(name: &str) -> (r: Option<UnitSystem>)
        ensures
            r == Self::spec_from_name(name@),
    {
        if str_eq(name, "imperial") {
            Some(UnitSystem::Imperial)
        } else if str_eq(name, "metric") {
            Some(UnitSystem::Metric)
        } else {
            None
        }
    }
}

} // verus!
