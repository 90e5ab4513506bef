//! The configuration record, its defaults, actor ids, and what to make of a configuration
//! that was read from disk.

use crate::clock::{utc_now, Timestamp};
use crate::scalar::Scalar;
use crate::strmap::{Duplicate, StrMap};
use crate::text::{be_bytes, hex8, hex_of};
use crate::units::{Distance, PartialMode, UnitSystem};
use vstd::prelude::*;
use vstd::string::*;

verus! {

/// The bit pattern of 1.5.
pub const ONE_AND_A_HALF: u64 = 0x3ff8_0000_0000_0000;

/// The bit pattern of 8.0.
pub const EIGHT: u64 = 0x4020_0000_0000_0000;

/// The bit pattern of 80.0.
pub const EIGHTY: u64 = 0x4054_0000_0000_0000;

/// A web server: its display name and the address it binds.
#[derive(Debug, Clone)]
pub struct WebserverSection {
    pub name: String,
    pub bind: String,
}

/// A launch monitor: its display name, its address, and the settings of its session. A
/// setting that is absent takes its default.
#[derive(Debug, Clone)]
pub struct MevoSection {
    pub name: String,
    pub address: Option<String>,
    pub ball_type: Option<u8>,
    pub tee_height: Option<Distance>,
    pub range: Option<Distance>,
    pub surface_height: Option<Distance>,
    pub track_pct: Option<Scalar>,
    pub use_partial: Option<PartialMode>,
}

/// A simulated launch monitor.
#[derive(Debug, Clone)]
pub struct MockMonitorSection {
    pub name: String,
}

/// A simulator bridge: its display name, the simulator's address, and for each mode the id of
/// the monitor whose shots it takes. No monitor for a mode means any monitor.
#[derive(Debug, Clone)]
pub struct GsProSection {
    pub name: String,
    pub address: Option<String>,
    pub full_monitor: Option<String>,
    pub chipping_monitor: Option<String>,
    pub putting_monitor: Option<String>,
}

/// A simulated simulator, which picks a new club after every shot.
#[derive(Debug, Clone)]
pub struct RandomClubSection {
    pub name: String,
}

impl Duplicate for WebserverSection {
    fn duplicate(&self) -> (r: WebserverSection) {
        WebserverSection { name: self.name.clone(), bind: self.bind.clone() }
    }
}

impl Duplicate for MevoSection {
    fn duplicate(&self) -> (r: MevoSection) {
        MevoSection {
            name: self.name.clone(),
            address: self.address.duplicate(),
            ball_type: self.ball_type,
            tee_height: self.tee_height,
            range: self.range,
            surface_height: self.surface_height,
            track_pct: self.track_pct,
            use_partial: self.use_partial,
        }
    }
}

impl Duplicate for MockMonitorSection {
    fn duplicate(&self) -> (r: MockMonitorSection) {
        MockMonitorSection { name: self.name.clone() }
    }
}

impl Duplicate for GsProSection {
    fn duplicate(&self) -> (r: GsProSection) {
        GsProSection {
            name: self.name.clone(),
            address: self.address.duplicate(),
            full_monitor: self.full_monitor.duplicate(),
            chipping_monitor: self.chipping_monitor.duplicate(),
            putting_monitor: self.putting_monitor.duplicate(),
        }
    }
}

impl Duplicate for RandomClubSection {
    fn duplicate(&self) -> (r: RandomClubSection) {
        RandomClubSection { name: self.name.clone() }
    }
}

/// The whole configuration: the units for display and, for each kind of actor, its sections
/// under their indices. A kind and an index together name an actor.
#[derive(Debug, Clone)]
pub struct FlighthookConfig {
    pub default_units: UnitSystem,
    pub webserver: StrMap<WebserverSection>,
    pub mevo: StrMap<MevoSection>,
    pub mock_monitor: StrMap<MockMonitorSection>,
    pub gspro: StrMap<GsProSection>,
    pub random_club: StrMap<RandomClubSection>,
}

/// What a configuration says, without regard to the order of its sections.
pub struct ConfigView {
    pub default_units: UnitSystem,
    pub webserver: Map<Seq<char>, WebserverSection>,
    pub mevo: Map<Seq<char>, MevoSection>,
    pub mock_monitor: Map<Seq<char>, MockMonitorSection>,
    pub gspro: Map<Seq<char>, GsProSection>,
    pub random_club: Map<Seq<char>, RandomClubSection>,
}

impl View for FlighthookConfig {
    type V = ConfigView;

    open spec fn view(&self) -> ConfigView {
        ConfigView {
            default_units: self.default_units,
            webserver: self.webserver@,
            mevo: self.mevo@,
            mock_monitor: self.mock_monitor@,
            gspro: self.gspro@,
            random_club: self.random_club@,
        }
    }
}

impl FlighthookConfig {
    /// Both configurations hold the same sections in the same order.
    pub open spec fn same_as(&self, other: &FlighthookConfig) -> bool {
        &&& self@ == other@
        &&& self.webserver.keys() == other.webserver.keys()
        &&& self.mevo.keys() == other.mevo.keys()
        &&& self.mock_monitor.keys() == other.mock_monitor.keys()
        &&& self.gspro.keys() == other.gspro.keys()
        &&& self.random_club.keys() == other.random_club.keys()
        &&& self.webserver.values() == other.webserver.values()
        &&& self.mevo.values() == other.mevo.values()
        &&& self.mock_monitor.values() == other.mock_monitor.values()
        &&& self.gspro.values() == other.gspro.values()
        &&& self.random_club.values() == other.random_club.values()
    }

    /// No kind of section holds an index twice.
    pub open spec fn valid(&self) -> bool {
        &&& self.webserver.wf()
        &&& self.mevo.wf()
        &&& self.mock_monitor.wf()
        &&& self.gspro.wf()
        &&& self.random_club.wf()
    }

    /// A configuration without any section.
    pub fn empty(default_units: UnitSystem) -> (c: FlighthookConfig)
        ensures
            c.default_units == default_units,
            c.webserver@ == Map::<Seq<char>, WebserverSection>::empty(),
            c.mevo@ == Map::<Seq<char>, MevoSection>::empty(),
            c.mock_monitor@ == Map::<Seq<char>, MockMonitorSection>::empty(),
            c.gspro@ == Map::<Seq<char>, GsProSection>::empty(),
            c.random_club@ == Map::<Seq<char>, RandomClubSection>::empty(),
            c.webserver.keys() == Seq::<Seq<char>>::empty(),
            c.mevo.keys() == Seq::<Seq<char>>::empty(),
            c.mock_monitor.keys() == Seq::<Seq<char>>::empty(),
            c.gspro.keys() == Seq::<Seq<char>>::empty(),
            c.random_club.keys() == Seq::<Seq<char>>::empty(),
    {
        FlighthookConfig {
            default_units,
            webserver: StrMap::new(),
            mevo: StrMap::new(),
            mock_monitor: StrMap::new(),
            gspro: StrMap::new(),
            random_club: StrMap::new(),
        }
    }

    /// A copy of the configuration.
    pub fn duplicate(&self) -> (c: FlighthookConfig)
        ensures
            c.same_as(self),
    {
        FlighthookConfig {
            default_units: self.default_units,
            webserver: self.webserver.duplicate(),
            mevo: self.mevo.duplicate(),
            mock_monitor: self.mock_monitor.duplicate(),
            gspro: self.gspro.duplicate(),
            random_club: self.random_club.duplicate(),
        }
    }
}

/// The launch monitor of the default configuration.
pub open spec fn is_default_mevo(s: MevoSection) -> bool {
    &&& s.name@ == "Mevo WiFi"@
    &&& s.address matches Some(a) && a@ == "192.168.2.1:5100"@
    &&& s.ball_type == Some(0u8)
    &&& s.tee_height == Some(Distance::Inches(Scalar { bits: ONE_AND_A_HALF }))
    &&& s.range == Some(Distance::Feet(Scalar { bits: EIGHT }))
    &&& s.surface_height == Some(Distance::Inches(Scalar { bits: 0 }))
    &&& s.track_pct == Some(Scalar { bits: EIGHTY })
    &&& s.use_partial == Some(PartialMode::ChippingOnly)
}

/// The simulator bridge of the default configuration: a local simulator that takes shots from
/// any monitor.
pub open spec fn is_default_gspro(s: GsProSection) -> bool {
    &&& s.name@ == "Local GSPro"@
    &&& s.address matches Some(a) && a@ == "127.0.0.1:921"@
    &&& s.full_monitor is None
    &&& s.chipping_monitor is None
    &&& s.putting_monitor is None
}

/// The web server of the default configuration.
pub open spec fn is_default_webserver(s: WebserverSection) -> bool {
    s.name@ == "Web Server"@ && s.bind@ == "0.0.0.0:3030"@
}

/// The default configuration: imperial units, and one launch monitor, one simulator bridge
/// and one web server, each under the index `0`.
pub open spec fn is_default_config(c: FlighthookConfig) -> bool {
    &&& c.default_units == UnitSystem::Imperial
    &&& c.mevo.keys() == seq!["0"@]
    &&& is_default_mevo(c.mevo@["0"@])
    &&& c.gspro.keys() == seq!["0"@]
    &&& is_default_gspro(c.gspro@["0"@])
    &&& c.webserver.keys() == seq!["0"@]
    &&& is_default_webserver(c.webserver@["0"@])
    &&& c.mock_monitor.keys() == Seq::<Seq<char>>::empty()
    &&& c.random_club.keys() == Seq::<Seq<char>>::empty()
}

impl Default for FlighthookConfig {
    /// One launch monitor, one simulator bridge and one web server, each under the index `0`,
    /// and imperial units.
    fn default() -> (c: FlighthookConfig)
        ensures
            is_default_config(c),
    {
        let mut c = FlighthookConfig::empty(UnitSystem::Imperial);
        c.mevo.insert(
            String::from_str("0"),
            MevoSection {
                name: String::from_str("Mevo WiFi"),
                address: Some(String::from_str("192.168.2.1:5100")),
                ball_type: Some(0),
                tee_height: Some(Distance::Inches(Scalar { bits: ONE_AND_A_HALF })),
                range: Some(Distance::Feet(Scalar { bits: EIGHT })),
                surface_height: Some(Distance::Inches(Scalar { bits: 0 })),
                track_pct: Some(Scalar { bits: EIGHTY }),
                use_partial: Some(PartialMode::ChippingOnly),
            },
        );
        c.gspro.insert(
            String::from_str("0"),
            GsProSection {
                name: String::from_str("Local GSPro"),
                address: Some(String::from_str("127.0.0.1:921")),
                full_monitor: None,
                chipping_monitor: None,
                putting_monitor: None,
            },
        );
        c.webserver.insert(
            String::from_str("0"),
            WebserverSection {
                name: String::from_str("Web Server"),
                bind: String::from_str("0.0.0.0:3030"),
            },
        );
        proof {
            assert(c.mevo.keys() =~= seq!["0"@]);
            assert(c.gspro.keys() =~= seq!["0"@]);
            assert(c.webserver.keys() =~= seq!["0"@]);
        }
        c
    }
}

/// An actor's id: its kind, a dot, and its index.
pub open spec fn spec_global_id(prefix: Seq<char>, index: Seq<char>) -> Seq<char> {
    prefix + seq!['.'] + index
}

/// Builds an actor's id from its kind and its index: `mevo` and `0` give `mevo.0`.
pub fn global_id(prefix: &str, index: &str) -> (id: String)
    ensures
        id@ == spec_global_id(prefix@, index@),
{
    proof {
        reveal_strlit(".");
    }
    let id = String::from_str(prefix).concat(".").concat(index);
    assert(id@ =~= spec_global_id(prefix@, index@));
    id
}

/// The low 32 bits of the clock reading combined with the sequence number by exclusive or.
pub open spec fn id_seed(nanos: u64, seq: u32) -> u32 {
    ((nanos ^ (seq as u64)) & 0xffff_ffff) as u32
}

/// The short id for a clock reading and a sequence number: eight hexadecimal characters.
pub open spec fn spec_id_text(nanos: u64, seq: u32) -> Seq<char> {
    hex_of(be_bytes(id_seed(nanos, seq)))
}

/// Renders the short id for a clock reading in nanoseconds and a sequence number.
pub fn id_text(nanos: u64, seq: u32) -> (id: String)
    ensures
        id@ == spec_id_text(nanos, seq),
        id@.len() == 8,
{
    let mixed: u64 = (nanos ^ (seq as u64)) & 0xffff_ffff;
    assert(mixed <= 0xffff_ffff) by (bit_vector)
        requires
            mixed == (nanos ^ (seq as u64)) & 0xffff_ffff,
    ;
    hex8(mixed as u32)
}

/// Makes a short id from the current time and the caller's sequence number. Two calls with
/// different sequence numbers at the same instant give different ids.
pub fn generate_id(seq: u32) -> (id: String)
    ensures
        id@.len() == 8,
        exists|now: Timestamp| id@ == spec_id_text(now.spec_nanos_since_epoch(), seq),
{
    let now = utc_now();
    id_text(now.nanos_since_epoch(), seq)
}

/// The older form of the configuration, with at most one web server and no index for it.
#[derive(Debug, Clone)]
pub struct LegacyFlighthookConfig {
    pub default_units: UnitSystem,
    pub webserver: Option<WebserverSection>,
    pub mevo: StrMap<MevoSection>,
    pub mock_monitor: StrMap<MockMonitorSection>,
    pub gspro: StrMap<GsProSection>,
    pub random_club: StrMap<RandomClubSection>,
}

impl LegacyFlighthookConfig {
    /// `c` is this configuration in the current form: the web server, if there is one, stands
    /// under the index `0`, named `Web Server` where it had no name, and all else is the same.
    pub open spec fn migrates_to(self, c: FlighthookConfig) -> bool {
        &&& c.default_units == self.default_units
        &&& c.mevo == self.mevo
        &&& c.mock_monitor == self.mock_monitor
        &&& c.gspro == self.gspro
        &&& c.random_club == self.random_club
        &&& match self.webserver {
            Some(ws) => {
                &&& c.webserver.keys() == seq!["0"@]
                &&& c.webserver@["0"@].bind == ws.bind
                &&& c.webserver@["0"@].name@ == (if ws.name@.len() == 0 {
                    "Web Server"@
                } else {
                    ws.name@
                })
            },
            None => c.webserver.keys() == Seq::<Seq<char>>::empty(),
        }
    }

    /// Brings the older form into the current one: its web server, if it has one, goes under
    /// the index `0`, and is named `Web Server` where it had no name. All else is kept.
    pub fn into_current(self) -> (c: FlighthookConfig)
        ensures
            self.migrates_to(c),
    {
        let mut webserver: StrMap<WebserverSection> = StrMap::new();
        match self.webserver {
            Some(ws) => {
                let name = if ws.name.as_str().unicode_len() == 0 {
                    String::from_str("Web Server")
                } else {
                    ws.name
                };
                webserver.insert(String::from_str("0"), WebserverSection { name, bind: ws.bind });
                assert(webserver.keys() =~= seq!["0"@]);
            },
            None => {},
        }
        FlighthookConfig {
            default_units: self.default_units,
            webserver,
            mevo: self.mevo,
            mock_monitor: self.mock_monitor,
            gspro: self.gspro,
            random_club: self.random_club,
        }
    }
}

/// What reading the configuration file gave.
#[derive(Debug, Clone)]
pub enum ConfigSource {
    /// The file holds a configuration in the current form.
    Current(FlighthookConfig),
    /// The file holds a configuration in the older form only.
    Legacy(LegacyFlighthookConfig),
    /// The file was read but holds no configuration in either form.
    Unparseable,
    /// There is no such file.
    Missing,
    /// The file is there but could not be read.
    Unreadable,
}

/// The configuration to work with, and whether it is to be written to the file.
#[derive(Debug, Clone)]
pub struct Loaded {
    pub config: FlighthookConfig,
    pub persist: bool,
}

/// Whether loading from `source` writes the file: only where the file is missing, or held
/// the older form, which is then replaced by the current one. A file that could not be
/// understood is never overwritten.
pub open spec fn load_persists(source: ConfigSource) -> bool {
    source is Legacy || source is Missing
}

/// Decides what configuration to work with. A configuration in the current form is taken as it
/// is; one in the older form is migrated and written back; a missing file gives the defaults,
/// which are written; a file that cannot be read or understood gives the defaults in memory
/// and is left alone.
pub fn load(source: ConfigSource) -> (r: Loaded)
    ensures
        r.persist == load_persists(source),
        match source {
            ConfigSource::Current(c) => r.config == c,
            ConfigSource::Legacy(l) => l.migrates_to(r.config),
            _ => is_default_config(r.config),
        },
{
    match source {
        ConfigSource::Current(config) => Loaded { config, persist: false },
        ConfigSource::Legacy(legacy) => {
            Loaded { config: legacy.into_current(), persist: true }
        },
        ConfigSource::Unparseable => Loaded { config: FlighthookConfig::default(), persist: false },
        ConfigSource::Missing => Loaded { config: FlighthookConfig::default(), persist: true },
        ConfigSource::Unreadable => Loaded { config: FlighthookConfig::default(), persist: false },
    }
}

} // verus!
