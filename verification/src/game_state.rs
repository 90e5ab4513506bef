//! Clubs, player and club selection, and the store that holds the current game state.

use crate::text::str_eq;
use crate::units::ShotDetectionMode;
use vstd::prelude::*;
use vstd::string::*;

verus! {

/// A golf club.
#[derive(Debug, Clone, Copy, PartialEq, Eq, Hash, Structural)]
pub enum Club {
    Driver,
    Wood3,
    Wood5,
    Wood7,
    Hybrid3,
    Hybrid4,
    Hybrid5,
    Iron3,
    Iron4,
    Iron5,
    Iron6,
    Iron7,
    Iron8,
    Iron9,
    PitchingWedge,
    GapWedge,
    SandWedge,
    LobWedge,
    Putter,
}

/// The upper-case form of an ASCII letter; any other character stays as it is.
pub open spec fn ascii_upper_char(c: char) -> char {
    if 'a' <= c && c <= 'z' {
        ((c as u8) - 32) as char
    } else {
        c
    }
}

/// A text with each ASCII lower-case letter replaced by its upper-case form, and every other
/// character as it is.
pub open spec fn ascii_upper(s: Seq<char>) -> Seq<char> {
    Seq::new(s.len(), |i: int| ascii_upper_char(s[i]))
}

/// Puts an ASCII letter in upper case.
fn upper_char(c: char) -> (r: char)
    ensures
        r == ascii_upper_char(c),
{
    if 'a' <= c && c <= 'z' {
        ((c as u8) - 32) as char
    } else {
        c
    }
}

impl Club {
    /// The club's two-character code.
    pub open spec fn spec_code(self) -> Seq<char> {
        match self {
            Club::Driver => "DR"@,
            Club::Wood3 => "3W"@,
            Club::Wood5 => "5W"@,
            Club::Wood7 => "7W"@,
            Club::Hybrid3 => "3H"@,
            Club::Hybrid4 => "4H"@,
            Club::Hybrid5 => "5H"@,
            Club::Iron3 => "3I"@,
            Club::Iron4 => "4I"@,
            Club::Iron5 => "5I"@,
            Club::Iron6 => "6I"@,
            Club::Iron7 => "7I"@,
            Club::Iron8 => "8I"@,
            Club::Iron9 => "9I"@,
            Club::PitchingWedge => "PW"@,
            Club::GapWedge => "GW"@,
            Club::SandWedge => "SW"@,
            Club::LobWedge => "LW"@,
            Club::Putter => "PT"@,
        }
    }

    /// The club whose code is exactly `code`.
    pub open spec fn spec_from_upper_code(code: Seq<char>) -> Option<Club> {
        if code == "DR"@ {
            Some(Club::Driver)
        } else if code == "3W"@ {
            Some(Club::Wood3)
        } else if code == "5W"@ {
            Some(Club::Wood5)
        } else if code == "7W"@ {
            Some(Club::Wood7)
        } else if code == "3H"@ {
            Some(Club::Hybrid3)
        } else if code == "4H"@ {
            Some(Club::Hybrid4)
        } else if code == "5H"@ {
            Some(Club::Hybrid5)
        } else if code == "3I"@ {
            Some(Club::Iron3)
        } else if code == "4I"@ {
            Some(Club::Iron4)
        } else if code == "5I"@ {
            Some(Club::Iron5)
        } else if code == "6I"@ {
            Some(Club::Iron6)
        } else if code == "7I"@ {
            Some(Club::Iron7)
        } else if code == "8I"@ {
            Some(Club::Iron8)
        } else if code == "9I"@ {
            Some(Club::Iron9)
        } else if code == "PW"@ {
            Some(Club::PitchingWedge)
        } else if code == "GW"@ {
            Some(Club::GapWedge)
        } else if code == "SW"@ {
            Some(Club::SandWedge)
        } else if code == "LW"@ {
            Some(Club::LobWedge)
        } else if code == "PT"@ {
            Some(Club::Putter)
        } else {
            None
        }
    }

    /// The club that `s` names, whatever the case of its ASCII letters.
    pub open spec fn spec_from_code(s: Seq<char>) -> Option<Club> {
        Self::spec_from_upper_code(ascii_upper(s))
    }

    /// The detection mode that goes with the club: putting for the putter, chipping for the
    /// gap, sand and lob wedges, full for every other club.
    pub open spec fn spec_mode(self) -> ShotDetectionMode {
        match self {
            Club::Putter => ShotDetectionMode::Putting,
            Club::GapWedge | Club::SandWedge | Club::LobWedge => ShotDetectionMode::Chipping,
            _ => ShotDetectionMode::Full,
        }
    }

    /// The club's two-character code, in upper case.
    pub fn code(self) -> (s: &'static str)
        ensures
            s@ == self.spec_code(),
    {
        match self {
            Club::Driver => "DR",
            Club::Wood3 => "3W",
            Club::Wood5 => "5W",
            Club::Wood7 => "7W",
            Club::Hybrid3 => "3H",
            Club::Hybrid4 => "4H",
            Club::Hybrid5 => "5H",
            Club::Iron3 => "3I",
            Club::Iron4 => "4I",
            Club::Iron5 => "5I",
            Club::Iron6 => "6I",
            Club::Iron7 => "7I",
            Club::Iron8 => "8I",
            Club::Iron9 => "9I",
            Club::PitchingWedge => "PW",
            Club::GapWedge => "GW",
            Club::SandWedge => "SW",
            Club::LobWedge => "LW",
            Club::Putter => "PT",
        }
    }

    /// The club's code as an owned text.
    pub fn to_text(self) -> (s: String)
        ensures
            s@ == self.spec_code(),
    {
        String::from_str(self.code())
    }

    /// Reads a club code that is already in upper case. Any other text gives `None`.
    pub fn from_upper_code(code: &str) -> (r: Option<Club>)
        ensures
            r == Self::spec_from_upper_code(code@),
    {
        if str_eq(code, "DR") {
            Some(Club::Driver)
        } else if str_eq(code, "3W") {
            Some(Club::Wood3)
        } else if str_eq(code, "5W") {
            Some(Club::Wood5)
        } else if str_eq(code, "7W") {
            Some(Club::Wood7)
        } else if str_eq(code, "3H") {
            Some(Club::Hybrid3)
        } else if str_eq(code, "4H") {
            Some(Club::Hybrid4)
        } else if str_eq(code, "5H") {
            Some(Club::Hybrid5)
        } else if str_eq(code, "3I") {
            Some(Club::Iron3)
        } else if str_eq(code, "4I") {
            Some(Club::Iron4)
        } else if str_eq(code, "5I") {
            Some(Club::Iron5)
        } else if str_eq(code, "6I") {
            Some(Club::Iron6)
        } else if str_eq(code, "7I") {
            Some(Club::Iron7)
        } else if str_eq(code, "8I") {
            Some(Club::Iron8)
        } else if str_eq(code, "9I") {
            Some(Club::Iron9)
        } else if str_eq(code, "PW") {
            Some(Club::PitchingWedge)
        } else if str_eq(code, "GW") {
            Some(Club::GapWedge)
        } else if str_eq(code, "SW") {
            Some(Club::SandWedge)
        } else if str_eq(code, "LW") {
            Some(Club::LobWedge)
        } else if str_eq(code, "PT") {
            Some(Club::Putter)
        } else {
            None
        }
    }

    /// Reads a club code without regard to the case of its ASCII letters. Every other text
    /// gives `None`.
    pub fn from_code(s: &str) -> (r: Option<Club>)
        ensures
            r == Self::spec_from_code(s@),
    {
        proof {
            reveal_codes();
        }
        if s.unicode_len() != 2 {
            proof {
                assert(ascii_upper(s@).len() != 2);
                assert(seq!['D', 'R'].len() == 2);
                if Self::spec_from_code(s@) is Some {
                    lemma_upper_code_round_trip(Self::spec_from_code(s@)->Some_0, ascii_upper(s@));
                    assert(Self::spec_from_code(s@)->Some_0.spec_code().len() == 2);
                }
            }
            return None;
        }
        let a = upper_char(s.get_char(0));
        let b = upper_char(s.get_char(1));
        proof {
            assert(ascii_upper(s@) =~= seq![a, b]);
        }
        if b == 'R' {
            if a == 'D' {
                Some(Club::Driver)
            } else {
                None
            }
        } else if b == 'W' {
            if a == '3' {
                Some(Club::Wood3)
            } else if a == '5' {
                Some(Club::Wood5)
            } else if a == '7' {
                Some(Club::Wood7)
            } else if a == 'P' {
                Some(Club::PitchingWedge)
            } else if a == 'G' {
                Some(Club::GapWedge)
            } else if a == 'S' {
                Some(Club::SandWedge)
            } else if a == 'L' {
                Some(Club::LobWedge)
            } else {
                None
            }
        } else if b == 'H' {
            if a == '3' {
                Some(Club::Hybrid3)
            } else if a == '4' {
                Some(Club::Hybrid4)
            } else if a == '5' {
                Some(Club::Hybrid5)
            } else {
                None
            }
        } else if b == 'I' {
            if a == '3' {
                Some(Club::Iron3)
            } else if a == '4' {
                Some(Club::Iron4)
            } else if a == '5' {
                Some(Club::Iron5)
            } else if a == '6' {
                Some(Club::Iron6)
            } else if a == '7' {
                Some(Club::Iron7)
            } else if a == '8' {
                Some(Club::Iron8)
            } else if a == '9' {
                Some(Club::Iron9)
            } else {
                None
            }
        } else if b == 'T' {
            if a == 'P' {
                Some(Club::Putter)
            } else {
                None
            }
        } else {
            None
        }
    }

    /// The detection mode that goes with the club.
    pub fn mode(&self) -> (m: ShotDetectionMode)
        ensures
            m == self.spec_mode(),
    {
        match self {
            Club::Putter => ShotDetectionMode::Putting,
            Club::GapWedge | Club::SandWedge | Club::LobWedge => ShotDetectionMode::Chipping,
            _ => ShotDetectionMode::Full,
        }
    }

    /// Every club, from the driver down to the putter.
    pub fn all() -> (clubs: Vec<Club>)
        ensures
            clubs@ == all_clubs(),
    {
        let clubs = vec![
            Club::Driver,
            Club::Wood3,
            Club::Wood5,
            Club::Wood7,
            Club::Hybrid3,
            Club::Hybrid4,
            Club::Hybrid5,
            Club::Iron3,
            Club::Iron4,
            Club::Iron5,
            Club::Iron6,
            Club::Iron7,
            Club::Iron8,
            Club::Iron9,
            Club::PitchingWedge,
            Club::GapWedge,
            Club::SandWedge,
            Club::LobWedge,
            Club::Putter,
        ];
        assert(clubs@ =~= all_clubs());
        clubs
    }
}

/// Every club, in bag order.
pub open spec fn all_clubs() -> Seq<Club> {
    seq![
        Club::Driver,
        Club::Wood3,
        Club::Wood5,
        Club::Wood7,
        Club::Hybrid3,
        Club::Hybrid4,
        Club::Hybrid5,
        Club::Iron3,
        Club::Iron4,
        Club::Iron5,
        Club::Iron6,
        Club::Iron7,
        Club::Iron8,
        Club::Iron9,
        Club::PitchingWedge,
        Club::GapWedge,
        Club::SandWedge,
        Club::LobWedge,
        Club::Putter,
    ]
}

proof fn reveal_codes()
    ensures
        "DR"@ == seq!['D', 'R'],
        "3W"@ == seq!['3', 'W'],
        "5W"@ == seq!['5', 'W'],
        "7W"@ == seq!['7', 'W'],
        "3H"@ == seq!['3', 'H'],
        "4H"@ == seq!['4', 'H'],
        "5H"@ == seq!['5', 'H'],
        "3I"@ == seq!['3', 'I'],
        "4I"@ == seq!['4', 'I'],
        "5I"@ == seq!['5', 'I'],
        "6I"@ == seq!['6', 'I'],
        "7I"@ == seq!['7', 'I'],
        "8I"@ == seq!['8', 'I'],
        "9I"@ == seq!['9', 'I'],
        "PW"@ == seq!['P', 'W'],
        "GW"@ == seq!['G', 'W'],
        "SW"@ == seq!['S', 'W'],
        "LW"@ == seq!['L', 'W'],
        "PT"@ == seq!['P', 'T'],
{
    reveal_strlit("DR");
    reveal_strlit("3W");
    reveal_strlit("5W");
    reveal_strlit("7W");
    reveal_strlit("3H");
    reveal_strlit("4H");
    reveal_strlit("5H");
    reveal_strlit("3I");
    reveal_strlit("4I");
    reveal_strlit("5I");
    reveal_strlit("6I");
    reveal_strlit("7I");
    reveal_strlit("8I");
    reveal_strlit("9I");
    reveal_strlit("PW");
    reveal_strlit("GW");
    reveal_strlit("SW");
    reveal_strlit("LW");
    reveal_strlit("PT");
    assert("DR"@ =~= seq!['D', 'R']);
    assert("3W"@ =~= seq!['3', 'W']);
    assert("5W"@ =~= seq!['5', 'W']);
    assert("7W"@ =~= seq!['7', 'W']);
    assert("3H"@ =~= seq!['3', 'H']);
    assert("4H"@ =~= seq!['4', 'H']);
    assert("5H"@ =~= seq!['5', 'H']);
    assert("3I"@ =~= seq!['3', 'I']);
    assert("4I"@ =~= seq!['4', 'I']);
    assert("5I"@ =~= seq!['5', 'I']);
    assert("6I"@ =~= seq!['6', 'I']);
    assert("7I"@ =~= seq!['7', 'I']);
    assert("8I"@ =~= seq!['8', 'I']);
    assert("9I"@ =~= seq!['9', 'I']);
    assert("PW"@ =~= seq!['P', 'W']);
    assert("GW"@ =~= seq!['G', 'W']);
    assert("SW"@ =~= seq!['S', 'W']);
    assert("LW"@ =~= seq!['L', 'W']);
    assert("PT"@ =~= seq!['P', 'T']);
}

/// Reading a club's own code gives the club back, and only the codes of the clubs can be read:
/// a text is read as a club exactly when it is that club's code.
pub proof fn lemma_upper_code_round_trip(club: Club, code: Seq<char>)
    ensures
        Club::spec_from_upper_code(club.spec_code()) == Some(club),
        Club::spec_from_upper_code(code) == Some(club) <==> code == club.spec_code(),
        Club::spec_from_upper_code(code) is None <==> (forall|c: Club| code != c.spec_code()),
{
    reveal_codes();
    assert("DR"@[0] == 'D' && "DR"@[1] == 'R');
    assert("3W"@[0] == '3' && "3W"@[1] == 'W');
    assert("5W"@[0] == '5' && "5W"@[1] == 'W');
    assert("7W"@[0] == '7' && "7W"@[1] == 'W');
    assert("3H"@[0] == '3' && "3H"@[1] == 'H');
    assert("4H"@[0] == '4' && "4H"@[1] == 'H');
    assert("5H"@[0] == '5' && "5H"@[1] == 'H');
    assert("3I"@[0] == '3' && "3I"@[1] == 'I');
    assert("4I"@[0] == '4' && "4I"@[1] == 'I');
    assert("5I"@[0] == '5' && "5I"@[1] == 'I');
    assert("6I"@[0] == '6' && "6I"@[1] == 'I');
    assert("7I"@[0] == '7' && "7I"@[1] == 'I');
    assert("8I"@[0] == '8' && "8I"@[1] == 'I');
    assert("9I"@[0] == '9' && "9I"@[1] == 'I');
    assert("PW"@[0] == 'P' && "PW"@[1] == 'W');
    assert("GW"@[0] == 'G' && "GW"@[1] == 'W');
    assert("SW"@[0] == 'S' && "SW"@[1] == 'W');
    assert("LW"@[0] == 'L' && "LW"@[1] == 'W');
    assert("PT"@[0] == 'P' && "PT"@[1] == 'T');
    if Club::spec_from_upper_code(code) is None {
        assert forall|c: Club| code != c.spec_code() by {}
    } else {
        let found = Club::spec_from_upper_code(code)->Some_0;
        assert(code == found.spec_code());
    }
}

/// A club's code is read back as the club whatever the case in which it is written: the code
/// itself is in upper case already.
pub proof fn lemma_code_round_trip(club: Club)
    ensures
        Club::spec_from_code(club.spec_code()) == Some(club),
{
    reveal_codes();
    let code = club.spec_code();
    assert(code.len() == 2);
    assert(ascii_upper(code) =~= code);
    lemma_upper_code_round_trip(club, code);
}

/// Only the codes of the clubs are read. A text gives a club exactly when, with its ASCII
/// letters in upper case, it is that club's code; every other text gives `None`, whatever
/// characters it holds.
pub proof fn lemma_unknown_code(s: Seq<char>, club: Club)
    ensures
        Club::spec_from_code(s) == Some(club) <==> ascii_upper(s) == club.spec_code(),
        Club::spec_from_code(s) is None <==> (forall|c: Club| ascii_upper(s) != c.spec_code()),
        s.len() != 2 ==> Club::spec_from_code(s) is None,
{
    reveal_codes();
    lemma_upper_code_round_trip(club, ascii_upper(s));
    if s.len() != 2 && Club::spec_from_code(s) is Some {
        let found = Club::spec_from_code(s)->Some_0;
        lemma_upper_code_round_trip(found, ascii_upper(s));
        assert(found.spec_code().len() == 2);
    }
}

/// The player's handedness.
#[derive(Debug, Clone)]
pub struct PlayerInfo {
    pub handed: String,
}

impl PlayerInfo {
    /// A copy of the record.
    pub fn duplicate(&self) -> (r: PlayerInfo)
        ensures
            r == *self,
    {
        PlayerInfo { handed: self.handed.clone() }
    }
}

/// The selected club.
#[derive(Debug, Clone, Copy, PartialEq, Eq, Structural)]
pub struct ClubInfo {
    pub club: Club,
}

/// What is known of the game at one moment.
#[derive(Debug, Clone)]
pub struct GameStateSnapshot {
    pub player_info: Option<PlayerInfo>,
    pub club_info: Option<ClubInfo>,
    pub mode: Option<ShotDetectionMode>,
}

/// The store of the current game state. It can be read by anyone who holds it; it changes only
/// through the `GameStateWriter` that was made with it.
pub struct GameState {
    player_info: Option<PlayerInfo>,
    club_info: Option<ClubInfo>,
    mode: Option<ShotDetectionMode>,
}

/// The capability to change a `GameState`. It cannot be copied: whoever holds it is the
/// store's only writer.
pub struct GameStateWriter {
    sealed: (),
}

impl View for GameState {
    type V = GameStateSnapshot;

    closed spec fn view(&self) -> GameStateSnapshot {
        GameStateSnapshot {
            player_info: self.player_info,
            club_info: self.club_info,
            mode: self.mode,
        }
    }
}

impl GameState {
    /// An empty store and its writer.
    pub fn new() -> (r: (GameState, GameStateWriter))
        ensures
            r.0@.player_info is None,
            r.0@.club_info is None,
            r.0@.mode is None,
    {
        (GameState { player_info: None, club_info: None, mode: None }, GameStateWriter { sealed: () })
    }

    /// What the store holds now.
    pub fn snapshot(&self) -> (s: GameStateSnapshot)
        ensures
            s == self@,
    {
        let player_info = match &self.player_info {
            Some(p) => Some(p.duplicate()),
            None => None,
        };
        GameStateSnapshot { player_info, club_info: self.club_info, mode: self.mode }
    }
}

impl GameStateWriter {
    /// Records the player's handedness; club and mode stay as they are.
    pub fn set_player_info(&self, state: &mut GameState, info: PlayerInfo)
        ensures
            final(state)@.player_info == Some(info),
            final(state)@.club_info == old(state)@.club_info,
            final(state)@.mode == old(state)@.mode,
    {
        state.player_info = Some(info);
    }

    /// Records the selected club; player and mode stay as they are.
    pub fn set_club_info(&self, state: &mut GameState, info: ClubInfo)
        ensures
            final(state)@.club_info == Some(info),
            final(state)@.player_info == old(state)@.player_info,
            final(state)@.mode == old(state)@.mode,
    {
        state.club_info = Some(info);
    }

    /// Records the detection mode; player and club stay as they are.
    pub fn set_mode(&self, state: &mut GameState, mode: ShotDetectionMode)
        ensures
            final(state)@.mode == Some(mode),
            final(state)@.player_info == old(state)@.player_info,
            final(state)@.club_info == old(state)@.club_info,
    {
        state.mode = Some(mode);
    }
}

} // verus!
