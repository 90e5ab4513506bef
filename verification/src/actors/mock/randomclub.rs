//! The simulated simulator: after every shot it picks another club and another hand.

use crate::clock::{utc_now, Timestamp};
use crate::event::{new_telemetry, no_telemetry, put_text, ActorStatus};
use crate::game_state::{all_clubs, Club};
use crate::message::{event_views, EventView, FlighthookEvent};
use vstd::prelude::*;
use vstd::string::*;

verus! {

/// The multiplier of the generator.
pub const MULTIPLIER: u64 = 6364136223846793005;

/// The increment of the generator.
pub const INCREMENT: u64 = 1442695040888963407;

/// The seed after one step of the generator.
pub open spec fn spec_next_seed(seed: u64) -> u64 {
    ((seed * MULTIPLIER + INCREMENT) % 0x1_0000_0000_0000_0000) as u64
}

/// The number that a seed stands for: its upper 31 bits.
pub open spec fn spec_draw(seed: u64) -> usize {
    (seed / 0x2_0000_0000) as usize
}

/// The milliseconds since the start of 1970, wrapping around at 64 bits; zero for an instant
/// before 1970.
pub open spec fn spec_millis(t: Timestamp) -> u64 {
    if t.secs < 0 {
        0
    } else {
        ((t.secs * 1000 + t.nanos / 1_000_000) % 0x1_0000_0000_0000_0000) as u64
    }
}

/// The milliseconds of an instant since the start of 1970.
pub fn millis_of(t: Timestamp) -> (ms: u64)
    ensures
        ms == spec_millis(t),
{
    if t.secs < 0 {
        0
    } else {
        let wide: u128 = (t.secs as u128) * 1000u128 + ((t.nanos / 1_000_000) as u128);
        (wide % 0x1_0000_0000_0000_0000u128) as u64
    }
}

/// The current time in milliseconds since the start of 1970, for seeding the generator.
pub fn now_ms() -> (ms: u64)
    ensures
        exists|t: Timestamp| ms == spec_millis(t),
{
    let t = utc_now();
    millis_of(t)
}

/// Steps the generator and returns the number that the new seed stands for.
pub fn next_rand(seed: &mut u64) -> (r: usize)
    ensures
        *final(seed) == spec_next_seed(*old(seed)),
        r == spec_draw(*final(seed)),
        r < 0x8000_0000,
{
    let product: u64 = seed.wrapping_mul(MULTIPLIER);
    let next: u64 = product.wrapping_add(INCREMENT);
    proof {
        let s = *seed as int;
        let m = MULTIPLIER as int;
        let c = INCREMENT as int;
        let w = 0x1_0000_0000_0000_0000int;
        assert(product == (s * m) % w) by {
            vstd::arithmetic::div_mod::lemma_fundamental_div_mod(s * m, w);
        }
        assert(next == ((s * m) % w + c) % w);
        assert(((s * m) % w + c) % w == (s * m + c) % w) by {
            vstd::arithmetic::div_mod::lemma_add_mod_noop(s * m, c, w);
            vstd::arithmetic::div_mod::lemma_small_mod(c as nat, w as nat);
        }
    }
    *seed = next;
    let r: u64 = next >> 33;
    assert(r == next / 0x2_0000_0000 && r < 0x8000_0000) by (bit_vector)
        requires
            r == next >> 33,
    ;
    r as usize
}

/// The hand that a draw picks: `RH` for an even draw, `LH` for an odd one.
pub open spec fn spec_hand(draw: usize) -> Seq<char> {
    if draw % 2 == 0 {
        "RH"@
    } else {
        "LH"@
    }
}

/// The club that a draw picks: the clubs in bag order, taken in turn.
pub open spec fn spec_club(draw: usize) -> Club {
    all_clubs()[(draw % 19) as int]
}

/// Picks a hand for a draw.
pub fn pick_hand(draw: usize) -> (hand: &'static str)
    ensures
        hand@ == spec_hand(draw),
{
    if draw % 2 == 0 {
        "RH"
    } else {
        "LH"
    }
}

/// Picks a club for a draw.
pub fn pick_club(draw: usize) -> (club: Club)
    ensures
        club == spec_club(draw),
{
    let clubs = Club::all();
    assert(all_clubs().len() == 19);
    clubs[draw % 19]
}

/// The telemetry of the simulated simulator: the club and the hand it has picked.
pub open spec fn spec_status(club: Club, handed: Seq<char>) -> Map<Seq<char>, Seq<char>> {
    no_telemetry().insert("club"@, club.spec_code()).insert("handed"@, handed)
}

/// What the simulated simulator publishes after a pick: its status, the hand and the club.
pub fn emit_status(club: Club, handed: &str) -> (out: Vec<FlighthookEvent>)
    ensures
        event_views(out@) == seq![
            EventView::ActorStatus {
                status: ActorStatus::Connected,
                telemetry: spec_status(club, handed@),
            },
            EventView::SetPlayerInfo { handed: handed@ },
            EventView::SetClubInfo { club },
        ],
{
    let mut t = new_telemetry();
    put_text(&mut t, "club", club.to_text());
    put_text(&mut t, "handed", String::from_str(handed));
    let mut out: Vec<FlighthookEvent> = Vec::new();
    out.push(FlighthookEvent::status(ActorStatus::Connected, t));
    out.push(FlighthookEvent::set_player(String::from_str(handed)));
    out.push(FlighthookEvent::set_club(club));
    assert(event_views(out@) =~= seq![
        EventView::ActorStatus {
            status: ActorStatus::Connected,
            telemetry: spec_status(club, handed@),
        },
        EventView::SetPlayerInfo { handed: handed@ },
        EventView::SetClubInfo { club },
    ]);
    out
}

/// What the simulated simulator does when it starts, with the generator at `seed`: it draws a
/// hand, then a club, and publishes them.
pub fn on_start(seed: &mut u64) -> (out: Vec<FlighthookEvent>)
    ensures
        *final(seed) == spec_next_seed(spec_next_seed(*old(seed))),
        event_views(out@) == seq![
            EventView::ActorStatus {
                status: ActorStatus::Connected,
                telemetry: spec_status(
                    spec_club(spec_draw(*final(seed))),
                    spec_hand(spec_draw(spec_next_seed(*old(seed)))),
                ),
            },
            EventView::SetPlayerInfo { handed: spec_hand(spec_draw(spec_next_seed(*old(seed)))) },
            EventView::SetClubInfo { club: spec_club(spec_draw(*final(seed))) },
        ],
{
    let handed = pick_hand(next_rand(seed));
    let club = pick_club(next_rand(seed));
    emit_status(club, handed)
}

/// What the simulated simulator does after a shot, with the generator at `seed`: it draws a
/// club, then a hand, and publishes them.
pub fn on_shot(seed: &mut u64) -> (out: Vec<FlighthookEvent>)
    ensures
        *final(seed) == spec_next_seed(spec_next_seed(*old(seed))),
        event_views(out@) == seq![
            EventView::ActorStatus {
                status: ActorStatus::Connected,
                telemetry: spec_status(
                    spec_club(spec_draw(spec_next_seed(*old(seed)))),
                    spec_hand(spec_draw(*final(seed))),
                ),
            },
            EventView::SetPlayerInfo { handed: spec_hand(spec_draw(*final(seed))) },
            EventView::SetClubInfo { club: spec_club(spec_draw(spec_next_seed(*old(seed)))) },
        ],
{
    let club = pick_club(next_rand(seed));
    let handed = pick_hand(next_rand(seed));
    emit_status(club, handed)
}

} // verus!
