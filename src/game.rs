//! The integer side of the game module's rules: its phases, the fire rate of
//! the player's ship, and the sizes of its text.
use vstd::prelude::*;

verus! {

/// The type through which the module exports its game instance to the host.
#[derive(Clone, Copy, Debug, PartialEq, Eq, Structural)]
pub struct GameGuest;

#[derive(Clone, Copy, Debug, PartialEq, Eq, Structural)]
pub enum GamePhase {
    MainMenu,
    Playing,
    Paused,
    GameOver,
}

/// What one update of the game does, in order: count the frame and maybe
/// spawn an enemy (`advance_clock`); start over from a fresh state (`reset`);
/// move and shoot by the keys held (`take_input`); enter phase `next`; run the
/// physics (`simulate`).
#[derive(Clone, Copy, Debug, PartialEq, Eq, Structural)]
pub struct PhaseStep {
    pub advance_clock: bool,
    pub reset: bool,
    pub take_input: bool,
    pub next: GamePhase,
    pub simulate: bool,
}

pub open spec fn next_phase(phase: GamePhase, space_pressed: bool, escape_pressed: bool) -> GamePhase {
    match phase {
        GamePhase::MainMenu => if space_pressed {
            GamePhase::Playing
        } else {
            GamePhase::MainMenu
        },
        GamePhase::Playing => if escape_pressed {
            GamePhase::Paused
        } else {
            GamePhase::Playing
        },
        GamePhase::Paused => if space_pressed {
            GamePhase::Playing
        } else {
            GamePhase::Paused
        },
        GamePhase::GameOver => if space_pressed {
            GamePhase::MainMenu
        } else {
            GamePhase::GameOver
        },
    }
}

/// Space starts a game from the menu and resumes a paused one; Escape pauses
/// a game in play; Space after a game over starts over at the menu. A paused
/// game neither counts frames nor moves.
pub fn step_phase(phase: GamePhase, space_pressed: bool, escape_pressed: bool) -> (r: PhaseStep)
    ensures
        r.advance_clock == (phase != GamePhase::Paused),
        r.reset == (space_pressed && (phase == GamePhase::MainMenu || phase
            == GamePhase::GameOver)),
        r.take_input == (phase == GamePhase::Playing),
        r.next == next_phase(phase, space_pressed, escape_pressed),
        r.simulate == (r.next != GamePhase::Paused),
{
    let (reset, take_input, next) = match phase {
        GamePhase::MainMenu => if space_pressed {
            (true, false, GamePhase::Playing)
        } else {
            (false, false, GamePhase::MainMenu)
        },
        GamePhase::Playing => if escape_pressed {
            (false, true, GamePhase::Paused)
        } else {
            (false, true, GamePhase::Playing)
        },
        GamePhase::Paused => if space_pressed {
            (false, false, GamePhase::Playing)
        } else {
            (false, false, GamePhase::Paused)
        },
        GamePhase::GameOver => if space_pressed {
            (true, false, GamePhase::MainMenu)
        } else {
            (false, false, GamePhase::GameOver)
        },
    };
    PhaseStep {
        advance_clock: !matches!(phase, GamePhase::Paused),
        reset,
        take_input,
        next,
        simulate: !matches!(next, GamePhase::Paused),
    }
}

/// Frames that must pass between two shots of the player's ship.
pub const FIRE_RATE: u64 = 30;

/// Whether a ship that last fired at frame `last_fired` may fire at frame
/// `update_frame`.
pub fn can_shoot(last_fired: u64, update_frame: u64) -> (r: bool)
    requires
        last_fired <= update_frame,
    ensures
        r == (update_frame - last_fired > FIRE_RATE),
{
    update_frame - last_fired > FIRE_RATE
}

#[derive(Clone, Copy, Debug, PartialEq, Eq, Structural)]
pub enum TextSize {
    Large,
    Title,
    Standard,
}

pub open spec fn font_size(size: TextSize) -> u16 {
    match size {
        TextSize::Large => 50,
        TextSize::Title => 40,
        TextSize::Standard => 20,
    }
}

impl From<TextSize> for u16 {
    fn from(size: TextSize) -> (r: u16)
        ensures
            r == font_size(size),
    {
        match size {
            TextSize::Large => 50,
            TextSize::Title => 40,
            TextSize::Standard => 20,
        }
    }
}

impl vstd::std_specs::convert::FromSpecImpl<TextSize> for u16 {
    open spec fn obeys_from_spec() -> bool {
        true
    }

    open spec fn from_spec(size: TextSize) -> u16 {
        font_size(size)
    }
}

} // verus!
