//! The pacing of a played match: which screen shows, when the bots act,
//! when the match clock runs and how long a round result stays on screen.
//! The front end reports the time each frame took and what the match did;
//! this module decides what happens next.
use vstd::prelude::*;
use crate::game::game_match::MatchState;

verus! {

/// Bots act once this many milliseconds have gathered.
pub const BOT_INTERVAL_MS: u64 = 1500;

/// A round result stays on screen this many milliseconds.
pub const ROUND_END_SHOW_MS: u64 = 4000;

/// The screen a played match shows.
#[derive(Debug, Clone, Copy, PartialEq, Eq, Structural)]
pub enum PlayScreenKind {
    TeamSelect,
    InRound,
    RoundEnd,
    MatchEnd,
}

/// The screen and the time gathered towards the next bot move and towards
/// leaving the round-end screen, in milliseconds.
#[derive(Debug, Clone, Copy, PartialEq, Eq, Structural)]
pub struct PlayPacing {
    pub screen: PlayScreenKind,
    pub bot_elapsed_ms: u64,
    pub round_end_elapsed_ms: u64,
}

/// What the front end does in a frame.
#[derive(Debug, Clone, Copy, PartialEq, Eq, Structural)]
pub struct FrameActions {
    /// Resume the match from halftime
    pub resume_halftime: bool,
    /// Give the bots their weapons again
    pub equip_bots: bool,
    /// Let the bots act
    pub run_bots: bool,
    /// Advance the match clock by the frame's time
    pub tick_match: bool,
}

/// No action at all.
pub open spec fn idle() -> FrameActions {
    FrameActions { resume_halftime: false, equip_bots: false, run_bots: false, tick_match: false }
}

/// `a + b`, held at `u64::MAX`.
pub open spec fn sat_add(a: u64, b: u64) -> u64 {
    if a + b <= u64::MAX {
        (a + b) as u64
    } else {
        u64::MAX
    }
}

/// The pacing and actions after a frame of `elapsed_ms` milliseconds, with
/// the match in `state`. During a round: an ended match moves to the final
/// screen and nothing else happens; otherwise a match at halftime is
/// resumed and the bots re-armed, the bots act once their interval has
/// gathered (which starts it again), and the match clock runs. On the
/// round-end screen, once the result has shown long enough, the match goes
/// to the final screen if it has ended, else back to the round with the
/// bots re-armed. Other screens wait for the player.
pub open spec fn frame_next(p: PlayPacing, elapsed_ms: u64, state: MatchState) -> (PlayPacing, FrameActions) {
    match p.screen {
        PlayScreenKind::InRound => if state == MatchState::Ended {
            (PlayPacing { screen: PlayScreenKind::MatchEnd, ..p }, idle())
        } else {
            let gathered = sat_add(p.bot_elapsed_ms, elapsed_ms);
            let bots = gathered >= BOT_INTERVAL_MS;
            (
                PlayPacing { bot_elapsed_ms: if bots { 0 } else { gathered }, ..p },
                FrameActions {
                    resume_halftime: state == MatchState::Halftime,
                    equip_bots: state == MatchState::Halftime,
                    run_bots: bots,
                    tick_match: true,
                },
            )
        },
        PlayScreenKind::RoundEnd => {
            let shown = sat_add(p.round_end_elapsed_ms, elapsed_ms);
            if shown < ROUND_END_SHOW_MS {
                (PlayPacing { round_end_elapsed_ms: shown, ..p }, idle())
            } else if state == MatchState::Ended {
                (PlayPacing { screen: PlayScreenKind::MatchEnd, round_end_elapsed_ms: shown, ..p }, idle())
            } else {
                (
                    PlayPacing { screen: PlayScreenKind::InRound, round_end_elapsed_ms: shown, ..p },
                    FrameActions { equip_bots: true, ..idle() },
                )
            }
        },
        _ => (p, idle()),
    }
}

/// Decide one frame of a played match.
pub fn frame_step(p: PlayPacing, elapsed_ms: u64, state: MatchState) -> (r: (PlayPacing, FrameActions))
    ensures
        r == frame_next(p, elapsed_ms, state),
{
    let none = FrameActions { resume_halftime: false, equip_bots: false, run_bots: false, tick_match: false };
    match p.screen {
        PlayScreenKind::InRound => {
            if state == MatchState::Ended {
                return (PlayPacing { screen: PlayScreenKind::MatchEnd, ..p }, none);
            }
            let gathered = p.bot_elapsed_ms.saturating_add(elapsed_ms);
            let bots = gathered >= BOT_INTERVAL_MS;
            let halftime = state == MatchState::Halftime;
            (
                PlayPacing { bot_elapsed_ms: if bots { 0 } else { gathered }, ..p },
                FrameActions { resume_halftime: halftime, equip_bots: halftime, run_bots: bots, tick_match: true },
            )
        },
        PlayScreenKind::RoundEnd => {
            let shown = p.round_end_elapsed_ms.saturating_add(elapsed_ms);
            if shown < ROUND_END_SHOW_MS {
                (PlayPacing { round_end_elapsed_ms: shown, ..p }, none)
            } else if state == MatchState::Ended {
                (PlayPacing { screen: PlayScreenKind::MatchEnd, round_end_elapsed_ms: shown, ..p }, none)
            } else {
                (
                    PlayPacing { screen: PlayScreenKind::InRound, round_end_elapsed_ms: shown, ..p },
                    FrameActions { equip_bots: true, ..none },
                )
            }
        },
        _ => (p, none),
    }
}

/// The pacing once a tick of the match has ended a round: the result is
/// shown, from the start of its display time.
pub fn round_ended(p: PlayPacing) -> (r: PlayPacing)
    ensures
        r == (PlayPacing { screen: PlayScreenKind::RoundEnd, round_end_elapsed_ms: 0, ..p }),
{
    PlayPacing { screen: PlayScreenKind::RoundEnd, round_end_elapsed_ms: 0, ..p }
}

/// The pacing once the player has picked a team: the first round shows.
pub fn team_picked(p: PlayPacing) -> (r: PlayPacing)
    ensures
        r == (PlayPacing { screen: PlayScreenKind::InRound, ..p }),
{
    PlayPacing { screen: PlayScreenKind::InRound, ..p }
}

/// An ended match stays on its final screen, whatever frames follow.
pub proof fn lemma_match_end_is_final(p: PlayPacing, elapsed_ms: u64, state: MatchState)
    requires
        p.screen == PlayScreenKind::MatchEnd,
    ensures
        frame_next(p, elapsed_ms, state) == (p, idle()),
{
}

} // verus!
