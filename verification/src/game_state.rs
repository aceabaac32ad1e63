//! From one screen to the next: a running level ends in a win or in defeat,
//! and each closing screen asks whether to go on.
//!
//! A state carries along what belongs to it: `C`, the level being played and
//! its clock, and `R`, the loaded textures and sounds. Neither is looked
//! into here.

use vstd::prelude::*;
use std::time::Duration;
use crate::model::SoundId;

verus! {

pub enum GameState<C, R> {
    Running { context: C, resource_manager: R },
    LevelWon { context: C, time_to_complete: Duration, resource_manager: R },
    GameOver { context: C, resource_manager: R },
    GameWon { time_to_complete: Duration, resource_manager: R },
}

/// What the player answers on a closing screen.
#[derive(Debug, Clone, Copy, PartialEq, Eq, Structural)]
pub enum Answer {
    /// The key for "yes" was let go.
    Yes,
    /// The key for "no" was let go.
    No,
    /// Neither.
    Nothing,
}

/// Reads the two keys of a closing screen. "No" wins over "yes".
pub fn read_answer(no_released: bool, yes_released: bool) -> (answer: Answer)
    ensures
        answer == if no_released {
            Answer::No
        } else if yes_released {
            Answer::Yes
        } else {
            Answer::Nothing
        },
{
    if no_released {
        Answer::No
    } else if yes_released {
        Answer::Yes
    } else {
        Answer::Nothing
    }
}

/// A level has been won after `duration`. If there is a level after it,
/// `next` is that level, ready to play, and the player gets to see how the
/// won level went before going on; with no level left, the game is won.
pub fn level_complete<C, R>(
    next: Option<C>,
    duration: Duration,
    resource_manager: R,
) -> (state: GameState<C, R>)
    ensures
        state == match next {
            Some(context) => GameState::LevelWon {
                context,
                time_to_complete: duration,
                resource_manager,
            },
            None => GameState::GameWon { time_to_complete: duration, resource_manager },
        },
{
    match next {
        Some(context) => GameState::LevelWon {
            context,
            time_to_complete: duration,
            resource_manager,
        },
        None => GameState::GameWon { time_to_complete: duration, resource_manager },
    }
}

/// How a frame of a running level ends.
#[derive(Debug, Clone, Copy, PartialEq, Eq, Structural)]
pub enum Verdict {
    /// The player is dead.
    Lost,
    /// The player lives and has escaped.
    Won,
    /// The level goes on.
    Undecided,
}

/// Judges a frame. Defeat comes first: a player who dies on the doorstep
/// has lost.
pub fn judge(game_over: bool, game_won: bool) -> (verdict: Verdict)
    ensures
        verdict == if game_over {
            Verdict::Lost
        } else if game_won {
            Verdict::Won
        } else {
            Verdict::Undecided
        },
{
    if game_over {
        Verdict::Lost
    } else if game_won {
        Verdict::Won
    } else {
        Verdict::Undecided
    }
}

/// The sound that closes a level, once all others have been stopped.
pub fn closing_sound(verdict: Verdict) -> (sound: Option<SoundId>)
    ensures
        sound == match verdict {
            Verdict::Lost => Some(SoundId::Lose),
            Verdict::Won => Some(SoundId::Escape),
            Verdict::Undecided => None,
        },
{
    match verdict {
        Verdict::Lost => Some(SoundId::Lose),
        Verdict::Won => Some(SoundId::Escape),
        Verdict::Undecided => None,
    }
}

/// The state after a frame of a running level. `next` and `duration` are
/// read only if the level was won: see `level_complete`.
pub fn normal_run<C, R>(
    context: C,
    resource_manager: R,
    verdict: Verdict,
    next: Option<C>,
    duration: Duration,
) -> (step: (GameState<C, R>, bool))
    ensures
        !step.1,
        step.0 == match verdict {
            Verdict::Lost => GameState::GameOver { context, resource_manager },
            Verdict::Won => match next {
                Some(next_context) => GameState::LevelWon {
                    context: next_context,
                    time_to_complete: duration,
                    resource_manager,
                },
                None => GameState::GameWon { time_to_complete: duration, resource_manager },
            },
            Verdict::Undecided => GameState::Running { context, resource_manager },
        },
{
    let state = match verdict {
        Verdict::Lost => GameState::GameOver { context, resource_manager },
        Verdict::Won => level_complete(next, duration, resource_manager),
        Verdict::Undecided => GameState::Running { context, resource_manager },
    };
    (state, false)
}

/// The screen after defeat. "No" leaves the game. "Yes" plays the level
/// again, if it could be loaded afresh: `reloaded` is then the level at its
/// start; if it could not, the screen stays.
pub fn game_over_run<C, R>(
    context: C,
    resource_manager: R,
    answer: Answer,
    reloaded: Option<C>,
) -> (step: (GameState<C, R>, bool))
    ensures
        step.1 == (answer == Answer::No),
        step.0 == match (answer, reloaded) {
            (Answer::Yes, Some(fresh)) => GameState::Running { context: fresh, resource_manager },
            _ => GameState::GameOver { context, resource_manager },
        },
{
    match answer {
        Answer::No => (GameState::GameOver { context, resource_manager }, true),
        Answer::Yes => match reloaded {
            None => (GameState::GameOver { context, resource_manager }, false),
            Some(fresh) => (GameState::Running { context: fresh, resource_manager }, false),
        },
        Answer::Nothing => (GameState::GameOver { context, resource_manager }, false),
    }
}

/// The screen after the last level. "No" leaves the game. "Yes" starts it
/// over, if the first level could be loaded: `first` is then that level at
/// its start; if it could not, the screen stays.
pub fn game_won_run<C, R>(
    time_to_complete: Duration,
    resource_manager: R,
    answer: Answer,
    first: Option<C>,
) -> (step: (GameState<C, R>, bool))
    ensures
        step.1 == (answer == Answer::No),
        step.0 == match (answer, first) {
            (Answer::Yes, Some(context)) => GameState::Running { context, resource_manager },
            _ => GameState::GameWon { time_to_complete, resource_manager },
        },
{
    match answer {
        Answer::No => (GameState::GameWon { time_to_complete, resource_manager }, true),
        Answer::Yes => match first {
            None => (GameState::GameWon { time_to_complete, resource_manager }, false),
            Some(context) => (GameState::Running { context, resource_manager }, false),
        },
        Answer::Nothing => (GameState::GameWon { time_to_complete, resource_manager }, false),
    }
}

/// The screen between two levels. "No" leaves the game; "yes" starts the
/// level that is waiting.
pub fn level_won_run<C, R>(
    context: C,
    time_to_complete: Duration,
    resource_manager: R,
    answer: Answer,
) -> (step: (GameState<C, R>, bool))
    ensures
        step.1 == (answer == Answer::No),
        step.0 == if answer == Answer::Yes {
            GameState::Running { context, resource_manager }
        } else {
            GameState::LevelWon { context, time_to_complete, resource_manager }
        },
{
    match answer {
        Answer::No => (GameState::LevelWon { context, time_to_complete, resource_manager }, true),
        Answer::Yes => (GameState::Running { context, resource_manager }, false),
        Answer::Nothing => (
            GameState::LevelWon { context, time_to_complete, resource_manager },
            false,
        ),
    }
}

} // verus!
