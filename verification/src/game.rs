//! The game-state machine: menu, playing, paused, won and lost, the actions
//! that move between them, the command each transition hands back to the
//! surrounding loop, and the per-tick scoring and win/loss evaluation.

use vstd::prelude::*;

use crate::score::ScoreBoard;

verus! {

/// Points awarded per hostile hit.
pub const POINTS_PER_HIT: u32 = 50;

/// The states of the game loop.
#[derive(Clone, Copy, PartialEq, Eq, Structural, Debug)]
pub enum GameState {
    Menu,
    Playing,
    Paused,
    Won,
    Lost,
}

/// The semantic actions raw key codes are translated into.
#[derive(Clone, Copy, PartialEq, Eq, Structural, Debug)]
pub enum Action {
    Left,
    Right,
    Fire,
    Quit,
    Pause,
}

/// What the surrounding loop is told to do after an action is applied:
/// leave the loop, re-initialize the entities for a fresh run, move or fire
/// the player, or nothing.
#[derive(Clone, Copy, PartialEq, Eq, Structural, Debug)]
pub enum Command {
    Idle,
    Exit,
    StartGame,
    MoveLeft,
    MoveRight,
    FireShot,
}

/// The state an action leads to. Quit never changes the state: it ends the
/// loop through the Exit command instead. Fire, Left and Right start a game
/// from the menu; only Fire restarts one from the end screens. Pause
/// toggles between Playing and Paused and does nothing elsewhere.
pub open spec fn next_state(s: GameState, a: Action) -> GameState {
    match a {
        Action::Quit => s,
        Action::Fire => match s {
            GameState::Menu => GameState::Playing,
            GameState::Won => GameState::Playing,
            GameState::Lost => GameState::Playing,
            _ => s,
        },
        Action::Left => match s {
            GameState::Menu => GameState::Playing,
            _ => s,
        },
        Action::Right => match s {
            GameState::Menu => GameState::Playing,
            _ => s,
        },
        Action::Pause => match s {
            GameState::Playing => GameState::Paused,
            GameState::Paused => GameState::Playing,
            _ => s,
        },
    }
}

/// The command an action hands back to the loop.
pub open spec fn command_of(s: GameState, a: Action) -> Command {
    match a {
        Action::Quit => Command::Exit,
        Action::Fire => match s {
            GameState::Menu => Command::StartGame,
            GameState::Won => Command::StartGame,
            GameState::Lost => Command::StartGame,
            GameState::Playing => Command::FireShot,
            GameState::Paused => Command::Idle,
        },
        Action::Left => match s {
            GameState::Menu => Command::StartGame,
            GameState::Playing => Command::MoveLeft,
            _ => Command::Idle,
        },
        Action::Right => match s {
            GameState::Menu => Command::StartGame,
            GameState::Playing => Command::MoveRight,
            _ => Command::Idle,
        },
        Action::Pause => Command::Idle,
    }
}

/// The game as the loop carries it: the current state and the scoreboard.
pub struct Game {
    pub state: GameState,
    pub score: ScoreBoard,
}

impl Game {
    /// A fresh game sits in the menu with no points and a stored high score.
    pub fn new(high_score: u32) -> (g: Game)
        ensures
            g.state == GameState::Menu,
            g.score.score == 0,
            g.score.high_score == high_score,
    {
        Game { state: GameState::Menu, score: ScoreBoard::new(high_score) }
    }

    /// Apply one translated action: the state moves as the transition table
    /// says, the score is reset exactly when a new run starts, the high
    /// score is never touched, and the returned command tells the loop what
    /// else to do.
    pub fn handle_action(&mut self, a: Action) -> (cmd: Command)
        ensures
            final(self).state == next_state(old(self).state, a),
            cmd == command_of(old(self).state, a),
            final(self).score.score == if command_of(old(self).state, a) == Command::StartGame {
                0u32
            } else {
                old(self).score.score
            },
            final(self).score.high_score == old(self).score.high_score,
    {
        match a {
            Action::Quit => Command::Exit,
            Action::Fire => match self.state {
                GameState::Menu | GameState::Won | GameState::Lost => {
                    self.state = GameState::Playing;
                    self.score.score = 0;
                    Command::StartGame
                },
                GameState::Playing => Command::FireShot,
                GameState::Paused => Command::Idle,
            },
            Action::Left => match self.state {
                GameState::Menu => {
                    self.state = GameState::Playing;
                    self.score.score = 0;
                    Command::StartGame
                },
                GameState::Playing => Command::MoveLeft,
                _ => Command::Idle,
            },
            Action::Right => match self.state {
                GameState::Menu => {
                    self.state = GameState::Playing;
                    self.score.score = 0;
                    Command::StartGame
                },
                GameState::Playing => Command::MoveRight,
                _ => Command::Idle,
            },
            Action::Pause => {
                match self.state {
                    GameState::Playing => {
                        self.state = GameState::Paused;
                    },
                    GameState::Paused => {
                        self.state = GameState::Playing;
                    },
                    _ => {},
                }
                Command::Idle
            },
        }
    }

    /// Close one playing tick after the entities were updated and collisions
    /// resolved: award the points for this tick's hits, then evaluate win
    /// and loss, so the state is settled before the next frame is handed to
    /// the pipeline. Winning takes precedence over losing on the same tick.
    pub fn resolve_tick(&mut self, hits: u32, all_killed: bool, reached_bottom: bool)
        requires
            old(self).state == GameState::Playing,
            hits * POINTS_PER_HIT <= u32::MAX,
        ensures
            final(self).score.score == if old(self).score.score + hits * POINTS_PER_HIT
                <= u32::MAX {
                (old(self).score.score + hits * POINTS_PER_HIT) as u32
            } else {
                u32::MAX
            },
            final(self).score.high_score == if final(self).score.score > old(
                self,
            ).score.high_score {
                final(self).score.score
            } else {
                old(self).score.high_score
            },
            final(self).state == if all_killed {
                GameState::Won
            } else if reached_bottom {
                GameState::Lost
            } else {
                GameState::Playing
            },
    {
        self.score.add_points(hits * POINTS_PER_HIT);
        if all_killed {
            self.state = GameState::Won;
        } else if reached_bottom {
            self.state = GameState::Lost;
        }
    }

    /// The label shown for each state.
    pub fn state_label(&self) -> (s: &'static str)
        ensures
            self.state == GameState::Menu ==> s@ == "Start"@,
            self.state == GameState::Playing ==> s@ == "Playing"@,
            self.state == GameState::Paused ==> s@ == "Paused"@,
            self.state == GameState::Won ==> s@ == "You Win!"@,
            self.state == GameState::Lost ==> s@ == "Game Over"@,
    {
        match self.state {
            GameState::Menu => "Start",
            GameState::Playing => "Playing",
            GameState::Paused => "Paused",
            GameState::Won => "You Win!",
            GameState::Lost => "Game Over",
        }
    }
}

/// From the menu, exactly Fire, Left and Right start a game; every other
/// action leaves the state unchanged, with Quit ending the loop through the
/// Exit command.
pub proof fn lemma_menu_transitions(a: Action)
    ensures
        (next_state(GameState::Menu, a) == GameState::Playing) == (a == Action::Fire || a
            == Action::Left || a == Action::Right),
        !(a == Action::Fire || a == Action::Left || a == Action::Right) ==> next_state(
            GameState::Menu,
            a,
        ) == GameState::Menu,
        command_of(GameState::Menu, Action::Quit) == Command::Exit,
{
}

/// Key handling respects the state invariant: Paused is entered only from
/// Playing by a Pause and left only back to Playing, and no action ever
/// produces Won or Lost, which arise from tick resolution alone.
pub proof fn lemma_state_invariant(s: GameState, a: Action)
    ensures
        next_state(s, a) == GameState::Paused ==> (s == GameState::Playing && a == Action::Pause)
            || s == GameState::Paused,
        s == GameState::Paused ==> (next_state(s, a) == GameState::Paused || next_state(s, a)
            == GameState::Playing),
        next_state(s, a) == GameState::Won ==> s == GameState::Won,
        next_state(s, a) == GameState::Lost ==> s == GameState::Lost,
{
}

/// Pause only toggles between Playing and Paused; in the menu and on the
/// end screens it changes nothing and commands nothing.
pub proof fn lemma_pause_toggles(s: GameState)
    ensures
        next_state(s, Action::Pause) == (match s {
            GameState::Playing => GameState::Paused,
            GameState::Paused => GameState::Playing,
            _ => s,
        }),
        command_of(s, Action::Pause) == Command::Idle,
{
}

} // verus!
