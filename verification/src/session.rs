//! A session: the menu before the game, and the game.
//!
//! A session starts on the menu, where nothing moves and no time passes for
//! the game. The first key pressed, whichever it is, starts the game and is
//! used up by that: it is not a move command as well. From then on keys are
//! move commands and ticks advance the game.
use vstd::prelude::*;
use crate::config::Config;
use crate::direction::Direction;
use crate::game::{Game, GameModel};

verus! {

/// Which update a tick runs.
#[derive(Clone, Copy, Debug, PartialEq, Eq, Structural)]
pub enum Phase {
    /// Waiting for the first key.
    MainMenu,
    /// The game runs.
    InGame,
}

/// A session as the contracts see it.
pub struct SessionModel {
    /// Which update a tick runs.
    pub phase: Phase,
    /// The game, untouched while the menu shows.
    pub game: GameModel,
}

impl SessionModel {
    /// The session after a key that asks for `direction` was pressed.
    pub open spec fn press(self, direction: Direction) -> SessionModel {
        match self.phase {
            Phase::MainMenu => SessionModel {
                phase: Phase::InGame,
                game: GameModel { pending: Seq::empty(), ..self.game },
            },
            Phase::InGame => SessionModel { phase: Phase::InGame, game: self.game.enqueue(direction) },
        }
    }

    /// The session after one tick.
    pub open spec fn tick(self) -> SessionModel {
        match self.phase {
            Phase::MainMenu => self,
            Phase::InGame => SessionModel { phase: Phase::InGame, game: self.game.tick() },
        }
    }
}

/// A game together with the phase that guards it.
#[derive(Debug)]
pub struct Session {
    /// Which update a tick runs.
    pub phase: Phase,
    /// The game.
    pub game: Game,
}

impl View for Session {
    type V = SessionModel;

    open spec fn view(&self) -> SessionModel {
        SessionModel { phase: self.phase, game: self.game@ }
    }
}

impl Session {
    /// A session on the menu, with a new game behind it.
    pub fn new(config: Config) -> (session: Session)
        requires
            config.wf(),
        ensures
            session@ == (SessionModel { phase: Phase::MainMenu, game: GameModel::initial(config) }),
            session@.game.wf(),
    {
        Session { phase: Phase::MainMenu, game: Game::new(config) }
    }

    /// Takes a key press. On the menu it starts the game and leaves no
    /// command behind; in the game it queues `direction`.
    pub fn press(&mut self, direction: Direction)
        ensures
            final(self)@ == old(self)@.press(direction),
    {
        match self.phase {
            Phase::MainMenu => {
                self.phase = Phase::InGame;
                self.game.pending.clear();
                proof {
                    assert(self.game.pending@ =~= Seq::<Direction>::empty());
                }
            },
            Phase::InGame => {
                self.game.push_command(direction);
            },
        }
    }

    /// Runs one tick: nothing on the menu, one tick of the game otherwise.
    pub fn tick(&mut self)
        requires
            old(self)@.game.wf(),
            i64::MIN < old(self).game.score < i64::MAX,
        ensures
            final(self)@ == old(self)@.tick(),
            final(self)@.game.wf(),
    {
        match self.phase {
            Phase::MainMenu => {},
            Phase::InGame => {
                self.game.tick();
            },
        }
    }
}

} // verus!
