//! The engine's operations over a keyed store of sessions: open a game, make
//! a move, read a game.

use vstd::prelude::*;
use crate::game::{Error, Game};
use crate::identity::Identity;

verus! {

/// The first check that refuses a move of `caller` onto cell `pos` of
/// session `game_id` in the sessions `s`: the position comes first, then the
/// session's existence, then the checks on the game itself.
pub open spec fn play_error(s: Seq<Game>, game_id: u32, pos: u32, caller: Identity) -> Option<Error> {
    if pos > 8 {
        Some(Error::InvalidPosition)
    } else if game_id >= s.len() {
        Some(Error::GameDoesNotExist)
    } else {
        s[game_id as int].move_error(pos, caller)
    }
}

/// Every stored game keeps the invariant of a game.
pub open spec fn sessions_wf(s: Seq<Game>) -> bool {
    forall|i: int| 0 <= i < s.len() ==> (#[trigger] s[i]).wf()
}

/// The operations of the engine. Its view is the sequence of sessions, a
/// session's id being its index.
pub trait TicTacToeTrait: View<V = Seq<Game>> + Sized {
    /// `caller` opens a game against `opposition`, moves first, and gets the
    /// new session's id, the next unused one.
    fn create(&mut self, opposition: Identity, caller: Identity) -> (game_id: u32)
        requires
            old(self)@.len() < u32::MAX,
        ensures
            game_id == old(self)@.len(),
            final(self)@.len() == old(self)@.len() + 1,
            final(self)@.drop_last() == old(self)@,
            final(self)@.last().is_new(caller, opposition),
            sessions_wf(old(self)@) ==> sessions_wf(final(self)@),
    ;

    /// `caller` puts their mark on cell `pos` of session `game_id`; the
    /// result tells whether the move ended the game. A refused move changes
    /// nothing.
    fn play(&mut self, game_id: u32, pos: u32, caller: Identity) -> (r: Result<bool, Error>)
        ensures
            match r {
                Err(e) => {
                    &&& play_error(old(self)@, game_id, pos, caller) == Some(e)
                    &&& final(self)@ == old(self)@
                },
                Ok(done) => {
                    &&& play_error(old(self)@, game_id, pos, caller) is None
                    &&& game_id < old(self)@.len()
                    &&& final(self)@ == old(self)@.update(game_id as int, final(self)@[game_id as int])
                    &&& old(self)@[game_id as int].moved_to(pos, caller, final(self)@[game_id as int])
                    &&& done == !(final(self)@[game_id as int].game_state is InPlay)
                },
            },
            sessions_wf(old(self)@) ==> sessions_wf(final(self)@),
    ;

    /// The game of session `game_id`.
    fn get_game(&self, game_id: u32) -> (r: Result<Game, Error>)
        ensures
            game_id < self@.len() ==> r == Ok::<Game, Error>(self@[game_id as int]),
            game_id >= self@.len() ==> r == Err::<Game, Error>(Error::GameDoesNotExist),
    ;
}

/// An engine together with the sessions it has stored.
pub struct TicTacToeContract {
    games: Vec<Game>,
}

impl View for TicTacToeContract {
    type V = Seq<Game>;

    closed spec fn view(&self) -> Seq<Game> {
        self.games@
    }
}

impl TicTacToeContract {
    /// An engine with no sessions.
    pub fn new() -> (r: TicTacToeContract)
        ensures
            r@.len() == 0,
            sessions_wf(r@),
    {
        TicTacToeContract { games: Vec::new() }
    }

    /// The id that the next session will get.
    pub fn get_next_game_id(&self) -> (r: u32)
        requires
            self@.len() <= u32::MAX,
        ensures
            r == self@.len(),
    {
        self.games.len() as u32
    }
}

impl TicTacToeTrait for TicTacToeContract {
    fn create(&mut self, opposition: Identity, caller: Identity) -> (game_id: u32) {
        let game_id = self.get_next_game_id();
        let game = Game::new(caller, opposition);
        self.games.push(game);
        proof {
            assert(self@.drop_last() =~= old(self)@);
        }
        game_id
    }

    fn play(&mut self, game_id: u32, pos: u32, caller: Identity) -> (r: Result<bool, Error>) {
        if pos > 8 {
            return Err(Error::InvalidPosition);
        }
        let id = game_id as usize;
        if id >= self.games.len() {
            return Err(Error::GameDoesNotExist);
        }
        let mut game = self.games[id];
        let done = game.play(pos, &caller)?;
        proof {
            crate::laws::lemma_move_keeps_wf(self.games@[id as int], pos, caller, game);
        }
        self.games.set(id, game);
        proof {
            assert(self@ =~= old(self)@.update(game_id as int, self@[game_id as int]));
        }
        Ok(done)
    }

    fn get_game(&self, game_id: u32) -> (r: Result<Game, Error>) {
        let id = game_id as usize;
        if id < self.games.len() {
            Ok(self.games[id])
        } else {
            Err(Error::GameDoesNotExist)
        }
    }
}

} // verus!
