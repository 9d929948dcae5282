//! A small game-state machine: menu, playing, paused, over.

use vstd::prelude::*;

verus! {

#[derive(Debug, PartialEq)]
pub enum GameState {
    Menu,
    Playing { score: u32, level: u8 },
    Paused,
    GameOver { final_score: u32 },
}

pub struct Game {
    pub state: GameState,
    pub player_name: String,
}

impl Game {
    /// A fresh game for the named player, sitting in the menu.
    pub fn new(name: String) -> (r: Game)
        ensures
            r.state is Menu,
            r.player_name == name,
    {
        Game { state: GameState::Menu, player_name: name }
    }

    /// Start playing: score zero, level one, whatever state came before.
    pub fn start(&mut self)
        ensures
            (final(self).state matches GameState::Playing { score, level } && score == 0 && level
                == 1),
            final(self).player_name == old(self).player_name,
    {
        self.state = GameState::Playing { score: 0, level: 1 };
    }

    /// Pause a running game; any other state is left unchanged.
    pub fn pause(&mut self)
        ensures
            old(self).state is Playing ==> final(self).state is Paused,
            !(old(self).state is Playing) ==> *final(self) == *old(self),
            final(self).player_name == old(self).player_name,
    {
        if let GameState::Playing { .. } = self.state {
            self.state = GameState::Paused;
        }
    }

    /// Add points to a running game's score; any other state is left
    /// unchanged.
    pub fn update_score(&mut self, points: u32)
        requires
            (old(self).state matches GameState::Playing { score, .. } ==> score + points
                <= u32::MAX),
        ensures
            (old(self).state matches GameState::Playing { score, level } ==> final(self).state
                matches GameState::Playing { score: s2, level: l2 } && s2 == score + points && l2
                == level),
            !(old(self).state is Playing) ==> *final(self) == *old(self),
            final(self).player_name == old(self).player_name,
    {
        if let GameState::Playing { ref mut score, .. } = self.state {
            *score += points;
        }
    }

    /// End a running game, keeping its score; any other state is left
    /// unchanged.
    pub fn game_over(&mut self)
        ensures
            (old(self).state matches GameState::Playing { score, .. } ==> final(self).state
                matches GameState::GameOver { final_score } && final_score == score),
            !(old(self).state is Playing) ==> *final(self) == *old(self),
            final(self).player_name == old(self).player_name,
    {
        if let GameState::Playing { score, .. } = self.state {
            self.state = GameState::GameOver { final_score: score };
        }
    }
}

} // verus!
