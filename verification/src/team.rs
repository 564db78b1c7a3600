use vstd::prelude::*;

verus! {

/// The two sides of a match.
#[derive(PartialEq, Eq, Structural, Hash, Debug, Copy, Clone)]
pub enum Team {
    /// Red team.
    Red,
    /// Blue team.
    Blue,
}

impl Team {
    /// The opposing team, as a spec value.
    pub open spec fn spec_enemy(self) -> Team {
        match self {
            Team::Red => Team::Blue,
            Team::Blue => Team::Red,
        }
    }

    /// Returns the team for a given player index: even indices are Red.
    pub fn from_index(index: usize) -> (t: Team)
        ensures
            t == (if index % 2 == 0 {
                Team::Red
            } else {
                Team::Blue
            }),
    {
        if index % 2 == 0 {
            Team::Red
        } else {
            Team::Blue
        }
    }

    /// Returns the opposing team.
    pub fn enemy(&self) -> (t: Team)
        ensures
            t == self.spec_enemy(),
    {
        match self {
            Team::Red => Team::Blue,
            Team::Blue => Team::Red,
        }
    }
}

impl Default for Team {
    /// The starting side handed out first.
    fn default() -> (t: Team)
        ensures
            t == Team::Red,
    {
        Team::Red
    }
}

/// The outcome of a finished game.
#[derive(PartialEq, Eq, Structural, Hash, Debug, Copy, Clone)]
pub enum GameResult {
    /// Win for a certain [`Team`].
    Win(Team),
    /// Tie.
    Tie,
}

} // verus!
