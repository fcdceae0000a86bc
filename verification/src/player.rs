//! Players of a game session and inclusive ranges of them.

use vstd::prelude::*;
use vstd::std_specs::cmp::PartialOrdSpecImpl;
use std::cmp::Ordering;

verus! {

/// One of the four seats of a game session.
#[derive(Copy, Clone, Debug, PartialEq, Eq, Structural, Hash, Ord)]
pub enum Player {
    Player1,
    Player2,
    Player3,
    Player4,
}

impl Player {
    /// The number of the seat, from 1 to 4.
    pub open spec fn number(self) -> u8 {
        match self {
            Player::Player1 => 1,
            Player::Player2 => 2,
            Player::Player3 => 3,
            Player::Player4 => 4,
        }
    }

    pub fn to_num(self) -> (n: u8)
        ensures
            n == self.number(),
            1 <= n <= 4,
    {
        match self {
            Self::Player1 => 1,
            Self::Player2 => 2,
            Self::Player3 => 3,
            Self::Player4 => 4,
        }
    }

    /// The text by which a player is shown: the word "player" and the number.
    pub fn label(self) -> (text: String)
        ensures
            text@ == self.label_text(),
    {
        match self {
            Self::Player1 => "player 1".to_string(),
            Self::Player2 => "player 2".to_string(),
            Self::Player3 => "player 3".to_string(),
            Self::Player4 => "player 4".to_string(),
        }
    }

    pub open spec fn label_text(self) -> Seq<char> {
        match self {
            Player::Player1 => "player 1"@,
            Player::Player2 => "player 2"@,
            Player::Player3 => "player 3"@,
            Player::Player4 => "player 4"@,
        }
    }
}

impl PartialOrd for Player {
    fn partial_cmp(&self, other: &Self) -> (order: Option<Ordering>) {
        let a: u8 = self.to_num();
        let b: u8 = other.to_num();
        if a < b {
            Some(Ordering::Less)
        } else if a == b {
            Some(Ordering::Equal)
        } else {
            Some(Ordering::Greater)
        }
    }
}

impl PartialOrdSpecImpl for Player {
    open spec fn obeys_partial_cmp_spec() -> bool {
        true
    }

    open spec fn partial_cmp_spec(&self, other: &Self) -> Option<Ordering> {
        if self.number() < other.number() {
            Some(Ordering::Less)
        } else if self.number() == other.number() {
            Some(Ordering::Equal)
        } else {
            Some(Ordering::Greater)
        }
    }
}

/// An inclusive range of players.
pub struct PlayerRange {
    start: Player,
    stop: Player,
}

impl PlayerRange {
    pub closed spec fn first(self) -> Player {
        self.start
    }

    pub closed spec fn last(self) -> Player {
        self.stop
    }

    /// A range never ends before it starts.
    #[verifier::type_invariant]
    spec fn ordered(self) -> bool {
        self.start.number() <= self.stop.number()
    }

    /// Whether the player lies in the range, both ends included.
    pub open spec fn holds(self, player: Player) -> bool {
        self.first().number() <= player.number() <= self.last().number()
    }

    /// Returns inclusive player range from first player to `stop`.
    pub fn up_to(stop: Player) -> (range: Self)
        ensures
            range.first() == Player::Player1,
            range.last() == stop,
    {
        Self::new(Player::Player1, stop)
    }

    /// # Arguments
    ///
    /// * `start` - first player, inclusive.
    ///
    /// * `stop` - last player, inclusive.
    pub fn new(start: Player, stop: Player) -> (range: Self)
        requires
            start.number() <= stop.number(),
        ensures
            range.first() == start,
            range.last() == stop,
    {
        Self { start, stop }
    }

    /// As `new`, for any two players: `None` where `start` comes after `stop`.
    pub fn try_new(start: Player, stop: Player) -> (range: Option<Self>)
        ensures
            range.is_some() <==> start.number() <= stop.number(),
            range.is_some() ==> range.unwrap().first() == start && range.unwrap().last() == stop,
    {
        if start.to_num() <= stop.to_num() {
            Some(Self::new(start, stop))
        } else {
            None
        }
    }

    pub fn contains(&self, player: Player) -> (inside: bool)
        ensures
            inside == self.holds(player),
    {
        self.start.to_num() <= player.to_num() && player.to_num() <= self.stop.to_num()
    }
}

} // verus!
