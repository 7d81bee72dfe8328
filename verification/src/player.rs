use std::str::FromStr;
use vstd::prelude::*;
use vstd::std_specs::convert::FromSpecImpl;

use crate::error::Error;

verus! {

/// A player as the server knows it. The identifier is the server's to assign:
/// a player made from a bare name has none until the server has resolved it.
#[derive(Debug, Clone, PartialEq, Eq)]
pub struct Player {
    pub name: String,
    pub id: Option<String>,
}

/// The value of a [`Player`].
pub struct PlayerView {
    pub name: Seq<char>,
    pub id: Option<Seq<char>>,
}

impl PlayerView {
    /// The player that a bare name stands for: that name, and no identifier.
    pub open spec fn named(name: Seq<char>) -> PlayerView {
        PlayerView { name, id: None }
    }
}

impl View for Player {
    type V = PlayerView;

    open spec fn view(&self) -> PlayerView {
        PlayerView { name: self.name@, id: self.id.deep_view() }
    }
}

impl DeepView for Player {
    type V = PlayerView;

    open spec fn deep_view(&self) -> PlayerView {
        self.view()
    }
}

impl<'a> From<&'a str> for Player {
    /// The player of that name. Every string is taken, the empty one too.
    fn from(name: &'a str) -> (player: Player)
        ensures
            player@ == PlayerView::named(name@),
    {
        Player { name: name.to_owned(), id: None }
    }
}

// A `String` cannot be written down in a specification, so `from` is not
// described by `from_spec`: its own `ensures` says what it returns.
impl<'a> FromSpecImpl<&'a str> for Player {
    open spec fn obeys_from_spec() -> bool {
        false
    }

    open spec fn from_spec(name: &'a str) -> Player {
        arbitrary()
    }
}

impl FromStr for Player {
    type Err = Error;

    /// Lets a name be parsed into a player. It never fails.
    fn from_str(name: &str) -> (parsed: Result<Player, Error>)
        ensures
            parsed matches Ok(player) && player@ == PlayerView::named(name@),
    {
        Ok(Player::from(name))
    }
}

} // verus!
