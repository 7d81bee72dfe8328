use vstd::prelude::*;

use crate::player::Player;
use crate::player::PlayerView;

verus! {

/// A player with operator rights. The range of the level is the server's to
/// define: here it is a number like any other.
#[derive(Debug, Clone, PartialEq, Eq)]
pub struct Operator {
    pub player: Player,
    pub permission_level: i64,
    pub bypasses_player_limit: bool,
}

/// The value of an [`Operator`].
pub struct OperatorView {
    pub player: PlayerView,
    pub permission_level: int,
    pub bypasses_player_limit: bool,
}

impl View for Operator {
    type V = OperatorView;

    open spec fn view(&self) -> OperatorView {
        OperatorView {
            player: self.player@,
            permission_level: self.permission_level as int,
            bypasses_player_limit: self.bypasses_player_limit,
        }
    }
}

impl DeepView for Operator {
    type V = OperatorView;

    open spec fn deep_view(&self) -> OperatorView {
        self.view()
    }
}

/// The version a server runs: its name, and the number of its protocol.
#[derive(Debug, Clone, PartialEq, Eq)]
pub struct Version {
    pub name: String,
    pub protocol: i64,
}

/// The value of a [`Version`].
pub struct VersionView {
    pub name: Seq<char>,
    pub protocol: int,
}

impl View for Version {
    type V = VersionView;

    open spec fn view(&self) -> VersionView {
        VersionView { name: self.name@, protocol: self.protocol as int }
    }
}

impl DeepView for Version {
    type V = VersionView;

    open spec fn deep_view(&self) -> VersionView {
        self.view()
    }
}

/// The state of a server at one moment, as a whole: who is on it, whether it
/// has started, and what it runs.
#[derive(Debug, Clone, PartialEq, Eq)]
pub struct ServerState {
    pub players: Vec<Player>,
    pub started: bool,
    pub version: Version,
}

/// The value of a [`ServerState`].
pub struct ServerStateView {
    pub players: Seq<PlayerView>,
    pub started: bool,
    pub version: VersionView,
}

impl View for ServerState {
    type V = ServerStateView;

    open spec fn view(&self) -> ServerStateView {
        ServerStateView {
            players: self.players.deep_view(),
            started: self.started,
            version: self.version@,
        }
    }
}

impl DeepView for ServerState {
    type V = ServerStateView;

    open spec fn deep_view(&self) -> ServerStateView {
        self.view()
    }
}

} // verus!
