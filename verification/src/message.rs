use vstd::prelude::*;

use crate::player::Player;
use crate::player::PlayerView;

verus! {

/// A text for players: a literal string, or a key to translate together with
/// the parameters to put into the translation, in their order. The record
/// always holds both; which of the two is meant is not said by it.
#[derive(Debug, Clone, PartialEq, Eq)]
pub struct Message {
    pub literal: String,
    pub translatable: String,
    pub translatable_params: Vec<String>,
}

/// The value of a [`Message`].
pub struct MessageView {
    pub literal: Seq<char>,
    pub translatable: Seq<char>,
    pub translatable_params: Seq<Seq<char>>,
}

impl View for Message {
    type V = MessageView;

    open spec fn view(&self) -> MessageView {
        MessageView {
            literal: self.literal@,
            translatable: self.translatable@,
            translatable_params: self.translatable_params.deep_view(),
        }
    }
}

impl DeepView for Message {
    type V = MessageView;

    open spec fn deep_view(&self) -> MessageView {
        self.view()
    }
}

/// A message from the system to some players. `overlay` chooses how it is
/// shown: over the game, or in the chat. Nothing here asks that there be a
/// recipient, though without one the message reaches nobody.
#[derive(Debug, Clone, PartialEq, Eq)]
pub struct SystemMessage {
    pub recipients: Vec<Player>,
    pub message: Message,
    pub overlay: bool,
}

/// The value of a [`SystemMessage`].
pub struct SystemMessageView {
    pub recipients: Seq<PlayerView>,
    pub message: MessageView,
    pub overlay: bool,
}

impl View for SystemMessage {
    type V = SystemMessageView;

    open spec fn view(&self) -> SystemMessageView {
        SystemMessageView {
            recipients: self.recipients.deep_view(),
            message: self.message@,
            overlay: self.overlay,
        }
    }
}

impl DeepView for SystemMessage {
    type V = SystemMessageView;

    open spec fn deep_view(&self) -> SystemMessageView {
        self.view()
    }
}

/// A player to remove from the server, and the message to show them.
#[derive(Debug, Clone, PartialEq, Eq)]
pub struct KickPlayer {
    pub player: Player,
    pub message: Message,
}

/// The value of a [`KickPlayer`].
pub struct KickPlayerView {
    pub player: PlayerView,
    pub message: MessageView,
}

impl View for KickPlayer {
    type V = KickPlayerView;

    open spec fn view(&self) -> KickPlayerView {
        KickPlayerView { player: self.player@, message: self.message@ }
    }
}

impl DeepView for KickPlayer {
    type V = KickPlayerView;

    open spec fn deep_view(&self) -> KickPlayerView {
        self.view()
    }
}

} // verus!
