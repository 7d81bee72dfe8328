use vstd::prelude::*;

use crate::player::Player;
use crate::player::PlayerView;

verus! {

/// A ban on a player. What `expires` and `source` mean is the server's
/// business: they are carried as the server gave them, and an absent one
/// means that nothing was said, not that it is empty.
#[derive(Debug, Clone, PartialEq, Eq)]
pub struct UserBan {
    pub player: Player,
    pub reason: Option<String>,
    pub expires: Option<String>,
    pub source: Option<String>,
}

/// The value of a [`UserBan`].
pub struct UserBanView {
    pub player: PlayerView,
    pub reason: Option<Seq<char>>,
    pub expires: Option<Seq<char>>,
    pub source: Option<Seq<char>>,
}

impl View for UserBan {
    type V = UserBanView;

    open spec fn view(&self) -> UserBanView {
        UserBanView {
            player: self.player@,
            reason: self.reason.deep_view(),
            expires: self.expires.deep_view(),
            source: self.source.deep_view(),
        }
    }
}

impl DeepView for UserBan {
    type V = UserBanView;

    open spec fn deep_view(&self) -> UserBanView {
        self.view()
    }
}

impl UserBan {
    /// A ban on the player of that name, for the reason given if there is
    /// one. Expiry and source are left unsaid.
    pub fn new(player_name: &str, reason: Option<String>) -> (ban: UserBan)
        ensures
            ban@ == (UserBanView {
                player: PlayerView::named(player_name@),
                reason: reason.deep_view(),
                expires: None,
                source: None,
            }),
    {
        UserBan { player: Player::from(player_name), reason, expires: None, source: None }
    }
}

/// A ban on a network address, which is the only thing that identifies it.
#[derive(Debug, Clone, PartialEq, Eq)]
pub struct IPBan {
    pub ip: String,
    pub reason: Option<String>,
    pub expires: Option<String>,
    pub source: Option<String>,
}

/// The value of an [`IPBan`].
pub struct IPBanView {
    pub ip: Seq<char>,
    pub reason: Option<Seq<char>>,
    pub expires: Option<Seq<char>>,
    pub source: Option<Seq<char>>,
}

impl View for IPBan {
    type V = IPBanView;

    open spec fn view(&self) -> IPBanView {
        IPBanView {
            ip: self.ip@,
            reason: self.reason.deep_view(),
            expires: self.expires.deep_view(),
            source: self.source.deep_view(),
        }
    }
}

impl DeepView for IPBan {
    type V = IPBanView;

    open spec fn deep_view(&self) -> IPBanView {
        self.view()
    }
}

impl IPBan {
    /// A ban on that address, for the reason given if there is one. Expiry
    /// and source are left unsaid.
    pub fn new(ip: &str, reason: Option<String>) -> (ban: IPBan)
        ensures
            ban@ == (IPBanView {
                ip: ip@,
                reason: reason.deep_view(),
                expires: None,
                source: None,
            }),
    {
        IPBan { ip: ip.to_owned(), reason, expires: None, source: None }
    }
}

/// Whom a requested address ban is aimed at: an address, or the player whose
/// address the server is to find. It is one or the other, never both.
#[derive(Debug, Clone, PartialEq, Eq)]
pub enum BanTarget {
    ByAddress(String),
    ByPlayer(Player),
}

/// The value of a [`BanTarget`].
pub enum BanTargetView {
    ByAddress(Seq<char>),
    ByPlayer(PlayerView),
}

impl View for BanTarget {
    type V = BanTargetView;

    open spec fn view(&self) -> BanTargetView {
        match self {
            BanTarget::ByAddress(ip) => BanTargetView::ByAddress(ip@),
            BanTarget::ByPlayer(player) => BanTargetView::ByPlayer(player@),
        }
    }
}

/// An address ban as it is asked of the server.
#[derive(Debug, Clone, PartialEq, Eq)]
pub struct IncomingIPBan {
    pub target: BanTarget,
    pub reason: Option<String>,
    pub expires: Option<String>,
    pub source: Option<String>,
}

/// The value of an [`IncomingIPBan`].
pub struct IncomingIPBanView {
    pub target: BanTargetView,
    pub reason: Option<Seq<char>>,
    pub expires: Option<Seq<char>>,
    pub source: Option<Seq<char>>,
}

impl IncomingIPBanView {
    /// The address the ban names, if it names one.
    pub open spec fn ip(self) -> Option<Seq<char>> {
        match self.target {
            BanTargetView::ByAddress(ip) => Some(ip),
            BanTargetView::ByPlayer(_) => None,
        }
    }

    /// The player the ban names, if it names one.
    pub open spec fn player(self) -> Option<PlayerView> {
        match self.target {
            BanTargetView::ByAddress(_) => None,
            BanTargetView::ByPlayer(player) => Some(player),
        }
    }

    /// The ban that `IncomingIPBan::new` makes of its arguments.
    pub open spec fn requested(item: Seq<char>, reason: Option<Seq<char>>, is_ip: bool) -> Self {
        IncomingIPBanView {
            target: if is_ip {
                BanTargetView::ByAddress(item)
            } else {
                BanTargetView::ByPlayer(PlayerView::named(item))
            },
            reason,
            expires: None,
            source: None,
        }
    }
}

impl View for IncomingIPBan {
    type V = IncomingIPBanView;

    open spec fn view(&self) -> IncomingIPBanView {
        IncomingIPBanView {
            target: self.target@,
            reason: self.reason.deep_view(),
            expires: self.expires.deep_view(),
            source: self.source.deep_view(),
        }
    }
}

impl DeepView for IncomingIPBan {
    type V = IncomingIPBanView;

    open spec fn deep_view(&self) -> IncomingIPBanView {
        self.view()
    }
}

impl IncomingIPBan {
    /// A request to ban `item`, for the reason given if there is one. With
    /// `is_ip` the item is the address to ban; without it, the name of the
    /// player to ban. Expiry and source are left unsaid.
    pub fn new(item: &str, reason: Option<String>, is_ip: bool) -> (ban: IncomingIPBan)
        ensures
            ban@ == IncomingIPBanView::requested(item@, reason.deep_view(), is_ip),
    {
        let target = if is_ip {
            BanTarget::ByAddress(item.to_owned())
        } else {
            BanTarget::ByPlayer(Player::from(item))
        };
        IncomingIPBan { target, reason, expires: None, source: None }
    }

    /// The address the ban names, if it names one.
    pub fn ip(&self) -> (ip: Option<&String>)
        ensures
            ip.deep_view() == self@.ip(),
    {
        match &self.target {
            BanTarget::ByAddress(ip) => Some(ip),
            BanTarget::ByPlayer(_) => None,
        }
    }

    /// The player the ban names, if it names one.
    pub fn player(&self) -> (player: Option<&Player>)
        ensures
            player.deep_view() == self@.player(),
    {
        match &self.target {
            BanTarget::ByAddress(_) => None,
            BanTarget::ByPlayer(player) => Some(player),
        }
    }
}

/// A requested address ban names an address or a player, and never both:
/// whichever way it was made, exactly one of the two is there.
pub proof fn lemma_one_target(ban: IncomingIPBanView)
    ensures
        ban.ip() is Some <==> ban.player() is None,
{
}

/// What `IncomingIPBan::new` populates: with `is_ip` the address and no
/// player, without it the player of that name and no address.
pub proof fn lemma_requested_target(item: Seq<char>, reason: Option<Seq<char>>, is_ip: bool)
    ensures
        is_ip ==> IncomingIPBanView::requested(item, reason, is_ip).ip() == Some(item)
            && IncomingIPBanView::requested(item, reason, is_ip).player() is None,
        !is_ip ==> IncomingIPBanView::requested(item, reason, is_ip).player() == Some(
            PlayerView::named(item),
        ) && IncomingIPBanView::requested(item, reason, is_ip).ip() is None,
        IncomingIPBanView::requested(item, reason, is_ip).reason == reason,
        IncomingIPBanView::requested(item, reason, is_ip).expires is None,
        IncomingIPBanView::requested(item, reason, is_ip).source is None,
{
}

} // verus!
