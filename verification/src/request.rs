//! The request that each operation makes of the server: a procedure, and
//! nothing or one list with it.

use vstd::prelude::*;

use crate::ban::IPBan;
use crate::ban::IPBanView;
use crate::ban::IncomingIPBan;
use crate::ban::IncomingIPBanView;
use crate::ban::UserBan;
use crate::ban::UserBanView;
use crate::player::Player;
use crate::player::PlayerView;
use crate::procedure::Procedure;

verus! {

/// What goes with a procedure: nothing, or one parameter, which is a list.
/// The list is borrowed from the caller, as it is only read to be sent.
#[derive(Debug, Clone, Copy)]
pub enum Params<'a> {
    Empty,
    Players(&'a [Player]),
    UserBans(&'a [UserBan]),
    IpBans(&'a [IPBan]),
    IncomingIpBans(&'a [IncomingIPBan]),
    Addresses(&'a [String]),
}

/// The value of [`Params`].
pub enum ParamsView {
    Empty,
    Players(Seq<PlayerView>),
    UserBans(Seq<UserBanView>),
    IpBans(Seq<IPBanView>),
    IncomingIpBans(Seq<IncomingIPBanView>),
    Addresses(Seq<Seq<char>>),
}

impl<'a> View for Params<'a> {
    type V = ParamsView;

    open spec fn view(&self) -> ParamsView {
        match *self {
            Params::Empty => ParamsView::Empty,
            Params::Players(players) => ParamsView::Players(players.deep_view()),
            Params::UserBans(bans) => ParamsView::UserBans(bans.deep_view()),
            Params::IpBans(bans) => ParamsView::IpBans(bans.deep_view()),
            Params::IncomingIpBans(bans) => ParamsView::IncomingIpBans(bans.deep_view()),
            Params::Addresses(ips) => ParamsView::Addresses(ips.deep_view()),
        }
    }
}

/// A call to make: the procedure, and what goes with it.
#[derive(Debug, Clone, Copy)]
pub struct Request<'a> {
    pub procedure: Procedure,
    pub params: Params<'a>,
}

/// The value of a [`Request`].
pub struct RequestView {
    pub procedure: Procedure,
    pub params: ParamsView,
}

impl<'a> View for Request<'a> {
    type V = RequestView;

    open spec fn view(&self) -> RequestView {
        RequestView { procedure: self.procedure, params: self.params@ }
    }
}

impl<'a> Request<'a> {
    /// The request to read the allowlist.
    pub open spec fn spec_allowlist_get() -> Request<'a> {
        Request { procedure: Procedure::AllowlistGet, params: Params::Empty }
    }

    /// The request to make the allowlist hold these players and no others.
    pub open spec fn spec_allowlist_set(players: &'a [Player]) -> Request<'a> {
        Request { procedure: Procedure::AllowlistSet, params: Params::Players(players) }
    }

    /// The request to add these players to the allowlist.
    pub open spec fn spec_allowlist_add(players: &'a [Player]) -> Request<'a> {
        Request { procedure: Procedure::AllowlistAdd, params: Params::Players(players) }
    }

    /// The request to take these players off the allowlist.
    pub open spec fn spec_allowlist_remove(players: &'a [Player]) -> Request<'a> {
        Request { procedure: Procedure::AllowlistRemove, params: Params::Players(players) }
    }

    /// The request to empty the allowlist.
    pub open spec fn spec_allowlist_clear() -> Request<'a> {
        Request { procedure: Procedure::AllowlistClear, params: Params::Empty }
    }

    /// The request to read the bans on players.
    pub open spec fn spec_bans_get() -> Request<'a> {
        Request { procedure: Procedure::BansGet, params: Params::Empty }
    }

    /// The request to make these the bans on players, and no others.
    pub open spec fn spec_bans_set(bans: &'a [UserBan]) -> Request<'a> {
        Request { procedure: Procedure::BansSet, params: Params::UserBans(bans) }
    }

    /// The request to add these bans on players.
    pub open spec fn spec_bans_add(bans: &'a [UserBan]) -> Request<'a> {
        Request { procedure: Procedure::BansAdd, params: Params::UserBans(bans) }
    }

    /// The request to lift the bans on these players, each ban being found by
    /// its player alone.
    pub open spec fn spec_bans_remove(players: &'a [Player]) -> Request<'a> {
        Request { procedure: Procedure::BansRemove, params: Params::Players(players) }
    }

    /// The request to lift every ban on a player.
    pub open spec fn spec_bans_clear() -> Request<'a> {
        Request { procedure: Procedure::BansClear, params: Params::Empty }
    }

    /// The request to read the bans on addresses.
    pub open spec fn spec_ip_bans_get() -> Request<'a> {
        Request { procedure: Procedure::IpBansGet, params: Params::Empty }
    }

    /// The request to make these the bans on addresses, and no others.
    pub open spec fn spec_ip_bans_set(ip_bans: &'a [IPBan]) -> Request<'a> {
        Request { procedure: Procedure::IpBansSet, params: Params::IpBans(ip_bans) }
    }

    /// The request to add these bans on addresses, each named by an address
    /// or by a player.
    pub open spec fn spec_ip_bans_add(incoming_ip_bans: &'a [IncomingIPBan]) -> Request<'a> {
        Request { procedure: Procedure::IpBansAdd, params: Params::IncomingIpBans(incoming_ip_bans) }
    }

    /// The request to lift the bans on these addresses, each ban being found
    /// by its address alone.
    pub open spec fn spec_ip_bans_remove(ips: &'a [String]) -> Request<'a> {
        Request { procedure: Procedure::IpBansRemove, params: Params::Addresses(ips) }
    }

    /// The request to lift every ban on an address.
    pub open spec fn spec_ip_bans_clear() -> Request<'a> {
        Request { procedure: Procedure::IpBansClear, params: Params::Empty }
    }

    /// The request to read the allowlist: the procedure, and nothing with it.
    pub fn allowlist_get() -> (request: Request<'a>)
        ensures
            request == Self::spec_allowlist_get(),
            request@.procedure == Procedure::AllowlistGet,
            request@.params == ParamsView::Empty,
    {
        Request { procedure: Procedure::AllowlistGet, params: Params::Empty }
    }

    /// The request to make the allowlist hold these players and no others:
    /// the procedure, and the list as its one parameter.
    pub fn allowlist_set(players: &'a [Player]) -> (request: Request<'a>)
        ensures
            request == Self::spec_allowlist_set(players),
            request@.procedure == Procedure::AllowlistSet,
            request@.params == ParamsView::Players(players.deep_view()),
    {
        Request { procedure: Procedure::AllowlistSet, params: Params::Players(players) }
    }

    /// The request to add these players to the allowlist: the procedure, and
    /// the list as its one parameter.
    pub fn allowlist_add(players: &'a [Player]) -> (request: Request<'a>)
        ensures
            request == Self::spec_allowlist_add(players),
            request@.procedure == Procedure::AllowlistAdd,
            request@.params == ParamsView::Players(players.deep_view()),
    {
        Request { procedure: Procedure::AllowlistAdd, params: Params::Players(players) }
    }

    /// The request to take these players off the allowlist: the procedure,
    /// and the list as its one parameter.
    pub fn allowlist_remove(players: &'a [Player]) -> (request: Request<'a>)
        ensures
            request == Self::spec_allowlist_remove(players),
            request@.procedure == Procedure::AllowlistRemove,
            request@.params == ParamsView::Players(players.deep_view()),
    {
        Request { procedure: Procedure::AllowlistRemove, params: Params::Players(players) }
    }

    /// The request to empty the allowlist: the procedure, and nothing with
    /// it.
    pub fn allowlist_clear() -> (request: Request<'a>)
        ensures
            request == Self::spec_allowlist_clear(),
            request@.procedure == Procedure::AllowlistClear,
            request@.params == ParamsView::Empty,
    {
        Request { procedure: Procedure::AllowlistClear, params: Params::Empty }
    }

    /// The request to read the bans on players: the procedure, and nothing
    /// with it.
    pub fn bans_get() -> (request: Request<'a>)
        ensures
            request == Self::spec_bans_get(),
            request@.procedure == Procedure::BansGet,
            request@.params == ParamsView::Empty,
    {
        Request { procedure: Procedure::BansGet, params: Params::Empty }
    }

    /// The request to make these the bans on players, and no others: the
    /// procedure, and the list as its one parameter.
    pub fn bans_set(bans: &'a [UserBan]) -> (request: Request<'a>)
        ensures
            request == Self::spec_bans_set(bans),
            request@.procedure == Procedure::BansSet,
            request@.params == ParamsView::UserBans(bans.deep_view()),
    {
        Request { procedure: Procedure::BansSet, params: Params::UserBans(bans) }
    }

    /// The request to add these bans on players: the procedure, and the list
    /// as its one parameter.
    pub fn bans_add(bans: &'a [UserBan]) -> (request: Request<'a>)
        ensures
            request == Self::spec_bans_add(bans),
            request@.procedure == Procedure::BansAdd,
            request@.params == ParamsView::UserBans(bans.deep_view()),
    {
        Request { procedure: Procedure::BansAdd, params: Params::UserBans(bans) }
    }

    /// The request to lift the bans on these players, each ban being found by
    /// its player alone: the procedure, and the list as its one parameter.
    pub fn bans_remove(players: &'a [Player]) -> (request: Request<'a>)
        ensures
            request == Self::spec_bans_remove(players),
            request@.procedure == Procedure::BansRemove,
            request@.params == ParamsView::Players(players.deep_view()),
    {
        Request { procedure: Procedure::BansRemove, params: Params::Players(players) }
    }

    /// The request to lift every ban on a player: the procedure, and nothing
    /// with it.
    pub fn bans_clear() -> (request: Request<'a>)
        ensures
            request == Self::spec_bans_clear(),
            request@.procedure == Procedure::BansClear,
            request@.params == ParamsView::Empty,
    {
        Request { procedure: Procedure::BansClear, params: Params::Empty }
    }

    /// The request to read the bans on addresses: the procedure, and nothing
    /// with it.
    pub fn ip_bans_get() -> (request: Request<'a>)
        ensures
            request == Self::spec_ip_bans_get(),
            request@.procedure == Procedure::IpBansGet,
            request@.params == ParamsView::Empty,
    {
        Request { procedure: Procedure::IpBansGet, params: Params::Empty }
    }

    /// The request to make these the bans on addresses, and no others: the
    /// procedure, and the list as its one parameter.
    pub fn ip_bans_set(ip_bans: &'a [IPBan]) -> (request: Request<'a>)
        ensures
            request == Self::spec_ip_bans_set(ip_bans),
            request@.procedure == Procedure::IpBansSet,
            request@.params == ParamsView::IpBans(ip_bans.deep_view()),
    {
        Request { procedure: Procedure::IpBansSet, params: Params::IpBans(ip_bans) }
    }

    /// The request to add these bans on addresses, each named by an address
    /// or by a player: the procedure, and the list as its one parameter.
    pub fn ip_bans_add(incoming_ip_bans: &'a [IncomingIPBan]) -> (request: Request<'a>)
        ensures
            request == Self::spec_ip_bans_add(incoming_ip_bans),
            request@.procedure == Procedure::IpBansAdd,
            request@.params == ParamsView::IncomingIpBans(incoming_ip_bans.deep_view()),
    {
        Request { procedure: Procedure::IpBansAdd, params: Params::IncomingIpBans(incoming_ip_bans) }
    }

    /// The request to lift the bans on these addresses, each ban being found
    /// by its address alone: the procedure, and the list as its one
    /// parameter.
    pub fn ip_bans_remove(ips: &'a [String]) -> (request: Request<'a>)
        ensures
            request == Self::spec_ip_bans_remove(ips),
            request@.procedure == Procedure::IpBansRemove,
            request@.params == ParamsView::Addresses(ips.deep_view()),
    {
        Request { procedure: Procedure::IpBansRemove, params: Params::Addresses(ips) }
    }

    /// The request to lift every ban on an address: the procedure, and
    /// nothing with it.
    pub fn ip_bans_clear() -> (request: Request<'a>)
        ensures
            request == Self::spec_ip_bans_clear(),
            request@.procedure == Procedure::IpBansClear,
            request@.params == ParamsView::Empty,
    {
        Request { procedure: Procedure::IpBansClear, params: Params::Empty }
    }
}

} // verus!
