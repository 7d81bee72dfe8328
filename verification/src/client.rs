//! The client: one operation for each remote procedure, each of them one
//! call through the transport that the implementor supplies.

use vstd::prelude::*;

use crate::ban::IPBan;
use crate::ban::IncomingIPBan;
use crate::ban::UserBan;
use crate::player::Player;
use crate::request::Request;

verus! {

/// A client of the server. An implementor supplies the transport, which is
/// the three `call_` methods: each sends one request and waits for the list
/// that comes back, or for the failure. The operations are built on them and
/// add nothing of their own. An operation makes one call, with the request
/// that belongs to it, and what the transport gave, the list or the failure,
/// is what the caller gets: the whole list as the server then holds it, not
/// what the operation changed. Nothing is tried again, nothing is made up
/// where a call fails, and nothing is kept from one call to the next.
pub trait ClientTrait {
    /// How a call fails. The operations hand it on as it is.
    type Failure;

    /// Sends a request that is answered with players.
    fn call_players(&self, request: &Request) -> Result<Vec<Player>, Self::Failure>;

    /// Sends a request that is answered with bans on players.
    fn call_user_bans(&self, request: &Request) -> Result<Vec<UserBan>, Self::Failure>;

    /// Sends a request that is answered with bans on addresses.
    fn call_ip_bans(&self, request: &Request) -> Result<Vec<IPBan>, Self::Failure>;

    /// Reads the allowlist. The reply is what the transport gave to that one
    /// request.
    fn allowlist_get(&self) -> (reply: Result<Vec<Player>, Self::Failure>)
        ensures
            call_ensures(Self::call_players, (self, &Request::spec_allowlist_get()), reply),
    {
        let request = Request::allowlist_get();
        self.call_players(&request)
    }

    /// Makes the allowlist hold these players and no others. The reply is
    /// what the transport gave to that one request: the allowlist as the
    /// server then holds it, or the failure.
    fn allowlist_set(&self, players: &[Player]) -> (reply: Result<Vec<Player>, Self::Failure>)
        ensures
            call_ensures(Self::call_players, (self, &Request::spec_allowlist_set(players)), reply),
    {
        let request = Request::allowlist_set(players);
        self.call_players(&request)
    }

    /// Adds these players to the allowlist. The reply is what the transport
    /// gave to that one request: the allowlist as the server then holds it,
    /// or the failure.
    fn allowlist_add(&self, players: &[Player]) -> (reply: Result<Vec<Player>, Self::Failure>)
        ensures
            call_ensures(Self::call_players, (self, &Request::spec_allowlist_add(players)), reply),
    {
        let request = Request::allowlist_add(players);
        self.call_players(&request)
    }

    /// Takes these players off the allowlist. The reply is what the transport
    /// gave to that one request: the allowlist as the server then holds it,
    /// or the failure.
    fn allowlist_remove(&self, players: &[Player]) -> (reply: Result<Vec<Player>, Self::Failure>)
        ensures
            call_ensures(Self::call_players, (self, &Request::spec_allowlist_remove(players)), reply),
    {
        let request = Request::allowlist_remove(players);
        self.call_players(&request)
    }

    /// Empties the allowlist. The reply is what the transport gave to that
    /// one request: the allowlist as the server then holds it, or the
    /// failure.
    fn allowlist_clear(&self) -> (reply: Result<Vec<Player>, Self::Failure>)
        ensures
            call_ensures(Self::call_players, (self, &Request::spec_allowlist_clear()), reply),
    {
        let request = Request::allowlist_clear();
        self.call_players(&request)
    }

    /// Reads the bans on players. The reply is what the transport gave to
    /// that one request.
    fn bans_get(&self) -> (reply: Result<Vec<UserBan>, Self::Failure>)
        ensures
            call_ensures(Self::call_user_bans, (self, &Request::spec_bans_get()), reply),
    {
        let request = Request::bans_get();
        self.call_user_bans(&request)
    }

    /// Makes these the bans on players, and no others. The reply is what the
    /// transport gave to that one request: the bans on players as the server
    /// then holds them, or the failure.
    fn bans_set(&self, bans: &[UserBan]) -> (reply: Result<Vec<UserBan>, Self::Failure>)
        ensures
            call_ensures(Self::call_user_bans, (self, &Request::spec_bans_set(bans)), reply),
    {
        let request = Request::bans_set(bans);
        self.call_user_bans(&request)
    }

    /// Adds these bans on players. The reply is what the transport gave to
    /// that one request: the bans on players as the server then holds them,
    /// or the failure.
    fn bans_add(&self, bans: &[UserBan]) -> (reply: Result<Vec<UserBan>, Self::Failure>)
        ensures
            call_ensures(Self::call_user_bans, (self, &Request::spec_bans_add(bans)), reply),
    {
        let request = Request::bans_add(bans);
        self.call_user_bans(&request)
    }

    /// Lifts the bans on these players. A ban is found by its player alone.
    /// The reply is what the transport gave to that one request: the bans on
    /// players as the server then holds them, or the failure.
    fn bans_remove(&self, players: &[Player]) -> (reply: Result<Vec<UserBan>, Self::Failure>)
        ensures
            call_ensures(Self::call_user_bans, (self, &Request::spec_bans_remove(players)), reply),
    {
        let request = Request::bans_remove(players);
        self.call_user_bans(&request)
    }

    /// Lifts every ban on a player. The reply is what the transport gave to
    /// that one request: the bans on players as the server then holds them,
    /// or the failure.
    fn bans_clear(&self) -> (reply: Result<Vec<UserBan>, Self::Failure>)
        ensures
            call_ensures(Self::call_user_bans, (self, &Request::spec_bans_clear()), reply),
    {
        let request = Request::bans_clear();
        self.call_user_bans(&request)
    }

    /// Reads the bans on addresses. The reply is what the transport gave to
    /// that one request.
    fn ip_bans_get(&self) -> (reply: Result<Vec<IPBan>, Self::Failure>)
        ensures
            call_ensures(Self::call_ip_bans, (self, &Request::spec_ip_bans_get()), reply),
    {
        let request = Request::ip_bans_get();
        self.call_ip_bans(&request)
    }

    /// Makes these the bans on addresses, and no others. The reply is what
    /// the transport gave to that one request: the bans on addresses as the
    /// server then holds them, or the failure.
    fn ip_bans_set(&self, ip_bans: &[IPBan]) -> (reply: Result<Vec<IPBan>, Self::Failure>)
        ensures
            call_ensures(Self::call_ip_bans, (self, &Request::spec_ip_bans_set(ip_bans)), reply),
    {
        let request = Request::ip_bans_set(ip_bans);
        self.call_ip_bans(&request)
    }

    /// Adds these bans on addresses, each named by an address or by a player.
    /// The reply is what the transport gave to that one request: the bans on
    /// addresses as the server then holds them, or the failure.
    fn ip_bans_add(&self, incoming_ip_bans: &[IncomingIPBan]) -> (reply: Result<Vec<IPBan>, Self::Failure>)
        ensures
            call_ensures(Self::call_ip_bans, (self, &Request::spec_ip_bans_add(incoming_ip_bans)), reply),
    {
        let request = Request::ip_bans_add(incoming_ip_bans);
        self.call_ip_bans(&request)
    }

    /// Lifts the bans on these addresses. A ban is found by its address
    /// alone. The reply is what the transport gave to that one request: the
    /// bans on addresses as the server then holds them, or the failure.
    fn ip_bans_remove(&self, ips: &[String]) -> (reply: Result<Vec<IPBan>, Self::Failure>)
        ensures
            call_ensures(Self::call_ip_bans, (self, &Request::spec_ip_bans_remove(ips)), reply),
    {
        let request = Request::ip_bans_remove(ips);
        self.call_ip_bans(&request)
    }

    /// Lifts every ban on an address. The reply is what the transport gave to
    /// that one request: the bans on addresses as the server then holds them,
    /// or the failure.
    fn ip_bans_clear(&self) -> (reply: Result<Vec<IPBan>, Self::Failure>)
        ensures
            call_ensures(Self::call_ip_bans, (self, &Request::spec_ip_bans_clear()), reply),
    {
        let request = Request::ip_bans_clear();
        self.call_ip_bans(&request)
    }
}

} // verus!
