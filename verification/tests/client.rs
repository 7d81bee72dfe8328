use std::cell::RefCell;

use minecraft_rpc::ClientTrait;
use minecraft_rpc::IPBan;
use minecraft_rpc::IncomingIPBan;
use minecraft_rpc::Params;
use minecraft_rpc::Player;
use minecraft_rpc::Procedure;
use minecraft_rpc::Request;
use minecraft_rpc::UserBan;

/// What a request held, copied out of it.
#[derive(Debug, Clone, PartialEq)]
enum Sent {
    Empty,
    Players(Vec<Player>),
    UserBans(Vec<UserBan>),
    IpBans(Vec<IPBan>),
    IncomingIpBans(Vec<IncomingIPBan>),
    Addresses(Vec<String>),
}

fn sent(params: &Params) -> Sent {
    match params {
        Params::Empty => Sent::Empty,
        Params::Players(players) => Sent::Players(players.to_vec()),
        Params::UserBans(bans) => Sent::UserBans(bans.to_vec()),
        Params::IpBans(bans) => Sent::IpBans(bans.to_vec()),
        Params::IncomingIpBans(bans) => Sent::IncomingIpBans(bans.to_vec()),
        Params::Addresses(ips) => Sent::Addresses(ips.to_vec()),
    }
}

/// A transport that sends nothing: it notes each request and answers with
/// what it was told to answer.
struct Double {
    calls: RefCell<Vec<(Procedure, &'static str, Sent)>>,
    players: Result<Vec<Player>, String>,
    user_bans: Result<Vec<UserBan>, String>,
    ip_bans: Result<Vec<IPBan>, String>,
}

impl Double {
    fn new() -> Double {
        Double {
            calls: RefCell::new(Vec::new()),
            players: Ok(Vec::new()),
            user_bans: Ok(Vec::new()),
            ip_bans: Ok(Vec::new()),
        }
    }

    fn note(&self, request: &Request) {
        self.calls.borrow_mut().push((
            request.procedure,
            request.procedure.name(),
            sent(&request.params),
        ));
    }

    fn only_call(&self) -> (Procedure, &'static str, Sent) {
        let calls = self.calls.borrow();
        assert_eq!(calls.len(), 1);
        calls[0].clone()
    }
}

impl ClientTrait for Double {
    type Failure = String;

    fn call_players(&self, request: &Request) -> Result<Vec<Player>, String> {
        self.note(request);
        self.players.clone()
    }

    fn call_user_bans(&self, request: &Request) -> Result<Vec<UserBan>, String> {
        self.note(request);
        self.user_bans.clone()
    }

    fn call_ip_bans(&self, request: &Request) -> Result<Vec<IPBan>, String> {
        self.note(request);
        self.ip_bans.clone()
    }
}

fn alice() -> Player {
    Player { name: "Alice".to_string(), id: None }
}

fn bob() -> Player {
    Player { name: "Bob".to_string(), id: Some("0c3f-17".to_string()) }
}

#[test]
fn allowlist_add_calls_its_procedure_and_returns_the_reply_unmodified() {
    let mut double = Double::new();
    double.players = Ok(vec![bob(), alice()]);
    let reply = double.allowlist_add(&[alice()]);
    let (procedure, name, params) = double.only_call();
    assert_eq!(procedure, Procedure::AllowlistAdd);
    assert_eq!(name, "allowlist/add");
    assert_eq!(params, Sent::Players(vec![Player { name: "Alice".to_string(), id: None }]));
    assert_eq!(reply, Ok(vec![bob(), alice()]));
}

#[test]
fn ip_bans_remove_sends_the_bare_addresses() {
    let double = Double::new();
    let reply = double.ip_bans_remove(&["10.0.0.5".to_string()]);
    let (procedure, name, params) = double.only_call();
    assert_eq!(procedure, Procedure::IpBansRemove);
    assert_eq!(name, "ip_bans/remove");
    assert_eq!(params, Sent::Addresses(vec!["10.0.0.5".to_string()]));
    assert_eq!(reply, Ok(Vec::new()));
}

#[test]
fn bans_clear_hands_on_the_failure_of_the_transport() {
    let mut double = Double::new();
    double.user_bans = Err("connection reset".to_string());
    let reply = double.bans_clear();
    let (procedure, name, params) = double.only_call();
    assert_eq!(procedure, Procedure::BansClear);
    assert_eq!(name, "bans/clear");
    assert_eq!(params, Sent::Empty);
    assert_eq!(reply, Err("connection reset".to_string()));
}

fn griefer_ban() -> UserBan {
    UserBan::new("Griefer", Some("griefing".to_string()))
}

fn address_ban() -> IPBan {
    IPBan {
        ip: "10.0.0.5".to_string(),
        reason: None,
        expires: Some("never".to_string()),
        source: Some("console".to_string()),
    }
}

#[test]
fn every_allowlist_operation_makes_its_one_call() {
    let players = vec![alice(), bob()];
    let mut double = Double::new();
    double.players = Ok(vec![bob()]);
    assert_eq!(double.allowlist_get(), Ok(vec![bob()]));
    assert_eq!(double.allowlist_set(&players), Ok(vec![bob()]));
    assert_eq!(double.allowlist_add(&players), Ok(vec![bob()]));
    assert_eq!(double.allowlist_remove(&players), Ok(vec![bob()]));
    assert_eq!(double.allowlist_clear(), Ok(vec![bob()]));
    let calls = double.calls.borrow();
    assert_eq!(
        *calls,
        vec![
            (Procedure::AllowlistGet, "allowlist", Sent::Empty),
            (Procedure::AllowlistSet, "allowlist/set", Sent::Players(players.clone())),
            (Procedure::AllowlistAdd, "allowlist/add", Sent::Players(players.clone())),
            (Procedure::AllowlistRemove, "allowlist/remove", Sent::Players(players.clone())),
            (Procedure::AllowlistClear, "allowlist/clear", Sent::Empty),
        ]
    );
}

#[test]
fn every_bans_operation_makes_its_one_call() {
    let bans = vec![griefer_ban()];
    let players = vec![alice()];
    let mut double = Double::new();
    double.user_bans = Ok(vec![griefer_ban(), griefer_ban()]);
    let held = Ok(vec![griefer_ban(), griefer_ban()]);
    assert_eq!(double.bans_get(), held);
    assert_eq!(double.bans_set(&bans), held);
    assert_eq!(double.bans_add(&bans), held);
    assert_eq!(double.bans_remove(&players), held);
    assert_eq!(double.bans_clear(), held);
    let calls = double.calls.borrow();
    assert_eq!(
        *calls,
        vec![
            (Procedure::BansGet, "bans", Sent::Empty),
            (Procedure::BansSet, "bans/set", Sent::UserBans(bans.clone())),
            (Procedure::BansAdd, "bans/add", Sent::UserBans(bans.clone())),
            (Procedure::BansRemove, "bans/remove", Sent::Players(players.clone())),
            (Procedure::BansClear, "bans/clear", Sent::Empty),
        ]
    );
}

#[test]
fn every_ip_bans_operation_makes_its_one_call() {
    let bans = vec![address_ban()];
    let incoming = vec![
        IncomingIPBan::new("10.0.0.5", None, true),
        IncomingIPBan::new("Griefer", Some("flood".to_string()), false),
    ];
    let ips = vec!["10.0.0.5".to_string()];
    let mut double = Double::new();
    double.ip_bans = Ok(vec![address_ban()]);
    let held = Ok(vec![address_ban()]);
    assert_eq!(double.ip_bans_get(), held);
    assert_eq!(double.ip_bans_set(&bans), held);
    assert_eq!(double.ip_bans_add(&incoming), held);
    assert_eq!(double.ip_bans_remove(&ips), held);
    assert_eq!(double.ip_bans_clear(), held);
    let calls = double.calls.borrow();
    assert_eq!(
        *calls,
        vec![
            (Procedure::IpBansGet, "ip_bans", Sent::Empty),
            (Procedure::IpBansSet, "ip_bans/set", Sent::IpBans(bans.clone())),
            (Procedure::IpBansAdd, "ip_bans/add", Sent::IncomingIpBans(incoming.clone())),
            (Procedure::IpBansRemove, "ip_bans/remove", Sent::Addresses(ips.clone())),
            (Procedure::IpBansClear, "ip_bans/clear", Sent::Empty),
        ]
    );
}

#[test]
fn the_reply_is_the_whole_list_and_not_what_was_sent() {
    let mut double = Double::new();
    double.players = Ok(vec![bob()]);
    assert_eq!(double.allowlist_add(&[alice()]), Ok(vec![bob()]));
    double.players = Ok(Vec::new());
    assert_eq!(double.allowlist_add(&[alice()]), Ok(Vec::new()));
}

#[test]
fn a_failure_is_handed_on_by_every_kind_of_operation() {
    let mut double = Double::new();
    double.players = Err("rejected".to_string());
    double.user_bans = Err("malformed".to_string());
    double.ip_bans = Err("closed".to_string());
    assert_eq!(double.allowlist_set(&[alice()]), Err("rejected".to_string()));
    assert_eq!(double.bans_add(&[griefer_ban()]), Err("malformed".to_string()));
    assert_eq!(double.ip_bans_get(), Err("closed".to_string()));
    assert_eq!(double.calls.borrow().len(), 3);
}
