use std::str::FromStr;

use minecraft_rpc::BanTarget;
use minecraft_rpc::Error;
use minecraft_rpc::IPBan;
use minecraft_rpc::IncomingIPBan;
use minecraft_rpc::Player;
use minecraft_rpc::UserBan;

#[test]
fn player_from_bare_name_has_no_id() {
    let player = Player::from("Alice");
    assert_eq!(player.name, "Alice");
    assert_eq!(player.id, None);
}

#[test]
fn player_from_empty_name_is_taken() {
    let player = Player::from("");
    assert_eq!(player, Player { name: String::new(), id: None });
}

#[test]
fn player_from_keeps_every_character_of_the_name() {
    let name = " Ünï-cødé \t\n name/with:all ";
    let player = Player::from(name);
    assert_eq!(player.name, name);
    assert_eq!(player.id, None);
}

#[test]
fn player_parses_from_any_string() {
    let parsed: Result<Player, Error> = "Steve".parse();
    assert_eq!(parsed, Ok(Player { name: "Steve".to_string(), id: None }));
    assert_eq!(Player::from_str(""), Ok(Player { name: String::new(), id: None }));
}

#[test]
fn player_into_is_the_same_conversion() {
    let player: Player = "Alex".into();
    assert_eq!(player, Player::from("Alex"));
}

#[test]
fn user_ban_new_leaves_expiry_and_source_unsaid() {
    let ban = UserBan::new("Griefer", Some("griefing".to_string()));
    assert_eq!(ban.player, Player { name: "Griefer".to_string(), id: None });
    assert_eq!(ban.reason, Some("griefing".to_string()));
    assert_eq!(ban.expires, None);
    assert_eq!(ban.source, None);
}

#[test]
fn user_ban_new_without_reason() {
    let ban = UserBan::new("", None);
    assert_eq!(ban.player, Player { name: String::new(), id: None });
    assert_eq!(ban.reason, None);
    assert_eq!(ban.expires, None);
    assert_eq!(ban.source, None);
}

#[test]
fn user_ban_new_keeps_an_empty_reason_as_given() {
    let ban = UserBan::new("Griefer", Some(String::new()));
    assert_eq!(ban.reason, Some(String::new()));
}

#[test]
fn ip_ban_new_leaves_expiry_and_source_unsaid() {
    let ban = IPBan::new("10.0.0.5", Some("flood".to_string()));
    assert_eq!(ban.ip, "10.0.0.5");
    assert_eq!(ban.reason, Some("flood".to_string()));
    assert_eq!(ban.expires, None);
    assert_eq!(ban.source, None);
}

#[test]
fn ip_ban_new_without_reason_takes_any_text_as_address() {
    let ban = IPBan::new("not an address", None);
    assert_eq!(ban.ip, "not an address");
    assert_eq!(ban.reason, None);
    assert_eq!(ban.expires, None);
    assert_eq!(ban.source, None);
}

#[test]
fn incoming_ip_ban_by_address_names_no_player() {
    let ban = IncomingIPBan::new("10.0.0.5", Some("flood".to_string()), true);
    assert_eq!(ban.ip(), Some(&"10.0.0.5".to_string()));
    assert_eq!(ban.player(), None);
    assert_eq!(ban.target, BanTarget::ByAddress("10.0.0.5".to_string()));
    assert_eq!(ban.reason, Some("flood".to_string()));
    assert_eq!(ban.expires, None);
    assert_eq!(ban.source, None);
}

#[test]
fn incoming_ip_ban_by_player_names_no_address() {
    let ban = IncomingIPBan::new("Griefer", None, false);
    assert_eq!(ban.ip(), None);
    assert_eq!(ban.player(), Some(&Player::from("Griefer")));
    assert_eq!(ban.target, BanTarget::ByPlayer(Player { name: "Griefer".to_string(), id: None }));
    assert_eq!(ban.reason, None);
    assert_eq!(ban.expires, None);
    assert_eq!(ban.source, None);
}

#[test]
fn incoming_ip_ban_never_names_both() {
    for item in ["", "10.0.0.5", "Griefer"] {
        for is_ip in [true, false] {
            let ban = IncomingIPBan::new(item, None, is_ip);
            assert_eq!(ban.ip().is_some(), is_ip);
            assert_eq!(ban.player().is_some(), !is_ip);
        }
    }
}

#[test]
fn error_is_reported_under_its_name() {
    assert_eq!(Error.message(), "MinecraftRpcError");
}
