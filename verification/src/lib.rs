//! A typed client for the management interface of a Minecraft server: the
//! records the server exchanges, the request that each operation makes, and
//! the credential a connection presents.

pub mod ban;
pub mod client;
pub mod credential;
pub mod error;
pub mod header;
pub mod message;
pub mod player;
pub mod procedure;
pub mod request;
pub mod rule;
pub mod server;

pub use ban::BanTarget;
pub use ban::BanTargetView;
pub use ban::IncomingIPBan;
pub use ban::IncomingIPBanView;
pub use ban::IPBan;
pub use ban::IPBanView;
pub use ban::UserBan;
pub use ban::UserBanView;
pub use client::ClientTrait;
pub use credential::AUTHORIZATION;
pub use credential::BEARER;
pub use credential::bearer_headers;
pub use error::Error;
pub use message::KickPlayer;
pub use message::KickPlayerView;
pub use message::Message;
pub use message::MessageView;
pub use message::SystemMessage;
pub use message::SystemMessageView;
pub use player::Player;
pub use player::PlayerView;
pub use procedure::Procedure;
pub use request::Params;
pub use request::ParamsView;
pub use request::Request;
pub use request::RequestView;
pub use rule::TypedGameRule;
pub use rule::TypedGameRuleView;
pub use rule::UntypedGameRule;
pub use rule::UntypedGameRuleView;
pub use server::Operator;
pub use server::OperatorView;
pub use server::ServerState;
pub use server::ServerStateView;
pub use server::Version;
pub use server::VersionView;
