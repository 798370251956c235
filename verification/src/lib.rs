//! A list of running game servers, kept up to date by the servers themselves.
//!
//! A game server opens a connection, names itself in a first JSON message and
//! reports its player count in later ones. It stays on the list until the
//! connection ends. Whoever looks for a game asks for the list, or a page of it.
//!
//! - [`ServerList`] holds the servers, each under an id of its own.
//! - [`parse_connect_message`] and [`parse_game_message`] take the messages.
//! - [`Session`] decides what each event on a connection does to the list.
//! - [`monitor`] decides what a connection that is only watched reports.

pub mod id;
pub mod ip;
pub mod laws;
pub mod message;
pub mod monitor;
pub mod pagination;
pub mod server;
pub mod server_list;
pub mod session;
pub mod text;

pub use ip::{is_local_ipv4, IpAddr, Ipv4Addr, Ipv6Addr};
pub use message::{
    parse_connect_message, parse_game_message, ConnectMessage, GameMessage, Received,
};
pub use pagination::Pagination;
pub use server::{GameServer, ServerEntry};
pub use server_list::ServerList;
pub use session::{Event, Outcome, Session, State};
