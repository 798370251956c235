//! What is known of a server.

use crate::ip::IpAddr;
use vstd::prelude::*;

verus! {

/// A server of which only its name, its address and its player count are
/// known.
#[derive(Clone, Debug)]
pub struct ServerEntry {
    pub name: String,
    pub ip: IpAddr,
    pub players: u8,
}

impl ServerEntry {
    /// An entry for the server of that name at that address, with no players
    /// on it yet.
    pub fn new(name: String, ip: IpAddr) -> (entry: ServerEntry)
        ensures
            entry == (ServerEntry { name, ip, players: 0 }),
    {
        ServerEntry { name, ip, players: 0 }
    }
}

/// A game server that players can join: where it listens, whether it does so
/// with TLS, and whether it is an official one, run next to the list itself.
#[derive(Clone, Debug, PartialEq, Eq)]
pub struct GameServer {
    pub name: String,
    pub ip: IpAddr,
    pub tls: bool,
    pub port: u16,
    pub official: bool,
    pub players: u8,
}

/// What a [`GameServer`] stands for.
pub struct GameServerView {
    pub name: Seq<char>,
    pub ip: IpAddr,
    pub tls: bool,
    pub port: u16,
    pub official: bool,
    pub players: u8,
}

impl View for GameServer {
    type V = GameServerView;

    open spec fn view(&self) -> GameServerView {
        GameServerView {
            name: self.name@,
            ip: self.ip,
            tls: self.tls,
            port: self.port,
            official: self.official,
            players: self.players,
        }
    }
}

impl GameServer {
    /// A game server with no players on it yet.
    pub fn new(name: String, ip: IpAddr, tls: bool, port: u16, official: bool) -> (server:
        GameServer)
        ensures
            server == (GameServer { name, ip, tls, port, official, players: 0 }),
    {
        GameServer { name, ip, tls, port, official, players: 0 }
    }
}

} // verus!
