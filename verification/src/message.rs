//! The messages that game servers send, and what they make of the list.

use crate::id::ServerId;
use crate::ip::{is_local_ipv4, local_ipv4, IpAddr};
use crate::server::{GameServer, GameServerView};
use crate::server_list::ServerList;
use crate::text::{quote, quoted};
use vstd::prelude::*;

verus! {

/// The first message on a connection, in which a game server introduces
/// itself. Servers that know nothing of TLS send the first version, which
/// leaves `tls` out.
#[derive(Clone, Debug, PartialEq, Eq)]
pub enum ConnectMessage {
    V1 { name: String, port: u16 },
    V2 { name: String, tls: bool, port: u16 },
}

/// What a [`ConnectMessage`] stands for.
pub enum ConnectMessageView {
    V1 { name: Seq<char>, port: u16 },
    V2 { name: Seq<char>, tls: bool, port: u16 },
}

impl View for ConnectMessage {
    type V = ConnectMessageView;

    open spec fn view(&self) -> ConnectMessageView {
        match self {
            ConnectMessage::V1 { name, port } => ConnectMessageView::V1 {
                name: name@,
                port: *port,
            },
            ConnectMessage::V2 { name, tls, port } => ConnectMessageView::V2 {
                name: name@,
                tls: *tls,
                port: *port,
            },
        }
    }
}

/// The game server that introduces itself with `message` from the address
/// `ip`. A client at a private address runs next to the list, so its server is
/// an official one, and is reached at the list's own address `server_ip`.
pub open spec fn introduced_server(
    message: ConnectMessageView,
    ip: IpAddr,
    server_ip: IpAddr,
) -> GameServerView {
    let official = local_ipv4(ip);
    let ip = if official {
        server_ip
    } else {
        ip
    };
    match message {
        ConnectMessageView::V1 { name, port } => GameServerView {
            name,
            ip,
            tls: false,
            port,
            official,
            players: 0,
        },
        ConnectMessageView::V2 { name, tls, port } => GameServerView {
            name,
            ip,
            tls,
            port,
            official,
            players: 0,
        },
    }
}

impl ConnectMessage {
    /// Makes the game server that introduces itself with this message from the
    /// address `ip`, on a list that is reached at `server_ip`.
    pub fn into_server(self, ip: IpAddr, server_ip: IpAddr) -> (server: GameServer)
        ensures
            server@ == introduced_server(self@, ip, server_ip),
            self matches ConnectMessage::V1 { name, port } ==> server.name == name && !server.tls
                && server.port == port,
            self matches ConnectMessage::V2 { name, tls, port } ==> server.name == name
                && server.tls == tls && server.port == port,
            server.official == local_ipv4(ip),
            server.ip == if local_ipv4(ip) {
                server_ip
            } else {
                ip
            },
            server.players == 0,
    {
        let official = is_local_ipv4(ip);
        let ip = if official {
            server_ip
        } else {
            ip
        };
        match self {
            ConnectMessage::V1 { name, port } => GameServer::new(name, ip, false, port, official),
            ConnectMessage::V2 { name, tls, port } => GameServer::new(
                name,
                ip,
                tls,
                port,
                official,
            ),
        }
    }
}

/// What is said of a first message that cannot be read.
pub open spec fn connect_error(text: Seq<char>) -> Seq<char> {
    "failed to parse ConnectMessage from JSON data: "@ + quoted(text)
}

/// What an optional [`ConnectMessage`] stands for.
pub open spec fn connect_view(message: Option<ConnectMessage>) -> Option<ConnectMessageView> {
    match message {
        Some(message) => Some(message@),
        None => None,
    }
}

/// What introduces itself from `ip`, on a list that is reached at `server_ip`,
/// with the text `txt` that reads as `message`: a server, or the reason why
/// there is none.
pub open spec fn introduction(
    message: Option<ConnectMessageView>,
    txt: Seq<char>,
    ip: IpAddr,
    server_ip: IpAddr,
) -> Result<GameServerView, Seq<char>> {
    match message {
        Some(message) => Ok(introduced_server(message, ip, server_ip)),
        None => Err(connect_error(txt)),
    }
}

/// What a server, or the reason why there is none, stands for.
pub open spec fn server_view(server: Result<GameServer, String>) -> Result<
    GameServerView,
    Seq<char>,
> {
    match server {
        Ok(server) => Ok(server@),
        Err(reason) => Err(reason@),
    }
}

/// Takes the first message on a connection from `ip`: the text `txt`, and the
/// message that it reads as, if it does. Gives the game server that introduces
/// itself, or what is wrong with the text.
pub fn parse_connect_message(
    message: Option<ConnectMessage>,
    txt: String,
    ip: IpAddr,
    server_ip: IpAddr,
) -> (server: Result<GameServer, String>)
    ensures
        server_view(server) == introduction(connect_view(message), txt@, ip, server_ip),
        message is Some <==> server is Ok,
        message matches Some(ConnectMessage::V1 { name, port }) ==> {
            &&& server->Ok_0.name == name
            &&& !server->Ok_0.tls
            &&& server->Ok_0.port == port
        },
        message matches Some(ConnectMessage::V2 { name, tls, port }) ==> {
            &&& server->Ok_0.name == name
            &&& server->Ok_0.tls == tls
            &&& server->Ok_0.port == port
        },
        server matches Ok(server) ==> {
            &&& server.official == local_ipv4(ip)
            &&& server.ip == if local_ipv4(ip) {
                server_ip
            } else {
                ip
            }
            &&& server.players == 0
        },
        server matches Err(error) ==> error@ == "failed to parse ConnectMessage from JSON data: "@
            + quoted(txt@),
{
    match message {
        Some(message) => Ok(message.into_server(ip, server_ip)),
        None => {
            let mut error = "failed to parse ConnectMessage from JSON data: ".to_string();
            error.append(quote(txt.as_str()).as_str());
            Err(error)
        },
    }
}

/// A later message on a connection.
#[derive(Clone, Copy, Debug, PartialEq, Eq)]
pub enum GameMessage {
    /// The number of players on the server.
    Status { players: u8 },
}

/// The list after the server with this id has sent `message`: its player count
/// is the one told, and nothing else changes. Neither a message that could not
/// be read, `None`, nor one from a server that is not listed changes anything.
pub open spec fn list_after(
    servers: Map<ServerId, GameServer>,
    id: ServerId,
    message: Option<GameMessage>,
) -> Map<ServerId, GameServer> {
    match message {
        Some(GameMessage::Status { players }) if servers.contains_key(id) => servers.insert(
            id,
            GameServer { players, ..servers[id] },
        ),
        _ => servers,
    }
}

impl GameMessage {
    /// Enters what the server with this id has told, and says whether it is
    /// listed.
    pub fn apply(self, server_list: &mut ServerList<GameServer>, server_id: &ServerId) -> (listed:
        bool)
        ensures
            listed == old(server_list)@.contains_key(*server_id),
            final(server_list)@ == list_after(old(server_list)@, *server_id, Some(self)),
    {
        match self {
            GameMessage::Status { players } => {
                let set_players = |server: &mut GameServer|
                    ensures
                        *final(server) == (GameServer { players, ..*old(server) }),
                {
                    server.players = players;
                };
                server_list.update(server_id, set_players)
            },
        }
    }
}

/// What became of a message from a listed server.
#[derive(Clone, Copy, Debug, PartialEq, Eq)]
pub enum Received {
    /// The list holds what it told.
    Updated,
    /// It could be read, but the server is not listed.
    NotListed,
    /// It could not be read.
    Unreadable,
}

/// What becomes of `message`, or of one that could not be read, from the server
/// with this id.
pub open spec fn received_as(
    servers: Map<ServerId, GameServer>,
    id: ServerId,
    message: Option<GameMessage>,
) -> Received {
    if message is None {
        Received::Unreadable
    } else if servers.contains_key(id) {
        Received::Updated
    } else {
        Received::NotListed
    }
}

/// Takes a later message of the server with this id, and enters what it tells.
/// With `None` for a text that reads as no message, nothing changes.
pub fn parse_game_message(
    server_list: &mut ServerList<GameServer>,
    server_id: &ServerId,
    message: Option<GameMessage>,
) -> (received: Received)
    ensures
        final(server_list)@ == list_after(old(server_list)@, *server_id, message),
        received == received_as(old(server_list)@, *server_id, message),
{
    match message {
        Some(message) => if message.apply(server_list, server_id) {
            Received::Updated
        } else {
            Received::NotListed
        },
        None => Received::Unreadable,
    }
}

} // verus!
