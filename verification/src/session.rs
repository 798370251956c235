//! One connection of a game server, from its first message to its end.

use crate::id::{is_uuid_v4, ServerId};
use crate::ip::IpAddr;
use crate::message::{
    connect_view, introduction, list_after, parse_connect_message, parse_game_message, received_as,
    server_view, ConnectMessage, GameMessage, Received,
};
use crate::server::{GameServer, GameServerView};
use crate::server_list::ServerList;
use vstd::prelude::*;

verus! {

/// What comes in on a connection.
#[derive(Clone, Debug, PartialEq, Eq)]
pub enum Event {
    /// A text message, with what it reads as: the message that it is as a first
    /// one, and the message that it is as a later one, if it is any.
    Text { text: String, connect: Option<ConnectMessage>, game: Option<GameMessage> },
    /// The message that closes the connection.
    Close,
    /// A message of any other kind.
    Other,
    /// An error in place of a message.
    Failed,
    /// The end of the connection, without a closing message.
    Lost,
}

/// How far a session has come.
#[derive(Clone, Copy, Debug, PartialEq, Eq)]
pub enum State {
    /// The server has not introduced itself yet.
    Waiting,
    /// The server is listed under this id.
    Listed(ServerId),
    /// Nothing more is to come.
    Over,
}

/// What an event has led to.
#[derive(Debug, PartialEq, Eq)]
pub enum Outcome {
    /// The server has introduced itself, and is listed under this id.
    Created(ServerId),
    /// The first message could not be read, for this reason. The session is
    /// over.
    Rejected(String),
    /// The session is over before the server has introduced itself.
    GivenUp,
    /// A later message has come in.
    Message(Received),
    /// The event is of no use, and the session goes on.
    Ignored,
    /// The session is over, and its server, if it was still listed, is taken
    /// off the list.
    Ended(Option<GameServer>),
    /// The session was over before the event.
    AlreadyOver,
}

/// A session: the address of the client, the address that the list is reached
/// at, and how far the session has come.
#[derive(Clone, Copy, Debug, PartialEq, Eq)]
pub struct Session {
    pub ip: IpAddr,
    pub server_ip: IpAddr,
    pub state: State,
}

/// Whether a waiting session may go on from `before` to `after`, and the list
/// from `servers` to `servers_after`, with that outcome, when what introduced
/// itself is `server`: a server, or the reason why there is none. It settles
/// everything but the id that a new server is listed under.
pub open spec fn introduces(
    before: Session,
    servers: Map<ServerId, GameServer>,
    server: Result<GameServerView, Seq<char>>,
    after: Session,
    servers_after: Map<ServerId, GameServer>,
    outcome: Outcome,
) -> bool {
    match server {
        Ok(server) => {
            &&& outcome matches Outcome::Created(id)
            &&& after == (Session { state: State::Listed(id), ..before })
            &&& is_uuid_v4(id)
            &&& !servers.contains_key(id)
            &&& servers_after == servers.insert(id, servers_after[id])
            &&& servers_after[id]@ == server
        },
        Err(error) => {
            &&& outcome matches Outcome::Rejected(reason)
            &&& reason@ == error
            &&& after == (Session { state: State::Over, ..before })
            &&& servers_after == servers
        },
    }
}

/// Whether `event` may take a session from `before` to `after`, and the list
/// from `servers` to `servers_after`, with that outcome. It settles everything
/// but the id that a new server is listed under.
pub open spec fn steps(
    before: Session,
    servers: Map<ServerId, GameServer>,
    event: Event,
    after: Session,
    servers_after: Map<ServerId, GameServer>,
    outcome: Outcome,
) -> bool {
    match before.state {
        State::Waiting => match event {
            Event::Text { text, connect, .. } => introduces(
                before,
                servers,
                introduction(connect_view(connect), text@, before.ip, before.server_ip),
                after,
                servers_after,
                outcome,
            ),
            _ => {
                &&& outcome == Outcome::GivenUp
                &&& after == (Session { state: State::Over, ..before })
                &&& servers_after == servers
            },
        },
        State::Listed(id) => match event {
            Event::Text { game, .. } => {
                &&& after == before
                &&& servers_after == list_after(servers, id, game)
                &&& outcome == Outcome::Message(received_as(servers, id, game))
            },
            Event::Other => {
                &&& outcome == Outcome::Ignored
                &&& after == before
                &&& servers_after == servers
            },
            _ => {
                &&& outcome == Outcome::Ended(servers.get(id))
                &&& after == (Session { state: State::Over, ..before })
                &&& servers_after == servers.remove(id)
            },
        },
        State::Over => {
            &&& outcome == Outcome::AlreadyOver
            &&& after == before
            &&& servers_after == servers
        },
    }
}

impl Session {
    /// A session with a client at `ip`, on a list that is reached at
    /// `server_ip`. It waits for the server to introduce itself.
    pub fn new(ip: IpAddr, server_ip: IpAddr) -> (session: Session)
        ensures
            session == (Session { ip, server_ip, state: State::Waiting }),
    {
        Session { ip, server_ip, state: State::Waiting }
    }

    /// Tells whether the session is over.
    pub fn is_over(&self) -> (over: bool)
        ensures
            over == (self.state == State::Over),
    {
        match self.state {
            State::Over => true,
            _ => false,
        }
    }

    /// Lists the server that has introduced itself, or ends the session for the
    /// reason that there is none.
    pub fn introduce(
        &mut self,
        server_list: &mut ServerList<GameServer>,
        server: Result<GameServer, String>,
    ) -> (outcome: Outcome)
        requires
            old(self).state == State::Waiting,
        ensures
            introduces(
                *old(self),
                old(server_list)@,
                server_view(server),
                *final(self),
                final(server_list)@,
                outcome,
            ),
    {
        match server {
            Ok(server) => {
                let id = server_list.add(server);
                self.state = State::Listed(id);
                Outcome::Created(id)
            },
            Err(reason) => {
                self.state = State::Over;
                Outcome::Rejected(reason)
            },
        }
    }

    /// Handles what has come in on the connection.
    pub fn step(&mut self, server_list: &mut ServerList<GameServer>, event: Event) -> (outcome:
        Outcome)
        ensures
            steps(
                *old(self),
                old(server_list)@,
                event,
                *final(self),
                final(server_list)@,
                outcome,
            ),
    {
        match self.state {
            State::Waiting => match event {
                Event::Text { text, connect, .. } => {
                    let server = parse_connect_message(connect, text, self.ip, self.server_ip);
                    self.introduce(server_list, server)
                },
                _ => {
                    self.state = State::Over;
                    Outcome::GivenUp
                },
            },
            State::Listed(id) => match event {
                Event::Text { game, .. } => Outcome::Message(
                    parse_game_message(server_list, &id, game),
                ),
                Event::Other => Outcome::Ignored,
                _ => {
                    self.state = State::Over;
                    Outcome::Ended(server_list.remove(&id))
                },
            },
            State::Over => Outcome::AlreadyOver,
        }
    }
}

} // verus!
