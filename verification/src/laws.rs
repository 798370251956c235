//! What holds of the list over several calls, and over whole sessions.

use crate::id::ServerId;
use crate::ip::{local_ipv4, IpAddr};
use crate::message::{
    introduced_server, introduction, list_after, ConnectMessage, ConnectMessageView, GameMessage,
    Received,
};
use crate::pagination::Pagination;
use crate::server::{GameServer, GameServerView};
use crate::server_list::{is_listing, servers_in};
use crate::session::{steps, Event, Outcome, Session, State};
use crate::text::quoted;
use vstd::prelude::*;

verus! {

/// Taking a server off the list undoes listing it: the server comes back, and
/// the list is what it was.
pub proof fn law_remove_undoes_add<S>(servers: Map<ServerId, S>, id: ServerId, server: S)
    requires
        !servers.contains_key(id),
    ensures
        servers.insert(id, server).get(id) == Some(server),
        servers.insert(id, server).remove(id) == servers,
{
    assert(servers.insert(id, server).remove(id) =~= servers);
}

/// Asked for by default, the list is given whole: whatever order the servers are
/// listed in, there are as many entries as servers, and each server has an entry
/// of its own.
pub proof fn law_every_server_is_given_once<S>(order: Seq<ServerId>, servers: Map<ServerId, S>)
    requires
        is_listing(order, servers),
    ensures
        (Pagination { offset: None, limit: None }).page(servers_in(order, servers)).len()
            == servers.len(),
        forall|id: ServerId| #[trigger]
            servers.contains_key(id) ==> exists|i: int|
                0 <= i < order.len() && #[trigger] order[i] == id && (Pagination {
                    offset: None,
                    limit: None,
                }).page(servers_in(order, servers))[i] == servers[id],
        forall|i: int, j: int| 0 <= i < j < order.len() ==> order[i] != order[j],
{
    assert forall|id: ServerId| #[trigger] servers.contains_key(id) implies exists|i: int|
        0 <= i < order.len() && #[trigger] order[i] == id && (Pagination {
            offset: None,
            limit: None,
        }).page(servers_in(order, servers))[i] == servers[id] by {
        assert(order.to_set().contains(id));
        let i = choose|i: int| 0 <= i < order.len() && order[i] == id;
        assert(order[i] == id);
    }
}

/// A listing goes through the servers that there are and no others, and a page of
/// it holds, place by place, the servers from the offset on, as many as the limit
/// and the number of servers allow.
pub proof fn law_page_holds_listed_servers<S>(
    order: Seq<ServerId>,
    servers: Map<ServerId, S>,
    offset: usize,
    limit: usize,
)
    requires
        is_listing(order, servers),
    ensures
        order.len() == servers.len(),
        forall|i: int| 0 <= i < order.len() ==> servers.contains_key(#[trigger] order[i]),
        ({
            let page = (Pagination { offset: Some(offset), limit: Some(limit) }).page(
                servers_in(order, servers),
            );
            &&& page.len() == if offset + limit <= servers.len() {
                limit as int
            } else if offset <= servers.len() {
                servers.len() - offset
            } else {
                0
            }
            &&& forall|i: int|
                0 <= i < page.len() ==> #[trigger] page[i] == servers[order[offset + i]]
        }),
{
    assert forall|i: int| 0 <= i < order.len() implies servers.contains_key(#[trigger] order[i]) by {
        assert(order.to_set().contains(order[i]));
    }
}

/// In whatever order the servers are listed, the listing holds the same servers,
/// each as often.
pub proof fn law_listings_agree<S>(
    o1: Seq<ServerId>,
    o2: Seq<ServerId>,
    servers: Map<ServerId, S>,
)
    requires
        is_listing(o1, servers),
        is_listing(o2, servers),
    ensures
        servers_in(o1, servers).to_multiset() == servers_in(o2, servers).to_multiset(),
    decreases o1.len(),
{
    broadcast use vstd::seq_lib::group_to_multiset_ensures;

    if o1.len() > 0 {
        let id = o1.last();
        assert(o1.to_set().contains(id));
        assert(o2.to_set().contains(id));
        let i = choose|i: int| 0 <= i < o2.len() && o2[i] == id;
        let rest = servers.remove(id);
        lemma_shorter_listing(o1, servers, o1.len() - 1);
        lemma_shorter_listing(o2, servers, i);
        law_listings_agree(o1.remove(o1.len() - 1), o2.remove(i), rest);
        lemma_servers_in_remove(o1, servers, o1.len() - 1);
        lemma_servers_in_remove(o2, servers, i);
        assert(servers_in(o1, servers).to_multiset() =~= servers_in(o2, servers).to_multiset());
    } else {
        assert(servers_in(o1, servers) =~= servers_in(o2, servers));
    }
}

/// A listing without its `i`th id lists the servers without that one.
proof fn lemma_shorter_listing<S>(order: Seq<ServerId>, servers: Map<ServerId, S>, i: int)
    requires
        is_listing(order, servers),
        0 <= i < order.len(),
    ensures
        is_listing(order.remove(i), servers.remove(order[i])),
{
    let id = order[i];
    let shorter = order.remove(i);
    order.unique_seq_to_set();
    assert(order.to_set().contains(id));
    assert(shorter.to_set() =~= servers.remove(id).dom()) by {
        assert forall|other: ServerId| servers.remove(id).dom().contains(other) implies shorter.contains(
            other,
        ) by {
            assert(order.to_set().contains(other));
            let j = choose|j: int| 0 <= j < order.len() && order[j] == other;
            assert(shorter[if j < i { j } else { j - 1 }] == other);
        }
        assert forall|other: ServerId| shorter.contains(other) implies servers.remove(
            id,
        ).dom().contains(other) by {
            let j = choose|j: int| 0 <= j < shorter.len() && shorter[j] == other;
            assert(order[if j < i { j } else { j + 1 }] == other);
            assert(order.to_set().contains(other));
        }
    }
}

/// The servers of a listing without its `i`th id are those of the listing
/// without the `i`th.
proof fn lemma_servers_in_remove<S>(order: Seq<ServerId>, servers: Map<ServerId, S>, i: int)
    requires
        is_listing(order, servers),
        0 <= i < order.len(),
    ensures
        servers_in(order, servers).to_multiset() == servers_in(
            order.remove(i),
            servers.remove(order[i]),
        ).to_multiset().insert(servers[order[i]]),
{
    broadcast use vstd::seq_lib::group_to_multiset_ensures;

    let all = servers_in(order, servers);
    let rest = servers_in(order.remove(i), servers.remove(order[i]));
    assert(all.remove(i) =~= rest);
    assert(all.to_multiset() =~= rest.to_multiset().insert(all[i])) by {
        assert(all.contains(all[i]));
    }
}

/// A server is official exactly where its client has a private IPv4 address. An
/// official server is reached at the list's own address, any other one at its
/// client's.
pub proof fn law_official_servers(message: ConnectMessageView, ip: IpAddr, server_ip: IpAddr)
    ensures
        introduced_server(message, ip, server_ip).official == local_ipv4(ip),
        introduced_server(message, ip, server_ip).ip == (if local_ipv4(ip) {
            server_ip
        } else {
            ip
        }),
{
}

/// A server is listed as it introduces itself: its name and its port are those in
/// the message, whatever they are, it has TLS exactly where a message of the
/// second version says so, and no players yet.
pub proof fn law_servers_are_listed_as_introduced(
    message: ConnectMessage,
    ip: IpAddr,
    server_ip: IpAddr,
)
    ensures
        message matches ConnectMessage::V1 { name, port } ==> {
            &&& introduced_server(message@, ip, server_ip).name == name@
            &&& introduced_server(message@, ip, server_ip).port == port
            &&& !introduced_server(message@, ip, server_ip).tls
        },
        message matches ConnectMessage::V2 { name, tls, port } ==> {
            &&& introduced_server(message@, ip, server_ip).name == name@
            &&& introduced_server(message@, ip, server_ip).port == port
            &&& introduced_server(message@, ip, server_ip).tls == tls
        },
        introduced_server(message@, ip, server_ip).players == 0,
{
}

/// What stands for a game server tells all of it, and nothing else: two servers
/// stand for the same exactly where they agree in everything.
pub proof fn law_views_tell_servers_apart(server: GameServer, other: GameServer)
    ensures
        server@ == other@ <==> {
            &&& server.name@ == other.name@
            &&& server.ip == other.ip
            &&& server.tls == other.tls
            &&& server.port == other.port
            &&& server.official == other.official
            &&& server.players == other.players
        },
        server@.name == server.name@,
        server@.port == server.port,
        server@.players == server.players,
{
}

/// What is said of a first message that cannot be read ends with the text itself,
/// in quotes. What comes before is the same for every text.
pub proof fn law_error_quotes_the_text(txt: Seq<char>, ip: IpAddr, server_ip: IpAddr)
    ensures
        ({
            let words = "failed to parse ConnectMessage from JSON data: "@;
            &&& introduction(None, txt, ip, server_ip) is Err
            &&& introduction(None, txt, ip, server_ip)->Err_0.len() == words.len() + quoted(
                txt,
            ).len()
            &&& introduction(None, txt, ip, server_ip)->Err_0.take(words.len() as int) =~= words
            &&& introduction(None, txt, ip, server_ip)->Err_0.skip(words.len() as int) =~= quoted(
                txt,
            )
        }),
{
}

/// A message of the first version says what one of the second version says that
/// rules TLS out.
pub proof fn law_first_version_has_no_tls(
    name: Seq<char>,
    port: u16,
    ip: IpAddr,
    server_ip: IpAddr,
)
    ensures
        introduced_server(ConnectMessageView::V1 { name, port }, ip, server_ip)
            == introduced_server(
            ConnectMessageView::V2 { name, tls: false, port },
            ip,
            server_ip,
        ),
{
}

/// A message from a listed server makes its player count the one told, whatever
/// it is, and keeps all else that is known of it. No other server changes, and
/// none comes or goes. Without a message, or from a server that is not listed,
/// nothing changes.
pub proof fn law_message_changes_players_alone(
    servers: Map<ServerId, GameServer>,
    id: ServerId,
    message: Option<GameMessage>,
    other: ServerId,
)
    ensures
        list_after(servers, id, message).dom() == servers.dom(),
        other != id ==> list_after(servers, id, message)[other] == servers[other],
        servers.contains_key(id) ==> {
            let entry = list_after(servers, id, message)[id];
            &&& entry.name == servers[id].name
            &&& entry.ip == servers[id].ip
            &&& entry.tls == servers[id].tls
            &&& entry.port == servers[id].port
            &&& entry.official == servers[id].official
            &&& message matches Some(GameMessage::Status { players }) ==> entry.players == players
        },
        message is None || !servers.contains_key(id) ==> list_after(servers, id, message)
            == servers,
{
    assert(list_after(servers, id, message).dom() =~= servers.dom());
}

/// Of two messages from one server the second counts.
pub proof fn law_last_message_counts(
    servers: Map<ServerId, GameServer>,
    id: ServerId,
    first: GameMessage,
    second: GameMessage,
)
    ensures
        list_after(list_after(servers, id, Some(first)), id, Some(second)) == list_after(
            servers,
            id,
            Some(second),
        ),
{
    assert(list_after(list_after(servers, id, Some(first)), id, Some(second)) =~= list_after(
        servers,
        id,
        Some(second),
    ));
}

/// A session touches no server but its own.
pub proof fn law_session_keeps_to_its_server(
    before: Session,
    servers: Map<ServerId, GameServer>,
    event: Event,
    after: Session,
    servers_after: Map<ServerId, GameServer>,
    outcome: Outcome,
    other: ServerId,
)
    requires
        steps(before, servers, event, after, servers_after, outcome),
        before.state != State::Listed(other),
        after.state != State::Listed(other),
    ensures
        servers_after.get(other) == servers.get(other),
{
}

/// Whatever ends the connection, the closing message, an error or its loss, ends
/// the session of a listed server, takes that server off the list and no other,
/// and hands it out. The addresses play no part in it.
pub proof fn law_end_of_connection_ends_the_session(
    before: Session,
    servers: Map<ServerId, GameServer>,
    event: Event,
    after: Session,
    servers_after: Map<ServerId, GameServer>,
    outcome: Outcome,
    id: ServerId,
    other: ServerId,
)
    requires
        steps(before, servers, event, after, servers_after, outcome),
        before.state == State::Listed(id),
        event is Close || event is Failed || event is Lost,
    ensures
        after.state == State::Over,
        !servers_after.contains_key(id),
        other != id ==> servers_after.get(other) == servers.get(other),
        outcome is Ended,
        servers.contains_key(id) ==> outcome->Ended_0 == Some(servers[id]),
        !servers.contains_key(id) ==> outcome->Ended_0 is None,
{
}

/// A text never ends the session of a listed server, nor takes the server off the
/// list. A readable status, of any count, makes the entry's player count that
/// count, and any other text leaves the list as it is.
pub proof fn law_text_keeps_the_server_listed(
    before: Session,
    servers: Map<ServerId, GameServer>,
    event: Event,
    after: Session,
    servers_after: Map<ServerId, GameServer>,
    outcome: Outcome,
    id: ServerId,
    other: ServerId,
)
    requires
        steps(before, servers, event, after, servers_after, outcome),
        before.state == State::Listed(id),
        event is Text,
    ensures
        after.state == State::Listed(id),
        servers_after.contains_key(other) <==> servers.contains_key(other),
        other != id ==> servers_after.get(other) == servers.get(other),
        event matches Event::Text { game: Some(GameMessage::Status { players }), .. }
            ==> servers.contains_key(id) ==> {
            &&& servers_after[id].players == players
            &&& servers_after[id].name == servers[id].name
            &&& servers_after[id].ip == servers[id].ip
            &&& servers_after[id].tls == servers[id].tls
            &&& servers_after[id].port == servers[id].port
            &&& servers_after[id].official == servers[id].official
            &&& outcome == Outcome::Message(Received::Updated)
        },
        event matches Event::Text { game: Some(_), .. } && !servers.contains_key(id) ==> {
            &&& servers_after == servers
            &&& outcome == Outcome::Message(Received::NotListed)
        },
        event matches Event::Text { game: None, .. } ==> {
            &&& servers_after == servers
            &&& outcome == Outcome::Message(Received::Unreadable)
        },
{
    if servers.contains_key(id) {
        assert(servers_after.contains_key(id));
    }
}

/// A message of a kind that is of no use changes nothing once the server is
/// listed.
pub proof fn law_useless_message_is_passed_over(
    before: Session,
    servers: Map<ServerId, GameServer>,
    event: Event,
    after: Session,
    servers_after: Map<ServerId, GameServer>,
    outcome: Outcome,
    id: ServerId,
)
    requires
        steps(before, servers, event, after, servers_after, outcome),
        before.state == State::Listed(id),
        event is Other,
    ensures
        after == before,
        servers_after == servers,
        outcome is Ignored,
{
}

/// A first text that reads as a connect message lists one server more, under an
/// id that was not taken, and the session goes on with that id. The entry is as
/// the message tells, at the address that its client's calls for, and no other
/// entry changes.
pub proof fn law_introduction_lists_one_server(
    before: Session,
    servers: Map<ServerId, GameServer>,
    event: Event,
    after: Session,
    servers_after: Map<ServerId, GameServer>,
    outcome: Outcome,
    message: ConnectMessage,
    other: ServerId,
)
    requires
        steps(before, servers, event, after, servers_after, outcome),
        before.state == State::Waiting,
        event matches Event::Text { connect: Some(told), .. } && told == message,
    ensures
        after.state is Listed,
        outcome is Created,
        ({
            let id = after.state->Listed_0;
            let entry = servers_after[id];
            &&& outcome->Created_0 == id
            &&& (id >> 76) % 16 == 4 && 8 <= (id >> 60) % 16 <= 11
            &&& !servers.contains_key(id)
            &&& servers_after.contains_key(id)
            &&& other != id ==> servers_after.get(other) == servers.get(other)
            &&& message matches ConnectMessage::V1 { name, port } ==> entry.name@ == name@
                && entry.port == port && !entry.tls
            &&& message matches ConnectMessage::V2 { name, tls, port } ==> entry.name@ == name@
                && entry.port == port && entry.tls == tls
            &&& entry.players == 0
            &&& entry.official == local_ipv4(before.ip)
            &&& entry.ip == if local_ipv4(before.ip) {
                before.server_ip
            } else {
                before.ip
            }
        }),
{
    crate::id::law_uuid_v4_digits(after.state->Listed_0);
}

/// Anything but a readable introduction ends a session that waits for one, and
/// leaves the list as it is. Of a text that cannot be read the refusal says so.
pub proof fn law_no_introduction_no_session(
    before: Session,
    servers: Map<ServerId, GameServer>,
    event: Event,
    after: Session,
    servers_after: Map<ServerId, GameServer>,
    outcome: Outcome,
)
    requires
        steps(before, servers, event, after, servers_after, outcome),
        before.state == State::Waiting,
        !(event matches Event::Text { connect: Some(_), .. }),
    ensures
        after.state == State::Over,
        servers_after == servers,
        event matches Event::Text { text, .. } ==> outcome is Rejected && outcome->Rejected_0@
            == "failed to parse ConnectMessage from JSON data: "@ + quoted(text@),
        event !is Text ==> outcome is GivenUp,
{
}

/// No event changes the addresses that a session goes by.
pub proof fn law_session_keeps_its_addresses(
    before: Session,
    servers: Map<ServerId, GameServer>,
    event: Event,
    after: Session,
    servers_after: Map<ServerId, GameServer>,
    outcome: Outcome,
)
    requires
        steps(before, servers, event, after, servers_after, outcome),
    ensures
        after.ip == before.ip,
        after.server_ip == before.server_ip,
{
}

/// A listed session ends with nothing but the end of its connection.
pub proof fn law_only_the_end_ends_a_listed_session(
    before: Session,
    servers: Map<ServerId, GameServer>,
    event: Event,
    after: Session,
    servers_after: Map<ServerId, GameServer>,
    outcome: Outcome,
    id: ServerId,
)
    requires
        steps(before, servers, event, after, servers_after, outcome),
        before.state == State::Listed(id),
    ensures
        after.state == State::Over <==> event is Close || event is Failed || event is Lost,
        after.state != State::Over ==> after.state == State::Listed(id),
        servers.contains_key(id) && !servers_after.contains_key(id) ==> after.state == State::Over,
{
}

/// However a session ends, its server is off the list then, and every other
/// server stays as it is.
pub proof fn law_ended_session_is_off_the_list(
    before: Session,
    servers: Map<ServerId, GameServer>,
    event: Event,
    after: Session,
    servers_after: Map<ServerId, GameServer>,
    outcome: Outcome,
    id: ServerId,
)
    requires
        steps(before, servers, event, after, servers_after, outcome),
        before.state == State::Listed(id),
        after.state == State::Over,
    ensures
        !servers_after.contains_key(id),
        servers_after == servers.remove(id),
{
}

/// Once a session is over, nothing that comes in has any effect.
pub proof fn law_over_is_over(
    before: Session,
    servers: Map<ServerId, GameServer>,
    event: Event,
    after: Session,
    servers_after: Map<ServerId, GameServer>,
    outcome: Outcome,
)
    requires
        steps(before, servers, event, after, servers_after, outcome),
        before.state == State::Over,
    ensures
        after == before,
        servers_after == servers,
        outcome is AlreadyOver,
{
}

/// Whether the list holds the servers of these sessions and no others, each
/// under an id of its own.
pub open spec fn is_list_of(servers: Map<ServerId, GameServer>, sessions: Seq<Session>) -> bool {
    &&& forall|id: ServerId| #[trigger]
        servers.contains_key(id) <==> has_listed(sessions, id)
    &&& forall|i: int, j: int, id: ServerId|
        0 <= i < sessions.len() && 0 <= j < sessions.len() && #[trigger] is_listed(sessions[i], id)
            && #[trigger] is_listed(sessions[j], id) ==> i == j
}

/// Whether the session has its server listed under `id`.
pub open spec fn is_listed(session: Session, id: ServerId) -> bool {
    session.state == State::Listed(id)
}

/// Whether one of the sessions has its server listed under `id`.
pub open spec fn has_listed(sessions: Seq<Session>, id: ServerId) -> bool {
    exists|i: int| 0 <= i < sessions.len() && #[trigger] is_listed(sessions[i], id)
}

/// An empty list is the list of no sessions, and a session that begins changes
/// nothing about whose list a list is.
pub proof fn law_new_session_is_not_listed(
    servers: Map<ServerId, GameServer>,
    sessions: Seq<Session>,
    ip: IpAddr,
    server_ip: IpAddr,
)
    requires
        is_list_of(servers, sessions),
    ensures
        is_list_of(Map::empty(), Seq::empty()),
        is_list_of(servers, sessions.push(Session { ip, server_ip, state: State::Waiting })),
{
    let pushed = sessions.push(Session { ip, server_ip, state: State::Waiting });
    assert forall|id: ServerId| has_listed(sessions, id) <==> has_listed(pushed, id) by {
        if has_listed(sessions, id) {
            let i = choose|i: int| 0 <= i < sessions.len() && is_listed(sessions[i], id);
            assert(is_listed(pushed[i], id));
        }
        if has_listed(pushed, id) {
            let i = choose|i: int| 0 <= i < pushed.len() && is_listed(pushed[i], id);
            assert(is_listed(sessions[i], id));
        }
    }
    assert forall|i: int, j: int, id: ServerId|
        0 <= i < pushed.len() && 0 <= j < pushed.len() && is_listed(pushed[i], id) && is_listed(
            pushed[j],
            id,
        ) implies i == j by {
        assert(is_listed(sessions[i], id));
        assert(is_listed(sessions[j], id));
    }
}

/// Whatever comes in on any of the connections, the list goes on to hold the
/// servers of the sessions and no others, each under an id of its own.
pub proof fn law_list_follows_sessions(
    servers: Map<ServerId, GameServer>,
    sessions: Seq<Session>,
    which: int,
    event: Event,
    after: Session,
    servers_after: Map<ServerId, GameServer>,
    outcome: Outcome,
)
    requires
        is_list_of(servers, sessions),
        0 <= which < sessions.len(),
        steps(sessions[which], servers, event, after, servers_after, outcome),
    ensures
        is_list_of(servers_after, sessions.update(which, after)),
{
    let updated = sessions.update(which, after);
    assert forall|id: ServerId| #[trigger]
        servers_after.contains_key(id) <==> has_listed(updated, id) by {
        assert(servers.contains_key(id) <==> has_listed(sessions, id));
        if has_listed(updated, id) {
            let i = choose|i: int| 0 <= i < updated.len() && is_listed(updated[i], id);
            if i != which {
                assert(is_listed(sessions[i], id));
                assert(!is_listed(sessions[which], id));
            } else if is_listed(sessions[which], id) {
                assert(has_listed(sessions, id));
            }
        }
        if servers_after.contains_key(id) {
            if is_listed(after, id) {
                assert(is_listed(updated[which], id));
            } else {
                assert(servers.contains_key(id));
                let i = choose|i: int| 0 <= i < sessions.len() && is_listed(sessions[i], id);
                assert(i != which);
                assert(is_listed(updated[i], id));
            }
        }
    }
    assert forall|i: int, j: int, id: ServerId|
        0 <= i < updated.len() && 0 <= j < updated.len() && is_listed(updated[i], id) && is_listed(
            updated[j],
            id,
        ) implies i == j by {
        if i != j {
            let other = if i == which {
                j
            } else {
                i
            };
            assert(is_listed(sessions[other], id));
            assert(has_listed(sessions, id));
            assert(servers.contains_key(id));
            assert(is_listed(sessions[i], id) && is_listed(sessions[j], id));
        }
    }
}

/// When every session is over, the list is empty.
pub proof fn law_all_over_leaves_nothing(
    servers: Map<ServerId, GameServer>,
    sessions: Seq<Session>,
)
    requires
        is_list_of(servers, sessions),
        forall|i: int| 0 <= i < sessions.len() ==> (#[trigger] sessions[i]).state == State::Over,
    ensures
        servers == Map::<ServerId, GameServer>::empty(),
{
    assert forall|id: ServerId| !servers.contains_key(id) by {
        if servers.contains_key(id) {
            let i = choose|i: int| 0 <= i < sessions.len() && is_listed(sessions[i], id);
            assert(sessions[i].state == State::Over);
        }
    }
    assert(servers =~= Map::<ServerId, GameServer>::empty());
}

/// Whether some event takes the session and the list from one to the other.
pub open spec fn follows(
    before: (Session, Map<ServerId, GameServer>),
    after: (Session, Map<ServerId, GameServer>),
) -> bool {
    exists|event: Event, outcome: Outcome| #[trigger]
        steps(before.0, before.1, event, after.0, after.1, outcome)
}

/// Whether `run` is what becomes of a session and the list, event after event.
pub open spec fn is_run(run: Seq<(Session, Map<ServerId, GameServer>)>) -> bool {
    forall|i: int| 0 < i < run.len() ==> follows(run[i - 1], #[trigger] run[i])
}

/// The list that there would be without the session.
pub open spec fn without(session: Session, servers: Map<ServerId, GameServer>) -> Map<
    ServerId,
    GameServer,
> {
    match session.state {
        State::Listed(id) => servers.remove(id),
        _ => servers,
    }
}

/// From the first event to the last, all that a session adds to the list is its
/// own server.
pub proof fn law_session_adds_its_server_alone(run: Seq<(Session, Map<ServerId, GameServer>)>)
    requires
        run.len() > 0,
        run[0].0.state == State::Waiting,
        is_run(run),
    ensures
        without(run.last().0, run.last().1) == run[0].1,
    decreases run.len(),
{
    if run.len() > 1 {
        let earlier = run.drop_last();
        assert forall|i: int| 0 < i < earlier.len() implies follows(
            earlier[i - 1],
            #[trigger] earlier[i],
        ) by {
            assert(follows(run[i - 1], run[i]));
        }
        law_session_adds_its_server_alone(earlier);
        assert(follows(run[run.len() - 2], run[run.len() - 1]));
        assert(without(run.last().0, run.last().1) =~= without(
            earlier.last().0,
            earlier.last().1,
        ));
    }
}

/// A session that is over has left the list as it found it.
pub proof fn law_session_leaves_no_trace(run: Seq<(Session, Map<ServerId, GameServer>)>)
    requires
        run.len() > 0,
        run[0].0.state == State::Waiting,
        is_run(run),
        run.last().0.state == State::Over,
    ensures
        run.last().1 == run[0].1,
{
    law_session_adds_its_server_alone(run);
}

/// What goes on in one session while others have theirs: `sessions` is the
/// session before each event and after the last, `befores` and `afters` the list
/// right before and right after each event. In between, others may change the
/// list, but not the entry of this session's server.
pub open spec fn is_history(
    sessions: Seq<Session>,
    events: Seq<Event>,
    befores: Seq<Map<ServerId, GameServer>>,
    afters: Seq<Map<ServerId, GameServer>>,
) -> bool {
    &&& sessions.len() == events.len() + 1
    &&& befores.len() == events.len()
    &&& afters.len() == events.len()
    &&& forall|i: int|
        0 <= i < events.len() ==> steps_somehow(
            sessions[i],
            befores[i],
            #[trigger] events[i],
            sessions[i + 1],
            afters[i],
        )
    &&& forall|i: int, id: ServerId|
        0 < i < events.len() && #[trigger] is_listed(sessions[i], id) ==> befores[i].get(id)
            == afters[i - 1].get(id)
}

/// Whether `event` may take the session and the list from one to the other.
pub open spec fn steps_somehow(
    before: Session,
    servers: Map<ServerId, GameServer>,
    event: Event,
    after: Session,
    servers_after: Map<ServerId, GameServer>,
) -> bool {
    exists|outcome: Outcome| #[trigger]
        steps(before, servers, event, after, servers_after, outcome)
}

/// The player count that was told last in the events after the first one, or 0
/// where none was told.
pub open spec fn last_players(events: Seq<Event>) -> u8
    decreases events.len(),
{
    if events.len() <= 1 {
        0
    } else {
        match events.last() {
            Event::Text { game: Some(GameMessage::Status { players }), .. } => players,
            _ => last_players(events.drop_last()),
        }
    }
}

/// As long as a session has its server listed, the entry is the server that
/// introduced itself with the first event, with the player count that it told
/// last.
pub proof fn law_entry_is_up_to_date(
    sessions: Seq<Session>,
    events: Seq<Event>,
    befores: Seq<Map<ServerId, GameServer>>,
    afters: Seq<Map<ServerId, GameServer>>,
    id: ServerId,
)
    requires
        is_history(sessions, events, befores, afters),
        sessions[0].state == State::Waiting,
        sessions.last().state == State::Listed(id),
    ensures
        events.len() > 0,
        afters.last().contains_key(id),
        events[0] matches Event::Text { connect: Some(message), .. } && afters.last()[id]@ == (
        GameServerView {
            players: last_players(events),
            ..introduced_server(message@, sessions[0].ip, sessions[0].server_ip)
        }),
    decreases events.len(),
{
    let n = events.len() as int;
    assert(n > 0);
    assert(steps_somehow(
        sessions[n - 1],
        befores[n - 1],
        events[n - 1],
        sessions[n],
        afters[n - 1],
    ));
    if n > 1 {
        let (s, e, b, a) = (
            sessions.drop_last(),
            events.drop_last(),
            befores.drop_last(),
            afters.drop_last(),
        );
        assert(is_history(s, e, b, a)) by {
            assert forall|i: int| 0 <= i < e.len() implies steps_somehow(
                s[i],
                b[i],
                #[trigger] e[i],
                s[i + 1],
                a[i],
            ) by {
                assert(steps_somehow(sessions[i], befores[i], events[i], sessions[i + 1], afters[i]));
            }
            assert forall|i: int, other: ServerId|
                0 < i < e.len() && #[trigger] is_listed(s[i], other) implies b[i].get(other)
                == a[i - 1].get(other) by {
                assert(is_listed(sessions[i], other));
            }
        }
        if sessions[n - 1].state == State::Waiting {
            lemma_waiting_means_no_event(s, e, b, a);
        } else {
            law_entry_is_up_to_date(s, e, b, a, id);
            assert(is_listed(sessions[n - 1], id));
        }
    }
}

/// No event leaves a session waiting.
proof fn lemma_waiting_means_no_event(
    sessions: Seq<Session>,
    events: Seq<Event>,
    befores: Seq<Map<ServerId, GameServer>>,
    afters: Seq<Map<ServerId, GameServer>>,
)
    requires
        is_history(sessions, events, befores, afters),
        sessions.last().state == State::Waiting,
    ensures
        events.len() == 0,
{
    let n = events.len() as int;
    if n > 0 {
        assert(steps_somehow(
            sessions[n - 1],
            befores[n - 1],
            events[n - 1],
            sessions[n],
            afters[n - 1],
        ));
    }
}

} // verus!
