use game_server_list::{
    ConnectMessage, Event, GameMessage, GameServer, IpAddr, Ipv4Addr, Outcome, Received,
    ServerList, Session, State,
};

fn client() -> IpAddr {
    IpAddr::V4(Ipv4Addr::new(198, 51, 100, 7))
}

fn list_address() -> IpAddr {
    IpAddr::V4(Ipv4Addr::new(203, 0, 113, 5))
}

/// A text that reads as no message.
fn unreadable(text: &str) -> Event {
    Event::Text {
        text: text.to_string(),
        connect: None,
        game: None,
    }
}

/// A text that reads as an introduction.
fn introduction(tls: bool) -> Event {
    Event::Text {
        text: String::new(),
        connect: Some(ConnectMessage::V2 {
            name: "a".to_string(),
            tls,
            port: 5,
        }),
        game: None,
    }
}

/// A text that reads as a status.
fn status(players: u8) -> Event {
    Event::Text {
        text: String::new(),
        connect: None,
        game: Some(GameMessage::Status { players }),
    }
}

fn introduced(server_list: &mut ServerList<GameServer>) -> (Session, u128) {
    let mut session = Session::new(client(), list_address());
    match session.step(server_list, introduction(true)) {
        Outcome::Created(id) => (session, id),
        other => panic!("{:?}", other),
    }
}

#[test]
fn introduction_lists_the_server() {
    let mut server_list = ServerList::new();
    let (session, id) = introduced(&mut server_list);
    assert_eq!(session.state, State::Listed(id));
    assert!(!session.is_over());
    assert_eq!(
        server_list.remove(&id),
        Some(GameServer::new("a".to_string(), client(), true, 5, false))
    );
}

#[test]
fn session_of_a_local_client_lists_an_official_server() {
    let mut server_list = ServerList::new();
    let local = IpAddr::V4(Ipv4Addr::new(192, 168, 0, 2));
    let mut session = Session::new(local, list_address());
    let outcome = session.step(&mut server_list, introduction(false));
    match outcome {
        Outcome::Created(id) => assert_eq!(
            server_list.remove(&id),
            Some(GameServer::new("a".to_string(), list_address(), false, 5, true))
        ),
        other => panic!("{:?}", other),
    }
}

#[test]
fn unreadable_introduction_ends_the_session() {
    let mut server_list = ServerList::new();
    let mut session = Session::new(client(), list_address());
    assert_eq!(
        session.step(&mut server_list, unreadable("hello")),
        Outcome::Rejected("failed to parse ConnectMessage from JSON data: \"hello\"".to_string())
    );
    assert!(session.is_over());
    assert!(server_list.is_empty());
}

#[test]
fn anything_else_before_the_introduction_ends_the_session() {
    for event in [Event::Close, Event::Other, Event::Failed, Event::Lost] {
        let mut server_list = ServerList::new();
        let mut session = Session::new(client(), list_address());
        assert_eq!(session.step(&mut server_list, event), Outcome::GivenUp);
        assert!(session.is_over());
        assert!(server_list.is_empty());
    }
}

#[test]
fn status_messages_keep_the_session_going() {
    let mut server_list = ServerList::new();
    let (mut session, id) = introduced(&mut server_list);
    assert_eq!(
        session.step(&mut server_list, status(4)),
        Outcome::Message(Received::Updated)
    );
    assert_eq!(
        session.step(&mut server_list, introduction(true)),
        Outcome::Message(Received::Unreadable)
    );
    assert_eq!(session.step(&mut server_list, Event::Other), Outcome::Ignored);
    assert_eq!(session.state, State::Listed(id));
    assert_eq!(server_list.remove(&id).map(|server| server.players), Some(4));
    assert_eq!(
        session.step(&mut server_list, status(4)),
        Outcome::Message(Received::NotListed)
    );
}

#[test]
fn every_end_takes_the_server_off_the_list() {
    for event in [Event::Close, Event::Failed, Event::Lost] {
        let mut server_list = ServerList::new();
        let (_, other) = introduced(&mut server_list);
        let (mut session, _) = introduced(&mut server_list);
        assert_eq!(server_list.len(), 2);
        let expected = GameServer::new("a".to_string(), client(), true, 5, false);
        assert_eq!(session.step(&mut server_list, event), Outcome::Ended(Some(expected)));
        assert!(session.is_over());
        assert_eq!(server_list.len(), 1);
        assert!(server_list.remove(&other).is_some());
    }
}

#[test]
fn end_of_a_session_whose_server_is_gone() {
    let mut server_list = ServerList::new();
    let (mut session, id) = introduced(&mut server_list);
    assert!(server_list.remove(&id).is_some());
    assert_eq!(session.step(&mut server_list, Event::Close), Outcome::Ended(None));
    assert!(session.is_over());
}

#[test]
fn nothing_happens_after_the_end() {
    let mut server_list = ServerList::new();
    let (mut session, _) = introduced(&mut server_list);
    session.step(&mut server_list, Event::Lost);
    assert_eq!(
        session.step(&mut server_list, introduction(false)),
        Outcome::AlreadyOver
    );
    assert!(server_list.is_empty());
}

#[test]
fn introduce_lists_what_it_is_given() {
    let mut server_list = ServerList::new();
    let mut session = Session::new(client(), list_address());
    let server = GameServer::new("b".to_string(), client(), false, 6, false);
    match session.introduce(&mut server_list, Ok(server.clone())) {
        Outcome::Created(id) => assert_eq!(server_list.remove(&id), Some(server)),
        other => panic!("{:?}", other),
    }
    let mut refused = Session::new(client(), list_address());
    assert_eq!(
        refused.introduce(&mut server_list, Err("why".to_string())),
        Outcome::Rejected("why".to_string())
    );
    assert!(refused.is_over());
}

#[test]
fn list_holds_the_servers_of_the_open_sessions() {
    let mut server_list = ServerList::new();
    let mut waiting = Session::new(client(), list_address());
    assert!(server_list.is_empty());
    let (mut first, first_id) = introduced(&mut server_list);
    let (mut second, second_id) = introduced(&mut server_list);
    assert_ne!(first_id, second_id);
    assert_eq!(server_list.len(), 2);
    first.step(&mut server_list, status(1));
    first.step(&mut server_list, status(2));
    assert!(server_list.update(&second_id, |server| assert_eq!(server.players, 0)));
    assert!(server_list.update(&first_id, |server| assert_eq!(server.players, 2)));
    second.step(&mut server_list, Event::Failed);
    assert_eq!(server_list.len(), 1);
    assert!(server_list.update(&first_id, |server| assert_eq!(server.name, "a")));
    waiting.step(&mut server_list, Event::Close);
    assert_eq!(server_list.len(), 1);
    first.step(&mut server_list, Event::Lost);
    assert!(first.is_over() && second.is_over() && waiting.is_over());
    assert!(server_list.is_empty());
}

#[test]
fn first_text_counts_as_an_introduction_alone() {
    let mut server_list = ServerList::new();
    let mut session = Session::new(client(), list_address());
    assert_eq!(
        session.step(&mut server_list, status(3)),
        Outcome::Rejected("failed to parse ConnectMessage from JSON data: \"\"".to_string())
    );
    assert!(session.is_over());
}

#[test]
fn entry_holds_the_last_readable_status() {
    let mut server_list = ServerList::new();
    let (mut session, id) = introduced(&mut server_list);
    session.step(&mut server_list, status(7));
    session.step(&mut server_list, status(3));
    session.step(&mut server_list, unreadable("{\"players\":256}"));
    session.step(&mut server_list, Event::Other);
    let mut expected = GameServer::new("a".to_string(), client(), true, 5, false);
    expected.players = 3;
    assert_eq!(server_list.remove(&id), Some(expected));
}
