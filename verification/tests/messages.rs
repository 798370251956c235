use game_server_list::{
    is_local_ipv4, parse_connect_message, parse_game_message, ConnectMessage, GameMessage,
    GameServer, IpAddr, Ipv4Addr, Ipv6Addr, Received, ServerList,
};
use serde_json::Value;

/// The message that a JSON text reads as, if any.
fn read(txt: &str) -> Option<ConnectMessage> {
    let object: Value = serde_json::from_str(txt).ok()?;
    let name = object.get("name")?.as_str()?.to_string();
    let port = u16::try_from(object.get("port")?.as_u64()?).ok()?;
    match object.get("tls").and_then(Value::as_bool) {
        Some(tls) => Some(ConnectMessage::V2 { name, tls, port }),
        None => Some(ConnectMessage::V1 { name, port }),
    }
}

#[test]
fn parse_connect_message_v2() {
    let txt = "{\"name\":\"Test's Game\",\"port\":31400,\"tls\":true}".to_string();
    let ip = IpAddr::V4(Ipv4Addr::new(127, 0, 0, 1));
    let server_ip = IpAddr::V4(Ipv4Addr::new(127, 0, 0, 1));
    let expected_server = GameServer::new(
        String::from("Test's Game"),
        IpAddr::V4(Ipv4Addr::new(127, 0, 0, 1)),
        true,
        31400,
        false,
    );
    let result: Result<GameServer, String> = parse_connect_message(read(&txt), txt, ip, server_ip);
    assert_eq!(result, Ok(expected_server));
}

#[test]
fn parse_connect_message_v2_reverse_order() {
    let txt = "{\"tls\":true, \"port\":31400, \"name\":\"Test's Game\"}".to_string();
    let ip = IpAddr::V4(Ipv4Addr::new(127, 0, 0, 1));
    let server_ip = IpAddr::V4(Ipv4Addr::new(127, 0, 0, 1));
    let expected_server = GameServer::new(
        String::from("Test's Game"),
        IpAddr::V4(Ipv4Addr::new(127, 0, 0, 1)),
        true,
        31400,
        false,
    );
    let result: Result<GameServer, String> = parse_connect_message(read(&txt), txt, ip, server_ip);
    assert_eq!(result, Ok(expected_server));
}

#[test]
fn parse_connect_message_v2_official() {
    let txt = "{\"name\":\"Another Game\",\"port\":65535,\"tls\":true}".to_string();
    let ip = IpAddr::V4(Ipv4Addr::new(192, 168, 0, 123));
    let server_ip = IpAddr::V4(Ipv4Addr::new(192, 168, 0, 123));
    let expected_server = GameServer::new(
        String::from("Another Game"),
        IpAddr::V4(Ipv4Addr::new(192, 168, 0, 123)),
        true,
        65535,
        true,
    );
    let result: Result<GameServer, String> = parse_connect_message(read(&txt), txt, ip, server_ip);
    assert_eq!(result, Ok(expected_server));
}

#[test]
fn parse_connect_message_v1() {
    let txt = "{\"name\":\"Test\",\"port\":12345}".to_string();
    let ip = IpAddr::V4(Ipv4Addr::new(127, 0, 0, 1));
    let server_ip = IpAddr::V4(Ipv4Addr::new(127, 0, 0, 1));
    let expected_server = GameServer::new(
        String::from("Test"),
        IpAddr::V4(Ipv4Addr::new(127, 0, 0, 1)),
        false,
        12345,
        false,
    );
    let result: Result<GameServer, String> = parse_connect_message(read(&txt), txt, ip, server_ip);
    assert_eq!(result, Ok(expected_server));
}

#[test]
fn parse_connect_message_v1_reverse_order() {
    let txt = "{\"port\":12345, \"name\":\"Test\"}".to_string();
    let ip = IpAddr::V4(Ipv4Addr::new(127, 0, 0, 1));
    let server_ip = IpAddr::V4(Ipv4Addr::new(127, 0, 0, 1));
    let expected_server = GameServer::new(
        String::from("Test"),
        IpAddr::V4(Ipv4Addr::new(127, 0, 0, 1)),
        false,
        12345,
        false,
    );
    let result: Result<GameServer, String> = parse_connect_message(read(&txt), txt, ip, server_ip);
    assert_eq!(result, Ok(expected_server));
}

#[test]
fn parse_connect_message_v1_official() {
    let txt = "{\"name\":\"Test\",\"port\":12345}".to_string();
    let ip = IpAddr::V4(Ipv4Addr::new(172, 16, 0, 22));
    let server_ip = IpAddr::V4(Ipv4Addr::new(172, 16, 0, 22));
    let expected_server = GameServer::new(
        String::from("Test"),
        IpAddr::V4(Ipv4Addr::new(172, 16, 0, 22)),
        false,
        12345,
        true,
    );
    let result: Result<GameServer, String> = parse_connect_message(read(&txt), txt, ip, server_ip);
    assert_eq!(result, Ok(expected_server));
}

#[test]
fn parse_connect_message_unknown() {
    let txt = "{\"wasd\":\"Test\",\"port\":12345,\"asdoasdoaisd\":59912}".to_string();
    let ip = IpAddr::V4(Ipv4Addr::new(127, 0, 0, 1));
    let server_ip = IpAddr::V4(Ipv4Addr::new(127, 0, 0, 1));
    let result: Result<GameServer, String> = parse_connect_message(read(&txt), txt, ip, server_ip);
    assert!(result.is_err());
}

fn public_ip() -> IpAddr {
    IpAddr::V4(Ipv4Addr::new(203, 0, 113, 5))
}

fn first_version() -> ConnectMessage {
    ConnectMessage::V1 {
        name: "a".to_string(),
        port: 1,
    }
}

#[test]
fn official_server_gets_the_lists_address() {
    let ip = IpAddr::V4(Ipv4Addr::new(10, 1, 2, 3));
    let server = parse_connect_message(Some(first_version()), String::new(), ip, public_ip());
    assert_eq!(server, Ok(GameServer::new("a".to_string(), public_ip(), false, 1, true)));
}

#[test]
fn other_server_keeps_its_address() {
    let v6 = IpAddr::V6(Ipv6Addr { bits: 1 });
    let server = parse_connect_message(Some(first_version()), String::new(), v6, public_ip());
    assert_eq!(server, Ok(GameServer::new("a".to_string(), v6, false, 1, false)));
}

#[test]
fn unreadable_connect_message_is_quoted_in_the_error() {
    let txt = "no \"JSON\"\n".to_string();
    assert_eq!(
        parse_connect_message(None, txt, public_ip(), public_ip()),
        Err("failed to parse ConnectMessage from JSON data: \"no \\\"JSON\\\"\\n\"".to_string())
    );
}

#[test]
fn second_version_tells_of_tls() {
    let message = ConnectMessage::V2 {
        name: "a".to_string(),
        tls: true,
        port: 65535,
    };
    assert_eq!(
        message.into_server(public_ip(), public_ip()),
        GameServer::new("a".to_string(), public_ip(), true, 65535, false)
    );
}

#[test]
fn first_version_means_no_tls() {
    let first = ConnectMessage::V1 {
        name: "a".to_string(),
        port: 9,
    };
    let second = ConnectMessage::V2 {
        name: "a".to_string(),
        tls: false,
        port: 9,
    };
    assert_eq!(
        first.into_server(public_ip(), public_ip()),
        second.into_server(public_ip(), public_ip())
    );
}

#[test]
fn private_blocks() {
    let local = |a, b, c, d| is_local_ipv4(IpAddr::V4(Ipv4Addr::new(a, b, c, d)));
    assert!(local(10, 0, 0, 0));
    assert!(local(10, 255, 255, 255));
    assert!(!local(9, 255, 255, 255));
    assert!(!local(11, 0, 0, 0));
    assert!(local(172, 16, 0, 0));
    assert!(local(172, 31, 255, 255));
    assert!(!local(172, 15, 255, 255));
    assert!(!local(172, 32, 0, 0));
    assert!(local(192, 168, 1, 1));
    assert!(!local(192, 167, 1, 1));
    assert!(!local(192, 169, 1, 1));
    assert!(!local(127, 0, 0, 1));
    assert!(!is_local_ipv4(IpAddr::V6(Ipv6Addr { bits: 0x0a00_0001 })));
}

fn one_server() -> (ServerList<GameServer>, u128) {
    let mut server_list = ServerList::new();
    let id = server_list.add(GameServer::new("a".to_string(), public_ip(), true, 5, false));
    (server_list, id)
}

fn status(players: u8) -> Option<GameMessage> {
    Some(GameMessage::Status { players })
}

#[test]
fn status_sets_the_player_count() {
    let (mut server_list, id) = one_server();
    assert_eq!(parse_game_message(&mut server_list, &id, status(12)), Received::Updated);
    assert_eq!(parse_game_message(&mut server_list, &id, status(255)), Received::Updated);
    let mut expected = GameServer::new("a".to_string(), public_ip(), true, 5, false);
    expected.players = 255;
    assert_eq!(server_list.remove(&id), Some(expected));
}

#[test]
fn unreadable_game_message_changes_nothing() {
    let (mut server_list, id) = one_server();
    assert_eq!(parse_game_message(&mut server_list, &id, None), Received::Unreadable);
    assert_eq!(server_list.remove(&id).map(|server| server.players), Some(0));
}

#[test]
fn message_of_an_unlisted_server_changes_nothing() {
    let (mut server_list, id) = one_server();
    assert_eq!(
        parse_game_message(&mut server_list, &(id ^ 1), status(3)),
        Received::NotListed
    );
    assert_eq!(server_list.len(), 1);
    assert_eq!(server_list.remove(&id).map(|server| server.players), Some(0));
}

#[test]
fn message_tells_whether_its_server_is_listed() {
    let (mut server_list, id) = one_server();
    let message = GameMessage::Status { players: 9 };
    assert!(message.apply(&mut server_list, &id));
    assert!(!message.apply(&mut server_list, &(id ^ 1)));
    assert_eq!(server_list.remove(&id).map(|server| server.players), Some(9));
}
