use game_server_list::monitor::{parse_game_message, Action, Frame, GameMessage, Report};

#[test]
fn texts_are_reported_unread() {
    let text = "{\"players\":1}".to_string();
    assert_eq!(Frame::Text(text.clone()).action(), Action::Print(Report::Text(text)));
}

#[test]
fn text_of_a_binary_frame_is_to_be_read() {
    let text = "{\"name\":\"\u{e4}\u{20ac}\u{1f600}\"}";
    assert_eq!(
        Frame::Binary(text.as_bytes().to_vec()).action(),
        Action::Parse(text.to_string())
    );
    assert_eq!(Frame::Binary(vec![]).action(), Action::Parse(String::new()));
}

#[test]
fn bytes_that_are_no_text_are_reported() {
    for bytes in [vec![0xc3, 0x28], vec![0xed, 0xa0, 0x80], vec![0xc0, 0x80], vec![0x61, 0xff]] {
        assert_eq!(
            Frame::Binary(bytes.clone()).action(),
            Action::Print(Report::UnknownBinary(bytes))
        );
    }
}

#[test]
fn messages_are_reported() {
    let connect = GameMessage::Connect {
        name: "a".to_string(),
    };
    assert_eq!(
        parse_game_message(Some(connect.clone()), "text".to_string()),
        Report::Message(connect)
    );
    let status = GameMessage::Status { players: 4000 };
    assert_eq!(
        parse_game_message(Some(status.clone()), "text".to_string()),
        Report::Message(status)
    );
    assert_eq!(
        parse_game_message(None, "[]".to_string()),
        Report::UnknownJson("[]".to_string())
    );
}

#[test]
fn watch_ends_with_the_client() {
    assert_eq!(Frame::Close.action(), Action::Print(Report::Disconnected));
    assert_eq!(Frame::Failed.action(), Action::Print(Report::Disconnected));
    assert!(Report::Disconnected.is_last());
    assert_eq!(Frame::Ping.action(), Action::Print(Report::Ping));
    assert_eq!(Frame::Pong.action(), Action::Print(Report::Pong));
    assert_eq!(Frame::Nothing.action(), Action::Print(Report::Nothing));
    for report in [Report::Ping, Report::Pong, Report::Nothing] {
        assert!(!report.is_last());
    }
    assert!(!parse_game_message(None, String::new()).is_last());
}

#[test]
fn lines_of_the_reports() {
    let line = |report: Report| report.line();
    assert_eq!(
        line(Report::Text("a\"b".to_string())),
        Some("client sent str: \"a\\\"b\"".to_string())
    );
    assert_eq!(
        line(Report::Message(GameMessage::Connect {
            name: "My Game".to_string()
        })),
        Some("new game connected with name: My Game".to_string())
    );
    for players in [0, 9, 10, 255, 1234567890, usize::MAX] {
        assert_eq!(
            line(Report::Message(GameMessage::Status { players })),
            Some(format!("status update with players: {}", players))
        );
    }
    assert_eq!(
        line(Report::UnknownJson("{}\n".to_string())),
        Some("Got unknown JSON data: \"{}\\n\"".to_string())
    );
    assert_eq!(line(Report::Ping), Some("socket ping".to_string()));
    assert_eq!(line(Report::Pong), Some("socket pong".to_string()));
    assert_eq!(line(Report::Disconnected), Some("client disconnected".to_string()));
    assert_eq!(line(Report::Nothing), None);
}

#[test]
fn lines_of_unknown_bytes() {
    for bytes in [vec![], vec![255], vec![0, 10, 200]] {
        assert_eq!(
            Report::UnknownBinary(bytes.clone()).line(),
            Some(format!("client sent unknown binary data: {:?}", bytes))
        );
    }
    assert_eq!(
        Report::UnknownBinary(vec![195, 40]).line(),
        Some("client sent unknown binary data: [195, 40]".to_string())
    );
}
