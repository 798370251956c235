//! A connection that is only watched: what is reported of each frame, and when
//! the watch ends.

use crate::text::{byte_list, decimal, quote, quoted, show_bytes, show_decimal, utf8_text};
use vstd::prelude::*;
use vstd::utf8::{decode_utf8, encode_utf8, valid_utf8};

verus! {

/// What comes in on a watched connection.
#[derive(Clone, Debug, PartialEq, Eq)]
pub enum Frame {
    Text(String),
    Binary(Vec<u8>),
    Ping,
    Pong,
    Close,
    /// An error in place of a frame.
    Failed,
    /// Neither a frame nor an error.
    Nothing,
}

/// A message in a binary frame.
#[derive(Clone, Debug, PartialEq, Eq)]
pub enum GameMessage {
    /// A game introduces itself.
    Connect { name: String },
    /// A game tells how many players it has.
    Status { players: usize },
}

/// What is reported of a frame.
#[derive(Clone, Debug, PartialEq, Eq)]
pub enum Report {
    /// A text has come in.
    Text(String),
    /// A message has come in.
    Message(GameMessage),
    /// A text in a binary frame is no message.
    UnknownJson(String),
    /// The bytes of a binary frame are no text.
    UnknownBinary(Vec<u8>),
    Ping,
    Pong,
    /// The client is gone.
    Disconnected,
    /// There is nothing to report.
    Nothing,
}

/// What to do about a frame.
#[derive(Clone, Debug, PartialEq, Eq)]
pub enum Action {
    /// Report this.
    Print(Report),
    /// Find out which message this text reads as, if any, and go on with
    /// [`parse_game_message`].
    Parse(String),
}

/// What a [`GameMessage`] stands for.
pub enum GameMessageView {
    Connect { name: Seq<char> },
    Status { players: usize },
}

/// What a [`Report`] stands for.
pub enum ReportView {
    Text(Seq<char>),
    Message(GameMessageView),
    UnknownJson(Seq<char>),
    UnknownBinary(Seq<u8>),
    Ping,
    Pong,
    Disconnected,
    Nothing,
}

/// What an [`Action`] stands for.
pub enum ActionView {
    Print(ReportView),
    Parse(Seq<char>),
}

impl View for GameMessage {
    type V = GameMessageView;

    open spec fn view(&self) -> GameMessageView {
        match self {
            GameMessage::Connect { name } => GameMessageView::Connect { name: name@ },
            GameMessage::Status { players } => GameMessageView::Status { players: *players },
        }
    }
}

impl View for Report {
    type V = ReportView;

    open spec fn view(&self) -> ReportView {
        match self {
            Report::Text(text) => ReportView::Text(text@),
            Report::Message(message) => ReportView::Message(message@),
            Report::UnknownJson(text) => ReportView::UnknownJson(text@),
            Report::UnknownBinary(bytes) => ReportView::UnknownBinary(bytes@),
            Report::Ping => ReportView::Ping,
            Report::Pong => ReportView::Pong,
            Report::Disconnected => ReportView::Disconnected,
            Report::Nothing => ReportView::Nothing,
        }
    }
}

impl View for Action {
    type V = ActionView;

    open spec fn view(&self) -> ActionView {
        match self {
            Action::Print(report) => ActionView::Print(report@),
            Action::Parse(text) => ActionView::Parse(text@),
        }
    }
}

/// What is to be done about a frame. The text of a binary frame is to be read as
/// a message, a text frame is reported unread.
pub open spec fn frame_action(frame: Frame) -> ActionView {
    match frame {
        Frame::Text(text) => ActionView::Print(ReportView::Text(text@)),
        Frame::Binary(bytes) => if valid_utf8(bytes@) {
            ActionView::Parse(decode_utf8(bytes@))
        } else {
            ActionView::Print(ReportView::UnknownBinary(bytes@))
        },
        Frame::Ping => ActionView::Print(ReportView::Ping),
        Frame::Pong => ActionView::Print(ReportView::Pong),
        Frame::Close => ActionView::Print(ReportView::Disconnected),
        Frame::Failed => ActionView::Print(ReportView::Disconnected),
        Frame::Nothing => ActionView::Print(ReportView::Nothing),
    }
}

/// What is reported of the text of a binary frame that reads as `message`, or as
/// no message.
pub open spec fn text_report(message: Option<GameMessage>, text: Seq<char>) -> ReportView {
    match message {
        Some(message) => ReportView::Message(message@),
        None => ReportView::UnknownJson(text),
    }
}

impl Frame {
    /// Tells what to do about the frame.
    pub fn action(self) -> (action: Action)
        ensures
            action@ == frame_action(self),
            self matches Frame::Text(text) ==> action == Action::Print(Report::Text(text)),
            self matches Frame::Binary(bytes) ==> match action {
                Action::Parse(text) => valid_utf8(bytes@) && text@ == decode_utf8(bytes@),
                Action::Print(report) => !valid_utf8(bytes@) && report == Report::UnknownBinary(
                    bytes,
                ),
            },
            self is Ping ==> action == Action::Print(Report::Ping),
            self is Pong ==> action == Action::Print(Report::Pong),
            self is Close || self is Failed ==> action == Action::Print(Report::Disconnected),
            self is Nothing ==> action == Action::Print(Report::Nothing),
    {
        match self {
            Frame::Text(text) => Action::Print(Report::Text(text)),
            Frame::Binary(bytes) => match utf8_text(bytes.as_slice()) {
                Some(text) => Action::Parse(text.to_string()),
                None => Action::Print(Report::UnknownBinary(bytes)),
            },
            Frame::Ping => Action::Print(Report::Ping),
            Frame::Pong => Action::Print(Report::Pong),
            Frame::Close => Action::Print(Report::Disconnected),
            Frame::Failed => Action::Print(Report::Disconnected),
            Frame::Nothing => Action::Print(Report::Nothing),
        }
    }
}

/// Tells what is reported of the text `msg` of a binary frame, once it is known
/// which message it reads as, if any.
pub fn parse_game_message(message: Option<GameMessage>, msg: String) -> (report: Report)
    ensures
        report@ == text_report(message, msg@),
        message matches Some(message) ==> report == Report::Message(message),
        message is None ==> report == Report::UnknownJson(msg),
{
    match message {
        Some(message) => Report::Message(message),
        None => Report::UnknownJson(msg),
    }
}

/// The line that is printed for a report, if any.
pub open spec fn report_line(report: ReportView) -> Option<Seq<char>> {
    match report {
        ReportView::Text(text) => Some("client sent str: "@ + quoted(text)),
        ReportView::Message(GameMessageView::Connect { name }) => Some(
            "new game connected with name: "@ + name,
        ),
        ReportView::Message(GameMessageView::Status { players }) => Some(
            "status update with players: "@ + decimal(players as nat),
        ),
        ReportView::UnknownJson(text) => Some("Got unknown JSON data: "@ + quoted(text)),
        ReportView::UnknownBinary(bytes) => Some(
            "client sent unknown binary data: "@ + byte_list(bytes),
        ),
        ReportView::Ping => Some("socket ping"@),
        ReportView::Pong => Some("socket pong"@),
        ReportView::Disconnected => Some("client disconnected"@),
        ReportView::Nothing => None,
    }
}

/// `first`, followed by `second`.
fn join(first: &str, second: &str) -> (joined: String)
    ensures
        joined@ == first@ + second@,
{
    let mut joined = first.to_string();
    joined.append(second);
    joined
}

impl Report {
    /// Gives the line to print for the report. There is none where there is
    /// nothing to report.
    pub fn line(&self) -> (line: Option<String>)
        ensures
            match line {
                Some(line) => report_line(self@) == Some(line@),
                None => report_line(self@) is None,
            },
    {
        match self {
            Report::Text(text) => Some(join("client sent str: ", quote(text.as_str()).as_str())),
            Report::Message(GameMessage::Connect { name }) => Some(
                join("new game connected with name: ", name.as_str()),
            ),
            Report::Message(GameMessage::Status { players }) => Some(
                join("status update with players: ", show_decimal(*players as u64).as_str()),
            ),
            Report::UnknownJson(text) => Some(
                join("Got unknown JSON data: ", quote(text.as_str()).as_str()),
            ),
            Report::UnknownBinary(bytes) => Some(
                join("client sent unknown binary data: ", show_bytes(bytes).as_str()),
            ),
            Report::Ping => Some("socket ping".to_string()),
            Report::Pong => Some("socket pong".to_string()),
            Report::Disconnected => Some("client disconnected".to_string()),
            Report::Nothing => None,
        }
    }

    /// Tells whether the watch ends with this report.
    pub fn is_last(&self) -> (last: bool)
        ensures
            last == (self@ == ReportView::Disconnected),
            last == (self is Disconnected),
    {
        match self {
            Report::Disconnected => true,
            _ => false,
        }
    }
}

/// A text in a binary frame is read as it was written: whatever the text, a frame
/// with its encoding asks for just that text to be read. Bytes that encode no
/// text are reported as they are.
pub proof fn law_binary_text_is_read_as_written(frame: Frame, bytes: Vec<u8>, text: Seq<char>)
    requires
        frame == Frame::Binary(bytes),
    ensures
        bytes@ == encode_utf8(text) <==> frame_action(frame) == ActionView::Parse(text),
        (forall|any: Seq<char>| bytes@ != #[trigger] encode_utf8(any)) <==> frame_action(frame)
            == ActionView::Print(ReportView::UnknownBinary(bytes@)),
{
    broadcast use {
        vstd::utf8::encode_utf8_valid_utf8,
        vstd::utf8::encode_utf8_decode_utf8,
        vstd::utf8::decode_utf8_encode_utf8,
    };

    if valid_utf8(bytes@) {
        assert(encode_utf8(decode_utf8(bytes@)) == bytes@);
    }
    assert(valid_utf8(encode_utf8(text)));
    assert(decode_utf8(encode_utf8(text)) == text);
}

/// Only a binary frame is read. Of any other frame its kind is reported, and of a
/// text frame all of its text.
pub proof fn law_other_frames_are_reported(frame: Frame)
    requires
        frame !is Binary,
    ensures
        frame_action(frame) is Print,
        frame matches Frame::Text(text) ==> frame_action(frame)->Print_0 == ReportView::Text(text@),
        frame is Ping <==> frame_action(frame)->Print_0 is Ping,
        frame is Pong <==> frame_action(frame)->Print_0 is Pong,
        frame is Nothing <==> frame_action(frame)->Print_0 is Nothing,
{
}

/// A text that reads as a message is reported as that message, whatever it
/// holds, and any other text as it is.
pub proof fn law_messages_are_reported_whole(message: GameMessage, text: Seq<char>)
    ensures
        message matches GameMessage::Connect { name } ==> text_report(Some(message), text)
            == ReportView::Message(GameMessageView::Connect { name: name@ }),
        message matches GameMessage::Status { players } ==> text_report(Some(message), text)
            == ReportView::Message(GameMessageView::Status { players }),
        text_report(None, text) == ReportView::UnknownJson(text),
{
}

/// What a report stands for is what it holds.
pub proof fn law_reports_stand_for_what_they_hold(report: Report)
    ensures
        report matches Report::Text(text) ==> report@ == ReportView::Text(text@),
        report matches Report::Message(GameMessage::Connect { name }) ==> report@
            == ReportView::Message(GameMessageView::Connect { name: name@ }),
        report matches Report::Message(GameMessage::Status { players }) ==> report@
            == ReportView::Message(GameMessageView::Status { players }),
        report matches Report::UnknownJson(text) ==> report@ == ReportView::UnknownJson(text@),
        report matches Report::UnknownBinary(bytes) ==> report@ == ReportView::UnknownBinary(
            bytes@,
        ),
        report is Ping <==> report@ is Ping,
        report is Pong <==> report@ is Pong,
        report is Disconnected <==> report@ is Disconnected,
        report is Nothing <==> report@ is Nothing,
{
}

/// Every report but the one of nothing has a line. It starts with words of its
/// own and ends with all that the report holds.
pub proof fn law_lines_hold_the_reports(
    text: Seq<char>,
    players: usize,
    bytes: Seq<u8>,
    report: ReportView,
)
    ensures
        report_line(report) is None <==> report is Nothing,
        ends_with(report_line(ReportView::Text(text)), "client sent str: "@, quoted(text)),
        ends_with(
            report_line(ReportView::Message(GameMessageView::Connect { name: text })),
            "new game connected with name: "@,
            text,
        ),
        ends_with(
            report_line(ReportView::Message(GameMessageView::Status { players })),
            "status update with players: "@,
            decimal(players as nat),
        ),
        ends_with(
            report_line(ReportView::UnknownJson(text)),
            "Got unknown JSON data: "@,
            quoted(text),
        ),
        ends_with(
            report_line(ReportView::UnknownBinary(bytes)),
            "client sent unknown binary data: "@,
            byte_list(bytes),
        ),
        ends_with(report_line(ReportView::Ping), "socket ping"@, Seq::empty()),
        ends_with(report_line(ReportView::Pong), "socket pong"@, Seq::empty()),
        ends_with(report_line(ReportView::Disconnected), "client disconnected"@, Seq::empty()),
{
}

/// Whether there is a line that starts with `words` and goes on with `rest`.
pub open spec fn ends_with(line: Option<Seq<char>>, words: Seq<char>, rest: Seq<char>) -> bool {
    &&& line is Some
    &&& line->0.len() == words.len() + rest.len()
    &&& line->0.take(words.len() as int) =~= words
    &&& line->0.skip(words.len() as int) =~= rest
}

/// The watch ends with the closing frame and with an error, and with nothing
/// else: whatever a text reads as, the watch goes on.
pub proof fn law_watch_ends_with_the_client(
    frame: Frame,
    message: Option<GameMessage>,
    text: Seq<char>,
)
    ensures
        frame_action(frame) == ActionView::Print(ReportView::Disconnected) <==> frame is Close
            || frame is Failed,
        text_report(message, text) != ReportView::Disconnected,
{
}

} // verus!
