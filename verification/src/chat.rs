//! What the chat client makes of the lines its user types: which kind of
//! message the user chose, when the user wants to leave, and what is sent
//! otherwise.

use crate::packet::{byte_len, MsgPacket};
use vstd::prelude::*;
use vstd::string::StrSliceExecFns;

verus! {

/// The form in which a client sends what its user types.
#[derive(Clone, Copy, Debug, PartialEq, Eq, Structural)]
pub enum ChatMode {
    /// As a packet that names the sender.
    Packet,
    /// As bare text.
    Text,
}

/// What a typed line asks for.
#[derive(Debug, PartialEq, Eq)]
pub enum LineCommand {
    /// Leave the chat.
    Quit,
    /// Send this text.
    Say(String),
}

/// A [`LineCommand`] with its text as a sequence.
pub enum LineCommandView {
    Quit,
    Say(Seq<char>),
}

impl View for LineCommand {
    type V = LineCommandView;

    open spec fn view(&self) -> LineCommandView {
        match *self {
            LineCommand::Quit => LineCommandView::Quit,
            LineCommand::Say(text) => LineCommandView::Say(text@),
        }
    }
}

/// A line without the character that ends it.
pub open spec fn line_body(line: Seq<char>) -> Seq<char>
    recommends
        line.len() > 0,
{
    line.drop_last()
}

/// The mode that the answer `line` to the client's first question selects:
/// `1` asks for packets, anything else for bare text.
pub open spec fn mode_of(line: Seq<char>) -> ChatMode
    recommends
        line.len() > 0,
{
    if line_body(line) == seq!['1'] {
        ChatMode::Packet
    } else {
        ChatMode::Text
    }
}

/// What the typed line `line` asks for: `q` asks to leave, anything else is
/// text to send.
pub open spec fn command_of(line: Seq<char>) -> LineCommandView
    recommends
        line.len() > 0,
{
    if line_body(line) == seq!['q'] {
        LineCommandView::Quit
    } else {
        LineCommandView::Say(line_body(line))
    }
}

/// The line without the character that ends it, or `None` for a line that
/// holds nothing, which is what the end of the input reads as.
pub fn strip_line_end(line: &str) -> (body: Option<&str>)
    ensures
        body.is_none() <==> line@.len() == 0,
        body.is_some() ==> body.unwrap()@ == line_body(line@),
{
    let n: usize = line.unicode_len();
    if n == 0 {
        None
    } else {
        let body = line.substring_char(0, n - 1);
        assert(line@.subrange(0, n - 1) =~= line@.drop_last());
        Some(body)
    }
}

/// Whether `text` is the one character `c`.
fn is_single(text: &str, c: char) -> (yes: bool)
    ensures
        yes == (text@ == seq![c]),
{
    if text.unicode_len() == 1 {
        let first = text.get_char(0);
        assert(first == c ==> text@ =~= seq![c]);
        first == c
    } else {
        false
    }
}

/// The mode that the user's answer selects, or `None` where no line was read.
pub fn chat_mode(line: &str) -> (mode: Option<ChatMode>)
    ensures
        mode.is_none() <==> line@.len() == 0,
        mode.is_some() ==> mode.unwrap() == mode_of(line@),
{
    match strip_line_end(line) {
        None => None,
        Some(body) => if is_single(body, '1') {
            Some(ChatMode::Packet)
        } else {
            Some(ChatMode::Text)
        },
    }
}

/// What the typed line asks for, or `None` where no line was read.
pub fn read_command(line: &str) -> (command: Option<LineCommand>)
    ensures
        command.is_none() <==> line@.len() == 0,
        command.is_some() ==> command.unwrap()@ == command_of(line@),
{
    match strip_line_end(line) {
        None => None,
        Some(body) => if is_single(body, 'q') {
            Some(LineCommand::Quit)
        } else {
            Some(LineCommand::Say(body.to_owned()))
        },
    }
}

/// The packet that carries `text` for the sender that `base` names: a copy of
/// `base` with `text` as its payload.
pub fn compose(base: &MsgPacket, text: String) -> (packet: MsgPacket)
    requires
        byte_len(base.id@) + byte_len(text@) <= usize::MAX,
    ensures
        packet.id@ == base.id@,
        packet.data == text,
        packet.len == byte_len(base.id@) + byte_len(text@),
        packet.consistent(),
{
    let copy = MsgPacket { len: base.len, id: base.id.clone(), data: String::new() };
    MsgPacket::parse(copy, text)
}

} // verus!
