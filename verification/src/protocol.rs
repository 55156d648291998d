//! The wire protocol: commands, and the frames that carry them.
//!
//! A frame is a tag of three letters, alone or followed by one space and a
//! JSON document, the body.

pub mod fields;
pub mod types;
pub mod server;
pub mod client;
pub mod error;

pub use self::client::ClientCommand;
pub use self::error::ProtocolError;
pub use self::server::{decode_command, CodecError, ServerCommand};
pub use self::types::{BridgeEvent, ChannelInfo, CharacterIdentity, Decimal, FlatCharacterData, IdentifyMethod, IgnoreAction, KinkId, KinkResponsePart, OfficialChannelInfo, ProfileDataPart, ReportAction, Target, Variable};

use vstd::prelude::*;
use vstd::string::{StrSliceExecFns, StringExecFns};
use crate::json::{json_parse, json_print, parse_value, print_value, value_model, value_null, JsonModel};
use crate::text::push_char;

verus! {

/// The tag of a frame: its first three characters, or all of a shorter frame.
pub open spec fn frame_tag(text: Seq<char>) -> Seq<char> {
    if text.len() > 3 {
        text.subrange(0, 3)
    } else {
        text
    }
}

/// The text of a frame's body: what follows the tag and one space. It is
/// empty for a frame that ends with the tag, and nothing where the tag is
/// followed by anything but a space.
pub open spec fn frame_body_text(text: Seq<char>) -> Option<Seq<char>> {
    if text.len() <= 3 {
        Some(Seq::empty())
    } else if text[3] == ' ' {
        Some(text.subrange(4, text.len() as int))
    } else {
        None
    }
}

/// The body of a frame: `null` for an empty body text, else the document
/// that the text is parsed as. Nothing where there is no body text or it
/// does not parse.
pub open spec fn frame_body(text: Seq<char>) -> Option<JsonModel> {
    match frame_body_text(text) {
        Some(body) => if body.len() == 0 {
            Some(JsonModel::Null)
        } else {
            json_parse(body)
        },
        None => None,
    }
}

/// The frame of a command: the tag, and for a command with fields a space
/// and the printed body.
pub open spec fn frame_of(command: ClientCommand) -> Seq<char> {
    match command.body() {
        Some(body) => command.tag() + seq![' '] + json_print(body),
        None => command.tag(),
    }
}

/// Reads a frame from the server as a command.
///
/// The result is the command that the tag names, with every field read from
/// the body. A tag that names no command gives `UnknownCommand` with the tag;
/// a known tag with anything but a space and JSON behind it gives
/// `MalformedFrame`; a body that the command cannot be read from gives
/// `InvalidBody`.
pub fn parse_command(command: &str) -> (r: Result<ServerCommand, CodecError>)
    ensures
        match r {
            Ok(read) => {
                &&& read.tag() == frame_tag(command@)
                &&& frame_body(command@) matches Some(body) && ServerCommand::readable(
                    frame_tag(command@),
                    body,
                ) && read.is_reading_of(body)
            },
            Err(CodecError::UnknownCommand(tag)) => {
                &&& tag@ == frame_tag(command@)
                &&& !ServerCommand::known_tag(frame_tag(command@))
            },
            Err(CodecError::MalformedFrame) => {
                &&& ServerCommand::known_tag(frame_tag(command@))
                &&& frame_body(command@).is_none()
            },
            Err(CodecError::InvalidBody) => {
                &&& ServerCommand::known_tag(frame_tag(command@))
                &&& frame_body(command@) matches Some(body) && !ServerCommand::readable(
                    frame_tag(command@),
                    body,
                )
            },
        },
{
    let n = command.unicode_len();
    let tag = if n > 3 {
        command.substring_char(0, 3)
    } else {
        command
    };
    if !ServerCommand::is_known_tag(tag) {
        return Err(CodecError::UnknownCommand(tag.to_owned()));
    }
    let body = if n <= 3 {
        value_null()
    } else if command.get_char(3) != ' ' {
        return Err(CodecError::MalformedFrame);
    } else if n == 4 {
        assert(command@.subrange(4, 4).len() == 0);
        value_null()
    } else {
        match parse_value(command.substring_char(4, n)) {
            Ok(body) => body,
            Err(_) => {
                return Err(CodecError::MalformedFrame);
            },
        }
    };
    decode_command(tag, &body)
}

/// Writes a command as a frame for the server.
pub fn prepare_command(command: &ClientCommand) -> (text: String)
    ensures
        text@ == frame_of(*command),
{
    let mut text = command.tag_name().to_owned();
    match command.body_value() {
        Some(body) => {
            push_char(&mut text, ' ');
            let printed = print_value(&body);
            text.append(printed.as_str());
            assert(text@ =~= command.tag() + seq![' '] + printed@);
        },
        None => {},
    }
    text
}

/// The frame of a command splits back into the command's tag and the printed
/// body.
pub proof fn lemma_frame_parts(command: ClientCommand)
    ensures
        frame_tag(frame_of(command)) == command.tag(),
        frame_body_text(frame_of(command)) == (match command.body() {
            Some(body) => Some(json_print(body)),
            None => Some(Seq::empty()),
        }),
{
    reveal_strlit("ACB");
    assert("ACB"@.len() == 3);
    reveal_strlit("AOP");
    assert("AOP"@.len() == 3);
    reveal_strlit("CRC");
    assert("CRC"@.len() == 3);
    reveal_strlit("DOP");
    assert("DOP"@.len() == 3);
    reveal_strlit("AWC");
    assert("AWC"@.len() == 3);
    reveal_strlit("BRO");
    assert("BRO"@.len() == 3);
    reveal_strlit("CBL");
    assert("CBL"@.len() == 3);
    reveal_strlit("CBU");
    assert("CBU"@.len() == 3);
    reveal_strlit("COA");
    assert("COA"@.len() == 3);
    reveal_strlit("CCR");
    assert("CCR"@.len() == 3);
    reveal_strlit("CDS");
    assert("CDS"@.len() == 3);
    reveal_strlit("CHA");
    assert("CHA"@.len() == 3);
    reveal_strlit("CIU");
    assert("CIU"@.len() == 3);
    reveal_strlit("CKU");
    assert("CKU"@.len() == 3);
    reveal_strlit("COL");
    assert("COL"@.len() == 3);
    reveal_strlit("COR");
    assert("COR"@.len() == 3);
    reveal_strlit("CSO");
    assert("CSO"@.len() == 3);
    reveal_strlit("CTU");
    assert("CTU"@.len() == 3);
    reveal_strlit("CUB");
    assert("CUB"@.len() == 3);
    reveal_strlit("FKS");
    assert("FKS"@.len() == 3);
    reveal_strlit("IDN");
    assert("IDN"@.len() == 3);
    reveal_strlit("IGN");
    assert("IGN"@.len() == 3);
    reveal_strlit("JCH");
    assert("JCH"@.len() == 3);
    reveal_strlit("KIC");
    assert("KIC"@.len() == 3);
    reveal_strlit("KIK");
    assert("KIK"@.len() == 3);
    reveal_strlit("KIN");
    assert("KIN"@.len() == 3);
    reveal_strlit("LCH");
    assert("LCH"@.len() == 3);
    reveal_strlit("LRP");
    assert("LRP"@.len() == 3);
    reveal_strlit("MSG");
    assert("MSG"@.len() == 3);
    reveal_strlit("ORS");
    assert("ORS"@.len() == 3);
    reveal_strlit("PIN");
    assert("PIN"@.len() == 3);
    reveal_strlit("PRI");
    assert("PRI"@.len() == 3);
    reveal_strlit("PRO");
    assert("PRO"@.len() == 3);
    reveal_strlit("RLL");
    assert("RLL"@.len() == 3);
    reveal_strlit("RLD");
    assert("RLD"@.len() == 3);
    reveal_strlit("RMO");
    assert("RMO"@.len() == 3);
    reveal_strlit("RST");
    assert("RST"@.len() == 3);
    reveal_strlit("RWD");
    assert("RWD"@.len() == 3);
    reveal_strlit("SFC");
    assert("SFC"@.len() == 3);
    reveal_strlit("STA");
    assert("STA"@.len() == 3);
    reveal_strlit("TMO");
    assert("TMO"@.len() == 3);
    reveal_strlit("TPN");
    assert("TPN"@.len() == 3);
    reveal_strlit("UNB");
    assert("UNB"@.len() == 3);
    reveal_strlit("UPT");
    assert("UPT"@.len() == 3);
    let tag = command.tag();
    assert(tag.len() == 3);
    match command.body() {
        Some(body) => {
            let text = frame_of(command);
            assert(text.subrange(0, 3) =~= tag);
            assert(text[3] == ' ');
            assert(text.subrange(4, text.len() as int) =~= json_print(body));
        },
        None => {},
    }
}

/// Where the parser reads the printed body of a command back as that body,
/// the frame of the command is read as the command: it has the command's
/// tag, its body is the command's body, and every field of the command is
/// what the body holds. This is as far as the round trip can be proved: that
/// the parser reads back what the printer printed is a property of the two,
/// which is taken as given here and not proved.
pub proof fn lemma_frame_round_trip(command: ClientCommand)
    requires
        command.wf(),
        command.body() matches Some(body) ==> json_print(body).len() > 0 && json_parse(
            json_print(body),
        ) == Some(body),
    ensures
        frame_tag(frame_of(command)) == command.tag(),
        match command.body() {
            Some(body) => frame_body(frame_of(command)) == Some(body) && command.is_reading_of(
                body,
            ),
            None => frame_body(frame_of(command)) == Some(JsonModel::Null),
        },
{
    lemma_frame_parts(command);
    crate::protocol::client::lemma_body_round_trip(command);
}

/// Two commands with the same frame are the same on the wire: they have the
/// same tag, are of the same kind and have the same body. This holds where
/// the printer gives the two bodies different texts unless they are the same
/// body, which is taken as given here and not proved.
pub proof fn lemma_same_frame_same_command(first: ClientCommand, second: ClientCommand)
    requires
        frame_of(first) == frame_of(second),
        forall|a: JsonModel, b: JsonModel|
            first.body() == Some(a) && second.body() == Some(b) && json_print(a) == json_print(b)
                ==> a == b,
    ensures
        first.tag() == second.tag(),
        first.kind() == second.kind(),
        first.body() == second.body(),
{
    lemma_frame_parts(first);
    lemma_frame_parts(second);
    first.lemma_tag_names_kind(second);
    first.lemma_kind_has_body(second);
}

} // verus!
