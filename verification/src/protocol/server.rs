//! The commands that the server sends, and how a body is read as one.

use vstd::prelude::*;
use serde_json::Value;
use crate::data::{Channel, ChannelMode, Character, Gender, Status, TypingStatus};
use crate::json::{value_model, JsonModel};
use crate::protocol::fields::{tag_code, channel_at, character_at, character_or_empty_at, characters_at, characters_or_empty_at, get_channel, get_character, get_character_or_empty, get_characters, get_characters_or_empty, get_i32, get_i32s, get_text, get_text_or_empty, get_texts, get_u32, get_u32s, get_u64, i32_at, i32s_at, text_at, text_or_empty_at, texts_at, u32_at, u32s_at, u64_at, views};
use crate::protocol::types::{channel_infos_at, get_channel_infos, get_identities, get_kinks, get_official_infos, get_online, identities_at, kinks_at, official_infos_at, online_at, BridgeEvent, ChannelInfo, CharacterIdentity, FlatCharacterData, IgnoreAction, KinkId, KinkResponsePart, OfficialChannelInfo, ProfileDataPart, Target, Variable};
use crate::text::text_eq;
use crate::wire::{get_named, named_at};
use vstd::string::StringExecFns;

verus! {

/// Why a frame could not be read as a command.
#[derive(Clone, Debug, PartialEq, Eq)]
pub enum CodecError {
    /// The tag names no command that the server is known to send. The frame
    /// can be skipped.
    UnknownCommand(String),
    /// What follows the tag is no space and JSON document.
    MalformedFrame,
    /// The body lacks a member of the command, or holds one in a form that
    /// cannot be read.
    InvalidBody,
}

impl CodecError {
    /// A description of the error.
    pub fn message(&self) -> (text: String)
        ensures
            text@ == (match *self {
                CodecError::UnknownCommand(tag) => "unknown command: "@ + tag@,
                CodecError::MalformedFrame => "malformed frame"@,
                CodecError::InvalidBody => "invalid command body"@,
            }),
    {
        match self {
            CodecError::UnknownCommand(tag) => "unknown command: ".to_owned().concat(tag.as_str()),
            CodecError::MalformedFrame => "malformed frame".to_owned(),
            CodecError::InvalidBody => "invalid command body".to_owned(),
        }
    }
}

/// A command that the server sends.
#[derive(Clone, Debug, PartialEq)]
pub enum ServerCommand {
    /// `ADL`: the list of global operators.
    GlobalOps {
        ops: Vec<Character>,
    },
    /// `AOP`: a character was made a global operator.
    GlobalOpped {
        character: Character,
    },
    /// `BRO`: a message to everyone from an administrator.
    Broadcast {
        message: String,
        character: Character,
    },
    /// `CDS`: the description of a room changed.
    ChannelDescription {
        channel: Channel,
        description: String,
    },
    /// `CHA`: the list of official rooms.
    GlobalChannels {
        channels: Vec<OfficialChannelInfo>,
    },
    /// `CIU`: an invitation to a room.
    Invited {
        sender: Character,
        title: String,
        name: Channel,
    },
    /// `CBU`: a character was banned from a room.
    Banned {
        operator: Character,
        channel: Channel,
        character: Character,
    },
    /// `CKU`: a character was kicked from a room.
    Kicked {
        operator: Character,
        channel: Channel,
        character: Character,
    },
    /// `COA`: a character was made an operator of a room.
    Opped {
        character: Character,
        channel: Channel,
    },
    /// `COL`: the operators of a room.
    Ops {
        channel: Channel,
        oplist: Vec<Character>,
    },
    /// `CON`: the handshake is over; the number of connected characters.
    Connected {
        count: u32,
    },
    /// `COR`: a character is no longer an operator of a room.
    Deopped {
        character: Character,
        channel: Channel,
    },
    /// `CSO`: a room has a new owner.
    SetOwner {
        character: Character,
        channel: Channel,
    },
    /// `CTU`: a character was timed out from a room.
    Timeout {
        channel: Channel,
        character: Character,
        length: u32,
        operator: Character,
    },
    /// `DOP`: a character is no longer a global operator.
    GlobalDeopped {
        character: Character,
    },
    /// `ERR`: an error, by number, with its message.
    Error {
        number: i32,
        message: String,
    },
    /// `FKS`: the result of a search.
    Search {
        characters: Vec<Character>,
        kinks: Vec<KinkId>,
    },
    /// `FLN`: a character went offline.
    Offline {
        character: Character,
    },
    /// `HLO`: the greeting of the server.
    Hello {
        message: String,
    },
    /// `ICH`: the state of a room that was joined.
    ChannelData {
        users: Vec<CharacterIdentity>,
        channel: Channel,
        mode: ChannelMode,
    },
    /// `IDN`: the identification was accepted.
    IdentifySuccess {
        character: Character,
    },
    /// `JCH`: a character joined a room.
    JoinedChannel {
        channel: Channel,
        character: CharacterIdentity,
        title: String,
    },
    /// `KID`: a part of a kink listing.
    Kinks {
        response_type: KinkResponsePart,
        message: String,
        key: Vec<u32>,
        value: Vec<u32>,
    },
    /// `LCH`: a character left a room.
    LeftChannel {
        channel: Channel,
        character: Character,
    },
    /// `LIS`: a batch of the characters that are online.
    ListOnline {
        characters: Vec<FlatCharacterData>,
    },
    /// `NLN`: a character came online.
    NewConnection {
        status: Status,
        gender: Gender,
        identity: Character,
    },
    /// `IGN`: a change of the ignore list, or the list itself.
    Ignore {
        action: IgnoreAction,
        characters: Vec<Character>,
        character: Character,
    },
    /// `FRL`: the friends and bookmarks that are online.
    Friends {
        characters: Vec<Character>,
    },
    /// `ORS`: the list of private rooms.
    Channels {
        channels: Vec<ChannelInfo>,
    },
    /// `PIN`: the heartbeat of the server.
    Ping,
    /// `PRD`: a part of a profile.
    ProfileData {
        response_type: ProfileDataPart,
        message: String,
        key: String,
        value: String,
    },
    /// `PRI`: a private message.
    PrivateMessage {
        character: Character,
        message: String,
    },
    /// `MSG`: a message in a room.
    Message {
        character: Character,
        message: String,
        channel: Channel,
    },
    /// `LRP`: an ad in a room.
    Ad {
        character: Character,
        message: String,
        channel: Channel,
    },
    /// `RLL`: dice were rolled, or a bottle was spun.
    Roll {
        target: Target,
        results: Vec<i32>,
        response_type: String,
        rolls: Vec<String>,
        character: Character,
        endresult: i32,
        message: String,
    },
    /// `RMO`: the mode of a room changed.
    ChannelMode {
        mode: ChannelMode,
        channel: Channel,
    },
    /// `RTB`: something happened on the site.
    BridgeEvent {
        response_type: BridgeEvent,
        name: Character,
    },
    /// `SFC`: a report was filed or handled.
    Report {
        action: String,
        moderator: Character,
        character: Character,
        timestamp: String,
        callid: u32,
        report: String,
        logid: u32,
    },
    /// `STA`: a character changed its status.
    Status {
        status: Status,
        character: Character,
        statusmsg: String,
    },
    /// `SYS`: a notice from the server.
    SystemMessage {
        message: String,
        channel: Channel,
    },
    /// `TPN`: a partner in a private conversation started or stopped typing.
    Typing {
        character: Character,
        status: TypingStatus,
    },
    /// `UPT`: statistics of the server.
    Uptime {
        time: u64,
        starttime: u64,
        startstring: String,
        accepted: u64,
        channels: u32,
        users: u32,
        maxusers: u32,
    },
    /// `VAR`: a limit or setting of the server.
    Variable(Variable),
}

impl ServerCommand {
    /// The three letters that name the command on the wire.
    pub open spec fn tag(self) -> Seq<char> {
        match self {
            ServerCommand::GlobalOps { .. } => "ADL"@,
            ServerCommand::GlobalOpped { .. } => "AOP"@,
            ServerCommand::Broadcast { .. } => "BRO"@,
            ServerCommand::ChannelDescription { .. } => "CDS"@,
            ServerCommand::GlobalChannels { .. } => "CHA"@,
            ServerCommand::Invited { .. } => "CIU"@,
            ServerCommand::Banned { .. } => "CBU"@,
            ServerCommand::Kicked { .. } => "CKU"@,
            ServerCommand::Opped { .. } => "COA"@,
            ServerCommand::Ops { .. } => "COL"@,
            ServerCommand::Connected { .. } => "CON"@,
            ServerCommand::Deopped { .. } => "COR"@,
            ServerCommand::SetOwner { .. } => "CSO"@,
            ServerCommand::Timeout { .. } => "CTU"@,
            ServerCommand::GlobalDeopped { .. } => "DOP"@,
            ServerCommand::Error { .. } => "ERR"@,
            ServerCommand::Search { .. } => "FKS"@,
            ServerCommand::Offline { .. } => "FLN"@,
            ServerCommand::Hello { .. } => "HLO"@,
            ServerCommand::ChannelData { .. } => "ICH"@,
            ServerCommand::IdentifySuccess { .. } => "IDN"@,
            ServerCommand::JoinedChannel { .. } => "JCH"@,
            ServerCommand::Kinks { .. } => "KID"@,
            ServerCommand::LeftChannel { .. } => "LCH"@,
            ServerCommand::ListOnline { .. } => "LIS"@,
            ServerCommand::NewConnection { .. } => "NLN"@,
            ServerCommand::Ignore { .. } => "IGN"@,
            ServerCommand::Friends { .. } => "FRL"@,
            ServerCommand::Channels { .. } => "ORS"@,
            ServerCommand::Ping => "PIN"@,
            ServerCommand::ProfileData { .. } => "PRD"@,
            ServerCommand::PrivateMessage { .. } => "PRI"@,
            ServerCommand::Message { .. } => "MSG"@,
            ServerCommand::Ad { .. } => "LRP"@,
            ServerCommand::Roll { .. } => "RLL"@,
            ServerCommand::ChannelMode { .. } => "RMO"@,
            ServerCommand::BridgeEvent { .. } => "RTB"@,
            ServerCommand::Report { .. } => "SFC"@,
            ServerCommand::Status { .. } => "STA"@,
            ServerCommand::SystemMessage { .. } => "SYS"@,
            ServerCommand::Typing { .. } => "TPN"@,
            ServerCommand::Uptime { .. } => "UPT"@,
            ServerCommand::Variable(_) => "VAR"@,
        }
    }

    /// The three letters that name the command on the wire.
    pub fn tag_name(&self) -> (tag: &'static str)
        ensures
            tag@ == self.tag(),
    {
        match self {
            ServerCommand::GlobalOps { .. } => "ADL",
            ServerCommand::GlobalOpped { .. } => "AOP",
            ServerCommand::Broadcast { .. } => "BRO",
            ServerCommand::ChannelDescription { .. } => "CDS",
            ServerCommand::GlobalChannels { .. } => "CHA",
            ServerCommand::Invited { .. } => "CIU",
            ServerCommand::Banned { .. } => "CBU",
            ServerCommand::Kicked { .. } => "CKU",
            ServerCommand::Opped { .. } => "COA",
            ServerCommand::Ops { .. } => "COL",
            ServerCommand::Connected { .. } => "CON",
            ServerCommand::Deopped { .. } => "COR",
            ServerCommand::SetOwner { .. } => "CSO",
            ServerCommand::Timeout { .. } => "CTU",
            ServerCommand::GlobalDeopped { .. } => "DOP",
            ServerCommand::Error { .. } => "ERR",
            ServerCommand::Search { .. } => "FKS",
            ServerCommand::Offline { .. } => "FLN",
            ServerCommand::Hello { .. } => "HLO",
            ServerCommand::ChannelData { .. } => "ICH",
            ServerCommand::IdentifySuccess { .. } => "IDN",
            ServerCommand::JoinedChannel { .. } => "JCH",
            ServerCommand::Kinks { .. } => "KID",
            ServerCommand::LeftChannel { .. } => "LCH",
            ServerCommand::ListOnline { .. } => "LIS",
            ServerCommand::NewConnection { .. } => "NLN",
            ServerCommand::Ignore { .. } => "IGN",
            ServerCommand::Friends { .. } => "FRL",
            ServerCommand::Channels { .. } => "ORS",
            ServerCommand::Ping => "PIN",
            ServerCommand::ProfileData { .. } => "PRD",
            ServerCommand::PrivateMessage { .. } => "PRI",
            ServerCommand::Message { .. } => "MSG",
            ServerCommand::Ad { .. } => "LRP",
            ServerCommand::Roll { .. } => "RLL",
            ServerCommand::ChannelMode { .. } => "RMO",
            ServerCommand::BridgeEvent { .. } => "RTB",
            ServerCommand::Report { .. } => "SFC",
            ServerCommand::Status { .. } => "STA",
            ServerCommand::SystemMessage { .. } => "SYS",
            ServerCommand::Typing { .. } => "TPN",
            ServerCommand::Uptime { .. } => "UPT",
            ServerCommand::Variable(_) => "VAR",
        }
    }

    /// Whether a tag names a command that the server sends.
    pub open spec fn known_tag(tag: Seq<char>) -> bool {
        tag == "ADL"@
        || tag == "AOP"@
        || tag == "BRO"@
        || tag == "CDS"@
        || tag == "CHA"@
        || tag == "CIU"@
        || tag == "CBU"@
        || tag == "CKU"@
        || tag == "COA"@
        || tag == "COL"@
        || tag == "CON"@
        || tag == "COR"@
        || tag == "CSO"@
        || tag == "CTU"@
        || tag == "DOP"@
        || tag == "ERR"@
        || tag == "FKS"@
        || tag == "FLN"@
        || tag == "HLO"@
        || tag == "ICH"@
        || tag == "IDN"@
        || tag == "JCH"@
        || tag == "KID"@
        || tag == "LCH"@
        || tag == "LIS"@
        || tag == "NLN"@
        || tag == "IGN"@
        || tag == "FRL"@
        || tag == "ORS"@
        || tag == "PIN"@
        || tag == "PRD"@
        || tag == "PRI"@
        || tag == "MSG"@
        || tag == "LRP"@
        || tag == "RLL"@
        || tag == "RMO"@
        || tag == "RTB"@
        || tag == "SFC"@
        || tag == "STA"@
        || tag == "SYS"@
        || tag == "TPN"@
        || tag == "UPT"@
        || tag == "VAR"@
    }

    /// Whether a tag names a command that the server sends.
    pub fn is_known_tag(tag: &str) -> (r: bool)
        ensures
            r == Self::known_tag(tag@),
    {
        text_eq(tag, "ADL")
        || text_eq(tag, "AOP")
        || text_eq(tag, "BRO")
        || text_eq(tag, "CDS")
        || text_eq(tag, "CHA")
        || text_eq(tag, "CIU")
        || text_eq(tag, "CBU")
        || text_eq(tag, "CKU")
        || text_eq(tag, "COA")
        || text_eq(tag, "COL")
        || text_eq(tag, "CON")
        || text_eq(tag, "COR")
        || text_eq(tag, "CSO")
        || text_eq(tag, "CTU")
        || text_eq(tag, "DOP")
        || text_eq(tag, "ERR")
        || text_eq(tag, "FKS")
        || text_eq(tag, "FLN")
        || text_eq(tag, "HLO")
        || text_eq(tag, "ICH")
        || text_eq(tag, "IDN")
        || text_eq(tag, "JCH")
        || text_eq(tag, "KID")
        || text_eq(tag, "LCH")
        || text_eq(tag, "LIS")
        || text_eq(tag, "NLN")
        || text_eq(tag, "IGN")
        || text_eq(tag, "FRL")
        || text_eq(tag, "ORS")
        || text_eq(tag, "PIN")
        || text_eq(tag, "PRD")
        || text_eq(tag, "PRI")
        || text_eq(tag, "MSG")
        || text_eq(tag, "LRP")
        || text_eq(tag, "RLL")
        || text_eq(tag, "RMO")
        || text_eq(tag, "RTB")
        || text_eq(tag, "SFC")
        || text_eq(tag, "STA")
        || text_eq(tag, "SYS")
        || text_eq(tag, "TPN")
        || text_eq(tag, "UPT")
        || text_eq(tag, "VAR")
    }

    /// Whether a body holds every member of the command that a tag names, in a
    /// form that can be read.
    pub open spec fn readable(tag: Seq<char>, body: JsonModel) -> bool {
        if tag == "ADL"@ {
            characters_at(body, "ops"@).is_some()
        } else if tag == "AOP"@ {
            character_at(body, "character"@).is_some()
        } else if tag == "BRO"@ {
            {
                &&& text_at(body, "message"@).is_some()
                &&& character_at(body, "character"@).is_some()
            }
        } else if tag == "CDS"@ {
            {
                &&& channel_at(body, "channel"@).is_some()
                &&& text_at(body, "description"@).is_some()
            }
        } else if tag == "CHA"@ {
            official_infos_at(body, "channels"@).is_some()
        } else if tag == "CIU"@ {
            {
                &&& character_at(body, "sender"@).is_some()
                &&& text_at(body, "title"@).is_some()
                &&& channel_at(body, "name"@).is_some()
            }
        } else if tag == "CBU"@ {
            {
                &&& character_at(body, "operator"@).is_some()
                &&& channel_at(body, "channel"@).is_some()
                &&& character_at(body, "character"@).is_some()
            }
        } else if tag == "CKU"@ {
            {
                &&& character_at(body, "operator"@).is_some()
                &&& channel_at(body, "channel"@).is_some()
                &&& character_at(body, "character"@).is_some()
            }
        } else if tag == "COA"@ {
            {
                &&& character_at(body, "character"@).is_some()
                &&& channel_at(body, "channel"@).is_some()
            }
        } else if tag == "COL"@ {
            {
                &&& channel_at(body, "channel"@).is_some()
                &&& characters_at(body, "oplist"@).is_some()
            }
        } else if tag == "CON"@ {
            u32_at(body, "count"@).is_some()
        } else if tag == "COR"@ {
            {
                &&& character_at(body, "character"@).is_some()
                &&& channel_at(body, "channel"@).is_some()
            }
        } else if tag == "CSO"@ {
            {
                &&& character_at(body, "character"@).is_some()
                &&& channel_at(body, "channel"@).is_some()
            }
        } else if tag == "CTU"@ {
            {
                &&& channel_at(body, "channel"@).is_some()
                &&& character_at(body, "character"@).is_some()
                &&& u32_at(body, "length"@).is_some()
                &&& character_at(body, "operator"@).is_some()
            }
        } else if tag == "DOP"@ {
            character_at(body, "character"@).is_some()
        } else if tag == "ERR"@ {
            {
                &&& i32_at(body, "number"@).is_some()
                &&& text_at(body, "message"@).is_some()
            }
        } else if tag == "FKS"@ {
            {
                &&& characters_at(body, "characters"@).is_some()
                &&& kinks_at(body, "kinks"@).is_some()
            }
        } else if tag == "FLN"@ {
            character_at(body, "character"@).is_some()
        } else if tag == "HLO"@ {
            text_at(body, "message"@).is_some()
        } else if tag == "ICH"@ {
            {
                &&& identities_at(body, "users"@).is_some()
                &&& channel_at(body, "channel"@).is_some()
                &&& named_at::<ChannelMode>(body, "mode"@).is_some()
            }
        } else if tag == "IDN"@ {
            character_at(body, "character"@).is_some()
        } else if tag == "JCH"@ {
            {
                &&& channel_at(body, "channel"@).is_some()
                &&& character_at(body, "character"@).is_some()
                &&& text_at(body, "title"@).is_some()
            }
        } else if tag == "KID"@ {
            {
                &&& named_at::<KinkResponsePart>(body, "type"@).is_some()
                &&& text_at(body, "message"@).is_some()
                &&& u32s_at(body, "key"@).is_some()
                &&& u32s_at(body, "value"@).is_some()
            }
        } else if tag == "LCH"@ {
            {
                &&& channel_at(body, "channel"@).is_some()
                &&& character_at(body, "character"@).is_some()
            }
        } else if tag == "LIS"@ {
            online_at(body, "characters"@).is_some()
        } else if tag == "NLN"@ {
            {
                &&& named_at::<Status>(body, "status"@).is_some()
                &&& named_at::<Gender>(body, "gender"@).is_some()
                &&& character_at(body, "identity"@).is_some()
            }
        } else if tag == "IGN"@ {
            {
                &&& named_at::<IgnoreAction>(body, "action"@).is_some()
                &&& characters_or_empty_at(body, "characters"@).is_some()
                &&& character_or_empty_at(body, "character"@).is_some()
            }
        } else if tag == "FRL"@ {
            characters_at(body, "characters"@).is_some()
        } else if tag == "ORS"@ {
            channel_infos_at(body, "channels"@).is_some()
        } else if tag == "PIN"@ {
            true
        } else if tag == "PRD"@ {
            {
                &&& named_at::<ProfileDataPart>(body, "type"@).is_some()
                &&& text_or_empty_at(body, "message"@).is_some()
                &&& text_or_empty_at(body, "key"@).is_some()
                &&& text_or_empty_at(body, "value"@).is_some()
            }
        } else if tag == "PRI"@ {
            {
                &&& character_at(body, "character"@).is_some()
                &&& text_at(body, "message"@).is_some()
            }
        } else if tag == "MSG"@ {
            {
                &&& character_at(body, "character"@).is_some()
                &&& text_at(body, "message"@).is_some()
                &&& channel_at(body, "channel"@).is_some()
            }
        } else if tag == "LRP"@ {
            {
                &&& character_at(body, "character"@).is_some()
                &&& text_at(body, "message"@).is_some()
                &&& channel_at(body, "channel"@).is_some()
            }
        } else if tag == "RLL"@ {
            {
                &&& Target::readable(body)
                &&& i32s_at(body, "results"@).is_some()
                &&& text_at(body, "type"@).is_some()
                &&& texts_at(body, "rolls"@).is_some()
                &&& character_at(body, "character"@).is_some()
                &&& i32_at(body, "endresult"@).is_some()
                &&& text_at(body, "message"@).is_some()
            }
        } else if tag == "RMO"@ {
            {
                &&& named_at::<ChannelMode>(body, "mode"@).is_some()
                &&& channel_at(body, "channel"@).is_some()
            }
        } else if tag == "RTB"@ {
            {
                &&& named_at::<BridgeEvent>(body, "type"@).is_some()
                &&& character_at(body, "name"@).is_some()
            }
        } else if tag == "SFC"@ {
            {
                &&& text_at(body, "action"@).is_some()
                &&& character_at(body, "moderator"@).is_some()
                &&& character_at(body, "character"@).is_some()
                &&& text_at(body, "timestamp"@).is_some()
                &&& u32_at(body, "callid"@).is_some()
                &&& text_at(body, "report"@).is_some()
                &&& u32_at(body, "logid"@).is_some()
            }
        } else if tag == "STA"@ {
            {
                &&& named_at::<Status>(body, "status"@).is_some()
                &&& character_at(body, "character"@).is_some()
                &&& text_at(body, "statusmsg"@).is_some()
            }
        } else if tag == "SYS"@ {
            {
                &&& text_at(body, "message"@).is_some()
                &&& channel_at(body, "channel"@).is_some()
            }
        } else if tag == "TPN"@ {
            {
                &&& character_at(body, "character"@).is_some()
                &&& named_at::<TypingStatus>(body, "status"@).is_some()
            }
        } else if tag == "UPT"@ {
            {
                &&& u64_at(body, "time"@).is_some()
                &&& u64_at(body, "starttime"@).is_some()
                &&& text_at(body, "startstring"@).is_some()
                &&& u64_at(body, "accepted"@).is_some()
                &&& u32_at(body, "channels"@).is_some()
                &&& u32_at(body, "users"@).is_some()
                &&& u32_at(body, "maxusers"@).is_some()
            }
        } else if tag == "VAR"@ {
            Variable::readable(body)
        } else {
            false
        }
    }

    /// Whether every field of the command is what a body holds under the
    /// field's key.
    pub open spec fn is_reading_of(self, body: JsonModel) -> bool {
        match self {
            ServerCommand::GlobalOps { ops } => characters_at(body, "ops"@) == Some(views(ops@)),
            ServerCommand::GlobalOpped { character } => character_at(body, "character"@) == Some(character@),
            ServerCommand::Broadcast { message, character } => {
                &&& text_at(body, "message"@) == Some(message@)
                &&& character_at(body, "character"@) == Some(character@)
            },
            ServerCommand::ChannelDescription { channel, description } => {
                &&& channel_at(body, "channel"@) == Some(channel@)
                &&& text_at(body, "description"@) == Some(description@)
            },
            ServerCommand::GlobalChannels { channels } => official_infos_at(body, "channels"@) == Some(views(channels@)),
            ServerCommand::Invited { sender, title, name } => {
                &&& character_at(body, "sender"@) == Some(sender@)
                &&& text_at(body, "title"@) == Some(title@)
                &&& channel_at(body, "name"@) == Some(name@)
            },
            ServerCommand::Banned { operator, channel, character } => {
                &&& character_at(body, "operator"@) == Some(operator@)
                &&& channel_at(body, "channel"@) == Some(channel@)
                &&& character_at(body, "character"@) == Some(character@)
            },
            ServerCommand::Kicked { operator, channel, character } => {
                &&& character_at(body, "operator"@) == Some(operator@)
                &&& channel_at(body, "channel"@) == Some(channel@)
                &&& character_at(body, "character"@) == Some(character@)
            },
            ServerCommand::Opped { character, channel } => {
                &&& character_at(body, "character"@) == Some(character@)
                &&& channel_at(body, "channel"@) == Some(channel@)
            },
            ServerCommand::Ops { channel, oplist } => {
                &&& channel_at(body, "channel"@) == Some(channel@)
                &&& characters_at(body, "oplist"@) == Some(views(oplist@))
            },
            ServerCommand::Connected { count } => u32_at(body, "count"@) == Some(count),
            ServerCommand::Deopped { character, channel } => {
                &&& character_at(body, "character"@) == Some(character@)
                &&& channel_at(body, "channel"@) == Some(channel@)
            },
            ServerCommand::SetOwner { character, channel } => {
                &&& character_at(body, "character"@) == Some(character@)
                &&& channel_at(body, "channel"@) == Some(channel@)
            },
            ServerCommand::Timeout { channel, character, length, operator } => {
                &&& channel_at(body, "channel"@) == Some(channel@)
                &&& character_at(body, "character"@) == Some(character@)
                &&& u32_at(body, "length"@) == Some(length)
                &&& character_at(body, "operator"@) == Some(operator@)
            },
            ServerCommand::GlobalDeopped { character } => character_at(body, "character"@) == Some(character@),
            ServerCommand::Error { number, message } => {
                &&& i32_at(body, "number"@) == Some(number)
                &&& text_at(body, "message"@) == Some(message@)
            },
            ServerCommand::Search { characters, kinks } => {
                &&& characters_at(body, "characters"@) == Some(views(characters@))
                &&& kinks_at(body, "kinks"@) == Some(views(kinks@))
            },
            ServerCommand::Offline { character } => character_at(body, "character"@) == Some(character@),
            ServerCommand::Hello { message } => text_at(body, "message"@) == Some(message@),
            ServerCommand::ChannelData { users, channel, mode } => {
                &&& identities_at(body, "users"@) == Some(views(users@))
                &&& channel_at(body, "channel"@) == Some(channel@)
                &&& named_at::<ChannelMode>(body, "mode"@) == Some(mode)
            },
            ServerCommand::IdentifySuccess { character } => character_at(body, "character"@) == Some(character@),
            ServerCommand::JoinedChannel { channel, character, title } => {
                &&& channel_at(body, "channel"@) == Some(channel@)
                &&& character_at(body, "character"@) == Some(character@)
                &&& text_at(body, "title"@) == Some(title@)
            },
            ServerCommand::Kinks { response_type, message, key, value } => {
                &&& named_at::<KinkResponsePart>(body, "type"@) == Some(response_type)
                &&& text_at(body, "message"@) == Some(message@)
                &&& u32s_at(body, "key"@) == Some(views(key@))
                &&& u32s_at(body, "value"@) == Some(views(value@))
            },
            ServerCommand::LeftChannel { channel, character } => {
                &&& channel_at(body, "channel"@) == Some(channel@)
                &&& character_at(body, "character"@) == Some(character@)
            },
            ServerCommand::ListOnline { characters } => online_at(body, "characters"@) == Some(views(characters@)),
            ServerCommand::NewConnection { status, gender, identity } => {
                &&& named_at::<Status>(body, "status"@) == Some(status)
                &&& named_at::<Gender>(body, "gender"@) == Some(gender)
                &&& character_at(body, "identity"@) == Some(identity@)
            },
            ServerCommand::Ignore { action, characters, character } => {
                &&& named_at::<IgnoreAction>(body, "action"@) == Some(action)
                &&& characters_or_empty_at(body, "characters"@) == Some(views(characters@))
                &&& character_or_empty_at(body, "character"@) == Some(character@)
            },
            ServerCommand::Friends { characters } => characters_at(body, "characters"@) == Some(views(characters@)),
            ServerCommand::Channels { channels } => channel_infos_at(body, "channels"@) == Some(views(channels@)),
            ServerCommand::Ping => true,
            ServerCommand::ProfileData { response_type, message, key, value } => {
                &&& named_at::<ProfileDataPart>(body, "type"@) == Some(response_type)
                &&& text_or_empty_at(body, "message"@) == Some(message@)
                &&& text_or_empty_at(body, "key"@) == Some(key@)
                &&& text_or_empty_at(body, "value"@) == Some(value@)
            },
            ServerCommand::PrivateMessage { character, message } => {
                &&& character_at(body, "character"@) == Some(character@)
                &&& text_at(body, "message"@) == Some(message@)
            },
            ServerCommand::Message { character, message, channel } => {
                &&& character_at(body, "character"@) == Some(character@)
                &&& text_at(body, "message"@) == Some(message@)
                &&& channel_at(body, "channel"@) == Some(channel@)
            },
            ServerCommand::Ad { character, message, channel } => {
                &&& character_at(body, "character"@) == Some(character@)
                &&& text_at(body, "message"@) == Some(message@)
                &&& channel_at(body, "channel"@) == Some(channel@)
            },
            ServerCommand::Roll { target, results, response_type, rolls, character, endresult, message } => {
                &&& target.is_reading_of(body)
                &&& i32s_at(body, "results"@) == Some(views(results@))
                &&& text_at(body, "type"@) == Some(response_type@)
                &&& texts_at(body, "rolls"@) == Some(views(rolls@))
                &&& character_at(body, "character"@) == Some(character@)
                &&& i32_at(body, "endresult"@) == Some(endresult)
                &&& text_at(body, "message"@) == Some(message@)
            },
            ServerCommand::ChannelMode { mode, channel } => {
                &&& named_at::<ChannelMode>(body, "mode"@) == Some(mode)
                &&& channel_at(body, "channel"@) == Some(channel@)
            },
            ServerCommand::BridgeEvent { response_type, name } => {
                &&& named_at::<BridgeEvent>(body, "type"@) == Some(response_type)
                &&& character_at(body, "name"@) == Some(name@)
            },
            ServerCommand::Report { action, moderator, character, timestamp, callid, report, logid } => {
                &&& text_at(body, "action"@) == Some(action@)
                &&& character_at(body, "moderator"@) == Some(moderator@)
                &&& character_at(body, "character"@) == Some(character@)
                &&& text_at(body, "timestamp"@) == Some(timestamp@)
                &&& u32_at(body, "callid"@) == Some(callid)
                &&& text_at(body, "report"@) == Some(report@)
                &&& u32_at(body, "logid"@) == Some(logid)
            },
            ServerCommand::Status { status, character, statusmsg } => {
                &&& named_at::<Status>(body, "status"@) == Some(status)
                &&& character_at(body, "character"@) == Some(character@)
                &&& text_at(body, "statusmsg"@) == Some(statusmsg@)
            },
            ServerCommand::SystemMessage { message, channel } => {
                &&& text_at(body, "message"@) == Some(message@)
                &&& channel_at(body, "channel"@) == Some(channel@)
            },
            ServerCommand::Typing { character, status } => {
                &&& character_at(body, "character"@) == Some(character@)
                &&& named_at::<TypingStatus>(body, "status"@) == Some(status)
            },
            ServerCommand::Uptime { time, starttime, startstring, accepted, channels, users, maxusers } => {
                &&& u64_at(body, "time"@) == Some(time)
                &&& u64_at(body, "starttime"@) == Some(starttime)
                &&& text_at(body, "startstring"@) == Some(startstring@)
                &&& u64_at(body, "accepted"@) == Some(accepted)
                &&& u32_at(body, "channels"@) == Some(channels)
                &&& u32_at(body, "users"@) == Some(users)
                &&& u32_at(body, "maxusers"@) == Some(maxusers)
            },
            ServerCommand::Variable(variable) => variable.is_reading_of(body),
        }
    }
}

/// Reads the command that a tag names from a body.
///
/// The result is a command with that tag whose every field is what the body
/// holds under the field's key; `UnknownCommand` with the tag where the tag
/// names no command; `InvalidBody` where the tag names a command and the body
/// lacks a member of it or holds one in a form that cannot be read.
pub fn decode_command(tag: &str, body: &Value) -> (r: Result<ServerCommand, CodecError>)
    ensures
        match r {
            Ok(command) => {
                &&& command.tag() == tag@
                &&& ServerCommand::readable(tag@, value_model(*body))
                &&& command.is_reading_of(value_model(*body))
            },
            Err(CodecError::UnknownCommand(unknown)) => {
                &&& unknown@ == tag@
                &&& !ServerCommand::known_tag(tag@)
            },
            Err(CodecError::InvalidBody) => {
                &&& ServerCommand::known_tag(tag@)
                &&& !ServerCommand::readable(tag@, value_model(*body))
            },
            Err(CodecError::MalformedFrame) => false,
        },
{
    if text_eq(tag, "ADL") {
        match get_characters(body, "ops") {
            Some(ops) => Ok(ServerCommand::GlobalOps { ops }),
            None => Err(CodecError::InvalidBody),
        }
    } else if text_eq(tag, "AOP") {
        match get_character(body, "character") {
            Some(character) => Ok(ServerCommand::GlobalOpped { character }),
            None => Err(CodecError::InvalidBody),
        }
    } else if text_eq(tag, "BRO") {
        match (
            get_text(body, "message"),
            get_character(body, "character"),
        ) {
            (Some(message), Some(character)) => Ok(
                ServerCommand::Broadcast { message, character },
            ),
            _ => Err(CodecError::InvalidBody),
        }
    } else if text_eq(tag, "CDS") {
        match (
            get_channel(body, "channel"),
            get_text(body, "description"),
        ) {
            (Some(channel), Some(description)) => Ok(
                ServerCommand::ChannelDescription { channel, description },
            ),
            _ => Err(CodecError::InvalidBody),
        }
    } else if text_eq(tag, "CHA") {
        match get_official_infos(body, "channels") {
            Some(channels) => Ok(ServerCommand::GlobalChannels { channels }),
            None => Err(CodecError::InvalidBody),
        }
    } else if text_eq(tag, "CIU") {
        match (
            get_character(body, "sender"),
            get_text(body, "title"),
            get_channel(body, "name"),
        ) {
            (Some(sender), Some(title), Some(name)) => Ok(
                ServerCommand::Invited { sender, title, name },
            ),
            _ => Err(CodecError::InvalidBody),
        }
    } else if text_eq(tag, "CBU") {
        match (
            get_character(body, "operator"),
            get_channel(body, "channel"),
            get_character(body, "character"),
        ) {
            (Some(operator), Some(channel), Some(character)) => Ok(
                ServerCommand::Banned { operator, channel, character },
            ),
            _ => Err(CodecError::InvalidBody),
        }
    } else if text_eq(tag, "CKU") {
        match (
            get_character(body, "operator"),
            get_channel(body, "channel"),
            get_character(body, "character"),
        ) {
            (Some(operator), Some(channel), Some(character)) => Ok(
                ServerCommand::Kicked { operator, channel, character },
            ),
            _ => Err(CodecError::InvalidBody),
        }
    } else if text_eq(tag, "COA") {
        match (
            get_character(body, "character"),
            get_channel(body, "channel"),
        ) {
            (Some(character), Some(channel)) => Ok(
                ServerCommand::Opped { character, channel },
            ),
            _ => Err(CodecError::InvalidBody),
        }
    } else if text_eq(tag, "COL") {
        match (
            get_channel(body, "channel"),
            get_characters(body, "oplist"),
        ) {
            (Some(channel), Some(oplist)) => Ok(
                ServerCommand::Ops { channel, oplist },
            ),
            _ => Err(CodecError::InvalidBody),
        }
    } else if text_eq(tag, "CON") {
        match get_u32(body, "count") {
            Some(count) => Ok(ServerCommand::Connected { count }),
            None => Err(CodecError::InvalidBody),
        }
    } else if text_eq(tag, "COR") {
        match (
            get_character(body, "character"),
            get_channel(body, "channel"),
        ) {
            (Some(character), Some(channel)) => Ok(
                ServerCommand::Deopped { character, channel },
            ),
            _ => Err(CodecError::InvalidBody),
        }
    } else if text_eq(tag, "CSO") {
        match (
            get_character(body, "character"),
            get_channel(body, "channel"),
        ) {
            (Some(character), Some(channel)) => Ok(
                ServerCommand::SetOwner { character, channel },
            ),
            _ => Err(CodecError::InvalidBody),
        }
    } else if text_eq(tag, "CTU") {
        match (
            get_channel(body, "channel"),
            get_character(body, "character"),
            get_u32(body, "length"),
            get_character(body, "operator"),
        ) {
            (Some(channel), Some(character), Some(length), Some(operator)) => Ok(
                ServerCommand::Timeout { channel, character, length, operator },
            ),
            _ => Err(CodecError::InvalidBody),
        }
    } else if text_eq(tag, "DOP") {
        match get_character(body, "character") {
            Some(character) => Ok(ServerCommand::GlobalDeopped { character }),
            None => Err(CodecError::InvalidBody),
        }
    } else if text_eq(tag, "ERR") {
        match (
            get_i32(body, "number"),
            get_text(body, "message"),
        ) {
            (Some(number), Some(message)) => Ok(
                ServerCommand::Error { number, message },
            ),
            _ => Err(CodecError::InvalidBody),
        }
    } else if text_eq(tag, "FKS") {
        match (
            get_characters(body, "characters"),
            get_kinks(body, "kinks"),
        ) {
            (Some(characters), Some(kinks)) => Ok(
                ServerCommand::Search { characters, kinks },
            ),
            _ => Err(CodecError::InvalidBody),
        }
    } else if text_eq(tag, "FLN") {
        match get_character(body, "character") {
            Some(character) => Ok(ServerCommand::Offline { character }),
            None => Err(CodecError::InvalidBody),
        }
    } else if text_eq(tag, "HLO") {
        match get_text(body, "message") {
            Some(message) => Ok(ServerCommand::Hello { message }),
            None => Err(CodecError::InvalidBody),
        }
    } else if text_eq(tag, "ICH") {
        match (
            get_identities(body, "users"),
            get_channel(body, "channel"),
            get_named::<ChannelMode>(body, "mode"),
        ) {
            (Some(users), Some(channel), Some(mode)) => Ok(
                ServerCommand::ChannelData { users, channel, mode },
            ),
            _ => Err(CodecError::InvalidBody),
        }
    } else if text_eq(tag, "IDN") {
        match get_character(body, "character") {
            Some(character) => Ok(ServerCommand::IdentifySuccess { character }),
            None => Err(CodecError::InvalidBody),
        }
    } else if text_eq(tag, "JCH") {
        match (
            get_channel(body, "channel"),
            CharacterIdentity::get(body, "character"),
            get_text(body, "title"),
        ) {
            (Some(channel), Some(character), Some(title)) => Ok(
                ServerCommand::JoinedChannel { channel, character, title },
            ),
            _ => Err(CodecError::InvalidBody),
        }
    } else if text_eq(tag, "KID") {
        match (
            get_named::<KinkResponsePart>(body, "type"),
            get_text(body, "message"),
            get_u32s(body, "key"),
            get_u32s(body, "value"),
        ) {
            (Some(response_type), Some(message), Some(key), Some(value)) => Ok(
                ServerCommand::Kinks { response_type, message, key, value },
            ),
            _ => Err(CodecError::InvalidBody),
        }
    } else if text_eq(tag, "LCH") {
        match (
            get_channel(body, "channel"),
            get_character(body, "character"),
        ) {
            (Some(channel), Some(character)) => Ok(
                ServerCommand::LeftChannel { channel, character },
            ),
            _ => Err(CodecError::InvalidBody),
        }
    } else if text_eq(tag, "LIS") {
        match get_online(body, "characters") {
            Some(characters) => Ok(ServerCommand::ListOnline { characters }),
            None => Err(CodecError::InvalidBody),
        }
    } else if text_eq(tag, "NLN") {
        match (
            get_named::<Status>(body, "status"),
            get_named::<Gender>(body, "gender"),
            get_character(body, "identity"),
        ) {
            (Some(status), Some(gender), Some(identity)) => Ok(
                ServerCommand::NewConnection { status, gender, identity },
            ),
            _ => Err(CodecError::InvalidBody),
        }
    } else if text_eq(tag, "IGN") {
        match (
            get_named::<IgnoreAction>(body, "action"),
            get_characters_or_empty(body, "characters"),
            get_character_or_empty(body, "character"),
        ) {
            (Some(action), Some(characters), Some(character)) => Ok(
                ServerCommand::Ignore { action, characters, character },
            ),
            _ => Err(CodecError::InvalidBody),
        }
    } else if text_eq(tag, "FRL") {
        match get_characters(body, "characters") {
            Some(characters) => Ok(ServerCommand::Friends { characters }),
            None => Err(CodecError::InvalidBody),
        }
    } else if text_eq(tag, "ORS") {
        match get_channel_infos(body, "channels") {
            Some(channels) => Ok(ServerCommand::Channels { channels }),
            None => Err(CodecError::InvalidBody),
        }
    } else if text_eq(tag, "PIN") {
        Ok(ServerCommand::Ping)
    } else if text_eq(tag, "PRD") {
        match (
            get_named::<ProfileDataPart>(body, "type"),
            get_text_or_empty(body, "message"),
            get_text_or_empty(body, "key"),
            get_text_or_empty(body, "value"),
        ) {
            (Some(response_type), Some(message), Some(key), Some(value)) => Ok(
                ServerCommand::ProfileData { response_type, message, key, value },
            ),
            _ => Err(CodecError::InvalidBody),
        }
    } else if text_eq(tag, "PRI") {
        match (
            get_character(body, "character"),
            get_text(body, "message"),
        ) {
            (Some(character), Some(message)) => Ok(
                ServerCommand::PrivateMessage { character, message },
            ),
            _ => Err(CodecError::InvalidBody),
        }
    } else if text_eq(tag, "MSG") {
        match (
            get_character(body, "character"),
            get_text(body, "message"),
            get_channel(body, "channel"),
        ) {
            (Some(character), Some(message), Some(channel)) => Ok(
                ServerCommand::Message { character, message, channel },
            ),
            _ => Err(CodecError::InvalidBody),
        }
    } else if text_eq(tag, "LRP") {
        match (
            get_character(body, "character"),
            get_text(body, "message"),
            get_channel(body, "channel"),
        ) {
            (Some(character), Some(message), Some(channel)) => Ok(
                ServerCommand::Ad { character, message, channel },
            ),
            _ => Err(CodecError::InvalidBody),
        }
    } else if text_eq(tag, "RLL") {
        match (
            Target::get(body),
            get_i32s(body, "results"),
            get_text(body, "type"),
            get_texts(body, "rolls"),
            get_character(body, "character"),
            get_i32(body, "endresult"),
            get_text(body, "message"),
        ) {
            (Some(target), Some(results), Some(response_type), Some(rolls), Some(character), Some(endresult), Some(message)) => Ok(
                ServerCommand::Roll { target, results, response_type, rolls, character, endresult, message },
            ),
            _ => Err(CodecError::InvalidBody),
        }
    } else if text_eq(tag, "RMO") {
        match (
            get_named::<ChannelMode>(body, "mode"),
            get_channel(body, "channel"),
        ) {
            (Some(mode), Some(channel)) => Ok(
                ServerCommand::ChannelMode { mode, channel },
            ),
            _ => Err(CodecError::InvalidBody),
        }
    } else if text_eq(tag, "RTB") {
        match (
            get_named::<BridgeEvent>(body, "type"),
            get_character(body, "name"),
        ) {
            (Some(response_type), Some(name)) => Ok(
                ServerCommand::BridgeEvent { response_type, name },
            ),
            _ => Err(CodecError::InvalidBody),
        }
    } else if text_eq(tag, "SFC") {
        match (
            get_text(body, "action"),
            get_character(body, "moderator"),
            get_character(body, "character"),
            get_text(body, "timestamp"),
            get_u32(body, "callid"),
            get_text(body, "report"),
            get_u32(body, "logid"),
        ) {
            (Some(action), Some(moderator), Some(character), Some(timestamp), Some(callid), Some(report), Some(logid)) => Ok(
                ServerCommand::Report { action, moderator, character, timestamp, callid, report, logid },
            ),
            _ => Err(CodecError::InvalidBody),
        }
    } else if text_eq(tag, "STA") {
        match (
            get_named::<Status>(body, "status"),
            get_character(body, "character"),
            get_text(body, "statusmsg"),
        ) {
            (Some(status), Some(character), Some(statusmsg)) => Ok(
                ServerCommand::Status { status, character, statusmsg },
            ),
            _ => Err(CodecError::InvalidBody),
        }
    } else if text_eq(tag, "SYS") {
        match (
            get_text(body, "message"),
            get_channel(body, "channel"),
        ) {
            (Some(message), Some(channel)) => Ok(
                ServerCommand::SystemMessage { message, channel },
            ),
            _ => Err(CodecError::InvalidBody),
        }
    } else if text_eq(tag, "TPN") {
        match (
            get_character(body, "character"),
            get_named::<TypingStatus>(body, "status"),
        ) {
            (Some(character), Some(status)) => Ok(
                ServerCommand::Typing { character, status },
            ),
            _ => Err(CodecError::InvalidBody),
        }
    } else if text_eq(tag, "UPT") {
        match (
            get_u64(body, "time"),
            get_u64(body, "starttime"),
            get_text(body, "startstring"),
            get_u64(body, "accepted"),
            get_u32(body, "channels"),
            get_u32(body, "users"),
            get_u32(body, "maxusers"),
        ) {
            (Some(time), Some(starttime), Some(startstring), Some(accepted), Some(channels), Some(users), Some(maxusers)) => Ok(
                ServerCommand::Uptime { time, starttime, startstring, accepted, channels, users, maxusers },
            ),
            _ => Err(CodecError::InvalidBody),
        }
    } else if text_eq(tag, "VAR") {
        match Variable::get(body) {
            Some(variable) => Ok(ServerCommand::Variable(variable)),
            None => Err(CodecError::InvalidBody),
        }
    } else {
        Err(CodecError::UnknownCommand(tag.to_owned()))
    }
}


impl ServerCommand {
    /// The place of the command's kind in the list of kinds.
    pub open spec fn kind(self) -> nat {
        match self {
            ServerCommand::GlobalOps { .. } => 0,
            ServerCommand::GlobalOpped { .. } => 1,
            ServerCommand::Broadcast { .. } => 2,
            ServerCommand::ChannelDescription { .. } => 3,
            ServerCommand::GlobalChannels { .. } => 4,
            ServerCommand::Invited { .. } => 5,
            ServerCommand::Banned { .. } => 6,
            ServerCommand::Kicked { .. } => 7,
            ServerCommand::Opped { .. } => 8,
            ServerCommand::Ops { .. } => 9,
            ServerCommand::Connected { .. } => 10,
            ServerCommand::Deopped { .. } => 11,
            ServerCommand::SetOwner { .. } => 12,
            ServerCommand::Timeout { .. } => 13,
            ServerCommand::GlobalDeopped { .. } => 14,
            ServerCommand::Error { .. } => 15,
            ServerCommand::Search { .. } => 16,
            ServerCommand::Offline { .. } => 17,
            ServerCommand::Hello { .. } => 18,
            ServerCommand::ChannelData { .. } => 19,
            ServerCommand::IdentifySuccess { .. } => 20,
            ServerCommand::JoinedChannel { .. } => 21,
            ServerCommand::Kinks { .. } => 22,
            ServerCommand::LeftChannel { .. } => 23,
            ServerCommand::ListOnline { .. } => 24,
            ServerCommand::NewConnection { .. } => 25,
            ServerCommand::Ignore { .. } => 26,
            ServerCommand::Friends { .. } => 27,
            ServerCommand::Channels { .. } => 28,
            ServerCommand::Ping => 29,
            ServerCommand::ProfileData { .. } => 30,
            ServerCommand::PrivateMessage { .. } => 31,
            ServerCommand::Message { .. } => 32,
            ServerCommand::Ad { .. } => 33,
            ServerCommand::Roll { .. } => 34,
            ServerCommand::ChannelMode { .. } => 35,
            ServerCommand::BridgeEvent { .. } => 36,
            ServerCommand::Report { .. } => 37,
            ServerCommand::Status { .. } => 38,
            ServerCommand::SystemMessage { .. } => 39,
            ServerCommand::Typing { .. } => 40,
            ServerCommand::Uptime { .. } => 41,
            ServerCommand::Variable(_) => 42,
        }
    }

    /// No two kinds of command share a tag: commands with the same tag are of
    /// the same kind.
    pub proof fn lemma_tag_names_kind(self, other: Self)
        requires
            self.tag() == other.tag(),
        ensures
            self.kind() == other.kind(),
    {
        reveal_strlit("ADL");
        assert(tag_code("ADL"@) == 4277324);
        reveal_strlit("AOP");
        assert(tag_code("AOP"@) == 4280144);
        reveal_strlit("BRO");
        assert(tag_code("BRO"@) == 4346447);
        reveal_strlit("CDS");
        assert(tag_code("CDS"@) == 4408403);
        reveal_strlit("CHA");
        assert(tag_code("CHA"@) == 4409409);
        reveal_strlit("CIU");
        assert(tag_code("CIU"@) == 4409685);
        reveal_strlit("CBU");
        assert(tag_code("CBU"@) == 4407893);
        reveal_strlit("CKU");
        assert(tag_code("CKU"@) == 4410197);
        reveal_strlit("COA");
        assert(tag_code("COA"@) == 4411201);
        reveal_strlit("COL");
        assert(tag_code("COL"@) == 4411212);
        reveal_strlit("CON");
        assert(tag_code("CON"@) == 4411214);
        reveal_strlit("COR");
        assert(tag_code("COR"@) == 4411218);
        reveal_strlit("CSO");
        assert(tag_code("CSO"@) == 4412239);
        reveal_strlit("CTU");
        assert(tag_code("CTU"@) == 4412501);
        reveal_strlit("DOP");
        assert(tag_code("DOP"@) == 4476752);
        reveal_strlit("ERR");
        assert(tag_code("ERR"@) == 4543058);
        reveal_strlit("FKS");
        assert(tag_code("FKS"@) == 4606803);
        reveal_strlit("FLN");
        assert(tag_code("FLN"@) == 4607054);
        reveal_strlit("HLO");
        assert(tag_code("HLO"@) == 4738127);
        reveal_strlit("ICH");
        assert(tag_code("ICH"@) == 4801352);
        reveal_strlit("IDN");
        assert(tag_code("IDN"@) == 4801614);
        reveal_strlit("JCH");
        assert(tag_code("JCH"@) == 4866888);
        reveal_strlit("KID");
        assert(tag_code("KID"@) == 4933956);
        reveal_strlit("LCH");
        assert(tag_code("LCH"@) == 4997960);
        reveal_strlit("LIS");
        assert(tag_code("LIS"@) == 4999507);
        reveal_strlit("NLN");
        assert(tag_code("NLN"@) == 5131342);
        reveal_strlit("IGN");
        assert(tag_code("IGN"@) == 4802382);
        reveal_strlit("FRL");
        assert(tag_code("FRL"@) == 4608588);
        reveal_strlit("ORS");
        assert(tag_code("ORS"@) == 5198419);
        reveal_strlit("PIN");
        assert(tag_code("PIN"@) == 5261646);
        reveal_strlit("PRD");
        assert(tag_code("PRD"@) == 5263940);
        reveal_strlit("PRI");
        assert(tag_code("PRI"@) == 5263945);
        reveal_strlit("MSG");
        assert(tag_code("MSG"@) == 5067591);
        reveal_strlit("LRP");
        assert(tag_code("LRP"@) == 5001808);
        reveal_strlit("RLL");
        assert(tag_code("RLL"@) == 5393484);
        reveal_strlit("RMO");
        assert(tag_code("RMO"@) == 5393743);
        reveal_strlit("RTB");
        assert(tag_code("RTB"@) == 5395522);
        reveal_strlit("SFC");
        assert(tag_code("SFC"@) == 5457475);
        reveal_strlit("STA");
        assert(tag_code("STA"@) == 5461057);
        reveal_strlit("SYS");
        assert(tag_code("SYS"@) == 5462355);
        reveal_strlit("TPN");
        assert(tag_code("TPN"@) == 5525582);
        reveal_strlit("UPT");
        assert(tag_code("UPT"@) == 5591124);
        reveal_strlit("VAR");
        assert(tag_code("VAR"@) == 5652818);
    }

}


/// The heartbeat is the one command with the tag `PIN`.
pub proof fn lemma_heartbeat_tag(command: ServerCommand)
    ensures
        command.tag() == "PIN"@ <==> command is Ping,
{
    if command.tag() == "PIN"@ {
        command.lemma_tag_names_kind(ServerCommand::Ping);
    }
}

} // verus!
