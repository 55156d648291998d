//! The commands that the client sends, and the bodies that carry them.

use vstd::prelude::*;
use serde_json::Value;
use crate::data::{Channel, ChannelMode, ChannelStatus, Character, FurryPreference, Gender, Language, Orientation, Role, Status, TypingStatus};
use crate::json::{no_members, object_insert, object_new, value_from_object, value_from_str, value_from_u64, value_model, JsonModel};
use crate::protocol::fields::{channel_at, character_at, tag_code, text_at, u32_at, views};
use crate::protocol::types::{kinks_at, kinks_json, kinks_to_value, lemma_kinks_round_trip, IdentifyMethod, IgnoreAction, KinkId, ReportAction, Target};

use crate::wire::{lemma_named_list_round_trip, named_at, named_json, named_list_at, named_list_json, named_list_value, named_value, WireName};

verus! {

/// A command that the client sends.
#[derive(Clone, Debug, PartialEq, Eq)]
pub enum ClientCommand {
    /// `ACB`: bans a character from the service.
    GlobalBan {
        character: Character,
    },
    /// `AOP`: makes a character a global operator.
    GlobalOp {
        character: Character,
    },
    /// `CRC`: creates an official room.
    GlobalCreateChannel {
        name: String,
    },
    /// `DOP`: takes global operator rights from a character.
    GlobalDeop {
        character: Character,
    },
    /// `AWC`: asks for the other characters of a character's account.
    Alts {
        character: Character,
    },
    /// `BRO`: sends a message to everyone.
    Broadcast {
        message: String,
    },
    /// `CBL`: asks for the bans of a room.
    Banlist {
        channel: Channel,
    },
    /// `CBU`: bans a character from a room.
    Ban {
        channel: Channel,
        character: Character,
    },
    /// `COA`: makes a character an operator of a room.
    Op {
        channel: Channel,
        character: Character,
    },
    /// `CCR`: creates a private room.
    CreateChannel {
        name: String,
    },
    /// `CDS`: changes the description of a room.
    ChangeDescription {
        channel: Channel,
        description: String,
    },
    /// `CHA`: asks for the list of official rooms.
    GlobalChannels,
    /// `CIU`: invites a character to a room.
    ChannelInviteUser {
        channel: Channel,
        character: Character,
    },
    /// `CKU`: kicks a character from a room.
    Kick {
        channel: Channel,
        character: Character,
    },
    /// `COL`: asks for the operators of a room.
    Ops {
        channel: Channel,
    },
    /// `COR`: takes operator rights in a room from a character.
    Deop {
        channel: Channel,
        character: Character,
    },
    /// `CSO`: makes a character the owner of a room.
    SetOwner {
        channel: Channel,
        character: Character,
    },
    /// `CTU`: times a character out from a room.
    Timeout {
        channel: Channel,
        character: Character,
    },
    /// `CUB`: lifts a ban from a room.
    Pardon {
        channel: Channel,
        character: Character,
    },
    /// `FKS`: searches for characters.
    Search {
        kinks: Vec<KinkId>,
        genders: Vec<Gender>,
        orientations: Vec<Orientation>,
        languages: Vec<Language>,
        furryprefs: Vec<FurryPreference>,
        roles: Vec<Role>,
    },
    /// `IDN`: identifies the connection as a character.
    Identify {
        method: IdentifyMethod,
        account: String,
        ticket: String,
        character: Character,
        client_name: String,
        client_version: String,
    },
    /// `IGN`: changes or asks for the ignore list.
    IgnoreList {
        action: IgnoreAction,
        character: Character,
    },
    /// `JCH`: joins a room.
    JoinChannel {
        channel: Channel,
    },
    /// `KIC`: deletes a room.
    DeleteChannel {
        channel: Channel,
    },
    /// `KIK`: kicks a character from the service.
    GlobalKick {
        channel: Channel,
    },
    /// `KIN`: asks for the kinks of a character.
    Kinks {
        character: Character,
    },
    /// `LCH`: leaves a room.
    LeaveChannel {
        channel: Channel,
    },
    /// `LRP`: posts an ad in a room.
    Ad {
        channel: Channel,
        message: String,
    },
    /// `MSG`: sends a message to a room.
    Message {
        channel: Channel,
        message: String,
    },
    /// `ORS`: asks for the list of private rooms.
    Channels,
    /// `PIN`: answers the heartbeat of the server.
    Pong,
    /// `PRI`: sends a private message.
    PrivateMessage {
        recipient: Character,
        message: String,
    },
    /// `PRO`: asks for the profile of a character.
    ProfileTags {
        character: Character,
    },
    /// `RLL`: rolls dice or spins a bottle.
    Roll {
        target: Target,
        dice: String,
    },
    /// `RLD`: asks the server to reload its configuration.
    Reload {
        save: String,
    },
    /// `RMO`: changes the mode of a room.
    ChannelMode {
        channel: Channel,
        mode: ChannelMode,
    },
    /// `RST`: opens or closes a room.
    ChannelStatus {
        channel: Channel,
        status: ChannelStatus,
    },
    /// `RWD`: rewards a character.
    Reward {
        character: Character,
    },
    /// `SFC`: files a report.
    Report {
        action: ReportAction,
        report: String,
        character: Character,
    },
    /// `STA`: sets the own status.
    Status {
        status: Status,
        statusmsg: String,
    },
    /// `TMO`: times a character out from the service.
    GlobalTimeout {
        character: Character,
        time: u32,
        reason: String,
    },
    /// `TPN`: tells a partner whether one is typing.
    Typing {
        character: Character,
        status: TypingStatus,
    },
    /// `UNB`: lifts a ban from the service.
    GlobalPardon {
        character: Character,
    },
    /// `UPT`: asks for statistics of the server.
    Uptime,
}

impl ClientCommand {
    /// The three letters that name the command on the wire.
    pub open spec fn tag(self) -> Seq<char> {
        match self {
            ClientCommand::GlobalBan { .. } => "ACB"@,
            ClientCommand::GlobalOp { .. } => "AOP"@,
            ClientCommand::GlobalCreateChannel { .. } => "CRC"@,
            ClientCommand::GlobalDeop { .. } => "DOP"@,
            ClientCommand::Alts { .. } => "AWC"@,
            ClientCommand::Broadcast { .. } => "BRO"@,
            ClientCommand::Banlist { .. } => "CBL"@,
            ClientCommand::Ban { .. } => "CBU"@,
            ClientCommand::Op { .. } => "COA"@,
            ClientCommand::CreateChannel { .. } => "CCR"@,
            ClientCommand::ChangeDescription { .. } => "CDS"@,
            ClientCommand::GlobalChannels => "CHA"@,
            ClientCommand::ChannelInviteUser { .. } => "CIU"@,
            ClientCommand::Kick { .. } => "CKU"@,
            ClientCommand::Ops { .. } => "COL"@,
            ClientCommand::Deop { .. } => "COR"@,
            ClientCommand::SetOwner { .. } => "CSO"@,
            ClientCommand::Timeout { .. } => "CTU"@,
            ClientCommand::Pardon { .. } => "CUB"@,
            ClientCommand::Search { .. } => "FKS"@,
            ClientCommand::Identify { .. } => "IDN"@,
            ClientCommand::IgnoreList { .. } => "IGN"@,
            ClientCommand::JoinChannel { .. } => "JCH"@,
            ClientCommand::DeleteChannel { .. } => "KIC"@,
            ClientCommand::GlobalKick { .. } => "KIK"@,
            ClientCommand::Kinks { .. } => "KIN"@,
            ClientCommand::LeaveChannel { .. } => "LCH"@,
            ClientCommand::Ad { .. } => "LRP"@,
            ClientCommand::Message { .. } => "MSG"@,
            ClientCommand::Channels => "ORS"@,
            ClientCommand::Pong => "PIN"@,
            ClientCommand::PrivateMessage { .. } => "PRI"@,
            ClientCommand::ProfileTags { .. } => "PRO"@,
            ClientCommand::Roll { .. } => "RLL"@,
            ClientCommand::Reload { .. } => "RLD"@,
            ClientCommand::ChannelMode { .. } => "RMO"@,
            ClientCommand::ChannelStatus { .. } => "RST"@,
            ClientCommand::Reward { .. } => "RWD"@,
            ClientCommand::Report { .. } => "SFC"@,
            ClientCommand::Status { .. } => "STA"@,
            ClientCommand::GlobalTimeout { .. } => "TMO"@,
            ClientCommand::Typing { .. } => "TPN"@,
            ClientCommand::GlobalPardon { .. } => "UNB"@,
            ClientCommand::Uptime => "UPT"@,
        }
    }

    /// The three letters that name the command on the wire.
    pub fn tag_name(&self) -> (tag: &'static str)
        ensures
            tag@ == self.tag(),
    {
        match self {
            ClientCommand::GlobalBan { .. } => "ACB",
            ClientCommand::GlobalOp { .. } => "AOP",
            ClientCommand::GlobalCreateChannel { .. } => "CRC",
            ClientCommand::GlobalDeop { .. } => "DOP",
            ClientCommand::Alts { .. } => "AWC",
            ClientCommand::Broadcast { .. } => "BRO",
            ClientCommand::Banlist { .. } => "CBL",
            ClientCommand::Ban { .. } => "CBU",
            ClientCommand::Op { .. } => "COA",
            ClientCommand::CreateChannel { .. } => "CCR",
            ClientCommand::ChangeDescription { .. } => "CDS",
            ClientCommand::GlobalChannels => "CHA",
            ClientCommand::ChannelInviteUser { .. } => "CIU",
            ClientCommand::Kick { .. } => "CKU",
            ClientCommand::Ops { .. } => "COL",
            ClientCommand::Deop { .. } => "COR",
            ClientCommand::SetOwner { .. } => "CSO",
            ClientCommand::Timeout { .. } => "CTU",
            ClientCommand::Pardon { .. } => "CUB",
            ClientCommand::Search { .. } => "FKS",
            ClientCommand::Identify { .. } => "IDN",
            ClientCommand::IgnoreList { .. } => "IGN",
            ClientCommand::JoinChannel { .. } => "JCH",
            ClientCommand::DeleteChannel { .. } => "KIC",
            ClientCommand::GlobalKick { .. } => "KIK",
            ClientCommand::Kinks { .. } => "KIN",
            ClientCommand::LeaveChannel { .. } => "LCH",
            ClientCommand::Ad { .. } => "LRP",
            ClientCommand::Message { .. } => "MSG",
            ClientCommand::Channels => "ORS",
            ClientCommand::Pong => "PIN",
            ClientCommand::PrivateMessage { .. } => "PRI",
            ClientCommand::ProfileTags { .. } => "PRO",
            ClientCommand::Roll { .. } => "RLL",
            ClientCommand::Reload { .. } => "RLD",
            ClientCommand::ChannelMode { .. } => "RMO",
            ClientCommand::ChannelStatus { .. } => "RST",
            ClientCommand::Reward { .. } => "RWD",
            ClientCommand::Report { .. } => "SFC",
            ClientCommand::Status { .. } => "STA",
            ClientCommand::GlobalTimeout { .. } => "TMO",
            ClientCommand::Typing { .. } => "TPN",
            ClientCommand::GlobalPardon { .. } => "UNB",
            ClientCommand::Uptime => "UPT",
        }
    }

    /// Well-formedness: every name in the command is well-formed.
    pub open spec fn wf(self) -> bool {
        match self {
            ClientCommand::GlobalBan { character } => character.wf(),
            ClientCommand::GlobalOp { character } => character.wf(),
            ClientCommand::GlobalCreateChannel { name } => true,
            ClientCommand::GlobalDeop { character } => character.wf(),
            ClientCommand::Alts { character } => character.wf(),
            ClientCommand::Broadcast { message } => true,
            ClientCommand::Banlist { channel } => channel.wf(),
            ClientCommand::Ban { channel, character } => {
                &&& channel.wf()
                &&& character.wf()
            },
            ClientCommand::Op { channel, character } => {
                &&& channel.wf()
                &&& character.wf()
            },
            ClientCommand::CreateChannel { name } => true,
            ClientCommand::ChangeDescription { channel, description } => channel.wf(),
            ClientCommand::GlobalChannels => true,
            ClientCommand::ChannelInviteUser { channel, character } => {
                &&& channel.wf()
                &&& character.wf()
            },
            ClientCommand::Kick { channel, character } => {
                &&& channel.wf()
                &&& character.wf()
            },
            ClientCommand::Ops { channel } => channel.wf(),
            ClientCommand::Deop { channel, character } => {
                &&& channel.wf()
                &&& character.wf()
            },
            ClientCommand::SetOwner { channel, character } => {
                &&& channel.wf()
                &&& character.wf()
            },
            ClientCommand::Timeout { channel, character } => {
                &&& channel.wf()
                &&& character.wf()
            },
            ClientCommand::Pardon { channel, character } => {
                &&& channel.wf()
                &&& character.wf()
            },
            ClientCommand::Search { kinks, genders, orientations, languages, furryprefs, roles } => true,
            ClientCommand::Identify { method, account, ticket, character, client_name, client_version } => character.wf(),
            ClientCommand::IgnoreList { action, character } => character.wf(),
            ClientCommand::JoinChannel { channel } => channel.wf(),
            ClientCommand::DeleteChannel { channel } => channel.wf(),
            ClientCommand::GlobalKick { channel } => channel.wf(),
            ClientCommand::Kinks { character } => character.wf(),
            ClientCommand::LeaveChannel { channel } => channel.wf(),
            ClientCommand::Ad { channel, message } => channel.wf(),
            ClientCommand::Message { channel, message } => channel.wf(),
            ClientCommand::Channels => true,
            ClientCommand::Pong => true,
            ClientCommand::PrivateMessage { recipient, message } => recipient.wf(),
            ClientCommand::ProfileTags { character } => character.wf(),
            ClientCommand::Roll { target, dice } => target.wf(),
            ClientCommand::Reload { save } => true,
            ClientCommand::ChannelMode { channel, mode } => channel.wf(),
            ClientCommand::ChannelStatus { channel, status } => channel.wf(),
            ClientCommand::Reward { character } => character.wf(),
            ClientCommand::Report { action, report, character } => character.wf(),
            ClientCommand::Status { status, statusmsg } => true,
            ClientCommand::GlobalTimeout { character, time, reason } => character.wf(),
            ClientCommand::Typing { character, status } => character.wf(),
            ClientCommand::GlobalPardon { character } => character.wf(),
            ClientCommand::Uptime => true,
        }
    }

    /// The body of the command: an object with one member for each field,
    /// nothing for a command without fields.
    pub open spec fn body(self) -> Option<JsonModel> {
        match self {
            ClientCommand::GlobalBan { character } => Some(
                JsonModel::Object(
                    no_members()
                    .insert("character"@, JsonModel::Str(character@)),
                ),
            ),
            ClientCommand::GlobalOp { character } => Some(
                JsonModel::Object(
                    no_members()
                    .insert("character"@, JsonModel::Str(character@)),
                ),
            ),
            ClientCommand::GlobalCreateChannel { name } => Some(
                JsonModel::Object(
                    no_members()
                    .insert("name"@, JsonModel::Str(name@)),
                ),
            ),
            ClientCommand::GlobalDeop { character } => Some(
                JsonModel::Object(
                    no_members()
                    .insert("character"@, JsonModel::Str(character@)),
                ),
            ),
            ClientCommand::Alts { character } => Some(
                JsonModel::Object(
                    no_members()
                    .insert("character"@, JsonModel::Str(character@)),
                ),
            ),
            ClientCommand::Broadcast { message } => Some(
                JsonModel::Object(
                    no_members()
                    .insert("message"@, JsonModel::Str(message@)),
                ),
            ),
            ClientCommand::Banlist { channel } => Some(
                JsonModel::Object(
                    no_members()
                    .insert("channel"@, JsonModel::Str(channel@)),
                ),
            ),
            ClientCommand::Ban { channel, character } => Some(
                JsonModel::Object(
                    no_members()
                    .insert("channel"@, JsonModel::Str(channel@))
                    .insert("character"@, JsonModel::Str(character@)),
                ),
            ),
            ClientCommand::Op { channel, character } => Some(
                JsonModel::Object(
                    no_members()
                    .insert("channel"@, JsonModel::Str(channel@))
                    .insert("character"@, JsonModel::Str(character@)),
                ),
            ),
            ClientCommand::CreateChannel { name } => Some(
                JsonModel::Object(
                    no_members()
                    .insert("name"@, JsonModel::Str(name@)),
                ),
            ),
            ClientCommand::ChangeDescription { channel, description } => Some(
                JsonModel::Object(
                    no_members()
                    .insert("channel"@, JsonModel::Str(channel@))
                    .insert("description"@, JsonModel::Str(description@)),
                ),
            ),
            ClientCommand::GlobalChannels => None,
            ClientCommand::ChannelInviteUser { channel, character } => Some(
                JsonModel::Object(
                    no_members()
                    .insert("channel"@, JsonModel::Str(channel@))
                    .insert("character"@, JsonModel::Str(character@)),
                ),
            ),
            ClientCommand::Kick { channel, character } => Some(
                JsonModel::Object(
                    no_members()
                    .insert("channel"@, JsonModel::Str(channel@))
                    .insert("character"@, JsonModel::Str(character@)),
                ),
            ),
            ClientCommand::Ops { channel } => Some(
                JsonModel::Object(
                    no_members()
                    .insert("channel"@, JsonModel::Str(channel@)),
                ),
            ),
            ClientCommand::Deop { channel, character } => Some(
                JsonModel::Object(
                    no_members()
                    .insert("channel"@, JsonModel::Str(channel@))
                    .insert("character"@, JsonModel::Str(character@)),
                ),
            ),
            ClientCommand::SetOwner { channel, character } => Some(
                JsonModel::Object(
                    no_members()
                    .insert("channel"@, JsonModel::Str(channel@))
                    .insert("character"@, JsonModel::Str(character@)),
                ),
            ),
            ClientCommand::Timeout { channel, character } => Some(
                JsonModel::Object(
                    no_members()
                    .insert("channel"@, JsonModel::Str(channel@))
                    .insert("character"@, JsonModel::Str(character@)),
                ),
            ),
            ClientCommand::Pardon { channel, character } => Some(
                JsonModel::Object(
                    no_members()
                    .insert("channel"@, JsonModel::Str(channel@))
                    .insert("character"@, JsonModel::Str(character@)),
                ),
            ),
            ClientCommand::Search { kinks, genders, orientations, languages, furryprefs, roles } => Some(
                JsonModel::Object(
                    no_members()
                    .insert("kinks"@, kinks_json(kinks@))
                    .insert("genders"@, named_list_json(genders@))
                    .insert("orientations"@, named_list_json(orientations@))
                    .insert("languages"@, named_list_json(languages@))
                    .insert("furryprefs"@, named_list_json(furryprefs@))
                    .insert("roles"@, named_list_json(roles@)),
                ),
            ),
            ClientCommand::Identify { method, account, ticket, character, client_name, client_version } => Some(
                JsonModel::Object(
                    no_members()
                    .insert("method"@, named_json(method))
                    .insert("account"@, JsonModel::Str(account@))
                    .insert("ticket"@, JsonModel::Str(ticket@))
                    .insert("character"@, JsonModel::Str(character@))
                    .insert("cname"@, JsonModel::Str(client_name@))
                    .insert("cversion"@, JsonModel::Str(client_version@)),
                ),
            ),
            ClientCommand::IgnoreList { action, character } => Some(
                JsonModel::Object(
                    no_members()
                    .insert("action"@, named_json(action))
                    .insert("character"@, JsonModel::Str(character@)),
                ),
            ),
            ClientCommand::JoinChannel { channel } => Some(
                JsonModel::Object(
                    no_members()
                    .insert("channel"@, JsonModel::Str(channel@)),
                ),
            ),
            ClientCommand::DeleteChannel { channel } => Some(
                JsonModel::Object(
                    no_members()
                    .insert("channel"@, JsonModel::Str(channel@)),
                ),
            ),
            ClientCommand::GlobalKick { channel } => Some(
                JsonModel::Object(
                    no_members()
                    .insert("channel"@, JsonModel::Str(channel@)),
                ),
            ),
            ClientCommand::Kinks { character } => Some(
                JsonModel::Object(
                    no_members()
                    .insert("character"@, JsonModel::Str(character@)),
                ),
            ),
            ClientCommand::LeaveChannel { channel } => Some(
                JsonModel::Object(
                    no_members()
                    .insert("channel"@, JsonModel::Str(channel@)),
                ),
            ),
            ClientCommand::Ad { channel, message } => Some(
                JsonModel::Object(
                    no_members()
                    .insert("channel"@, JsonModel::Str(channel@))
                    .insert("message"@, JsonModel::Str(message@)),
                ),
            ),
            ClientCommand::Message { channel, message } => Some(
                JsonModel::Object(
                    no_members()
                    .insert("channel"@, JsonModel::Str(channel@))
                    .insert("message"@, JsonModel::Str(message@)),
                ),
            ),
            ClientCommand::Channels => None,
            ClientCommand::Pong => None,
            ClientCommand::PrivateMessage { recipient, message } => Some(
                JsonModel::Object(
                    no_members()
                    .insert("recipient"@, JsonModel::Str(recipient@))
                    .insert("message"@, JsonModel::Str(message@)),
                ),
            ),
            ClientCommand::ProfileTags { character } => Some(
                JsonModel::Object(
                    no_members()
                    .insert("character"@, JsonModel::Str(character@)),
                ),
            ),
            ClientCommand::Roll { target, dice } => Some(
                JsonModel::Object(
                    no_members()
                    .insert(target.key(), target.json())
                    .insert("dice"@, JsonModel::Str(dice@)),
                ),
            ),
            ClientCommand::Reload { save } => Some(
                JsonModel::Object(
                    no_members()
                    .insert("save"@, JsonModel::Str(save@)),
                ),
            ),
            ClientCommand::ChannelMode { channel, mode } => Some(
                JsonModel::Object(
                    no_members()
                    .insert("channel"@, JsonModel::Str(channel@))
                    .insert("mode"@, named_json(mode)),
                ),
            ),
            ClientCommand::ChannelStatus { channel, status } => Some(
                JsonModel::Object(
                    no_members()
                    .insert("channel"@, JsonModel::Str(channel@))
                    .insert("status"@, named_json(status)),
                ),
            ),
            ClientCommand::Reward { character } => Some(
                JsonModel::Object(
                    no_members()
                    .insert("character"@, JsonModel::Str(character@)),
                ),
            ),
            ClientCommand::Report { action, report, character } => Some(
                JsonModel::Object(
                    no_members()
                    .insert("action"@, named_json(action))
                    .insert("report"@, JsonModel::Str(report@))
                    .insert("character"@, JsonModel::Str(character@)),
                ),
            ),
            ClientCommand::Status { status, statusmsg } => Some(
                JsonModel::Object(
                    no_members()
                    .insert("status"@, named_json(status))
                    .insert("statusmsg"@, JsonModel::Str(statusmsg@)),
                ),
            ),
            ClientCommand::GlobalTimeout { character, time, reason } => Some(
                JsonModel::Object(
                    no_members()
                    .insert("character"@, JsonModel::Str(character@))
                    .insert("time"@, JsonModel::Int(time as int))
                    .insert("reason"@, JsonModel::Str(reason@)),
                ),
            ),
            ClientCommand::Typing { character, status } => Some(
                JsonModel::Object(
                    no_members()
                    .insert("character"@, JsonModel::Str(character@))
                    .insert("status"@, named_json(status)),
                ),
            ),
            ClientCommand::GlobalPardon { character } => Some(
                JsonModel::Object(
                    no_members()
                    .insert("character"@, JsonModel::Str(character@)),
                ),
            ),
            ClientCommand::Uptime => None,
        }
    }

    /// Whether every field of the command is what a body holds under the
    /// field's key, read as the server's commands are read.
    pub open spec fn is_reading_of(self, body: JsonModel) -> bool {
        match self {
            ClientCommand::GlobalBan { character } => character_at(body, "character"@) == Some(character@),
            ClientCommand::GlobalOp { character } => character_at(body, "character"@) == Some(character@),
            ClientCommand::GlobalCreateChannel { name } => text_at(body, "name"@) == Some(name@),
            ClientCommand::GlobalDeop { character } => character_at(body, "character"@) == Some(character@),
            ClientCommand::Alts { character } => character_at(body, "character"@) == Some(character@),
            ClientCommand::Broadcast { message } => text_at(body, "message"@) == Some(message@),
            ClientCommand::Banlist { channel } => channel_at(body, "channel"@) == Some(channel@),
            ClientCommand::Ban { channel, character } => {
                &&& channel_at(body, "channel"@) == Some(channel@)
                &&& character_at(body, "character"@) == Some(character@)
            },
            ClientCommand::Op { channel, character } => {
                &&& channel_at(body, "channel"@) == Some(channel@)
                &&& character_at(body, "character"@) == Some(character@)
            },
            ClientCommand::CreateChannel { name } => text_at(body, "name"@) == Some(name@),
            ClientCommand::ChangeDescription { channel, description } => {
                &&& channel_at(body, "channel"@) == Some(channel@)
                &&& text_at(body, "description"@) == Some(description@)
            },
            ClientCommand::GlobalChannels => true,
            ClientCommand::ChannelInviteUser { channel, character } => {
                &&& channel_at(body, "channel"@) == Some(channel@)
                &&& character_at(body, "character"@) == Some(character@)
            },
            ClientCommand::Kick { channel, character } => {
                &&& channel_at(body, "channel"@) == Some(channel@)
                &&& character_at(body, "character"@) == Some(character@)
            },
            ClientCommand::Ops { channel } => channel_at(body, "channel"@) == Some(channel@),
            ClientCommand::Deop { channel, character } => {
                &&& channel_at(body, "channel"@) == Some(channel@)
                &&& character_at(body, "character"@) == Some(character@)
            },
            ClientCommand::SetOwner { channel, character } => {
                &&& channel_at(body, "channel"@) == Some(channel@)
                &&& character_at(body, "character"@) == Some(character@)
            },
            ClientCommand::Timeout { channel, character } => {
                &&& channel_at(body, "channel"@) == Some(channel@)
                &&& character_at(body, "character"@) == Some(character@)
            },
            ClientCommand::Pardon { channel, character } => {
                &&& channel_at(body, "channel"@) == Some(channel@)
                &&& character_at(body, "character"@) == Some(character@)
            },
            ClientCommand::Search { kinks, genders, orientations, languages, furryprefs, roles } => {
                &&& kinks_at(body, "kinks"@) == Some(views(kinks@))
                &&& named_list_at::<Gender>(body, "genders"@) == Some(genders@)
                &&& named_list_at::<Orientation>(body, "orientations"@) == Some(orientations@)
                &&& named_list_at::<Language>(body, "languages"@) == Some(languages@)
                &&& named_list_at::<FurryPreference>(body, "furryprefs"@) == Some(furryprefs@)
                &&& named_list_at::<Role>(body, "roles"@) == Some(roles@)
            },
            ClientCommand::Identify { method, account, ticket, character, client_name, client_version } => {
                &&& named_at::<IdentifyMethod>(body, "method"@) == Some(method)
                &&& text_at(body, "account"@) == Some(account@)
                &&& text_at(body, "ticket"@) == Some(ticket@)
                &&& character_at(body, "character"@) == Some(character@)
                &&& text_at(body, "cname"@) == Some(client_name@)
                &&& text_at(body, "cversion"@) == Some(client_version@)
            },
            ClientCommand::IgnoreList { action, character } => {
                &&& named_at::<IgnoreAction>(body, "action"@) == Some(action)
                &&& character_at(body, "character"@) == Some(character@)
            },
            ClientCommand::JoinChannel { channel } => channel_at(body, "channel"@) == Some(channel@),
            ClientCommand::DeleteChannel { channel } => channel_at(body, "channel"@) == Some(channel@),
            ClientCommand::GlobalKick { channel } => channel_at(body, "channel"@) == Some(channel@),
            ClientCommand::Kinks { character } => character_at(body, "character"@) == Some(character@),
            ClientCommand::LeaveChannel { channel } => channel_at(body, "channel"@) == Some(channel@),
            ClientCommand::Ad { channel, message } => {
                &&& channel_at(body, "channel"@) == Some(channel@)
                &&& text_at(body, "message"@) == Some(message@)
            },
            ClientCommand::Message { channel, message } => {
                &&& channel_at(body, "channel"@) == Some(channel@)
                &&& text_at(body, "message"@) == Some(message@)
            },
            ClientCommand::Channels => true,
            ClientCommand::Pong => true,
            ClientCommand::PrivateMessage { recipient, message } => {
                &&& character_at(body, "recipient"@) == Some(recipient@)
                &&& text_at(body, "message"@) == Some(message@)
            },
            ClientCommand::ProfileTags { character } => character_at(body, "character"@) == Some(character@),
            ClientCommand::Roll { target, dice } => {
                &&& target.is_reading_of(body)
                &&& text_at(body, "dice"@) == Some(dice@)
            },
            ClientCommand::Reload { save } => text_at(body, "save"@) == Some(save@),
            ClientCommand::ChannelMode { channel, mode } => {
                &&& channel_at(body, "channel"@) == Some(channel@)
                &&& named_at::<ChannelMode>(body, "mode"@) == Some(mode)
            },
            ClientCommand::ChannelStatus { channel, status } => {
                &&& channel_at(body, "channel"@) == Some(channel@)
                &&& named_at::<ChannelStatus>(body, "status"@) == Some(status)
            },
            ClientCommand::Reward { character } => character_at(body, "character"@) == Some(character@),
            ClientCommand::Report { action, report, character } => {
                &&& named_at::<ReportAction>(body, "action"@) == Some(action)
                &&& text_at(body, "report"@) == Some(report@)
                &&& character_at(body, "character"@) == Some(character@)
            },
            ClientCommand::Status { status, statusmsg } => {
                &&& named_at::<Status>(body, "status"@) == Some(status)
                &&& text_at(body, "statusmsg"@) == Some(statusmsg@)
            },
            ClientCommand::GlobalTimeout { character, time, reason } => {
                &&& character_at(body, "character"@) == Some(character@)
                &&& u32_at(body, "time"@) == Some(time)
                &&& text_at(body, "reason"@) == Some(reason@)
            },
            ClientCommand::Typing { character, status } => {
                &&& character_at(body, "character"@) == Some(character@)
                &&& named_at::<TypingStatus>(body, "status"@) == Some(status)
            },
            ClientCommand::GlobalPardon { character } => character_at(body, "character"@) == Some(character@),
            ClientCommand::Uptime => true,
        }
    }

    /// Builds the body of the command.
    pub fn body_value(&self) -> (r: Option<Value>)
        ensures
            match self.body() {
                Some(body) => r.is_some() && value_model(r.unwrap()) == body,
                None => r.is_none(),
            },
    {
        match self {
            ClientCommand::GlobalBan { character } => {
                let mut members = object_new();
                object_insert(&mut members, "character", value_from_str(character.as_str()));
                Some(value_from_object(members))
            },
            ClientCommand::GlobalOp { character } => {
                let mut members = object_new();
                object_insert(&mut members, "character", value_from_str(character.as_str()));
                Some(value_from_object(members))
            },
            ClientCommand::GlobalCreateChannel { name } => {
                let mut members = object_new();
                object_insert(&mut members, "name", value_from_str(name.as_str()));
                Some(value_from_object(members))
            },
            ClientCommand::GlobalDeop { character } => {
                let mut members = object_new();
                object_insert(&mut members, "character", value_from_str(character.as_str()));
                Some(value_from_object(members))
            },
            ClientCommand::Alts { character } => {
                let mut members = object_new();
                object_insert(&mut members, "character", value_from_str(character.as_str()));
                Some(value_from_object(members))
            },
            ClientCommand::Broadcast { message } => {
                let mut members = object_new();
                object_insert(&mut members, "message", value_from_str(message.as_str()));
                Some(value_from_object(members))
            },
            ClientCommand::Banlist { channel } => {
                let mut members = object_new();
                object_insert(&mut members, "channel", value_from_str(channel.as_str()));
                Some(value_from_object(members))
            },
            ClientCommand::Ban { channel, character } => {
                let mut members = object_new();
                object_insert(&mut members, "channel", value_from_str(channel.as_str()));
                object_insert(&mut members, "character", value_from_str(character.as_str()));
                Some(value_from_object(members))
            },
            ClientCommand::Op { channel, character } => {
                let mut members = object_new();
                object_insert(&mut members, "channel", value_from_str(channel.as_str()));
                object_insert(&mut members, "character", value_from_str(character.as_str()));
                Some(value_from_object(members))
            },
            ClientCommand::CreateChannel { name } => {
                let mut members = object_new();
                object_insert(&mut members, "name", value_from_str(name.as_str()));
                Some(value_from_object(members))
            },
            ClientCommand::ChangeDescription { channel, description } => {
                let mut members = object_new();
                object_insert(&mut members, "channel", value_from_str(channel.as_str()));
                object_insert(&mut members, "description", value_from_str(description.as_str()));
                Some(value_from_object(members))
            },
            ClientCommand::GlobalChannels => None,
            ClientCommand::ChannelInviteUser { channel, character } => {
                let mut members = object_new();
                object_insert(&mut members, "channel", value_from_str(channel.as_str()));
                object_insert(&mut members, "character", value_from_str(character.as_str()));
                Some(value_from_object(members))
            },
            ClientCommand::Kick { channel, character } => {
                let mut members = object_new();
                object_insert(&mut members, "channel", value_from_str(channel.as_str()));
                object_insert(&mut members, "character", value_from_str(character.as_str()));
                Some(value_from_object(members))
            },
            ClientCommand::Ops { channel } => {
                let mut members = object_new();
                object_insert(&mut members, "channel", value_from_str(channel.as_str()));
                Some(value_from_object(members))
            },
            ClientCommand::Deop { channel, character } => {
                let mut members = object_new();
                object_insert(&mut members, "channel", value_from_str(channel.as_str()));
                object_insert(&mut members, "character", value_from_str(character.as_str()));
                Some(value_from_object(members))
            },
            ClientCommand::SetOwner { channel, character } => {
                let mut members = object_new();
                object_insert(&mut members, "channel", value_from_str(channel.as_str()));
                object_insert(&mut members, "character", value_from_str(character.as_str()));
                Some(value_from_object(members))
            },
            ClientCommand::Timeout { channel, character } => {
                let mut members = object_new();
                object_insert(&mut members, "channel", value_from_str(channel.as_str()));
                object_insert(&mut members, "character", value_from_str(character.as_str()));
                Some(value_from_object(members))
            },
            ClientCommand::Pardon { channel, character } => {
                let mut members = object_new();
                object_insert(&mut members, "channel", value_from_str(channel.as_str()));
                object_insert(&mut members, "character", value_from_str(character.as_str()));
                Some(value_from_object(members))
            },
            ClientCommand::Search { kinks, genders, orientations, languages, furryprefs, roles } => {
                let mut members = object_new();
                object_insert(&mut members, "kinks", kinks_to_value(kinks));
                object_insert(&mut members, "genders", named_list_value(genders));
                object_insert(&mut members, "orientations", named_list_value(orientations));
                object_insert(&mut members, "languages", named_list_value(languages));
                object_insert(&mut members, "furryprefs", named_list_value(furryprefs));
                object_insert(&mut members, "roles", named_list_value(roles));
                Some(value_from_object(members))
            },
            ClientCommand::Identify { method, account, ticket, character, client_name, client_version } => {
                let mut members = object_new();
                object_insert(&mut members, "method", named_value(method));
                object_insert(&mut members, "account", value_from_str(account.as_str()));
                object_insert(&mut members, "ticket", value_from_str(ticket.as_str()));
                object_insert(&mut members, "character", value_from_str(character.as_str()));
                object_insert(&mut members, "cname", value_from_str(client_name.as_str()));
                object_insert(&mut members, "cversion", value_from_str(client_version.as_str()));
                Some(value_from_object(members))
            },
            ClientCommand::IgnoreList { action, character } => {
                let mut members = object_new();
                object_insert(&mut members, "action", named_value(action));
                object_insert(&mut members, "character", value_from_str(character.as_str()));
                Some(value_from_object(members))
            },
            ClientCommand::JoinChannel { channel } => {
                let mut members = object_new();
                object_insert(&mut members, "channel", value_from_str(channel.as_str()));
                Some(value_from_object(members))
            },
            ClientCommand::DeleteChannel { channel } => {
                let mut members = object_new();
                object_insert(&mut members, "channel", value_from_str(channel.as_str()));
                Some(value_from_object(members))
            },
            ClientCommand::GlobalKick { channel } => {
                let mut members = object_new();
                object_insert(&mut members, "channel", value_from_str(channel.as_str()));
                Some(value_from_object(members))
            },
            ClientCommand::Kinks { character } => {
                let mut members = object_new();
                object_insert(&mut members, "character", value_from_str(character.as_str()));
                Some(value_from_object(members))
            },
            ClientCommand::LeaveChannel { channel } => {
                let mut members = object_new();
                object_insert(&mut members, "channel", value_from_str(channel.as_str()));
                Some(value_from_object(members))
            },
            ClientCommand::Ad { channel, message } => {
                let mut members = object_new();
                object_insert(&mut members, "channel", value_from_str(channel.as_str()));
                object_insert(&mut members, "message", value_from_str(message.as_str()));
                Some(value_from_object(members))
            },
            ClientCommand::Message { channel, message } => {
                let mut members = object_new();
                object_insert(&mut members, "channel", value_from_str(channel.as_str()));
                object_insert(&mut members, "message", value_from_str(message.as_str()));
                Some(value_from_object(members))
            },
            ClientCommand::Channels => None,
            ClientCommand::Pong => None,
            ClientCommand::PrivateMessage { recipient, message } => {
                let mut members = object_new();
                object_insert(&mut members, "recipient", value_from_str(recipient.as_str()));
                object_insert(&mut members, "message", value_from_str(message.as_str()));
                Some(value_from_object(members))
            },
            ClientCommand::ProfileTags { character } => {
                let mut members = object_new();
                object_insert(&mut members, "character", value_from_str(character.as_str()));
                Some(value_from_object(members))
            },
            ClientCommand::Roll { target, dice } => {
                let mut members = object_new();
                object_insert(&mut members, target.key_name(), target.to_value());
                object_insert(&mut members, "dice", value_from_str(dice.as_str()));
                Some(value_from_object(members))
            },
            ClientCommand::Reload { save } => {
                let mut members = object_new();
                object_insert(&mut members, "save", value_from_str(save.as_str()));
                Some(value_from_object(members))
            },
            ClientCommand::ChannelMode { channel, mode } => {
                let mut members = object_new();
                object_insert(&mut members, "channel", value_from_str(channel.as_str()));
                object_insert(&mut members, "mode", named_value(mode));
                Some(value_from_object(members))
            },
            ClientCommand::ChannelStatus { channel, status } => {
                let mut members = object_new();
                object_insert(&mut members, "channel", value_from_str(channel.as_str()));
                object_insert(&mut members, "status", named_value(status));
                Some(value_from_object(members))
            },
            ClientCommand::Reward { character } => {
                let mut members = object_new();
                object_insert(&mut members, "character", value_from_str(character.as_str()));
                Some(value_from_object(members))
            },
            ClientCommand::Report { action, report, character } => {
                let mut members = object_new();
                object_insert(&mut members, "action", named_value(action));
                object_insert(&mut members, "report", value_from_str(report.as_str()));
                object_insert(&mut members, "character", value_from_str(character.as_str()));
                Some(value_from_object(members))
            },
            ClientCommand::Status { status, statusmsg } => {
                let mut members = object_new();
                object_insert(&mut members, "status", named_value(status));
                object_insert(&mut members, "statusmsg", value_from_str(statusmsg.as_str()));
                Some(value_from_object(members))
            },
            ClientCommand::GlobalTimeout { character, time, reason } => {
                let mut members = object_new();
                object_insert(&mut members, "character", value_from_str(character.as_str()));
                object_insert(&mut members, "time", value_from_u64(*time as u64));
                object_insert(&mut members, "reason", value_from_str(reason.as_str()));
                Some(value_from_object(members))
            },
            ClientCommand::Typing { character, status } => {
                let mut members = object_new();
                object_insert(&mut members, "character", value_from_str(character.as_str()));
                object_insert(&mut members, "status", named_value(status));
                Some(value_from_object(members))
            },
            ClientCommand::GlobalPardon { character } => {
                let mut members = object_new();
                object_insert(&mut members, "character", value_from_str(character.as_str()));
                Some(value_from_object(members))
            },
            ClientCommand::Uptime => None,
        }
    }
}


/// Every command can be read back from its own body: each field is what the
/// body holds under the field's key.
pub proof fn lemma_body_round_trip(command: ClientCommand)
    requires
        command.wf(),
    ensures
        match command.body() {
            Some(body) => command.is_reading_of(body),
            None => true,
        },
{
    match command {
        ClientCommand::GlobalBan { character } => {
            reveal_strlit("character");
            assert("character"@.len() == 9);
            character.lemma_fits();
        },
        ClientCommand::GlobalOp { character } => {
            reveal_strlit("character");
            assert("character"@.len() == 9);
            character.lemma_fits();
        },
        ClientCommand::GlobalCreateChannel { name } => {
            reveal_strlit("name");
            assert("name"@.len() == 4);
        },
        ClientCommand::GlobalDeop { character } => {
            reveal_strlit("character");
            assert("character"@.len() == 9);
            character.lemma_fits();
        },
        ClientCommand::Alts { character } => {
            reveal_strlit("character");
            assert("character"@.len() == 9);
            character.lemma_fits();
        },
        ClientCommand::Broadcast { message } => {
            reveal_strlit("message");
            assert("message"@.len() == 7);
        },
        ClientCommand::Banlist { channel } => {
            reveal_strlit("channel");
            assert("channel"@.len() == 7);
            channel.lemma_fits();
        },
        ClientCommand::Ban { channel, character } => {
            reveal_strlit("channel");
            assert("channel"@.len() == 7);
            reveal_strlit("character");
            assert("character"@.len() == 9);
            channel.lemma_fits();
            character.lemma_fits();
        },
        ClientCommand::Op { channel, character } => {
            reveal_strlit("channel");
            assert("channel"@.len() == 7);
            reveal_strlit("character");
            assert("character"@.len() == 9);
            channel.lemma_fits();
            character.lemma_fits();
        },
        ClientCommand::CreateChannel { name } => {
            reveal_strlit("name");
            assert("name"@.len() == 4);
        },
        ClientCommand::ChangeDescription { channel, description } => {
            reveal_strlit("channel");
            assert("channel"@.len() == 7);
            reveal_strlit("description");
            assert("description"@.len() == 11);
            channel.lemma_fits();
        },
        ClientCommand::GlobalChannels => {},
        ClientCommand::ChannelInviteUser { channel, character } => {
            reveal_strlit("channel");
            assert("channel"@.len() == 7);
            reveal_strlit("character");
            assert("character"@.len() == 9);
            channel.lemma_fits();
            character.lemma_fits();
        },
        ClientCommand::Kick { channel, character } => {
            reveal_strlit("channel");
            assert("channel"@.len() == 7);
            reveal_strlit("character");
            assert("character"@.len() == 9);
            channel.lemma_fits();
            character.lemma_fits();
        },
        ClientCommand::Ops { channel } => {
            reveal_strlit("channel");
            assert("channel"@.len() == 7);
            channel.lemma_fits();
        },
        ClientCommand::Deop { channel, character } => {
            reveal_strlit("channel");
            assert("channel"@.len() == 7);
            reveal_strlit("character");
            assert("character"@.len() == 9);
            channel.lemma_fits();
            character.lemma_fits();
        },
        ClientCommand::SetOwner { channel, character } => {
            reveal_strlit("channel");
            assert("channel"@.len() == 7);
            reveal_strlit("character");
            assert("character"@.len() == 9);
            channel.lemma_fits();
            character.lemma_fits();
        },
        ClientCommand::Timeout { channel, character } => {
            reveal_strlit("channel");
            assert("channel"@.len() == 7);
            reveal_strlit("character");
            assert("character"@.len() == 9);
            channel.lemma_fits();
            character.lemma_fits();
        },
        ClientCommand::Pardon { channel, character } => {
            reveal_strlit("channel");
            assert("channel"@.len() == 7);
            reveal_strlit("character");
            assert("character"@.len() == 9);
            channel.lemma_fits();
            character.lemma_fits();
        },
        ClientCommand::Search { kinks, genders, orientations, languages, furryprefs, roles } => {
            reveal_strlit("kinks");
            assert("kinks"@.len() == 5);
            reveal_strlit("genders");
            assert("genders"@.len() == 7);
            reveal_strlit("orientations");
            assert("orientations"@.len() == 12);
            reveal_strlit("languages");
            assert("languages"@.len() == 9);
            reveal_strlit("furryprefs");
            assert("furryprefs"@.len() == 10);
            reveal_strlit("roles");
            assert("roles"@.len() == 5);
            assert("kinks"@[0] != "roles"@[0]);
            lemma_kinks_round_trip(kinks@);
            lemma_named_list_round_trip(genders@);
            lemma_named_list_round_trip(orientations@);
            lemma_named_list_round_trip(languages@);
            lemma_named_list_round_trip(furryprefs@);
            lemma_named_list_round_trip(roles@);
        },
        ClientCommand::Identify { method, account, ticket, character, client_name, client_version } => {
            reveal_strlit("method");
            assert("method"@.len() == 6);
            reveal_strlit("account");
            assert("account"@.len() == 7);
            reveal_strlit("ticket");
            assert("ticket"@.len() == 6);
            reveal_strlit("character");
            assert("character"@.len() == 9);
            reveal_strlit("cname");
            assert("cname"@.len() == 5);
            reveal_strlit("cversion");
            assert("cversion"@.len() == 8);
            assert("method"@[0] != "ticket"@[0]);
            method.lemma_wire_round_trip();
            character.lemma_fits();
        },
        ClientCommand::IgnoreList { action, character } => {
            reveal_strlit("action");
            assert("action"@.len() == 6);
            reveal_strlit("character");
            assert("character"@.len() == 9);
            action.lemma_wire_round_trip();
            character.lemma_fits();
        },
        ClientCommand::JoinChannel { channel } => {
            reveal_strlit("channel");
            assert("channel"@.len() == 7);
            channel.lemma_fits();
        },
        ClientCommand::DeleteChannel { channel } => {
            reveal_strlit("channel");
            assert("channel"@.len() == 7);
            channel.lemma_fits();
        },
        ClientCommand::GlobalKick { channel } => {
            reveal_strlit("channel");
            assert("channel"@.len() == 7);
            channel.lemma_fits();
        },
        ClientCommand::Kinks { character } => {
            reveal_strlit("character");
            assert("character"@.len() == 9);
            character.lemma_fits();
        },
        ClientCommand::LeaveChannel { channel } => {
            reveal_strlit("channel");
            assert("channel"@.len() == 7);
            channel.lemma_fits();
        },
        ClientCommand::Ad { channel, message } => {
            reveal_strlit("channel");
            assert("channel"@.len() == 7);
            reveal_strlit("message");
            assert("message"@.len() == 7);
            assert("channel"@[0] != "message"@[0]);
            channel.lemma_fits();
        },
        ClientCommand::Message { channel, message } => {
            reveal_strlit("channel");
            assert("channel"@.len() == 7);
            reveal_strlit("message");
            assert("message"@.len() == 7);
            assert("channel"@[0] != "message"@[0]);
            channel.lemma_fits();
        },
        ClientCommand::Channels => {},
        ClientCommand::Pong => {},
        ClientCommand::PrivateMessage { recipient, message } => {
            reveal_strlit("recipient");
            assert("recipient"@.len() == 9);
            reveal_strlit("message");
            assert("message"@.len() == 7);
            recipient.lemma_fits();
        },
        ClientCommand::ProfileTags { character } => {
            reveal_strlit("character");
            assert("character"@.len() == 9);
            character.lemma_fits();
        },
        ClientCommand::Roll { target, dice } => {
            reveal_strlit("channel");
            assert("channel"@.len() == 7);
            reveal_strlit("recipient");
            assert("recipient"@.len() == 9);
            reveal_strlit("dice");
            assert("dice"@.len() == 4);
            target.lemma_fits();
        },
        ClientCommand::Reload { save } => {
            reveal_strlit("save");
            assert("save"@.len() == 4);
        },
        ClientCommand::ChannelMode { channel, mode } => {
            reveal_strlit("channel");
            assert("channel"@.len() == 7);
            reveal_strlit("mode");
            assert("mode"@.len() == 4);
            channel.lemma_fits();
            mode.lemma_wire_round_trip();
        },
        ClientCommand::ChannelStatus { channel, status } => {
            reveal_strlit("channel");
            assert("channel"@.len() == 7);
            reveal_strlit("status");
            assert("status"@.len() == 6);
            channel.lemma_fits();
            status.lemma_wire_round_trip();
        },
        ClientCommand::Reward { character } => {
            reveal_strlit("character");
            assert("character"@.len() == 9);
            character.lemma_fits();
        },
        ClientCommand::Report { action, report, character } => {
            reveal_strlit("action");
            assert("action"@.len() == 6);
            reveal_strlit("report");
            assert("report"@.len() == 6);
            reveal_strlit("character");
            assert("character"@.len() == 9);
            assert("action"@[0] != "report"@[0]);
            action.lemma_wire_round_trip();
            character.lemma_fits();
        },
        ClientCommand::Status { status, statusmsg } => {
            reveal_strlit("status");
            assert("status"@.len() == 6);
            reveal_strlit("statusmsg");
            assert("statusmsg"@.len() == 9);
            status.lemma_wire_round_trip();
        },
        ClientCommand::GlobalTimeout { character, time, reason } => {
            reveal_strlit("character");
            assert("character"@.len() == 9);
            reveal_strlit("time");
            assert("time"@.len() == 4);
            reveal_strlit("reason");
            assert("reason"@.len() == 6);
            character.lemma_fits();
        },
        ClientCommand::Typing { character, status } => {
            reveal_strlit("character");
            assert("character"@.len() == 9);
            reveal_strlit("status");
            assert("status"@.len() == 6);
            character.lemma_fits();
            status.lemma_wire_round_trip();
        },
        ClientCommand::GlobalPardon { character } => {
            reveal_strlit("character");
            assert("character"@.len() == 9);
            character.lemma_fits();
        },
        ClientCommand::Uptime => {},
    }
}

/// What is read back from the body of a command is the command: a command
/// with the same tag whose every field is what the body holds has the same
/// body, field for field.
pub proof fn lemma_read_back_is_the_command(command: ClientCommand, read: ClientCommand)
    requires
        command.wf(),
        read.tag() == command.tag(),
        command.body() matches Some(body) ==> read.is_reading_of(body),
    ensures
        read.body() == command.body(),
{
    command.lemma_tag_names_kind(read);
    lemma_body_round_trip(command);
    match (command, read) {
        (ClientCommand::Search { kinks, .. }, ClientCommand::Search { kinks: read_kinks, .. }) => {
            assert(views(kinks@) == views(read_kinks@));
            assert forall|i: int| 0 <= i < kinks@.len() implies kinks@[i] == read_kinks@[i] by {
                assert(views(kinks@)[i] == views(read_kinks@)[i]);
            }
            assert(kinks@ =~= read_kinks@);
        },
        _ => {},
    }
}


impl ClientCommand {
    /// The place of the command's kind in the list of kinds.
    pub open spec fn kind(self) -> nat {
        match self {
            ClientCommand::GlobalBan { .. } => 0,
            ClientCommand::GlobalOp { .. } => 1,
            ClientCommand::GlobalCreateChannel { .. } => 2,
            ClientCommand::GlobalDeop { .. } => 3,
            ClientCommand::Alts { .. } => 4,
            ClientCommand::Broadcast { .. } => 5,
            ClientCommand::Banlist { .. } => 6,
            ClientCommand::Ban { .. } => 7,
            ClientCommand::Op { .. } => 8,
            ClientCommand::CreateChannel { .. } => 9,
            ClientCommand::ChangeDescription { .. } => 10,
            ClientCommand::GlobalChannels => 11,
            ClientCommand::ChannelInviteUser { .. } => 12,
            ClientCommand::Kick { .. } => 13,
            ClientCommand::Ops { .. } => 14,
            ClientCommand::Deop { .. } => 15,
            ClientCommand::SetOwner { .. } => 16,
            ClientCommand::Timeout { .. } => 17,
            ClientCommand::Pardon { .. } => 18,
            ClientCommand::Search { .. } => 19,
            ClientCommand::Identify { .. } => 20,
            ClientCommand::IgnoreList { .. } => 21,
            ClientCommand::JoinChannel { .. } => 22,
            ClientCommand::DeleteChannel { .. } => 23,
            ClientCommand::GlobalKick { .. } => 24,
            ClientCommand::Kinks { .. } => 25,
            ClientCommand::LeaveChannel { .. } => 26,
            ClientCommand::Ad { .. } => 27,
            ClientCommand::Message { .. } => 28,
            ClientCommand::Channels => 29,
            ClientCommand::Pong => 30,
            ClientCommand::PrivateMessage { .. } => 31,
            ClientCommand::ProfileTags { .. } => 32,
            ClientCommand::Roll { .. } => 33,
            ClientCommand::Reload { .. } => 34,
            ClientCommand::ChannelMode { .. } => 35,
            ClientCommand::ChannelStatus { .. } => 36,
            ClientCommand::Reward { .. } => 37,
            ClientCommand::Report { .. } => 38,
            ClientCommand::Status { .. } => 39,
            ClientCommand::GlobalTimeout { .. } => 40,
            ClientCommand::Typing { .. } => 41,
            ClientCommand::GlobalPardon { .. } => 42,
            ClientCommand::Uptime => 43,
        }
    }

    /// No two kinds of command share a tag: commands with the same tag are of
    /// the same kind.
    pub proof fn lemma_tag_names_kind(self, other: Self)
        requires
            self.tag() == other.tag(),
        ensures
            self.kind() == other.kind(),
    {
        reveal_strlit("ACB");
        assert(tag_code("ACB"@) == 4277058);
        reveal_strlit("AOP");
        assert(tag_code("AOP"@) == 4280144);
        reveal_strlit("CRC");
        assert(tag_code("CRC"@) == 4411971);
        reveal_strlit("DOP");
        assert(tag_code("DOP"@) == 4476752);
        reveal_strlit("AWC");
        assert(tag_code("AWC"@) == 4282179);
        reveal_strlit("BRO");
        assert(tag_code("BRO"@) == 4346447);
        reveal_strlit("CBL");
        assert(tag_code("CBL"@) == 4407884);
        reveal_strlit("CBU");
        assert(tag_code("CBU"@) == 4407893);
        reveal_strlit("COA");
        assert(tag_code("COA"@) == 4411201);
        reveal_strlit("CCR");
        assert(tag_code("CCR"@) == 4408146);
        reveal_strlit("CDS");
        assert(tag_code("CDS"@) == 4408403);
        reveal_strlit("CHA");
        assert(tag_code("CHA"@) == 4409409);
        reveal_strlit("CIU");
        assert(tag_code("CIU"@) == 4409685);
        reveal_strlit("CKU");
        assert(tag_code("CKU"@) == 4410197);
        reveal_strlit("COL");
        assert(tag_code("COL"@) == 4411212);
        reveal_strlit("COR");
        assert(tag_code("COR"@) == 4411218);
        reveal_strlit("CSO");
        assert(tag_code("CSO"@) == 4412239);
        reveal_strlit("CTU");
        assert(tag_code("CTU"@) == 4412501);
        reveal_strlit("CUB");
        assert(tag_code("CUB"@) == 4412738);
        reveal_strlit("FKS");
        assert(tag_code("FKS"@) == 4606803);
        reveal_strlit("IDN");
        assert(tag_code("IDN"@) == 4801614);
        reveal_strlit("IGN");
        assert(tag_code("IGN"@) == 4802382);
        reveal_strlit("JCH");
        assert(tag_code("JCH"@) == 4866888);
        reveal_strlit("KIC");
        assert(tag_code("KIC"@) == 4933955);
        reveal_strlit("KIK");
        assert(tag_code("KIK"@) == 4933963);
        reveal_strlit("KIN");
        assert(tag_code("KIN"@) == 4933966);
        reveal_strlit("LCH");
        assert(tag_code("LCH"@) == 4997960);
        reveal_strlit("LRP");
        assert(tag_code("LRP"@) == 5001808);
        reveal_strlit("MSG");
        assert(tag_code("MSG"@) == 5067591);
        reveal_strlit("ORS");
        assert(tag_code("ORS"@) == 5198419);
        reveal_strlit("PIN");
        assert(tag_code("PIN"@) == 5261646);
        reveal_strlit("PRI");
        assert(tag_code("PRI"@) == 5263945);
        reveal_strlit("PRO");
        assert(tag_code("PRO"@) == 5263951);
        reveal_strlit("RLL");
        assert(tag_code("RLL"@) == 5393484);
        reveal_strlit("RLD");
        assert(tag_code("RLD"@) == 5393476);
        reveal_strlit("RMO");
        assert(tag_code("RMO"@) == 5393743);
        reveal_strlit("RST");
        assert(tag_code("RST"@) == 5395284);
        reveal_strlit("RWD");
        assert(tag_code("RWD"@) == 5396292);
        reveal_strlit("SFC");
        assert(tag_code("SFC"@) == 5457475);
        reveal_strlit("STA");
        assert(tag_code("STA"@) == 5461057);
        reveal_strlit("TMO");
        assert(tag_code("TMO"@) == 5524815);
        reveal_strlit("TPN");
        assert(tag_code("TPN"@) == 5525582);
        reveal_strlit("UNB");
        assert(tag_code("UNB"@) == 5590594);
        reveal_strlit("UPT");
        assert(tag_code("UPT"@) == 5591124);
    }

    /// Commands of the same kind either both have a body or both have none.
    pub proof fn lemma_kind_has_body(self, other: Self)
        requires
            self.kind() == other.kind(),
        ensures
            self.body().is_some() == other.body().is_some(),
    {
    }

}


} // verus!
