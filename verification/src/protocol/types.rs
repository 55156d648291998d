//! The values that commands carry besides the domain model.

use vstd::prelude::*;
use serde_json::Value;
use crate::data::{Channel, ChannelMode, Character, Gender, Status};
use crate::json::{member, models, value_as_array, value_as_str, value_from_array, value_from_str, value_get, value_model, JsonModel};
use crate::util::fits;
use crate::wire::{get_named, named_at, named_of, read_named, WireName};
use crate::protocol::fields::{channel_at, channel_of, channels_at, character_at, character_of, get_channel, get_channels, get_character, get_number_text, get_text, get_u32, holds, holds_all, number_text_at, read_channel, read_character, read_text, read_u32, text_at, text_of, u32_at, u32_of, views};
use crate::text::{decimal_string, decimal_text, lemma_decimal_text, text_eq};

verus! {

/// The number of a kink. On the wire it is written as a string of digits;
/// it is read from a string or from a number.
#[derive(Clone, Copy, Debug, PartialEq, Eq, Structural)]
pub struct KinkId(pub u32);

impl View for KinkId {
    type V = u32;

    open spec fn view(&self) -> u32 {
        self.0
    }
}

impl KinkId {
    /// The document that stands for the number: its decimal numeral as a string.
    pub open spec fn json(self) -> JsonModel {
        JsonModel::Str(decimal_text(self.0 as nat))
    }

    /// The number that a document stands for.
    pub open spec fn of_json(doc: JsonModel) -> Option<u32> {
        u32_of(doc)
    }

    /// Writes the number as a document.
    pub fn to_value(&self) -> (v: Value)
        ensures
            value_model(v) == self.json(),
    {
        let text = decimal_string(self.0 as u64);
        value_from_str(text.as_str())
    }

    /// Reads a document.
    pub fn read(v: &Value) -> (r: Option<KinkId>)
        ensures
            holds(r, Self::of_json(value_model(*v))),
    {
        match read_u32(v) {
            Some(n) => Some(KinkId(n)),
            None => None,
        }
    }

    /// Every number is read back from its own document.
    pub proof fn lemma_round_trip(self)
        ensures
            Self::of_json(self.json()) == Some(self.0),
    {
        lemma_decimal_text(self.0 as nat);
    }
}

/// A character as the server names it in some frames: an object with the
/// name under `identity`.
#[derive(Clone, Copy, Debug, PartialEq, Eq)]
pub struct CharacterIdentity {
    pub identity: Character,
}

impl View for CharacterIdentity {
    type V = Seq<char>;

    open spec fn view(&self) -> Seq<char> {
        self.identity@
    }
}

impl CharacterIdentity {
    /// Reads a document: the object form, or the bare name.
    pub fn read(v: &Value) -> (r: Option<CharacterIdentity>)
        ensures
            holds(r, character_of(value_model(*v))),
    {
        match read_character(v) {
            Some(identity) => Some(CharacterIdentity { identity }),
            None => None,
        }
    }

    /// Reads the member under a key of a body.
    pub fn get(body: &Value, key: &str) -> (r: Option<CharacterIdentity>)
        ensures
            holds(r, character_at(value_model(*body), key@)),
    {
        match value_get(body, key) {
            Some(v) => Self::read(v),
            None => None,
        }
    }
}

/// One entry of the list of characters that are online: name, gender,
/// status and status message. On the wire it is an array of four strings.
#[derive(Clone, Debug, PartialEq, Eq)]
pub struct FlatCharacterData(pub Character, pub Gender, pub Status, pub String);

impl View for FlatCharacterData {
    type V = (Seq<char>, Gender, Status, Seq<char>);

    open spec fn view(&self) -> (Seq<char>, Gender, Status, Seq<char>) {
        (self.0@, self.1, self.2, self.3@)
    }
}

impl FlatCharacterData {
    /// The entry that a document stands for.
    pub open spec fn of_json(doc: JsonModel) -> Option<(Seq<char>, Gender, Status, Seq<char>)> {
        match doc {
            JsonModel::Array(items) => if items.len() == 4 {
                match (
                    character_of(items[0]),
                    named_of::<Gender>(items[1]),
                    named_of::<Status>(items[2]),
                    text_of(items[3]),
                ) {
                    (Some(name), Some(gender), Some(status), Some(message)) => Some(
                        (name, gender, status, message),
                    ),
                    _ => None,
                }
            } else {
                None
            },
            _ => None,
        }
    }

    /// Reads a document.
    pub fn read(v: &Value) -> (r: Option<FlatCharacterData>)
        ensures
            holds(r, Self::of_json(value_model(*v))),
    {
        let items = match value_as_array(v) {
            Some(items) => items,
            None => {
                return None;
            },
        };
        if items.len() != 4 {
            return None;
        }
        assert(forall|k: int| 0 <= k < 4 ==> models(items@)[k] == value_model(items@[k]));
        match (
            read_character(&items[0]),
            read_named::<Gender>(&items[1]),
            read_named::<Status>(&items[2]),
            read_text(&items[3]),
        ) {
            (Some(name), Some(gender), Some(status), Some(message)) => Some(
                FlatCharacterData(name, gender, status, message),
            ),
            _ => None,
        }
    }
}

/// One entry of the list of private rooms.
#[derive(Clone, Debug, PartialEq, Eq)]
pub struct ChannelInfo {
    pub name: Channel,
    pub characters: u32,
    pub title: String,
}

impl View for ChannelInfo {
    type V = (Seq<char>, u32, Seq<char>);

    open spec fn view(&self) -> (Seq<char>, u32, Seq<char>) {
        (self.name@, self.characters, self.title@)
    }
}

impl ChannelInfo {
    /// The entry that a document stands for.
    pub open spec fn of_json(doc: JsonModel) -> Option<(Seq<char>, u32, Seq<char>)> {
        match (channel_at(doc, "name"@), u32_at(doc, "characters"@), text_at(doc, "title"@)) {
            (Some(name), Some(characters), Some(title)) => Some((name, characters, title)),
            _ => None,
        }
    }

    /// Reads a document.
    pub fn read(v: &Value) -> (r: Option<ChannelInfo>)
        ensures
            holds(r, Self::of_json(value_model(*v))),
    {
        match (get_channel(v, "name"), get_u32(v, "characters"), get_text(v, "title")) {
            (Some(name), Some(characters), Some(title)) => Some(
                ChannelInfo { name, characters, title },
            ),
            _ => None,
        }
    }
}

/// One entry of the list of official rooms.
#[derive(Clone, Copy, Debug, PartialEq, Eq)]
pub struct OfficialChannelInfo {
    pub name: Channel,
    pub mode: ChannelMode,
    pub characters: u32,
}

impl View for OfficialChannelInfo {
    type V = (Seq<char>, ChannelMode, u32);

    open spec fn view(&self) -> (Seq<char>, ChannelMode, u32) {
        (self.name@, self.mode, self.characters)
    }
}

impl OfficialChannelInfo {
    /// The entry that a document stands for.
    pub open spec fn of_json(doc: JsonModel) -> Option<(Seq<char>, ChannelMode, u32)> {
        match (
            channel_at(doc, "name"@),
            named_at::<ChannelMode>(doc, "mode"@),
            u32_at(doc, "characters"@),
        ) {
            (Some(name), Some(mode), Some(characters)) => Some((name, mode, characters)),
            _ => None,
        }
    }

    /// Reads a document.
    pub fn read(v: &Value) -> (r: Option<OfficialChannelInfo>)
        ensures
            holds(r, Self::of_json(value_model(*v))),
    {
        match (get_channel(v, "name"), get_named::<ChannelMode>(v, "mode"), get_u32(v, "characters")) {
            (Some(name), Some(mode), Some(characters)) => Some(
                OfficialChannelInfo { name, mode, characters },
            ),
            _ => None,
        }
    }
}

/// Where dice are rolled: in a room, or in the private exchange with a
/// character. In a body it is the member `channel` or the member `recipient`.
#[derive(Clone, Copy, Debug, PartialEq, Eq)]
pub enum Target {
    Channel { channel: Channel },
    Character { recipient: Character },
}

impl Target {
    /// Well-formedness: the name is well-formed.
    pub open spec fn wf(self) -> bool {
        match self {
            Target::Channel { channel } => channel.wf(),
            Target::Character { recipient } => recipient.wf(),
        }
    }

    /// The key under which a body names the target.
    pub open spec fn key(self) -> Seq<char> {
        match self {
            Target::Channel { .. } => "channel"@,
            Target::Character { .. } => "recipient"@,
        }
    }

    /// The document that stands for the target: its name as a string.
    pub open spec fn json(self) -> JsonModel {
        match self {
            Target::Channel { channel } => JsonModel::Str(channel@),
            Target::Character { recipient } => JsonModel::Str(recipient@),
        }
    }

    /// The key under which a body names the target.
    pub fn key_name(&self) -> (key: &'static str)
        ensures
            key@ == self.key(),
    {
        match self {
            Target::Channel { .. } => "channel",
            Target::Character { .. } => "recipient",
        }
    }

    /// Writes the name of the target as a document.
    pub fn to_value(&self) -> (v: Value)
        ensures
            value_model(v) == self.json(),
    {
        match self {
            Target::Channel { channel } => value_from_str(channel.as_str()),
            Target::Character { recipient } => value_from_str(recipient.as_str()),
        }
    }

    /// A well-formed target has a name that fits.
    pub proof fn lemma_fits(self)
        requires
            self.wf(),
        ensures
            match self {
                Target::Channel { channel } => fits(channel@, 26),
                Target::Character { recipient } => fits(recipient@, 20),
            },
    {
        match self {
            Target::Channel { channel } => channel.lemma_fits(),
            Target::Character { recipient } => recipient.lemma_fits(),
        }
    }

    /// Whether a body names a target.
    pub open spec fn readable(body: JsonModel) -> bool {
        if member(body, "channel"@).is_some() {
            channel_at(body, "channel"@).is_some()
        } else {
            character_at(body, "recipient"@).is_some()
        }
    }

    /// Whether this is the target that a body names.
    pub open spec fn is_reading_of(self, body: JsonModel) -> bool {
        match self {
            Target::Channel { channel } => channel_at(body, "channel"@) == Some(channel@),
            Target::Character { recipient } => member(body, "channel"@).is_none()
                && character_at(body, "recipient"@) == Some(recipient@),
        }
    }

    /// Reads the target that a body names.
    pub fn get(body: &Value) -> (r: Option<Target>)
        ensures
            r.is_some() == Self::readable(value_model(*body)),
            r matches Some(t) ==> t.is_reading_of(value_model(*body)),
    {
        match value_get(body, "channel") {
            Some(v) => match read_channel(v) {
                Some(channel) => Some(Target::Channel { channel }),
                None => None,
            },
            None => match get_character(body, "recipient") {
                Some(recipient) => Some(Target::Character { recipient }),
                None => None,
            },
        }
    }
}

/// The document that stands for a list of kink numbers.
pub open spec fn kinks_json(items: Seq<KinkId>) -> JsonModel {
    JsonModel::Array(items.map_values(|k: KinkId| k.json()))
}

/// Writes a list of kink numbers as a document.
pub fn kinks_to_value(items: &Vec<KinkId>) -> (v: Value)
    ensures
        value_model(v) == kinks_json(items@),
{
    let mut out: Vec<Value> = Vec::new();
    let mut i: usize = 0;
    while i < items.len()
        invariant
            i <= items@.len(),
            out@.len() == i,
            forall|k: int| 0 <= k < i ==> value_model(#[trigger] out@[k]) == items@[k].json(),
        decreases items@.len() - i,
    {
        out.push(items[i].to_value());
        i += 1;
    }
    assert(models(out@) =~= items@.map_values(|k: KinkId| k.json()));
    value_from_array(out)
}

/// Every list of kink numbers is read back from its own document.
pub proof fn lemma_kinks_round_trip(items: Seq<KinkId>)
    ensures
        kinks_of(kinks_json(items)) == Some(views(items)),
{
    let docs = items.map_values(|k: KinkId| k.json());
    assert forall|i: int| 0 <= i < docs.len() implies (#[trigger] KinkId::of_json(docs[i]))
        == Some(items[i].0) by {
        items[i].lemma_round_trip();
    }
    assert(docs.map_values(|item: JsonModel| KinkId::of_json(item).unwrap()) =~= views(items));
}

/// A number with a fraction, kept as its decimal text.
#[derive(Clone, Debug, PartialEq, Eq)]
pub struct Decimal(pub String);

impl View for Decimal {
    type V = Seq<char>;

    open spec fn view(&self) -> Seq<char> {
        self.0@
    }
}

/// A limit or setting that the server declares after the identification.
#[derive(Clone, Debug, PartialEq, Eq)]
pub enum Variable {
    /// `chat_max`: the most bytes of a message in a room.
    ChatMax(u32),
    /// `priv_max`: the most bytes of a private message.
    PrivMax(u32),
    /// `lfrp_max`: the most bytes of an ad.
    AdMax(u32),
    /// `cds_max`: the most bytes of a room's description.
    CDSMax(u32),
    /// `lfrp_flood`: the seconds to wait between two ads.
    AdCooldown(Decimal),
    /// `msg_flood`: the seconds to wait between two messages.
    ChatCooldown(Decimal),
    /// `sta_flood`: the seconds to wait between two changes of status.
    StatusCooldown(Decimal),
    /// `permissions`: the rights of the account.
    Permissions(String),
    /// `icon_blacklist`: the rooms that show no icons.
    IconBlacklist(Vec<Channel>),
    /// A variable of another name; the name is kept.
    Unknown(String),
}

impl Variable {
    /// Whether a name is that of a variable with a variant of its own.
    pub open spec fn known_name(name: Seq<char>) -> bool {
        name == "chat_max"@ || name == "priv_max"@ || name == "lfrp_max"@ || name == "cds_max"@
            || name == "lfrp_flood"@ || name == "msg_flood"@ || name == "sta_flood"@ || name
            == "permissions"@ || name == "icon_blacklist"@
    }

    /// Whether a body declares a variable: it names one under `variable`, and
    /// where the name is known, holds a value of the variable's kind under
    /// `value`.
    pub open spec fn readable(body: JsonModel) -> bool {
        match text_at(body, "variable"@) {
            Some(name) => if name == "chat_max"@ || name == "priv_max"@ || name == "lfrp_max"@
                || name == "cds_max"@ {
                u32_at(body, "value"@).is_some()
            } else if name == "lfrp_flood"@ || name == "msg_flood"@ || name == "sta_flood"@ {
                number_text_at(body, "value"@).is_some()
            } else if name == "permissions"@ {
                text_at(body, "value"@).is_some()
            } else if name == "icon_blacklist"@ {
                channels_at(body, "value"@).is_some()
            } else {
                true
            },
            None => false,
        }
    }

    /// Whether this is the variable that a body declares.
    pub open spec fn is_reading_of(self, body: JsonModel) -> bool {
        let name = text_at(body, "variable"@);
        match self {
            Variable::ChatMax(v) => name == Some("chat_max"@) && u32_at(body, "value"@) == Some(v),
            Variable::PrivMax(v) => name == Some("priv_max"@) && u32_at(body, "value"@) == Some(v),
            Variable::AdMax(v) => name == Some("lfrp_max"@) && u32_at(body, "value"@) == Some(v),
            Variable::CDSMax(v) => name == Some("cds_max"@) && u32_at(body, "value"@) == Some(v),
            Variable::AdCooldown(v) => name == Some("lfrp_flood"@) && number_text_at(
                body,
                "value"@,
            ) == Some(v@),
            Variable::ChatCooldown(v) => name == Some("msg_flood"@) && number_text_at(
                body,
                "value"@,
            ) == Some(v@),
            Variable::StatusCooldown(v) => name == Some("sta_flood"@) && number_text_at(
                body,
                "value"@,
            ) == Some(v@),
            Variable::Permissions(v) => name == Some("permissions"@) && text_at(body, "value"@)
                == Some(v@),
            Variable::IconBlacklist(v) => name == Some("icon_blacklist"@) && channels_at(
                body,
                "value"@,
            ) == Some(views(v@)),
            Variable::Unknown(other) => name == Some(other@) && !Self::known_name(other@),
        }
    }

    /// Reads the variable that a body declares.
    pub fn get(body: &Value) -> (r: Option<Variable>)
        ensures
            r.is_some() == Self::readable(value_model(*body)),
            r matches Some(variable) ==> variable.is_reading_of(value_model(*body)),
    {
        let name = match get_text(body, "variable") {
            Some(name) => name,
            None => {
                return None;
            },
        };
        if text_eq(name.as_str(), "chat_max") {
            match get_u32(body, "value") {
                Some(v) => Some(Variable::ChatMax(v)),
                None => None,
            }
        } else if text_eq(name.as_str(), "priv_max") {
            match get_u32(body, "value") {
                Some(v) => Some(Variable::PrivMax(v)),
                None => None,
            }
        } else if text_eq(name.as_str(), "lfrp_max") {
            match get_u32(body, "value") {
                Some(v) => Some(Variable::AdMax(v)),
                None => None,
            }
        } else if text_eq(name.as_str(), "cds_max") {
            match get_u32(body, "value") {
                Some(v) => Some(Variable::CDSMax(v)),
                None => None,
            }
        } else if text_eq(name.as_str(), "lfrp_flood") {
            match get_number_text(body, "value") {
                Some(v) => Some(Variable::AdCooldown(Decimal(v))),
                None => None,
            }
        } else if text_eq(name.as_str(), "msg_flood") {
            match get_number_text(body, "value") {
                Some(v) => Some(Variable::ChatCooldown(Decimal(v))),
                None => None,
            }
        } else if text_eq(name.as_str(), "sta_flood") {
            match get_number_text(body, "value") {
                Some(v) => Some(Variable::StatusCooldown(Decimal(v))),
                None => None,
            }
        } else if text_eq(name.as_str(), "permissions") {
            match get_text(body, "value") {
                Some(v) => Some(Variable::Permissions(v)),
                None => None,
            }
        } else if text_eq(name.as_str(), "icon_blacklist") {
            match get_channels(body, "value") {
                Some(v) => Some(Variable::IconBlacklist(v)),
                None => None,
            }
        } else {
            Some(Variable::Unknown(name))
        }
    }
}

/// The part of a kink listing that a `KID` frame carries.
#[derive(Clone, Copy, Debug, PartialEq, Eq, Hash, Structural)]
pub enum KinkResponsePart {
    Start,
    Custom,
    End,
}

impl WireName for KinkResponsePart {
    open spec fn wire(self) -> Seq<char> {
        match self {
            KinkResponsePart::Start => "start"@,
            KinkResponsePart::Custom => "custom"@,
            KinkResponsePart::End => "end"@,
        }
    }

    open spec fn of_wire(name: Seq<char>) -> Option<KinkResponsePart> {
        if name == "start"@ {
            Some(KinkResponsePart::Start)
        } else if name == "custom"@ {
            Some(KinkResponsePart::Custom)
        } else if name == "end"@ {
            Some(KinkResponsePart::End)
        } else {
            None
        }
    }

    fn wire_name(&self) -> (name: &'static str) {
        match self {
            KinkResponsePart::Start => "start",
            KinkResponsePart::Custom => "custom",
            KinkResponsePart::End => "end",
        }
    }

    fn from_wire_name(name: &str) -> (r: Option<KinkResponsePart>) {
        if text_eq(name, "start") {
            Some(KinkResponsePart::Start)
        } else if text_eq(name, "custom") {
            Some(KinkResponsePart::Custom)
        } else if text_eq(name, "end") {
            Some(KinkResponsePart::End)
        } else {
            None
        }
    }

    proof fn lemma_wire_round_trip(self) {
        reveal_strlit("start");
        assert("start"@.len() == 5);
        reveal_strlit("custom");
        assert("custom"@.len() == 6);
        reveal_strlit("end");
        assert("end"@.len() == 3);
    }
}


/// The part of a profile that a `PRD` frame carries.
#[derive(Clone, Copy, Debug, PartialEq, Eq, Hash, Structural)]
pub enum ProfileDataPart {
    Start,
    End,
    Info,
    Select,
}

impl WireName for ProfileDataPart {
    open spec fn wire(self) -> Seq<char> {
        match self {
            ProfileDataPart::Start => "start"@,
            ProfileDataPart::End => "end"@,
            ProfileDataPart::Info => "info"@,
            ProfileDataPart::Select => "select"@,
        }
    }

    open spec fn of_wire(name: Seq<char>) -> Option<ProfileDataPart> {
        if name == "start"@ {
            Some(ProfileDataPart::Start)
        } else if name == "end"@ {
            Some(ProfileDataPart::End)
        } else if name == "info"@ {
            Some(ProfileDataPart::Info)
        } else if name == "select"@ {
            Some(ProfileDataPart::Select)
        } else {
            None
        }
    }

    fn wire_name(&self) -> (name: &'static str) {
        match self {
            ProfileDataPart::Start => "start",
            ProfileDataPart::End => "end",
            ProfileDataPart::Info => "info",
            ProfileDataPart::Select => "select",
        }
    }

    fn from_wire_name(name: &str) -> (r: Option<ProfileDataPart>) {
        if text_eq(name, "start") {
            Some(ProfileDataPart::Start)
        } else if text_eq(name, "end") {
            Some(ProfileDataPart::End)
        } else if text_eq(name, "info") {
            Some(ProfileDataPart::Info)
        } else if text_eq(name, "select") {
            Some(ProfileDataPart::Select)
        } else {
            None
        }
    }

    proof fn lemma_wire_round_trip(self) {
        reveal_strlit("start");
        assert("start"@.len() == 5);
        reveal_strlit("end");
        assert("end"@.len() == 3);
        reveal_strlit("info");
        assert("info"@.len() == 4);
        reveal_strlit("select");
        assert("select"@.len() == 6);
    }
}


/// What a report frame asks for.
#[derive(Clone, Copy, Debug, PartialEq, Eq, Hash, Structural)]
pub enum ReportAction {
    Report,
}

impl WireName for ReportAction {
    open spec fn wire(self) -> Seq<char> {
        match self {
            ReportAction::Report => "report"@,
        }
    }

    open spec fn of_wire(name: Seq<char>) -> Option<ReportAction> {
        if name == "report"@ {
            Some(ReportAction::Report)
        } else {
            None
        }
    }

    fn wire_name(&self) -> (name: &'static str) {
        match self {
            ReportAction::Report => "report",
        }
    }

    fn from_wire_name(name: &str) -> (r: Option<ReportAction>) {
        if text_eq(name, "report") {
            Some(ReportAction::Report)
        } else {
            None
        }
    }

    proof fn lemma_wire_round_trip(self) {
        reveal_strlit("report");
        assert("report"@.len() == 6);
    }
}


/// How a connection proves who it is.
#[derive(Clone, Copy, Debug, PartialEq, Eq, Hash, Structural)]
pub enum IdentifyMethod {
    Ticket,
}

impl WireName for IdentifyMethod {
    open spec fn wire(self) -> Seq<char> {
        match self {
            IdentifyMethod::Ticket => "ticket"@,
        }
    }

    open spec fn of_wire(name: Seq<char>) -> Option<IdentifyMethod> {
        if name == "ticket"@ {
            Some(IdentifyMethod::Ticket)
        } else {
            None
        }
    }

    fn wire_name(&self) -> (name: &'static str) {
        match self {
            IdentifyMethod::Ticket => "ticket",
        }
    }

    fn from_wire_name(name: &str) -> (r: Option<IdentifyMethod>) {
        if text_eq(name, "ticket") {
            Some(IdentifyMethod::Ticket)
        } else {
            None
        }
    }

    proof fn lemma_wire_round_trip(self) {
        reveal_strlit("ticket");
        assert("ticket"@.len() == 6);
    }
}


/// What an `IGN` frame does to the ignore list.
#[derive(Clone, Copy, Debug, PartialEq, Eq, Hash, Structural)]
pub enum IgnoreAction {
    Add,
    Delete,
    Notify,
    List,
    Init,
}

impl WireName for IgnoreAction {
    open spec fn wire(self) -> Seq<char> {
        match self {
            IgnoreAction::Add => "add"@,
            IgnoreAction::Delete => "delete"@,
            IgnoreAction::Notify => "notify"@,
            IgnoreAction::List => "list"@,
            IgnoreAction::Init => "init"@,
        }
    }

    open spec fn of_wire(name: Seq<char>) -> Option<IgnoreAction> {
        if name == "add"@ {
            Some(IgnoreAction::Add)
        } else if name == "delete"@ {
            Some(IgnoreAction::Delete)
        } else if name == "notify"@ {
            Some(IgnoreAction::Notify)
        } else if name == "list"@ {
            Some(IgnoreAction::List)
        } else if name == "init"@ {
            Some(IgnoreAction::Init)
        } else {
            None
        }
    }

    fn wire_name(&self) -> (name: &'static str) {
        match self {
            IgnoreAction::Add => "add",
            IgnoreAction::Delete => "delete",
            IgnoreAction::Notify => "notify",
            IgnoreAction::List => "list",
            IgnoreAction::Init => "init",
        }
    }

    fn from_wire_name(name: &str) -> (r: Option<IgnoreAction>) {
        if text_eq(name, "add") {
            Some(IgnoreAction::Add)
        } else if text_eq(name, "delete") {
            Some(IgnoreAction::Delete)
        } else if text_eq(name, "notify") {
            Some(IgnoreAction::Notify)
        } else if text_eq(name, "list") {
            Some(IgnoreAction::List)
        } else if text_eq(name, "init") {
            Some(IgnoreAction::Init)
        } else {
            None
        }
    }

    proof fn lemma_wire_round_trip(self) {
        reveal_strlit("add");
        assert("add"@.len() == 3);
        reveal_strlit("delete");
        assert("delete"@.len() == 6);
        reveal_strlit("notify");
        assert("notify"@.len() == 6);
        reveal_strlit("list");
        assert("list"@.len() == 4);
        reveal_strlit("init");
        assert("init"@.len() == 4);
        assert("delete"@[0] != "notify"@[0]);
        assert("list"@[0] != "init"@[0]);
    }
}


/// What happened on the site, as an `RTB` frame reports it.
#[derive(Clone, Copy, Debug, PartialEq, Eq, Hash, Structural)]
pub enum BridgeEvent {
    BookmarkAdd,
    BookmarkRemove,
    FriendAdd,
    FriendRemove,
    FriendRequest,
}

impl WireName for BridgeEvent {
    open spec fn wire(self) -> Seq<char> {
        match self {
            BridgeEvent::BookmarkAdd => "trackadd"@,
            BridgeEvent::BookmarkRemove => "trackrem"@,
            BridgeEvent::FriendAdd => "friendadd"@,
            BridgeEvent::FriendRemove => "friendremove"@,
            BridgeEvent::FriendRequest => "friendrequest"@,
        }
    }

    open spec fn of_wire(name: Seq<char>) -> Option<BridgeEvent> {
        if name == "trackadd"@ {
            Some(BridgeEvent::BookmarkAdd)
        } else if name == "trackrem"@ {
            Some(BridgeEvent::BookmarkRemove)
        } else if name == "friendadd"@ {
            Some(BridgeEvent::FriendAdd)
        } else if name == "friendremove"@ {
            Some(BridgeEvent::FriendRemove)
        } else if name == "friendrequest"@ {
            Some(BridgeEvent::FriendRequest)
        } else {
            None
        }
    }

    fn wire_name(&self) -> (name: &'static str) {
        match self {
            BridgeEvent::BookmarkAdd => "trackadd",
            BridgeEvent::BookmarkRemove => "trackrem",
            BridgeEvent::FriendAdd => "friendadd",
            BridgeEvent::FriendRemove => "friendremove",
            BridgeEvent::FriendRequest => "friendrequest",
        }
    }

    fn from_wire_name(name: &str) -> (r: Option<BridgeEvent>) {
        if text_eq(name, "trackadd") {
            Some(BridgeEvent::BookmarkAdd)
        } else if text_eq(name, "trackrem") {
            Some(BridgeEvent::BookmarkRemove)
        } else if text_eq(name, "friendadd") {
            Some(BridgeEvent::FriendAdd)
        } else if text_eq(name, "friendremove") {
            Some(BridgeEvent::FriendRemove)
        } else if text_eq(name, "friendrequest") {
            Some(BridgeEvent::FriendRequest)
        } else {
            None
        }
    }

    proof fn lemma_wire_round_trip(self) {
        reveal_strlit("trackadd");
        assert("trackadd"@.len() == 8);
        reveal_strlit("trackrem");
        assert("trackrem"@.len() == 8);
        reveal_strlit("friendadd");
        assert("friendadd"@.len() == 9);
        reveal_strlit("friendremove");
        assert("friendremove"@.len() == 12);
        reveal_strlit("friendrequest");
        assert("friendrequest"@.len() == 13);
        assert("trackadd"@[5] != "trackrem"@[5]);
    }
}



/// A list of kink numbers.
pub open spec fn kinks_of(doc: JsonModel) -> Option<Seq<u32>> {
    match doc {
        JsonModel::Array(items) => if forall|i: int|
            0 <= i < items.len() ==> (#[trigger] KinkId::of_json(items[i])).is_some() {
            Some(items.map_values(|item: JsonModel| KinkId::of_json(item).unwrap()))
        } else {
            None
        },
        _ => None,
    }
}

/// The member under a key, read by [`kinks_of`].
pub open spec fn kinks_at(body: JsonModel, key: Seq<char>) -> Option<Seq<u32>> {
    match member(body, key) {
        Some(doc) => kinks_of(doc),
        None => None,
    }
}

/// Reads a list of kink numbers.
pub fn read_kinks(v: &Value) -> (r: Option<Vec<KinkId>>)
    ensures
        holds_all(r, kinks_of(value_model(*v))),
{
    let items = match value_as_array(v) {
        Some(items) => items,
        None => {
            return None;
        },
    };
    let ghost docs = models(items@);
    let mut out: Vec<KinkId> = Vec::new();
    let mut i: usize = 0;
    while i < items.len()
        invariant
            i <= items@.len(),
            docs == models(items@),
            value_model(*v) == JsonModel::Array(docs),
            out@.len() == i,
            forall|k: int| 0 <= k < i ==> (#[trigger] KinkId::of_json(docs[k])) == Some(out@[k]@),
        decreases items@.len() - i,
    {
        match KinkId::read(&items[i]) {
            Some(item) => {
                out.push(item);
            },
            None => {
                assert(KinkId::of_json(docs[i as int]).is_none());
                return None;
            },
        }
        i += 1;
    }
    assert(views(out@) =~= docs.map_values(|item: JsonModel| KinkId::of_json(item).unwrap()));
    Some(out)
}

/// Reads the member under a key with [`read_kinks`].
pub fn get_kinks(body: &Value, key: &str) -> (r: Option<Vec<KinkId>>)
    ensures
        holds_all(r, kinks_at(value_model(*body), key@)),
{
    match value_get(body, key) {
        Some(v) => read_kinks(v),
        None => None,
    }
}

/// A list of characters.
pub open spec fn identities_of(doc: JsonModel) -> Option<Seq<Seq<char>>> {
    match doc {
        JsonModel::Array(items) => if forall|i: int|
            0 <= i < items.len() ==> (#[trigger] character_of(items[i])).is_some() {
            Some(items.map_values(|item: JsonModel| character_of(item).unwrap()))
        } else {
            None
        },
        _ => None,
    }
}

/// The member under a key, read by [`identities_of`].
pub open spec fn identities_at(body: JsonModel, key: Seq<char>) -> Option<Seq<Seq<char>>> {
    match member(body, key) {
        Some(doc) => identities_of(doc),
        None => None,
    }
}

/// Reads a list of characters.
pub fn read_identities(v: &Value) -> (r: Option<Vec<CharacterIdentity>>)
    ensures
        holds_all(r, identities_of(value_model(*v))),
{
    let items = match value_as_array(v) {
        Some(items) => items,
        None => {
            return None;
        },
    };
    let ghost docs = models(items@);
    let mut out: Vec<CharacterIdentity> = Vec::new();
    let mut i: usize = 0;
    while i < items.len()
        invariant
            i <= items@.len(),
            docs == models(items@),
            value_model(*v) == JsonModel::Array(docs),
            out@.len() == i,
            forall|k: int| 0 <= k < i ==> (#[trigger] character_of(docs[k])) == Some(out@[k]@),
        decreases items@.len() - i,
    {
        match CharacterIdentity::read(&items[i]) {
            Some(item) => {
                out.push(item);
            },
            None => {
                assert(character_of(docs[i as int]).is_none());
                return None;
            },
        }
        i += 1;
    }
    assert(views(out@) =~= docs.map_values(|item: JsonModel| character_of(item).unwrap()));
    Some(out)
}

/// Reads the member under a key with [`read_identities`].
pub fn get_identities(body: &Value, key: &str) -> (r: Option<Vec<CharacterIdentity>>)
    ensures
        holds_all(r, identities_at(value_model(*body), key@)),
{
    match value_get(body, key) {
        Some(v) => read_identities(v),
        None => None,
    }
}

/// A list of presence entries.
pub open spec fn online_of(doc: JsonModel) -> Option<Seq<(Seq<char>, Gender, Status, Seq<char>)>> {
    match doc {
        JsonModel::Array(items) => if forall|i: int|
            0 <= i < items.len() ==> (#[trigger] FlatCharacterData::of_json(items[i])).is_some() {
            Some(items.map_values(|item: JsonModel| FlatCharacterData::of_json(item).unwrap()))
        } else {
            None
        },
        _ => None,
    }
}

/// The member under a key, read by [`online_of`].
pub open spec fn online_at(body: JsonModel, key: Seq<char>) -> Option<Seq<(Seq<char>, Gender, Status, Seq<char>)>> {
    match member(body, key) {
        Some(doc) => online_of(doc),
        None => None,
    }
}

/// Reads a list of presence entries.
pub fn read_online(v: &Value) -> (r: Option<Vec<FlatCharacterData>>)
    ensures
        holds_all(r, online_of(value_model(*v))),
{
    let items = match value_as_array(v) {
        Some(items) => items,
        None => {
            return None;
        },
    };
    let ghost docs = models(items@);
    let mut out: Vec<FlatCharacterData> = Vec::new();
    let mut i: usize = 0;
    while i < items.len()
        invariant
            i <= items@.len(),
            docs == models(items@),
            value_model(*v) == JsonModel::Array(docs),
            out@.len() == i,
            forall|k: int| 0 <= k < i ==> (#[trigger] FlatCharacterData::of_json(docs[k])) == Some(out@[k]@),
        decreases items@.len() - i,
    {
        match FlatCharacterData::read(&items[i]) {
            Some(item) => {
                out.push(item);
            },
            None => {
                assert(FlatCharacterData::of_json(docs[i as int]).is_none());
                return None;
            },
        }
        i += 1;
    }
    assert(views(out@) =~= docs.map_values(|item: JsonModel| FlatCharacterData::of_json(item).unwrap()));
    Some(out)
}

/// Reads the member under a key with [`read_online`].
pub fn get_online(body: &Value, key: &str) -> (r: Option<Vec<FlatCharacterData>>)
    ensures
        holds_all(r, online_at(value_model(*body), key@)),
{
    match value_get(body, key) {
        Some(v) => read_online(v),
        None => None,
    }
}

/// A list of private rooms.
pub open spec fn channel_infos_of(doc: JsonModel) -> Option<Seq<(Seq<char>, u32, Seq<char>)>> {
    match doc {
        JsonModel::Array(items) => if forall|i: int|
            0 <= i < items.len() ==> (#[trigger] ChannelInfo::of_json(items[i])).is_some() {
            Some(items.map_values(|item: JsonModel| ChannelInfo::of_json(item).unwrap()))
        } else {
            None
        },
        _ => None,
    }
}

/// The member under a key, read by [`channel_infos_of`].
pub open spec fn channel_infos_at(body: JsonModel, key: Seq<char>) -> Option<Seq<(Seq<char>, u32, Seq<char>)>> {
    match member(body, key) {
        Some(doc) => channel_infos_of(doc),
        None => None,
    }
}

/// Reads a list of private rooms.
pub fn read_channel_infos(v: &Value) -> (r: Option<Vec<ChannelInfo>>)
    ensures
        holds_all(r, channel_infos_of(value_model(*v))),
{
    let items = match value_as_array(v) {
        Some(items) => items,
        None => {
            return None;
        },
    };
    let ghost docs = models(items@);
    let mut out: Vec<ChannelInfo> = Vec::new();
    let mut i: usize = 0;
    while i < items.len()
        invariant
            i <= items@.len(),
            docs == models(items@),
            value_model(*v) == JsonModel::Array(docs),
            out@.len() == i,
            forall|k: int| 0 <= k < i ==> (#[trigger] ChannelInfo::of_json(docs[k])) == Some(out@[k]@),
        decreases items@.len() - i,
    {
        match ChannelInfo::read(&items[i]) {
            Some(item) => {
                out.push(item);
            },
            None => {
                assert(ChannelInfo::of_json(docs[i as int]).is_none());
                return None;
            },
        }
        i += 1;
    }
    assert(views(out@) =~= docs.map_values(|item: JsonModel| ChannelInfo::of_json(item).unwrap()));
    Some(out)
}

/// Reads the member under a key with [`read_channel_infos`].
pub fn get_channel_infos(body: &Value, key: &str) -> (r: Option<Vec<ChannelInfo>>)
    ensures
        holds_all(r, channel_infos_at(value_model(*body), key@)),
{
    match value_get(body, key) {
        Some(v) => read_channel_infos(v),
        None => None,
    }
}

/// A list of official rooms.
pub open spec fn official_infos_of(doc: JsonModel) -> Option<Seq<(Seq<char>, ChannelMode, u32)>> {
    match doc {
        JsonModel::Array(items) => if forall|i: int|
            0 <= i < items.len() ==> (#[trigger] OfficialChannelInfo::of_json(items[i])).is_some() {
            Some(items.map_values(|item: JsonModel| OfficialChannelInfo::of_json(item).unwrap()))
        } else {
            None
        },
        _ => None,
    }
}

/// The member under a key, read by [`official_infos_of`].
pub open spec fn official_infos_at(body: JsonModel, key: Seq<char>) -> Option<Seq<(Seq<char>, ChannelMode, u32)>> {
    match member(body, key) {
        Some(doc) => official_infos_of(doc),
        None => None,
    }
}

/// Reads a list of official rooms.
pub fn read_official_infos(v: &Value) -> (r: Option<Vec<OfficialChannelInfo>>)
    ensures
        holds_all(r, official_infos_of(value_model(*v))),
{
    let items = match value_as_array(v) {
        Some(items) => items,
        None => {
            return None;
        },
    };
    let ghost docs = models(items@);
    let mut out: Vec<OfficialChannelInfo> = Vec::new();
    let mut i: usize = 0;
    while i < items.len()
        invariant
            i <= items@.len(),
            docs == models(items@),
            value_model(*v) == JsonModel::Array(docs),
            out@.len() == i,
            forall|k: int| 0 <= k < i ==> (#[trigger] OfficialChannelInfo::of_json(docs[k])) == Some(out@[k]@),
        decreases items@.len() - i,
    {
        match OfficialChannelInfo::read(&items[i]) {
            Some(item) => {
                out.push(item);
            },
            None => {
                assert(OfficialChannelInfo::of_json(docs[i as int]).is_none());
                return None;
            },
        }
        i += 1;
    }
    assert(views(out@) =~= docs.map_values(|item: JsonModel| OfficialChannelInfo::of_json(item).unwrap()));
    Some(out)
}

/// Reads the member under a key with [`read_official_infos`].
pub fn get_official_infos(body: &Value, key: &str) -> (r: Option<Vec<OfficialChannelInfo>>)
    ensures
        holds_all(r, official_infos_at(value_model(*body), key@)),
{
    match value_get(body, key) {
        Some(v) => read_official_infos(v),
        None => None,
    }
}

} // verus!
