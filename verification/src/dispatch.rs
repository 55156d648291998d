//! What the client does with a command that a session handed on: which
//! changes it asks of the cache, and what it tells the listener.
//!
//! A command is turned into a plan, a sequence of steps. The first step is
//! the call of `raw_command`; a step that asks the cache a change leaves the
//! call of the listener that the change calls for, where the cache says that
//! it changed. Whoever drives the client takes the steps one by one and does
//! what each leaves to be done before it takes the next.

use vstd::prelude::*;
use crate::cache::{Cache, PartialChannelData, PartialUserData};
use crate::data::{Channel, ChannelMode, Character, FriendRelation, Gender, Message, MessageChannel, MessageContent, Status, Timestamp, TypingStatus};
use crate::protocol::{BridgeEvent, ChannelInfo, CharacterIdentity, FlatCharacterData, OfficialChannelInfo, ProtocolError, ServerCommand, Target};
use crate::http_endpoints::{relations, relations_of, Friend};
use crate::session::SessionError;

verus! {

/// A call of the listener. Where the listener's method takes the session,
/// it is the session that the event came from.
#[derive(Clone, Debug, PartialEq)]
pub enum Notification {
    /// `raw_command`, with the command that is being dispatched.
    RawCommand,
    /// `session_error`.
    SessionError(SessionError),
    /// `sessions_updated`.
    SessionsUpdated,
    /// `session_disconnected`.
    SessionDisconnected(ProtocolError),
    /// `ready`.
    Ready,
    /// `broadcast`.
    Broadcast(Character, String),
    /// `invited`, to a room by a character.
    Invited(Channel, Character),
    /// `ad`.
    Ad(Channel, Character, String),
    /// `system_message`.
    SystemMessage(Channel, String),
    /// `message`: the conversation, and the entry with its author and content.
    Message(MessageChannel, Message),
    /// `typing`.
    Typing(Character, TypingStatus),
    /// `updated_friends`.
    UpdatedFriends,
    /// `updated_bookmarks`.
    UpdatedBookmarks,
    /// `updated_channel`.
    UpdatedChannel(Channel),
    /// `updated_character`.
    UpdatedCharacter(Character),
    /// `updated_global_ops`.
    UpdatedGlobalOps,
    /// `updated_channel_lists`.
    UpdatedChannelLists,
    /// `updated_session_channels`.
    UpdatedSessionChannels,
    /// `error`.
    Error(ProtocolError, String),
}

/// A change that the dispatcher asks of the cache.
#[derive(Clone, Debug, PartialEq)]
pub enum Mutation {
    /// `set_global_ops`.
    SetGlobalOps(Vec<Character>),
    /// `add_global_op`.
    AddGlobalOp(Character),
    /// `remove_global_op`.
    RemoveGlobalOp(Character),
    /// `update_channel` with the description.
    ChannelDescription(Channel, String),
    /// `update_channel` with the mode, and the room's name as its title.
    OfficialChannel(Channel, ChannelMode),
    /// `update_channel` with the title.
    ChannelTitle(Channel, String),
    /// `update_channel` with the mode.
    ChannelMode(Channel, ChannelMode),
    /// `insert_channel` with the mode and the members.
    InsertChannel(Channel, ChannelMode, Vec<CharacterIdentity>),
    /// `add_channel_member`.
    AddChannelMember(Channel, Character),
    /// `remove_channel_member`.
    RemoveChannelMember(Channel, Character),
    /// `add_channel_op`.
    AddChannelOp(Channel, Character),
    /// `remove_channel_op`.
    RemoveChannelOp(Channel, Character),
    /// `set_channel_ops`.
    SetChannelOps(Channel, Vec<Character>),
    /// `set_global_channels` with the name and the number of members of each.
    SetGlobalChannels(Vec<OfficialChannelInfo>),
    /// `set_unofficial_channels` with the name and the number of members of
    /// each.
    SetUnofficialChannels(Vec<ChannelInfo>),
    /// `update_character` with the status `Offline`.
    CharacterOffline(Character),
    /// `update_character` with gender, status and status message.
    CharacterPresence(Character, Gender, Status, String),
    /// `update_character` with status and gender.
    CharacterOnline(Character, Status, Gender),
    /// `update_character` with status and status message.
    CharacterStatus(Character, Status, String),
    /// `insert_message`.
    InsertMessage(MessageChannel, Message),
    /// `insert_ad`.
    InsertAd(Channel, Character, String),
    /// `add_bookmark`.
    AddBookmark(Character),
    /// `remove_bookmark`.
    RemoveBookmark(Character),
    /// `set_bookmarks`.
    SetBookmarks(Vec<Character>),
    /// `set_friends`, with each friendship as the cache keeps it.
    SetFriends(Vec<Friend>),
}

/// One step of a dispatch.
#[derive(Clone, Debug, PartialEq)]
pub enum Step {
    /// Call the listener.
    Notify(Notification),
    /// Ask the change of the cache; where the cache changed, tell the
    /// listener of it.
    Mutate(Mutation),
    /// Ask both changes of the cache, the second whatever comes of the first;
    /// where the cache changed by either, tell the listener once, as for the
    /// first.
    MutateBoth(Mutation, Mutation),
    /// Have the lists of friends and bookmarks fetched again.
    Sync,
    /// Have the session connected anew.
    Reconnect,
    /// Have the connection of the session given up.
    Close,
}

/// What a dispatch leaves to be done.
#[derive(Clone, Debug, PartialEq)]
pub enum Effect {
    /// Call the listener.
    Notify(Notification),
    /// Fetch the lists of friends and bookmarks, and hand them to the client.
    SyncFriendsBookmarks,
    /// Connect the session anew, and hand what comes of it to the client.
    Reconnect,
    /// Give up the connection of the session: the client has dropped it.
    Close,
}

/// What came of a dispatch.
#[derive(Clone, Debug, PartialEq)]
pub struct Dispatched {
    /// What is left to be done, in this order.
    pub effects: Vec<Effect>,
    /// What the cache answered to each change that was asked of it, in the
    /// order of the asking.
    pub answers: Vec<bool>,
}

impl Mutation {
    /// What the listener is told where the cache changed.
    pub open spec fn notification(self) -> Notification {
        match self {
            Mutation::SetGlobalOps(_) | Mutation::AddGlobalOp(_) | Mutation::RemoveGlobalOp(_) =>
                Notification::UpdatedGlobalOps,
            Mutation::ChannelDescription(channel, _)
            | Mutation::OfficialChannel(channel, _)
            | Mutation::ChannelTitle(channel, _)
            | Mutation::ChannelMode(channel, _)
            | Mutation::InsertChannel(channel, _, _)
            | Mutation::AddChannelMember(channel, _)
            | Mutation::RemoveChannelMember(channel, _)
            | Mutation::AddChannelOp(channel, _)
            | Mutation::RemoveChannelOp(channel, _)
            | Mutation::SetChannelOps(channel, _) => Notification::UpdatedChannel(channel),
            Mutation::SetGlobalChannels(_) | Mutation::SetUnofficialChannels(_) =>
                Notification::UpdatedChannelLists,
            Mutation::CharacterOffline(character)
            | Mutation::CharacterPresence(character, _, _, _)
            | Mutation::CharacterOnline(character, _, _)
            | Mutation::CharacterStatus(character, _, _) => Notification::UpdatedCharacter(
                character,
            ),
            Mutation::InsertMessage(source, message) => Notification::Message(source, message),
            Mutation::InsertAd(channel, character, ad) => Notification::Ad(channel, character, ad),
            Mutation::AddBookmark(_) | Mutation::RemoveBookmark(_) | Mutation::SetBookmarks(_) =>
                Notification::UpdatedBookmarks,
            Mutation::SetFriends(_) => Notification::UpdatedFriends,
        }
    }

    /// What the listener is told where the cache changed.
    pub fn into_notification(self) -> (n: Notification)
        ensures
            n == self.notification(),
    {
        match self {
            Mutation::SetGlobalOps(_) | Mutation::AddGlobalOp(_) | Mutation::RemoveGlobalOp(_) =>
                Notification::UpdatedGlobalOps,
            Mutation::ChannelDescription(channel, _)
            | Mutation::OfficialChannel(channel, _)
            | Mutation::ChannelTitle(channel, _)
            | Mutation::ChannelMode(channel, _)
            | Mutation::InsertChannel(channel, _, _)
            | Mutation::AddChannelMember(channel, _)
            | Mutation::RemoveChannelMember(channel, _)
            | Mutation::AddChannelOp(channel, _)
            | Mutation::RemoveChannelOp(channel, _)
            | Mutation::SetChannelOps(channel, _) => Notification::UpdatedChannel(channel),
            Mutation::SetGlobalChannels(_) | Mutation::SetUnofficialChannels(_) =>
                Notification::UpdatedChannelLists,
            Mutation::CharacterOffline(character)
            | Mutation::CharacterPresence(character, _, _, _)
            | Mutation::CharacterOnline(character, _, _)
            | Mutation::CharacterStatus(character, _, _) => Notification::UpdatedCharacter(
                character,
            ),
            Mutation::InsertMessage(source, message) => Notification::Message(source, message),
            Mutation::InsertAd(channel, character, ad) => Notification::Ad(channel, character, ad),
            Mutation::AddBookmark(_) | Mutation::RemoveBookmark(_) | Mutation::SetBookmarks(_) =>
                Notification::UpdatedBookmarks,
            Mutation::SetFriends(_) => Notification::UpdatedFriends,
        }
    }
}

/// The characters that a list of identities names, in order.
pub open spec fn identities_of(users: Seq<CharacterIdentity>) -> Seq<Character> {
    users.map_values(|user: CharacterIdentity| user.identity)
}

/// The name and the number of members of each official room, in order.
pub open spec fn official_counts_of(rooms: Seq<OfficialChannelInfo>) -> Seq<(Channel, u32)> {
    rooms.map_values(|room: OfficialChannelInfo| (room.name, room.characters))
}

/// The name and the number of members of each private room, in order.
pub open spec fn channel_counts_of(rooms: Seq<ChannelInfo>) -> Seq<(Channel, u32)> {
    rooms.map_values(|room: ChannelInfo| (room.name, room.characters))
}

/// The characters that a list of identities names.
pub fn identities(users: &Vec<CharacterIdentity>) -> (r: Vec<Character>)
    ensures
        r@ == identities_of(users@),
{
    let mut out: Vec<Character> = Vec::new();
    let mut i: usize = 0;
    while i < users.len()
        invariant
            i <= users@.len(),
            out@ == identities_of(users@.subrange(0, i as int)),
        decreases users@.len() - i,
    {
        out.push(users[i].identity);
        assert(users@.subrange(0, i + 1) =~= users@.subrange(0, i as int).push(users@[i as int]));
        assert(out@ =~= identities_of(users@.subrange(0, i + 1)));
        i += 1;
    }
    assert(users@.subrange(0, i as int) =~= users@);
    out
}

/// The name and the number of members of each official room.
pub fn official_counts(rooms: &Vec<OfficialChannelInfo>) -> (r: Vec<(Channel, u32)>)
    ensures
        r@ == official_counts_of(rooms@),
{
    let mut out: Vec<(Channel, u32)> = Vec::new();
    let mut i: usize = 0;
    while i < rooms.len()
        invariant
            i <= rooms@.len(),
            out@ == official_counts_of(rooms@.subrange(0, i as int)),
        decreases rooms@.len() - i,
    {
        out.push((rooms[i].name, rooms[i].characters));
        assert(rooms@.subrange(0, i + 1) =~= rooms@.subrange(0, i as int).push(rooms@[i as int]));
        assert(out@ =~= official_counts_of(rooms@.subrange(0, i + 1)));
        i += 1;
    }
    assert(rooms@.subrange(0, i as int) =~= rooms@);
    out
}

/// The name and the number of members of each private room.
pub fn channel_counts(rooms: &Vec<ChannelInfo>) -> (r: Vec<(Channel, u32)>)
    ensures
        r@ == channel_counts_of(rooms@),
{
    let mut out: Vec<(Channel, u32)> = Vec::new();
    let mut i: usize = 0;
    while i < rooms.len()
        invariant
            i <= rooms@.len(),
            out@ == channel_counts_of(rooms@.subrange(0, i as int)),
        decreases rooms@.len() - i,
    {
        out.push((rooms[i].name, rooms[i].characters));
        assert(rooms@.subrange(0, i + 1) =~= rooms@.subrange(0, i as int).push(rooms@[i as int]));
        assert(out@ =~= channel_counts_of(rooms@.subrange(0, i + 1)));
        i += 1;
    }
    assert(rooms@.subrange(0, i as int) =~= rooms@);
    out
}

impl Mutation {
    /// What `update_channel` is handed for a change of a room: nothing for
    /// any other change.
    pub open spec fn channel_update(self) -> Option<
        (Option<ChannelMode>, Option<Seq<char>>, Option<Seq<char>>),
    > {
        match self {
            Mutation::ChannelDescription(_, description) => Some((None, None, Some(description@))),
            Mutation::OfficialChannel(channel, mode) => Some((Some(mode), Some(channel@), None)),
            Mutation::ChannelTitle(_, title) => Some((None, Some(title@), None)),
            Mutation::ChannelMode(_, mode) => Some((Some(mode), None, None)),
            Mutation::InsertChannel(_, mode, _) => Some((Some(mode), None, None)),
            _ => None,
        }
    }

    /// What `update_character` is handed for a change of a character: nothing
    /// for any other change.
    pub open spec fn character_update(self) -> Option<
        (Option<Gender>, Option<Status>, Option<Seq<char>>),
    > {
        match self {
            Mutation::CharacterOffline(_) => Some((None, Some(Status::Offline), None)),
            Mutation::CharacterPresence(_, gender, status, message) => Some(
                (Some(gender), Some(status), Some(message@)),
            ),
            Mutation::CharacterOnline(_, status, gender) => Some((Some(gender), Some(status), None)),
            Mutation::CharacterStatus(_, status, message) => Some(
                (None, Some(status), Some(message@)),
            ),
            _ => None,
        }
    }

    /// Builds what `update_channel` or `insert_channel` is handed.
    pub fn channel_data(&self) -> (r: Option<PartialChannelData>)
        ensures
            match self.channel_update() {
                Some((mode, title, description)) => r matches Some(data) && data.mode == mode && (
                match title {
                    Some(t) => data.title matches Some(text) && text@ == t,
                    None => data.title.is_none(),
                }) && (match description {
                    Some(d) => data.description matches Some(text) && text@ == d,
                    None => data.description.is_none(),
                }),
                None => r.is_none(),
            },
    {
        match self {
            Mutation::ChannelDescription(_, description) => Some(
                PartialChannelData {
                    mode: None,
                    title: None,
                    description: Some(description.clone()),
                },
            ),
            Mutation::OfficialChannel(channel, mode) => Some(
                PartialChannelData {
                    mode: Some(*mode),
                    title: Some(channel.as_str().to_owned()),
                    description: None,
                },
            ),
            Mutation::ChannelTitle(_, title) => Some(
                PartialChannelData { mode: None, title: Some(title.clone()), description: None },
            ),
            Mutation::ChannelMode(_, mode) => Some(
                PartialChannelData { mode: Some(*mode), title: None, description: None },
            ),
            Mutation::InsertChannel(_, mode, _) => Some(
                PartialChannelData { mode: Some(*mode), title: None, description: None },
            ),
            _ => None,
        }
    }

    /// Builds what `update_character` is handed.
    pub fn character_data(&self) -> (r: Option<PartialUserData>)
        ensures
            match self.character_update() {
                Some((gender, status, message)) => r matches Some(data) && data.gender == gender
                    && data.status == status && (match message {
                    Some(m) => data.status_message matches Some(text) && text@ == m,
                    None => data.status_message.is_none(),
                }),
                None => r.is_none(),
            },
    {
        match self {
            Mutation::CharacterOffline(_) => Some(
                PartialUserData { gender: None, status: Some(Status::Offline), status_message: None },
            ),
            Mutation::CharacterPresence(_, gender, status, message) => Some(
                PartialUserData {
                    gender: Some(*gender),
                    status: Some(*status),
                    status_message: Some(message.clone()),
                },
            ),
            Mutation::CharacterOnline(_, status, gender) => Some(
                PartialUserData {
                    gender: Some(*gender),
                    status: Some(*status),
                    status_message: None,
                },
            ),
            Mutation::CharacterStatus(_, status, message) => Some(
                PartialUserData {
                    gender: None,
                    status: Some(*status),
                    status_message: Some(message.clone()),
                },
            ),
            _ => None,
        }
    }

    /// The room that `update_channel` is called for: nothing for a change
    /// that is not made by that method.
    pub open spec fn room(self) -> Option<Channel> {
        match self {
            Mutation::ChannelDescription(channel, _)
            | Mutation::OfficialChannel(channel, _)
            | Mutation::ChannelTitle(channel, _)
            | Mutation::ChannelMode(channel, _) => Some(channel),
            _ => None,
        }
    }

    /// The character that `update_character` is called for: nothing for a
    /// change that is not made by that method.
    pub open spec fn subject(self) -> Option<Character> {
        match self {
            Mutation::CharacterOffline(character)
            | Mutation::CharacterPresence(character, _, _, _)
            | Mutation::CharacterOnline(character, _, _)
            | Mutation::CharacterStatus(character, _, _) => Some(character),
            _ => None,
        }
    }

    /// Whether a record is what the cache is handed for a change of a room:
    /// it holds the fields that the change sets, and no other.
    pub open spec fn hands_channel(self, data: PartialChannelData) -> bool {
        match self.channel_update() {
            Some((mode, title, description)) => data.mode == mode && (match title {
                Some(t) => data.title matches Some(text) && text@ == t,
                None => data.title.is_none(),
            }) && (match description {
                Some(d) => data.description matches Some(text) && text@ == d,
                None => data.description.is_none(),
            }),
            None => false,
        }
    }

    /// Whether a record is what the cache is handed for a change of a
    /// character: it holds the fields that the change sets, and no other.
    pub open spec fn hands_character(self, data: PartialUserData) -> bool {
        match self.character_update() {
            Some((gender, status, message)) => data.gender == gender && data.status == status && (
            match message {
                Some(m) => data.status_message matches Some(text) && text@ == m,
                None => data.status_message.is_none(),
            }),
            None => false,
        }
    }

    /// Whether `changed` is an answer of the cache to the one call that the
    /// change stands for: the method of the cache that the change names,
    /// called with what the change holds. A room or a character is updated
    /// with the record of the change; members, numbers of members and
    /// friendships are handed over as the cache keeps them.
    pub open spec fn answered<C: Cache>(self, cache: &C, changed: bool) -> bool {
        match self {
            Mutation::SetGlobalOps(ops) => call_ensures(C::set_global_ops, (cache, &ops), changed),
            Mutation::AddGlobalOp(character) => call_ensures(
                C::add_global_op,
                (cache, &character),
                changed,
            ),
            Mutation::RemoveGlobalOp(character) => call_ensures(
                C::remove_global_op,
                (cache, &character),
                changed,
            ),
            Mutation::ChannelDescription(_, _)
            | Mutation::OfficialChannel(_, _)
            | Mutation::ChannelTitle(_, _)
            | Mutation::ChannelMode(_, _) => exists|channel: Channel, data: PartialChannelData|
                self.room() == Some(channel) && self.hands_channel(data) && #[trigger] call_ensures(
                    C::update_channel,
                    (cache, &channel, &data),
                    changed,
                ),
            Mutation::InsertChannel(channel, _, users) => exists|
                data: PartialChannelData,
                members: Vec<Character>,
            |
                self.hands_channel(data) && members@ == identities_of(users@)
                    && #[trigger] call_ensures(
                    C::insert_channel,
                    (cache, &channel, &data, &members),
                    changed,
                ),
            Mutation::AddChannelMember(channel, member) => call_ensures(
                C::add_channel_member,
                (cache, &channel, member),
                changed,
            ),
            Mutation::RemoveChannelMember(channel, member) => call_ensures(
                C::remove_channel_member,
                (cache, &channel, member),
                changed,
            ),
            Mutation::AddChannelOp(channel, character) => call_ensures(
                C::add_channel_op,
                (cache, &channel, &character),
                changed,
            ),
            Mutation::RemoveChannelOp(channel, character) => call_ensures(
                C::remove_channel_op,
                (cache, &channel, &character),
                changed,
            ),
            Mutation::SetChannelOps(channel, ops) => call_ensures(
                C::set_channel_ops,
                (cache, &channel, &ops),
                changed,
            ),
            Mutation::SetGlobalChannels(rooms) => exists|counts: Vec<(Channel, u32)>|
                counts@ == official_counts_of(rooms@) && #[trigger] call_ensures(
                    C::set_global_channels,
                    (cache, &counts),
                    changed,
                ),
            Mutation::SetUnofficialChannels(rooms) => exists|counts: Vec<(Channel, u32)>|
                counts@ == channel_counts_of(rooms@) && #[trigger] call_ensures(
                    C::set_unofficial_channels,
                    (cache, &counts),
                    changed,
                ),
            Mutation::CharacterOffline(_)
            | Mutation::CharacterPresence(_, _, _, _)
            | Mutation::CharacterOnline(_, _, _)
            | Mutation::CharacterStatus(_, _, _) => exists|
                character: Character,
                data: PartialUserData,
            |
                self.subject() == Some(character) && self.hands_character(data)
                    && #[trigger] call_ensures(
                    C::update_character,
                    (cache, &character, &data),
                    changed,
                ),
            Mutation::InsertMessage(source, message) => call_ensures(
                C::insert_message,
                (cache, source, &message),
                changed,
            ),
            Mutation::InsertAd(channel, character, ad) => exists|text: &str|
                text@ == ad@ && #[trigger] call_ensures(
                    C::insert_ad,
                    (cache, &channel, &character, text),
                    changed,
                ),
            Mutation::AddBookmark(character) => call_ensures(
                C::add_bookmark,
                (cache, &character),
                changed,
            ),
            Mutation::RemoveBookmark(character) => call_ensures(
                C::remove_bookmark,
                (cache, &character),
                changed,
            ),
            Mutation::SetBookmarks(bookmarks) => call_ensures(
                C::set_bookmarks,
                (cache, &bookmarks),
                changed,
            ),
            Mutation::SetFriends(friends) => exists|kept: Vec<FriendRelation>|
                kept@ == relations_of(friends@) && #[trigger] call_ensures(
                    C::set_friends,
                    (cache, &kept),
                    changed,
                ),
        }
    }

    /// Asks the change of a cache, and hands back the cache's answer:
    /// whether it changed.
    pub(crate) fn apply<C: Cache>(&self, cache: &C) -> (changed: bool)
        ensures
            self.answered(cache, changed),
    {
        match self {
            Mutation::SetGlobalOps(ops) => cache.set_global_ops(ops),
            Mutation::AddGlobalOp(character) => cache.add_global_op(character),
            Mutation::RemoveGlobalOp(character) => cache.remove_global_op(character),
            Mutation::ChannelDescription(channel, _)
            | Mutation::OfficialChannel(channel, _)
            | Mutation::ChannelTitle(channel, _)
            | Mutation::ChannelMode(channel, _) => match self.channel_data() {
                Some(data) => {
                    let changed = cache.update_channel(channel, &data);
                    assert(self.room() == Some(*channel) && self.hands_channel(data) && call_ensures(
                        C::update_channel,
                        (cache, channel, &data),
                        changed,
                    ));
                    changed
                },
                None => false,
            },
            Mutation::InsertChannel(channel, _, users) => match self.channel_data() {
                Some(data) => {
                    let members = identities(users);
                    let changed = cache.insert_channel(channel, &data, &members);
                    assert(self.hands_channel(data) && members@ == identities_of(users@)
                        && call_ensures(
                        C::insert_channel,
                        (cache, channel, &data, &members),
                        changed,
                    ));
                    changed
                },
                None => false,
            },
            Mutation::AddChannelMember(channel, member) => cache.add_channel_member(
                channel,
                *member,
            ),
            Mutation::RemoveChannelMember(channel, member) => cache.remove_channel_member(
                channel,
                *member,
            ),
            Mutation::AddChannelOp(channel, character) => cache.add_channel_op(channel, character),
            Mutation::RemoveChannelOp(channel, character) => cache.remove_channel_op(
                channel,
                character,
            ),
            Mutation::SetChannelOps(channel, ops) => cache.set_channel_ops(channel, ops),
            Mutation::SetGlobalChannels(rooms) => {
                let counts = official_counts(rooms);
                let changed = cache.set_global_channels(&counts);
                assert(counts@ == official_counts_of(rooms@) && call_ensures(
                    C::set_global_channels,
                    (cache, &counts),
                    changed,
                ));
                changed
            },
            Mutation::SetUnofficialChannels(rooms) => {
                let counts = channel_counts(rooms);
                let changed = cache.set_unofficial_channels(&counts);
                assert(counts@ == channel_counts_of(rooms@) && call_ensures(
                    C::set_unofficial_channels,
                    (cache, &counts),
                    changed,
                ));
                changed
            },
            Mutation::CharacterOffline(character)
            | Mutation::CharacterPresence(character, _, _, _)
            | Mutation::CharacterOnline(character, _, _)
            | Mutation::CharacterStatus(character, _, _) => match self.character_data() {
                Some(data) => {
                    let changed = cache.update_character(character, &data);
                    assert(self.subject() == Some(*character) && self.hands_character(data)
                        && call_ensures(
                        C::update_character,
                        (cache, character, &data),
                        changed,
                    ));
                    changed
                },
                None => false,
            },
            Mutation::InsertMessage(source, message) => cache.insert_message(*source, message),
            Mutation::InsertAd(channel, character, ad) => {
                let text = ad.as_str();
                let changed = cache.insert_ad(channel, character, text);
                assert(text@ == ad@ && call_ensures(
                    C::insert_ad,
                    (cache, channel, character, text),
                    changed,
                ));
                changed
            },
            Mutation::AddBookmark(character) => cache.add_bookmark(character),
            Mutation::RemoveBookmark(character) => cache.remove_bookmark(character),
            Mutation::SetBookmarks(bookmarks) => cache.set_bookmarks(bookmarks),
            Mutation::SetFriends(friends) => {
                let kept = relations(friends);
                let changed = cache.set_friends(&kept);
                assert(kept@ == relations_of(friends@) && call_ensures(
                    C::set_friends,
                    (cache, &kept),
                    changed,
                ));
                changed
            },
        }
    }
}

/// How many answers of the cache a step takes.
pub open spec fn step_answers(step: Step) -> nat {
    match step {
        Step::Notify(_) => 0,
        Step::Mutate(_) => 1,
        Step::MutateBoth(_, _) => 2,
        Step::Sync | Step::Reconnect | Step::Close => 0,
    }
}

/// What a step leaves to be done, given the answers of the cache to the
/// changes that the step asks.
pub open spec fn step_effects(step: Step, answers: Seq<bool>) -> Seq<Effect> {
    match step {
        Step::Notify(notification) => seq![Effect::Notify(notification)],
        Step::Mutate(mutation) => if answers[0] {
            seq![Effect::Notify(mutation.notification())]
        } else {
            Seq::empty()
        },
        Step::MutateBoth(first, _) => if answers[0] || answers[1] {
            seq![Effect::Notify(first.notification())]
        } else {
            Seq::empty()
        },
        Step::Sync => seq![Effect::SyncFriendsBookmarks],
        Step::Reconnect => seq![Effect::Reconnect],
        Step::Close => seq![Effect::Close],
    }
}

/// The changes that a step asks of the cache, in the order of the asking.
pub open spec fn step_changes(step: Step) -> Seq<Mutation> {
    match step {
        Step::Mutate(mutation) => seq![mutation],
        Step::MutateBoth(first, second) => seq![first, second],
        _ => Seq::empty(),
    }
}

/// The changes that a sequence of steps asks of the cache, in the order of
/// the asking.
pub open spec fn asked(steps: Seq<Step>) -> Seq<Mutation>
    decreases steps.len(),
{
    if steps.len() == 0 {
        Seq::empty()
    } else {
        asked(steps.drop_last()) + step_changes(steps.last())
    }
}

/// Whether each answer is an answer of the cache to the change in its
/// place: to the call that the change stands for, with what the change
/// holds.
pub open spec fn all_answered<C: Cache>(changes: Seq<Mutation>, cache: &C, answers: Seq<bool>) -> bool {
    &&& answers.len() == changes.len()
    &&& forall|i: int| 0 <= i < changes.len() ==> (#[trigger] changes[i]).answered(cache, answers[i])
}

/// How many answers of the cache a sequence of steps takes.
pub open spec fn answers_needed(steps: Seq<Step>) -> nat
    decreases steps.len(),
{
    if steps.len() == 0 {
        0
    } else {
        answers_needed(steps.drop_last()) + step_answers(steps.last())
    }
}

/// What a sequence of steps leaves to be done, given the answers of the
/// cache in the order of the asking: what each step leaves, in order.
pub open spec fn effects_of(steps: Seq<Step>, answers: Seq<bool>) -> Seq<Effect>
    decreases steps.len(),
{
    if steps.len() == 0 {
        Seq::empty()
    } else {
        let split = answers.len() - step_answers(steps.last());
        effects_of(steps.drop_last(), answers.subrange(0, split)) + step_effects(
            steps.last(),
            answers.subrange(split, answers.len() as int),
        )
    }
}

/// Whether a command goes on from a session to the client. The heartbeat,
/// the greeting, the acceptance of the identification and the declarations
/// of variables end in the session.
pub open spec fn reaches_client(command: ServerCommand) -> bool {
    !(command is Ping || command is Hello || command is IdentifySuccess || command is Variable)
}

/// The steps for each official room of a list: its mode, and its name as
/// its title.
pub open spec fn official_steps(rooms: Seq<OfficialChannelInfo>) -> Seq<Step> {
    rooms.map_values(
        |room: OfficialChannelInfo| Step::Mutate(Mutation::OfficialChannel(room.name, room.mode)),
    )
}

/// The steps for each private room of a list: its title.
pub open spec fn unofficial_steps(rooms: Seq<ChannelInfo>) -> Seq<Step> {
    rooms.map_values(|room: ChannelInfo| Step::Mutate(Mutation::ChannelTitle(room.name, room.title)))
}

/// The steps for each character of a list of those online: gender, status
/// and status message.
pub open spec fn presence_steps(entries: Seq<FlatCharacterData>) -> Seq<Step> {
    entries.map_values(
        |entry: FlatCharacterData|
            Step::Mutate(Mutation::CharacterPresence(entry.0, entry.1, entry.2, entry.3)),
    )
}

/// The conversation that a roll belongs to: the room, or the private
/// exchange of the recipient with the character that rolled.
pub open spec fn roll_source(target: Target, character: Character) -> MessageChannel {
    match target {
        Target::Channel { channel } => MessageChannel::Channel(channel),
        Target::Character { recipient } => MessageChannel::PrivateMessage(recipient, character),
    }
}

/// What follows the call of `raw_command` for a command, for the session of
/// the given character at the given time.
pub open spec fn steps_after_raw(session: Character, now: Timestamp, command: ServerCommand) -> Seq<
    Step,
> {
    match command {
        ServerCommand::GlobalOps { ops } => seq![Step::Mutate(Mutation::SetGlobalOps(ops))],
        ServerCommand::GlobalOpped { character } => seq![
            Step::Mutate(Mutation::AddGlobalOp(character)),
        ],
        ServerCommand::GlobalDeopped { character } => seq![
            Step::Mutate(Mutation::RemoveGlobalOp(character)),
        ],
        ServerCommand::Broadcast { message, character } => seq![
            Step::Notify(Notification::Broadcast(character, message)),
        ],
        ServerCommand::ChannelDescription { channel, description } => seq![
            Step::Mutate(Mutation::ChannelDescription(channel, description)),
        ],
        ServerCommand::GlobalChannels { channels } => official_steps(channels@) + seq![
            Step::Mutate(Mutation::SetGlobalChannels(channels)),
        ],
        ServerCommand::Invited { sender, title, name } => seq![
            Step::Mutate(Mutation::ChannelTitle(name, title)),
            Step::Notify(Notification::Invited(name, sender)),
        ],
        ServerCommand::ChannelData { users, channel, mode } => seq![
            Step::Mutate(Mutation::InsertChannel(channel, mode, users)),
        ],
        ServerCommand::JoinedChannel { channel, character, title } => {
            let both = seq![
                Step::MutateBoth(
                    Mutation::ChannelTitle(channel, title),
                    Mutation::AddChannelMember(channel, character.identity),
                ),
            ];
            if character.identity.key() == session.key() {
                both + seq![Step::Notify(Notification::UpdatedSessionChannels)]
            } else {
                both
            }
        },
        ServerCommand::LeftChannel { channel, character } => {
            let leave = seq![Step::Mutate(Mutation::RemoveChannelMember(channel, character))];
            if character.key() == session.key() {
                leave + seq![Step::Notify(Notification::UpdatedSessionChannels)]
            } else {
                leave
            }
        },
        ServerCommand::Opped { character, channel } => seq![
            Step::Mutate(Mutation::AddChannelOp(channel, character)),
        ],
        ServerCommand::Deopped { character, channel } => seq![
            Step::Mutate(Mutation::RemoveChannelOp(channel, character)),
        ],
        ServerCommand::Ops { channel, oplist } => seq![
            Step::Mutate(Mutation::SetChannelOps(channel, oplist)),
        ],
        ServerCommand::ChannelMode { mode, channel } => seq![
            Step::Mutate(Mutation::ChannelMode(channel, mode)),
        ],
        ServerCommand::Connected { .. } => seq![Step::Notify(Notification::Ready)],
        ServerCommand::Offline { character } => seq![
            Step::Mutate(Mutation::CharacterOffline(character)),
        ],
        ServerCommand::ListOnline { characters } => presence_steps(characters@),
        ServerCommand::NewConnection { status, gender, identity } => seq![
            Step::Mutate(Mutation::CharacterOnline(identity, status, gender)),
        ],
        ServerCommand::Status { status, character, statusmsg } => seq![
            Step::Mutate(Mutation::CharacterStatus(character, status, statusmsg)),
        ],
        ServerCommand::PrivateMessage { character, message } => seq![
            Step::Mutate(
                Mutation::InsertMessage(
                    MessageChannel::PrivateMessage(session, character),
                    Message {
                        timestamp: now,
                        character,
                        content: MessageContent::Message(message),
                    },
                ),
            ),
        ],
        ServerCommand::Message { character, message, channel } => seq![
            Step::Mutate(
                Mutation::InsertMessage(
                    MessageChannel::Channel(channel),
                    Message {
                        timestamp: now,
                        character,
                        content: MessageContent::Message(message),
                    },
                ),
            ),
        ],
        ServerCommand::Ad { character, message, channel } => seq![
            Step::Mutate(Mutation::InsertAd(channel, character, message)),
        ],
        ServerCommand::Roll { target, results, rolls, character, endresult, .. } => seq![
            Step::Mutate(
                Mutation::InsertMessage(
                    roll_source(target, character),
                    Message {
                        timestamp: now,
                        character,
                        content: MessageContent::Roll(rolls, results, endresult),
                    },
                ),
            ),
        ],
        ServerCommand::SystemMessage { message, channel } => seq![
            Step::Notify(Notification::SystemMessage(channel, message)),
        ],
        ServerCommand::Typing { character, status } => seq![
            Step::Notify(Notification::Typing(character, status)),
        ],
        ServerCommand::Error { number, message } => seq![
            Step::Notify(Notification::Error(ProtocolError::of_code(number as int), message)),
        ],
        ServerCommand::BridgeEvent { response_type, name } => match response_type {
            BridgeEvent::BookmarkAdd => seq![Step::Mutate(Mutation::AddBookmark(name))],
            BridgeEvent::BookmarkRemove => seq![Step::Mutate(Mutation::RemoveBookmark(name))],
            BridgeEvent::FriendAdd | BridgeEvent::FriendRemove => seq![Step::Sync],
            BridgeEvent::FriendRequest => Seq::empty(),
        },
        ServerCommand::Channels { channels } => unofficial_steps(channels@) + seq![
            Step::Mutate(Mutation::SetUnofficialChannels(channels)),
        ],
        _ => Seq::empty(),
    }
}

/// The steps of the dispatch of a command: the call of `raw_command`, then
/// what the command asks for.
pub open spec fn plan_of(session: Character, now: Timestamp, command: ServerCommand) -> Seq<Step> {
    seq![Step::Notify(Notification::RawCommand)] + steps_after_raw(session, now, command)
}

/// What came of one step and what came of the one before it, taken
/// together, is what came of both.
pub proof fn lemma_plan_step(done: Seq<Step>, step: Step, answers: Seq<bool>, fresh: Seq<bool>)
    requires
        answers.len() == answers_needed(done),
        fresh.len() == step_answers(step),
    ensures
        answers_needed(done.push(step)) == answers_needed(done) + step_answers(step),
        effects_of(done.push(step), answers + fresh) == effects_of(done, answers) + step_effects(
            step,
            fresh,
        ),
        asked(done.push(step)) == asked(done) + step_changes(step),
        asked(done).len() == answers_needed(done),
    decreases done.len(),
{
    let steps = done.push(step);
    assert(steps.drop_last() =~= done);
    assert(steps.last() == step);
    let all = answers + fresh;
    let split = all.len() - step_answers(step);
    assert(all.subrange(0, split) =~= answers);
    assert(all.subrange(split, all.len() as int) =~= fresh);
    lemma_asked_len(done);
}

/// A sequence of steps asks as many changes as it takes answers.
pub proof fn lemma_asked_len(steps: Seq<Step>)
    ensures
        asked(steps).len() == answers_needed(steps),
    decreases steps.len(),
{
    if steps.len() > 0 {
        lemma_asked_len(steps.drop_last());
    }
}

/// The steps that come first in a sequence of steps leave what they leave on
/// their own, and what follows leaves what it leaves: the effects of a
/// sequence come in the order of its steps.
pub proof fn lemma_effects_in_order(
    first: Seq<Step>,
    second: Seq<Step>,
    answers_first: Seq<bool>,
    answers_second: Seq<bool>,
)
    requires
        answers_first.len() == answers_needed(first),
        answers_second.len() == answers_needed(second),
    ensures
        answers_needed(first + second) == answers_needed(first) + answers_needed(second),
        effects_of(first + second, answers_first + answers_second) == effects_of(
            first,
            answers_first,
        ) + effects_of(second, answers_second),
        asked(first + second) == asked(first) + asked(second),
    decreases second.len(),
{
    if second.len() == 0 {
        assert(first + second =~= first);
        assert(answers_first + answers_second =~= answers_first);
        assert(effects_of(first, answers_first) + Seq::<Effect>::empty() =~= effects_of(
            first,
            answers_first,
        ));
        assert(asked(first) + Seq::<Mutation>::empty() =~= asked(first));
    } else {
        let front = second.drop_last();
        let last = second.last();
        let split = answers_second.len() - step_answers(last);
        let answers_front = answers_second.subrange(0, split);
        let fresh = answers_second.subrange(split, answers_second.len() as int);
        lemma_effects_in_order(first, front, answers_first, answers_front);
        lemma_plan_step(first + front, last, answers_first + answers_front, fresh);
        assert((first + front).push(last) =~= first + second);
        assert((answers_first + answers_front) + fresh =~= answers_first + answers_second);
        assert(effects_of(first, answers_first) + (effects_of(front, answers_front)
            + step_effects(last, fresh)) =~= (effects_of(first, answers_first) + effects_of(
            front,
            answers_front,
        )) + step_effects(last, fresh));
        assert(asked(first) + (asked(front) + step_changes(last)) =~= (asked(first) + asked(
            front,
        )) + step_changes(last));
    }
}

impl Step {
    /// Takes the step: asks the cache the changes of the step, and says what
    /// is left to be done, which is to be done before the next step is taken.
    pub fn run<C: Cache>(self, cache: &C) -> (r: Dispatched)
        ensures
            r.effects@ == step_effects(self, r.answers@),
            all_answered(step_changes(self), cache, r.answers@),
    {
        match self {
            Step::Notify(notification) => Dispatched {
                effects: vec![Effect::Notify(notification)],
                answers: Vec::new(),
            },
            Step::Mutate(mutation) => {
                let changed = mutation.apply(cache);
                let mut effects: Vec<Effect> = Vec::new();
                if changed {
                    effects.push(Effect::Notify(mutation.into_notification()));
                }
                Dispatched { effects, answers: vec![changed] }
            },
            Step::MutateBoth(first, second) => {
                let changed_first = first.apply(cache);
                let changed_second = second.apply(cache);
                let mut effects: Vec<Effect> = Vec::new();
                if changed_first || changed_second {
                    effects.push(Effect::Notify(first.into_notification()));
                }
                Dispatched { effects, answers: vec![changed_first, changed_second] }
            },
            Step::Sync => Dispatched {
                effects: vec![Effect::SyncFriendsBookmarks],
                answers: Vec::new(),
            },
            Step::Reconnect => Dispatched { effects: vec![Effect::Reconnect], answers: Vec::new() },
            Step::Close => Dispatched { effects: vec![Effect::Close], answers: Vec::new() },
        }
    }
}

/// Takes the steps of a plan one after the other and gathers what they
/// leave to be done. This is for a caller that has nothing to do between
/// two steps; one that has takes the steps itself, with [`Step::run`].
pub fn run_plan<C: Cache>(cache: &C, steps: Vec<Step>) -> (r: Dispatched)
    ensures
        r.effects@ == effects_of(steps@, r.answers@),
        all_answered(asked(steps@), cache, r.answers@),
{
    let mut effects: Vec<Effect> = Vec::new();
    let mut answers: Vec<bool> = Vec::new();
    let ghost plan = steps@;
    proof {
        assert(plan.subrange(0, 0) =~= Seq::<Step>::empty());
    }
    for step in it: steps
        invariant
            plan == it.seq(),
            effects@ == effects_of(plan.subrange(0, it.index()), answers@),
            answers@.len() == answers_needed(plan.subrange(0, it.index())),
            all_answered(asked(plan.subrange(0, it.index())), cache, answers@),
    {
        let ghost done = plan.subrange(0, it.index());
        let ghost before = answers@;
        let mut taken = step.run(cache);
        proof {
            lemma_plan_step(done, step, before, taken.answers@);
            assert(done.push(step) =~= plan.subrange(0, it.index() + 1));
            let changes = asked(done) + step_changes(step);
            let told = before + taken.answers@;
            assert forall|i: int| 0 <= i < changes.len() implies (#[trigger] changes[i]).answered(
                cache,
                told[i],
            ) by {
                if i < asked(done).len() {
                    assert(changes[i] == asked(done)[i]);
                } else {
                    assert(changes[i] == step_changes(step)[i - asked(done).len()]);
                }
            }
        }
        effects.append(&mut taken.effects);
        answers.append(&mut taken.answers);
    }
    proof {
        assert(plan.subrange(0, plan.len() as int) =~= plan);
        lemma_asked_len(plan);
    }
    Dispatched { effects, answers }
}

/// The steps of the dispatch of a command that a session handed on: the
/// call of `raw_command`, then what the command asks for.
///
/// A command that ends in the session must not be dispatched.
pub fn plan(session: Character, now: Timestamp, command: ServerCommand) -> (steps: Vec<Step>)
    requires
        reaches_client(command),
    ensures
        steps@ == plan_of(session, now, command),
{
    let mut steps: Vec<Step> = Vec::new();
    steps.push(Step::Notify(Notification::RawCommand));
    let ghost raw = seq![Step::Notify(Notification::RawCommand)];
    assert(steps@ =~= raw);
    match command {
        ServerCommand::GlobalOps { ops } => {
            steps.push(Step::Mutate(Mutation::SetGlobalOps(ops)));
        },
        ServerCommand::GlobalOpped { character } => {
            steps.push(Step::Mutate(Mutation::AddGlobalOp(character)));
        },
        ServerCommand::GlobalDeopped { character } => {
            steps.push(Step::Mutate(Mutation::RemoveGlobalOp(character)));
        },
        ServerCommand::Broadcast { message, character } => {
            steps.push(Step::Notify(Notification::Broadcast(character, message)));
        },
        ServerCommand::ChannelDescription { channel, description } => {
            steps.push(Step::Mutate(Mutation::ChannelDescription(channel, description)));
        },
        ServerCommand::GlobalChannels { channels } => {
            let mut i: usize = 0;
            while i < channels.len()
                invariant
                    i <= channels@.len(),
                    steps@ == raw + official_steps(channels@.subrange(0, i as int)),
                decreases channels@.len() - i,
            {
                let room = channels[i];
                steps.push(Step::Mutate(Mutation::OfficialChannel(room.name, room.mode)));
                proof {
                    assert(channels@.subrange(0, i + 1) =~= channels@.subrange(0, i as int).push(
                        channels@[i as int],
                    ));
                    assert(steps@ =~= raw + official_steps(channels@.subrange(0, i + 1)));
                }
                i += 1;
            }
            assert(channels@.subrange(0, i as int) =~= channels@);
            steps.push(Step::Mutate(Mutation::SetGlobalChannels(channels)));
        },
        ServerCommand::Invited { sender, title, name } => {
            steps.push(Step::Mutate(Mutation::ChannelTitle(name, title)));
            steps.push(Step::Notify(Notification::Invited(name, sender)));
        },
        ServerCommand::ChannelData { users, channel, mode } => {
            steps.push(Step::Mutate(Mutation::InsertChannel(channel, mode, users)));
        },
        ServerCommand::JoinedChannel { channel, character, title } => {
            steps.push(
                Step::MutateBoth(
                    Mutation::ChannelTitle(channel, title),
                    Mutation::AddChannelMember(channel, character.identity),
                ),
            );
            if character.identity == session {
                steps.push(Step::Notify(Notification::UpdatedSessionChannels));
            }
        },
        ServerCommand::LeftChannel { channel, character } => {
            steps.push(Step::Mutate(Mutation::RemoveChannelMember(channel, character)));
            if character == session {
                steps.push(Step::Notify(Notification::UpdatedSessionChannels));
            }
        },
        ServerCommand::Opped { character, channel } => {
            steps.push(Step::Mutate(Mutation::AddChannelOp(channel, character)));
        },
        ServerCommand::Deopped { character, channel } => {
            steps.push(Step::Mutate(Mutation::RemoveChannelOp(channel, character)));
        },
        ServerCommand::Ops { channel, oplist } => {
            steps.push(Step::Mutate(Mutation::SetChannelOps(channel, oplist)));
        },
        ServerCommand::ChannelMode { mode, channel } => {
            steps.push(Step::Mutate(Mutation::ChannelMode(channel, mode)));
        },
        ServerCommand::Connected { .. } => {
            steps.push(Step::Notify(Notification::Ready));
        },
        ServerCommand::Offline { character } => {
            steps.push(Step::Mutate(Mutation::CharacterOffline(character)));
        },
        ServerCommand::ListOnline { characters } => {
            let mut i: usize = 0;
            while i < characters.len()
                invariant
                    i <= characters@.len(),
                    steps@ == raw + presence_steps(characters@.subrange(0, i as int)),
                decreases characters@.len() - i,
            {
                let entry = &characters[i];
                steps.push(Step::Mutate(
                        Mutation::CharacterPresence(entry.0, entry.1, entry.2, entry.3.clone()),
                    ),
                );
                proof {
                    assert(characters@.subrange(0, i + 1) =~= characters@.subrange(
                        0,
                        i as int,
                    ).push(characters@[i as int]));
                    assert(steps@ =~= raw + presence_steps(characters@.subrange(0, i + 1)));
                }
                i += 1;
            }
            assert(characters@.subrange(0, i as int) =~= characters@);
        },
        ServerCommand::NewConnection { status, gender, identity } => {
            steps.push(Step::Mutate(Mutation::CharacterOnline(identity, status, gender)));
        },
        ServerCommand::Status { status, character, statusmsg } => {
            steps.push(Step::Mutate(Mutation::CharacterStatus(character, status, statusmsg)));
        },
        ServerCommand::PrivateMessage { character, message } => {
            steps.push(Step::Mutate(
                    Mutation::InsertMessage(
                        MessageChannel::PrivateMessage(session, character),
                        Message {
                            timestamp: now,
                            character,
                            content: MessageContent::Message(message),
                        },
                    ),
                ),
            );
        },
        ServerCommand::Message { character, message, channel } => {
            steps.push(Step::Mutate(
                    Mutation::InsertMessage(
                        MessageChannel::Channel(channel),
                        Message {
                            timestamp: now,
                            character,
                            content: MessageContent::Message(message),
                        },
                    ),
                ),
            );
        },
        ServerCommand::Ad { character, message, channel } => {
            steps.push(Step::Mutate(Mutation::InsertAd(channel, character, message)));
        },
        ServerCommand::Roll { target, results, rolls, character, endresult, .. } => {
            let source = match target {
                Target::Channel { channel } => MessageChannel::Channel(channel),
                Target::Character { recipient } => MessageChannel::PrivateMessage(
                    recipient,
                    character,
                ),
            };
            steps.push(Step::Mutate(
                    Mutation::InsertMessage(
                        source,
                        Message {
                            timestamp: now,
                            character,
                            content: MessageContent::Roll(rolls, results, endresult),
                        },
                    ),
                ),
            );
        },
        ServerCommand::SystemMessage { message, channel } => {
            steps.push(Step::Notify(Notification::SystemMessage(channel, message)));
        },
        ServerCommand::Typing { character, status } => {
            steps.push(Step::Notify(Notification::Typing(character, status)));
        },
        ServerCommand::Error { number, message } => {
            steps.push(Step::Notify(Notification::Error(ProtocolError::from_number(number), message)),
            );
        },
        ServerCommand::BridgeEvent { response_type, name } => match response_type {
            BridgeEvent::BookmarkAdd => {
                steps.push(Step::Mutate(Mutation::AddBookmark(name)));
            },
            BridgeEvent::BookmarkRemove => {
                steps.push(Step::Mutate(Mutation::RemoveBookmark(name)));
            },
            BridgeEvent::FriendAdd | BridgeEvent::FriendRemove => {
                steps.push(Step::Sync);
            },
            BridgeEvent::FriendRequest => {},
        },
        ServerCommand::Channels { channels } => {
            let mut i: usize = 0;
            while i < channels.len()
                invariant
                    i <= channels@.len(),
                    steps@ == raw + unofficial_steps(channels@.subrange(0, i as int)),
                decreases channels@.len() - i,
            {
                let room = &channels[i];
                steps.push(Step::Mutate(Mutation::ChannelTitle(room.name, room.title.clone())));
                proof {
                    assert(channels@.subrange(0, i + 1) =~= channels@.subrange(0, i as int).push(
                        channels@[i as int],
                    ));
                    assert(steps@ =~= raw + unofficial_steps(channels@.subrange(0, i + 1)));
                }
                i += 1;
            }
            assert(channels@.subrange(0, i as int) =~= channels@);
            steps.push(Step::Mutate(Mutation::SetUnofficialChannels(channels)));
        },
        _ => {},
    }
    assert(steps@ =~= plan_of(session, now, command));
    steps
}

/// Dispatches a command that a session handed on: asks the cache for the
/// changes that the command calls for, one after the other, and gathers the
/// calls of the listener that are due.
///
/// A command that ends in the session must not be dispatched.
pub fn dispatch_command<C: Cache>(
    cache: &C,
    session: Character,
    now: Timestamp,
    command: ServerCommand,
) -> (r: Dispatched)
    requires
        reaches_client(command),
    ensures
        r.answers@.len() == answers_needed(plan_of(session, now, command)),
        r.effects@ == effects_of(plan_of(session, now, command), r.answers@),
        all_answered(asked(plan_of(session, now, command)), cache, r.answers@),
{
    let r = run_plan(cache, plan(session, now, command));
    proof {
        lemma_asked_len(plan_of(session, now, command));
    }
    r
}

} // verus!
