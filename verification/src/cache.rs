//! The mirror of the server's state that a client keeps.
//!
//! Every operation that changes the mirror says whether anything that can be
//! observed has changed. The dispatcher tells the listener only of changes.

use vstd::prelude::*;
use crate::data::{Channel, ChannelData, ChannelMode, Character, CharacterData, FriendRelation, Gender, Message, MessageChannel, Status, Timestamp};

verus! {

/// What to change of a room. A field that is absent is left as it is.
#[derive(Clone, Debug, Default, PartialEq, Eq)]
pub struct PartialChannelData {
    pub mode: Option<ChannelMode>,
    pub title: Option<String>,
    pub description: Option<String>,
}

/// What to change of a character. A field that is absent is left as it is.
#[derive(Clone, Debug, Default, PartialEq, Eq)]
pub struct PartialUserData {
    pub gender: Option<Gender>,
    pub status: Option<Status>,
    pub status_message: Option<String>,
}

/// The characters that a list of friendships names as friends, in order.
pub open spec fn friends_of(relations: Seq<FriendRelation>) -> Seq<Character> {
    relations.map_values(|relation: FriendRelation| relation.other_character)
}

/// The friends that a list of friendships names, in order.
pub fn friends(relations: &Vec<FriendRelation>) -> (r: Vec<Character>)
    ensures
        r@ == friends_of(relations@),
{
    let mut out: Vec<Character> = Vec::new();
    let mut i: usize = 0;
    while i < relations.len()
        invariant
            i <= relations@.len(),
            out@ == friends_of(relations@.subrange(0, i as int)),
        decreases relations@.len() - i,
    {
        out.push(relations[i].other_character);
        assert(relations@.subrange(0, i + 1) =~= relations@.subrange(0, i as int).push(
            relations@[i as int],
        ));
        assert(out@ =~= friends_of(relations@.subrange(0, i + 1)));
        i += 1;
    }
    assert(relations@.subrange(0, i as int) =~= relations@);
    out
}

/// A mirror of the server's state.
///
/// The operations that change the mirror return whether it changed. How the
/// mirror is stored is up to the implementation.
pub trait Cache {
    /// Files an entry of a conversation.
    fn insert_message(&self, source: MessageChannel, message: &Message) -> bool;

    /// Records a room with its members.
    fn insert_channel(
        &self,
        channel: &Channel,
        data: &PartialChannelData,
        members: &Vec<Character>,
    ) -> bool;

    /// Files an ad that a character posted in a room.
    fn insert_ad(&self, channel: &Channel, character: &Character, ad: &str) -> bool;

    /// Records that a character is in a room.
    fn add_channel_member(&self, channel: &Channel, member: Character) -> bool;

    /// Records that a character is no longer in a room.
    fn remove_channel_member(&self, channel: &Channel, member: Character) -> bool;

    /// Records a bookmark.
    fn add_bookmark(&self, character: &Character) -> bool;

    /// Removes a bookmark.
    fn remove_bookmark(&self, character: &Character) -> bool;

    /// Records a global operator.
    fn add_global_op(&self, character: &Character) -> bool;

    /// Removes a global operator.
    fn remove_global_op(&self, character: &Character) -> bool;

    /// Records an operator of a room.
    fn add_channel_op(&self, channel: &Channel, character: &Character) -> bool;

    /// Removes an operator of a room.
    fn remove_channel_op(&self, channel: &Channel, character: &Character) -> bool;

    /// Changes what is known of a room.
    fn update_channel(&self, channel: &Channel, data: &PartialChannelData) -> bool;

    /// Changes what is known of a character.
    fn update_character(&self, character: &Character, data: &PartialUserData) -> bool;

    /// Replaces the friendships.
    fn set_friends(&self, friends: &Vec<FriendRelation>) -> bool;

    /// Replaces the bookmarks.
    fn set_bookmarks(&self, bookmarks: &Vec<Character>) -> bool;

    /// Replaces the members of a room.
    fn set_channel_members(&self, channel: &Channel, members: &Vec<Character>) -> bool;

    /// Replaces the list of official rooms, each with its number of members.
    fn set_global_channels(&self, channels: &Vec<(Channel, u32)>) -> bool;

    /// Replaces the list of private rooms, each with its number of members.
    fn set_unofficial_channels(&self, channels: &Vec<(Channel, u32)>) -> bool;

    /// Replaces the global operators.
    fn set_global_ops(&self, ops: &Vec<Character>) -> bool;

    /// Replaces the operators of a room.
    fn set_channel_ops(&self, channel: &Channel, ops: &Vec<Character>) -> bool;

    /// What is known of a room.
    fn get_channel(&self, channel: &Channel) -> Option<ChannelData>;

    /// What is known of every room.
    fn get_channels(&self) -> Vec<ChannelData>;

    /// What is known of a character.
    fn get_character(&self, character: &Character) -> Option<CharacterData>;

    /// What is known of every character.
    fn get_characters(&self) -> Vec<CharacterData>;

    /// The entries of a conversation, from a time on and up to a number.
    fn get_messages(
        &self,
        source: &MessageChannel,
        since: Option<Timestamp>,
        limit: Option<u32>,
    ) -> Vec<Message>;

    /// The friendships.
    fn get_friend_relations(&self) -> Vec<FriendRelation>;

    /// The friends: the other side of every friendship.
    fn get_friends(&self) -> Vec<Character>;

    /// The bookmarks.
    fn get_bookmarks(&self) -> Vec<Character>;
}

/// The error of a cache that cannot fail. Nothing makes a value of it.
#[derive(Clone, Copy, Debug, PartialEq, Eq)]
pub struct NoCacheError {
    never: (),
}

/// A cache that keeps nothing: it reports every change as a change, so the
/// listener hears of every update, and it answers every question with
/// nothing.
#[derive(Clone, Copy, Debug, Default)]
pub struct NoCache;

impl Cache for NoCache {
    fn insert_message(&self, _source: MessageChannel, _message: &Message) -> (changed: bool)
        ensures
            changed,
    {
        true
    }

    fn insert_channel(
        &self,
        _channel: &Channel,
        _data: &PartialChannelData,
        _members: &Vec<Character>,
    ) -> (changed: bool)
        ensures
            changed,
    {
        true
    }

    fn insert_ad(&self, _channel: &Channel, _character: &Character, _ad: &str) -> (changed: bool)
        ensures
            changed,
    {
        true
    }

    fn add_channel_member(&self, _channel: &Channel, _member: Character) -> (changed: bool)
        ensures
            changed,
    {
        true
    }

    fn remove_channel_member(&self, _channel: &Channel, _member: Character) -> (changed: bool)
        ensures
            changed,
    {
        true
    }

    fn add_bookmark(&self, _character: &Character) -> (changed: bool)
        ensures
            changed,
    {
        true
    }

    fn remove_bookmark(&self, _character: &Character) -> (changed: bool)
        ensures
            changed,
    {
        true
    }

    fn add_global_op(&self, _character: &Character) -> (changed: bool)
        ensures
            changed,
    {
        true
    }

    fn remove_global_op(&self, _character: &Character) -> (changed: bool)
        ensures
            changed,
    {
        true
    }

    fn add_channel_op(&self, _channel: &Channel, _character: &Character) -> (changed: bool)
        ensures
            changed,
    {
        true
    }

    fn remove_channel_op(&self, _channel: &Channel, _character: &Character) -> (changed: bool)
        ensures
            changed,
    {
        true
    }

    fn update_channel(&self, _channel: &Channel, _data: &PartialChannelData) -> (changed: bool)
        ensures
            changed,
    {
        true
    }

    fn update_character(&self, _character: &Character, _data: &PartialUserData) -> (changed: bool)
        ensures
            changed,
    {
        true
    }

    fn set_friends(&self, _friends: &Vec<FriendRelation>) -> (changed: bool)
        ensures
            changed,
    {
        true
    }

    fn set_bookmarks(&self, _bookmarks: &Vec<Character>) -> (changed: bool)
        ensures
            changed,
    {
        true
    }

    fn set_channel_members(&self, _channel: &Channel, _members: &Vec<Character>) -> (changed: bool)
        ensures
            changed,
    {
        true
    }

    fn set_global_channels(&self, _channels: &Vec<(Channel, u32)>) -> (changed: bool)
        ensures
            changed,
    {
        true
    }

    fn set_unofficial_channels(&self, _channels: &Vec<(Channel, u32)>) -> (changed: bool)
        ensures
            changed,
    {
        true
    }

    fn set_global_ops(&self, _ops: &Vec<Character>) -> (changed: bool)
        ensures
            changed,
    {
        true
    }

    fn set_channel_ops(&self, _channel: &Channel, _ops: &Vec<Character>) -> (changed: bool)
        ensures
            changed,
    {
        true
    }

    fn get_channel(&self, _channel: &Channel) -> (r: Option<ChannelData>)
        ensures
            r.is_none(),
    {
        None
    }

    fn get_channels(&self) -> (r: Vec<ChannelData>)
        ensures
            r@.len() == 0,
    {
        Vec::new()
    }

    fn get_character(&self, _character: &Character) -> (r: Option<CharacterData>)
        ensures
            r.is_none(),
    {
        None
    }

    fn get_characters(&self) -> (r: Vec<CharacterData>)
        ensures
            r@.len() == 0,
    {
        Vec::new()
    }

    fn get_messages(
        &self,
        _source: &MessageChannel,
        _since: Option<Timestamp>,
        _limit: Option<u32>,
    ) -> (r: Vec<Message>)
        ensures
            r@.len() == 0,
    {
        Vec::new()
    }

    fn get_friend_relations(&self) -> (r: Vec<FriendRelation>)
        ensures
            r@.len() == 0,
    {
        Vec::new()
    }

    fn get_friends(&self) -> (r: Vec<Character>)
        ensures
            r@.len() == 0,
    {
        friends(&self.get_friend_relations())
    }

    fn get_bookmarks(&self) -> (r: Vec<Character>)
        ensures
            r@.len() == 0,
    {
        Vec::new()
    }
}

} // verus!
