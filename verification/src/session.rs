//! One connection to the chat server, bound to one character.
//!
//! A session performs no I/O. It is told what arrived and answers with what
//! is to be done: an event for the client, a command for the server, or
//! nothing.

use vstd::prelude::*;
use vstd::string::StringExecFns;
use dashmap::DashMap;
use crate::data::{Channel, Character, TypingStatus};
use crate::protocol::{prepare_command, CharacterIdentity, frame_of, ClientCommand, CodecError, Decimal, IdentifyMethod, ProtocolError, ServerCommand, Target, Variable};

verus! {

/// The concurrent map of `dashmap`.
#[verifier::external_type_specification]
#[verifier::external_body]
#[verifier::reject_recursive_types(K)]
#[verifier::reject_recursive_types(V)]
#[verifier::reject_recursive_types(S)]
pub struct ExDashMap<K, V, S>(DashMap<K, V, S>);

/// What a map from lower-case character names to typing states holds.
pub uninterp spec fn typing_entries(m: DashMap<String, TypingStatus>) -> Map<
    Seq<char>,
    TypingStatus,
>;

/// A map without entries.
pub open spec fn no_entries() -> Map<Seq<char>, TypingStatus> {
    Map::empty()
}

/// `DashMap::new`: a map without entries.
#[verifier::external_body]
fn typing_map_new() -> (m: DashMap<String, TypingStatus>)
    ensures
        typing_entries(m) == no_entries(),
{
    DashMap::new()
}

/// `DashMap::insert`: sets the value under a key and hands back the value
/// that was there before, if there was one.
#[verifier::external_body]
fn typing_map_insert(m: &mut DashMap<String, TypingStatus>, key: String, status: TypingStatus) -> (previous: Option<TypingStatus>)
    ensures
        typing_entries(*final(m)) == typing_entries(*old(m)).insert(key@, status),
        previous == (if typing_entries(*old(m)).contains_key(key@) {
            Some(typing_entries(*old(m))[key@])
        } else {
            None
        }),
{
    m.insert(key, status)
}

/// Whether a room of the given identity is among the rooms.
pub open spec fn has_key(rooms: Seq<Channel>, key: Seq<char>) -> bool {
    exists|i: int| 0 <= i < rooms.len() && (#[trigger] rooms[i]).key() == key
}

/// Whether no two of the rooms have the same identity.
pub open spec fn distinct(rooms: Seq<Channel>) -> bool {
    forall|i: int, j: int|
        0 <= i < j < rooms.len() ==> (#[trigger] rooms[i]).key() != (#[trigger] rooms[j]).key()
}

/// The rooms with one more at the end, unless it is among them already.
pub open spec fn with_channel(rooms: Seq<Channel>, room: Channel) -> Seq<Channel> {
    if has_key(rooms, room.key()) {
        rooms
    } else {
        rooms.push(room)
    }
}

/// The rooms without those of the given identity, the others in their order.
pub open spec fn without_key(rooms: Seq<Channel>, key: Seq<char>) -> Seq<Channel>
    decreases rooms.len(),
{
    if rooms.len() == 0 {
        rooms
    } else if rooms.last().key() == key {
        without_key(rooms.drop_last(), key)
    } else {
        without_key(rooms.drop_last(), key).push(rooms.last())
    }
}

/// What is left after a removal are the rooms of other identities, in their
/// order: no room of the removed identity is left, every other room is.
pub proof fn lemma_without_key(rooms: Seq<Channel>, key: Seq<char>)
    ensures
        !has_key(without_key(rooms, key), key),
        without_key(rooms, key).len() <= rooms.len(),
        forall|other: Seq<char>|
            other != key ==> has_key(without_key(rooms, key), other) == has_key(rooms, other),
        distinct(rooms) ==> distinct(without_key(rooms, key)),
        !has_key(rooms, key) ==> without_key(rooms, key) == rooms,
    decreases rooms.len(),
{
    if rooms.len() > 0 {
        let front = rooms.drop_last();
        let last = rooms.last();
        let n = front.len() as int;
        lemma_without_key(front, key);
        let kept = without_key(front, key);
        let out = without_key(rooms, key);
        assert(forall|j: int| 0 <= j < n ==> front[j] == rooms[j]);
        assert(rooms[n] == last);
        // Rooms of the front, by identity, are rooms of the whole.
        assert forall|other: Seq<char>| has_key(rooms, other) == (has_key(front, other)
            || last.key() == other) by {
            if has_key(rooms, other) {
                let j = choose|j: int| 0 <= j < rooms.len() && (#[trigger] rooms[j]).key() == other;
                if j < n {
                    assert(front[j].key() == other);
                }
            }
            if has_key(front, other) {
                let j = choose|j: int| 0 <= j < n && (#[trigger] front[j]).key() == other;
                assert(rooms[j].key() == other);
            }
            if last.key() == other {
                assert(rooms[n].key() == other);
            }
        }
        if last.key() == key {
            assert(out == kept);
        } else {
            assert(out == kept.push(last));
            let m = kept.len() as int;
            assert(forall|i: int| 0 <= i < m ==> out[i] == kept[i]);
            assert(out[m] == last);
            assert forall|other: Seq<char>| has_key(out, other) == (has_key(kept, other)
                || last.key() == other) by {
                if has_key(out, other) {
                    let i = choose|i: int| 0 <= i < out.len() && (#[trigger] out[i]).key() == other;
                    if i < m {
                        assert(kept[i].key() == other);
                    }
                }
                if has_key(kept, other) {
                    let i = choose|i: int| 0 <= i < m && (#[trigger] kept[i]).key() == other;
                    assert(out[i].key() == other);
                }
                if last.key() == other {
                    assert(out[m].key() == other);
                }
            }
        }
        if distinct(rooms) {
            assert forall|i: int, j: int| 0 <= i < j < n implies (#[trigger] front[i]).key() != (
            #[trigger] front[j]).key() by {
                assert(rooms[i].key() != rooms[j].key());
            }
            if last.key() != key {
                let m = kept.len() as int;
                assert(!has_key(front, last.key())) by {
                    if has_key(front, last.key()) {
                        let j = choose|j: int|
                            0 <= j < n && (#[trigger] front[j]).key() == last.key();
                        assert(rooms[j].key() != rooms[n].key());
                    }
                }
                assert(!has_key(kept, last.key()));
                assert forall|i: int, j: int| 0 <= i < j < out.len() implies (#[trigger] out[i]).key()
                    != (#[trigger] out[j]).key() by {
                    if j < m {
                        assert(kept[i].key() != kept[j].key());
                    } else {
                        assert(kept[i].key() != last.key());
                    }
                }
            }
        }
        if !has_key(rooms, key) {
            assert(out =~= rooms);
        }
    }
}

/// The rooms that a session has joined: a set by identity that keeps the
/// order in which the rooms were joined.
#[derive(Debug)]
pub struct ChannelSet {
    items: Vec<Channel>,
}

impl View for ChannelSet {
    type V = Seq<Channel>;

    closed spec fn view(&self) -> Seq<Channel> {
        self.items@
    }
}

impl ChannelSet {
    /// No room occurs twice.
    #[verifier::type_invariant]
    pub closed spec fn wf(self) -> bool {
        distinct(self.items@)
    }

    /// No rooms.
    pub fn new() -> (set: Self)
        ensures
            set@ == Seq::<Channel>::empty(),
    {
        ChannelSet { items: Vec::new() }
    }

    /// The number of rooms.
    pub fn len(&self) -> (n: usize)
        ensures
            n == self@.len(),
    {
        self.items.len()
    }

    /// Whether the room is among the rooms.
    pub fn contains(&self, room: &Channel) -> (r: bool)
        ensures
            r == has_key(self@, room.key()),
    {
        let mut i: usize = 0;
        while i < self.items.len()
            invariant
                i <= self.items@.len(),
                forall|k: int| 0 <= k < i ==> (#[trigger] self.items@[k]).key() != room.key(),
            decreases self.items@.len() - i,
        {
            if self.items[i] == *room {
                return true;
            }
            i += 1;
        }
        false
    }

    /// Adds a room at the end, unless it is among the rooms already. Says
    /// whether it was added.
    pub fn insert(&mut self, room: Channel) -> (added: bool)
        ensures
            final(self)@ == with_channel(old(self)@, room),
            added == !has_key(old(self)@, room.key()),
    {
        proof {
            use_type_invariant(&*self);
        }
        if self.contains(&room) {
            false
        } else {
            let mut items: Vec<Channel> = Vec::new();
            core::mem::swap(&mut self.items, &mut items);
            items.push(room);
            proof {
                let before = old(self).items@;
                assert forall|i: int, j: int| 0 <= i < j < items@.len() implies (
                #[trigger] items@[i]).key() != (#[trigger] items@[j]).key() by {
                    if j < before.len() {
                        assert(before[i].key() != before[j].key());
                    } else {
                        assert(before[i].key() != room.key());
                    }
                }
            }
            self.items = items;
            true
        }
    }

    /// Removes a room. Says whether it was among the rooms.
    pub fn remove(&mut self, room: &Channel) -> (removed: bool)
        ensures
            final(self)@ == without_key(old(self)@, room.key()),
            removed == has_key(old(self)@, room.key()),
    {
        proof {
            use_type_invariant(&*self);
            lemma_without_key(self.items@, room.key());
        }
        let present = self.contains(room);
        let mut kept: Vec<Channel> = Vec::new();
        let mut i: usize = 0;
        while i < self.items.len()
            invariant
                i <= self.items@.len(),
                kept@ == without_key(self.items@.subrange(0, i as int), room.key()),
            decreases self.items@.len() - i,
        {
            proof {
                assert(self.items@.subrange(0, i + 1).drop_last() =~= self.items@.subrange(
                    0,
                    i as int,
                ));
            }
            if !(self.items[i] == *room) {
                kept.push(self.items[i]);
            }
            i += 1;
        }
        assert(self.items@.subrange(0, i as int) =~= self.items@);
        self.items = kept;
        present
    }

    /// The rooms in the order in which they were joined.
    pub fn to_vec(&self) -> (rooms: Vec<Channel>)
        ensures
            rooms@ == self@,
    {
        let mut rooms: Vec<Channel> = Vec::new();
        let mut i: usize = 0;
        while i < self.items.len()
            invariant
                i <= self.items@.len(),
                rooms@ == self.items@.subrange(0, i as int),
            decreases self.items@.len() - i,
        {
            rooms.push(self.items[i]);
            assert(self.items@.subrange(0, i + 1) =~= self.items@.subrange(0, i as int).push(
                self.items@[i as int],
            ));
            i += 1;
        }
        assert(self.items@.subrange(0, i as int) =~= self.items@);
        rooms
    }
}

/// The limits and settings that the server declared for a connection.
#[derive(Clone, Debug, PartialEq, Eq)]
pub struct Variables {
    /// The most bytes of a message in a room.
    pub chat_max: u32,
    /// The most bytes of a private message.
    pub priv_max: u32,
    /// The most bytes of an ad.
    pub ad_max: u32,
    /// The seconds to wait between two messages.
    pub chat_cooldown: Decimal,
    /// The seconds to wait between two ads.
    pub ad_cooldown: Decimal,
    /// The seconds to wait between two changes of status.
    pub status_cooldown: Decimal,
    /// The rooms that show no icons.
    pub icon_blacklist: Vec<Channel>,
}

impl Default for Variables {
    /// Nothing declared: every limit and every cooldown is zero.
    fn default() -> (v: Self)
        ensures
            v.nothing_declared(),
    {
        Variables {
            chat_max: 0,
            priv_max: 0,
            ad_max: 0,
            chat_cooldown: Decimal("0".to_owned()),
            ad_cooldown: Decimal("0".to_owned()),
            status_cooldown: Decimal("0".to_owned()),
            icon_blacklist: Vec::new(),
        }
    }
}

impl Variables {
    /// Whether the record is that of a connection to which nothing was
    /// declared: every limit and every cooldown is zero, and no room is
    /// without icons.
    pub open spec fn nothing_declared(self) -> bool {
        &&& self.chat_max == 0
        &&& self.priv_max == 0
        &&& self.ad_max == 0
        &&& self.chat_cooldown@ == "0"@
        &&& self.ad_cooldown@ == "0"@
        &&& self.status_cooldown@ == "0"@
        &&& self.icon_blacklist@.len() == 0
    }

    /// The record after one declaration: the declared variable has its new
    /// value, every other keeps its own. A variable that the record does not
    /// hold changes nothing.
    pub open spec fn with(self, variable: Variable) -> Variables {
        match variable {
            Variable::ChatMax(v) => Variables { chat_max: v, ..self },
            Variable::PrivMax(v) => Variables { priv_max: v, ..self },
            Variable::AdMax(v) => Variables { ad_max: v, ..self },
            Variable::AdCooldown(v) => Variables { ad_cooldown: v, ..self },
            Variable::ChatCooldown(v) => Variables { chat_cooldown: v, ..self },
            Variable::StatusCooldown(v) => Variables { status_cooldown: v, ..self },
            Variable::IconBlacklist(v) => Variables { icon_blacklist: v, ..self },
            Variable::CDSMax(_) | Variable::Permissions(_) | Variable::Unknown(_) => self,
        }
    }

    /// Whether the record has a place for a variable. It has none for the
    /// limit of descriptions, for the rights of the account, and for a
    /// variable of a name that is not known.
    pub open spec fn holds(variable: Variable) -> bool {
        !(variable is CDSMax || variable is Permissions || variable is Unknown)
    }

    /// Whether the record has a place for a variable. A declaration of one
    /// for which it has none changes nothing.
    pub fn keeps(variable: &Variable) -> (r: bool)
        ensures
            r == Self::holds(*variable),
            !r ==> forall|record: Variables| #[trigger] record.with(*variable) == record,
    {
        match variable {
            Variable::CDSMax(_) | Variable::Permissions(_) | Variable::Unknown(_) => false,
            _ => true,
        }
    }

    /// The record after a sequence of declarations, taken in order.
    pub open spec fn with_all(self, variables: Seq<Variable>) -> Variables
        decreases variables.len(),
    {
        if variables.len() == 0 {
            self
        } else {
            self.with_all(variables.drop_last()).with(variables.last())
        }
    }

    /// Takes one declaration into the record.
    pub fn apply(&mut self, variable: Variable)
        ensures
            *final(self) == old(self).with(variable),
    {
        match variable {
            Variable::ChatMax(v) => {
                self.chat_max = v;
            },
            Variable::PrivMax(v) => {
                self.priv_max = v;
            },
            Variable::AdMax(v) => {
                self.ad_max = v;
            },
            Variable::AdCooldown(v) => {
                self.ad_cooldown = v;
            },
            Variable::ChatCooldown(v) => {
                self.chat_cooldown = v;
            },
            Variable::StatusCooldown(v) => {
                self.status_cooldown = v;
            },
            Variable::IconBlacklist(v) => {
                self.icon_blacklist = v;
            },
            Variable::CDSMax(_) | Variable::Permissions(_) | Variable::Unknown(_) => {},
        }
    }

    /// Declarations that arrive in two batches leave the record that they
    /// leave when they arrive in one: none is lost and their order counts.
    pub proof fn lemma_with_all_concat(self, first: Seq<Variable>, second: Seq<Variable>)
        ensures
            self.with_all(first + second) == self.with_all(first).with_all(second),
        decreases second.len(),
    {
        if second.len() == 0 {
            assert(first + second =~= first);
        } else {
            self.lemma_with_all_concat(first, second.drop_last());
            assert((first + second).drop_last() =~= first + second.drop_last());
            assert((first + second).last() == second.last());
        }
    }
}

/// Why a session failed.
#[derive(Clone, Debug, PartialEq, Eq)]
pub enum SessionError {
    /// The transport failed; the text says how.
    WebsocketError(String),
    /// The connection ended before the handshake was over.
    MiscConnectionFailure,
    /// The answer to the identification was not its acceptance; the frame.
    UnexpectedProtocolMessage(String),
    /// A `VAR` frame arrived after the handshake.
    LateVarCommand,
    /// An `IDN` frame arrived after the handshake.
    LateIdentifyCommand,
}

impl SessionError {
    /// A description of the error.
    pub fn message(&self) -> (text: String)
        ensures
            text@ == (match *self {
                SessionError::WebsocketError(_) => "Error from Websocket (Tungstenite)"@,
                SessionError::MiscConnectionFailure =>
                    "Unknown failure in connection stage -- Typically protocol-related"@,
                SessionError::UnexpectedProtocolMessage(frame) =>
                    "Unknown or unexpected protocol message: "@ + frame@,
                SessionError::LateVarCommand => "VAR command has arrived out of sync"@,
                SessionError::LateIdentifyCommand => "IDN command has arrived out of sync"@,
            }),
    {
        match self {
            SessionError::WebsocketError(_) => "Error from Websocket (Tungstenite)".to_owned(),
            SessionError::MiscConnectionFailure =>
                "Unknown failure in connection stage -- Typically protocol-related".to_owned(),
            SessionError::UnexpectedProtocolMessage(frame) =>
                "Unknown or unexpected protocol message: ".to_owned().concat(frame.as_str()),
            SessionError::LateVarCommand => "VAR command has arrived out of sync".to_owned(),
            SessionError::LateIdentifyCommand => "IDN command has arrived out of sync".to_owned(),
        }
    }
}

/// What a session reports to the client.
#[derive(Clone, Debug, PartialEq)]
pub enum SessionEvent {
    /// The connection was lost and may be made again.
    Reconnect,
    /// The server closed the connection for good, after the given error.
    Disconnected(ProtocolError),
    /// A command arrived.
    Command(ServerCommand),
    /// The session failed.
    Error(SessionError),
}

/// An event together with the character of the session that reports it.
#[derive(Clone, Debug, PartialEq)]
pub struct Event {
    pub session: Character,
    pub event: SessionEvent,
}

/// What a session does with a command that arrived.
#[derive(Clone, Debug, PartialEq, Eq)]
pub enum Handling {
    /// The command goes on to the client.
    Forward,
    /// The command ends here.
    Suppress,
    /// The command ends here, and the given command goes to the server.
    Reply(ClientCommand),
}

/// What is to be done after a frame arrived.
#[derive(Clone, Debug, PartialEq)]
pub enum FrameOutcome {
    /// Hand the event to the client.
    Emit(SessionEvent),
    /// Send the command to the server; the client hears nothing.
    Reply(ClientCommand),
    /// Nothing.
    Nothing,
    /// The frame could not be read and is skipped.
    Skipped(CodecError),
}

/// Where a message goes.
#[derive(Clone, Copy, Debug, PartialEq, Eq)]
pub enum MessageTarget {
    /// To everyone on the service.
    Broadcast,
    /// To a room.
    Channel(Channel),
    /// To one character.
    PrivateMessage(Character),
}

/// The number that a session holds as its last error before the server has
/// reported any: that of `ProtocolError::Other`.
pub const NO_ERROR_YET: i32 = 9999;

/// One connection, bound to one character, after its handshake.
#[derive(Debug)]
pub struct Session {
    /// The character that the connection is identified as.
    pub character: Character,
    /// The rooms that the character is in, in the order in which it joined.
    pub channels: ChannelSet,
    /// What each partner in a private conversation was last reported to be
    /// doing, under the partner's name in lower case.
    pub private_messages: DashMap<String, TypingStatus>,
    /// What the server declared during the handshake.
    pub variables: Variables,
    /// The number of the last error that the server reported.
    pub last_err: i32,
}

impl Session {
    /// What each partner was last reported to be doing.
    pub open spec fn typing(self) -> Map<Seq<char>, TypingStatus> {
        typing_entries(self.private_messages)
    }

    /// Whether a name is that of the session's own character.
    pub open spec fn is_own(self, character: Character) -> bool {
        character.key() == self.character.key()
    }

    /// The rooms of the session after a command: one more after the own
    /// character joined, one less after it left, the same after anything else.
    pub open spec fn channels_after(self, command: ServerCommand) -> Seq<Channel> {
        match command {
            ServerCommand::JoinedChannel { channel, character, .. } => if self.is_own(
                character.identity,
            ) {
                with_channel(self.channels@, channel)
            } else {
                self.channels@
            },
            ServerCommand::LeftChannel { channel, character } => if self.is_own(character) {
                without_key(self.channels@, channel.key())
            } else {
                self.channels@
            },
            _ => self.channels@,
        }
    }

    /// The typing states after a command: a report of typing sets the state
    /// of its character.
    pub open spec fn typing_after(self, command: ServerCommand) -> Map<Seq<char>, TypingStatus> {
        match command {
            ServerCommand::Typing { character, status } => self.typing().insert(
                character.key(),
                status,
            ),
            _ => self.typing(),
        }
    }

    /// The last error after a command: the number of an error that arrived.
    pub open spec fn last_err_after(self, command: ServerCommand) -> i32 {
        match command {
            ServerCommand::Error { number, .. } => number,
            _ => self.last_err,
        }
    }

    /// What the session does with a command.
    ///
    /// The heartbeat is answered and ends here. The greeting ends here. A
    /// report of typing that repeats the state on record ends here. An
    /// acceptance of identification or a declaration of a variable is an
    /// error after the handshake. Everything else goes on to the client.
    pub open spec fn handling(self, command: ServerCommand) -> Result<Handling, SessionError> {
        match command {
            ServerCommand::Ping => Ok(Handling::Reply(ClientCommand::Pong)),
            ServerCommand::Hello { .. } => Ok(Handling::Suppress),
            ServerCommand::Typing { character, status } => if self.typing().contains_key(
                character.key(),
            ) && self.typing()[character.key()] == status {
                Ok(Handling::Suppress)
            } else {
                Ok(Handling::Forward)
            },
            ServerCommand::IdentifySuccess { .. } => Err(SessionError::LateIdentifyCommand),
            ServerCommand::Variable(_) => Err(SessionError::LateVarCommand),
            _ => Ok(Handling::Forward),
        }
    }

    /// What is to be done after a frame was read: an unreadable frame is
    /// skipped; a command that goes on becomes an event, and so does an error;
    /// a reply is sent; a command that ends here leaves nothing to do.
    pub open spec fn outcome(self, parsed: Result<ServerCommand, CodecError>) -> FrameOutcome {
        match parsed {
            Err(error) => FrameOutcome::Skipped(error),
            Ok(command) => match self.handling(command) {
                Ok(Handling::Forward) => FrameOutcome::Emit(SessionEvent::Command(command)),
                Ok(Handling::Suppress) => FrameOutcome::Nothing,
                Ok(Handling::Reply(reply)) => FrameOutcome::Reply(reply),
                Err(error) => FrameOutcome::Emit(SessionEvent::Error(error)),
            },
        }
    }

    /// Whether `after` is this session after it took in what a frame was read
    /// as: the character and the variables are the same; rooms, typing states
    /// and last error are as the command leaves them, and untouched by a
    /// frame that could not be read.
    pub open spec fn steps_to(self, parsed: Result<ServerCommand, CodecError>, after: Session) -> bool {
        &&& after.character == self.character
        &&& after.variables == self.variables
        &&& match parsed {
            Ok(command) => {
                &&& after.channels@ == self.channels_after(command)
                &&& after.typing() == self.typing_after(command)
                &&& after.last_err == self.last_err_after(command)
            },
            Err(_) => {
                &&& after.channels@ == self.channels@
                &&& after.typing() == self.typing()
                &&& after.last_err == self.last_err
            },
        }
    }

    /// What a session reports when the transport ends without a closing
    /// handshake: the end for good after a fatal error, else the wish to
    /// connect again.
    pub open spec fn closing_event(self) -> SessionEvent {
        let error = ProtocolError::of_code(self.last_err as int);
        if error.fatal() {
            SessionEvent::Disconnected(error)
        } else {
            SessionEvent::Reconnect
        }
    }

    /// A session right after its handshake: in no room, with no partner on
    /// record and no error yet.
    pub fn new(character: Character, variables: Variables) -> (session: Session)
        ensures
            session.character == character,
            session.channels@ == Seq::<Channel>::empty(),
            session.typing() == no_entries(),
            session.variables == variables,
            session.last_err == NO_ERROR_YET,
    {
        Session {
            character,
            channels: ChannelSet::new(),
            private_messages: typing_map_new(),
            variables,
            last_err: NO_ERROR_YET,
        }
    }

    /// Takes a command into the state of the session and says what is to be
    /// done with it. The state changes before the command goes on, so whoever
    /// gets the command sees the new state.
    pub fn handle_command(&mut self, command: &ServerCommand) -> (r: Result<Handling, SessionError>)
        ensures
            r == old(self).handling(*command),
            final(self).character == old(self).character,
            final(self).variables == old(self).variables,
            final(self).channels@ == old(self).channels_after(*command),
            final(self).typing() == old(self).typing_after(*command),
            final(self).last_err == old(self).last_err_after(*command),
    {
        match command {
            ServerCommand::Ping => Ok(Handling::Reply(ClientCommand::Pong)),
            ServerCommand::Hello { .. } => Ok(Handling::Suppress),
            ServerCommand::Error { number, .. } => {
                self.last_err = *number;
                Ok(Handling::Forward)
            },
            ServerCommand::JoinedChannel { channel, character, .. } => {
                if character.identity == self.character {
                    self.channels.insert(*channel);
                }
                Ok(Handling::Forward)
            },
            ServerCommand::LeftChannel { channel, character } => {
                if *character == self.character {
                    self.channels.remove(channel);
                }
                Ok(Handling::Forward)
            },
            ServerCommand::Typing { character, status } => {
                let previous = typing_map_insert(
                    &mut self.private_messages,
                    character.key_string(),
                    *status,
                );
                match previous {
                    Some(before) => if before == *status {
                        Ok(Handling::Suppress)
                    } else {
                        Ok(Handling::Forward)
                    },
                    None => Ok(Handling::Forward),
                }
            },
            ServerCommand::IdentifySuccess { .. } => Err(SessionError::LateIdentifyCommand),
            ServerCommand::Variable(_) => Err(SessionError::LateVarCommand),
            _ => Ok(Handling::Forward),
        }
    }

    /// Takes what a frame was read as and says what is to be done.
    pub fn on_command(&mut self, parsed: Result<ServerCommand, CodecError>) -> (r: FrameOutcome)
        ensures
            r == old(self).outcome(parsed),
            old(self).steps_to(parsed, *final(self)),
    {
        match parsed {
            Err(error) => FrameOutcome::Skipped(error),
            Ok(command) => match self.handle_command(&command) {
                Ok(Handling::Forward) => FrameOutcome::Emit(SessionEvent::Command(command)),
                Ok(Handling::Suppress) => FrameOutcome::Nothing,
                Ok(Handling::Reply(reply)) => FrameOutcome::Reply(reply),
                Err(error) => FrameOutcome::Emit(SessionEvent::Error(error)),
            },
        }
    }

    /// Whether `states` are the states that a session goes through while it
    /// takes `frames` one after the other, and `outcomes` what comes of each
    /// frame in its turn: the outcome in place `i` is that of the frame in
    /// place `i`, taken in the state that the frames before it left.
    pub open spec fn runs(
        states: Seq<Session>,
        frames: Seq<Result<ServerCommand, CodecError>>,
        outcomes: Seq<FrameOutcome>,
    ) -> bool {
        &&& states.len() == frames.len() + 1
        &&& outcomes.len() == frames.len()
        &&& forall|i: int|
            0 <= i < frames.len() ==> (#[trigger] outcomes[i]) == states[i].outcome(frames[i])
                && states[i].steps_to(frames[i], states[i + 1])
    }

    /// Takes what a sequence of frames was read as, in the order in which
    /// the frames arrived. What comes of the frames comes in the same order,
    /// one outcome for each frame.
    pub fn on_commands(&mut self, frames: Vec<Result<ServerCommand, CodecError>>) -> (outcomes: Vec<
        FrameOutcome,
    >)
        ensures
            exists|states: Seq<Session>|
                #[trigger] Session::runs(states, frames@, outcomes@) && states[0] == *old(self)
                    && states.last() == *final(self),
    {
        let mut outcomes: Vec<FrameOutcome> = Vec::new();
        let ghost all = frames@;
        let ghost mut states: Seq<Session> = seq![*self];
        for frame in it: frames
            invariant
                all == it.seq(),
                states.len() == it.index() + 1,
                states[0] == *old(self),
                states.last() == *self,
                outcomes@.len() == it.index(),
                forall|i: int|
                    0 <= i < it.index() ==> (#[trigger] outcomes@[i]) == states[i].outcome(all[i])
                        && states[i].steps_to(all[i], states[i + 1]),
        {
            let ghost before = states;
            let outcome = self.on_command(frame);
            outcomes.push(outcome);
            proof {
                states = states.push(*self);
                assert(forall|i: int| 0 <= i < before.len() ==> states[i] == before[i]);
            }
        }
        proof {
            assert(Session::runs(states, all, outcomes@));
        }
        outcomes
    }

    /// Says what to report when the transport ended without a closing
    /// handshake, which is how the server ends every connection.
    pub fn on_close(&self) -> (event: SessionEvent)
        ensures
            event == self.closing_event(),
    {
        let error = ProtocolError::from_number(self.last_err);
        if error.is_fatal() {
            SessionEvent::Disconnected(error)
        } else {
            SessionEvent::Reconnect
        }
    }

    /// Starts a connection as a character: the handshake to run, and the
    /// identification to send first.
    pub fn connect(
        account: String,
        ticket: String,
        client_name: String,
        client_version: String,
        character: Character,
    ) -> (r: (Handshake, ClientCommand))
        ensures
            r.0.character == character,
            r.0.state == HandshakeState::Identifying,
            r.0.variables.nothing_declared(),
            r.0.rejoin@ == Seq::<Channel>::empty(),
            r.1 == (ClientCommand::Identify {
                method: IdentifyMethod::Ticket,
                account,
                ticket,
                character,
                client_name,
                client_version,
            }),
    {
        let handshake = Handshake {
            character,
            state: HandshakeState::Identifying,
            variables: Variables::default(),
            rejoin: Vec::new(),
        };
        let identify = ClientCommand::Identify {
            method: IdentifyMethod::Ticket,
            account,
            ticket,
            character,
            client_name,
            client_version,
        };
        (handshake, identify)
    }

    /// Starts the connection anew for the same character. The session that
    /// comes out of the handshake joins the rooms of this one again, in the
    /// order in which this one joined them.
    pub fn reconnect(
        &self,
        account: String,
        ticket: String,
        client_name: String,
        client_version: String,
    ) -> (r: (Handshake, ClientCommand))
        ensures
            r.0.character == self.character,
            r.0.state == HandshakeState::Identifying,
            r.0.variables.nothing_declared(),
            r.0.rejoin@ == self.channels@,
            r.1 == (ClientCommand::Identify {
                method: IdentifyMethod::Ticket,
                account,
                ticket,
                character: self.character,
                client_name,
                client_version,
            }),
    {
        let handshake = Handshake {
            character: self.character,
            state: HandshakeState::Identifying,
            variables: Variables::default(),
            rejoin: self.channels.to_vec(),
        };
        let identify = ClientCommand::Identify {
            method: IdentifyMethod::Ticket,
            account,
            ticket,
            character: self.character,
            client_name,
            client_version,
        };
        (handshake, identify)
    }

    /// The frame that carries a command to the server.
    pub fn send(&self, command: &ClientCommand) -> (frame: String)
        ensures
            frame@ == frame_of(*command),
    {
        prepare_command(command)
    }

    /// The commands that send a message: a broadcast, a message to a room, or
    /// a private message followed by the notice that one has stopped typing.
    pub fn send_message(&self, target: MessageTarget, message: String) -> (commands: Vec<
        ClientCommand,
    >)
        ensures
            commands@ == (match target {
                MessageTarget::Broadcast => seq![ClientCommand::Broadcast { message }],
                MessageTarget::Channel(channel) => seq![
                    ClientCommand::Message { channel, message },
                ],
                MessageTarget::PrivateMessage(recipient) => seq![
                    ClientCommand::PrivateMessage { recipient, message },
                    ClientCommand::Typing { character: recipient, status: TypingStatus::Clear },
                ],
            }),
    {
        match target {
            MessageTarget::Broadcast => vec![ClientCommand::Broadcast { message }],
            MessageTarget::Channel(channel) => vec![ClientCommand::Message { channel, message }],
            MessageTarget::PrivateMessage(recipient) => vec![
                ClientCommand::PrivateMessage { recipient, message },
                ClientCommand::Typing { character: recipient, status: TypingStatus::Clear },
            ],
        }
    }

    /// The command that rolls dice in a room or in a private conversation.
    /// Dice cannot be broadcast.
    pub fn send_dice(&self, target: MessageTarget, dice: String) -> (command: ClientCommand)
        requires
            !(target is Broadcast),
        ensures
            target matches MessageTarget::Channel(channel) ==> command == (ClientCommand::Roll {
                target: Target::Channel { channel },
                dice,
            }),
            target matches MessageTarget::PrivateMessage(recipient) ==> command == (
            ClientCommand::Roll { target: Target::Character { recipient }, dice }),
    {
        match target {
            MessageTarget::Channel(channel) => ClientCommand::Roll {
                target: Target::Channel { channel },
                dice,
            },
            MessageTarget::PrivateMessage(recipient) => ClientCommand::Roll {
                target: Target::Character { recipient },
                dice,
            },
            MessageTarget::Broadcast => {
                assert(false);
                ClientCommand::Pong
            },
        }
    }

    /// The command that joins a room.
    pub fn join_channel(&self, channel: Channel) -> (command: ClientCommand)
        ensures
            command == (ClientCommand::JoinChannel { channel }),
    {
        ClientCommand::JoinChannel { channel }
    }
}

/// How far a handshake has come.
#[derive(Clone, Copy, Debug, PartialEq, Eq, Structural)]
pub enum HandshakeState {
    /// The identification was sent; its acceptance is awaited.
    Identifying,
    /// The identification was accepted; the server declares its variables.
    Negotiating,
}

/// A connection before it is a session: the identification and the
/// declaration of variables.
#[derive(Clone, Debug)]
pub struct Handshake {
    /// The character that the connection identifies as.
    pub character: Character,
    /// How far the handshake has come.
    pub state: HandshakeState,
    /// What the server has declared so far.
    pub variables: Variables,
    /// The rooms to join again once the handshake is over.
    pub rejoin: Vec<Channel>,
}

/// What comes of one frame of a handshake.
#[derive(Debug)]
pub enum HandshakeStep {
    /// The handshake goes on.
    Continue(Handshake),
    /// The handshake is over.
    Ready {
        /// The session.
        session: Session,
        /// What the frame that ended the handshake was read as. It was not
        /// taken in: the session gets it as its first frame.
        pending: Result<ServerCommand, CodecError>,
        /// The commands that join the rooms of the connection that this one
        /// replaces, to be sent in this order. None for a first connection.
        rejoin: Vec<ClientCommand>,
    },
}

/// The commands that join a list of rooms, one for each room, in order.
pub open spec fn join_commands(rooms: Seq<Channel>) -> Seq<ClientCommand> {
    rooms.map_values(|channel: Channel| ClientCommand::JoinChannel { channel })
}

impl Handshake {
    /// Whether a frame was read as the acceptance of this handshake's
    /// identification: an `IDN` with the character that identified.
    pub open spec fn accepted_by(self, parsed: Result<ServerCommand, CodecError>) -> bool {
        parsed matches Ok(ServerCommand::IdentifySuccess { character }) && character.key()
            == self.character.key()
    }

    /// The handshake after a frame, where the frame lets it go on: the
    /// negotiation after the acceptance of the identification, the record
    /// with one more declaration after a declaration of a variable. Nothing
    /// where the frame ends the handshake.
    pub open spec fn continued(self, parsed: Result<ServerCommand, CodecError>) -> Option<Handshake> {
        match self.state {
            HandshakeState::Identifying => if self.accepted_by(parsed) {
                Some(Handshake { state: HandshakeState::Negotiating, ..self })
            } else {
                None
            },
            HandshakeState::Negotiating => match parsed {
                Ok(ServerCommand::Variable(variable)) => Some(
                    Handshake { variables: self.variables.with(variable), ..self },
                ),
                _ => None,
            },
        }
    }

    /// The handshake after a sequence of frames, where each lets it go on.
    pub open spec fn continued_through(self, frames: Seq<Result<ServerCommand, CodecError>>) -> Option<
        Handshake,
    >
        decreases frames.len(),
    {
        if frames.len() == 0 {
            Some(self)
        } else {
            match self.continued_through(frames.drop_last()) {
                Some(handshake) => handshake.continued(frames.last()),
                None => None,
            }
        }
    }

    /// Takes one frame: its text, and what it was read as.
    ///
    /// While identifying, the acceptance of the identification leads on to the
    /// negotiation; any other frame fails the handshake with
    /// `UnexpectedProtocolMessage` and the frame's text. While negotiating, a
    /// declaration of a variable is taken into the record; the first frame
    /// that is none ends the handshake and is handed back untouched, with a
    /// session that holds the record.
    pub fn on_command(self, frame: &str, parsed: Result<ServerCommand, CodecError>) -> (r: Result<
        HandshakeStep,
        SessionError,
    >)
        ensures
            match self.continued(parsed) {
                Some(next) => r matches Ok(HandshakeStep::Continue(handshake)) && handshake == next,
                None => match self.state {
                    HandshakeState::Identifying => r matches Err(
                        SessionError::UnexpectedProtocolMessage(text),
                    ) && text@ == frame@,
                    HandshakeState::Negotiating => r matches Ok(
                        HandshakeStep::Ready { session, pending, rejoin },
                    ) && session.character == self.character && session.channels@.len() == 0
                        && session.typing() == no_entries() && session.variables == self.variables
                        && session.last_err == NO_ERROR_YET && pending == parsed && rejoin@
                        == join_commands(self.rejoin@),
                },
            },
    {
        match self.state {
            HandshakeState::Identifying => {
                let accepted = match &parsed {
                    Ok(ServerCommand::IdentifySuccess { character }) => *character
                        == self.character,
                    _ => false,
                };
                if accepted {
                    Ok(
                        HandshakeStep::Continue(
                            Handshake {
                                character: self.character,
                                state: HandshakeState::Negotiating,
                                variables: self.variables,
                                rejoin: self.rejoin,
                            },
                        ),
                    )
                } else {
                    Err(SessionError::UnexpectedProtocolMessage(frame.to_owned()))
                }
            },
            HandshakeState::Negotiating => match parsed {
                Ok(ServerCommand::Variable(variable)) => {
                    let mut next = self;
                    next.variables.apply(variable);
                    Ok(HandshakeStep::Continue(next))
                },
                other => {
                    let mut rejoin: Vec<ClientCommand> = Vec::new();
                    let mut i: usize = 0;
                    while i < self.rejoin.len()
                        invariant
                            i <= self.rejoin@.len(),
                            rejoin@ == join_commands(self.rejoin@.subrange(0, i as int)),
                        decreases self.rejoin@.len() - i,
                    {
                        rejoin.push(ClientCommand::JoinChannel { channel: self.rejoin[i] });
                        assert(self.rejoin@.subrange(0, i + 1) =~= self.rejoin@.subrange(
                            0,
                            i as int,
                        ).push(self.rejoin@[i as int]));
                        assert(rejoin@ =~= join_commands(self.rejoin@.subrange(0, i + 1)));
                        i += 1;
                    }
                    assert(self.rejoin@.subrange(0, i as int) =~= self.rejoin@);
                    Ok(
                        HandshakeStep::Ready {
                            session: Session::new(self.character, self.variables),
                            pending: other,
                            rejoin,
                        },
                    )
                },
            },
        }
    }

    /// The error of a handshake whose connection ended before it was over.
    pub fn on_close(&self) -> (error: SessionError)
        ensures
            error == SessionError::MiscConnectionFailure,
    {
        SessionError::MiscConnectionFailure
    }
}

/// The frames that declare a sequence of variables, in order.
pub open spec fn declarations(variables: Seq<Variable>) -> Seq<Result<ServerCommand, CodecError>> {
    variables.map_values(
        |variable: Variable| Ok::<ServerCommand, CodecError>(ServerCommand::Variable(variable)),
    )
}

/// A negotiation that sees a sequence of declarations goes on through all of
/// them, and then holds every one of them in its record, taken in the order
/// in which they came. The session that the next frame makes of it holds
/// that record.
pub proof fn lemma_negotiation_keeps_every_declaration(handshake: Handshake, variables: Seq<Variable>)
    requires
        handshake.state == HandshakeState::Negotiating,
    ensures
        handshake.continued_through(declarations(variables)) == Some(
            Handshake { variables: handshake.variables.with_all(variables), ..handshake },
        ),
    decreases variables.len(),
{
    if variables.len() > 0 {
        lemma_negotiation_keeps_every_declaration(handshake, variables.drop_last());
        assert(declarations(variables).drop_last() =~= declarations(variables.drop_last()));
        assert(declarations(variables).last() == Ok::<ServerCommand, CodecError>(
            ServerCommand::Variable(variables.last()),
        ));
    }
}

/// A room that was added is among the rooms.
pub proof fn lemma_with_channel(rooms: Seq<Channel>, room: Channel)
    ensures
        has_key(with_channel(rooms, room), room.key()),
        distinct(rooms) ==> distinct(with_channel(rooms, room)),
        forall|other: Seq<char>|
            other != room.key() ==> has_key(with_channel(rooms, room), other) == has_key(
                rooms,
                other,
            ),
{
    let out = with_channel(rooms, room);
    if !has_key(rooms, room.key()) {
        let n = rooms.len() as int;
        assert(out[n].key() == room.key());
        assert(forall|i: int| 0 <= i < n ==> out[i] == rooms[i]);
        if distinct(rooms) {
            assert forall|i: int, j: int| 0 <= i < j < out.len() implies (#[trigger] out[i]).key()
                != (#[trigger] out[j]).key() by {
                if j < n {
                    assert(rooms[i].key() != rooms[j].key());
                } else {
                    assert(rooms[i].key() != room.key());
                }
            }
        }
        assert forall|other: Seq<char>| other != room.key() implies has_key(out, other)
            == has_key(rooms, other) by {
            if has_key(out, other) {
                let i = choose|i: int| 0 <= i < out.len() && (#[trigger] out[i]).key() == other;
                assert(rooms[i].key() == other);
            }
            if has_key(rooms, other) {
                let i = choose|i: int| 0 <= i < n && (#[trigger] rooms[i]).key() == other;
                assert(out[i].key() == other);
            }
        }
    }
}

/// Once its own character has left a room, a session is not in the room,
/// whatever it was in before.
pub proof fn lemma_left_room_is_gone(session: Session, channel: Channel, character: Character)
    requires
        session.is_own(character),
    ensures
        !has_key(
            session.channels_after(ServerCommand::LeftChannel { channel, character }),
            channel.key(),
        ),
{
    lemma_without_key(session.channels@, channel.key());
}

/// A session whose own character joins a room and then leaves it is in the
/// room in between and not in it afterwards. The name of the room may differ
/// in case between the two commands.
pub proof fn lemma_join_then_leave(
    before: Session,
    joined: Session,
    channel: Channel,
    character: CharacterIdentity,
    title: String,
    left: Channel,
)
    requires
        before.is_own(character.identity),
        joined.character == before.character,
        joined.channels@ == before.channels_after(
            ServerCommand::JoinedChannel { channel, character, title },
        ),
        left.key() == channel.key(),
    ensures
        has_key(joined.channels@, channel.key()),
        !has_key(
            joined.channels_after(
                ServerCommand::LeftChannel { channel: left, character: character.identity },
            ),
            channel.key(),
        ),
{
    lemma_with_channel(before.channels@, channel);
    lemma_without_key(joined.channels@, left.key());
}

/// The heartbeat of the server never goes on to the client: the session
/// answers it with a heartbeat of its own, whatever its state.
pub proof fn lemma_heartbeat_is_answered(session: Session)
    ensures
        session.outcome(Ok(ServerCommand::Ping)) == FrameOutcome::Reply(ClientCommand::Pong),
        session.channels_after(ServerCommand::Ping) == session.channels@,
        session.typing_after(ServerCommand::Ping) == session.typing(),
        session.last_err_after(ServerCommand::Ping) == session.last_err,
{
}

/// A command that a session hands on to the client is the command that
/// arrived, and is none of those that end in the session: the heartbeat, the
/// greeting, the acceptance of the identification, a declaration of a
/// variable.
pub proof fn lemma_handed_on(session: Session, parsed: Result<ServerCommand, CodecError>)
    ensures
        session.outcome(parsed) matches FrameOutcome::Emit(SessionEvent::Command(command))
            ==> parsed == Ok::<ServerCommand, CodecError>(command) && !(command is Ping)
            && !(command is Hello) && !(command is IdentifySuccess) && !(command is Variable),
        session.outcome(parsed) matches FrameOutcome::Emit(SessionEvent::Error(error)) ==> error
            == SessionError::LateIdentifyCommand || error == SessionError::LateVarCommand,
{
}

/// A report of typing goes on to the client if and only if it changes what
/// is on record for its character.
pub proof fn lemma_typing_is_told_once(session: Session, character: Character, status: TypingStatus)
    ensures
        session.outcome(Ok(ServerCommand::Typing { character, status })) == (if session.typing()
            == session.typing_after(ServerCommand::Typing { character, status }) {
            FrameOutcome::Nothing
        } else {
            FrameOutcome::Emit(SessionEvent::Command(ServerCommand::Typing { character, status }))
        }),
{
    let after = session.typing_after(ServerCommand::Typing { character, status });
    assert(after[character.key()] == status);
    assert(after.contains_key(character.key()));
    if session.typing().contains_key(character.key()) && session.typing()[character.key()]
        == status {
        assert(after =~= session.typing());
    }
}

} // verus!
