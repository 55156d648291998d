//! The client: one account, its ticket, and its sessions.
//!
//! The client performs no I/O. Whoever drives it fetches tickets, opens
//! connections and calls the listener; the client says when and with what.

use vstd::prelude::*;
use vstd::std_specs::convert::FromSpecImpl;
use vstd::string::StringExecFns;
use crate::cache::{Cache, NoCache};
use crate::data::{Channel, Character, CharacterId, Timestamp};
use crate::dispatch::{all_answered, asked, effects_of, plan, plan_of, reaches_client, run_plan, step_changes, step_effects, Dispatched, Effect, Mutation, Notification, Step};
use crate::http_endpoints::{bookmark_names, bookmarks_of, relations, ApiTicketResponse, FriendListResponse};
use crate::protocol::{ClientCommand, CodecError, ProtocolError, ServerCommand};
use crate::session::{lemma_handed_on, Event, FrameOutcome, Handshake, HandshakeState, Session, SessionError, SessionEvent};

verus! {

/// For how many seconds after it was fetched a ticket counts as fresh. The
/// site lets a ticket live for thirty minutes.
pub const FRESH_SECONDS: u64 = 1500;

/// The ticket of the account, with the time at which it was fetched, in
/// seconds of a clock that never goes back.
#[derive(Clone, Debug)]
pub struct Token {
    /// When the ticket was fetched.
    pub last_updated: u64,
    /// The ticket.
    pub ticket: String,
}

impl Token {
    /// Whether the ticket is older than it may be to count as fresh.
    pub open spec fn stale(self, now: u64) -> bool {
        now - self.last_updated > FRESH_SECONDS
    }

    /// A ticket that was fetched now.
    pub fn new(ticket: String, now: u64) -> (token: Token)
        ensures
            token.ticket == ticket,
            token.last_updated == now,
    {
        Token { ticket, last_updated: now }
    }

    /// The token of a client that has fetched no ticket yet.
    pub fn zero(now: u64) -> (token: Token)
        ensures
            token.ticket@ == "NONE"@,
            token.last_updated == now,
    {
        Token { ticket: "NONE".to_owned(), last_updated: now }
    }

    /// Whether the ticket is more than twenty-five minutes old.
    pub fn expired(&self, now: u64) -> (r: bool)
        ensures
            r == self.stale(now),
    {
        now > self.last_updated && now - self.last_updated > FRESH_SECONDS
    }

    /// Takes a ticket that was fetched now.
    pub fn update(&mut self, new: String, now: u64)
        ensures
            final(self).ticket == new,
            final(self).last_updated == now,
    {
        self.ticket = new;
        self.last_updated = now;
    }
}

/// Why the client failed.
#[derive(Clone, Debug, PartialEq, Eq)]
pub enum ClientError {
    /// A request to the site failed; the text says how.
    RequestError(String),
    /// The transport failed; the text says how.
    WebsocketError(String),
    /// The account's default character is not among its characters.
    NoDefaultCharacter,
    /// A session failed.
    SessionError(SessionError),
}

impl ClientError {
    /// A description of the error.
    pub fn message(&self) -> (text: String)
        ensures
            text@ == (match *self {
                ClientError::RequestError(_) => "Error from HTTP Request"@,
                ClientError::WebsocketError(_) => "Error from Websocket (Tungstenite)"@,
                ClientError::NoDefaultCharacter =>
                    "Default character doesn't exist or is invalid"@,
                ClientError::SessionError(_) => "Error from Session implementation"@,
            }),
    {
        match self {
            ClientError::RequestError(_) => "Error from HTTP Request".to_owned(),
            ClientError::WebsocketError(_) => "Error from Websocket (Tungstenite)".to_owned(),
            ClientError::NoDefaultCharacter =>
                "Default character doesn't exist or is invalid".to_owned(),
            ClientError::SessionError(_) => "Error from Session implementation".to_owned(),
        }
    }
}

impl From<SessionError> for ClientError {
    fn from(error: SessionError) -> (r: ClientError) {
        ClientError::SessionError(error)
    }
}

impl FromSpecImpl<SessionError> for ClientError {
    open spec fn obeys_from_spec() -> bool {
        true
    }

    open spec fn from_spec(error: SessionError) -> ClientError {
        ClientError::SessionError(error)
    }
}

/// Whether a session of the character of the given identity is among the
/// sessions.
pub open spec fn has_session(sessions: Seq<Session>, key: Seq<char>) -> bool {
    exists|i: int| 0 <= i < sessions.len() && (#[trigger] sessions[i]).character.key() == key
}

/// Whether no two of the sessions are of the same character.
pub open spec fn one_each(sessions: Seq<Session>) -> bool {
    forall|i: int, j: int|
        0 <= i < j < sessions.len() ==> (#[trigger] sessions[i]).character.key() != (
        #[trigger] sessions[j]).character.key()
}

/// The sessions without those of the character of the given identity, the
/// others in their order.
pub open spec fn without_session(sessions: Seq<Session>, key: Seq<char>) -> Seq<Session>
    decreases sessions.len(),
{
    if sessions.len() == 0 {
        sessions
    } else if sessions.last().character.key() == key {
        without_session(sessions.drop_last(), key)
    } else {
        without_session(sessions.drop_last(), key).push(sessions.last())
    }
}

/// Among sessions that are of one character each, dropping a character
/// takes out the one session of that character, if there is one.
pub proof fn lemma_without_session(sessions: Seq<Session>, key: Seq<char>)
    requires
        one_each(sessions),
    ensures
        !has_session(without_session(sessions, key), key),
        one_each(without_session(sessions, key)),
        forall|i: int|
            0 <= i < sessions.len() && (#[trigger] sessions[i]).character.key() == key
                ==> without_session(sessions, key) == sessions.remove(i),
        !has_session(sessions, key) ==> without_session(sessions, key) == sessions,
        forall|other: Seq<char>|
            other != key ==> has_session(without_session(sessions, key), other) == has_session(
                sessions,
                other,
            ),
    decreases sessions.len(),
{
    if sessions.len() > 0 {
        let front = sessions.drop_last();
        let last = sessions.last();
        let n = front.len() as int;
        assert(forall|j: int| 0 <= j < n ==> front[j] == sessions[j]);
        assert(sessions[n] == last);
        assert forall|i: int, j: int| 0 <= i < j < n implies (#[trigger] front[i]).character.key()
            != (#[trigger] front[j]).character.key() by {
            assert(sessions[i].character.key() != sessions[j].character.key());
        }
        lemma_without_session(front, key);
        let kept = without_session(front, key);
        let out = without_session(sessions, key);
        assert forall|other: Seq<char>| has_session(sessions, other) == (has_session(front, other)
            || last.character.key() == other) by {
            if has_session(sessions, other) {
                let j = choose|j: int|
                    0 <= j < sessions.len() && (#[trigger] sessions[j]).character.key() == other;
                if j < n {
                    assert(front[j].character.key() == other);
                }
            }
            if has_session(front, other) {
                let j = choose|j: int| 0 <= j < n && (#[trigger] front[j]).character.key() == other;
                assert(sessions[j].character.key() == other);
            }
            if last.character.key() == other {
                assert(sessions[n].character.key() == other);
            }
        }
        assert(!has_session(front, last.character.key())) by {
            if has_session(front, last.character.key()) {
                let j = choose|j: int|
                    0 <= j < n && (#[trigger] front[j]).character.key() == last.character.key();
                assert(sessions[j].character.key() != sessions[n].character.key());
            }
        }
        if last.character.key() == key {
            assert(out == kept);
            assert(kept == front);
            assert(front =~= sessions.remove(n));
            assert forall|i: int|
                0 <= i < sessions.len() && (#[trigger] sessions[i]).character.key()
                    == key implies out == sessions.remove(i) by {
                if i < n {
                    assert(sessions[i].character.key() != sessions[n].character.key());
                }
            }
        } else {
            let m = kept.len() as int;
            assert(out == kept.push(last));
            assert(forall|i: int| 0 <= i < m ==> out[i] == kept[i]);
            assert(out[m] == last);
            assert forall|other: Seq<char>| has_session(out, other) == (has_session(kept, other)
                || last.character.key() == other) by {
                if has_session(out, other) {
                    let i = choose|i: int|
                        0 <= i < out.len() && (#[trigger] out[i]).character.key() == other;
                    if i < m {
                        assert(kept[i].character.key() == other);
                    }
                }
                if has_session(kept, other) {
                    let i = choose|i: int|
                        0 <= i < m && (#[trigger] kept[i]).character.key() == other;
                    assert(out[i].character.key() == other);
                }
                if last.character.key() == other {
                    assert(out[m].character.key() == other);
                }
            }
            assert(!has_session(kept, last.character.key()));
            assert forall|i: int, j: int| 0 <= i < j < out.len() implies (
            #[trigger] out[i]).character.key() != (#[trigger] out[j]).character.key() by {
                if j < m {
                    assert(kept[i].character.key() != kept[j].character.key());
                } else {
                    assert(kept[i].character.key() != last.character.key());
                }
            }
            assert forall|i: int|
                0 <= i < sessions.len() && (#[trigger] sessions[i]).character.key()
                    == key implies out == sessions.remove(i) by {
                assert(i < n);
                assert(front[i].character.key() == key);
                assert(kept == front.remove(i));
                assert(out =~= sessions.remove(i));
            }
        }
        if !has_session(sessions, key) {
            assert(out =~= sessions);
        }
    }
}

/// The live sessions of a client, one for each character at most, in the
/// order in which they were made.
#[derive(Debug)]
pub struct SessionList {
    items: Vec<Session>,
}

impl View for SessionList {
    type V = Seq<Session>;

    closed spec fn view(&self) -> Seq<Session> {
        self.items@
    }
}

impl SessionList {
    /// No character has two sessions.
    #[verifier::type_invariant]
    pub closed spec fn wf(self) -> bool {
        one_each(self.items@)
    }

    /// No sessions.
    pub fn new() -> (list: Self)
        ensures
            list@ == Seq::<Session>::empty(),
    {
        SessionList { items: Vec::new() }
    }

    /// The number of sessions.
    pub fn len(&self) -> (n: usize)
        ensures
            n == self@.len(),
    {
        self.items.len()
    }

    /// The sessions, in order.
    pub fn as_vec(&self) -> (sessions: &Vec<Session>)
        ensures
            sessions@ == self@,
            one_each(sessions@),
    {
        proof {
            use_type_invariant(self);
        }
        &self.items
    }

    /// Where the session of a character stands.
    pub fn position(&self, character: &Character) -> (r: Option<usize>)
        ensures
            r.is_some() == has_session(self@, character.key()),
            r matches Some(i) ==> i < self@.len() && self@[i as int].character.key()
                == character.key(),
    {
        let mut i: usize = 0;
        while i < self.items.len()
            invariant
                i <= self.items@.len(),
                forall|k: int|
                    0 <= k < i ==> (#[trigger] self.items@[k]).character.key() != character.key(),
            decreases self.items@.len() - i,
        {
            if self.items[i].character == *character {
                return Some(i);
            }
            i += 1;
        }
        None
    }

    /// The session of a character.
    pub fn get(&self, character: &Character) -> (r: Option<&Session>)
        ensures
            r.is_some() == has_session(self@, character.key()),
            r matches Some(session) ==> session.character.key() == character.key() && self@.contains(
                *session,
            ),
    {
        match self.position(character) {
            Some(i) => Some(&self.items[i]),
            None => None,
        }
    }

    /// Takes the session of a character out of the list.
    pub fn take(&mut self, character: &Character) -> (r: Option<Session>)
        ensures
            r.is_some() == has_session(old(self)@, character.key()),
            r matches Some(session) ==> session.character.key() == character.key() && old(self)@.contains(session),
            final(self)@ == without_session(old(self)@, character.key()),
    {
        proof {
            use_type_invariant(&*self);
            lemma_without_session(self.items@, character.key());
        }
        match self.position(character) {
            Some(i) => {
                let mut items: Vec<Session> = Vec::new();
                core::mem::swap(&mut self.items, &mut items);
                let session = items.remove(i);
                self.items = items;
                Some(session)
            },
            None => None,
        }
    }

    /// Drops the session of a character. Says whether there was one.
    pub fn drop_session(&mut self, character: &Character) -> (dropped: bool)
        ensures
            dropped == has_session(old(self)@, character.key()),
            final(self)@ == without_session(old(self)@, character.key()),
    {
        self.take(character).is_some()
    }

    /// Adds a session at the end. A session of the same character that was
    /// in the list is dropped.
    pub fn push(&mut self, session: Session)
        ensures
            final(self)@ == without_session(old(self)@, session.character.key()).push(session),
    {
        proof {
            use_type_invariant(&*self);
            lemma_without_session(self.items@, session.character.key());
        }
        let _ = self.take(&session.character);
        proof {
            use_type_invariant(&*self);
        }
        let ghost kept = self.items@;
        let mut items: Vec<Session> = Vec::new();
        core::mem::swap(&mut self.items, &mut items);
        items.push(session);
        proof {
            assert forall|i: int, j: int| 0 <= i < j < items@.len() implies (
            #[trigger] items@[i]).character.key() != (#[trigger] items@[j]).character.key() by {
                if j < kept.len() {
                    assert(kept[i].character.key() != kept[j].character.key());
                } else {
                    assert(kept[i].character.key() != session.character.key());
                }
            }
        }
        self.items = items;
    }
}

impl SessionList {
    /// Hands what a frame was read as to the session of a character, which
    /// keeps its place in the list. Nothing comes of it where the character
    /// has no session.
    pub fn handle(&mut self, character: &Character, parsed: Result<ServerCommand, CodecError>) -> (r:
        Option<FrameOutcome>)
        ensures
            final(self)@.len() == old(self)@.len(),
            match r {
                Some(outcome) => exists|i: int|
                    {
                        &&& 0 <= i < old(self)@.len()
                        &&& (#[trigger] old(self)@[i]).character.key() == character.key()
                        &&& outcome == old(self)@[i].outcome(parsed)
                        &&& old(self)@[i].steps_to(parsed, final(self)@[i])
                        &&& forall|j: int|
                            0 <= j < old(self)@.len() && j != i ==> final(self)@[j] == old(self)@[j]
                    },
                None => !has_session(old(self)@, character.key()) && final(self)@ == old(self)@,
            },
    {
        proof {
            use_type_invariant(&*self);
        }
        match self.position(character) {
            Some(i) => {
                let ghost before = self.items@;
                let mut items: Vec<Session> = Vec::new();
                core::mem::swap(&mut self.items, &mut items);
                let mut session = items.remove(i);
                let outcome = session.on_command(parsed);
                items.insert(i, session);
                proof {
                    assert forall|a: int, b: int| 0 <= a < b < items@.len() implies (
                    #[trigger] items@[a]).character.key() != (#[trigger] items@[b]).character.key() by {
                        assert(items@[a].character.key() == before[a].character.key());
                        assert(items@[b].character.key() == before[b].character.key());
                        assert(before[a].character.key() != before[b].character.key());
                    }
                }
                self.items = items;
                assert(before[i as int].character.key() == character.key());
                Some(outcome)
            },
            None => None,
        }
    }
}

/// The first of the characters that has the given number.
pub open spec fn character_of_id(characters: Seq<(Character, CharacterId)>, id: CharacterId)
    -> Option<Character>
    decreases characters.len(),
{
    if characters.len() == 0 {
        None
    } else {
        match character_of_id(characters.drop_last(), id) {
            Some(character) => Some(character),
            None => if characters.last().1 == id {
                Some(characters.last().0)
            } else {
                None
            },
        }
    }
}

/// The characters of a list of characters with their numbers.
pub open spec fn names_of(characters: Seq<(Character, CharacterId)>) -> Seq<Character> {
    characters.map_values(|entry: (Character, CharacterId)| entry.0)
}

/// The steps that an event of the session of a character calls for.
///
/// A command is dispatched: `raw_command` first, then what the command asks
/// for. A session that asks to be connected again is connected again. A
/// session that the server closed for good is given up, then the listener
/// hears of the disconnect, then of the change of the sessions. An error
/// goes to the listener; after an error of the transport the session is
/// given up first.
pub open spec fn event_plan(session: Character, now: Timestamp, event: SessionEvent) -> Seq<Step> {
    match event {
        SessionEvent::Command(command) => plan_of(session, now, command),
        SessionEvent::Reconnect => seq![Step::Reconnect],
        SessionEvent::Disconnected(error) => seq![
            Step::Close,
            Step::Notify(Notification::SessionDisconnected(error)),
            Step::Notify(Notification::SessionsUpdated),
        ],
        SessionEvent::Error(error) => if error is WebsocketError {
            seq![Step::Close, Step::Notify(Notification::SessionError(error))]
        } else {
            seq![Step::Notify(Notification::SessionError(error))]
        },
    }
}

/// Whether the client drops the session that reports an event: after the
/// server closed it for good, and after an error of the transport.
pub open spec fn drops_session(event: SessionEvent) -> bool {
    event is Disconnected || (event matches SessionEvent::Error(error) && error is WebsocketError)
}

/// What came of a frame that a client took for one of its sessions.
#[derive(Debug, PartialEq)]
pub enum Received {
    /// The character has no session.
    NoSession,
    /// The frame could not be read and was skipped.
    Skipped(CodecError),
    /// Nothing is to be done.
    Nothing,
    /// The command is to be sent on the session's connection.
    Reply(ClientCommand),
    /// The frame led to an event. These are the steps that the event calls
    /// for, to be taken in this order with [`Client::step`].
    Plan(Vec<Step>),
}

/// What a client is built from.
#[derive(Debug)]
pub struct ClientBuilder<C: Cache> {
    pub client_version: String,
    pub client_name: String,
    pub cache: C,
}

/// One account with its ticket, its characters, its cache and its live
/// sessions.
#[derive(Debug)]
pub struct Client<C: Cache> {
    pub client_name: String,
    pub client_version: String,
    pub username: String,
    pub password: String,
    pub token: Token,
    pub default_character: Character,
    pub own_characters: Vec<Character>,
    pub cache: C,
    pub sessions: SessionList,
}

impl ClientBuilder<NoCache> {
    /// A builder for a client that keeps no cache and names itself
    /// `f-chat-rs`, version `0.1`.
    pub fn new() -> (builder: Self)
        ensures
            builder.client_name@ == "f-chat-rs"@,
            builder.client_version@ == "0.1"@,
    {
        ClientBuilder {
            client_version: "0.1".to_owned(),
            client_name: "f-chat-rs".to_owned(),
            cache: NoCache,
        }
    }
}

impl<C: Cache> ClientBuilder<C> {
    /// The same builder with another cache.
    pub fn with_cache<C2: Cache>(self, cache: C2) -> (builder: ClientBuilder<C2>)
        ensures
            builder.client_name == self.client_name,
            builder.client_version == self.client_version,
            builder.cache == cache,
    {
        ClientBuilder { client_version: self.client_version, client_name: self.client_name, cache }
    }

    /// The same builder with another name and version of the client.
    pub fn with_version(self, client_name: String, client_version: String) -> (builder: Self)
        ensures
            builder.client_name == client_name,
            builder.client_version == client_version,
            builder.cache == self.cache,
    {
        ClientBuilder { client_name, client_version, cache: self.cache }
    }

    /// Builds the client from the answer to the first request for a ticket,
    /// which was made now and asked for characters, friends and bookmarks.
    ///
    /// The build fails with `NoDefaultCharacter` where none of the account's
    /// characters has the number of the default character, and the cache is
    /// then asked nothing. Else the cache is handed the bookmarks of the
    /// answer and then its friendships, each as the cache keeps them.
    pub fn init(self, username: String, password: String, response: ApiTicketResponse, now: u64) -> (r:
        Result<Client<C>, ClientError>)
        ensures
            match character_of_id(response.characters@, response.default_character) {
                Some(character) => r matches Ok(client) && client.default_character == character
                    && client.own_characters@ == names_of(response.characters@) && client.token.ticket
                    == response.ticket && client.token.last_updated == now && client.username
                    == username && client.password == password && client.client_name
                    == self.client_name && client.client_version == self.client_version
                    && client.sessions@ == Seq::<Session>::empty(),
                None => r == Err::<Client<C>, ClientError>(ClientError::NoDefaultCharacter),
            },
            r matches Ok(client) ==> client.cache == self.cache,
            r matches Ok(client) ==> (exists|names: Vec<Character>, told: bool|
                names@ == bookmarks_of(response.bookmarks@) && #[trigger] call_ensures(
                    C::set_bookmarks,
                    (&client.cache, &names),
                    told,
                )),
            r matches Ok(client) ==> (exists|told: bool|
                Mutation::SetFriends(response.friends).answered(&client.cache, told)),
    {
        let mut found: Option<Character> = None;
        let mut own_characters: Vec<Character> = Vec::new();
        let mut i: usize = 0;
        while i < response.characters.len()
            invariant
                i <= response.characters@.len(),
                found == character_of_id(
                    response.characters@.subrange(0, i as int),
                    response.default_character,
                ),
                own_characters@ == names_of(response.characters@.subrange(0, i as int)),
            decreases response.characters@.len() - i,
        {
            let entry = response.characters[i];
            proof {
                assert(response.characters@.subrange(0, i + 1).drop_last()
                    =~= response.characters@.subrange(0, i as int));
            }
            if found.is_none() && entry.1.0 == response.default_character.0 {
                found = Some(entry.0);
            }
            own_characters.push(entry.0);
            assert(own_characters@ =~= names_of(response.characters@.subrange(0, i + 1)));
            i += 1;
        }
        assert(response.characters@.subrange(0, i as int) =~= response.characters@);
        let default_character = match found {
            Some(character) => character,
            None => {
                return Err(ClientError::NoDefaultCharacter);
            },
        };
        let client = Client {
            client_name: self.client_name,
            client_version: self.client_version,
            username,
            password,
            token: Token::new(response.ticket, now),
            default_character,
            own_characters,
            cache: self.cache,
            sessions: SessionList::new(),
        };
        let names = bookmark_names(&response.bookmarks);
        let bookmarks_told = client.cache.set_bookmarks(&names);
        let friends_told = Mutation::SetFriends(response.friends).apply(&client.cache);
        proof {
            assert(names@ == bookmarks_of(response.bookmarks@) && call_ensures(
                C::set_bookmarks,
                (&client.cache, &names),
                bookmarks_told,
            ));
            assert(Mutation::SetFriends(response.friends).answered(&client.cache, friends_told));
        }
        Ok(client)
    }
}

impl<C: Cache> Client<C> {
    /// Whether two states of a client differ in nothing but the sessions:
    /// account, ticket, names, characters and cache are the same.
    pub open spec fn same_but_sessions(self, other: Self) -> bool {
        &&& other.client_name == self.client_name
        &&& other.client_version == self.client_version
        &&& other.username == self.username
        &&& other.password == self.password
        &&& other.token == self.token
        &&& other.default_character == self.default_character
        &&& other.own_characters == self.own_characters
        &&& other.cache == self.cache
    }

    /// Takes a ticket that was fetched now.
    pub fn refresh(&mut self, ticket: String, now: u64)
        ensures
            final(self).token.ticket == ticket,
            final(self).token.last_updated == now,
            final(self).sessions == old(self).sessions,
            final(self).cache == old(self).cache,
            final(self).username == old(self).username,
            final(self).password == old(self).password,
            final(self).client_name == old(self).client_name,
            final(self).client_version == old(self).client_version,
            final(self).default_character == old(self).default_character,
            final(self).own_characters == old(self).own_characters,
    {
        self.token.update(ticket, now);
    }

    /// Whether a ticket is to be fetched before it is used: whether the one
    /// at hand is more than twenty-five minutes old.
    pub fn refresh_fast(&self, now: u64) -> (due: bool)
        ensures
            due == self.token.stale(now),
    {
        self.token.expired(now)
    }

    /// Starts a connection as a character, with a ticket that was fetched
    /// now for the purpose: the handshake to run, and the identification to
    /// send first.
    pub fn connect(&mut self, character: Character, ticket: String, now: u64) -> (r: (
        Handshake,
        ClientCommand,
    ))
        ensures
            final(self).token.ticket == ticket,
            final(self).token.last_updated == now,
            final(self).sessions == old(self).sessions,
            final(self).cache == old(self).cache,
            final(self).username == old(self).username,
            final(self).password == old(self).password,
            final(self).client_name == old(self).client_name,
            final(self).client_version == old(self).client_version,
            final(self).default_character == old(self).default_character,
            final(self).own_characters == old(self).own_characters,
            r.0.character == character,
            r.0.state == HandshakeState::Identifying,
            r.0.variables.nothing_declared(),
            r.0.rejoin@.len() == 0,
            r.1 matches ClientCommand::Identify {
                account,
                ticket: sent,
                character: identified,
                client_name,
                client_version,
                ..
            } && account@ == old(self).username@ && sent@ == ticket@ && identified == character
                && client_name@ == old(self).client_name@ && client_version@ == old(self).client_version@,
    {
        self.token.update(ticket, now);
        Session::connect(
            self.username.clone(),
            self.token.ticket.clone(),
            self.client_name.clone(),
            self.client_version.clone(),
            character,
        )
    }

    /// Starts the connection of a character's session anew, with the ticket
    /// at hand. Nothing comes of it where the character has no session.
    pub fn reconnect(&self, character: &Character) -> (r: Option<(Handshake, ClientCommand)>)
        ensures
            r.is_some() == has_session(self.sessions@, character.key()),
            r matches Some((handshake, identify)) ==> {
                &&& handshake.character.key() == character.key()
                &&& handshake.state == HandshakeState::Identifying
                &&& handshake.variables.nothing_declared()
                &&& exists|i: int|
                    0 <= i < self.sessions@.len() && (
                    #[trigger] self.sessions@[i]).character.key() == character.key()
                        && handshake.rejoin@ == self.sessions@[i].channels@
                &&& identify matches ClientCommand::Identify {
                    account,
                    ticket,
                    character: identified,
                    client_name,
                    client_version,
                    ..
                } && account@ == self.username@ && ticket@ == self.token.ticket@ && identified
                    == handshake.character && client_name@ == self.client_name@ && client_version@
                    == self.client_version@
            },
    {
        match self.sessions.get(character) {
            Some(session) => {
                let r = session.reconnect(
                    self.username.clone(),
                    self.token.ticket.clone(),
                    self.client_name.clone(),
                    self.client_version.clone(),
                );
                proof {
                    let i = choose|i: int|
                        0 <= i < self.sessions@.len() && self.sessions@[i] == *session;
                    assert(self.sessions@[i].character.key() == character.key());
                }
                Some(r)
            },
            None => None,
        }
    }

    /// Takes the session that a handshake ended in among the live sessions.
    pub fn connected(&mut self, session: Session)
        ensures
            final(self).sessions@ == without_session(
                old(self).sessions@,
                session.character.key(),
            ).push(session),
            old(self).same_but_sessions(*final(self)),
    {
        self.sessions.push(session);
    }

    /// The session of a character.
    pub fn get_session(&self, character: &Character) -> (r: Option<&Session>)
        ensures
            r.is_some() == has_session(self.sessions@, character.key()),
            r matches Some(session) ==> session.character.key() == character.key()
                && self.sessions@.contains(*session),
    {
        self.sessions.get(character)
    }

    /// The live sessions, in the order in which they were made.
    pub fn get_sessions(&self) -> (sessions: &Vec<Session>)
        ensures
            sessions@ == self.sessions@,
            one_each(sessions@),
    {
        self.sessions.as_vec()
    }

    /// Drops the session of a character. Says whether there was one.
    pub fn drop_session(&mut self, character: &Character) -> (dropped: bool)
        ensures
            dropped == has_session(old(self).sessions@, character.key()),
            final(self).sessions@ == without_session(old(self).sessions@, character.key()),
            old(self).same_but_sessions(*final(self)),
    {
        self.sessions.drop_session(character)
    }

    /// Says what an event of a session calls for: the steps to take, in
    /// this order, with [`Client::step`]. The cache is not asked anything
    /// yet. A session that ends with the event is dropped from the list.
    ///
    /// A command must be one that goes on from a session to the client.
    pub fn dispatch(&mut self, event: Event, now: Timestamp) -> (steps: Vec<Step>)
        requires
            event.event matches SessionEvent::Command(command) ==> reaches_client(command),
        ensures
            steps@ == event_plan(event.session, now, event.event),
            final(self).sessions@ == (if drops_session(event.event) {
                without_session(old(self).sessions@, event.session.key())
            } else {
                old(self).sessions@
            }),
            old(self).same_but_sessions(*final(self)),
    {
        match event.event {
            SessionEvent::Command(command) => plan(event.session, now, command),
            SessionEvent::Reconnect => vec![Step::Reconnect],
            SessionEvent::Disconnected(error) => {
                self.sessions.drop_session(&event.session);
                vec![
                    Step::Close,
                    Step::Notify(Notification::SessionDisconnected(error)),
                    Step::Notify(Notification::SessionsUpdated),
                ]
            },
            SessionEvent::Error(error) => {
                let transport = match &error {
                    SessionError::WebsocketError(_) => true,
                    _ => false,
                };
                if transport {
                    self.sessions.drop_session(&event.session);
                    vec![Step::Close, Step::Notify(Notification::SessionError(error))]
                } else {
                    vec![Step::Notify(Notification::SessionError(error))]
                }
            },
        }
    }

    /// Takes one step of a plan: asks the cache the changes of the step, and
    /// says what is left to be done, which is to be done before the next step
    /// is taken.
    pub fn step(&self, step: Step) -> (r: Dispatched)
        ensures
            r.effects@ == step_effects(step, r.answers@),
            all_answered(step_changes(step), &self.cache, r.answers@),
    {
        step.run(&self.cache)
    }

    /// Takes what came of a new connection for a session that had asked for
    /// one: the old session goes; the new one takes its place at the end of
    /// the list, or the listener hears why there is none; then the listener
    /// hears of the change of the sessions.
    pub fn reconnected(&mut self, character: Character, outcome: Result<Session, SessionError>) -> (r:
        Vec<Effect>)
        ensures
            match outcome {
                Ok(session) => {
                    &&& final(self).sessions@ == without_session(
                        without_session(old(self).sessions@, character.key()),
                        session.character.key(),
                    ).push(session)
                    &&& r@ == seq![Effect::Notify(Notification::SessionsUpdated)]
                },
                Err(error) => {
                    &&& final(self).sessions@ == without_session(
                        old(self).sessions@,
                        character.key(),
                    )
                    &&& r@ == seq![
                        Effect::Notify(Notification::SessionError(error)),
                        Effect::Notify(Notification::SessionsUpdated),
                    ]
                },
            },
            old(self).same_but_sessions(*final(self)),
    {
        self.sessions.drop_session(&character);
        match outcome {
            Ok(session) => {
                self.sessions.push(session);
                vec![Effect::Notify(Notification::SessionsUpdated)]
            },
            Err(error) => vec![
                Effect::Notify(Notification::SessionError(error)),
                Effect::Notify(Notification::SessionsUpdated),
            ],
        }
    }

    /// Hands the lists of friends and bookmarks that were fetched to the
    /// cache, the bookmarks first, and gathers what the listener is to hear:
    /// of the bookmarks where the cache says that they changed, of the friends
    /// where the cache says that they changed.
    pub fn sync_friends_bookmarks(&self, list: FriendListResponse) -> (r: Dispatched)
        ensures
            r.answers@.len() == 2,
            Mutation::SetBookmarks(list.bookmarks).answered(&self.cache, r.answers@[0]),
            Mutation::SetFriends(list.friends).answered(&self.cache, r.answers@[1]),
            r.effects@ == (if r.answers@[0] {
                seq![Effect::Notify(Notification::UpdatedBookmarks)]
            } else {
                Seq::empty()
            }) + (if r.answers@[1] {
                seq![Effect::Notify(Notification::UpdatedFriends)]
            } else {
                Seq::empty()
            }),
    {
        let bookmarks = Mutation::SetBookmarks(list.bookmarks);
        let friends = Mutation::SetFriends(list.friends);
        let bookmarks_changed = bookmarks.apply(&self.cache);
        let friends_changed = friends.apply(&self.cache);
        let mut effects: Vec<Effect> = Vec::new();
        if bookmarks_changed {
            effects.push(Effect::Notify(bookmarks.into_notification()));
        }
        if friends_changed {
            effects.push(Effect::Notify(friends.into_notification()));
        }
        let answers = vec![bookmarks_changed, friends_changed];
        Dispatched { effects, answers }
    }

    /// Takes what a frame was read as for the session of a character: the
    /// session takes it in, and what the session hands on is planned. The
    /// cache is not asked anything yet.
    pub fn receive(&mut self, character: &Character, parsed: Result<ServerCommand, CodecError>, now: Timestamp) -> (r:
        Received)
        ensures
            old(self).same_but_sessions(*final(self)),
            final(self).sessions@.len() == old(self).sessions@.len(),
            if has_session(old(self).sessions@, character.key()) {
                exists|i: int|
                    {
                        &&& 0 <= i < old(self).sessions@.len()
                        &&& (#[trigger] old(self).sessions@[i]).character.key() == character.key()
                        &&& old(self).sessions@[i].steps_to(parsed, final(self).sessions@[i])
                        &&& forall|j: int|
                            0 <= j < old(self).sessions@.len() && j != i ==> final(self).sessions@[j]
                                == old(self).sessions@[j]
                        &&& match old(self).sessions@[i].outcome(parsed) {
                            FrameOutcome::Skipped(error) => r == Received::Skipped(error),
                            FrameOutcome::Nothing => r == Received::Nothing,
                            FrameOutcome::Reply(reply) => r == Received::Reply(reply),
                            FrameOutcome::Emit(event) => r matches Received::Plan(steps) && steps@
                                == event_plan(*character, now, event),
                        }
                    }
            } else {
                r == Received::NoSession && final(self).sessions@ == old(self).sessions@
            },
    {
        match self.sessions.handle(character, parsed) {
            None => Received::NoSession,
            Some(FrameOutcome::Skipped(error)) => Received::Skipped(error),
            Some(FrameOutcome::Nothing) => Received::Nothing,
            Some(FrameOutcome::Reply(reply)) => Received::Reply(reply),
            Some(FrameOutcome::Emit(event)) => {
                proof {
                    let i = choose|i: int|
                        0 <= i < old(self).sessions@.len() && (
                        #[trigger] old(self).sessions@[i]).character.key() == character.key()
                            && FrameOutcome::Emit(event) == old(self).sessions@[i].outcome(parsed);
                    lemma_handed_on(old(self).sessions@[i], parsed);
                }
                Received::Plan(self.dispatch(Event { session: *character, event }, now))
            },
        }
    }

    /// Takes the end of a session's transport without a closing handshake:
    /// the session says what to report, and the report is planned. Nothing
    /// comes of it where the character has no session.
    pub fn closed(&mut self, character: &Character, now: Timestamp) -> (r: Option<Vec<Step>>)
        ensures
            old(self).same_but_sessions(*final(self)),
            r.is_some() == has_session(old(self).sessions@, character.key()),
            r matches Some(steps) ==> exists|i: int|
                {
                    &&& 0 <= i < old(self).sessions@.len()
                    &&& (#[trigger] old(self).sessions@[i]).character.key() == character.key()
                    &&& steps@ == event_plan(
                        *character,
                        now,
                        old(self).sessions@[i].closing_event(),
                    )
                    &&& final(self).sessions@ == (if drops_session(
                        old(self).sessions@[i].closing_event(),
                    ) {
                        without_session(old(self).sessions@, character.key())
                    } else {
                        old(self).sessions@
                    })
                },
            r.is_none() ==> final(self).sessions@ == old(self).sessions@,
    {
        let event = match self.sessions.get(character) {
            Some(session) => {
                let event = session.on_close();
                proof {
                    let i = choose|i: int|
                        0 <= i < self.sessions@.len() && self.sessions@[i] == *session;
                    assert(self.sessions@[i].character.key() == character.key());
                }
                event
            },
            None => {
                return None;
            },
        };
        Some(self.dispatch(Event { session: *character, event }, now))
    }
}

/// After the server closed a connection right after a fatal error, the
/// session reports the disconnect with that error, the client drops the
/// session, and the steps are: give the connection up, tell the listener of
/// the disconnect, tell it of the change of the sessions. The listener hears
/// of the disconnect exactly once, and of the sessions only after it; the
/// cache is asked nothing.
pub proof fn lemma_fatal_close(session: Session, now: Timestamp, answers: Seq<bool>)
    requires
        ProtocolError::of_code(session.last_err as int).fatal(),
        answers.len() == 0,
    ensures
        session.closing_event() == SessionEvent::Disconnected(
            ProtocolError::of_code(session.last_err as int),
        ),
        drops_session(session.closing_event()),
        event_plan(session.character, now, session.closing_event()) == seq![
            Step::Close,
            Step::Notify(
                Notification::SessionDisconnected(ProtocolError::of_code(session.last_err as int)),
            ),
            Step::Notify(Notification::SessionsUpdated),
        ],
        asked(event_plan(session.character, now, session.closing_event())).len() == 0,
        effects_of(event_plan(session.character, now, session.closing_event()), answers) == seq![
            Effect::Close,
            Effect::Notify(
                Notification::SessionDisconnected(ProtocolError::of_code(session.last_err as int)),
            ),
            Effect::Notify(Notification::SessionsUpdated),
        ],
{
    let error = ProtocolError::of_code(session.last_err as int);
    let steps = event_plan(session.character, now, session.closing_event());
    let two = steps.drop_last();
    let one = two.drop_last();
    assert(two =~= seq![Step::Close, Step::Notify(Notification::SessionDisconnected(error))]);
    assert(one =~= seq![Step::Close]);
    assert(one.drop_last() =~= Seq::<Step>::empty());
    assert(answers.subrange(0, 0) =~= answers);
    reveal_with_fuel(effects_of, 4);
    reveal_with_fuel(asked, 4);
    assert(effects_of(steps, answers) =~= seq![
        Effect::Close,
        Effect::Notify(Notification::SessionDisconnected(error)),
        Effect::Notify(Notification::SessionsUpdated),
    ]);
}

/// After the server closed a connection without a fatal error before, the
/// session asks to be connected again, the client keeps it, and the one
/// step is to connect again: the listener hears nothing yet.
pub proof fn lemma_plain_close(session: Session, now: Timestamp)
    requires
        !ProtocolError::of_code(session.last_err as int).fatal(),
    ensures
        session.closing_event() == SessionEvent::Reconnect,
        !drops_session(session.closing_event()),
        event_plan(session.character, now, session.closing_event()) == seq![Step::Reconnect],
{
}

} // verus!
