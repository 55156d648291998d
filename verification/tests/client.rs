use f_chat_rs::cache::{friends, Cache, NoCache, PartialChannelData, PartialUserData};
use f_chat_rs::client::{Client, ClientBuilder, ClientError, Received, SessionList, Token, FRESH_SECONDS};
use f_chat_rs::data::{
    Channel, ChannelData, ChannelMode, Character, CharacterData, CharacterId, FriendRelation, Gender,
    Message, MessageChannel, MessageContent, Status, Timestamp, TypingStatus,
};
use f_chat_rs::dispatch::{dispatch_command, plan, run_plan, Dispatched, Effect, Mutation, Notification, Step};
use f_chat_rs::http_endpoints::{
    bookmark_names, get_api_ticket, get_friends_list, relations, ApiTicketResponse, Bookmark, Friend,
    FriendListResponse, FriendRequest, API_TICKET_URL, FRIEND_LIST_URL,
};
use f_chat_rs::protocol::{
    parse_command, BridgeEvent, ChannelInfo, CharacterIdentity, ClientCommand, CodecError,
    FlatCharacterData, IdentifyMethod, OfficialChannelInfo, ProtocolError, ServerCommand, Target,
};
use f_chat_rs::session::{Event, HandshakeState, Session, SessionError, SessionEvent, Variables};
use std::cell::RefCell;
use std::rc::Rc;
use std::collections::VecDeque;

fn ch(name: &str) -> Character {
    Character::new(name)
}

fn room(name: &str) -> Channel {
    Channel::new(name)
}

/// A cache that writes down what it is asked and answers as it was told to;
/// once it has run out of answers it says that nothing changed.
struct Script {
    asked: Rc<RefCell<Vec<String>>>,
    answers: RefCell<VecDeque<bool>>,
}

impl Script {
    fn new(answers: &[bool]) -> Script {
        Script { asked: Rc::new(RefCell::new(Vec::new())), answers: RefCell::new(answers.iter().copied().collect()) }
    }

    /// The record of what the cache was asked, for whoever outlives the cache.
    fn log(&self) -> Rc<RefCell<Vec<String>>> {
        self.asked.clone()
    }

    fn note(&self, what: String) -> bool {
        self.asked.borrow_mut().push(what);
        self.answers.borrow_mut().pop_front().unwrap_or(false)
    }

    fn asked(&self) -> Vec<String> {
        self.asked.borrow().clone()
    }
}

fn list(names: &[Character]) -> String {
    names.iter().map(|c| c.as_str()).collect::<Vec<_>>().join(",")
}

fn channel_data(data: &PartialChannelData) -> String {
    format!("mode={:?} title={:?} description={:?}", data.mode, data.title, data.description)
}

fn counts(channels: &[(Channel, u32)]) -> String {
    channels.iter().map(|(c, n)| format!("{}:{}", c.as_str(), n)).collect::<Vec<_>>().join(",")
}

impl Cache for Script {
    fn insert_message(&self, source: MessageChannel, message: &Message) -> bool {
        self.note(format!("insert_message {:?} {:?}", source_text(&source), message_text(message)))
    }
    fn insert_channel(&self, channel: &Channel, data: &PartialChannelData, members: &Vec<Character>) -> bool {
        self.note(format!("insert_channel {} {} [{}]", channel.as_str(), channel_data(data), list(members)))
    }
    fn insert_ad(&self, channel: &Channel, character: &Character, ad: &str) -> bool {
        self.note(format!("insert_ad {} {} {}", channel.as_str(), character.as_str(), ad))
    }
    fn add_channel_member(&self, channel: &Channel, member: Character) -> bool {
        self.note(format!("add_channel_member {} {}", channel.as_str(), member.as_str()))
    }
    fn remove_channel_member(&self, channel: &Channel, member: Character) -> bool {
        self.note(format!("remove_channel_member {} {}", channel.as_str(), member.as_str()))
    }
    fn add_bookmark(&self, character: &Character) -> bool {
        self.note(format!("add_bookmark {}", character.as_str()))
    }
    fn remove_bookmark(&self, character: &Character) -> bool {
        self.note(format!("remove_bookmark {}", character.as_str()))
    }
    fn add_global_op(&self, character: &Character) -> bool {
        self.note(format!("add_global_op {}", character.as_str()))
    }
    fn remove_global_op(&self, character: &Character) -> bool {
        self.note(format!("remove_global_op {}", character.as_str()))
    }
    fn add_channel_op(&self, channel: &Channel, character: &Character) -> bool {
        self.note(format!("add_channel_op {} {}", channel.as_str(), character.as_str()))
    }
    fn remove_channel_op(&self, channel: &Channel, character: &Character) -> bool {
        self.note(format!("remove_channel_op {} {}", channel.as_str(), character.as_str()))
    }
    fn update_channel(&self, channel: &Channel, data: &PartialChannelData) -> bool {
        self.note(format!("update_channel {} {}", channel.as_str(), channel_data(data)))
    }
    fn update_character(&self, character: &Character, data: &PartialUserData) -> bool {
        self.note(format!(
            "update_character {} gender={:?} status={:?} message={:?}",
            character.as_str(),
            data.gender,
            data.status,
            data.status_message
        ))
    }
    fn set_friends(&self, friends: &Vec<FriendRelation>) -> bool {
        let text: Vec<String> =
            friends.iter().map(|f| format!("{}>{}", f.own_character.as_str(), f.other_character.as_str())).collect();
        self.note(format!("set_friends [{}]", text.join(",")))
    }
    fn set_bookmarks(&self, bookmarks: &Vec<Character>) -> bool {
        self.note(format!("set_bookmarks [{}]", list(bookmarks)))
    }
    fn set_channel_members(&self, channel: &Channel, members: &Vec<Character>) -> bool {
        self.note(format!("set_channel_members {} [{}]", channel.as_str(), list(members)))
    }
    fn set_global_channels(&self, channels: &Vec<(Channel, u32)>) -> bool {
        self.note(format!("set_global_channels [{}]", counts(channels)))
    }
    fn set_unofficial_channels(&self, channels: &Vec<(Channel, u32)>) -> bool {
        self.note(format!("set_unofficial_channels [{}]", counts(channels)))
    }
    fn set_global_ops(&self, ops: &Vec<Character>) -> bool {
        self.note(format!("set_global_ops [{}]", list(ops)))
    }
    fn set_channel_ops(&self, channel: &Channel, ops: &Vec<Character>) -> bool {
        self.note(format!("set_channel_ops {} [{}]", channel.as_str(), list(ops)))
    }
    fn get_channel(&self, _channel: &Channel) -> Option<ChannelData> {
        None
    }
    fn get_channels(&self) -> Vec<ChannelData> {
        Vec::new()
    }
    fn get_character(&self, _character: &Character) -> Option<CharacterData> {
        None
    }
    fn get_characters(&self) -> Vec<CharacterData> {
        Vec::new()
    }
    fn get_messages(&self, _source: &MessageChannel, _since: Option<Timestamp>, _limit: Option<u32>) -> Vec<Message> {
        Vec::new()
    }
    fn get_friend_relations(&self) -> Vec<FriendRelation> {
        vec![
            FriendRelation { own_character: ch("Alice"), other_character: ch("Bob") },
            FriendRelation { own_character: ch("Alt"), other_character: ch("Carol") },
        ]
    }
    fn get_friends(&self) -> Vec<Character> {
        friends(&self.get_friend_relations())
    }
    fn get_bookmarks(&self) -> Vec<Character> {
        Vec::new()
    }
}

fn source_text(source: &MessageChannel) -> String {
    match source {
        MessageChannel::Channel(c) => format!("#{}", c.as_str()),
        MessageChannel::PrivateMessage(own, other) => format!("{}<>{}", own.as_str(), other.as_str()),
    }
}

fn message_text(message: &Message) -> String {
    format!("{}@{}: {:?}", message.character.as_str(), message.timestamp, message.content)
}

fn notify(n: Notification) -> Effect {
    Effect::Notify(n)
}

const NOW: Timestamp = 1_700_000_000;

/// Dispatches a frame for the session of Alice with a cache that answers as told.
fn run(frame: &str, answers: &[bool]) -> (Vec<Effect>, Vec<bool>, Vec<String>) {
    let cache = Script::new(answers);
    let command = parse_command(frame).expect("the frame is a command");
    let Dispatched { effects, answers } = dispatch_command(&cache, ch("Alice"), NOW, command);
    (effects, answers, cache.asked())
}

/// Checks one row: what the cache is asked, and what is left to do when the
/// cache says that it changed and when it says that it did not.
fn row(frame: &str, asked: &[&str], changed: Vec<Effect>, unchanged: Vec<Effect>) {
    let n = asked.len();
    let (effects, answers, log) = run(frame, &vec![true; n]);
    assert_eq!(log, asked, "{}", frame);
    assert_eq!(answers, vec![true; n], "{}", frame);
    let mut expected = vec![notify(Notification::RawCommand)];
    expected.extend(changed);
    assert_eq!(effects, expected, "{}", frame);

    let (effects, answers, log) = run(frame, &vec![false; n]);
    assert_eq!(log, asked, "{}", frame);
    assert_eq!(answers, vec![false; n], "{}", frame);
    let mut expected = vec![notify(Notification::RawCommand)];
    expected.extend(unchanged);
    assert_eq!(effects, expected, "{}", frame);
}

#[test]
fn dispatch_global_ops() {
    row(r#"ADL {"ops":["A","B"]}"#, &["set_global_ops [A,B]"], vec![notify(Notification::UpdatedGlobalOps)], vec![]);
    row(r#"AOP {"character":"A"}"#, &["add_global_op A"], vec![notify(Notification::UpdatedGlobalOps)], vec![]);
    row(r#"DOP {"character":"A"}"#, &["remove_global_op A"], vec![notify(Notification::UpdatedGlobalOps)], vec![]);
}

#[test]
fn dispatch_without_cache() {
    let both = |e: Effect| (vec![e.clone()], vec![e]);
    let (a, b) = both(notify(Notification::Broadcast(ch("Admin"), "hello".into())));
    row(r#"BRO {"message":"hello","character":"Admin"}"#, &[], a, b);
    let (a, b) = both(notify(Notification::Ready));
    row(r#"CON {"count":5}"#, &[], a, b);
    let (a, b) = both(notify(Notification::SystemMessage(room("Frontpage"), "m".into())));
    row(r#"SYS {"message":"m","channel":"Frontpage"}"#, &[], a, b);
    let (a, b) = both(notify(Notification::Typing(ch("Bob"), TypingStatus::Typing)));
    row(r#"TPN {"character":"Bob","status":"typing"}"#, &[], a, b);
    let (a, b) = both(notify(Notification::Error(ProtocolError::FullServer, "Server full".into())));
    row(r#"ERR {"number":2,"message":"Server full"}"#, &[], a, b);
    let (a, b) = both(notify(Notification::Error(ProtocolError::Other, "?".into())));
    row(r#"ERR {"number":12345,"message":"?"}"#, &[], a, b);
}

#[test]
fn dispatch_channel_updates() {
    row(
        r#"CDS {"channel":"Frontpage","description":"d"}"#,
        &[r#"update_channel Frontpage mode=None title=None description=Some("d")"#],
        vec![notify(Notification::UpdatedChannel(room("Frontpage")))],
        vec![],
    );
    row(
        r#"RMO {"mode":"ads","channel":"Frontpage"}"#,
        &["update_channel Frontpage mode=Some(AdsOnly) title=None description=None"],
        vec![notify(Notification::UpdatedChannel(room("Frontpage")))],
        vec![],
    );
    row(
        r#"ICH {"users":[{"identity":"A"},{"identity":"B"}],"channel":"Frontpage","mode":"both"}"#,
        &["insert_channel Frontpage mode=Some(Both) title=None description=None [A,B]"],
        vec![notify(Notification::UpdatedChannel(room("Frontpage")))],
        vec![],
    );
    row(
        r#"COA {"character":"Bob","channel":"Frontpage"}"#,
        &["add_channel_op Frontpage Bob"],
        vec![notify(Notification::UpdatedChannel(room("Frontpage")))],
        vec![],
    );
    row(
        r#"COR {"character":"Bob","channel":"Frontpage"}"#,
        &["remove_channel_op Frontpage Bob"],
        vec![notify(Notification::UpdatedChannel(room("Frontpage")))],
        vec![],
    );
    row(
        r#"COL {"channel":"Frontpage","oplist":["A","B"]}"#,
        &["set_channel_ops Frontpage [A,B]"],
        vec![notify(Notification::UpdatedChannel(room("Frontpage")))],
        vec![],
    );
}

#[test]
fn dispatch_invitation() {
    row(
        r#"CIU {"sender":"Bob","title":"Den","name":"ADH-abc"}"#,
        &[r#"update_channel ADH-abc mode=None title=Some("Den") description=None"#],
        vec![
            notify(Notification::UpdatedChannel(room("ADH-abc"))),
            notify(Notification::Invited(room("ADH-abc"), ch("Bob"))),
        ],
        vec![notify(Notification::Invited(room("ADH-abc"), ch("Bob")))],
    );
}

#[test]
fn dispatch_channel_lists() {
    row(
        r#"CHA {"channels":[{"name":"Frontpage","mode":"chat","characters":3},{"name":"Ads","mode":"ads","characters":7}]}"#,
        &[
            r#"update_channel Frontpage mode=Some(ChatOnly) title=Some("Frontpage") description=None"#,
            r#"update_channel Ads mode=Some(AdsOnly) title=Some("Ads") description=None"#,
            "set_global_channels [Frontpage:3,Ads:7]",
        ],
        vec![
            notify(Notification::UpdatedChannel(room("Frontpage"))),
            notify(Notification::UpdatedChannel(room("Ads"))),
            notify(Notification::UpdatedChannelLists),
        ],
        vec![],
    );
    row(
        r#"ORS {"channels":[{"name":"ADH-abc","characters":0,"title":"Den"},{"name":"ADH-def","characters":2,"title":"Lair"}]}"#,
        &[
            r#"update_channel ADH-abc mode=None title=Some("Den") description=None"#,
            r#"update_channel ADH-def mode=None title=Some("Lair") description=None"#,
            "set_unofficial_channels [ADH-abc:0,ADH-def:2]",
        ],
        vec![
            notify(Notification::UpdatedChannel(room("ADH-abc"))),
            notify(Notification::UpdatedChannel(room("ADH-def"))),
            notify(Notification::UpdatedChannelLists),
        ],
        vec![],
    );
    // each answer of the cache decides about its own notification
    let (effects, answers, _) = run(
        r#"ORS {"channels":[{"name":"ADH-abc","characters":0,"title":"Den"},{"name":"ADH-def","characters":2,"title":"Lair"}]}"#,
        &[false, true, false],
    );
    assert_eq!(answers, vec![false, true, false]);
    assert_eq!(effects, vec![notify(Notification::RawCommand), notify(Notification::UpdatedChannel(room("ADH-def")))]);
    row(r#"CHA {"channels":[]}"#, &["set_global_channels []"], vec![notify(Notification::UpdatedChannelLists)], vec![]);
}

#[test]
fn dispatch_join_and_leave() {
    let frame = r#"JCH {"channel":"Frontpage","character":{"identity":"Bob"},"title":"Front"}"#;
    let asked = [
        r#"update_channel Frontpage mode=None title=Some("Front") description=None"#,
        "add_channel_member Frontpage Bob",
    ];
    // both changes are asked for whatever the first answer; one notification for any change
    for (answers, told) in [([true, true], true), ([true, false], true), ([false, true], true), ([false, false], false)] {
        let (effects, given, log) = run(frame, &answers);
        assert_eq!(log, asked);
        assert_eq!(given, answers);
        let mut expected = vec![notify(Notification::RawCommand)];
        if told {
            expected.push(notify(Notification::UpdatedChannel(room("Frontpage"))));
        }
        assert_eq!(effects, expected);
    }
    // the session's own character
    row(
        r#"JCH {"channel":"Frontpage","character":{"identity":"ALICE"},"title":"Front"}"#,
        &[r#"update_channel Frontpage mode=None title=Some("Front") description=None"#, "add_channel_member Frontpage ALICE"],
        vec![notify(Notification::UpdatedChannel(room("Frontpage"))), notify(Notification::UpdatedSessionChannels)],
        vec![notify(Notification::UpdatedSessionChannels)],
    );
    row(
        r#"LCH {"channel":"Frontpage","character":"Bob"}"#,
        &["remove_channel_member Frontpage Bob"],
        vec![notify(Notification::UpdatedChannel(room("Frontpage")))],
        vec![],
    );
    row(
        r#"LCH {"channel":"Frontpage","character":"alice"}"#,
        &["remove_channel_member Frontpage alice"],
        vec![notify(Notification::UpdatedChannel(room("Frontpage"))), notify(Notification::UpdatedSessionChannels)],
        vec![notify(Notification::UpdatedSessionChannels)],
    );
}

#[test]
fn dispatch_characters() {
    row(
        r#"FLN {"character":"Bob"}"#,
        &["update_character Bob gender=None status=Some(Offline) message=None"],
        vec![notify(Notification::UpdatedCharacter(ch("Bob")))],
        vec![],
    );
    row(
        r#"NLN {"status":"online","gender":"Male","identity":"Bob"}"#,
        &["update_character Bob gender=Some(Male) status=Some(Online) message=None"],
        vec![notify(Notification::UpdatedCharacter(ch("Bob")))],
        vec![],
    );
    row(
        r#"STA {"status":"busy","character":"Bob","statusmsg":"AFK"}"#,
        &[r#"update_character Bob gender=None status=Some(Busy) message=Some("AFK")"#],
        vec![notify(Notification::UpdatedCharacter(ch("Bob")))],
        vec![],
    );
    row(
        r#"LIS {"characters":[["A","Female","online",""],["B","Male","busy","AFK"]]}"#,
        &[
            r#"update_character A gender=Some(Female) status=Some(Online) message=Some("")"#,
            r#"update_character B gender=Some(Male) status=Some(Busy) message=Some("AFK")"#,
        ],
        vec![notify(Notification::UpdatedCharacter(ch("A"))), notify(Notification::UpdatedCharacter(ch("B")))],
        vec![],
    );
}

#[test]
fn dispatch_messages() {
    let entry = |character: &str, content: MessageContent| Message { timestamp: NOW, character: ch(character), content };
    row(
        r#"PRI {"character":"Bob","message":"psst"}"#,
        &[r#"insert_message "Alice<>Bob" "Bob@1700000000: Message(\"psst\")""#],
        vec![notify(Notification::Message(
            MessageChannel::PrivateMessage(ch("Alice"), ch("Bob")),
            entry("Bob", MessageContent::Message("psst".into())),
        ))],
        vec![],
    );
    row(
        r#"MSG {"channel":"Frontpage","message":"hi","character":"Bob"}"#,
        &[r##"insert_message "#Frontpage" "Bob@1700000000: Message(\"hi\")""##],
        vec![notify(Notification::Message(
            MessageChannel::Channel(room("Frontpage")),
            entry("Bob", MessageContent::Message("hi".into())),
        ))],
        vec![],
    );
    row(
        r#"LRP {"channel":"Frontpage","message":"ad","character":"Bob"}"#,
        &["insert_ad Frontpage Bob ad"],
        vec![notify(Notification::Ad(room("Frontpage"), ch("Bob"), "ad".into()))],
        vec![],
    );
    row(
        r#"RLL {"channel":"Frontpage","results":[4,2],"type":"dice","message":"m","rolls":["1d6","1d6"],"character":"Bob","endresult":6}"#,
        &[r##"insert_message "#Frontpage" "Bob@1700000000: Roll([\"1d6\", \"1d6\"], [4, 2], 6)""##],
        vec![notify(Notification::Message(
            MessageChannel::Channel(room("Frontpage")),
            entry("Bob", MessageContent::Roll(vec!["1d6".into(), "1d6".into()], vec![4, 2], 6)),
        ))],
        vec![],
    );
    row(
        r#"RLL {"recipient":"Alice","results":[1],"type":"dice","message":"m","rolls":["1d2"],"character":"Bob","endresult":1}"#,
        &[r#"insert_message "Alice<>Bob" "Bob@1700000000: Roll([\"1d2\"], [1], 1)""#],
        vec![notify(Notification::Message(
            MessageChannel::PrivateMessage(ch("Alice"), ch("Bob")),
            entry("Bob", MessageContent::Roll(vec!["1d2".into()], vec![1], 1)),
        ))],
        vec![],
    );
}

#[test]
fn dispatch_bridge_events() {
    row(r#"RTB {"type":"trackadd","name":"Bob"}"#, &["add_bookmark Bob"], vec![notify(Notification::UpdatedBookmarks)], vec![]);
    row(r#"RTB {"type":"trackrem","name":"Bob"}"#, &["remove_bookmark Bob"], vec![notify(Notification::UpdatedBookmarks)], vec![]);
    row(r#"RTB {"type":"friendadd","name":"Bob"}"#, &[], vec![Effect::SyncFriendsBookmarks], vec![Effect::SyncFriendsBookmarks]);
    row(r#"RTB {"type":"friendremove","name":"Bob"}"#, &[], vec![Effect::SyncFriendsBookmarks], vec![Effect::SyncFriendsBookmarks]);
    row(r#"RTB {"type":"friendrequest","name":"Bob"}"#, &[], vec![], vec![]);
}

#[test]
fn dispatch_leaves_the_rest_alone() {
    for frame in [
        r#"FRL {"characters":["A"]}"#,
        r#"PRD {"type":"end"}"#,
        r#"KID {"type":"end","message":"m","key":[],"value":[]}"#,
        r#"UPT {"time":1,"starttime":2,"startstring":"s","accepted":3,"channels":4,"users":5,"maxusers":6}"#,
        r#"FKS {"characters":[],"kinks":[]}"#,
        r#"CBU {"operator":"Op","channel":"Frontpage","character":"Bob"}"#,
        r#"CKU {"operator":"Op","channel":"Frontpage","character":"Bob"}"#,
        r#"CTU {"channel":"Frontpage","character":"Bob","length":10,"operator":"Op"}"#,
        r#"SFC {"action":"report","moderator":"Mod","character":"Bob","timestamp":"t","callid":1,"report":"r","logid":2}"#,
        r#"CSO {"character":"Bob","channel":"Frontpage"}"#,
        r#"IGN {"action":"add","character":"A"}"#,
    ] {
        row(frame, &[], vec![], vec![]);
    }
}

#[test]
fn no_cache_reports_every_change() {
    let command = parse_command(r#"LIS {"characters":[["A","Female","online",""],["B","Male","busy","AFK"]]}"#).unwrap();
    let Dispatched { effects, answers } = dispatch_command(&NoCache, ch("Alice"), NOW, command);
    assert_eq!(answers, vec![true, true]);
    assert_eq!(
        effects,
        vec![
            notify(Notification::RawCommand),
            notify(Notification::UpdatedCharacter(ch("A"))),
            notify(Notification::UpdatedCharacter(ch("B"))),
        ]
    );
    let cache = NoCache;
    assert!(cache.insert_ad(&room("a"), &ch("b"), "c"));
    assert!(cache.update_channel(&room("a"), &PartialChannelData::default()));
    assert!(cache.update_character(&ch("a"), &PartialUserData::default()));
    assert!(cache.set_friends(&Vec::new()));
    assert!(cache.set_bookmarks(&Vec::new()));
    assert!(cache.set_channel_members(&room("a"), &Vec::new()));
    assert!(cache.add_channel_member(&room("a"), ch("b")));
    assert!(cache.remove_channel_member(&room("a"), ch("b")));
    assert_eq!(cache.get_channel(&room("a")), None);
    assert_eq!(cache.get_character(&ch("a")), None);
    assert!(cache.get_channels().is_empty());
    assert!(cache.get_characters().is_empty());
    assert!(cache.get_messages(&MessageChannel::Channel(room("a")), None, Some(5)).is_empty());
    assert!(cache.get_friend_relations().is_empty());
    assert!(cache.get_friends().is_empty());
    assert!(cache.get_bookmarks().is_empty());
}

#[test]
fn friends_are_the_other_side() {
    assert_eq!(Script::new(&[]).get_friends(), vec![ch("Bob"), ch("Carol")]);
    assert_eq!(friends(&Vec::new()), Vec::<Character>::new());
}

#[test]
fn mutation_data() {
    let m = Mutation::OfficialChannel(room("Frontpage"), ChannelMode::ChatOnly);
    assert_eq!(
        m.channel_data(),
        Some(PartialChannelData { mode: Some(ChannelMode::ChatOnly), title: Some("Frontpage".into()), description: None })
    );
    assert_eq!(m.character_data(), None);
    let m = Mutation::CharacterPresence(ch("A"), Gender::Herm, Status::Away, "brb".into());
    assert_eq!(
        m.character_data(),
        Some(PartialUserData { gender: Some(Gender::Herm), status: Some(Status::Away), status_message: Some("brb".into()) })
    );
    assert_eq!(m.channel_data(), None);
    assert_eq!(m.into_notification(), Notification::UpdatedCharacter(ch("A")));
    assert_eq!(Mutation::AddBookmark(ch("A")).channel_data(), None);
}

fn response() -> ApiTicketResponse {
    ApiTicketResponse {
        bookmarks: vec![Bookmark { name: ch("Bookmarked") }],
        characters: vec![(ch("Alt"), CharacterId(7)), (ch("Alice"), CharacterId(12)), (ch("Twin"), CharacterId(12))],
        default_character: CharacterId(12),
        friends: vec![Friend { dest: ch("Alice"), last_online: 60, source: ch("Bob") }],
        ticket: "fresh".into(),
    }
}

fn client_with<C: Cache>(cache: C) -> Client<C> {
    ClientBuilder::new()
        .with_cache(cache)
        .with_version("tester".into(), "9.9".into())
        .init("user".into(), "secret".into(), response(), 100)
        .expect("the default character exists")
}

#[test]
fn builder_and_init() {
    let builder = ClientBuilder::new();
    assert_eq!(builder.client_name, "f-chat-rs");
    assert_eq!(builder.client_version, "0.1");
    let client = client_with(Script::new(&[true, true]));
    assert_eq!(client.client_name, "tester");
    assert_eq!(client.client_version, "9.9");
    assert_eq!(client.username, "user");
    assert_eq!(client.password, "secret");
    assert_eq!(client.default_character, ch("Alice"));
    assert_eq!(client.default_character.as_str(), "Alice");
    assert_eq!(client.own_characters, vec![ch("Alt"), ch("Alice"), ch("Twin")]);
    assert_eq!(client.token.ticket, "fresh");
    assert_eq!(client.token.last_updated, 100);
    assert_eq!(client.get_sessions().len(), 0);
    assert_eq!(client.cache.asked(), vec!["set_bookmarks [Bookmarked]", "set_friends [Alice>Bob]"]);
}

#[test]
fn init_without_default_character() {
    let mut r = response();
    r.default_character = CharacterId(99);
    match ClientBuilder::new().init("user".into(), "secret".into(), r, 0) {
        Err(error) => {
            assert_eq!(error, ClientError::NoDefaultCharacter);
            assert_eq!(error.message(), "Default character doesn't exist or is invalid");
        }
        Ok(_) => panic!("a client without a default character"),
    }
    let mut r = response();
    r.characters.clear();
    assert!(ClientBuilder::new().init("user".into(), "secret".into(), r, 0).is_err());
    // the cache is asked nothing where the build fails
    let mut r = response();
    r.default_character = CharacterId(99);
    let cache = Script::new(&[]);
    let log = cache.log();
    assert!(ClientBuilder::new().with_cache(cache).init("user".into(), "secret".into(), r, 0).is_err());
    assert!(log.borrow().is_empty());
}

#[test]
fn client_error_messages() {
    assert_eq!(ClientError::RequestError("x".into()).message(), "Error from HTTP Request");
    assert_eq!(ClientError::WebsocketError("x".into()).message(), "Error from Websocket (Tungstenite)");
    assert_eq!(ClientError::SessionError(SessionError::LateVarCommand).message(), "Error from Session implementation");
    assert_eq!(ClientError::from(SessionError::LateVarCommand), ClientError::SessionError(SessionError::LateVarCommand));
}

#[test]
fn ticket_freshness() {
    assert_eq!(FRESH_SECONDS, 25 * 60);
    let mut token = Token::new("t".into(), 1000);
    assert!(!token.expired(1000));
    assert!(!token.expired(999));
    assert!(!token.expired(0));
    assert!(!token.expired(1000 + 1499));
    assert!(!token.expired(1000 + 1500));
    assert!(token.expired(1000 + 1501));
    assert!(token.expired(u64::MAX));
    token.update("u".into(), 5000);
    assert_eq!(token.ticket, "u");
    assert_eq!(token.last_updated, 5000);
    assert!(!token.expired(6500));
    assert!(token.expired(6501));
    let zero = Token::zero(3);
    assert_eq!(zero.ticket, "NONE");
    assert_eq!(zero.last_updated, 3);
    let late = Token::new("t".into(), u64::MAX);
    assert!(!late.expired(u64::MAX));
}

#[test]
fn refresh_policy() {
    let mut client = client_with(NoCache);
    assert!(!client.refresh_fast(100 + 1500));
    assert!(client.refresh_fast(100 + 1501));
    client.refresh("newer".into(), 2000);
    assert_eq!(client.token.ticket, "newer");
    assert!(!client.refresh_fast(3500));
    assert!(client.refresh_fast(3501));
    // connecting takes a ticket that was fetched for it
    let (handshake, identify) = client.connect(ch("Alice"), "newest".into(), 4000);
    assert_eq!(client.token.ticket, "newest");
    assert_eq!(client.token.last_updated, 4000);
    assert_eq!(handshake.state, HandshakeState::Identifying);
    assert_eq!(handshake.character, ch("Alice"));
    assert_eq!(
        identify,
        ClientCommand::Identify {
            method: IdentifyMethod::Ticket,
            account: "user".into(),
            ticket: "newest".into(),
            character: ch("Alice"),
            client_name: "tester".into(),
            client_version: "9.9".into(),
        }
    );
}

/// Takes the steps of a plan one after the other, as a driver does, and
/// gathers what each leaves to be done.
fn walk<C: Cache>(client: &Client<C>, steps: Vec<Step>) -> Dispatched {
    let mut all = Dispatched { effects: Vec::new(), answers: Vec::new() };
    for step in steps {
        let Dispatched { effects, answers } = client.step(step);
        all.effects.extend(effects);
        all.answers.extend(answers);
    }
    all
}

/// What came of a frame, with the plan taken step by step.
fn walked<C: Cache>(client: &Client<C>, received: Received) -> Result<Dispatched, Received> {
    match received {
        Received::Plan(steps) => Ok(walk(client, steps)),
        other => Err(other),
    }
}

/// Takes a frame for the session of a character and walks the plan that
/// comes of it.
fn take<C: Cache>(client: &mut Client<C>, character: &Character, frame: &str) -> Result<Dispatched, Received> {
    let got = client.receive(character, parse_command(frame), NOW);
    walked(client, got)
}

fn session_of(name: &str) -> Session {
    Session::new(ch(name), Variables::default())
}

fn characters<C: Cache>(client: &Client<C>) -> Vec<String> {
    client.get_sessions().iter().map(|s| s.character.as_str().to_owned()).collect()
}

#[test]
fn sessions_are_one_for_each_character() {
    let mut client = client_with(NoCache);
    client.connected(session_of("Alice"));
    client.connected(session_of("Alt"));
    client.connected(session_of("Twin"));
    assert_eq!(characters(&client), vec!["Alice", "Alt", "Twin"]);
    // a second session of a character takes the place of the first, at the end
    client.connected(session_of("ALICE"));
    assert_eq!(characters(&client), vec!["Alt", "Twin", "ALICE"]);
    assert_eq!(client.get_session(&ch("alice")).map(|s| s.character.as_str()), Some("ALICE"));
    assert!(client.get_session(&ch("Nobody")).is_none());
    assert!(client.drop_session(&ch("twin")));
    assert!(!client.drop_session(&ch("twin")));
    assert_eq!(characters(&client), vec!["Alt", "ALICE"]);
}

#[test]
fn session_list() {
    let mut list = SessionList::new();
    assert_eq!(list.len(), 0);
    list.push(session_of("A"));
    list.push(session_of("B"));
    assert_eq!(list.position(&ch("b")), Some(1));
    assert_eq!(list.position(&ch("c")), None);
    let taken = list.take(&ch("a")).expect("A has a session");
    assert_eq!(taken.character, ch("A"));
    assert!(list.take(&ch("a")).is_none());
    assert_eq!(list.len(), 1);
    assert!(list.handle(&ch("zed"), Ok(ServerCommand::Ping)).is_none());
    assert_eq!(
        list.handle(&ch("B"), Ok(ServerCommand::Ping)),
        Some(f_chat_rs::session::FrameOutcome::Reply(ClientCommand::Pong))
    );
}

#[test]
fn receive_takes_frames_for_a_session() {
    let mut client = client_with(Script::new(&[true, true, true, true, true]));
    client.connected(session_of("Alice"));
    client.connected(session_of("Alt"));
    let alice = ch("Alice");

    assert_eq!(take(&mut client, &ch("Nobody"), "PIN"), Err(Received::NoSession));
    assert_eq!(take(&mut client, &alice, "PIN"), Err(Received::Reply(ClientCommand::Pong)));
    assert_eq!(take(&mut client, &alice, r#"HLO {"message":"hi"}"#), Err(Received::Nothing));
    assert_eq!(
        take(&mut client, &alice, "XYZ"),
        Err(Received::Skipped(CodecError::UnknownCommand("XYZ".into())))
    );
    assert_eq!(
        client.receive(&alice, parse_command(r#"VAR {"variable":"chat_max","value":1}"#), NOW),
        Received::Plan(vec![Step::Notify(Notification::SessionError(SessionError::LateVarCommand))])
    );
    // nothing of that reached the cache
    assert_eq!(client.cache.asked().len(), 2);

    // the session has taken the command in when the plan is handed out, and
    // the cache is asked nothing before the steps are taken
    let got = client.receive(
        &alice,
        parse_command(r#"JCH {"channel":"Frontpage","character":{"identity":"Alice"},"title":"Front"}"#),
        NOW,
    );
    assert!(client.get_session(&alice).unwrap().channels.contains(&room("frontpage")));
    assert_eq!(client.cache.asked().len(), 2);
    assert_eq!(
        got,
        Received::Plan(vec![
            Step::Notify(Notification::RawCommand),
            Step::MutateBoth(
                Mutation::ChannelTitle(room("Frontpage"), "Front".into()),
                Mutation::AddChannelMember(room("Frontpage"), ch("Alice")),
            ),
            Step::Notify(Notification::UpdatedSessionChannels),
        ])
    );
    assert_eq!(
        walked(&client, got),
        Ok(Dispatched {
            effects: vec![
                notify(Notification::RawCommand),
                notify(Notification::UpdatedChannel(room("Frontpage"))),
                notify(Notification::UpdatedSessionChannels),
            ],
            answers: vec![true, true],
        })
    );
    assert_eq!(client.cache.asked().len(), 4);
    assert_eq!(client.get_session(&ch("Alt")).unwrap().channels.len(), 0);
    assert_eq!(characters(&client), vec!["Alice", "Alt"]);

    // typing: told when it changes, not when it repeats
    let typing = r#"TPN {"character":"Bob","status":"typing"}"#;
    let told = || {
        Ok(Dispatched {
            effects: vec![notify(Notification::RawCommand), notify(Notification::Typing(ch("Bob"), TypingStatus::Typing))],
            answers: vec![],
        })
    };
    assert_eq!(take(&mut client, &alice, typing), told());
    assert_eq!(take(&mut client, &alice, typing), Err(Received::Nothing));
    assert_eq!(
        take(&mut client, &alice, r#"TPN {"character":"Bob","status":"clear"}"#),
        Ok(Dispatched {
            effects: vec![notify(Notification::RawCommand), notify(Notification::Typing(ch("Bob"), TypingStatus::Clear))],
            answers: vec![],
        })
    );
    // another session keeps its own record
    assert_eq!(take(&mut client, &ch("Alt"), typing), told());
}

#[test]
fn raw_command_comes_before_the_cache_is_asked() {
    let mut client = client_with(Script::new(&[true, true, true, false, true]));
    client.connected(session_of("Alice"));
    let seeded = client.cache.asked().len();
    let frame = r#"ORS {"channels":[{"name":"ADH-abc","characters":0,"title":"Den"},{"name":"ADH-def","characters":2,"title":"Lair"}]}"#;
    let steps = match client.receive(&ch("Alice"), parse_command(frame), NOW) {
        Received::Plan(steps) => steps,
        other => panic!("{:?}", other),
    };
    // what the listener hears and what the cache is asked, in the order in which a driver does both
    let mut story: Vec<String> = Vec::new();
    for step in steps {
        let before = client.cache.asked().len();
        let done = client.step(step);
        for asked in &client.cache.asked()[before..] {
            story.push(format!("cache: {}", asked.split(' ').next().unwrap()));
        }
        for effect in done.effects {
            story.push(format!("listener: {:?}", effect));
        }
    }
    assert_eq!(
        story,
        vec![
            "listener: Notify(RawCommand)".to_owned(),
            "cache: update_channel".to_owned(),
            format!("listener: {:?}", notify(Notification::UpdatedChannel(room("ADH-abc")))),
            "cache: update_channel".to_owned(),
            "cache: set_unofficial_channels".to_owned(),
            "listener: Notify(UpdatedChannelLists)".to_owned(),
        ]
    );
    assert_eq!(client.cache.asked().len(), seeded + 3);
}

#[test]
fn plans() {
    assert_eq!(
        plan(ch("Alice"), NOW, ServerCommand::GlobalOpped { character: ch("Bob") }),
        vec![Step::Notify(Notification::RawCommand), Step::Mutate(Mutation::AddGlobalOp(ch("Bob")))]
    );
    assert_eq!(
        plan(ch("Alice"), NOW, ServerCommand::Invited { sender: ch("Bob"), title: "Den".into(), name: room("ADH-abc") }),
        vec![
            Step::Notify(Notification::RawCommand),
            Step::Mutate(Mutation::ChannelTitle(room("ADH-abc"), "Den".into())),
            Step::Notify(Notification::Invited(room("ADH-abc"), ch("Bob"))),
        ]
    );
    assert_eq!(
        plan(ch("Alice"), 7, ServerCommand::PrivateMessage { character: ch("Bob"), message: "psst".into() }),
        vec![
            Step::Notify(Notification::RawCommand),
            Step::Mutate(Mutation::InsertMessage(
                MessageChannel::PrivateMessage(ch("Alice"), ch("Bob")),
                Message { timestamp: 7, character: ch("Bob"), content: MessageContent::Message("psst".into()) },
            )),
        ]
    );
    assert_eq!(
        plan(ch("Alice"), NOW, ServerCommand::Friends { characters: vec![ch("Bob")] }),
        vec![Step::Notify(Notification::RawCommand)]
    );
    // one step at a time
    let cache = Script::new(&[false, true]);
    let both = Step::MutateBoth(
        Mutation::ChannelTitle(room("Frontpage"), "Front".into()),
        Mutation::AddChannelMember(room("Frontpage"), ch("Bob")),
    );
    let done = both.run(&cache);
    assert_eq!(done.answers, vec![false, true]);
    assert_eq!(done.effects, vec![notify(Notification::UpdatedChannel(room("Frontpage")))]);
    assert_eq!(cache.asked().len(), 2);
    assert_eq!(Step::Sync.run(&cache).effects, vec![Effect::SyncFriendsBookmarks]);
    assert_eq!(Step::Reconnect.run(&cache).effects, vec![Effect::Reconnect]);
    assert_eq!(Step::Close.run(&cache).effects, vec![Effect::Close]);
    assert_eq!(cache.asked().len(), 2);
    // a whole plan at once
    let cache = Script::new(&[true]);
    let done = run_plan(&cache, plan(ch("Alice"), NOW, ServerCommand::GlobalDeopped { character: ch("Bob") }));
    assert_eq!(done.answers, vec![true]);
    assert_eq!(done.effects, vec![notify(Notification::RawCommand), notify(Notification::UpdatedGlobalOps)]);
    assert_eq!(cache.asked(), vec!["remove_global_op Bob"]);
}

#[test]
fn fatal_close_disconnects_once() {
    let mut client = client_with(NoCache);
    client.connected(session_of("Alice"));
    client.connected(session_of("Alt"));
    client.receive(&ch("Alice"), parse_command(r#"ERR {"number":31,"message":"elsewhere"}"#), NOW);
    let steps = client.closed(&ch("Alice"), NOW).expect("Alice has a session");
    // the session is gone before the listener hears of anything
    assert_eq!(characters(&client), vec!["Alt"]);
    let Dispatched { effects, answers } = walk(&client, steps);
    assert!(answers.is_empty());
    assert_eq!(
        effects,
        vec![
            Effect::Close,
            notify(Notification::SessionDisconnected(ProtocolError::AnotherConnection)),
            notify(Notification::SessionsUpdated),
        ]
    );
    let disconnects = effects.iter().filter(|e| matches!(e, Effect::Notify(Notification::SessionDisconnected(_)))).count();
    assert_eq!(disconnects, 1);
    let first_update = effects.iter().position(|e| *e == notify(Notification::SessionsUpdated)).unwrap();
    let disconnect = effects.iter().position(|e| matches!(e, Effect::Notify(Notification::SessionDisconnected(_)))).unwrap();
    assert!(disconnect < first_update);
    // the session is gone when the listener hears of it
    assert_eq!(characters(&client), vec!["Alt"]);
    assert!(client.closed(&ch("Alice"), NOW).is_none());
}

#[test]
fn plain_close_reconnects() {
    let mut client = client_with(NoCache);
    let mut old = session_of("Alice");
    old.handle_command(&ServerCommand::JoinedChannel {
        channel: room("Frontpage"),
        character: CharacterIdentity { identity: ch("Alice") },
        title: "Front".into(),
    })
    .unwrap();
    client.connected(old);
    let steps = client.closed(&ch("Alice"), NOW).unwrap();
    assert_eq!(steps, vec![Step::Reconnect]);
    let Dispatched { effects, .. } = walk(&client, steps);
    assert_eq!(effects, vec![Effect::Reconnect]);
    assert_eq!(characters(&client), vec!["Alice"]);

    let (handshake, identify) = client.reconnect(&ch("alice")).expect("Alice has a session");
    assert_eq!(handshake.rejoin, vec![room("Frontpage")]);
    assert_eq!(handshake.character, ch("Alice"));
    match identify {
        ClientCommand::Identify { account, ticket, character, client_name, client_version, method } => {
            assert_eq!((account.as_str(), ticket.as_str()), ("user", "fresh"));
            assert_eq!((client_name.as_str(), client_version.as_str()), ("tester", "9.9"));
            assert_eq!(character, ch("Alice"));
            assert_eq!(method, IdentifyMethod::Ticket);
        }
        other => panic!("{:?}", other),
    }
    assert!(client.reconnect(&ch("Nobody")).is_none());

    // the new session takes the place of the old
    let effects = client.reconnected(ch("Alice"), Ok(session_of("Alice")));
    assert_eq!(effects, vec![notify(Notification::SessionsUpdated)]);
    assert_eq!(characters(&client), vec!["Alice"]);
    assert_eq!(client.get_session(&ch("Alice")).unwrap().channels.len(), 0);

    // a failed reconnect leaves no session
    let effects = client.reconnected(ch("Alice"), Err(SessionError::MiscConnectionFailure));
    assert_eq!(
        effects,
        vec![notify(Notification::SessionError(SessionError::MiscConnectionFailure)), notify(Notification::SessionsUpdated)]
    );
    assert!(characters(&client).is_empty());
}

#[test]
fn dispatch_of_session_events() {
    let mut client = client_with(NoCache);
    client.connected(session_of("Alice"));
    let event = |event| Event { session: ch("Alice"), event };
    let steps = client.dispatch(event(SessionEvent::Error(SessionError::LateIdentifyCommand)), NOW);
    let d = walk(&client, steps);
    assert_eq!(d.effects, vec![notify(Notification::SessionError(SessionError::LateIdentifyCommand))]);
    assert_eq!(characters(&client), vec!["Alice"]);
    let steps = client.dispatch(event(SessionEvent::Reconnect), NOW);
    let d = walk(&client, steps);
    assert_eq!(d.effects, vec![Effect::Reconnect]);
    assert_eq!(characters(&client), vec!["Alice"]);
    let steps = client.dispatch(event(SessionEvent::Command(ServerCommand::Connected { count: 1 })), NOW);
    let d = walk(&client, steps);
    assert_eq!(d.effects, vec![notify(Notification::RawCommand), notify(Notification::Ready)]);
    // an error of the transport costs the session
    let steps = client.dispatch(event(SessionEvent::Error(SessionError::WebsocketError("reset".into()))), NOW);
    let d = walk(&client, steps);
    assert_eq!(
        d.effects,
        vec![Effect::Close, notify(Notification::SessionError(SessionError::WebsocketError("reset".into())))]
    );
    assert!(characters(&client).is_empty());
}

#[test]
fn sync_friends_bookmarks() {
    let fetched = || FriendListResponse {
        bookmarks: vec![ch("Bookmarked"), ch("Other")],
        friends: vec![
            Friend { dest: ch("Alice"), last_online: 0, source: ch("Bob") },
            Friend { dest: ch("Alt"), last_online: 5, source: ch("Carol") },
        ],
        pending_incoming: vec![FriendRequest { dest: ch("Alice"), id: 1, source: ch("Dan") }],
        pending_outgoing: vec![],
    };
    for (answers, expected) in [
        ([true, true], vec![notify(Notification::UpdatedBookmarks), notify(Notification::UpdatedFriends)]),
        ([true, false], vec![notify(Notification::UpdatedBookmarks)]),
        ([false, true], vec![notify(Notification::UpdatedFriends)]),
        ([false, false], vec![]),
    ] {
        // the first two answers go to the seeding of the cache when the client is built
        let client = client_with(Script::new(&[true, true, answers[0], answers[1]]));
        let d = client.sync_friends_bookmarks(fetched());
        assert_eq!(d.answers, answers);
        assert_eq!(d.effects, expected);
        assert_eq!(
            client.cache.asked()[2..],
            ["set_bookmarks [Bookmarked,Other]".to_owned(), "set_friends [Alice>Bob,Alt>Carol]".to_owned()]
        );
    }
}

#[test]
fn forms() {
    let pairs = |form: Vec<(String, String)>| -> Vec<(String, String)> { form };
    assert_eq!(
        pairs(get_api_ticket("user", "secret", true)),
        vec![
            ("account".to_owned(), "user".to_owned()),
            ("password".to_owned(), "secret".to_owned()),
            ("no_characters".to_owned(), "false".to_owned()),
            ("no_friends".to_owned(), "false".to_owned()),
            ("no_bookmarks".to_owned(), "false".to_owned()),
            ("new_character_list".to_owned(), "true".to_owned()),
        ]
    );
    assert_eq!(
        pairs(get_api_ticket("user", "secret", false)),
        vec![
            ("account".to_owned(), "user".to_owned()),
            ("password".to_owned(), "secret".to_owned()),
            ("no_characters".to_owned(), "true".to_owned()),
            ("no_friends".to_owned(), "true".to_owned()),
            ("no_bookmarks".to_owned(), "true".to_owned()),
            ("new_character_list".to_owned(), "false".to_owned()),
        ]
    );
    assert_eq!(
        pairs(get_friends_list("ticket", "user")),
        vec![
            ("account".to_owned(), "user".to_owned()),
            ("ticket".to_owned(), "ticket".to_owned()),
            ("bookmarklist".to_owned(), "true".to_owned()),
            ("friendlist".to_owned(), "true".to_owned()),
            ("requestlist".to_owned(), "true".to_owned()),
            ("requestpending".to_owned(), "true".to_owned()),
        ]
    );
    assert_eq!(API_TICKET_URL, "https://www.f-list.net/json/getApiTicket.php");
    assert_eq!(FRIEND_LIST_URL, "https://www.f-list.net/json/api/friend-bookmark-lists.php");
    assert_eq!(
        relations(&vec![Friend { dest: ch("Alice"), last_online: 0, source: ch("Bob") }]),
        vec![FriendRelation { own_character: ch("Alice"), other_character: ch("Bob") }]
    );
    assert_eq!(bookmark_names(&vec![Bookmark { name: ch("A") }, Bookmark { name: ch("B") }]), vec![ch("A"), ch("B")]);
}

#[test]
fn target_of_a_roll() {
    // the private exchange of a roll is that of the recipient with the roller
    let cache = Script::new(&[true]);
    let command = ServerCommand::Roll {
        target: Target::Character { recipient: ch("Carol") },
        results: vec![],
        response_type: "bottle".into(),
        rolls: vec![],
        character: ch("Bob"),
        endresult: 0,
        message: String::new(),
    };
    dispatch_command(&cache, ch("Alice"), 5, command);
    assert_eq!(cache.asked(), vec![r#"insert_message "Carol<>Bob" "Bob@5: Roll([], [], 0)""#]);
    let _ = (BridgeEvent::FriendAdd, ChannelInfo { name: room("a"), characters: 0, title: String::new() });
    let _ = (FlatCharacterData(ch("a"), Gender::Male, Status::Online, String::new()), OfficialChannelInfo { name: room("a"), mode: ChannelMode::Both, characters: 0 });
}

#[test]
fn frames_are_taken_in_the_order_of_their_arrival() {
    let mut client = client_with(NoCache);
    client.connected(session_of("Alice"));
    let frames = [
        r#"JCH {"channel":"Frontpage","character":{"identity":"Alice"},"title":"Front"}"#,
        r#"MSG {"channel":"Frontpage","message":"one","character":"Bob"}"#,
        "PIN",
        r#"MSG {"channel":"Frontpage","message":"two","character":"Bob"}"#,
        r#"LCH {"channel":"Frontpage","character":"Alice"}"#,
    ];
    let mut heard: Vec<String> = Vec::new();
    for frame in frames {
        match take(&mut client, &ch("Alice"), frame) {
            Ok(d) => {
                for effect in d.effects {
                    match effect {
                        Effect::Notify(Notification::Message(_, message)) => heard.push(format!("{:?}", message.content)),
                        Effect::Notify(Notification::UpdatedSessionChannels) => {
                            heard.push(format!("rooms {}", client.get_session(&ch("Alice")).unwrap().channels.len()))
                        }
                        _ => {}
                    }
                }
            }
            Err(Received::Reply(command)) => heard.push(format!("{:?}", command)),
            other => panic!("{:?}", other),
        }
    }
    assert_eq!(heard, vec!["rooms 1", r#"Message("one")"#, "Pong", r#"Message("two")"#, "rooms 0"]);
}
