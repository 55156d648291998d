use f_chat_rs::data::{
    Channel, ChannelMode, ChannelStatus, Character, FurryPreference, Gender, Language, Orientation,
    Role, Status, TypingStatus,
};
use f_chat_rs::protocol::{
    decode_command, parse_command, prepare_command, BridgeEvent, ChannelInfo, CharacterIdentity,
    ClientCommand, CodecError, Decimal, FlatCharacterData, IdentifyMethod, IgnoreAction, KinkId,
    KinkResponsePart, OfficialChannelInfo, ProfileDataPart, ProtocolError, ReportAction,
    ServerCommand, Target, Variable,
};
use f_chat_rs::util::{StringBool, StringInteger};
use f_chat_rs::wire::{read_named, WireName};
use serde_json::{from_str, to_string, Value};

fn ch(name: &str) -> Character {
    Character::new(name)
}

fn room(name: &str) -> Channel {
    Channel::new(name)
}

fn json(text: &str) -> Value {
    from_str::<Value>(text).expect("test input is JSON")
}

#[test]
fn server_command_deserialize() {
    // Taken straight from the Server Commands raw samples
    assert_eq!(
        parse_command(r#"LIS {"characters": [["Alexandrea", "Female", "online", ""], ["Fa Mulan", "Female", "busy", "Away, check out my new alt Aya Kinjou!"], ["Adorkable Lexi", "Female", "online", ""], ["Melfice Cyrum", "Male", "online", ""], ["Jenasys Stryphe", "Female", "online", ""], ["Cassie Hazel", "Herm", "looking", ""], ["Viol", "Cunt-boy", "looking", ""]]}"#),
        Ok(ServerCommand::ListOnline {
            characters: vec![
                FlatCharacterData(ch("Alexandrea"), Gender::Female, Status::Online, "".to_owned()),
                FlatCharacterData(ch("Fa Mulan"), Gender::Female, Status::Busy, "Away, check out my new alt Aya Kinjou!".to_owned()),
                FlatCharacterData(ch("Adorkable Lexi"), Gender::Female, Status::Online, "".to_owned()),
                FlatCharacterData(ch("Melfice Cyrum"), Gender::Male, Status::Online, "".to_owned()),
                FlatCharacterData(ch("Jenasys Stryphe"), Gender::Female, Status::Online, "".to_owned()),
                FlatCharacterData(ch("Cassie Hazel"), Gender::Herm, Status::Looking, "".to_owned()),
                FlatCharacterData(ch("Viol"), Gender::CBoy, Status::Looking, "".to_owned()),
            ]
        })
    )
}

#[test]
fn client_command_serialize() {
    assert_eq!(
        r#"FKS {"furryprefs":["Furs and / or humans","Humans ok, Furries Preferred","No humans, just furry characters"],"genders":["Male","Male-Herm"],"kinks":["523","66"],"languages":["Dutch"],"orientations":["Gay","Bi - male preference","Bisexual"],"roles":["Always dominant","Usually dominant"]}"#,
        prepare_command(&ClientCommand::Search {
            kinks: vec![KinkId(523), KinkId(66)],
            genders: vec![Gender::Male, Gender::MaleHerm],
            orientations: vec![Orientation::Gay, Orientation::BiMalePref, Orientation::Bisexual],
            languages: vec![Language::Dutch],
            furryprefs: vec![FurryPreference::Both, FurryPreference::FurryPref, FurryPreference::FurryOnly],
            roles: vec![Role::AlwaysDom, Role::UsuallyDom]
        })
    )
}

#[test]
fn test_kink_serde() {
    assert_eq!(r#""621""#, to_string(&KinkId(621).to_value()).expect("Failed to serialize"));
    assert_eq!(KinkId(621), KinkId::read(&json(r#""621""#)).expect("Failed to deserialize from string"));
    assert_eq!(KinkId(621), KinkId::read(&json("621")).expect("Failed to deserialize from number"));
}

#[test]
fn test_string_bool() {
    assert_eq!(r#""true""#, to_string(&StringBool(true).to_value()).expect("Failed to serialize 'true'"));
    assert_eq!(r#""false""#, to_string(&StringBool(false).to_value()).expect("Failed to serialize 'false'"));
    assert_eq!(StringBool(true), StringBool::read(&json("true")).expect("Failed to deserialize from bool"));
    assert_eq!(StringBool(true), StringBool::read(&json(r#""true""#)).expect("Failed to deserialize from string"));
}

#[test]
fn test_string_integer() {
    assert_eq!(r#""621""#, to_string(&StringInteger(621).to_value()).expect("Failed to serialize '621'"));
    assert_eq!(StringInteger(621), StringInteger::read(&json("621")).expect("Failed to deserialize from number"));
    assert_eq!(StringInteger(621), StringInteger::read(&json(r#""621""#)).expect("Failed to deserialize from string"));
}

#[test]
fn string_bool_rejects_other_values() {
    assert_eq!(StringBool::read(&json(r#""yes""#)), None);
    assert_eq!(StringBool::read(&json("1")), None);
    assert_eq!(StringBool::read(&json("null")), None);
    assert_eq!(StringBool::read(&json("false")), Some(StringBool(false)));
    assert_eq!(StringBool::read(&json(r#""false""#)), Some(StringBool(false)));
}

#[test]
fn string_integer_edges() {
    assert_eq!(StringInteger::read(&json(r#""18446744073709551615""#)), Some(StringInteger(u64::MAX)));
    assert_eq!(StringInteger::read(&json(r#""18446744073709551616""#)), None);
    assert_eq!(StringInteger::read(&json("18446744073709551615")), Some(StringInteger(u64::MAX)));
    assert_eq!(StringInteger::read(&json(r#""+7""#)), Some(StringInteger(7)));
    assert_eq!(StringInteger::read(&json(r#""007""#)), Some(StringInteger(7)));
    assert_eq!(StringInteger::read(&json(r#""""#)), None);
    assert_eq!(StringInteger::read(&json(r#""+""#)), None);
    assert_eq!(StringInteger::read(&json(r#""-7""#)), None);
    assert_eq!(StringInteger::read(&json(r#"" 7""#)), None);
    assert_eq!(StringInteger::read(&json("-7")), None);
    assert_eq!(StringInteger::read(&json("7.5")), None);
    assert_eq!(to_string(&StringInteger(0).to_value()).unwrap(), r#""0""#);
    assert_eq!(to_string(&StringInteger(u64::MAX).to_value()).unwrap(), r#""18446744073709551615""#);
}

#[test]
fn kink_id_out_of_range() {
    assert_eq!(KinkId::read(&json("4294967295")), Some(KinkId(u32::MAX)));
    assert_eq!(KinkId::read(&json("4294967296")), None);
    assert_eq!(KinkId::read(&json(r#""4294967296""#)), None);
    assert_eq!(KinkId::read(&json(r#""x""#)), None);
}

#[test]
fn frames_without_body_are_the_tag_alone() {
    assert_eq!(prepare_command(&ClientCommand::Pong), "PIN");
    assert_eq!(prepare_command(&ClientCommand::Uptime), "UPT");
    assert_eq!(prepare_command(&ClientCommand::GlobalChannels), "CHA");
    assert_eq!(prepare_command(&ClientCommand::Channels), "ORS");
}

#[test]
fn identify_frame() {
    let frame = prepare_command(&ClientCommand::Identify {
        method: IdentifyMethod::Ticket,
        account: "user".to_owned(),
        ticket: "abc".to_owned(),
        character: ch("Alice"),
        client_name: "f-chat-rs".to_owned(),
        client_version: "0.1".to_owned(),
    });
    assert_eq!(
        frame,
        r#"IDN {"account":"user","character":"Alice","cname":"f-chat-rs","cversion":"0.1","method":"ticket","ticket":"abc"}"#
    );
    assert_eq!(
        json(&frame[4..]),
        json(r#"{"method":"ticket","account":"user","ticket":"abc","character":"Alice","cname":"f-chat-rs","cversion":"0.1"}"#)
    );
}

#[test]
fn client_frames() {
    let cases: Vec<(ClientCommand, &str)> = vec![
        (ClientCommand::GlobalBan { character: ch("Bob") }, r#"ACB {"character":"Bob"}"#),
        (ClientCommand::GlobalOp { character: ch("Bob") }, r#"AOP {"character":"Bob"}"#),
        (ClientCommand::GlobalCreateChannel { name: "Lobby".to_owned() }, r#"CRC {"name":"Lobby"}"#),
        (ClientCommand::GlobalDeop { character: ch("Bob") }, r#"DOP {"character":"Bob"}"#),
        (ClientCommand::Alts { character: ch("Bob") }, r#"AWC {"character":"Bob"}"#),
        (ClientCommand::Broadcast { message: "hi".to_owned() }, r#"BRO {"message":"hi"}"#),
        (ClientCommand::Banlist { channel: room("Frontpage") }, r#"CBL {"channel":"Frontpage"}"#),
        (ClientCommand::Ban { channel: room("Frontpage"), character: ch("Bob") }, r#"CBU {"channel":"Frontpage","character":"Bob"}"#),
        (ClientCommand::Op { channel: room("Frontpage"), character: ch("Bob") }, r#"COA {"channel":"Frontpage","character":"Bob"}"#),
        (ClientCommand::CreateChannel { name: "Den".to_owned() }, r#"CCR {"name":"Den"}"#),
        (ClientCommand::ChangeDescription { channel: room("ADH-1"), description: "d".to_owned() }, r#"CDS {"channel":"ADH-1","description":"d"}"#),
        (ClientCommand::ChannelInviteUser { channel: room("ADH-1"), character: ch("Bob") }, r#"CIU {"channel":"ADH-1","character":"Bob"}"#),
        (ClientCommand::Kick { channel: room("ADH-1"), character: ch("Bob") }, r#"CKU {"channel":"ADH-1","character":"Bob"}"#),
        (ClientCommand::Ops { channel: room("ADH-1") }, r#"COL {"channel":"ADH-1"}"#),
        (ClientCommand::Deop { channel: room("ADH-1"), character: ch("Bob") }, r#"COR {"channel":"ADH-1","character":"Bob"}"#),
        (ClientCommand::SetOwner { channel: room("ADH-1"), character: ch("Bob") }, r#"CSO {"channel":"ADH-1","character":"Bob"}"#),
        (ClientCommand::Timeout { channel: room("ADH-1"), character: ch("Bob") }, r#"CTU {"channel":"ADH-1","character":"Bob"}"#),
        (ClientCommand::Pardon { channel: room("ADH-1"), character: ch("Bob") }, r#"CUB {"channel":"ADH-1","character":"Bob"}"#),
        (ClientCommand::IgnoreList { action: IgnoreAction::Add, character: ch("Bob") }, r#"IGN {"action":"add","character":"Bob"}"#),
        (ClientCommand::JoinChannel { channel: room("Frontpage") }, r#"JCH {"channel":"Frontpage"}"#),
        (ClientCommand::DeleteChannel { channel: room("ADH-1") }, r#"KIC {"channel":"ADH-1"}"#),
        (ClientCommand::GlobalKick { channel: room("ADH-1") }, r#"KIK {"channel":"ADH-1"}"#),
        (ClientCommand::Kinks { character: ch("Bob") }, r#"KIN {"character":"Bob"}"#),
        (ClientCommand::LeaveChannel { channel: room("Frontpage") }, r#"LCH {"channel":"Frontpage"}"#),
        (ClientCommand::Ad { channel: room("Frontpage"), message: "ad".to_owned() }, r#"LRP {"channel":"Frontpage","message":"ad"}"#),
        (ClientCommand::Message { channel: room("Frontpage"), message: "hi".to_owned() }, r#"MSG {"channel":"Frontpage","message":"hi"}"#),
        (ClientCommand::PrivateMessage { recipient: ch("Bob"), message: "psst".to_owned() }, r#"PRI {"message":"psst","recipient":"Bob"}"#),
        (ClientCommand::ProfileTags { character: ch("Bob") }, r#"PRO {"character":"Bob"}"#),
        (ClientCommand::Roll { target: Target::Channel { channel: room("Frontpage") }, dice: "1d6".to_owned() }, r#"RLL {"channel":"Frontpage","dice":"1d6"}"#),
        (ClientCommand::Roll { target: Target::Character { recipient: ch("Bob") }, dice: "bottle".to_owned() }, r#"RLL {"dice":"bottle","recipient":"Bob"}"#),
        (ClientCommand::Reload { save: "x".to_owned() }, r#"RLD {"save":"x"}"#),
        (ClientCommand::ChannelMode { channel: room("ADH-1"), mode: ChannelMode::AdsOnly }, r#"RMO {"channel":"ADH-1","mode":"ads"}"#),
        (ClientCommand::ChannelStatus { channel: room("ADH-1"), status: ChannelStatus::Private }, r#"RST {"channel":"ADH-1","status":"private"}"#),
        (ClientCommand::Reward { character: ch("Bob") }, r#"RWD {"character":"Bob"}"#),
        (ClientCommand::Report { action: ReportAction::Report, report: "r".to_owned(), character: ch("Bob") }, r#"SFC {"action":"report","character":"Bob","report":"r"}"#),
        (ClientCommand::Status { status: Status::Busy, statusmsg: "AFK".to_owned() }, r#"STA {"status":"busy","statusmsg":"AFK"}"#),
        (ClientCommand::GlobalTimeout { character: ch("Bob"), time: 30, reason: "spam".to_owned() }, r#"TMO {"character":"Bob","reason":"spam","time":30}"#),
        (ClientCommand::Typing { character: ch("Bob"), status: TypingStatus::Paused }, r#"TPN {"character":"Bob","status":"paused"}"#),
        (ClientCommand::GlobalPardon { character: ch("Bob") }, r#"UNB {"character":"Bob"}"#),
    ];
    for (command, frame) in cases {
        assert_eq!(prepare_command(&command), frame);
        assert_eq!(&prepare_command(&command)[..3], command.tag_name());
        // the printed body parses back to the body that was built
        assert_eq!(Some(json(&frame[4..])), command.body_value());
    }
}

#[test]
fn message_text_is_escaped_by_the_json_printer() {
    assert_eq!(
        prepare_command(&ClientCommand::Broadcast { message: "a \"b\"\n\u{e9}".to_owned() }),
        "BRO {\"message\":\"a \\\"b\\\"\\n\u{e9}\"}"
    );
}

#[test]
fn every_field_reads_back_from_the_body() {
    // What the encoder writes, the readers of the decoder read back.
    let sent = ClientCommand::Message { channel: room("Frontpage"), message: "hi".to_owned() };
    let frame = prepare_command(&sent);
    let body = json(&frame[4..]);
    assert_eq!(f_chat_rs::protocol::fields::get_channel(&body, "channel"), Some(room("Frontpage")));
    assert_eq!(f_chat_rs::protocol::fields::get_text(&body, "message"), Some("hi".to_owned()));

    let sent = ClientCommand::GlobalTimeout { character: ch("Bob"), time: 4294967295, reason: "".to_owned() };
    let body = sent.body_value().expect("TMO has a body");
    assert_eq!(f_chat_rs::protocol::fields::get_character(&body, "character"), Some(ch("Bob")));
    assert_eq!(f_chat_rs::protocol::fields::get_u32(&body, "time"), Some(u32::MAX));
    assert_eq!(f_chat_rs::protocol::fields::get_text(&body, "reason"), Some(String::new()));

    let sent = ClientCommand::Search {
        kinks: vec![KinkId(0), KinkId(u32::MAX)],
        genders: vec![Gender::Unspecified, Gender::CBoy],
        orientations: vec![],
        languages: vec![Language::Other],
        furryprefs: vec![FurryPreference::HumanOnly, FurryPreference::HumanPref],
        roles: vec![Role::Unspecified, Role::Switch, Role::UsuallySub, Role::AlwaysSub],
    };
    let body = sent.body_value().expect("FKS has a body");
    assert_eq!(f_chat_rs::protocol::types::get_kinks(&body, "kinks"), Some(vec![KinkId(0), KinkId(u32::MAX)]));
    let genders: Vec<Option<Gender>> = body["genders"].as_array().unwrap().iter().map(read_named::<Gender>).collect();
    assert_eq!(genders, vec![Some(Gender::Unspecified), Some(Gender::CBoy)]);
    assert_eq!(body["genders"], json(r#"["None","Cunt-boy"]"#));
    assert_eq!(body["orientations"], json("[]"));
    assert_eq!(body["roles"], json(r#"["None","Switch","Usually submissive","Always submissive"]"#));

    // The same command is read back by the server's decoder where both sides share a shape.
    let frame = prepare_command(&ClientCommand::Typing { character: ch("Bob"), status: TypingStatus::Typing });
    assert_eq!(parse_command(&frame), Ok(ServerCommand::Typing { character: ch("Bob"), status: TypingStatus::Typing }));
    assert_eq!(parse_command(&prepare_command(&ClientCommand::Pong)), Ok(ServerCommand::Ping));
}

#[test]
fn wire_names_round_trip() {
    for g in [Gender::Male, Gender::Female, Gender::Transgender, Gender::Herm, Gender::Shemale, Gender::MaleHerm, Gender::CBoy, Gender::Unspecified] {
        assert_eq!(Gender::from_wire_name(g.wire_name()), Some(g));
    }
    for o in [Orientation::Straight, Orientation::Gay, Orientation::Bisexual, Orientation::Asexual, Orientation::Unsure, Orientation::BiMalePref, Orientation::BiFemalePref, Orientation::Pansexual, Orientation::Bicurious] {
        assert_eq!(Orientation::from_wire_name(o.wire_name()), Some(o));
    }
    for s in [Status::Online, Status::Looking, Status::Busy, Status::Dnd, Status::Idle, Status::Away, Status::Crown, Status::Offline] {
        assert_eq!(Status::from_wire_name(s.wire_name()), Some(s));
    }
    assert_eq!(Gender::CBoy.wire_name(), "Cunt-boy");
    assert_eq!(Gender::Unspecified.wire_name(), "None");
    assert_eq!(Orientation::Bicurious.wire_name(), "Bi-curious");
    assert_eq!(Orientation::BiFemalePref.wire_name(), "Bi - female preference");
    assert_eq!(FurryPreference::HumanOnly.wire_name(), "No furry characters, just humans");
    assert_eq!(Role::AlwaysSub.wire_name(), "Always submissive");
    assert_eq!(ChannelMode::ChatOnly.wire_name(), "chat");
    assert_eq!(ChannelMode::Both.wire_name(), "both");
    assert_eq!(TypingStatus::Clear.wire_name(), "clear");
    assert_eq!(Gender::from_wire_name("male"), None);
    assert_eq!(Status::from_wire_name("Online"), None);
    assert_eq!(ChannelMode::from_wire_name(""), None);
}

#[test]
fn defaults() {
    assert_eq!(Gender::default(), Gender::Unspecified);
    assert_eq!(Orientation::default(), Orientation::Unsure);
    assert_eq!(Language::default(), Language::English);
    assert_eq!(FurryPreference::default(), FurryPreference::Both);
    assert_eq!(Role::default(), Role::Unspecified);
    assert_eq!(ChannelMode::default(), ChannelMode::Both);
    assert_eq!(ChannelStatus::default(), ChannelStatus::Public);
    assert_eq!(Status::default(), Status::Online);
    assert_eq!(TypingStatus::default(), TypingStatus::Clear);
    assert_eq!(Character::default().as_str(), "");
    assert_eq!(Channel::default().as_str(), "");
}

#[test]
fn server_frames() {
    let cases: Vec<(&str, ServerCommand)> = vec![
        (r#"ADL {"ops":["Alice","Bob"]}"#, ServerCommand::GlobalOps { ops: vec![ch("Alice"), ch("Bob")] }),
        (r#"AOP {"character":"Alice"}"#, ServerCommand::GlobalOpped { character: ch("Alice") }),
        (r#"BRO {"message":"hello","character":"Alice"}"#, ServerCommand::Broadcast { message: "hello".to_owned(), character: ch("Alice") }),
        (r#"CDS {"channel":"Frontpage","description":"d"}"#, ServerCommand::ChannelDescription { channel: room("Frontpage"), description: "d".to_owned() }),
        (r#"CHA {"channels":[{"name":"Frontpage","mode":"chat","characters":3},{"name":"Ads","mode":"ads","characters":"7"}]}"#,
            ServerCommand::GlobalChannels { channels: vec![
                OfficialChannelInfo { name: room("Frontpage"), mode: ChannelMode::ChatOnly, characters: 3 },
                OfficialChannelInfo { name: room("Ads"), mode: ChannelMode::AdsOnly, characters: 7 },
            ] }),
        (r#"CIU {"sender":"Alice","title":"Den","name":"ADH-abc"}"#, ServerCommand::Invited { sender: ch("Alice"), title: "Den".to_owned(), name: room("ADH-abc") }),
        (r#"CBU {"operator":"Op","channel":"Frontpage","character":"Bob"}"#, ServerCommand::Banned { operator: ch("Op"), channel: room("Frontpage"), character: ch("Bob") }),
        (r#"CKU {"operator":"Op","channel":"Frontpage","character":"Bob"}"#, ServerCommand::Kicked { operator: ch("Op"), channel: room("Frontpage"), character: ch("Bob") }),
        (r#"COA {"character":"Bob","channel":"Frontpage"}"#, ServerCommand::Opped { character: ch("Bob"), channel: room("Frontpage") }),
        (r#"COL {"channel":"Frontpage","oplist":["Op",""]}"#, ServerCommand::Ops { channel: room("Frontpage"), oplist: vec![ch("Op"), ch("")] }),
        (r#"CON {"count":42}"#, ServerCommand::Connected { count: 42 }),
        (r#"COR {"character":"Bob","channel":"Frontpage"}"#, ServerCommand::Deopped { character: ch("Bob"), channel: room("Frontpage") }),
        (r#"CSO {"character":"Bob","channel":"Frontpage"}"#, ServerCommand::SetOwner { character: ch("Bob"), channel: room("Frontpage") }),
        (r#"CTU {"channel":"Frontpage","character":"Bob","length":10,"operator":"Op"}"#, ServerCommand::Timeout { channel: room("Frontpage"), character: ch("Bob"), length: 10, operator: ch("Op") }),
        (r#"DOP {"character":"Alice"}"#, ServerCommand::GlobalDeopped { character: ch("Alice") }),
        (r#"ERR {"number":2,"message":"Server full"}"#, ServerCommand::Error { number: 2, message: "Server full".to_owned() }),
        (r#"ERR {"number":-1,"message":"x"}"#, ServerCommand::Error { number: -1, message: "x".to_owned() }),
        (r#"FKS {"characters":["Alice"],"kinks":[523,"66"]}"#, ServerCommand::Search { characters: vec![ch("Alice")], kinks: vec![KinkId(523), KinkId(66)] }),
        (r#"FLN {"character":"Alice"}"#, ServerCommand::Offline { character: ch("Alice") }),
        (r#"HLO {"message":"Welcome"}"#, ServerCommand::Hello { message: "Welcome".to_owned() }),
        (r#"ICH {"users":[{"identity":"Alice"},{"identity":"Bob"}],"channel":"Frontpage","mode":"both"}"#,
            ServerCommand::ChannelData { users: vec![CharacterIdentity { identity: ch("Alice") }, CharacterIdentity { identity: ch("Bob") }], channel: room("Frontpage"), mode: ChannelMode::Both }),
        (r#"IDN {"character":"Alice"}"#, ServerCommand::IdentifySuccess { character: ch("Alice") }),
        (r#"JCH {"channel":"Frontpage","character":{"identity":"Alice"},"title":"Frontpage"}"#,
            ServerCommand::JoinedChannel { channel: room("Frontpage"), character: CharacterIdentity { identity: ch("Alice") }, title: "Frontpage".to_owned() }),
        (r#"KID {"type":"custom","message":"m","key":[1,2],"value":[3]}"#, ServerCommand::Kinks { response_type: KinkResponsePart::Custom, message: "m".to_owned(), key: vec![1, 2], value: vec![3] }),
        (r#"LCH {"channel":"Frontpage","character":"Alice"}"#, ServerCommand::LeftChannel { channel: room("Frontpage"), character: ch("Alice") }),
        (r#"NLN {"status":"online","gender":"Male","identity":"Bob"}"#, ServerCommand::NewConnection { status: Status::Online, gender: Gender::Male, identity: ch("Bob") }),
        (r#"IGN {"action":"init","characters":["A","B"]}"#, ServerCommand::Ignore { action: IgnoreAction::Init, characters: vec![ch("A"), ch("B")], character: ch("") }),
        (r#"IGN {"action":"add","character":"A"}"#, ServerCommand::Ignore { action: IgnoreAction::Add, characters: vec![], character: ch("A") }),
        (r#"FRL {"characters":["A"]}"#, ServerCommand::Friends { characters: vec![ch("A")] }),
        (r#"ORS {"channels":[{"name":"ADH-abc","characters":0,"title":"Den"}]}"#, ServerCommand::Channels { channels: vec![ChannelInfo { name: room("ADH-abc"), characters: 0, title: "Den".to_owned() }] }),
        ("PIN", ServerCommand::Ping),
        (r#"PRD {"type":"info","message":"m","key":"k","value":"v"}"#, ServerCommand::ProfileData { response_type: ProfileDataPart::Info, message: "m".to_owned(), key: "k".to_owned(), value: "v".to_owned() }),
        (r#"PRD {"type":"end"}"#, ServerCommand::ProfileData { response_type: ProfileDataPart::End, message: String::new(), key: String::new(), value: String::new() }),
        (r#"PRI {"character":"Alice","message":"psst"}"#, ServerCommand::PrivateMessage { character: ch("Alice"), message: "psst".to_owned() }),
        (r#"MSG {"channel":"Frontpage","message":"hi","character":"Alice"}"#, ServerCommand::Message { character: ch("Alice"), message: "hi".to_owned(), channel: room("Frontpage") }),
        (r#"LRP {"channel":"Frontpage","message":"ad","character":"Alice"}"#, ServerCommand::Ad { character: ch("Alice"), message: "ad".to_owned(), channel: room("Frontpage") }),
        (r#"RLL {"channel":"Frontpage","results":[22,-3],"type":"dice","message":"m","rolls":["1d20","-3"],"character":"Alice","endresult":19}"#,
            ServerCommand::Roll { target: Target::Channel { channel: room("Frontpage") }, results: vec![22, -3], response_type: "dice".to_owned(), rolls: vec!["1d20".to_owned(), "-3".to_owned()], character: ch("Alice"), endresult: 19, message: "m".to_owned() }),
        (r#"RLL {"recipient":"Bob","results":[],"type":"dice","message":"m","rolls":[],"character":"Alice","endresult":0}"#,
            ServerCommand::Roll { target: Target::Character { recipient: ch("Bob") }, results: vec![], response_type: "dice".to_owned(), rolls: vec![], character: ch("Alice"), endresult: 0, message: "m".to_owned() }),
        (r#"RMO {"mode":"ads","channel":"Frontpage"}"#, ServerCommand::ChannelMode { mode: ChannelMode::AdsOnly, channel: room("Frontpage") }),
        (r#"RTB {"type":"trackadd","name":"Bob"}"#, ServerCommand::BridgeEvent { response_type: BridgeEvent::BookmarkAdd, name: ch("Bob") }),
        (r#"RTB {"type":"friendrequest","name":"Bob"}"#, ServerCommand::BridgeEvent { response_type: BridgeEvent::FriendRequest, name: ch("Bob") }),
        (r#"SFC {"action":"report","moderator":"Mod","character":"Bob","timestamp":"t","callid":1,"report":"r","logid":"2"}"#,
            ServerCommand::Report { action: "report".to_owned(), moderator: ch("Mod"), character: ch("Bob"), timestamp: "t".to_owned(), callid: 1, report: "r".to_owned(), logid: 2 }),
        (r#"STA {"status":"busy","character":"Bob","statusmsg":"AFK"}"#, ServerCommand::Status { status: Status::Busy, character: ch("Bob"), statusmsg: "AFK".to_owned() }),
        (r#"SYS {"message":"m","channel":"Frontpage"}"#, ServerCommand::SystemMessage { message: "m".to_owned(), channel: room("Frontpage") }),
        (r#"TPN {"character":"Alice","status":"typing"}"#, ServerCommand::Typing { character: ch("Alice"), status: TypingStatus::Typing }),
        (r#"UPT {"time":1,"starttime":2,"startstring":"s","accepted":3,"channels":4,"users":5,"maxusers":"6"}"#,
            ServerCommand::Uptime { time: 1, starttime: 2, startstring: "s".to_owned(), accepted: 3, channels: 4, users: 5, maxusers: 6 }),
        (r#"VAR {"variable":"chat_max","value":4096}"#, ServerCommand::Variable(Variable::ChatMax(4096))),
        (r#"VAR {"variable":"priv_max","value":"50000"}"#, ServerCommand::Variable(Variable::PrivMax(50000))),
        (r#"VAR {"variable":"lfrp_max","value":50000}"#, ServerCommand::Variable(Variable::AdMax(50000))),
        (r#"VAR {"variable":"cds_max","value":1024}"#, ServerCommand::Variable(Variable::CDSMax(1024))),
        (r#"VAR {"variable":"lfrp_flood","value":600}"#, ServerCommand::Variable(Variable::AdCooldown(Decimal("600".to_owned())))),
        (r#"VAR {"variable":"msg_flood","value":0.5}"#, ServerCommand::Variable(Variable::ChatCooldown(Decimal("0.5".to_owned())))),
        (r#"VAR {"variable":"sta_flood","value":-5}"#, ServerCommand::Variable(Variable::StatusCooldown(Decimal("-5".to_owned())))),
        (r#"VAR {"variable":"permissions","value":"0"}"#, ServerCommand::Variable(Variable::Permissions("0".to_owned()))),
        (r#"VAR {"variable":"icon_blacklist","value":["pokefurs","ADH-x"]}"#, ServerCommand::Variable(Variable::IconBlacklist(vec![room("pokefurs"), room("ADH-x")]))),
        (r#"VAR {"variable":"brand_new","value":{"a":1}}"#, ServerCommand::Variable(Variable::Unknown("brand_new".to_owned()))),
    ];
    for (frame, command) in cases {
        let read = parse_command(frame);
        assert_eq!(read, Ok(command), "{}", frame);
        assert_eq!(read.unwrap().tag_name(), &frame[..3]);
    }
}

#[test]
fn every_server_tag_is_known() {
    let tags = "ADL AOP BRO CBU CDS CHA CIU CKU COA COL CON COR CSO CTU DOP ERR FKS FLN FRL HLO ICH IDN IGN JCH KID LCH LIS LRP MSG NLN ORS PIN PRD PRI RLL RMO RTB SFC STA SYS TPN UPT VAR";
    let mut n = 0;
    for tag in tags.split(' ') {
        assert!(ServerCommand::is_known_tag(tag), "{}", tag);
        n += 1;
    }
    assert_eq!(n, 43);
    for tag in ["ACB", "pin", "PI", "PINX", "", "XYZ", "TMO"] {
        assert!(!ServerCommand::is_known_tag(tag), "{}", tag);
    }
}

#[test]
fn unknown_commands() {
    assert_eq!(parse_command("XYZ {\"a\":1}"), Err(CodecError::UnknownCommand("XYZ".to_owned())));
    assert_eq!(parse_command("XYZ"), Err(CodecError::UnknownCommand("XYZ".to_owned())));
    assert_eq!(parse_command("pin"), Err(CodecError::UnknownCommand("pin".to_owned())));
    assert_eq!(parse_command("PI"), Err(CodecError::UnknownCommand("PI".to_owned())));
    assert_eq!(parse_command(""), Err(CodecError::UnknownCommand(String::new())));
    assert_eq!(parse_command("\u{e9}\u{e9}\u{e9}\u{e9} x"), Err(CodecError::UnknownCommand("\u{e9}\u{e9}\u{e9}".to_owned())));
    // The tag is judged before the body is.
    assert_eq!(parse_command("XYZ{not json"), Err(CodecError::UnknownCommand("XYZ".to_owned())));
    assert_eq!(decode_command("XYZ", &json("{}")), Err(CodecError::UnknownCommand("XYZ".to_owned())));
}

#[test]
fn malformed_frames() {
    assert_eq!(parse_command("MSG{\"a\":1}"), Err(CodecError::MalformedFrame));
    assert_eq!(parse_command("MSG {not json"), Err(CodecError::MalformedFrame));
    assert_eq!(parse_command("MSG {\"channel\":\"a\"} trailing"), Err(CodecError::MalformedFrame));
    assert_eq!(parse_command("PINX"), Err(CodecError::MalformedFrame));
    assert_eq!(parse_command("MSG\t{}"), Err(CodecError::MalformedFrame));
}

#[test]
fn empty_body_is_null() {
    assert_eq!(parse_command("PIN"), Ok(ServerCommand::Ping));
    assert_eq!(parse_command("PIN "), Ok(ServerCommand::Ping));
    assert_eq!(parse_command("PIN null"), Ok(ServerCommand::Ping));
    assert_eq!(parse_command("PIN {\"x\":1}"), Ok(ServerCommand::Ping));
    assert_eq!(parse_command("MSG"), Err(CodecError::InvalidBody));
    assert_eq!(parse_command("MSG "), Err(CodecError::InvalidBody));
    assert_eq!(decode_command("MSG", &Value::Null), Err(CodecError::InvalidBody));
}

#[test]
fn invalid_bodies() {
    // a member is missing
    assert_eq!(parse_command(r#"MSG {"channel":"Frontpage","message":"hi"}"#), Err(CodecError::InvalidBody));
    // a member has the wrong kind
    assert_eq!(parse_command(r#"MSG {"channel":"Frontpage","message":5,"character":"A"}"#), Err(CodecError::InvalidBody));
    assert_eq!(parse_command(r#"CON {"count":-1}"#), Err(CodecError::InvalidBody));
    assert_eq!(parse_command(r#"CON {"count":1.5}"#), Err(CodecError::InvalidBody));
    assert_eq!(parse_command(r#"CON {"count":4294967296}"#), Err(CodecError::InvalidBody));
    assert_eq!(parse_command(r#"CON {"count":"4294967295"}"#), Ok(ServerCommand::Connected { count: u32::MAX }));
    assert_eq!(parse_command(r#"ERR {"number":2147483648,"message":""}"#), Err(CodecError::InvalidBody));
    assert_eq!(parse_command(r#"ERR {"number":-2147483648,"message":""}"#), Ok(ServerCommand::Error { number: i32::MIN, message: String::new() }));
    assert_eq!(parse_command(r#"ERR {"number":"39","message":""}"#), Ok(ServerCommand::Error { number: 39, message: String::new() }));
    // a body that is no object
    assert_eq!(parse_command(r#"MSG [1,2]"#), Err(CodecError::InvalidBody));
    // a name that is too long: 21 bytes for a character, 27 for a channel
    assert_eq!(parse_command(r#"FLN {"character":"123456789012345678901"}"#), Err(CodecError::InvalidBody));
    assert_eq!(parse_command(r#"FLN {"character":"12345678901234567890"}"#), Ok(ServerCommand::Offline { character: ch("12345678901234567890") }));
    assert_eq!(parse_command(r#"COL {"channel":"123456789012345678901234567","oplist":[]}"#), Err(CodecError::InvalidBody));
    assert_eq!(parse_command(r#"COL {"channel":"12345678901234567890123456","oplist":[]}"#), Ok(ServerCommand::Ops { channel: room("12345678901234567890123456"), oplist: vec![] }));
    // the length counts bytes, not characters
    assert_eq!(parse_command("FLN {\"character\":\"\u{e9}\u{e9}\u{e9}\u{e9}\u{e9}\u{e9}\u{e9}\u{e9}\u{e9}\u{e9}\u{e9}\"}"), Err(CodecError::InvalidBody));
    assert_eq!(parse_command("FLN {\"character\":\"\u{e9}\u{e9}\u{e9}\u{e9}\u{e9}\u{e9}\u{e9}\u{e9}\u{e9}\u{e9}\"}"), Ok(ServerCommand::Offline { character: ch("\u{e9}\u{e9}\u{e9}\u{e9}\u{e9}\u{e9}\u{e9}\u{e9}\u{e9}\u{e9}") }));
    // an unknown name of an enumeration
    assert_eq!(parse_command(r#"TPN {"character":"A","status":"dozing"}"#), Err(CodecError::InvalidBody));
    assert_eq!(parse_command(r#"RTB {"type":"note","name":"Bob"}"#), Err(CodecError::InvalidBody));
    // one bad item spoils a list
    assert_eq!(parse_command(r#"ADL {"ops":["Alice",5]}"#), Err(CodecError::InvalidBody));
    assert_eq!(parse_command(r#"LIS {"characters":[["A","Female","online"]]}"#), Err(CodecError::InvalidBody));
    assert_eq!(parse_command(r#"LIS {"characters":[["A","Female","online","",""]]}"#), Err(CodecError::InvalidBody));
    assert_eq!(parse_command(r#"LIS {"characters":[]}"#), Ok(ServerCommand::ListOnline { characters: vec![] }));
    // a variable of a known name with a value of the wrong kind
    assert_eq!(parse_command(r#"VAR {"variable":"chat_max","value":"x"}"#), Err(CodecError::InvalidBody));
    assert_eq!(parse_command(r#"VAR {"variable":"msg_flood","value":"1.1"}"#), Err(CodecError::InvalidBody));
    assert_eq!(parse_command(r#"VAR {"value":1}"#), Err(CodecError::InvalidBody));
    // a roll without a target
    assert_eq!(parse_command(r#"RLL {"results":[],"type":"dice","message":"m","rolls":[],"character":"Alice","endresult":0}"#), Err(CodecError::InvalidBody));
}

#[test]
fn characters_come_bare_or_as_identity() {
    assert_eq!(parse_command(r#"FLN {"character":{"identity":"Alice"}}"#), Ok(ServerCommand::Offline { character: ch("Alice") }));
    assert_eq!(
        parse_command(r#"JCH {"channel":"Frontpage","character":"Alice","title":"t"}"#),
        Ok(ServerCommand::JoinedChannel { channel: room("Frontpage"), character: CharacterIdentity { identity: ch("Alice") }, title: "t".to_owned() })
    );
    assert_eq!(
        parse_command(r#"ICH {"users":["Alice",{"identity":"Bob"}],"channel":"Frontpage","mode":"chat"}"#),
        Ok(ServerCommand::ChannelData { users: vec![CharacterIdentity { identity: ch("Alice") }, CharacterIdentity { identity: ch("Bob") }], channel: room("Frontpage"), mode: ChannelMode::ChatOnly })
    );
    assert_eq!(parse_command(r#"FLN {"character":{"name":"Alice"}}"#), Err(CodecError::InvalidBody));
    assert_eq!(parse_command(r#"FLN {"character":{"identity":5}}"#), Err(CodecError::InvalidBody));
}

#[test]
fn names_compare_without_case() {
    assert_eq!(ch("Foo"), ch("foo"));
    assert_eq!(ch("FOO"), ch("foo"));
    assert_ne!(ch("Foo"), ch("Fo"));
    assert_ne!(ch("Foo"), ch("Fop"));
    assert_eq!(room("ADH-ABC"), room("adh-abc"));
    assert_eq!(ch("Foo").as_str(), "Foo");
    assert_eq!(ch("Foo").key_string(), "foo");
    assert_eq!(room("Pregnancy and Impregnation").key_string(), "pregnancy and impregnation");
    // only ASCII letters are folded
    assert_ne!(ch("\u{c9}"), ch("\u{e9}"));
    assert_eq!(ch("\u{c9}A").key_string(), "\u{c9}a");
    assert_eq!(Character::try_new("123456789012345678901"), None);
    assert_eq!(Character::try_new("12345678901234567890"), Some(ch("12345678901234567890")));
    assert_eq!(Channel::try_new("123456789012345678901234567"), None);
}

#[test]
fn protocol_errors() {
    assert_eq!(ProtocolError::from_number(1), ProtocolError::SyntaxError);
    assert_eq!(ProtocolError::from(2), ProtocolError::FullServer);
    assert_eq!(ProtocolError::from_number(0), ProtocolError::Success);
    assert_eq!(ProtocolError::from_number(72), ProtocolError::TooManySearchResults);
    assert_eq!(ProtocolError::from_number(-10), ProtocolError::FrontpageDice);
    assert_eq!(ProtocolError::from_number(12), ProtocolError::Other);
    assert_eq!(ProtocolError::from_number(9999), ProtocolError::Other);
    assert_eq!(ProtocolError::from_number(i32::MIN), ProtocolError::Other);
    assert_eq!(ProtocolError::Other.number(), 9999);
    let fatal = [2, 9, 30, 31, 33, 39, 40, -1];
    let with_message = [20, 39];
    for code in -20..100 {
        let error = ProtocolError::from_number(code);
        assert_eq!(error.is_fatal(), fatal.contains(&code), "{}", code);
        assert_eq!(error.has_message(), with_message.contains(&code), "{}", code);
        if error != ProtocolError::Other {
            assert_eq!(error.number(), code);
        }
    }
    let listed = [0, 1, 2, 3, 4, 5, 6, 7, 8, 9, 10, 11, 13, 15, 16, 17, 18, 19, 20, 21, 26, 28, 30, 31, 32, 33, 36, 38, 39, 40, 41, 42, 44, 45, 47, 48, 49, 50, 54, 56, 59, 60, 61, 62, 64, 67, 72, -1, -2, -3, -4, -5, -10];
    for code in listed {
        assert_ne!(ProtocolError::from_number(code), ProtocolError::Other, "{}", code);
    }
    assert!(!ProtocolError::Other.is_fatal());
}

#[test]
fn codec_error_messages() {
    assert_eq!(CodecError::UnknownCommand("XYZ".to_owned()).message(), "unknown command: XYZ");
    assert_eq!(CodecError::MalformedFrame.message(), "malformed frame");
    assert_eq!(CodecError::InvalidBody.message(), "invalid command body");
}
