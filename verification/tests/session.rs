use f_chat_rs::data::{Channel, Character, TypingStatus};
use f_chat_rs::protocol::{
    parse_command, CharacterIdentity, ClientCommand, CodecError, Decimal, IdentifyMethod,
    ProtocolError, ServerCommand, Target, Variable,
};
use f_chat_rs::session::{
    ChannelSet, FrameOutcome, Handling, Handshake, HandshakeState, HandshakeStep, MessageTarget,
    Session, SessionError, SessionEvent, Variables, NO_ERROR_YET,
};

fn ch(name: &str) -> Character {
    Character::new(name)
}

fn room(name: &str) -> Channel {
    Channel::new(name)
}

fn alice() -> Session {
    Session::new(ch("Alice"), Variables::default())
}

fn joined(channel: &str, character: &str) -> ServerCommand {
    ServerCommand::JoinedChannel {
        channel: room(channel),
        character: CharacterIdentity { identity: ch(character) },
        title: channel.to_owned(),
    }
}

fn left(channel: &str, character: &str) -> ServerCommand {
    ServerCommand::LeftChannel { channel: room(channel), character: ch(character) }
}

fn names(session: &Session) -> Vec<String> {
    session.channels.to_vec().iter().map(|c| c.as_str().to_owned()).collect()
}

fn run_handshake(handshake: Handshake, frames: &[&str]) -> Result<HandshakeStep, SessionError> {
    let mut current = handshake;
    for (i, frame) in frames.iter().enumerate() {
        match current.on_command(frame, parse_command(frame))? {
            HandshakeStep::Continue(next) => current = next,
            ready => {
                assert_eq!(i + 1, frames.len(), "the handshake ended early");
                return Ok(ready);
            }
        }
    }
    Ok(HandshakeStep::Continue(current))
}

#[test]
fn new_session_is_empty() {
    let session = alice();
    assert_eq!(session.character, ch("alice"));
    assert_eq!(session.channels.len(), 0);
    assert_eq!(session.private_messages.len(), 0);
    assert_eq!(session.last_err, NO_ERROR_YET);
    assert_eq!(session.last_err, 9999);
    assert_eq!(session.variables, Variables::default());
}

#[test]
fn variables_default() {
    let v = Variables::default();
    assert_eq!((v.chat_max, v.priv_max, v.ad_max), (0, 0, 0));
    assert_eq!(v.chat_cooldown, Decimal("0".to_owned()));
    assert_eq!(v.ad_cooldown, Decimal("0".to_owned()));
    assert_eq!(v.status_cooldown, Decimal("0".to_owned()));
    assert!(v.icon_blacklist.is_empty());
}

#[test]
fn variables_without_a_place() {
    assert!(Variables::keeps(&Variable::ChatMax(1)));
    assert!(Variables::keeps(&Variable::PrivMax(1)));
    assert!(Variables::keeps(&Variable::AdMax(1)));
    assert!(Variables::keeps(&Variable::AdCooldown(Decimal("1".to_owned()))));
    assert!(Variables::keeps(&Variable::ChatCooldown(Decimal("1".to_owned()))));
    assert!(Variables::keeps(&Variable::StatusCooldown(Decimal("1".to_owned()))));
    assert!(Variables::keeps(&Variable::IconBlacklist(vec![])));
    assert!(!Variables::keeps(&Variable::CDSMax(1)));
    assert!(!Variables::keeps(&Variable::Permissions("0".to_owned())));
    assert!(!Variables::keeps(&Variable::Unknown("x".to_owned())));
}

#[test]
fn variables_take_declarations_in_order() {
    let mut v = Variables::default();
    v.apply(Variable::ChatMax(4096));
    v.apply(Variable::PrivMax(50000));
    v.apply(Variable::AdMax(7));
    v.apply(Variable::ChatCooldown(Decimal("1.1".to_owned())));
    v.apply(Variable::AdCooldown(Decimal("600".to_owned())));
    v.apply(Variable::StatusCooldown(Decimal("5".to_owned())));
    v.apply(Variable::IconBlacklist(vec![room("pokefurs")]));
    v.apply(Variable::ChatMax(1));
    let before = v.clone();
    v.apply(Variable::CDSMax(1024));
    v.apply(Variable::Permissions("0".to_owned()));
    v.apply(Variable::Unknown("brand_new".to_owned()));
    assert_eq!(v, before);
    assert_eq!(
        v,
        Variables {
            chat_max: 1,
            priv_max: 50000,
            ad_max: 7,
            chat_cooldown: Decimal("1.1".to_owned()),
            ad_cooldown: Decimal("600".to_owned()),
            status_cooldown: Decimal("5".to_owned()),
            icon_blacklist: vec![room("pokefurs")],
        }
    );
}

#[test]
fn connect_sends_the_identification() {
    let (handshake, identify) = Session::connect(
        "user".to_owned(),
        "abc".to_owned(),
        "f-chat-rs".to_owned(),
        "0.1".to_owned(),
        ch("Alice"),
    );
    assert_eq!(handshake.state, HandshakeState::Identifying);
    assert_eq!(handshake.character, ch("Alice"));
    assert!(handshake.rejoin.is_empty());
    assert_eq!(
        identify,
        ClientCommand::Identify {
            method: IdentifyMethod::Ticket,
            account: "user".to_owned(),
            ticket: "abc".to_owned(),
            character: ch("Alice"),
            client_name: "f-chat-rs".to_owned(),
            client_version: "0.1".to_owned(),
        }
    );
}

#[test]
fn handshake_negotiates_variables() {
    let (handshake, _) = Session::connect("u".into(), "t".into(), "n".into(), "v".into(), ch("Alice"));
    let step = run_handshake(
        handshake,
        &[
            r#"IDN {"character":"Alice"}"#,
            r#"VAR {"variable":"chat_max","value":4096}"#,
            r#"VAR {"variable":"msg_flood","value":1.1}"#,
            r#"HLO {"message":"Welcome"}"#,
        ],
    )
    .expect("the handshake succeeds");
    match step {
        HandshakeStep::Ready { mut session, pending, rejoin } => {
            assert_eq!(session.variables.chat_max, 4096);
            let cooldown: f32 = session.variables.chat_cooldown.0.parse().unwrap();
            assert!((cooldown - 1.1).abs() < 1e-6);
            assert_eq!(session.variables.priv_max, 0);
            assert_eq!(session.character, ch("Alice"));
            assert_eq!(session.channels.len(), 0);
            assert_eq!(session.last_err, NO_ERROR_YET);
            assert!(rejoin.is_empty());
            // The frame that ended the negotiation was not taken in ...
            assert_eq!(pending, Ok(ServerCommand::Hello { message: "Welcome".to_owned() }));
            // ... and ends in the session when the session gets it.
            assert_eq!(session.on_command(pending), FrameOutcome::Nothing);
        }
        HandshakeStep::Continue(_) => panic!("the handshake did not end"),
    }
}

#[test]
fn handshake_continues_while_variables_arrive() {
    let (handshake, _) = Session::connect("u".into(), "t".into(), "n".into(), "v".into(), ch("Alice"));
    let step = run_handshake(handshake, &[r#"IDN {"character":"alice"}"#, r#"VAR {"variable":"priv_max","value":5}"#]).unwrap();
    match step {
        HandshakeStep::Continue(next) => {
            assert_eq!(next.state, HandshakeState::Negotiating);
            assert_eq!(next.variables.priv_max, 5);
            assert_eq!(next.character, ch("Alice"));
        }
        HandshakeStep::Ready { .. } => panic!("the handshake ended"),
    }
}

#[test]
fn handshake_ends_on_an_unreadable_frame() {
    let (handshake, _) = Session::connect("u".into(), "t".into(), "n".into(), "v".into(), ch("Alice"));
    let step = run_handshake(handshake, &[r#"IDN {"character":"Alice"}"#, "XYZ"]).unwrap();
    match step {
        HandshakeStep::Ready { mut session, pending, .. } => {
            assert_eq!(pending, Err(CodecError::UnknownCommand("XYZ".to_owned())));
            assert_eq!(
                session.on_command(pending),
                FrameOutcome::Skipped(CodecError::UnknownCommand("XYZ".to_owned()))
            );
        }
        HandshakeStep::Continue(_) => panic!("the handshake did not end"),
    }
}

#[test]
fn handshake_rejects_anything_but_the_acceptance() {
    for frame in [
        r#"HLO {"message":"Welcome"}"#,
        r#"ERR {"number":4,"message":"Identification failed."}"#,
        r#"IDN {"character":"Bob"}"#,
        r#"IDN {"who":"Alice"}"#,
        "garbage",
        "",
    ] {
        let (handshake, _) = Session::connect("u".into(), "t".into(), "n".into(), "v".into(), ch("Alice"));
        match handshake.on_command(frame, parse_command(frame)) {
            Err(SessionError::UnexpectedProtocolMessage(text)) => assert_eq!(text, frame),
            other => panic!("{:?} for {:?}", other, frame),
        }
    }
}

#[test]
fn handshake_cut_short() {
    let (handshake, _) = Session::connect("u".into(), "t".into(), "n".into(), "v".into(), ch("Alice"));
    assert_eq!(handshake.on_close(), SessionError::MiscConnectionFailure);
}

#[test]
fn session_error_messages() {
    assert_eq!(SessionError::WebsocketError("reset".into()).message(), "Error from Websocket (Tungstenite)");
    assert_eq!(
        SessionError::MiscConnectionFailure.message(),
        "Unknown failure in connection stage -- Typically protocol-related"
    );
    assert_eq!(
        SessionError::UnexpectedProtocolMessage("HLO".into()).message(),
        "Unknown or unexpected protocol message: HLO"
    );
    assert_eq!(SessionError::LateVarCommand.message(), "VAR command has arrived out of sync");
    assert_eq!(SessionError::LateIdentifyCommand.message(), "IDN command has arrived out of sync");
}

#[test]
fn ping_is_answered_and_goes_no_further() {
    let mut session = alice();
    assert_eq!(session.handle_command(&ServerCommand::Ping), Ok(Handling::Reply(ClientCommand::Pong)));
    assert_eq!(session.on_command(parse_command("PIN")), FrameOutcome::Reply(ClientCommand::Pong));
    assert_eq!(session.send(&ClientCommand::Pong), "PIN");
    assert_eq!(session.channels.len(), 0);
    assert_eq!(session.last_err, NO_ERROR_YET);
}

#[test]
fn commands_that_end_in_the_session() {
    let mut session = alice();
    assert_eq!(session.handle_command(&ServerCommand::Hello { message: "hi".into() }), Ok(Handling::Suppress));
    assert_eq!(
        session.handle_command(&ServerCommand::IdentifySuccess { character: ch("Alice") }),
        Err(SessionError::LateIdentifyCommand)
    );
    assert_eq!(
        session.handle_command(&ServerCommand::Variable(Variable::ChatMax(1))),
        Err(SessionError::LateVarCommand)
    );
    assert_eq!(session.variables.chat_max, 0);
    assert_eq!(
        session.on_command(Ok(ServerCommand::Variable(Variable::ChatMax(1)))),
        FrameOutcome::Emit(SessionEvent::Error(SessionError::LateVarCommand))
    );
    assert_eq!(
        session.on_command(parse_command(r#"IDN {"character":"Alice"}"#)),
        FrameOutcome::Emit(SessionEvent::Error(SessionError::LateIdentifyCommand))
    );
}

#[test]
fn other_commands_go_on() {
    let mut session = alice();
    let command = ServerCommand::Connected { count: 3 };
    assert_eq!(session.handle_command(&command), Ok(Handling::Forward));
    assert_eq!(
        session.on_command(parse_command(r#"MSG {"channel":"Frontpage","message":"hi","character":"Bob"}"#)),
        FrameOutcome::Emit(SessionEvent::Command(ServerCommand::Message {
            character: ch("Bob"),
            message: "hi".to_owned(),
            channel: room("Frontpage"),
        }))
    );
    assert_eq!(
        session.on_command(Err(CodecError::InvalidBody)),
        FrameOutcome::Skipped(CodecError::InvalidBody)
    );
    assert_eq!(
        session.on_command(Err(CodecError::MalformedFrame)),
        FrameOutcome::Skipped(CodecError::MalformedFrame)
    );
}

#[test]
fn errors_are_remembered() {
    let mut session = alice();
    let err = ServerCommand::Error { number: 5, message: "slow down".into() };
    assert_eq!(session.handle_command(&err), Ok(Handling::Forward));
    assert_eq!(session.last_err, 5);
    assert_eq!(session.on_close(), SessionEvent::Reconnect);
    session.handle_command(&ServerCommand::Error { number: 9, message: "banned".into() }).unwrap();
    assert_eq!(session.last_err, 9);
    assert_eq!(session.on_close(), SessionEvent::Disconnected(ProtocolError::Banned));
    session.handle_command(&ServerCommand::Error { number: 12345, message: "?".into() }).unwrap();
    assert_eq!(session.on_close(), SessionEvent::Reconnect);
}

#[test]
fn close_after_each_fatal_error() {
    assert_eq!(alice().on_close(), SessionEvent::Reconnect);
    for code in [2, 9, 30, 31, 33, 39, 40, -1] {
        let mut session = alice();
        session.handle_command(&ServerCommand::Error { number: code, message: String::new() }).unwrap();
        assert_eq!(session.on_close(), SessionEvent::Disconnected(ProtocolError::from_number(code)));
    }
    for code in [0, 1, 3, 20, 28, 62, 72, -2, -10, 9999] {
        let mut session = alice();
        session.handle_command(&ServerCommand::Error { number: code, message: String::new() }).unwrap();
        assert_eq!(session.on_close(), SessionEvent::Reconnect);
    }
}

#[test]
fn joined_channels_are_mirrored() {
    let mut session = alice();
    assert_eq!(session.handle_command(&joined("Frontpage", "Alice")), Ok(Handling::Forward));
    assert_eq!(session.handle_command(&joined("ADH-abc", "ALICE")), Ok(Handling::Forward));
    assert_eq!(names(&session), vec!["Frontpage", "ADH-abc"]);
    // someone else's joining and leaving changes nothing
    session.handle_command(&joined("Other", "Bob")).unwrap();
    session.handle_command(&left("Frontpage", "Bob")).unwrap();
    assert_eq!(names(&session), vec!["Frontpage", "ADH-abc"]);
    // joining again, in another case, changes nothing
    session.handle_command(&joined("frontpage", "Alice")).unwrap();
    assert_eq!(names(&session), vec!["Frontpage", "ADH-abc"]);
    assert!(session.channels.contains(&room("FRONTPAGE")));
    // leaving takes the room out
    assert_eq!(session.handle_command(&left("FRONTPAGE", "alice")), Ok(Handling::Forward));
    assert_eq!(names(&session), vec!["ADH-abc"]);
    assert!(!session.channels.contains(&room("Frontpage")));
    // leaving a room that was not joined changes nothing
    session.handle_command(&left("Nowhere", "Alice")).unwrap();
    assert_eq!(names(&session), vec!["ADH-abc"]);
}

#[test]
fn join_then_leave_is_not_joined() {
    for name in ["Frontpage", "ADH-abc", ""] {
        let mut session = alice();
        session.handle_command(&joined("Sex Driven LFRP", "Alice")).unwrap();
        session.on_command(Ok(joined(name, "Alice")));
        assert!(session.channels.contains(&room(name)));
        session.on_command(Ok(left(name, "Alice")));
        assert!(!session.channels.contains(&room(name)));
        assert_eq!(names(&session), vec!["Sex Driven LFRP"]);
    }
}

#[test]
fn channel_set() {
    let mut set = ChannelSet::new();
    assert_eq!(set.len(), 0);
    assert!(set.insert(room("a")));
    assert!(set.insert(room("b")));
    assert!(!set.insert(room("A")));
    assert!(set.insert(room("c")));
    assert_eq!(set.len(), 3);
    assert!(set.remove(&room("B")));
    assert!(!set.remove(&room("B")));
    let rooms: Vec<String> = set.to_vec().iter().map(|c| c.as_str().to_owned()).collect();
    assert_eq!(rooms, vec!["a", "c"]);
    assert!(set.insert(room("b")));
    let rooms: Vec<String> = set.to_vec().iter().map(|c| c.as_str().to_owned()).collect();
    assert_eq!(rooms, vec!["a", "c", "b"]);
}

#[test]
fn typing_is_told_when_it_changes() {
    let mut session = alice();
    let typing = |status| ServerCommand::Typing { character: ch("Bob"), status };
    assert_eq!(session.handle_command(&typing(TypingStatus::Typing)), Ok(Handling::Forward));
    assert_eq!(session.handle_command(&typing(TypingStatus::Typing)), Ok(Handling::Suppress));
    assert_eq!(session.handle_command(&typing(TypingStatus::Clear)), Ok(Handling::Forward));
    assert_eq!(session.handle_command(&typing(TypingStatus::Clear)), Ok(Handling::Suppress));
    // the record is kept by character, whatever the case of the name
    let shouted = ServerCommand::Typing { character: ch("BOB"), status: TypingStatus::Clear };
    assert_eq!(session.handle_command(&shouted), Ok(Handling::Suppress));
    let carol = ServerCommand::Typing { character: ch("Carol"), status: TypingStatus::Clear };
    assert_eq!(session.handle_command(&carol), Ok(Handling::Forward));
    assert_eq!(session.private_messages.len(), 2);
    assert_eq!(session.private_messages.get("bob").map(|e| *e), Some(TypingStatus::Clear));
    assert_eq!(
        session.on_command(Ok(typing(TypingStatus::Paused))),
        FrameOutcome::Emit(SessionEvent::Command(typing(TypingStatus::Paused)))
    );
    assert_eq!(session.on_command(Ok(typing(TypingStatus::Paused))), FrameOutcome::Nothing);
}

#[test]
fn reconnect_joins_the_rooms_again_in_order() {
    let mut old = alice();
    old.handle_command(&joined("Frontpage", "Alice")).unwrap();
    old.handle_command(&joined("ADH-abc", "Alice")).unwrap();
    old.handle_command(&ServerCommand::Error { number: 9999, message: String::new() }).unwrap();
    assert_eq!(old.on_close(), SessionEvent::Reconnect);

    let (handshake, identify) = old.reconnect("user".into(), "fresh".into(), "n".into(), "v".into());
    assert_eq!(
        identify,
        ClientCommand::Identify {
            method: IdentifyMethod::Ticket,
            account: "user".into(),
            ticket: "fresh".into(),
            character: ch("Alice"),
            client_name: "n".into(),
            client_version: "v".into(),
        }
    );
    assert_eq!(handshake.rejoin, vec![room("Frontpage"), room("ADH-abc")]);
    let step = run_handshake(
        handshake,
        &[r#"IDN {"character":"Alice"}"#, r#"VAR {"variable":"chat_max","value":10}"#, r#"HLO {"message":"again"}"#],
    )
    .unwrap();
    match step {
        HandshakeStep::Ready { session, rejoin, .. } => {
            assert_eq!(
                rejoin,
                vec![
                    ClientCommand::JoinChannel { channel: room("Frontpage") },
                    ClientCommand::JoinChannel { channel: room("ADH-abc") },
                ]
            );
            let frames: Vec<String> = rejoin.iter().map(|c| session.send(c)).collect();
            assert_eq!(frames, vec![r#"JCH {"channel":"Frontpage"}"#, r#"JCH {"channel":"ADH-abc"}"#]);
            assert_eq!(session.character, ch("Alice"));
            assert_eq!(session.channels.len(), 0);
            assert_eq!(session.variables.chat_max, 10);
        }
        HandshakeStep::Continue(_) => panic!("the handshake did not end"),
    }
}

#[test]
fn outbound_commands() {
    let session = alice();
    assert_eq!(
        session.send_message(MessageTarget::Broadcast, "all".into()),
        vec![ClientCommand::Broadcast { message: "all".into() }]
    );
    assert_eq!(
        session.send_message(MessageTarget::Channel(room("Frontpage")), "hi".into()),
        vec![ClientCommand::Message { channel: room("Frontpage"), message: "hi".into() }]
    );
    assert_eq!(
        session.send_message(MessageTarget::PrivateMessage(ch("Bob")), "psst".into()),
        vec![
            ClientCommand::PrivateMessage { recipient: ch("Bob"), message: "psst".into() },
            ClientCommand::Typing { character: ch("Bob"), status: TypingStatus::Clear },
        ]
    );
    assert_eq!(
        session.send_dice(MessageTarget::Channel(room("Frontpage")), "2d6".into()),
        ClientCommand::Roll { target: Target::Channel { channel: room("Frontpage") }, dice: "2d6".into() }
    );
    assert_eq!(
        session.send_dice(MessageTarget::PrivateMessage(ch("Bob")), "2d6".into()),
        ClientCommand::Roll { target: Target::Character { recipient: ch("Bob") }, dice: "2d6".into() }
    );
    assert_eq!(session.join_channel(room("Frontpage")), ClientCommand::JoinChannel { channel: room("Frontpage") });
    assert_eq!(
        session.send(&ClientCommand::Message { channel: room("Frontpage"), message: "hi".into() }),
        r#"MSG {"channel":"Frontpage","message":"hi"}"#
    );
}

#[test]
fn frames_come_out_in_the_order_in_which_they_came_in() {
    let mut session = alice();
    let frames = vec![
        parse_command(r#"JCH {"channel":"Frontpage","character":{"identity":"Alice"},"title":"Frontpage"}"#),
        parse_command("PIN"),
        parse_command(r#"TPN {"character":"Bob","status":"typing"}"#),
        parse_command(r#"TPN {"character":"Bob","status":"typing"}"#),
        parse_command("XYZ"),
        parse_command(r#"ERR {"number":9,"message":"banned"}"#),
        parse_command(r#"LCH {"channel":"frontpage","character":"alice"}"#),
    ];
    let outcomes = session.on_commands(frames);
    assert_eq!(
        outcomes,
        vec![
            FrameOutcome::Emit(SessionEvent::Command(joined("Frontpage", "Alice"))),
            FrameOutcome::Reply(ClientCommand::Pong),
            FrameOutcome::Emit(SessionEvent::Command(ServerCommand::Typing {
                character: ch("Bob"),
                status: TypingStatus::Typing,
            })),
            FrameOutcome::Nothing,
            FrameOutcome::Skipped(CodecError::UnknownCommand("XYZ".to_owned())),
            FrameOutcome::Emit(SessionEvent::Command(ServerCommand::Error { number: 9, message: "banned".to_owned() })),
            FrameOutcome::Emit(SessionEvent::Command(left("frontpage", "alice"))),
        ]
    );
    assert_eq!(session.channels.len(), 0);
    assert_eq!(session.last_err, 9);
    assert!(alice().on_commands(Vec::new()).is_empty());
}
