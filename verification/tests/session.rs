use ws_gateway::gen_uuid;
use ws_gateway::parse;
use ws_gateway::Action;
use ws_gateway::Event;
use ws_gateway::Json;
use ws_gateway::Opcodes;
use ws_gateway::ParseError;
use ws_gateway::Registry;
use ws_gateway::Session;
use ws_gateway::User;
use ws_gateway::WSMessage;

const GREETING: &str = "{\"message\":\"You connected\"}";
const MISSING: &str = "{\"error\":\"missing login data\"}";

fn open_session() -> Session {
    let (session, _) = Session::accept();
    session
}

/// Carries the actions out on the registry and gives back what was sent.
fn carry_out(registry: &mut Registry, actions: Vec<Action>) -> Vec<Action> {
    let mut sent = Vec::new();
    for action in actions {
        match action {
            Action::Register { .. } => registry.apply(action),
            Action::LogRegistry => {
                let _ = registry.snapshot_for_log();
            }
            other => sent.push(other),
        }
    }
    sent
}

/// The token and the id that a success payload names.
fn read_success(payload: &str) -> (String, String) {
    let head = "{\"connection\": {\"token\":\"";
    let middle = "\", \"id\":\"";
    let tail = "\"}}";
    assert!(payload.starts_with(head), "{}", payload);
    assert!(payload.ends_with(tail), "{}", payload);
    let inner = &payload[head.len()..payload.len() - tail.len()];
    let at = inner.find(middle).unwrap();
    (inner[..at].to_string(), inner[at + middle.len()..].to_string())
}

#[test]
fn literal_payloads() {
    assert_eq!(ws_gateway::session::GREETING, "{\"message\":\"You connected\"}");
    assert_eq!(ws_gateway::session::MISSING_LOGIN_DATA, "{\"error\":\"missing login data\"}");
    assert_eq!(ws_gateway::session::UNNAMED_USER, "Unnamed user");
}

#[test]
fn accept_greets() {
    let (session, actions) = Session::accept();
    assert!(session.is_open());
    assert_eq!(actions, vec![Action::SendText(GREETING.to_string())]);
}

#[test]
fn connect_without_login_data_is_refused_and_closed() {
    let mut session = open_session();
    let actions = session.on_frame("{\"t\":\"Connect\",\"d\":null}");
    assert_eq!(actions, vec![Action::SendBinary(MISSING.to_string()), Action::Close]);
    assert!(!session.is_open());
}

#[test]
fn connect_without_login_data_is_refused_whatever_went_before() {
    let mut registry = Registry::new();
    let mut session = open_session();
    let first = session.on_frame("{\"t\":\"Connect\",\"d\":{}}");
    carry_out(&mut registry, first);
    let second = session.on_frame("{\"t\":\"Connect\",\"d\":{\"login_pkg\":1}}");
    assert!(second.is_empty());
    let snapshot = registry.snapshot_for_log();
    let actions = session.on_frame("{\"d\":null,\"t\":\"Connect\"}");
    assert_eq!(actions, vec![Action::SendBinary(MISSING.to_string()), Action::Close]);
    let sent = carry_out(&mut registry, actions);
    assert_eq!(sent.len(), 2);
    assert!(!session.is_open());
    assert_eq!(registry.len(), 1);
    assert_eq!(registry.snapshot_for_log(), snapshot);
}

#[test]
fn connect_with_empty_payload_registers_a_new_user() {
    let mut registry = Registry::new();
    let mut session = open_session();
    let actions = session.on_frame("{\"t\":\"Connect\",\"d\":{}}");
    assert!(session.is_open());
    assert_eq!(actions.len(), 3);
    let (id, user) = match &actions[0] {
        Action::Register { id, user } => (id.clone(), user.clone()),
        other => panic!("{:?}", other),
    };
    let payload = match &actions[1] {
        Action::SendBinary(payload) => payload.clone(),
        other => panic!("{:?}", other),
    };
    assert_eq!(actions[2], Action::LogRegistry);
    assert_eq!(*user.id(), id);
    assert_eq!(user.name(), "Unnamed user");
    assert_eq!(user.token().len(), 36);
    assert_eq!(id.len(), 36);
    assert_ne!(*user.token(), id);
    assert_eq!(
        payload,
        format!("{{\"connection\": {{\"token\":\"{}\", \"id\":\"{}\"}}}}", user.token(), id)
    );
    let (told_token, told_id) = read_success(&payload);
    assert_eq!(told_token, *user.token());
    assert_eq!(told_id, id);

    assert!(!registry.contains(&told_id));
    let sent = carry_out(&mut registry, actions);
    assert_eq!(sent, vec![Action::SendBinary(payload)]);
    assert_eq!(registry.len(), 1);
    assert!(registry.contains(&told_id));
    assert_eq!(registry.get(&told_id), Some(&user));
    assert_eq!(
        registry.snapshot_for_log(),
        format!(
            "{{\"{}\": User {{ id: \"{}\", name: \"Unnamed user\", token: \"{}\" }}}}",
            id, id, told_token
        )
    );
}

#[test]
fn success_payload_is_well_formed_json() {
    let mut session = open_session();
    let actions = session.on_frame("{\"t\":\"Connect\",\"d\":{}}");
    let payload = match &actions[1] {
        Action::SendBinary(payload) => payload.clone(),
        other => panic!("{:?}", other),
    };
    let value: serde_json::Value = serde_json::from_str(&payload).unwrap();
    let (token, id) = read_success(&payload);
    assert_eq!(value["connection"]["token"], serde_json::Value::String(token));
    assert_eq!(value["connection"]["id"], serde_json::Value::String(id));
}

#[test]
fn a_session_may_register_more_than_once() {
    let mut registry = Registry::new();
    let mut session = open_session();
    let mut ids = Vec::new();
    for round in 1..=5 {
        let actions = session.on_frame("{\"t\":\"Connect\",\"d\":{\"name\":\"x\"}}");
        let sent = carry_out(&mut registry, actions);
        assert_eq!(sent.len(), 1);
        let payload = match &sent[0] {
            Action::SendBinary(payload) => payload.clone(),
            other => panic!("{:?}", other),
        };
        let (_, id) = read_success(&payload);
        assert!(!ids.contains(&id));
        ids.push(id);
        assert_eq!(registry.len(), round);
        assert!(session.is_open());
    }
    for id in &ids {
        assert!(registry.contains(id));
    }
}

#[test]
fn connect_with_payload_that_is_no_object_registers() {
    for text in [
        "{\"t\":\"Connect\",\"d\":1}",
        "{\"t\":\"Connect\",\"d\":\"x\"}",
        "{\"t\":\"Connect\",\"d\":[]}",
        "{\"t\":\"Connect\",\"d\":false}",
        "{\"t\":\"Connect\",\"d\":[{\"login_pkg\":1}]}",
    ] {
        let mut session = open_session();
        let actions = session.on_frame(text);
        assert_eq!(actions.len(), 3, "{}", text);
        assert!(session.is_open());
    }
}

#[test]
fn connect_with_login_pkg_is_ignored() {
    let mut registry = Registry::new();
    registry.insert("k".to_string(), User::new("n".to_string(), "t".to_string(), "k".to_string()));
    let before = registry.snapshot_for_log();
    let mut session = open_session();
    let actions = session.on_frame("{\"t\":\"Connect\",\"d\":{\"login_pkg\":\"anything\"}}");
    assert!(actions.is_empty());
    assert!(session.is_open());
    let sent = carry_out(&mut registry, actions);
    assert!(sent.is_empty());
    assert_eq!(registry.len(), 1);
    assert_eq!(registry.snapshot_for_log(), before);

    let more = session.on_frame("{\"t\":\"Connect\",\"d\":{}}");
    assert_eq!(more.len(), 3);
    assert!(session.is_open());
}

#[test]
fn connect_with_null_login_pkg_is_ignored() {
    let mut registry = Registry::new();
    let (mut session, greeting) = Session::accept();
    let mut sent = carry_out(&mut registry, greeting);
    let actions = session.on_frame("{\"t\":\"Connect\",\"d\":{\"login_pkg\":null}}");
    assert!(actions.is_empty());
    sent.extend(carry_out(&mut registry, actions));
    assert_eq!(sent, vec![Action::SendText(GREETING.to_string())]);
    assert_eq!(registry.len(), 0);
    assert_eq!(registry.snapshot_for_log(), "{}");
    assert!(session.is_open());
}

#[test]
fn unknown_opcode_ends_the_session_in_silence() {
    let mut registry = Registry::new();
    let mut session = open_session();
    let actions = session.on_frame("{\"t\":\"Shout\",\"d\":{}}");
    assert!(actions.is_empty());
    assert!(!session.is_open());
    carry_out(&mut registry, actions);
    assert_eq!(registry.len(), 0);
}

#[test]
fn malformed_text_ends_the_session_in_silence() {
    for text in ["", "{", "not json", "{\"t\":\"Connect\"}", "{\"d\":{}}", "[]", "42"] {
        let mut registry = Registry::new();
        let mut session = open_session();
        let actions = session.on_frame(text);
        assert!(actions.is_empty(), "{}", text);
        assert!(!session.is_open(), "{}", text);
        carry_out(&mut registry, actions);
        assert_eq!(registry.len(), 0);
    }
}

#[test]
fn a_session_that_is_over_does_nothing() {
    let mut session = open_session();
    session.on_failure();
    assert!(!session.is_open());
    assert!(session.on_frame("{\"t\":\"Connect\",\"d\":{}}").is_empty());
    assert!(session.on_frame("{\"t\":\"Connect\",\"d\":null}").is_empty());
    assert!(session.step(Event::Frame("{\"t\":\"Connect\",\"d\":{}}".to_string())).is_empty());
    assert!(session
        .respond(Ok(WSMessage::new(Opcodes::Connect, Json::Null)))
        .is_empty());
    assert!(!session.is_open());
}

#[test]
fn step_takes_frames_and_failures() {
    let mut session = open_session();
    let actions = session.step(Event::Frame("{\"t\":\"Connect\",\"d\":{\"login_pkg\":true}}".to_string()));
    assert!(actions.is_empty());
    assert!(session.is_open());
    let actions = session.step(Event::Frame("{\"t\":\"Connect\",\"d\":{}}".to_string()));
    assert_eq!(actions.len(), 3);
    let actions = session.step(Event::Failed);
    assert!(actions.is_empty());
    assert!(!session.is_open());
}

#[test]
fn respond_goes_by_what_was_read() {
    let mut session = open_session();
    assert!(session.respond(parse("{\"t\":\"Connect\",\"d\":{\"login_pkg\":0}}")).is_empty());
    assert!(session.is_open());
    assert_eq!(
        session.respond(Ok(WSMessage::new(Opcodes::Connect, Json::Null))),
        vec![Action::SendBinary(MISSING.to_string()), Action::Close]
    );
    assert!(!session.is_open());

    for error in [
        ParseError::Malformed,
        ParseError::MissingOpcode,
        ParseError::UnknownOpcode,
        ParseError::MissingPayload,
    ] {
        let mut session = open_session();
        assert!(session.respond(Err(error)).is_empty());
        assert!(!session.is_open());
    }
}

#[test]
fn registration_of_a_given_token_and_id() {
    let actions = Session::registration("tok".to_string(), "me".to_string());
    assert_eq!(
        actions,
        vec![
            Action::Register {
                id: "me".to_string(),
                user: User::new("Unnamed user".to_string(), "tok".to_string(), "me".to_string()),
            },
            Action::SendBinary("{\"connection\": {\"token\":\"tok\", \"id\":\"me\"}}".to_string()),
            Action::LogRegistry,
        ]
    );
}

#[test]
fn success_payload_of_a_given_token_and_id() {
    assert_eq!(
        Session::success_payload(
            "11111111-2222-4333-8444-555555555555",
            "aaaaaaaa-bbbb-4ccc-9ddd-eeeeeeeeeeee"
        ),
        "{\"connection\": {\"token\":\"11111111-2222-4333-8444-555555555555\", \"id\":\"aaaaaaaa-bbbb-4ccc-9ddd-eeeeeeeeeeee\"}}"
    );
    assert_eq!(Session::success_payload("", ""), "{\"connection\": {\"token\":\"\", \"id\":\"\"}}");
    let token = gen_uuid();
    let id = gen_uuid();
    let payload = Session::success_payload(&token, &id);
    assert_eq!(payload.len(), 109);
    assert_eq!(&payload[25..61], token);
    assert_eq!(&payload[70..106], id);
}

#[test]
fn registering_under_a_known_id_replaces_the_user() {
    let mut registry = Registry::new();
    carry_out(&mut registry, Session::registration("t1".to_string(), "same".to_string()));
    carry_out(&mut registry, Session::registration("other".to_string(), "x".to_string()));
    carry_out(&mut registry, Session::registration("t2".to_string(), "same".to_string()));
    assert_eq!(registry.len(), 2);
    assert_eq!(registry.get("same").unwrap().token(), "t2");
}

#[test]
fn two_clients_register_side_by_side() {
    let mut registry = Registry::new();
    let (mut first, greet_first) = Session::accept();
    let (mut second, greet_second) = Session::accept();
    assert_eq!(greet_first, vec![Action::SendText(GREETING.to_string())]);
    assert_eq!(greet_second, vec![Action::SendText(GREETING.to_string())]);

    let from_first = first.on_frame("{\"t\":\"Connect\",\"d\":{}}");
    let from_second = second.on_frame("{\"t\":\"Connect\",\"d\":{}}");
    // The second client's user goes in before the first one's.
    let sent_second = carry_out(&mut registry, from_second);
    let sent_first = carry_out(&mut registry, from_first);

    let payload_first = match &sent_first[0] {
        Action::SendBinary(payload) => payload.clone(),
        other => panic!("{:?}", other),
    };
    let payload_second = match &sent_second[0] {
        Action::SendBinary(payload) => payload.clone(),
        other => panic!("{:?}", other),
    };
    assert_ne!(payload_first, payload_second);
    let (token_first, id_first) = read_success(&payload_first);
    let (token_second, id_second) = read_success(&payload_second);
    assert_ne!(id_first, id_second);
    assert_ne!(token_first, token_second);

    assert_eq!(registry.len(), 2);
    assert_eq!(registry.get(&id_first).unwrap().token(), &token_first);
    assert_eq!(registry.get(&id_second).unwrap().token(), &token_second);
    assert_eq!(registry.get(&id_first).unwrap().id(), &id_first);
    assert_eq!(registry.get(&id_second).unwrap().id(), &id_second);
    assert!(first.is_open());
    assert!(second.is_open());
}
